//! The lines that a session writes to the console.

use crate::elf::{DynValue, DynamicEntry, EntryModel, ValueModel};
use crate::error::{describe_stage, stage_name, Fault, FaultModel};
use crate::event::{Notice, NoticeModel};
use crate::probe::Target;
use crate::text::{
    decimal, hexadecimal, lossy_text, push_decimal, push_hex, push_signed, signed_decimal,
    utf8_lossy,
};
use vstd::prelude::*;
use vstd::string::StringExecFns;

verus! {

/// The line of a notice; a sample that is ignored has none.
pub open spec fn notice_line(notice: NoticeModel) -> Option<Seq<char>> {
    match notice {
        NoticeModel::Text(text) => Some(text),
        NoticeModel::Queue(event) => Some(
            "queue_len: "@ + decimal(event.queue_len as nat) + ", event_head: "@ + hexadecimal(
                event.event_head as nat,
            ),
        ),
        NoticeModel::Malformed(fault) => Some(
            "Short sample on channel "@ + signed_decimal(fault.channel as int) + ": "@ + decimal(
                fault.actual as nat,
            ) + " of "@ + decimal(fault.expected as nat) + " bytes"@,
        ),
        NoticeModel::Ignored { .. } => None,
        NoticeModel::Lost { channel, count } => Some(
            "Lost "@ + decimal(count as nat) + " events on CPU "@ + signed_decimal(channel as int),
        ),
    }
}

/// The view of an optional line.
pub open spec fn line_view(line: Option<String>) -> Option<Seq<char>> {
    match line {
        Some(text) => Some(text@),
        None => None,
    }
}

/// Writes the line of a notice.
pub fn line_of_notice(notice: &Notice) -> (line: Option<String>)
    ensures
        line_view(line) == notice_line(notice@),
{
    match notice {
        Notice::Text(text) => Some(text.clone()),
        Notice::Queue(event) => {
            let mut line = String::from_str("queue_len: ");
            push_decimal(&mut line, event.queue_len);
            line.append(", event_head: ");
            push_hex(&mut line, event.event_head);
            Some(line)
        },
        Notice::Malformed(fault) => {
            let mut line = String::from_str("Short sample on channel ");
            push_signed(&mut line, fault.channel as i64);
            line.append(": ");
            push_decimal(&mut line, fault.actual as u64);
            line.append(" of ");
            push_decimal(&mut line, fault.expected as u64);
            line.append(" bytes");
            Some(line)
        },
        Notice::Ignored { .. } => None,
        Notice::Lost { channel, count } => {
            let mut line = String::from_str("Lost ");
            push_decimal(&mut line, *count);
            line.append(" events on CPU ");
            push_signed(&mut line, *channel as i64);
            Some(line)
        },
    }
}

/// The line of the trace for an entry of the dynamic table: its tag and its
/// string. An entry that carries a number has none.
pub open spec fn trace_line(entry: EntryModel) -> Option<Seq<char>> {
    match entry.value {
        ValueModel::Text(text) => Some(
            signed_decimal(entry.tag as int) + " "@ + utf8_lossy(text),
        ),
        ValueModel::Raw(_) => None,
    }
}

/// Writes the line of the trace for an entry of the dynamic table.
pub fn line_of_entry(entry: &DynamicEntry) -> (line: Option<String>)
    ensures
        line_view(line) == trace_line(entry@),
{
    match &entry.value {
        DynValue::Text(text) => {
            let mut line = String::new();
            push_signed(&mut line, entry.tag);
            line.append(" ");
            let shown = lossy_text(text.as_slice());
            line.append(shown.as_str());
            assert(line@ =~= signed_decimal(entry.tag as int) + " "@ + utf8_lossy(text@));
            Some(line)
        },
        DynValue::Raw(_) => None,
    }
}

/// What a target is called in a message.
pub open spec fn target_name(target: Target) -> Seq<char> {
    match target {
        Target::Primary => "primary target"@,
        Target::Interceptor => "interceptor module"@,
        Target::Runtime => "C runtime"@,
    }
}

/// The message of a fault: the stage that failed and, for a probe or a
/// sample, which one.
pub open spec fn fault_message(fault: FaultModel) -> Seq<char> {
    let head = stage_name(fault.stage()) + " failed"@;
    match fault {
        FaultModel::ProbeAttachFailed { program, target, symbol } => head + ": program "@
            + program + ", "@ + target_name(target) + ", symbol "@ + symbol,
        FaultModel::Decode(decode) => head + ": "@ + decimal(decode.actual as nat) + " of "@
            + decimal(decode.expected as nat) + " bytes on channel "@ + signed_decimal(
            decode.channel as int,
        ),
        _ => head,
    }
}

/// Writes the message of a fault.
pub fn message(fault: &Fault) -> (text: String)
    ensures
        text@ == fault_message(fault@),
{
    let mut text = describe_stage(fault.stage());
    text.append(" failed");
    match fault {
        Fault::ProbeAttachFailed { program, target, symbol } => {
            text.append(": program ");
            text.append(program.as_str());
            text.append(", ");
            text.append(
                match target {
                    Target::Primary => "primary target",
                    Target::Interceptor => "interceptor module",
                    Target::Runtime => "C runtime",
                },
            );
            text.append(", symbol ");
            text.append(symbol.as_str());
        },
        Fault::Decode(decode) => {
            text.append(": ");
            push_decimal(&mut text, decode.actual as u64);
            text.append(" of ");
            push_decimal(&mut text, decode.expected as u64);
            text.append(" bytes on channel ");
            push_signed(&mut text, decode.channel as i64);
        },
        _ => {},
    }
    text
}

} // verus!
