use tracer::elf::{DynValue, DynamicEntry};
use tracer::error::Fault;
use tracer::event::{DecodeFault, Event, Notice};
use tracer::probe::Target;
use tracer::report::{line_of_entry, line_of_notice, message};
use tracer::text::{push_decimal, push_digits, push_hex, push_signed, text_of};

fn dec(n: u64) -> String {
    let mut s = String::new();
    push_decimal(&mut s, n);
    s
}

fn hex(n: u64) -> String {
    let mut s = String::new();
    push_hex(&mut s, n);
    s
}

fn signed(n: i64) -> String {
    let mut s = String::new();
    push_signed(&mut s, n);
    s
}

#[test]
fn decimal_of_small_and_large_numbers() {
    assert_eq!(dec(0), "0");
    assert_eq!(dec(7), "7");
    assert_eq!(dec(10), "10");
    assert_eq!(dec(1905), "1905");
    assert_eq!(dec(u64::MAX), "18446744073709551615");
}

#[test]
fn decimal_agrees_with_std() {
    let mut n: u64 = 1;
    for _ in 0..64 {
        assert_eq!(dec(n), format!("{}", n));
        assert_eq!(dec(n - 1), format!("{}", n - 1));
        n = n.wrapping_mul(3).wrapping_add(n >> 3) | 1;
    }
}

#[test]
fn hexadecimal_has_prefix_and_lower_case_digits() {
    assert_eq!(hex(0), "0x0");
    assert_eq!(hex(0x2A), "0x2a");
    assert_eq!(hex(0xDEAD_BEEF), "0xdeadbeef");
    assert_eq!(hex(u64::MAX), "0xffffffffffffffff");
    assert_eq!(hex(0x1000), format!("{:#x}", 0x1000));
}

#[test]
fn signed_decimal_has_a_minus_sign() {
    assert_eq!(signed(0), "0");
    assert_eq!(signed(-1), "-1");
    assert_eq!(signed(42), "42");
    assert_eq!(signed(i64::MAX), "9223372036854775807");
    assert_eq!(signed(i64::MIN), "-9223372036854775808");
    assert_eq!(signed(i32::MIN as i64), format!("{}", i32::MIN));
}

#[test]
fn digits_are_appended_to_what_is_there() {
    let mut s = String::from("n=");
    push_digits(&mut s, 255, false);
    s.push(' ');
    push_digits(&mut s, 255, true);
    assert_eq!(s, "n=255 ff");
}

#[test]
fn text_of_bytes_replaces_what_is_invalid() {
    assert_eq!(text_of(b"libc.so.6"), "libc.so.6");
    assert_eq!(text_of(&[0x2f, 0xC3, 0xA9]), "/\u{e9}");
    assert_eq!(text_of(&[0x2f, 0xC3]), "/\u{FFFD}");
    assert_eq!(text_of(b""), "");
}

#[test]
fn queue_record_is_written_as_length_and_head() {
    let notice = Notice::Queue(Event { event_head: 0x2A, queue_len: 1 });
    assert_eq!(line_of_notice(&notice), Some("queue_len: 1, event_head: 0x2a".to_string()));
    let e = Event { event_head: 0xffff_8000_1234_5678, queue_len: 300 };
    assert_eq!(
        line_of_notice(&Notice::Queue(e)),
        Some(format!("queue_len: {}, event_head: {:#x}", e.queue_len, e.event_head))
    );
}

#[test]
fn loss_warning_mentions_channel_and_count() {
    assert_eq!(
        line_of_notice(&Notice::Lost { channel: 0, count: 5 }),
        Some("Lost 5 events on CPU 0".to_string())
    );
    assert_eq!(
        line_of_notice(&Notice::Lost { channel: -3, count: u64::MAX }),
        Some(format!("Lost {} events on CPU {}", u64::MAX, -3))
    );
}

#[test]
fn text_notice_is_its_own_line() {
    assert_eq!(line_of_notice(&Notice::Text("hello".to_string())), Some("hello".to_string()));
    assert_eq!(line_of_notice(&Notice::Text(String::new())), Some(String::new()));
}

#[test]
fn short_sample_is_reported_with_its_length() {
    let fault = DecodeFault { channel: 1, expected: 16, actual: 3 };
    assert_eq!(
        line_of_notice(&Notice::Malformed(fault)),
        Some("Short sample on channel 1: 3 of 16 bytes".to_string())
    );
}

#[test]
fn ignored_sample_has_no_line() {
    assert_eq!(line_of_notice(&Notice::Ignored { channel: 9 }), None);
}

#[test]
fn trace_shows_tag_and_string() {
    let entry = DynamicEntry { tag: 29, value: DynValue::Text(b"/a:/b".to_vec()) };
    assert_eq!(line_of_entry(&entry), Some("29 /a:/b".to_string()));
    let needed = DynamicEntry { tag: 1, value: DynValue::Text(b"libc.so.6".to_vec()) };
    assert_eq!(line_of_entry(&needed), Some("1 libc.so.6".to_string()));
    let odd = DynamicEntry { tag: -5, value: DynValue::Text(vec![0xFF]) };
    assert_eq!(line_of_entry(&odd), Some("-5 \u{FFFD}".to_string()));
}

#[test]
fn trace_skips_numbers() {
    let entry = DynamicEntry { tag: 30, value: DynValue::Raw(8) };
    assert_eq!(line_of_entry(&entry), None);
}

#[test]
fn message_names_the_stage_that_failed() {
    assert_eq!(message(&Fault::MalformedBinary), "binary analysis failed");
    assert_eq!(message(&Fault::NoRuntimeDependency), "runtime library resolution failed");
    assert_eq!(message(&Fault::RuntimeLibraryNotFound), "runtime library resolution failed");
    assert_eq!(message(&Fault::ProgramOpenFailed), "program open failed");
    assert_eq!(message(&Fault::ProgramLoadFailed), "program load failed");
    assert_eq!(message(&Fault::PollError), "polling failed");
}

#[test]
fn message_of_a_failed_attachment_names_the_probe() {
    let fault = Fault::ProbeAttachFailed {
        program: "uprobe_epoll_wait".to_string(),
        target: Target::Runtime,
        symbol: "epoll_wait".to_string(),
    };
    assert_eq!(
        message(&fault),
        "probe attachment failed: program uprobe_epoll_wait, C runtime, symbol epoll_wait"
    );
    let other = Fault::ProbeAttachFailed {
        program: "p".to_string(),
        target: Target::Interceptor,
        symbol: "s".to_string(),
    };
    assert_eq!(message(&other), "probe attachment failed: program p, interceptor module, symbol s");
    let primary = Fault::ProbeAttachFailed {
        program: "p".to_string(),
        target: Target::Primary,
        symbol: "s".to_string(),
    };
    assert_eq!(message(&primary), "probe attachment failed: program p, primary target, symbol s");
}

#[test]
fn message_of_a_decode_fault_gives_the_lengths() {
    let fault = Fault::Decode(DecodeFault { channel: 1, expected: 16, actual: 15 });
    assert_eq!(message(&fault), "sample decoding failed: 15 of 16 bytes on channel 1");
}
