//! What holds of every session: it only moves forward, it polls only once
//! every probe is attached, and a failure ends it.

use crate::session::{CommandModel, Phase, Report, SessionModel};
use vstd::prelude::*;

verus! {

/// How far a phase is along the course of a session.
pub open spec fn rank(phase: Phase, probes: int) -> int {
    match phase {
        Phase::Unopened => 0,
        Phase::Opened => 1,
        Phase::Loaded => 2,
        Phase::Attached(n) => 2 + n,
        Phase::Failed(_) => 3 + probes,
        Phase::Stopped => 3 + probes,
    }
}

/// A report keeps the validity of a session.
pub proof fn advance_keeps_wf(s: SessionModel, report: Report)
    requires
        s.wf(),
        s.table.len() <= usize::MAX,
    ensures
        s.advance(report).wf(),
{
}

/// A session never goes back: no report leads to an earlier phase.
pub proof fn session_moves_forward(s: SessionModel, report: Report)
    requires
        s.wf(),
        s.table.len() <= usize::MAX,
    ensures
        rank(s.advance(report).phase, s.table.len() as int) >= rank(
            s.phase,
            s.table.len() as int,
        ),
{
}

/// A session asks for a poll only when every probe of its table is attached.
pub proof fn poll_needs_every_probe(s: SessionModel)
    requires
        s.wf(),
        s.pending() is Poll,
    ensures
        s.attached() == Some(s.table.len() as int),
{
}

/// A failed step ends the session: whatever step failed, the session asks
/// for nothing more than to give up, and never for a poll.
pub proof fn failure_aborts(s: SessionModel)
    requires
        s.wf(),
        !(s.phase is Stopped),
    ensures
        s.advance(Report::Failed).phase is Failed,
        s.advance(Report::Failed).pending() is Abort,
{
}

/// The fault of a failed attachment names the probe that was being attached.
pub proof fn failed_attachment_names_probe(s: SessionModel)
    requires
        s.wf(),
        s.pending() is Attach,
    ensures
        s.advance(Report::Failed).pending() == CommandModel::Abort(
            s.attach_fault(s.attached()->0),
        ),
{
}

/// Failure and cancellation are final: no later report changes the phase.
pub proof fn end_is_final(s: SessionModel, reports: Seq<Report>)
    requires
        s.phase is Failed || s.phase is Stopped,
    ensures
        s.after(reports).phase == s.phase,
        s.after(reports).pending() == s.pending(),
    decreases reports.len(),
{
    if reports.len() > 0 {
        end_is_final(s, reports.drop_last());
    }
}

/// Cancellation stops a session that has not ended.
pub proof fn cancel_stops(s: SessionModel)
    requires
        !(s.phase is Failed),
    ensures
        s.advance(Report::Cancel).phase == Phase::Stopped,
        s.advance(Report::Cancel).pending() == CommandModel::Shutdown,
{
}

/// `count` reports of success.
pub open spec fn successes(count: nat) -> Seq<Report> {
    Seq::new(count, |i: int| Report::Done)
}

/// Every probe of the table selects an image that the session has.
pub open spec fn every_target_known(s: SessionModel) -> bool {
    forall|i: int| 0 <= i < s.table.len() ==> (#[trigger] s.path_for(i)) is Some
}

/// The phase of a fresh session in which every step so far succeeded.
pub open spec fn phase_on_success(probes: int, done: int) -> Phase {
    if done == 0 {
        Phase::Unopened
    } else if done == 1 {
        Phase::Opened
    } else if done == 2 || probes == 0 {
        Phase::Loaded
    } else if done - 2 <= probes {
        Phase::Attached((done - 2) as usize)
    } else {
        Phase::Attached(probes as usize)
    }
}

/// While every step succeeds, a fresh session whose images are all known goes
/// through open and load, then through the probes of its table one by one.
pub proof fn success_leads_through_table(s: SessionModel, done: nat)
    requires
        s.phase == Phase::Unopened,
        s.table.len() <= usize::MAX,
        every_target_known(s),
    ensures
        s.after(successes(done)).phase == phase_on_success(s.table.len() as int, done as int),
        s.after(successes(done)).table == s.table,
        s.after(successes(done)).targets == s.targets,
    decreases done,
{
    if done > 0 {
        let before = (done - 1) as nat;
        success_leads_through_table(s, before);
        assert(successes(done).drop_last() =~= successes(before));
        assert(successes(done).last() == Report::Done);
        let prior = s.after(successes(before));
        if before >= 1 {
            let n = if before == 1 { 0 } else { prior.attached()->0 };
            if n + (if before == 1 { 0int } else { 1int }) < s.table.len() {
                assert(s.path_for(n + (if before == 1 { 0int } else { 1int })) is Some);
            }
        }
    }
}

/// With every step succeeding, the steps asked for after open and load are
/// the attachments of the table, each probe once and in table order, and the
/// first poll comes right after the last of them.
pub proof fn attaches_in_table_order(s: SessionModel, done: nat)
    requires
        s.phase == Phase::Unopened,
        s.table.len() <= usize::MAX,
        every_target_known(s),
        done >= 2,
    ensures
        done - 2 < s.table.len() ==> s.after(successes(done)).pending() == (
        CommandModel::Attach {
            program: s.table[done - 2].program,
            path: s.path_for(done - 2)->0,
            symbol: s.table[done - 2].symbol,
            retprobe: s.table[done - 2].retprobe,
        }),
        done - 2 >= s.table.len() ==> s.after(successes(done)).pending() is Poll,
{
    success_leads_through_table(s, done);
    let now = s.after(successes(done));
    if done - 2 < s.table.len() {
        assert(s.path_for(done - 2) is Some);
        assert(now.path_for(done - 2) == s.path_for(done - 2));
    }
}

} // verus!
