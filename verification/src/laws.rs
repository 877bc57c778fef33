use vstd::prelude::*;
use crate::event::{DeviceId, DeviceInfo, HotplugEvent, Readiness};
use crate::model::{
    lemma_leading_failures, lemma_leading_failures_is, leading_failures, Happening, Source,
    WatchModel,
};
use crate::protocol::{Command, Reply, Stage, Taken};
use crate::setup::{registered, Error, SetupCommand, SetupReply, SetupStage};

verus! {

/// Nothing that happens to a watch gives back an entry that was taken: the
/// watch stays well formed and the counts of taken entries never fall.
pub proof fn lemma_taken_never_falls(m: WatchModel, hs: Seq<Happening>)
    requires
        m.wf(),
    ensures
        m.after_all(hs).wf(),
        m.after_all(hs).arrivals_taken >= m.arrivals_taken,
        m.after_all(hs).terminations_taken >= m.terminations_taken,
    decreases hs.len(),
{
    if hs.len() > 0 {
        lemma_leading_failures(m.pending_arrivals());
        lemma_taken_never_falls(m.on(hs[0]), hs.skip(1));
    }
}

/// A poll returns an event exactly where it has a source, and the event is
/// made from the entry that the source names, which the poll takes off its
/// queue.
pub proof fn lemma_event_and_source(m: WatchModel)
    requires
        m.wf(),
    ensures
        m.polled().wf(),
        match m.poll_source() {
            Some(Source::Arrival(k)) => {
                &&& m.arrivals_taken <= k < m.polled().arrivals_taken
                &&& m.arrivals[k as int].is_some()
                &&& m.poll_result() == Readiness::Ready(
                    HotplugEvent::Connected(m.arrivals[k as int].unwrap()),
                )
            },
            Some(Source::Termination(k)) => {
                &&& m.terminations_taken <= k < m.polled().terminations_taken
                &&& m.terminations[k as int].is_some()
                &&& m.poll_result() == Readiness::Ready(
                    HotplugEvent::Disconnected(DeviceId(m.terminations[k as int].unwrap())),
                )
            },
            None => m.poll_result() == Readiness::Pending,
        },
{
    lemma_leading_failures(m.pending_arrivals());
}

/// No entry is reported twice. Of two polls of one watch, whatever happens
/// between them, the second never makes its event from the entry that the
/// first made its event from.
pub proof fn law_no_entry_reported_twice(m: WatchModel, between: Seq<Happening>)
    requires
        m.wf(),
    ensures
        m.poll_source().is_some() ==> m.polled().after_all(between).poll_source()
            != m.poll_source(),
{
    let later = m.polled().after_all(between);
    lemma_event_and_source(m);
    lemma_taken_never_falls(m.polled(), between);
    lemma_event_and_source(later);
}

/// The devices that were connected when the watch was set up are never
/// reported. The first poll of a fresh watch is pending and takes nothing,
/// and whatever happens later, no poll makes its event from an entry that
/// the arrival queue held at the start.
pub proof fn law_backlog_is_silent(backlog: Seq<Option<DeviceInfo>>, later: Seq<Happening>)
    ensures
        WatchModel::started(backlog).poll_result() == Readiness::Pending,
        WatchModel::started(backlog).polled() == WatchModel::started(backlog),
        match WatchModel::started(backlog).after_all(later).poll_source() {
            Some(Source::Arrival(k)) => k >= backlog.len(),
            _ => true,
        },
{
    let fresh = WatchModel::started(backlog);
    assert(fresh.pending_arrivals().len() == 0);
    assert(fresh.pending_terminations().len() == 0);
    lemma_taken_never_falls(fresh, later);
    lemma_event_and_source(fresh.after_all(later));
}

/// Arrivals come first. Where a pending arrival was probed, the poll
/// returns a connection and leaves the termination queue as it was. Where a
/// poll takes a termination, every pending arrival had failed and all of
/// them are gone.
pub proof fn law_arrivals_come_first(m: WatchModel)
    requires
        m.wf(),
    ensures
        (exists|k: int| 0 <= k < m.pending_arrivals().len() && (#[trigger] m.pending_arrivals()[
            k
        ]).is_some()) ==> {
            &&& m.poll_result() matches Readiness::Ready(HotplugEvent::Connected(_))
            &&& m.polled().terminations_taken == m.terminations_taken
        },
        m.polled().terminations_taken != m.terminations_taken ==> {
            &&& m.polled().terminations_taken == m.terminations_taken + 1
            &&& m.polled().pending_arrivals().len() == 0
            &&& forall|j: int|
                0 <= j < m.pending_arrivals().len() ==> (#[trigger] m.pending_arrivals()[
                    j
                ]).is_none()
        },
{
    lemma_leading_failures(m.pending_arrivals());
}

/// A failed probe holds nothing up. Whatever number of failed arrivals
/// stands before the first that was probed, the same poll passes over them
/// and returns that one.
pub proof fn law_failed_probes_are_passed_over(m: WatchModel, k: int)
    requires
        m.wf(),
        0 <= k < m.pending_arrivals().len(),
        m.pending_arrivals()[k].is_some(),
        forall|j: int| 0 <= j < k ==> (#[trigger] m.pending_arrivals()[j]).is_none(),
    ensures
        m.poll_result() == Readiness::Ready(
            HotplugEvent::Connected(m.pending_arrivals()[k].unwrap()),
        ),
        m.polled().arrivals_taken == m.arrivals_taken + k + 1,
        m.polled().terminations_taken == m.terminations_taken,
{
    lemma_leading_failures_is(m.pending_arrivals(), k);
}

/// A termination whose identifier cannot be read costs one poll and no
/// more. With no arrival to report, that poll is pending and takes the
/// termination off; the next poll reports the termination behind it.
pub proof fn law_unidentified_termination_costs_one_poll(m: WatchModel, id: u64)
    requires
        m.wf(),
        forall|j: int|
            0 <= j < m.pending_arrivals().len() ==> (#[trigger] m.pending_arrivals()[j]).is_none(),
        m.pending_terminations().len() >= 2,
        m.pending_terminations()[0].is_none(),
        m.pending_terminations()[1] == Some(id),
    ensures
        m.poll_result() == Readiness::Pending,
        m.polled().poll_result() == Readiness::Ready(HotplugEvent::Disconnected(DeviceId(id))),
{
    lemma_leading_failures_is(m.pending_arrivals(), m.pending_arrivals().len() as int);
    let next = m.polled();
    assert(next.pending_arrivals().len() == 0);
    assert(next.pending_terminations()[0] == m.pending_terminations()[1]);
}

/// Every poll arms the waker, first and once: a poll begins by asking for
/// the waker to be registered, and no reply leads back to that stage.
pub proof fn law_waker_is_armed_first(stage: Stage, reply: Reply)
    ensures
        Stage::Arming.command_of() == Command::RegisterWaker,
        stage.command_of() == Command::RegisterWaker <==> stage == Stage::Arming,
        stage.expects(reply) ==> stage.after(reply) != Stage::Arming,
{
}

/// A poll ends. Every answered command either takes an arrival off its
/// queue or leaves fewer stages to pass through; a failed arrival leaves
/// the poll where it was, and nothing else does.
pub proof fn law_poll_advances(stage: Stage, reply: Reply)
    requires
        stage.expects(reply),
    ensures
        stage.after(reply).stages_left() < stage.stages_left() || (stage == Stage::Arrivals
            && stage.after(reply) == stage && (reply matches Reply::Arrival(Taken::Failed))),
{
}

/// The answer that `command` gets when criteria are obtained or not and the
/// two registrations end with these statuses.
pub open spec fn setup_answer(
    command: SetupCommand,
    criteria_obtained: bool,
    terminated_status: i32,
    matched_status: i32,
) -> SetupReply {
    match command {
        SetupCommand::BuildCriteria => SetupReply::Criteria(criteria_obtained),
        SetupCommand::Register => SetupReply::Registered(terminated_status, matched_status),
        _ => SetupReply::Done,
    }
}

/// The commands that setting up gives from `stage` on, each answered by
/// `setup_answer`, up to the one that hands out the watch or the error.
pub open spec fn setup_commands_from(
    stage: SetupStage,
    criteria_obtained: bool,
    terminated_status: i32,
    matched_status: i32,
) -> Seq<SetupCommand>
    decreases stage.commands_left(),
{
    let command = stage.command_of();
    let reply = setup_answer(command, criteria_obtained, terminated_status, matched_status);
    if stage.expects(reply) {
        seq![command] + setup_commands_from(
            stage.after(reply),
            criteria_obtained,
            terminated_status,
            matched_status,
        )
    } else {
        seq![command]
    }
}

/// Every answered command brings the end of setting up nearer.
pub proof fn law_setup_ends(stage: SetupStage, reply: SetupReply)
    requires
        stage.expects(reply),
    ensures
        stage.after(reply).commands_left() < stage.commands_left(),
{
}

/// Setting up succeeds whole or leaves nothing. Without criteria no port is
/// opened. With a failed registration the port is destroyed and nothing
/// else is done. Only with both registrations made are the arrivals drained
/// and the event loop joined, in that order, and only then is a watch
/// handed out.
pub proof fn law_setup_is_all_or_nothing(
    criteria_obtained: bool,
    terminated_status: i32,
    matched_status: i32,
)
    ensures
        setup_commands_from(
            SetupStage::Matching,
            criteria_obtained,
            terminated_status,
            matched_status,
        ) == (if !criteria_obtained {
            seq![SetupCommand::BuildCriteria, SetupCommand::Fail(Error::MatchingFailed)]
        } else if !registered(terminated_status, matched_status) {
            seq![
                SetupCommand::BuildCriteria,
                SetupCommand::Register,
                SetupCommand::DestroyPort,
                SetupCommand::Fail(Error::RegistrationFailed),
            ]
        } else {
            seq![
                SetupCommand::BuildCriteria,
                SetupCommand::Register,
                SetupCommand::DrainArrivals,
                SetupCommand::AddEventSource,
                SetupCommand::Succeed,
            ]
        }),
{
    reveal_with_fuel(setup_commands_from, 6);
    let got = setup_commands_from(
        SetupStage::Matching,
        criteria_obtained,
        terminated_status,
        matched_status,
    );
    if !criteria_obtained {
        assert(got =~= seq![
            SetupCommand::BuildCriteria,
            SetupCommand::Fail(Error::MatchingFailed),
        ]);
    } else if !registered(terminated_status, matched_status) {
        assert(got =~= seq![
            SetupCommand::BuildCriteria,
            SetupCommand::Register,
            SetupCommand::DestroyPort,
            SetupCommand::Fail(Error::RegistrationFailed),
        ]);
    } else {
        assert(got =~= seq![
            SetupCommand::BuildCriteria,
            SetupCommand::Register,
            SetupCommand::DrainArrivals,
            SetupCommand::AddEventSource,
            SetupCommand::Succeed,
        ]);
    }
}

} // verus!
