//! What holds of every request that the sequencer runs.

use crate::command::{config_command_text, CONFIG_COMMANDS};
use crate::exchange::{response_outcome, wire_payload, PROBE_FIRST_TIMEOUT};
use crate::sequencer::model::{
    creg_query, debug_command, escape_sequence, line_break, poll_timeout, probe_line, runst_query,
    save_command, SequencerModel, Turn,
};
use crate::sequencer::{ActionModel, Event, Pending, Step};
use crate::types::{DtuAtError, ResponseModel};
use vstd::prelude::*;

verus! {

/// What holds of every turn of the machine: the state meets the invariant;
/// the request is over exactly when the action says so; and a response that
/// is handed out stays within the configured cap, carries the status code of
/// its bytes and meets the body policy.
pub open spec fn good_turn(turn: Turn) -> bool {
    &&& turn.0.wf()
    &&& turn.1 is Done <==> turn.0.step == Step::Finished
    &&& turn.1 matches ActionModel::Done(Ok(resp)) ==> resp.raw.len()
        <= turn.0.config.max_response_len && response_outcome(
        resp.raw,
        turn.0.config.require_body_on_success,
    ) == Ok::<ResponseModel, DtuAtError>(resp)
}

/// `turn` is a good turn that leaves the configuration and the request of `m`
/// as they are.
pub open spec fn follows(m: SequencerModel, turn: Turn) -> bool {
    &&& good_turn(turn)
    &&& turn.0.config == m.config
    &&& turn.0.request == m.request
}

/// Beginning a step with a write is a good turn, where the step is one that
/// writes.
proof fn lemma_write_wf(m: SequencerModel, step: Step, data: Seq<u8>, line_break_due: bool)
    requires
        m.bounded(),
        (SequencerModel { step, pending: Pending::Write, ..m }).coherent(),
        (SequencerModel { step, ..m }).awaits_primary() ==> m.raw.len() == 0,
    ensures
        follows(m, m.write(step, data, line_break_due)),
{
}

/// Going on to frame a message is a good turn, where the step is one that
/// reads.
proof fn lemma_read_wf(m: SequencerModel, step: Step, first: u64, idle: u64)
    requires
        m.bounded(),
        (SequencerModel { step, pending: Pending::Read, ..m }).coherent(),
        (SequencerModel { step, ..m }).awaits_primary() ==> m.raw.len() == 0,
    ensures
        follows(m, m.read(step, first, idle)),
{
}

/// Each way through the optional steps is a good turn.
proof fn lemma_optional_steps_wf(m: SequencerModel)
    requires
        m.bounded(),
    ensures
        follows(m, m.enable_debug()),
        follows(m, m.query_link()),
        follows(m, m.save()),
        follows(m, m.write(Step::LinkRunst, runst_query(), true)),
{
    lemma_write_wf(m, Step::DebugUrc, debug_command(), true);
    lemma_write_wf(m, Step::LinkCreg, creg_query(), true);
    lemma_write_wf(m, Step::LinkRunst, runst_query(), true);
    lemma_write_wf(m, Step::Save, save_command(), true);
}

/// Configuring from any command on is a good turn.
proof fn lemma_configure_wf(m: SequencerModel, k: u8)
    requires
        m.bounded(),
    ensures
        follows(m, m.configure(k)),
    decreases CONFIG_COMMANDS - k,
{
    lemma_optional_steps_wf(m);
    if k < CONFIG_COMMANDS {
        match config_command_text(k, m.config, m.request) {
            Ok(None) => {
                lemma_configure_wf(m, (k + 1) as u8);
            },
            Ok(Some(line)) => {
                lemma_write_wf(m, Step::Configure(k), line, true);
            },
            Err(e) => {},
        }
    }
}

/// What follows a failed write is a good turn.
proof fn lemma_write_failed_wf(m: SequencerModel, e: DtuAtError)
    requires
        m.bounded(),
    ensures
        follows(m, m.write_failed(e)),
{
    lemma_optional_steps_wf(m);
}

/// What follows a sleep is a good turn.
proof fn lemma_after_sleep_wf(m: SequencerModel)
    requires
        m.wf(),
    ensures
        follows(m, m.after_sleep()),
{
    lemma_write_wf(m, Step::Escape, escape_sequence(), false);
    let cleared = SequencerModel { raw: Seq::empty(), ..m };
    lemma_write_wf(cleared, Step::Payload, wire_payload(m.request.body@), false);
}

/// What follows the report on a write is a good turn.
proof fn lemma_after_write_wf(m: SequencerModel, event: Event)
    requires
        m.wf(),
        m.expects(event),
        m.pending == Pending::Write,
    ensures
        follows(m, m.after_write(event)),
{
    lemma_write_failed_wf(m, DtuAtError::WriteZero);
    lemma_write_failed_wf(m, DtuAtError::Transport);
}

/// What follows a flush is a good turn.
proof fn lemma_after_flush_wf(m: SequencerModel, event: Event)
    requires
        m.wf(),
        m.pending == Pending::Flush,
    ensures
        follows(m, m.after_flush(event)),
{
    lemma_write_failed_wf(m, DtuAtError::Transport);
    lemma_write_wf(m, m.step, line_break(), false);
    match m.step {
        Step::Probe => lemma_read_wf(
            m,
            Step::Probe,
            PROBE_FIRST_TIMEOUT,
            m.config.at_idle_timeout,
        ),
        Step::Save => {},
        Step::Payload => lemma_read_wf(
            m,
            Step::Primary,
            m.config.http_first_timeout,
            m.config.http_idle_timeout,
        ),
        Step::ResendPayload => lemma_read_wf(
            m,
            Step::RetryPrimary,
            m.config.http_first_timeout,
            m.config.http_idle_timeout,
        ),
        _ => lemma_read_wf(m, m.step, m.config.at_first_timeout, m.config.at_idle_timeout),
    }
}

/// What follows the reply to a command is a good turn.
proof fn lemma_acknowledged_wf(m: SequencerModel, outcome: Result<Seq<u8>, DtuAtError>, k: u8)
    requires
        m.bounded(),
    ensures
        follows(m, m.acknowledged(outcome, k)),
{
    lemma_configure_wf(m, k);
}

/// What follows a poll for readiness is a good turn.
proof fn lemma_ready_polled_wf(m: SequencerModel, outcome: Result<Seq<u8>, DtuAtError>)
    requires
        m.bounded(),
    ensures
        follows(m, m.ready_polled(outcome)),
{
}

/// What follows a poll for trailing data is a good turn.
proof fn lemma_followup_polled_wf(m: SequencerModel, outcome: Result<Seq<u8>, DtuAtError>)
    requires
        m.bounded(),
    ensures
        follows(m, m.followup_polled(outcome)),
{
}

/// What follows a framed read is a good turn, where the message is within
/// the cap.
proof fn lemma_framed_wf(m: SequencerModel, outcome: Result<Seq<u8>, DtuAtError>)
    requires
        m.wf(),
        m.pending == Pending::Read,
        outcome matches Ok(bytes) ==> bytes.len() <= m.config.max_response_len,
    ensures
        follows(m, m.framed(outcome)),
{
    lemma_optional_steps_wf(m);
    match m.step {
        Step::Escape => {
            lemma_configure_wf(m, 0);
            lemma_write_wf(m, Step::Probe, probe_line(), false);
        },
        Step::Probe => lemma_acknowledged_wf(m, outcome, 0),
        Step::Configure(k) => lemma_acknowledged_wf(m, outcome, (k + 1) as u8),
        Step::Ready => lemma_ready_polled_wf(m, outcome),
        Step::Primary => {
            lemma_write_wf(m, Step::ResendPayload, wire_payload(m.request.body@), false);
        },
        Step::Followup => lemma_followup_polled_wf(m, outcome),
        _ => {},
    }
}

/// What follows one read is a good turn.
proof fn lemma_after_read_wf(m: SequencerModel, event: Event)
    requires
        m.wf(),
        m.pending == Pending::Read,
    ensures
        follows(m, m.after_read(event)),
{
    lemma_framed_wf(m, Ok(m.framer.buf));
    lemma_framed_wf(m, Err(DtuAtError::Transport));
    lemma_framed_wf(m, Err(DtuAtError::Timeout));
    lemma_framed_wf(m, Err(DtuAtError::ResponseTooLarge));
}

/// What follows a look at the deadline is a good turn.
proof fn lemma_after_check_wf(m: SequencerModel, event: Event)
    requires
        m.wf(),
        m.pending == Pending::DeadlineCheck,
    ensures
        follows(m, m.after_check(event)),
{
    match m.step {
        Step::Ready => lemma_read_wf(
            m,
            Step::Ready,
            poll_timeout(m.config.at_first_timeout),
            m.config.at_idle_timeout,
        ),
        _ => lemma_read_wf(
            m,
            Step::Followup,
            poll_timeout(m.config.http_followup_first_timeout),
            m.config.http_idle_timeout,
        ),
    }
}

/// Every step of the machine keeps its invariant: whatever arrives, neither
/// the framer nor the accumulated response ever exceeds the configured cap,
/// and a response is handed out only within the cap and the body policy.
pub proof fn lemma_next_preserves_wf(m: SequencerModel, event: Event)
    requires
        m.wf(),
        m.expects(event),
    ensures
        good_turn(m.next(event)),
        m.next(event).0.config == m.config,
        m.next(event).0.request == m.request,
{
    match m.pending {
        Pending::Sleep => lemma_after_sleep_wf(m),
        Pending::Write => lemma_after_write_wf(m, event),
        Pending::Flush => lemma_after_flush_wf(m, event),
        Pending::Read => lemma_after_read_wf(m, event),
        Pending::DeadlineCheck => lemma_after_check_wf(m, event),
        _ => {},
    }
}

/// The place of a step in the order of a request.
pub open spec fn rank(step: Step) -> int {
    match step {
        Step::Guard => 0,
        Step::Escape => 1,
        Step::Probe => 2,
        Step::Configure(k) => 3 + k,
        Step::DebugUrc => 3 + CONFIG_COMMANDS,
        Step::LinkCreg => 4 + CONFIG_COMMANDS,
        Step::LinkRunst => 5 + CONFIG_COMMANDS,
        Step::Save => 6 + CONFIG_COMMANDS,
        Step::Ready => 7 + CONFIG_COMMANDS,
        Step::Settle => 8 + CONFIG_COMMANDS,
        Step::Payload => 9 + CONFIG_COMMANDS,
        Step::Primary => 10 + CONFIG_COMMANDS,
        Step::ResendPayload => 11 + CONFIG_COMMANDS,
        Step::RetryPrimary => 12 + CONFIG_COMMANDS,
        Step::Followup => 13 + CONFIG_COMMANDS,
        Step::Finished => 14 + CONFIG_COMMANDS,
    }
}

/// Configuring from the `k`-th command on leads to that command or to a
/// later step.
proof fn lemma_configure_rank(m: SequencerModel, k: u8)
    ensures
        rank(m.configure(k).0.step) >= 3 + k || (k >= CONFIG_COMMANDS && rank(
            m.configure(k).0.step,
        ) >= 3 + CONFIG_COMMANDS),
    decreases CONFIG_COMMANDS - k,
{
    if k < CONFIG_COMMANDS {
        match config_command_text(k, m.config, m.request) {
            Ok(None) => {
                lemma_configure_rank(m, (k + 1) as u8);
            },
            _ => {},
        }
    }
}

/// What follows a framed read is the same step or a later one.
proof fn lemma_framed_rank(m: SequencerModel, outcome: Result<Seq<u8>, DtuAtError>)
    requires
        m.wf(),
        m.pending == Pending::Read,
    ensures
        rank(m.framed(outcome).0.step) >= rank(m.step),
{
    match m.step {
        Step::Escape => lemma_configure_rank(m, 0),
        Step::Probe => lemma_configure_rank(m, 0),
        Step::Configure(k) => lemma_configure_rank(m, (k + 1) as u8),
        _ => {},
    }
}

/// A request never goes back: every step leads to the same step or to a
/// later one. So the commands are issued in their order, the payload is sent
/// at most twice, and nothing is tried again once it has been passed.
pub proof fn lemma_request_never_goes_back(m: SequencerModel, event: Event)
    requires
        m.wf(),
        m.expects(event),
    ensures
        rank(m.next(event).0.step) >= rank(m.step),
{
    match m.pending {
        Pending::Read => {
            lemma_framed_rank(m, Ok(m.framer.buf));
            lemma_framed_rank(m, Err(DtuAtError::Transport));
            lemma_framed_rank(m, Err(DtuAtError::Timeout));
            lemma_framed_rank(m, Err(DtuAtError::ResponseTooLarge));
        },
        _ => {},
    }
}

/// A request that is not over is never stuck: there is an event that the
/// machine expects.
pub proof fn lemma_request_is_never_stuck(m: SequencerModel)
    requires
        m.wf(),
        m.step != Step::Finished,
    ensures
        m.expects(Event::Slept) || m.expects(Event::IoFailed) || m.expects(Event::DeadlineStarted)
            || m.expects(Event::DeadlineChecked { expired: true }),
{
}

} // verus!
