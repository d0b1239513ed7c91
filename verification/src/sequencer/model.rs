//! What the sequencer does: its state, and the state and action that follow
//! each event.

use crate::command::{config_command_text, CONFIG_COMMANDS};
use crate::exchange::{
    ack_verdict, escape_verdict, followup_verdict, primary_verdict, ready_verdict,
    response_outcome, validation, wire_payload, EscapeVerdict, FollowupVerdict, PrimaryVerdict,
    ReadyVerdict, POLL_FIRST_TIMEOUT_CAP, PROBE_FIRST_TIMEOUT,
};
use crate::framer::{FrameVerdict, FramerModel};
use crate::sequencer::{ActionModel, Event, Pending, Step};
use crate::types::{DtuAtError, DtuAtHttpConfig, HttpRequest};
use vstd::prelude::*;
use vstd::string::*;

verus! {

/// The escape sequence.
pub open spec fn escape_sequence() -> Seq<u8> {
    "+++".spec_bytes()
}

/// The bare command of the probe, line break included.
pub open spec fn probe_line() -> Seq<u8> {
    "AT\r\n".spec_bytes()
}

/// The line break that ends a command.
pub open spec fn line_break() -> Seq<u8> {
    "\r\n".spec_bytes()
}

/// The command that turns on the modem's debug notifications.
pub open spec fn debug_command() -> Seq<u8> {
    "AT+DEBUG=ON".spec_bytes()
}

/// The query for the registration status.
pub open spec fn creg_query() -> Seq<u8> {
    "AT+CREG?".spec_bytes()
}

/// The query for the run status.
pub open spec fn runst_query() -> Seq<u8> {
    "AT+RUNST?".spec_bytes()
}

/// The command that saves the configuration and starts the request.
pub open spec fn save_command() -> Seq<u8> {
    "AT+S".spec_bytes()
}

/// The message of a framed read; empty where the read failed.
pub open spec fn message(outcome: Result<Seq<u8>, DtuAtError>) -> Seq<u8> {
    match outcome {
        Ok(bytes) => bytes,
        Err(_) => Seq::empty(),
    }
}

/// `base`, but at most `POLL_FIRST_TIMEOUT_CAP`.
pub open spec fn poll_timeout(base: u64) -> u64 {
    if base > POLL_FIRST_TIMEOUT_CAP {
        POLL_FIRST_TIMEOUT_CAP
    } else {
        base
    }
}

/// The mathematical state of the sequencer.
pub struct SequencerModel<'a> {
    /// The configuration that the request runs under.
    pub config: DtuAtHttpConfig,
    /// The request.
    pub request: HttpRequest<'a>,
    /// Where in the request the machine stands.
    pub step: Step,
    /// What the machine is waiting to be told.
    pub pending: Pending,
    /// The burst that is being written.
    pub out: Seq<u8>,
    /// How much of the burst the transport has taken.
    pub sent: usize,
    /// Whether a line break is to be written after the burst.
    pub line_break_due: bool,
    /// The framer of the read in progress.
    pub framer: FramerModel,
    /// What has been accumulated: the modem's reports while it gets ready,
    /// the response from the primary response on.
    pub raw: Seq<u8>,
    /// Whether trailing data has been appended to the response.
    pub appended: bool,
}

/// A state together with the action that led into it.
pub type Turn<'a> = (SequencerModel<'a>, ActionModel);

impl<'a> SequencerModel<'a> {
    /// The pairs of step and wait that occur.
    pub open spec fn coherent(self) -> bool {
        match self.step {
            Step::Guard | Step::Settle => self.pending == Pending::Sleep,
            Step::Escape | Step::Probe | Step::DebugUrc | Step::LinkCreg | Step::LinkRunst => {
                self.pending == Pending::Write || self.pending == Pending::Flush || self.pending
                    == Pending::Read
            },
            Step::Configure(k) => k < CONFIG_COMMANDS && (self.pending == Pending::Write
                || self.pending == Pending::Flush || self.pending == Pending::Read),
            Step::Save | Step::Payload | Step::ResendPayload => {
                self.pending == Pending::Write || self.pending == Pending::Flush
            },
            Step::Primary | Step::RetryPrimary => self.pending == Pending::Read,
            Step::Ready | Step::Followup => {
                self.pending == Pending::DeadlineStart || self.pending == Pending::DeadlineCheck
                    || self.pending == Pending::Read
            },
            Step::Finished => self.pending == Pending::Nothing,
        }
    }

    /// The part of the invariant that does not depend on the step: no more
    /// is marked as sent than the burst holds, and neither the framer nor the
    /// accumulation exceeds the configured cap.
    pub open spec fn bounded(self) -> bool {
        &&& self.sent <= self.out.len()
        &&& self.framer.max_len == self.config.max_response_len
        &&& self.framer.wf()
        &&& self.raw.len() <= self.config.max_response_len
    }

    /// The invariant of the machine: step and wait fit together, the bounds
    /// hold, and nothing is accumulated while the primary response is still
    /// awaited.
    pub open spec fn wf(self) -> bool {
        &&& self.coherent()
        &&& self.bounded()
        &&& self.awaits_primary() ==> self.raw.len() == 0
    }

    /// The payload is under way and the primary response has not arrived.
    pub open spec fn awaits_primary(self) -> bool {
        self.step == Step::Payload || self.step == Step::Primary || self.step
            == Step::ResendPayload || self.step == Step::RetryPrimary
    }

    /// The part of the burst that the transport has not taken yet.
    pub open spec fn unsent(self) -> Seq<u8> {
        self.out.subrange(self.sent as int, self.out.len() as int)
    }

    /// Whether `event` answers what the machine is waiting for. A write
    /// cannot take more than it was offered.
    pub open spec fn expects(self, event: Event) -> bool {
        match self.pending {
            Pending::Sleep => event is Slept,
            Pending::Write => match event {
                Event::Wrote(n) => n <= self.out.len() - self.sent,
                Event::IoFailed => true,
                _ => false,
            },
            Pending::Flush => event is Flushed || event is IoFailed,
            Pending::Read => event is Received || event is ReadTimedOut || event is IoFailed,
            Pending::DeadlineStart => event is DeadlineStarted,
            Pending::DeadlineCheck => event is DeadlineChecked,
            Pending::Nothing => false,
        }
    }

    /// The request ends with the error `e`.
    pub open spec fn fail(self, e: DtuAtError) -> Turn<'a> {
        (
            SequencerModel { step: Step::Finished, pending: Pending::Nothing, ..self },
            ActionModel::Done(Err(e)),
        )
    }

    /// The request ends with the response that the accumulated bytes make, or
    /// with `BodyMissing`; the bytes leave the machine.
    pub open spec fn finish(self) -> Turn<'a> {
        (
            SequencerModel {
                step: Step::Finished,
                pending: Pending::Nothing,
                raw: Seq::empty(),
                ..self
            },
            ActionModel::Done(response_outcome(self.raw, self.config.require_body_on_success)),
        )
    }

    /// Step `step` begins by writing `data`, followed by a line break where
    /// `line_break_due` holds. An empty burst is only flushed.
    pub open spec fn write(self, step: Step, data: Seq<u8>, line_break_due: bool) -> Turn<'a> {
        if data.len() == 0 {
            (
                SequencerModel {
                    step,
                    pending: Pending::Flush,
                    out: data,
                    sent: 0,
                    line_break_due,
                    ..self
                },
                ActionModel::Flush,
            )
        } else {
            (
                SequencerModel {
                    step,
                    pending: Pending::Write,
                    out: data,
                    sent: 0,
                    line_break_due,
                    ..self
                },
                ActionModel::Write { data },
            )
        }
    }

    /// Step `step` goes on by framing a message with the given timeouts.
    pub open spec fn read(self, step: Step, first_timeout: u64, idle_timeout: u64) -> Turn<'a> {
        (
            SequencerModel {
                step,
                pending: Pending::Read,
                framer: FramerModel::fresh(
                    first_timeout,
                    idle_timeout,
                    self.config.max_response_len,
                ),
                ..self
            },
            ActionModel::Read { timeout: first_timeout },
        )
    }

    /// Step `step` sleeps.
    pub open spec fn sleep(self, step: Step, millis: u64) -> Turn<'a> {
        (SequencerModel { step, pending: Pending::Sleep, ..self }, ActionModel::Sleep { millis })
    }

    /// Step `step` asks whether its deadline has passed.
    pub open spec fn check(self, step: Step) -> Turn<'a> {
        (
            SequencerModel { step, pending: Pending::DeadlineCheck, ..self },
            ActionModel::CheckDeadline,
        )
    }

    /// The machine at the start of a request: a request that fails validation
    /// ends at once; any other begins with the guard silence.
    pub open spec fn start(config: DtuAtHttpConfig, request: HttpRequest<'a>) -> Turn<'a> {
        let idle = SequencerModel {
            config,
            request,
            step: Step::Finished,
            pending: Pending::Nothing,
            out: Seq::empty(),
            sent: 0,
            line_break_due: false,
            framer: FramerModel::fresh(0, 0, config.max_response_len),
            raw: Seq::empty(),
            appended: false,
        };
        match validation(config, request) {
            Err(e) => idle.fail(e),
            Ok(()) => idle.sleep(Step::Guard, config.cmd_guard_time),
        }
    }

    /// Issues the configuration commands from the `k`-th on: a command that
    /// is left out is passed over, one that cannot be built ends the request,
    /// and behind the last the optional steps follow.
    pub open spec fn configure(self, k: u8) -> Turn<'a>
        decreases CONFIG_COMMANDS - k,
    {
        if k >= CONFIG_COMMANDS {
            self.enable_debug()
        } else {
            match config_command_text(k, self.config, self.request) {
                Err(e) => self.fail(e),
                Ok(None) => self.configure((k + 1) as u8),
                Ok(Some(line)) => self.write(Step::Configure(k), line, true),
            }
        }
    }

    /// Turns on the debug notifications where the configuration asks for it.
    pub open spec fn enable_debug(self) -> Turn<'a> {
        if self.config.enable_modem_debug_urc {
            self.write(Step::DebugUrc, debug_command(), true)
        } else {
            self.query_link()
        }
    }

    /// Queries the link status where the configuration asks for it.
    pub open spec fn query_link(self) -> Turn<'a> {
        if self.config.query_link_status_before_send {
            self.write(Step::LinkCreg, creg_query(), true)
        } else {
            self.save()
        }
    }

    /// Sends the save command.
    pub open spec fn save(self) -> Turn<'a> {
        self.write(Step::Save, save_command(), true)
    }

    /// Sends the payload, as step `step`.
    pub open spec fn send_payload(self, step: Step) -> Turn<'a> {
        self.write(step, wire_payload(self.request.body@), false)
    }

    /// Awaits the primary response, as step `step`.
    pub open spec fn await_primary(self, step: Step) -> Turn<'a> {
        self.read(step, self.config.http_first_timeout, self.config.http_idle_timeout)
    }

    /// What follows a sleep: the escape sequence after the guard silence, the
    /// payload after the settle time.
    pub open spec fn after_sleep(self) -> Turn<'a> {
        match self.step {
            Step::Guard => self.write(Step::Escape, escape_sequence(), false),
            _ => SequencerModel { raw: Seq::empty(), ..self }.send_payload(Step::Payload),
        }
    }

    /// What follows a write that failed with `e`: the optional steps are
    /// passed over, any other step ends the request.
    pub open spec fn write_failed(self, e: DtuAtError) -> Turn<'a> {
        match self.step {
            Step::DebugUrc => self.query_link(),
            Step::LinkCreg => self.write(Step::LinkRunst, runst_query(), true),
            Step::LinkRunst => self.save(),
            _ => self.fail(e),
        }
    }

    /// What follows the transport's report on a write: a write that took
    /// nothing has stalled; one that left a rest is continued; behind the
    /// last byte comes the flush.
    pub open spec fn after_write(self, event: Event) -> Turn<'a> {
        match event {
            Event::Wrote(n) => if n == 0 {
                self.write_failed(DtuAtError::WriteZero)
            } else {
                let next = SequencerModel { sent: (self.sent + n) as usize, ..self };
                if next.sent < next.out.len() {
                    (next, ActionModel::Write { data: next.unsent() })
                } else {
                    (SequencerModel { pending: Pending::Flush, ..next }, ActionModel::Flush)
                }
            },
            _ => self.write_failed(DtuAtError::Transport),
        }
    }

    /// What follows a burst that has been written and flushed: the line break
    /// where one is due; else the reply is awaited, or, for the steps that
    /// await none, the next step begins.
    pub open spec fn after_flush(self, event: Event) -> Turn<'a> {
        match event {
            Event::Flushed => if self.line_break_due {
                self.write(self.step, line_break(), false)
            } else {
                match self.step {
                    Step::Probe => self.read(
                        Step::Probe,
                        PROBE_FIRST_TIMEOUT,
                        self.config.at_idle_timeout,
                    ),
                    Step::Save => (
                        SequencerModel {
                            step: Step::Ready,
                            pending: Pending::DeadlineStart,
                            raw: Seq::empty(),
                            ..self
                        },
                        ActionModel::StartDeadline { millis: self.config.http_ready_timeout },
                    ),
                    Step::Payload => self.await_primary(Step::Primary),
                    Step::ResendPayload => self.await_primary(Step::RetryPrimary),
                    _ => self.read(
                        self.step,
                        self.config.at_first_timeout,
                        self.config.at_idle_timeout,
                    ),
                }
            },
            _ => self.write_failed(DtuAtError::Transport),
        }
    }

    /// What follows one read: the framer gathers the bytes until the message
    /// is complete or lost, and the step then judges the outcome.
    pub open spec fn after_read(self, event: Event) -> Turn<'a> {
        match event {
            Event::Received(chunk) => match self.framer.data_verdict(chunk@) {
                FrameVerdict::Continue => {
                    let framer = self.framer.after_data(chunk@);
                    (
                        SequencerModel { framer, ..self },
                        ActionModel::Read { timeout: framer.timeout() },
                    )
                },
                FrameVerdict::Complete => self.framed(Ok(self.framer.buf)),
                FrameVerdict::Fail(e) => self.framed(Err(e)),
            },
            Event::ReadTimedOut => match self.framer.timeout_verdict() {
                FrameVerdict::Fail(e) => self.framed(Err(e)),
                _ => self.framed(Ok(self.framer.buf)),
            },
            _ => self.framed(Err(DtuAtError::Transport)),
        }
    }

    /// What follows a framed read that came to `outcome`.
    pub open spec fn framed(self, outcome: Result<Seq<u8>, DtuAtError>) -> Turn<'a> {
        match self.step {
            Step::Escape => match escape_verdict(
                outcome,
                self.config.enable_command_probe_fallback,
            ) {
                EscapeVerdict::Ready => self.configure(0),
                EscapeVerdict::Probe => self.write(Step::Probe, probe_line(), false),
                EscapeVerdict::Fail(e) => self.fail(e),
            },
            Step::Probe => self.acknowledged(outcome, 0),
            Step::Configure(k) => self.acknowledged(outcome, (k + 1) as u8),
            Step::DebugUrc => self.query_link(),
            Step::LinkCreg => self.write(Step::LinkRunst, runst_query(), true),
            Step::LinkRunst => self.save(),
            Step::Ready => self.ready_polled(outcome),
            Step::Primary => match primary_verdict(
                outcome,
                self.config.retry_payload_on_http_timeout,
            ) {
                PrimaryVerdict::Accept => self.accept_primary(message(outcome)),
                PrimaryVerdict::Resend => self.send_payload(Step::ResendPayload),
                PrimaryVerdict::Fail(e) => self.fail(e),
            },
            Step::RetryPrimary => match primary_verdict(outcome, false) {
                PrimaryVerdict::Fail(e) => self.fail(e),
                _ => self.accept_primary(message(outcome)),
            },
            _ => self.followup_polled(outcome),
        }
    }

    /// What follows the reply to a command that needs acknowledging: the
    /// configuration goes on from the `k`-th command, or the request ends.
    pub open spec fn acknowledged(self, outcome: Result<Seq<u8>, DtuAtError>, k: u8) -> Turn<'a> {
        match outcome {
            Err(e) => self.fail(e),
            Ok(rsp) => match ack_verdict(rsp) {
                Err(e) => self.fail(e),
                Ok(()) => self.configure(k),
            },
        }
    }

    /// What has arrived since the save command, after a poll that brought
    /// `chunk`: the chunk is taken in while it fits under the cap, and left
    /// out otherwise.
    pub open spec fn merged(self, chunk: Seq<u8>) -> Seq<u8> {
        if self.raw.len() + chunk.len() <= self.config.max_response_len {
            self.raw + chunk
        } else {
            self.raw
        }
    }

    /// What follows one poll for the modem's report that it is ready. Silence
    /// and an empty read lead to the next poll; what arrived is judged as a
    /// whole.
    pub open spec fn ready_polled(self, outcome: Result<Seq<u8>, DtuAtError>) -> Turn<'a> {
        match outcome {
            Err(DtuAtError::Timeout) => self.check(Step::Ready),
            Err(e) => self.fail(e),
            Ok(chunk) => if chunk.len() == 0 {
                self.check(Step::Ready)
            } else {
                let next = SequencerModel { raw: self.merged(chunk), ..self };
                match ready_verdict(next.raw) {
                    ReadyVerdict::Fail(e) => next.fail(e),
                    ReadyVerdict::Ready => next.sleep(
                        Step::Settle,
                        self.config.post_entm_settle_time,
                    ),
                    ReadyVerdict::Pending => next.check(Step::Ready),
                }
            },
        }
    }

    /// The primary response has arrived: it becomes the accumulated response,
    /// and the collection of trailing data begins.
    pub open spec fn accept_primary(self, primary: Seq<u8>) -> Turn<'a> {
        (
            SequencerModel {
                step: Step::Followup,
                pending: Pending::DeadlineStart,
                raw: self.raw + primary,
                appended: false,
                ..self
            },
            ActionModel::StartDeadline { millis: self.config.http_followup_timeout },
        )
    }

    /// What follows one poll for trailing data.
    pub open spec fn followup_polled(self, outcome: Result<Seq<u8>, DtuAtError>) -> Turn<'a> {
        match followup_verdict(
            outcome,
            self.appended,
            self.raw.len(),
            self.config.max_response_len,
        ) {
            FollowupVerdict::PollAgain => self.check(Step::Followup),
            FollowupVerdict::AppendAndPoll => SequencerModel {
                raw: self.raw + message(outcome),
                appended: true,
                ..self
            }.check(Step::Followup),
            FollowupVerdict::AppendAndStop => SequencerModel {
                raw: self.raw + message(outcome),
                appended: true,
                ..self
            }.finish(),
            FollowupVerdict::Stop => self.finish(),
            FollowupVerdict::Fail(e) => self.fail(e),
        }
    }

    /// What follows the clock's report on the deadline: past the deadline the
    /// wait for readiness is a timeout, and the collection of trailing data
    /// is complete; before it the next poll begins.
    pub open spec fn after_check(self, event: Event) -> Turn<'a> {
        let expired = event matches Event::DeadlineChecked { expired: true };
        match self.step {
            Step::Ready => if expired {
                self.fail(DtuAtError::Timeout)
            } else {
                self.read(
                    Step::Ready,
                    poll_timeout(self.config.at_first_timeout),
                    self.config.at_idle_timeout,
                )
            },
            _ => if expired {
                self.finish()
            } else {
                self.read(
                    Step::Followup,
                    poll_timeout(self.config.http_followup_first_timeout),
                    self.config.http_idle_timeout,
                )
            },
        }
    }

    /// The state and the action that follow `event`. A machine that is over
    /// expects no event; were it given one, it would stay as it is and answer
    /// with a bad response.
    pub open spec fn next(self, event: Event) -> Turn<'a> {
        match self.pending {
            Pending::Sleep => self.after_sleep(),
            Pending::Write => self.after_write(event),
            Pending::Flush => self.after_flush(event),
            Pending::Read => self.after_read(event),
            Pending::DeadlineStart => self.check(self.step),
            Pending::DeadlineCheck => self.after_check(event),
            Pending::Nothing => (self, ActionModel::Done(Err(DtuAtError::BadResponse))),
        }
    }
}

} // verus!
