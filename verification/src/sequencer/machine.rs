//! The sequencer itself: the executable machine, proved to follow the model.

use crate::command::{config_command, push_bytes, CONFIG_COMMANDS};
use crate::exchange::{
    classify_ack, classify_escape, classify_followup, classify_primary, classify_ready,
    finish_response, payload_bytes, seen, short_poll_timeout, validate_request, EscapeVerdict,
    FollowupVerdict, PrimaryVerdict, ReadyVerdict, PROBE_FIRST_TIMEOUT,
};
use crate::framer::{FrameVerdict, Framer};
use crate::sequencer::laws::{good_turn, lemma_next_preserves_wf};
use crate::sequencer::model::SequencerModel;
use crate::sequencer::{Action, Event, Pending, Step};
use crate::types::{DtuAtError, DtuAtHttpConfig, HttpRequest};
use vstd::prelude::*;
use vstd::slice::{slice_subrange, slice_to_vec};
use vstd::string::*;

verus! {

/// Runs one HTTP request as a sequence of actions and events.
#[derive(Debug)]
pub struct Sequencer<'a> {
    config: DtuAtHttpConfig,
    request: HttpRequest<'a>,
    step: Step,
    pending: Pending,
    out: Vec<u8>,
    sent: usize,
    line_break_due: bool,
    framer: Framer,
    raw: Vec<u8>,
    appended: bool,
}

impl<'a> View for Sequencer<'a> {
    type V = SequencerModel<'a>;

    closed spec fn view(&self) -> SequencerModel<'a> {
        SequencerModel {
            config: self.config,
            request: self.request,
            step: self.step,
            pending: self.pending,
            out: self.out@,
            sent: self.sent,
            line_break_due: self.line_break_due,
            framer: self.framer@,
            raw: self.raw@,
            appended: self.appended,
        }
    }
}

/// The outcome of a framed read that gathered `buf`: the message, or the
/// error that lost it.
pub open spec fn outcome_of(buf: Seq<u8>, failure: Option<DtuAtError>) -> Result<
    Seq<u8>,
    DtuAtError,
> {
    match failure {
        None => Ok(buf),
        Some(e) => Err(e),
    }
}

/// A copy of the bytes of `text`.
fn bytes_of(text: &str) -> (bytes: Vec<u8>)
    ensures
        bytes@ == text.spec_bytes(),
{
    slice_to_vec(text.as_bytes())
}

impl<'a> Sequencer<'a> {
    /// Carries out `SequencerModel::fail` on the machine.
    fn fail(&mut self, e: DtuAtError) -> (action: Action)
        ensures
            (final(self)@, action@) == old(self)@.fail(e),
    {
        self.step = Step::Finished;
        self.pending = Pending::Nothing;
        Action::Done(Err(e))
    }

    /// Carries out `SequencerModel::finish` on the machine.
    fn finish(&mut self) -> (action: Action)
        ensures
            (final(self)@, action@) == old(self)@.finish(),
    {
        let mut raw: Vec<u8> = Vec::new();
        core::mem::swap(&mut raw, &mut self.raw);
        self.step = Step::Finished;
        self.pending = Pending::Nothing;
        Action::Done(finish_response(raw, self.config.require_body_on_success))
    }

    /// Carries out `SequencerModel::write` on the machine.
    fn write(&mut self, step: Step, data: Vec<u8>, line_break_due: bool) -> (action: Action)
        ensures
            (final(self)@, action@) == old(self)@.write(step, data@, line_break_due),
    {
        self.step = step;
        self.sent = 0;
        self.line_break_due = line_break_due;
        if data.len() == 0 {
            self.pending = Pending::Flush;
            self.out = data;
            Action::Flush
        } else {
            self.pending = Pending::Write;
            let copy = slice_to_vec(data.as_slice());
            self.out = data;
            Action::Write { data: copy }
        }
    }

    /// Carries out `SequencerModel::read` on the machine.
    fn read(&mut self, step: Step, first_timeout: u64, idle_timeout: u64) -> (action: Action)
        ensures
            (final(self)@, action@) == old(self)@.read(step, first_timeout, idle_timeout),
    {
        self.step = step;
        self.pending = Pending::Read;
        self.framer = Framer::new(first_timeout, idle_timeout, self.config.max_response_len);
        Action::Read { timeout: first_timeout }
    }

    /// Carries out `SequencerModel::sleep` on the machine.
    fn sleep(&mut self, step: Step, millis: u64) -> (action: Action)
        ensures
            (final(self)@, action@) == old(self)@.sleep(step, millis),
    {
        self.step = step;
        self.pending = Pending::Sleep;
        Action::Sleep { millis }
    }

    /// Carries out `SequencerModel::check` on the machine.
    fn check(&mut self, step: Step) -> (action: Action)
        ensures
            (final(self)@, action@) == old(self)@.check(step),
    {
        self.step = step;
        self.pending = Pending::DeadlineCheck;
        Action::CheckDeadline
    }

    /// Carries out `SequencerModel::configure` on the machine.
    fn configure(&mut self, k: u8) -> (action: Action)
        ensures
            (final(self)@, action@) == old(self)@.configure(k),
        decreases CONFIG_COMMANDS - k,
    {
        if k >= CONFIG_COMMANDS {
            return self.enable_debug();
        }
        match config_command(k, &self.config, &self.request) {
            Err(e) => self.fail(e),
            Ok(None) => self.configure(k + 1),
            Ok(Some(line)) => self.write(Step::Configure(k), line, true),
        }
    }

    /// Carries out `SequencerModel::enable_debug` on the machine.
    fn enable_debug(&mut self) -> (action: Action)
        ensures
            (final(self)@, action@) == old(self)@.enable_debug(),
    {
        if self.config.enable_modem_debug_urc {
            self.write(Step::DebugUrc, bytes_of("AT+DEBUG=ON"), true)
        } else {
            self.query_link()
        }
    }

    /// Carries out `SequencerModel::query_link` on the machine.
    fn query_link(&mut self) -> (action: Action)
        ensures
            (final(self)@, action@) == old(self)@.query_link(),
    {
        if self.config.query_link_status_before_send {
            self.write(Step::LinkCreg, bytes_of("AT+CREG?"), true)
        } else {
            self.save()
        }
    }

    /// Carries out `SequencerModel::save` on the machine.
    fn save(&mut self) -> (action: Action)
        ensures
            (final(self)@, action@) == old(self)@.save(),
    {
        self.write(Step::Save, bytes_of("AT+S"), true)
    }

    /// Carries out `SequencerModel::send_payload` on the machine.
    fn send_payload(&mut self, step: Step) -> (action: Action)
        ensures
            (final(self)@, action@) == old(self)@.send_payload(step),
    {
        let payload = payload_bytes(self.request.body);
        self.write(step, payload, false)
    }

    /// Carries out `SequencerModel::await_primary` on the machine.
    fn await_primary(&mut self, step: Step) -> (action: Action)
        ensures
            (final(self)@, action@) == old(self)@.await_primary(step),
    {
        let first = self.config.http_first_timeout;
        let idle = self.config.http_idle_timeout;
        self.read(step, first, idle)
    }
}

impl<'a> Sequencer<'a> {
    /// The outcome of the framed read that has just ended.
    fn outcome(&self, failure: Option<DtuAtError>) -> (r: Result<&[u8], DtuAtError>)
        ensures
            seen(r) == outcome_of(self@.framer.buf, failure),
    {
        match failure {
            None => Ok(self.framer.buf.as_slice()),
            Some(e) => Err(e),
        }
    }

    /// Carries out `SequencerModel::after_sleep` on the machine.
    fn after_sleep(&mut self) -> (action: Action)
        ensures
            (final(self)@, action@) == old(self)@.after_sleep(),
    {
        match self.step {
            Step::Guard => self.write(Step::Escape, bytes_of("+++"), false),
            _ => {
                self.raw = Vec::new();
                self.send_payload(Step::Payload)
            },
        }
    }

    /// Carries out `SequencerModel::write_failed` on the machine.
    fn write_failed(&mut self, e: DtuAtError) -> (action: Action)
        ensures
            (final(self)@, action@) == old(self)@.write_failed(e),
    {
        match self.step {
            Step::DebugUrc => self.query_link(),
            Step::LinkCreg => self.write(Step::LinkRunst, bytes_of("AT+RUNST?"), true),
            Step::LinkRunst => self.save(),
            _ => self.fail(e),
        }
    }

    /// Carries out `SequencerModel::after_write` on the machine.
    fn after_write(&mut self, event: Event) -> (action: Action)
        requires
            old(self)@.wf(),
            old(self)@.expects(event),
            old(self)@.pending == Pending::Write,
        ensures
            (final(self)@, action@) == old(self)@.after_write(event),
    {
        match event {
            Event::Wrote(n) => {
                let len = self.out.len();
                if n == 0 {
                    self.write_failed(DtuAtError::WriteZero)
                } else {
                    self.sent = self.sent + n;
                    if self.sent < len {
                        let rest = slice_subrange(self.out.as_slice(), self.sent, len);
                        Action::Write { data: slice_to_vec(rest) }
                    } else {
                        self.pending = Pending::Flush;
                        Action::Flush
                    }
                }
            },
            _ => self.write_failed(DtuAtError::Transport),
        }
    }

    /// Carries out `SequencerModel::after_flush` on the machine.
    fn after_flush(&mut self, event: Event) -> (action: Action)
        ensures
            (final(self)@, action@) == old(self)@.after_flush(event),
    {
        match event {
            Event::Flushed => {
                if self.line_break_due {
                    let step = self.step;
                    self.write(step, bytes_of("\r\n"), false)
                } else {
                    match self.step {
                        Step::Probe => {
                            let idle = self.config.at_idle_timeout;
                            self.read(Step::Probe, PROBE_FIRST_TIMEOUT, idle)
                        },
                        Step::Save => {
                            self.step = Step::Ready;
                            self.pending = Pending::DeadlineStart;
                            self.raw = Vec::new();
                            Action::StartDeadline { millis: self.config.http_ready_timeout }
                        },
                        Step::Payload => self.await_primary(Step::Primary),
                        Step::ResendPayload => self.await_primary(Step::RetryPrimary),
                        _ => {
                            let step = self.step;
                            let first = self.config.at_first_timeout;
                            let idle = self.config.at_idle_timeout;
                            self.read(step, first, idle)
                        },
                    }
                }
            },
            _ => self.write_failed(DtuAtError::Transport),
        }
    }

    /// Carries out `SequencerModel::after_read` on the machine.
    fn after_read(&mut self, event: Event) -> (action: Action)
        requires
            old(self)@.wf(),
        ensures
            (final(self)@, action@) == old(self)@.after_read(event),
    {
        match event {
            Event::Received(chunk) => {
                match self.framer.on_data(chunk.as_slice()) {
                    FrameVerdict::Continue => Action::Read { timeout: self.framer.timeout() },
                    FrameVerdict::Complete => self.framed(None),
                    FrameVerdict::Fail(e) => self.framed(Some(e)),
                }
            },
            Event::ReadTimedOut => {
                match self.framer.on_timeout() {
                    FrameVerdict::Fail(e) => self.framed(Some(e)),
                    _ => self.framed(None),
                }
            },
            _ => self.framed(Some(DtuAtError::Transport)),
        }
    }

    /// Carries out `SequencerModel::framed` on the machine.
    fn framed(&mut self, failure: Option<DtuAtError>) -> (action: Action)
        requires
            old(self)@.wf(),
        ensures
            (final(self)@, action@) == old(self)@.framed(
                outcome_of(old(self)@.framer.buf, failure),
            ),
    {
        match self.step {
            Step::Escape => {
                let fallback = self.config.enable_command_probe_fallback;
                match classify_escape(self.outcome(failure), fallback) {
                    EscapeVerdict::Ready => self.configure(0),
                    EscapeVerdict::Probe => self.write(Step::Probe, bytes_of("AT\r\n"), false),
                    EscapeVerdict::Fail(e) => self.fail(e),
                }
            },
            Step::Probe => self.acknowledged(failure, 0),
            Step::Configure(k) => self.acknowledged(failure, k + 1),
            Step::DebugUrc => self.query_link(),
            Step::LinkCreg => self.write(Step::LinkRunst, bytes_of("AT+RUNST?"), true),
            Step::LinkRunst => self.save(),
            Step::Ready => self.ready_polled(failure),
            Step::Primary => {
                let may_resend = self.config.retry_payload_on_http_timeout;
                match classify_primary(self.outcome(failure), may_resend) {
                    PrimaryVerdict::Accept => self.accept_primary(),
                    PrimaryVerdict::Resend => self.send_payload(Step::ResendPayload),
                    PrimaryVerdict::Fail(e) => self.fail(e),
                }
            },
            Step::RetryPrimary => {
                match classify_primary(self.outcome(failure), false) {
                    PrimaryVerdict::Fail(e) => self.fail(e),
                    _ => self.accept_primary(),
                }
            },
            _ => self.followup_polled(failure),
        }
    }

    /// Carries out `SequencerModel::acknowledged` on the machine.
    fn acknowledged(&mut self, failure: Option<DtuAtError>, k: u8) -> (action: Action)
        ensures
            (final(self)@, action@) == old(self)@.acknowledged(
                outcome_of(old(self)@.framer.buf, failure),
                k,
            ),
    {
        match failure {
            Some(e) => self.fail(e),
            None => match classify_ack(self.framer.buf.as_slice()) {
                Err(e) => self.fail(e),
                Ok(()) => self.configure(k),
            },
        }
    }

    /// Carries out `SequencerModel::ready_polled` on the machine.
    fn ready_polled(&mut self, failure: Option<DtuAtError>) -> (action: Action)
        requires
            old(self)@.wf(),
        ensures
            (final(self)@, action@) == old(self)@.ready_polled(
                outcome_of(old(self)@.framer.buf, failure),
            ),
    {
        match failure {
            Some(DtuAtError::Timeout) => self.check(Step::Ready),
            Some(e) => self.fail(e),
            None => {
                if self.framer.buf.len() == 0 {
                    self.check(Step::Ready)
                } else {
                    if self.framer.buf.len() <= self.config.max_response_len - self.raw.len() {
                        push_bytes(&mut self.raw, self.framer.buf.as_slice());
                    }
                    match classify_ready(self.raw.as_slice()) {
                        ReadyVerdict::Fail(e) => self.fail(e),
                        ReadyVerdict::Ready => {
                            let settle = self.config.post_entm_settle_time;
                            self.sleep(Step::Settle, settle)
                        },
                        ReadyVerdict::Pending => self.check(Step::Ready),
                    }
                }
            },
        }
    }

    /// Carries out `SequencerModel::accept_primary` on the machine.
    fn accept_primary(&mut self) -> (action: Action)
        ensures
            (final(self)@, action@) == old(self)@.accept_primary(old(self)@.framer.buf),
    {
        push_bytes(&mut self.raw, self.framer.buf.as_slice());
        self.step = Step::Followup;
        self.pending = Pending::DeadlineStart;
        self.appended = false;
        Action::StartDeadline { millis: self.config.http_followup_timeout }
    }

    /// Carries out `SequencerModel::followup_polled` on the machine.
    fn followup_polled(&mut self, failure: Option<DtuAtError>) -> (action: Action)
        requires
            old(self)@.wf(),
        ensures
            (final(self)@, action@) == old(self)@.followup_polled(
                outcome_of(old(self)@.framer.buf, failure),
            ),
    {
        let verdict = classify_followup(
            self.outcome(failure),
            self.appended,
            self.raw.len(),
            self.config.max_response_len,
        );
        match verdict {
            FollowupVerdict::PollAgain => self.check(Step::Followup),
            FollowupVerdict::AppendAndPoll => {
                push_bytes(&mut self.raw, self.framer.buf.as_slice());
                self.appended = true;
                self.check(Step::Followup)
            },
            FollowupVerdict::AppendAndStop => {
                push_bytes(&mut self.raw, self.framer.buf.as_slice());
                self.appended = true;
                self.finish()
            },
            FollowupVerdict::Stop => self.finish(),
            FollowupVerdict::Fail(e) => self.fail(e),
        }
    }

    /// Carries out `SequencerModel::after_check` on the machine.
    fn after_check(&mut self, event: Event) -> (action: Action)
        ensures
            (final(self)@, action@) == old(self)@.after_check(event),
    {
        let expired = match event {
            Event::DeadlineChecked { expired } => expired,
            _ => false,
        };
        match self.step {
            Step::Ready => {
                if expired {
                    self.fail(DtuAtError::Timeout)
                } else {
                    let first = short_poll_timeout(self.config.at_first_timeout);
                    let idle = self.config.at_idle_timeout;
                    self.read(Step::Ready, first, idle)
                }
            },
            _ => {
                if expired {
                    self.finish()
                } else {
                    let first = short_poll_timeout(self.config.http_followup_first_timeout);
                    let idle = self.config.http_idle_timeout;
                    self.read(Step::Followup, first, idle)
                }
            },
        }
    }

    /// Begins a request. A request that fails validation is over at once;
    /// any other begins with the silence before the escape sequence.
    pub fn start(config: DtuAtHttpConfig, request: HttpRequest<'a>) -> (r: (Sequencer<'a>, Action))
        ensures
            (r.0@, r.1@) == SequencerModel::start(config, request),
            good_turn((r.0@, r.1@)),
    {
        let mut machine = Sequencer {
            config,
            request,
            step: Step::Finished,
            pending: Pending::Nothing,
            out: Vec::new(),
            sent: 0,
            line_break_due: false,
            framer: Framer::new(0, 0, config.max_response_len),
            raw: Vec::new(),
            appended: false,
        };
        let action = match validate_request(&config, &request) {
            Err(e) => machine.fail(e),
            Ok(()) => machine.sleep(Step::Guard, config.cmd_guard_time),
        };
        (machine, action)
    }

    /// Whether `event` answers what the machine is waiting for.
    pub fn expects(&self, event: &Event) -> (r: bool)
        ensures
            r == self@.expects(*event),
    {
        match self.pending {
            Pending::Sleep => match event {
                Event::Slept => true,
                _ => false,
            },
            Pending::Write => match event {
                Event::Wrote(n) => self.sent <= self.out.len() && *n <= self.out.len() - self.sent,
                Event::IoFailed => true,
                _ => false,
            },
            Pending::Flush => match event {
                Event::Flushed => true,
                Event::IoFailed => true,
                _ => false,
            },
            Pending::Read => match event {
                Event::Received(_) => true,
                Event::ReadTimedOut => true,
                Event::IoFailed => true,
                _ => false,
            },
            Pending::DeadlineStart => match event {
                Event::DeadlineStarted => true,
                _ => false,
            },
            Pending::DeadlineCheck => match event {
                Event::DeadlineChecked { .. } => true,
                _ => false,
            },
            Pending::Nothing => false,
        }
    }

    /// Where in the request the machine stands.
    pub fn stage(&self) -> (step: Step)
        ensures
            step == self@.step,
    {
        self.step
    }

    /// Whether the machine meets its invariant. Every machine that `start`
    /// made and `step` moved does.
    pub fn is_well_formed(&self) -> (r: bool)
        ensures
            r == self@.wf(),
    {
        let waits_for_io = match self.pending {
            Pending::Write => true,
            Pending::Flush => true,
            Pending::Read => true,
            _ => false,
        };
        let writes = match self.pending {
            Pending::Write => true,
            Pending::Flush => true,
            _ => false,
        };
        let reads = match self.pending {
            Pending::Read => true,
            _ => false,
        };
        let polls = match self.pending {
            Pending::DeadlineStart => true,
            Pending::DeadlineCheck => true,
            Pending::Read => true,
            _ => false,
        };
        let sleeps = match self.pending {
            Pending::Sleep => true,
            _ => false,
        };
        let idle = match self.pending {
            Pending::Nothing => true,
            _ => false,
        };
        let coherent = match self.step {
            Step::Guard => sleeps,
            Step::Settle => sleeps,
            Step::Escape => waits_for_io,
            Step::Probe => waits_for_io,
            Step::DebugUrc => waits_for_io,
            Step::LinkCreg => waits_for_io,
            Step::LinkRunst => waits_for_io,
            Step::Configure(k) => k < CONFIG_COMMANDS && waits_for_io,
            Step::Save => writes,
            Step::Payload => writes,
            Step::ResendPayload => writes,
            Step::Primary => reads,
            Step::RetryPrimary => reads,
            Step::Ready => polls,
            Step::Followup => polls,
            Step::Finished => idle,
        };
        let awaits_primary = match self.step {
            Step::Payload => true,
            Step::Primary => true,
            Step::ResendPayload => true,
            Step::RetryPrimary => true,
            _ => false,
        };
        let cap = self.config.max_response_len;
        coherent && self.sent <= self.out.len() && self.framer.max_len == cap
            && self.framer.buf.len() <= cap && self.raw.len() <= cap && (!awaits_primary
            || self.raw.len() == 0)
    }

    /// Whether the request is over.
    pub fn is_finished(&self) -> (r: bool)
        ensures
            r == (self@.step == Step::Finished),
    {
        match self.step {
            Step::Finished => true,
            _ => false,
        }
    }

    /// Takes in what happened and says what to do next.
    pub fn step(&mut self, event: Event) -> (action: Action)
        requires
            old(self)@.wf(),
            old(self)@.expects(event),
        ensures
            (final(self)@, action@) == old(self)@.next(event),
            good_turn((final(self)@, action@)),
    {
        proof {
            lemma_next_preserves_wf(self@, event);
        }
        match self.pending {
            Pending::Sleep => self.after_sleep(),
            Pending::Write => self.after_write(event),
            Pending::Flush => self.after_flush(event),
            Pending::Read => self.after_read(event),
            Pending::DeadlineStart => {
                let step = self.step;
                self.check(step)
            },
            Pending::DeadlineCheck => self.after_check(event),
            Pending::Nothing => Action::Done(Err(DtuAtError::BadResponse)),
        }
    }
}

} // verus!
