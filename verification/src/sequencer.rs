//! The request sequencer: one HTTP request as a machine that is told what
//! happened on the transport and the clock, and answers with what to do next.
//!
//! The machine never touches the transport. Its owner performs each `Action`
//! and reports the matching `Event`; every decision of the protocol (the
//! order of the commands, what counts as an answer, when to give up) is taken
//! here.
//!
//! `model` states what the machine does, as a function from state and event
//! to state and action. `machine` is the machine itself, proved to do what
//! the model states. `laws` holds what follows for every request.

pub mod laws;
pub mod machine;
pub mod model;

pub use machine::Sequencer;
pub use model::SequencerModel;

use crate::types::{DtuAtError, HttpResponse, ResponseModel};
use vstd::prelude::*;

verus! {


/// Where in the request the machine stands.
#[derive(Clone, Copy, Debug, PartialEq, Eq, Structural)]
pub enum Step {
    /// Keeping silent before the escape sequence.
    Guard,
    /// Sending the escape sequence and awaiting its reply.
    Escape,
    /// Probing for command mode with a bare command.
    Probe,
    /// Issuing the configuration command of the given index.
    Configure(u8),
    /// Turning on the modem's debug notifications; failure is ignored.
    DebugUrc,
    /// Querying the registration status; failure is ignored.
    LinkCreg,
    /// Querying the run status; failure is ignored.
    LinkRunst,
    /// Sending the save command.
    Save,
    /// Polling until the modem reports that it is ready.
    Ready,
    /// Letting the modem settle before the payload.
    Settle,
    /// Sending the payload.
    Payload,
    /// Awaiting the primary response.
    Primary,
    /// Sending the payload a second time.
    ResendPayload,
    /// Awaiting the primary response after the resend.
    RetryPrimary,
    /// Collecting what trails the primary response.
    Followup,
    /// The request is over.
    Finished,
}

/// What the machine is waiting to be told.
#[derive(Clone, Copy, Debug, PartialEq, Eq, Structural)]
pub enum Pending {
    /// That a sleep is over.
    Sleep,
    /// How many bytes a write took.
    Write,
    /// That a flush is done.
    Flush,
    /// What a read brought.
    Read,
    /// That a deadline has been set.
    DeadlineStart,
    /// Whether the deadline has passed.
    DeadlineCheck,
    /// Nothing: the request is over.
    Nothing,
}

/// What happened on the transport or the clock.
#[derive(Debug)]
pub enum Event {
    /// The sleep is over.
    Slept,
    /// The write took this many bytes.
    Wrote(usize),
    /// The flush is done.
    Flushed,
    /// The read brought these bytes; none means that the stream has ended.
    Received(Vec<u8>),
    /// The read brought nothing within its timeout.
    ReadTimedOut,
    /// The transport reported an I/O failure.
    IoFailed,
    /// The deadline has been set.
    DeadlineStarted,
    /// The deadline has, or has not, passed.
    DeadlineChecked { expired: bool },
}

/// What the owner of the machine is to do next.
#[derive(Debug)]
pub enum Action {
    /// Sleep for this many milliseconds.
    Sleep { millis: u64 },
    /// Write these bytes once, and report how many were taken.
    Write { data: Vec<u8> },
    /// Flush the transport.
    Flush,
    /// Read once, waiting at most this many milliseconds.
    Read { timeout: u64 },
    /// Set a deadline this many milliseconds from now.
    StartDeadline { millis: u64 },
    /// Report whether the deadline has passed.
    CheckDeadline,
    /// Nothing more: the request ended with this result.
    Done(Result<HttpResponse, DtuAtError>),
}

/// The mathematical content of an action.
pub enum ActionModel {
    Sleep { millis: u64 },
    Write { data: Seq<u8> },
    Flush,
    Read { timeout: u64 },
    StartDeadline { millis: u64 },
    CheckDeadline,
    Done(Result<ResponseModel, DtuAtError>),
}

impl View for Action {
    type V = ActionModel;

    open spec fn view(&self) -> ActionModel {
        match *self {
            Action::Sleep { millis } => ActionModel::Sleep { millis },
            Action::Write { data } => ActionModel::Write { data: data@ },
            Action::Flush => ActionModel::Flush,
            Action::Read { timeout } => ActionModel::Read { timeout },
            Action::StartDeadline { millis } => ActionModel::StartDeadline { millis },
            Action::CheckDeadline => ActionModel::CheckDeadline,
            Action::Done(Ok(resp)) => ActionModel::Done(Ok(resp@)),
            Action::Done(Err(e)) => ActionModel::Done(Err(e)),
        }
    }
}

} // verus!
