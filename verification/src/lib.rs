//! Protocol engine for driving a serial-to-network modem's HTTP capability
//! through its AT-command interface.
//!
//! The modem offers HTTP only through textual commands and notifications of
//! its own. This crate holds everything that decides how one request runs:
//! the order of the commands, the framing of replies by idle gaps, the
//! recognition of markers, and the reading of status code and body out of the
//! bytes that came back. It performs no I/O. A client owns the transport and
//! the clock, and lets a `sequencer::Sequencer` tell it what to do next.
//!
//! - `types`: request, response, configuration and error.
//! - `util`, `scan`: searching and scanning of bytes.
//! - `parser`: markers, status codes, the header argument.
//! - `body`: the body and the declared length of a response.
//! - `command`: the text of the configuration commands.
//! - `framer`: idle-gap framing of one message.
//! - `exchange`: the verdicts on what the modem sent.
//! - `sequencer`: the machine that runs one request.
//! - `diag`: previews for diagnostics.

pub mod body;
pub mod command;
pub mod diag;
pub mod exchange;
pub mod framer;
pub mod parser;
pub mod scan;
pub mod sequencer;
pub mod types;
pub mod util;

pub use sequencer::{Action, Event, Sequencer};
pub use types::{
    DtuAtError, DtuAtHttpConfig, HttpDataType, HttpHeader, HttpMethod, HttpRequest, HttpResponse,
};
