//! Idle-gap framing: a message is what arrives until the line falls silent.
//!
//! The modem's protocol has no length field and no terminator that can be
//! relied on, so a reply is taken to be complete when no byte has arrived for
//! an idle timeout, or when the stream ends. The framer decides; its owner
//! performs the reads and reports what each one brought.

use crate::types::DtuAtError;
use vstd::prelude::*;

verus! {

/// What the framer makes of one read.
#[derive(Clone, Copy, Debug, PartialEq, Eq)]
pub enum FrameVerdict {
    /// More may follow: read again.
    Continue,
    /// The message is complete.
    Complete,
    /// The message is lost to the given error.
    Fail(DtuAtError),
}

/// The mathematical state of a framer.
pub struct FramerModel {
    /// The bytes gathered so far.
    pub buf: Seq<u8>,
    /// Whether any byte has arrived.
    pub got_any: bool,
    /// Wait for the first byte, in milliseconds.
    pub first_timeout: u64,
    /// Idle gap that ends the message, in milliseconds.
    pub idle_timeout: u64,
    /// Most bytes that a message may have.
    pub max_len: usize,
}

impl FramerModel {
    /// A framer that has gathered nothing.
    pub open spec fn fresh(first_timeout: u64, idle_timeout: u64, max_len: usize) -> FramerModel {
        FramerModel { buf: Seq::empty(), got_any: false, first_timeout, idle_timeout, max_len }
    }

    /// The gathered bytes stay within the cap.
    pub open spec fn wf(self) -> bool {
        self.buf.len() <= self.max_len
    }

    /// The timeout of the next read: the first-byte timeout until a byte has
    /// arrived, the idle timeout from then on.
    pub open spec fn timeout(self) -> u64 {
        if self.got_any {
            self.idle_timeout
        } else {
            self.first_timeout
        }
    }

    /// The verdict on a read that brought `chunk`: an empty chunk is the end
    /// of the stream and completes the message; a chunk that would lift the
    /// message over the cap fails it; any other is gathered.
    pub open spec fn data_verdict(self, chunk: Seq<u8>) -> FrameVerdict {
        if chunk.len() == 0 {
            FrameVerdict::Complete
        } else if self.buf.len() + chunk.len() > self.max_len {
            FrameVerdict::Fail(DtuAtError::ResponseTooLarge)
        } else {
            FrameVerdict::Continue
        }
    }

    /// The framer after a read that brought `chunk`.
    pub open spec fn after_data(self, chunk: Seq<u8>) -> FramerModel {
        if self.data_verdict(chunk) == FrameVerdict::Continue {
            FramerModel { buf: self.buf + chunk, got_any: true, ..self }
        } else {
            self
        }
    }

    /// The verdict on a read that timed out: silence after data completes the
    /// message, silence before any data fails it.
    pub open spec fn timeout_verdict(self) -> FrameVerdict {
        if self.got_any {
            FrameVerdict::Complete
        } else {
            FrameVerdict::Fail(DtuAtError::Timeout)
        }
    }
}

/// Gathers one message from a sequence of reads.
#[derive(Debug)]
pub struct Framer {
    pub buf: Vec<u8>,
    pub got_any: bool,
    pub first_timeout: u64,
    pub idle_timeout: u64,
    pub max_len: usize,
}

impl View for Framer {
    type V = FramerModel;

    open spec fn view(&self) -> FramerModel {
        FramerModel {
            buf: self.buf@,
            got_any: self.got_any,
            first_timeout: self.first_timeout,
            idle_timeout: self.idle_timeout,
            max_len: self.max_len,
        }
    }
}

impl Framer {
    /// A framer for one message of at most `max_len` bytes.
    pub fn new(first_timeout: u64, idle_timeout: u64, max_len: usize) -> (f: Framer)
        ensures
            f@ == FramerModel::fresh(first_timeout, idle_timeout, max_len),
            f@.wf(),
    {
        Framer { buf: Vec::new(), got_any: false, first_timeout, idle_timeout, max_len }
    }

    /// The timeout, in milliseconds, that the next read is to use.
    pub fn timeout(&self) -> (t: u64)
        ensures
            t == self@.timeout(),
    {
        if self.got_any {
            self.idle_timeout
        } else {
            self.first_timeout
        }
    }

    /// Takes in what a read brought. The gathered bytes never exceed the cap:
    /// the chunk that would is refused with `ResponseTooLarge`, and nothing of
    /// it is kept.
    pub fn on_data(&mut self, chunk: &[u8]) -> (v: FrameVerdict)
        ensures
            v == old(self)@.data_verdict(chunk@),
            final(self)@ == old(self)@.after_data(chunk@),
            old(self)@.wf() ==> final(self)@.wf(),
    {
        if chunk.len() == 0 {
            return FrameVerdict::Complete;
        }
        if self.buf.len() > self.max_len || chunk.len() > self.max_len - self.buf.len() {
            return FrameVerdict::Fail(DtuAtError::ResponseTooLarge);
        }
        self.got_any = true;
        self.buf.extend_from_slice(chunk);
        proof {
            assert(self.buf@ =~= old(self).buf@ + chunk@);
        }
        FrameVerdict::Continue
    }

    /// Takes in that a read timed out.
    pub fn on_timeout(&self) -> (v: FrameVerdict)
        ensures
            v == self@.timeout_verdict(),
    {
        if self.got_any {
            FrameVerdict::Complete
        } else {
            FrameVerdict::Fail(DtuAtError::Timeout)
        }
    }

    /// Hands out the gathered message.
    pub fn into_message(self) -> (message: Vec<u8>)
        ensures
            message@ == self@.buf,
    {
        self.buf
    }
}

/// However the reads fall, a framer that starts empty stays within its cap.
pub proof fn lemma_framer_stays_within_cap(f: FramerModel, chunk: Seq<u8>)
    requires
        f.wf(),
    ensures
        f.after_data(chunk).wf(),
        f.data_verdict(chunk) == FrameVerdict::Continue ==> f.after_data(chunk).buf == f.buf
            + chunk,
        f.buf.len() + chunk.len() > f.max_len && chunk.len() > 0 ==> f.data_verdict(chunk)
            == FrameVerdict::Fail(DtuAtError::ResponseTooLarge) && f.after_data(chunk) == f,
{
}

} // verus!
