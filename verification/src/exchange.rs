//! The rules by which the client judges what the modem sent: acknowledgement
//! of a command, entry into command mode, readiness for the payload, trailing
//! data, and the finished response.

use crate::body::{extract_body, http_body_of, notification_tag};
use crate::parser::{
    contains_at_error, contains_http_fail, contains_http_ready, contains_ok, fail_marker, is_at_error,
    is_ok, parse_status_code, ready_marker, status_code_of,
};
use crate::types::{DtuAtError, DtuAtHttpConfig, HttpRequest, HttpResponse, ResponseModel};
use crate::util::{has_match, has_prefix, starts_with};
use vstd::prelude::*;
use vstd::string::*;

verus! {

/// Longest wait, in milliseconds, for the first byte of one poll.
pub const POLL_FIRST_TIMEOUT_CAP: u64 = 800;

/// Wait, in milliseconds, for the first byte of the reply to a probe.
pub const PROBE_FIRST_TIMEOUT: u64 = 2000;

/// The reason reported for a channel outside 1 to 4.
pub open spec fn channel_reason() -> &'static str {
    "channel 必须在 1~4"
}

/// The reason reported for an empty URL.
pub open spec fn url_reason() -> &'static str {
    "url 不能为空"
}

/// The reason reported for a response cap of zero.
pub open spec fn max_len_reason() -> &'static str {
    "max_response_len 不能为 0"
}

/// What validation makes of a configuration and a request: the channel must
/// be 1 to 4, the URL non-empty and the response cap positive. The first rule
/// broken, in that order, gives the reason.
pub open spec fn validation(config: DtuAtHttpConfig, req: HttpRequest) -> Result<(), DtuAtError> {
    if !(1 <= config.channel <= 4) {
        Err(DtuAtError::InvalidConfig(channel_reason()))
    } else if req.url@.len() == 0 {
        Err(DtuAtError::InvalidConfig(url_reason()))
    } else if config.max_response_len == 0 {
        Err(DtuAtError::InvalidConfig(max_len_reason()))
    } else {
        Ok(())
    }
}

/// Checks a configuration and a request before anything is sent.
pub fn validate_request(config: &DtuAtHttpConfig, req: &HttpRequest<'_>) -> (r: Result<
    (),
    DtuAtError,
>)
    ensures
        r == validation(*config, *req),
{
    if !(1 <= config.channel && config.channel <= 4) {
        return Err(DtuAtError::InvalidConfig("channel 必须在 1~4"));
    }
    if req.url.is_empty() {
        return Err(DtuAtError::InvalidConfig("url 不能为空"));
    }
    if config.max_response_len == 0 {
        return Err(DtuAtError::InvalidConfig("max_response_len 不能为 0"));
    }
    Ok(())
}

/// Validation accepts exactly the requests that break none of its three rules.
pub proof fn lemma_validation_rejects_each_fault(config: DtuAtHttpConfig, req: HttpRequest)
    ensures
        validation(config, req) is Ok <==> 1 <= config.channel <= 4 && req.url@.len() > 0
            && config.max_response_len > 0,
        validation(config, req) matches Err(e) ==> e is InvalidConfig,
{
}

/// The first-byte timeout of one poll: `base`, but at most
/// `POLL_FIRST_TIMEOUT_CAP`.
pub fn short_poll_timeout(base: u64) -> (t: u64)
    ensures
        t == if base > POLL_FIRST_TIMEOUT_CAP {
            POLL_FIRST_TIMEOUT_CAP
        } else {
            base
        },
{
    if base > POLL_FIRST_TIMEOUT_CAP {
        POLL_FIRST_TIMEOUT_CAP
    } else {
        base
    }
}

/// The verdict on the reply to a command: rejected when it holds an error
/// marker, malformed when it holds no acknowledgement, else accepted.
pub open spec fn ack_verdict(rsp: Seq<u8>) -> Result<(), DtuAtError> {
    if is_at_error(rsp) {
        Err(DtuAtError::AtRejected)
    } else if !is_ok(rsp) {
        Err(DtuAtError::BadResponse)
    } else {
        Ok(())
    }
}

/// Judges the reply to a command that only needs acknowledging.
pub fn classify_ack(rsp: &[u8]) -> (r: Result<(), DtuAtError>)
    ensures
        r == ack_verdict(rsp@),
{
    if contains_at_error(rsp) {
        return Err(DtuAtError::AtRejected);
    }
    if !contains_ok(rsp) {
        return Err(DtuAtError::BadResponse);
    }
    Ok(())
}

/// Judges the reply to a query as `classify_ack` does, and hands the reply
/// back when it is accepted.
pub fn classify_reply(rsp: Vec<u8>) -> (r: Result<Vec<u8>, DtuAtError>)
    ensures
        match r {
            Ok(reply) => ack_verdict(rsp@) is Ok && reply@ == rsp@,
            Err(e) => ack_verdict(rsp@) == Err::<(), DtuAtError>(e),
        },
{
    match classify_ack(rsp.as_slice()) {
        Ok(()) => Ok(rsp),
        Err(e) => Err(e),
    }
}

/// What a framed read came to: the message, or the error that lost it.
pub open spec fn seen(outcome: Result<&[u8], DtuAtError>) -> Result<Seq<u8>, DtuAtError> {
    match outcome {
        Ok(bytes) => Ok(bytes@),
        Err(e) => Err(e),
    }
}

/// What to do after the escape sequence.
#[derive(Clone, Copy, Debug, PartialEq, Eq)]
pub enum EscapeVerdict {
    /// The modem accepts commands.
    Ready,
    /// Unclear: probe with a bare command.
    Probe,
    /// Command mode cannot be reached.
    Fail(DtuAtError),
}

/// The verdict on the reply to the escape sequence. An acknowledgement means
/// ready. Any other reply, and silence, lead to a probe where the fallback is
/// enabled; without it the reply is malformed and silence is a timeout. Every
/// other error stands as it is.
pub open spec fn escape_verdict(outcome: Result<Seq<u8>, DtuAtError>, fallback: bool)
    -> EscapeVerdict {
    match outcome {
        Ok(rsp) => if is_ok(rsp) {
            EscapeVerdict::Ready
        } else if fallback {
            EscapeVerdict::Probe
        } else {
            EscapeVerdict::Fail(DtuAtError::BadResponse)
        },
        Err(DtuAtError::Timeout) => if fallback {
            EscapeVerdict::Probe
        } else {
            EscapeVerdict::Fail(DtuAtError::Timeout)
        },
        Err(e) => EscapeVerdict::Fail(e),
    }
}

/// Judges the reply to the escape sequence.
pub fn classify_escape(outcome: Result<&[u8], DtuAtError>, fallback: bool) -> (v: EscapeVerdict)
    ensures
        v == escape_verdict(seen(outcome), fallback),
{
    match outcome {
        Ok(rsp) => {
            if contains_ok(rsp) {
                EscapeVerdict::Ready
            } else if fallback {
                EscapeVerdict::Probe
            } else {
                EscapeVerdict::Fail(DtuAtError::BadResponse)
            }
        },
        Err(DtuAtError::Timeout) => {
            if fallback {
                EscapeVerdict::Probe
            } else {
                EscapeVerdict::Fail(DtuAtError::Timeout)
            }
        },
        Err(e) => EscapeVerdict::Fail(e),
    }
}

/// How far the modem is with taking the configuration.
#[derive(Clone, Copy, Debug, PartialEq, Eq)]
pub enum ReadyVerdict {
    /// Nothing decisive yet: keep polling.
    Pending,
    /// The modem is ready for the payload.
    Ready,
    /// The modem will not get ready.
    Fail(DtuAtError),
}

/// The verdict on what has arrived since the save command: an error marker
/// rejects, the failure marker is a bad response, the ready marker means
/// ready, in that order of precedence.
pub open spec fn ready_verdict(merged: Seq<u8>) -> ReadyVerdict {
    if is_at_error(merged) {
        ReadyVerdict::Fail(DtuAtError::AtRejected)
    } else if has_match(merged, fail_marker()) {
        ReadyVerdict::Fail(DtuAtError::BadResponse)
    } else if has_match(merged, ready_marker()) {
        ReadyVerdict::Ready
    } else {
        ReadyVerdict::Pending
    }
}

/// Judges what has arrived since the save command.
pub fn classify_ready(merged: &[u8]) -> (v: ReadyVerdict)
    ensures
        v == ready_verdict(merged@),
{
    if contains_at_error(merged) {
        ReadyVerdict::Fail(DtuAtError::AtRejected)
    } else if contains_http_fail(merged) {
        ReadyVerdict::Fail(DtuAtError::BadResponse)
    } else if contains_http_ready(merged) {
        ReadyVerdict::Ready
    } else {
        ReadyVerdict::Pending
    }
}

/// What to do after waiting for the primary response.
#[derive(Clone, Copy, Debug, PartialEq, Eq)]
pub enum PrimaryVerdict {
    /// The response has begun: go on to collect what trails it.
    Accept,
    /// Nothing came: send the payload once more.
    Resend,
    /// The request has failed.
    Fail(DtuAtError),
}

/// The verdict on the wait for the primary response. A timeout leads to one
/// resend where `may_resend` holds; every other error, and a timeout where it
/// does not hold, fails the request.
pub open spec fn primary_verdict(outcome: Result<Seq<u8>, DtuAtError>, may_resend: bool)
    -> PrimaryVerdict {
    match outcome {
        Ok(_) => PrimaryVerdict::Accept,
        Err(DtuAtError::Timeout) => if may_resend {
            PrimaryVerdict::Resend
        } else {
            PrimaryVerdict::Fail(DtuAtError::Timeout)
        },
        Err(e) => PrimaryVerdict::Fail(e),
    }
}

/// Judges the wait for the primary response.
pub fn classify_primary(outcome: Result<&[u8], DtuAtError>, may_resend: bool) -> (v:
    PrimaryVerdict)
    ensures
        v == primary_verdict(seen(outcome), may_resend),
{
    match outcome {
        Ok(_) => PrimaryVerdict::Accept,
        Err(DtuAtError::Timeout) => {
            if may_resend {
                PrimaryVerdict::Resend
            } else {
                PrimaryVerdict::Fail(DtuAtError::Timeout)
            }
        },
        Err(e) => PrimaryVerdict::Fail(e),
    }
}

/// What to do with one poll for trailing data.
#[derive(Clone, Copy, Debug, PartialEq, Eq)]
pub enum FollowupVerdict {
    /// Nothing came and nothing has been appended yet: poll again.
    PollAgain,
    /// A notification came: append it and poll again.
    AppendAndPoll,
    /// Content came: append it and stop.
    AppendAndStop,
    /// Nothing came after something was appended: stop.
    Stop,
    /// The request has failed.
    Fail(DtuAtError),
}

/// The verdict on one poll for trailing data, where `len` bytes have been
/// accumulated under a cap of `max_len` and `appended` says whether a chunk
/// has been appended before. A poll that brings nothing, by silence or by an
/// empty read, stops the collection once something was appended. A chunk that
/// would lift the accumulation over the cap fails the request. A chunk that
/// begins with the notification tag is appended and more is awaited; any
/// other chunk is appended and ends the collection.
pub open spec fn followup_verdict(
    outcome: Result<Seq<u8>, DtuAtError>,
    appended: bool,
    len: nat,
    max_len: usize,
) -> FollowupVerdict {
    match outcome {
        Ok(chunk) => if chunk.len() == 0 {
            if appended {
                FollowupVerdict::Stop
            } else {
                FollowupVerdict::PollAgain
            }
        } else if len + chunk.len() > max_len {
            FollowupVerdict::Fail(DtuAtError::ResponseTooLarge)
        } else if has_prefix(chunk, notification_tag()) {
            FollowupVerdict::AppendAndPoll
        } else {
            FollowupVerdict::AppendAndStop
        },
        Err(DtuAtError::Timeout) => if appended {
            FollowupVerdict::Stop
        } else {
            FollowupVerdict::PollAgain
        },
        Err(e) => FollowupVerdict::Fail(e),
    }
}

/// Judges one poll for trailing data.
pub fn classify_followup(
    outcome: Result<&[u8], DtuAtError>,
    appended: bool,
    len: usize,
    max_len: usize,
) -> (v: FollowupVerdict)
    ensures
        v == followup_verdict(seen(outcome), appended, len as nat, max_len),
{
    match outcome {
        Ok(chunk) => {
            if chunk.len() == 0 {
                if appended {
                    FollowupVerdict::Stop
                } else {
                    FollowupVerdict::PollAgain
                }
            } else if len > max_len || chunk.len() > max_len - len {
                FollowupVerdict::Fail(DtuAtError::ResponseTooLarge)
            } else if starts_with(chunk, "FS@".as_bytes()) {
                FollowupVerdict::AppendAndPoll
            } else {
                FollowupVerdict::AppendAndStop
            }
        },
        Err(DtuAtError::Timeout) => {
            if appended {
                FollowupVerdict::Stop
            } else {
                FollowupVerdict::PollAgain
            }
        },
        Err(e) => FollowupVerdict::Fail(e),
    }
}

/// The bytes sent as the payload: the body, or a single space where the body
/// is empty, since the modem goes on only after a write that is not empty.
pub open spec fn wire_payload(body: Seq<u8>) -> Seq<u8> {
    if body.len() == 0 {
        seq![0x20u8]
    } else {
        body
    }
}

/// Builds the bytes sent as the payload.
pub fn payload_bytes(body: &[u8]) -> (payload: Vec<u8>)
    ensures
        payload@ == wire_payload(body@),
        payload@.len() > 0,
{
    if body.len() == 0 {
        let mut payload: Vec<u8> = Vec::new();
        payload.push(0x20);
        proof {
            assert(payload@ =~= wire_payload(body@));
        }
        payload
    } else {
        vstd::slice::slice_to_vec(body)
    }
}

/// A status that must come with a body: 2xx other than 204. (304 is exempt
/// as well, and is no 2xx.)
pub open spec fn status_needs_body(status: Option<u16>) -> bool {
    status matches Some(code) && 200 <= code <= 299 && code != 204 && code != 304
}

/// The body of `raw` is absent or empty.
pub open spec fn lacks_body(raw: Seq<u8>) -> bool {
    match http_body_of(raw) {
        Some(body) => body.len() == 0,
        None => true,
    }
}

/// The response that `raw` makes, or `BodyMissing` where the policy requires
/// a body, the status needs one and `raw` has none.
pub open spec fn response_outcome(raw: Seq<u8>, require_body: bool) -> Result<
    ResponseModel,
    DtuAtError,
> {
    if require_body && status_needs_body(status_code_of(raw)) && lacks_body(raw) {
        Err(DtuAtError::BodyMissing)
    } else {
        Ok(ResponseModel { status_code: status_code_of(raw), raw })
    }
}

/// What a finished request hands out, as mathematical content.
pub open spec fn outcome_view(r: Result<HttpResponse, DtuAtError>) -> Result<
    ResponseModel,
    DtuAtError,
> {
    match r {
        Ok(resp) => Ok(resp@),
        Err(e) => Err(e),
    }
}

/// Parses the status code out of the accumulated bytes, builds the response
/// and enforces the body policy.
pub fn finish_response(raw: Vec<u8>, require_body: bool) -> (r: Result<HttpResponse, DtuAtError>)
    ensures
        outcome_view(r) == response_outcome(raw@, require_body),
{
    let status_code = parse_status_code(raw.as_slice());
    let resp = HttpResponse { status_code, raw };
    let exempt = match resp.status_code {
        Some(code) => code == 204 || code == 304,
        None => false,
    };
    if require_body && resp.is_success() && !exempt {
        let missing = match resp.http_body() {
            Some(body) => body.len() == 0,
            None => true,
        };
        if missing {
            return Err(DtuAtError::BodyMissing);
        }
    }
    Ok(resp)
}

/// Among the success statuses only 204 is let through without a body; 304,
/// like every status outside 200 to 299, needs none to begin with.
pub proof fn lemma_only_204_and_304_are_exempt(raw: Seq<u8>, code: u16)
    requires
        status_code_of(raw) == Some(code),
        lacks_body(raw),
    ensures
        response_outcome(raw, true) is Err <==> 200 <= code <= 299 && code != 204,
        response_outcome(raw, false) is Ok,
        code == 204 || code == 304 ==> response_outcome(raw, true) is Ok,
{
}

/// A response is handed out only where the body policy is met.
pub proof fn lemma_response_meets_policy(raw: Seq<u8>, require_body: bool)
    ensures
        response_outcome(raw, require_body) matches Ok(resp) ==> resp.raw == raw
            && resp.status_code == status_code_of(raw) && !(require_body && status_needs_body(
            resp.status_code,
        ) && lacks_body(raw)),
        response_outcome(raw, require_body) matches Err(e) ==> e == DtuAtError::BodyMissing,
{
}

} // verus!
