//! The text of the AT commands that configure one request.

use crate::parser::{build_head_line, head_line_outcome, wire_len};
use crate::scan::decimal_value;
use crate::types::{DtuAtError, DtuAtHttpConfig, HttpRequest};
use vstd::prelude::*;
use vstd::string::*;

verus! {

/// The digits that write `n` in base ten, without leading zeros.
pub open spec fn decimal_digits(n: nat) -> Seq<u8>
    decreases n,
{
    if n < 10 {
        seq![(0x30 + n) as u8]
    } else {
        decimal_digits(n / 10).push((0x30 + n % 10) as u8)
    }
}

/// Reading the digits of a number gives the number back.
pub proof fn lemma_decimal_round_trip(n: nat)
    ensures
        decimal_value(decimal_digits(n)) == n,
        decimal_digits(n).len() >= 1,
        forall|k: int|
            0 <= k < decimal_digits(n).len() ==> 0x30 <= #[trigger] decimal_digits(n)[k] <= 0x39,
    decreases n,
{
    if n < 10 {
        let d = decimal_digits(n);
        assert(d.drop_last() =~= Seq::<u8>::empty());
        assert(decimal_value(d.drop_last()) == 0);
    } else {
        lemma_decimal_round_trip(n / 10);
        let d = decimal_digits(n);
        assert(d.drop_last() =~= decimal_digits(n / 10));
    }
}

/// Appends the decimal digits of `n` to `out`.
pub fn push_decimal(out: &mut Vec<u8>, n: u64)
    ensures
        final(out)@ == old(out)@ + decimal_digits(n as nat),
    decreases n,
{
    if n >= 10 {
        push_decimal(out, n / 10);
    }
    out.push(0x30 + (n % 10) as u8);
    proof {
        assert(out@ =~= old(out)@ + decimal_digits(n as nat));
    }
}

/// Appends the bytes of `bytes` to `out`.
pub fn push_bytes(out: &mut Vec<u8>, bytes: &[u8])
    ensures
        final(out)@ == old(out)@ + bytes@,
{
    out.extend_from_slice(bytes);
    proof {
        assert(out@ =~= old(out)@ + bytes@);
    }
}

/// A per-channel command: its name, the channel number, `=` and the argument.
pub open spec fn channel_command_text(name: Seq<u8>, channel: u8, arg: Seq<u8>) -> Seq<u8> {
    name + decimal_digits(channel as nat) + seq![0x3du8] + arg
}

/// Builds the per-channel command `name`, channel number, `=`, `arg`.
pub fn channel_command(name: &str, channel: u8, arg: &[u8]) -> (line: Vec<u8>)
    ensures
        line@ == channel_command_text(name.spec_bytes(), channel, arg@),
{
    let mut line: Vec<u8> = Vec::new();
    push_bytes(&mut line, name.as_bytes());
    push_decimal(&mut line, channel as u64);
    line.push(0x3d);
    push_bytes(&mut line, arg);
    proof {
        assert(line@ =~= channel_command_text(name.spec_bytes(), channel, arg@));
    }
    line
}

/// The number of configuration commands that a request can issue.
pub const CONFIG_COMMANDS: u8 = 7;

/// What the `k`-th configuration command of a request is: its text, `None`
/// where the command is left out, or the reason why the request cannot be
/// configured. In order the commands select HTTP mode on the channel, set the
/// method, the URL, the header argument (left out when it is empty), the
/// response filter mask, the request timeout and the data-type tag. There is
/// no command behind these.
pub open spec fn config_command_text(k: u8, config: DtuAtHttpConfig, req: HttpRequest) -> Result<
    Option<Seq<u8>>,
    DtuAtError,
> {
    let ch = config.channel;
    if k == 0 {
        Ok(Some(channel_command_text("AT+WKMOD".spec_bytes(), ch, "HTTP".spec_bytes())))
    } else if k == 1 {
        Ok(
            Some(
                channel_command_text(
                    "AT+HTPTP".spec_bytes(),
                    ch,
                    vstd::utf8::encode_utf8(req.method.at_name()),
                ),
            ),
        )
    } else if k == 2 {
        Ok(Some(channel_command_text("AT+HTPURL".spec_bytes(), ch, req.url.spec_bytes())))
    } else if k == 3 {
        match head_line_outcome(req.headers@, req.bearer_token) {
            Err(reason) => Err(DtuAtError::InvalidConfig(reason)),
            Ok(line) => if line.len() == 0 {
                Ok(None)
            } else {
                Ok(
                    Some(
                        channel_command_text(
                            "AT+HTPHD".spec_bytes(),
                            ch,
                            vstd::utf8::encode_utf8(line),
                        ),
                    ),
                )
            },
        }
    } else if k == 4 {
        Ok(
            Some(
                channel_command_text(
                    "AT+HTPPK".spec_bytes(),
                    ch,
                    decimal_digits(config.response_filter_mask as nat),
                ),
            ),
        )
    } else if k == 5 {
        Ok(
            Some(
                channel_command_text(
                    "AT+HTPTIM".spec_bytes(),
                    ch,
                    decimal_digits(config.request_timeout_secs as nat),
                ),
            ),
        )
    } else if k == 6 {
        Ok(
            Some(
                channel_command_text(
                    "AT+HTPDT".spec_bytes(),
                    ch,
                    vstd::utf8::encode_utf8(req.data_type.at_name()),
                ),
            ),
        )
    } else {
        Ok(None)
    }
}

/// Builds the `k`-th configuration command of a request (see
/// `config_command_text`).
pub fn config_command(k: u8, config: &DtuAtHttpConfig, req: &HttpRequest<'_>) -> (r: Result<
    Option<Vec<u8>>,
    DtuAtError,
>)
    ensures
        match r {
            Ok(Some(line)) => config_command_text(k, *config, *req) == Ok::<
                Option<Seq<u8>>,
                DtuAtError,
            >(Some(line@)),
            Ok(None) => config_command_text(k, *config, *req) == Ok::<
                Option<Seq<u8>>,
                DtuAtError,
            >(None),
            Err(e) => config_command_text(k, *config, *req) == Err::<Option<Seq<u8>>, DtuAtError>(
                e,
            ),
        },
{
    let ch = config.channel;
    if k == 0 {
        Ok(Some(channel_command("AT+WKMOD", ch, "HTTP".as_bytes())))
    } else if k == 1 {
        Ok(Some(channel_command("AT+HTPTP", ch, req.method.as_at().as_bytes())))
    } else if k == 2 {
        Ok(Some(channel_command("AT+HTPURL", ch, req.url.as_bytes())))
    } else if k == 3 {
        match build_head_line(req.headers, req.bearer_token) {
            Err(reason) => Err(DtuAtError::InvalidConfig(reason)),
            Ok(line) => {
                let bytes = line.as_str().as_bytes();
                proof {
                    lemma_empty_text_has_no_bytes(line@);
                }
                if bytes.len() == 0 {
                    Ok(None)
                } else {
                    Ok(Some(channel_command("AT+HTPHD", ch, bytes)))
                }
            },
        }
    } else if k == 4 {
        let mut arg: Vec<u8> = Vec::new();
        push_decimal(&mut arg, config.response_filter_mask as u64);
        Ok(Some(channel_command("AT+HTPPK", ch, arg.as_slice())))
    } else if k == 5 {
        let mut arg: Vec<u8> = Vec::new();
        push_decimal(&mut arg, config.request_timeout_secs as u64);
        Ok(Some(channel_command("AT+HTPTIM", ch, arg.as_slice())))
    } else if k == 6 {
        Ok(Some(channel_command("AT+HTPDT", ch, req.data_type.as_at().as_bytes())))
    } else {
        Ok(None)
    }
}

/// A text is empty exactly when its encoding is.
pub proof fn lemma_empty_text_has_no_bytes(text: Seq<char>)
    ensures
        text.len() == 0 <==> wire_len(text) == 0,
{
    vstd::utf8::encode_utf8_decode_utf8(text);
    if wire_len(text) == 0 {
        assert(vstd::utf8::encode_utf8(text) =~= Seq::<u8>::empty());
        assert(vstd::utf8::decode_utf8(Seq::<u8>::empty()) =~= Seq::<char>::empty());
    }
    if text.len() == 0 {
        assert(text =~= Seq::<char>::empty());
    }
}

} // verus!
