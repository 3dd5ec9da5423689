//! The shell protocol driver's pure half.
//!
//! The only channel back from the remote environment is one byte stream
//! shared between the command's stdout and an appended status marker, so
//! a command is wrapped as `cd <dir> && <cmd>; echo -n ";$?"`. Decoding
//! splits the captured stream at the last `;`: everything before it is
//! the real stdout (which may itself contain `;`), and the digits after
//! it are the exit status. A stream holding no separator at all is a
//! protocol error, as is one whose final token is not a decimal
//! number.
//!
//! Known sharp edge of this delimiter scheme: a command whose own
//! output ends with `;` followed by digits right before the stream
//! closes cannot be told apart from the appended status marker, so
//! those trailing digits would be read as the exit status. The
//! contracts below state exactly this last-separator behaviour rather
//! than paper over it.

use vstd::prelude::*;
use vstd::string::*;
use crate::errors::ErrorKind;
use crate::text::{all_digits, digits_val, spec_rfind, rfind_before, parse_uint};

verus! {

/// The recovered outcome of one shell invocation.
#[derive(Clone, Debug, PartialEq)]
pub struct CommandResult {
    pub exit_code: u32,
    pub stdout: String,
}

pub struct CommandResultV {
    pub exit_code: u32,
    pub stdout: Seq<char>,
}

impl View for CommandResult {
    type V = CommandResultV;

    open spec fn view(&self) -> CommandResultV {
        CommandResultV { exit_code: self.exit_code, stdout: self.stdout@ }
    }
}

/// The wrapped command text executed remotely for `cmd` in `dir`.
pub open spec fn spec_wrap_command(cmd: Seq<char>, dir: Seq<char>) -> Seq<char> {
    "cd "@ + dir + " && "@ + cmd + "; echo -n \";$?\""@
}

/// Wraps `cmd` so that the exit status trails the combined stream.
pub fn wrap_command(cmd: &str, dir: &str) -> (r: String)
    ensures
        r@ == spec_wrap_command(cmd@, dir@),
{
    let mut s = String::from_str("cd ");
    s.append(dir);
    s.append(" && ");
    s.append(cmd);
    s.append("; echo -n \";$?\"");
    proof {
        assert(s@ =~= spec_wrap_command(cmd@, dir@));
    }
    s
}

/// What a captured stream decodes to: the text before the last `;` as
/// stdout and the digits after it as the exit status. A stream holding
/// no separator at all decodes to nothing, and so does one whose final
/// token is not an unsigned decimal number.
pub open spec fn spec_decode(s: Seq<char>) -> Option<CommandResultV> {
    let k = spec_rfind(s, s.len(), ';');
    let rc_tok = s.subrange(k + 1, s.len() as int);
    if k >= 0 && rc_tok.len() > 0 && all_digits(rc_tok) && digits_val(rc_tok) <= u32::MAX {
        Some(CommandResultV { exit_code: digits_val(rc_tok) as u32, stdout: s.subrange(0, k) })
    } else {
        None
    }
}

/// Decodes one captured stream into exit status and stdout.
pub fn decode_stream(raw: &str) -> (r: Result<CommandResult, ErrorKind>)
    ensures
        match r {
            Ok(cr) => spec_decode(raw@) == Some(cr@),
            Err(e) => spec_decode(raw@) is None && e == ErrorKind::ProtocolError,
        },
{
    let n = raw.unicode_len();
    let k = match rfind_before(raw, n, n, ';') {
        Some(k) => k,
        None => {
            proof {
                assert(spec_decode(raw@) is None);
            }
            return Err(ErrorKind::ProtocolError);
        },
    };
    let out = String::from_str(raw.substring_char(0, k));
    match parse_uint(raw, n, k + 1, n, 4294967295u64) {
        Some(v) => {
            let cr = CommandResult { exit_code: v as u32, stdout: out };
            proof {
                assert(spec_decode(raw@) == Some(cr@));
            }
            Ok(cr)
        },
        None => {
            proof {
                assert(spec_decode(raw@) is None);
            }
            Err(ErrorKind::ProtocolError)
        },
    }
}

} // verus!
