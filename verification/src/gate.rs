//! The confirm-then-execute boundary between model output and the shell:
//! planning what to run, reading the user's consent, and decoding what
//! the command printed.

use vstd::prelude::*;
use vstd::utf8::{valid_utf8, decode_utf8};
use crate::text::{spec_trim, spec_lower, trim_of, eq_lower, lower_char};
use crate::extract::CommandObject;
use crate::{RunFlags, RunError};

verus! {

/// Whether a command's output is streamed live to the terminal or
/// buffered for an interpretation pass to consume.
#[derive(Clone, Copy, PartialEq, Eq, Structural, Debug)]
pub enum CaptureMode {
    Inherit,
    Buffer,
}

/// Output is buffered exactly when an interpretation pass will read it.
pub open spec fn spec_capture_mode(interpret: bool) -> CaptureMode {
    if interpret {
        CaptureMode::Buffer
    } else {
        CaptureMode::Inherit
    }
}

/// What one extraction outcome leads to.
pub enum GatePlan {
    /// No command was found: confirmation and execution are skipped;
    /// the raw reply, with a trailing newline, is the answer.
    Echo { text: String },
    /// A command is there and unsafe mode is off: show it and ask first.
    Confirm { command: String, mode: CaptureMode },
    /// A command is there and unsafe mode is on: run it, unasked.
    Run { command: String, mode: CaptureMode },
}

/// Plan confirmation and execution for one extraction outcome. With
/// unsafe mode on no confirmation is ever requested: a command present
/// always runs.
pub fn gate_plan(extracted: &Option<CommandObject>, body: &str, flags: &RunFlags) -> (r: GatePlan)
    ensures
        flags.unsafe_mode ==> !(r is Confirm),
        (match extracted {
            Option::Some(obj) => (match obj.command {
                Option::Some(cmd) => {
                    if flags.unsafe_mode {
                        (r matches GatePlan::Run { command, mode } && command@ == cmd@ && mode
                            == spec_capture_mode(flags.interpret))
                    } else {
                        (r matches GatePlan::Confirm { command, mode } && command@ == cmd@ && mode
                            == spec_capture_mode(flags.interpret))
                    }
                },
                Option::None => (r matches GatePlan::Echo { text } && text@ == body@ + "\n"@),
            }),
            Option::None => (r matches GatePlan::Echo { text } && text@ == body@ + "\n"@),
        }),
{
    let mode = if flags.interpret {
        CaptureMode::Buffer
    } else {
        CaptureMode::Inherit
    };
    match extracted {
        Some(obj) => match &obj.command {
            Some(cmd) => {
                if flags.unsafe_mode {
                    GatePlan::Run { command: cmd.clone(), mode }
                } else {
                    GatePlan::Confirm { command: cmd.clone(), mode }
                }
            },
            None => GatePlan::Echo { text: String::from_str(body).concat("\n") },
        },
        None => GatePlan::Echo { text: String::from_str(body).concat("\n") },
    }
}

/// What the user's reply to the confirmation prompt decides.
#[derive(Clone, Copy, PartialEq, Eq, Structural, Debug)]
pub enum Confirmation {
    Proceed,
    Abort,
}

/// Consent: the reply, trimmed and lower-cased, is empty, "y" or "yes".
pub open spec fn accepts(input: Seq<char>) -> bool {
    let t = spec_lower(spec_trim(input));
    t.len() == 0 || t == "y"@ || t == "yes"@
}

/// Judge one confirmation reply: empty input means yes; anything that is
/// not consent aborts, and the command never runs.
pub fn confirm_decision(input: &str) -> (r: Confirmation)
    ensures
        (r == Confirmation::Proceed) <==> accepts(input@),
{
    let t = trim_of(input);
    if t.unicode_len() == 0 {
        proof {
            assert(spec_lower(t@).len() == 0);
        }
        Confirmation::Proceed
    } else if eq_lower(t, "y") {
        proof {
            lemma_lower_y();
        }
        Confirmation::Proceed
    } else if eq_lower(t, "yes") {
        proof {
            lemma_lower_yes();
        }
        Confirmation::Proceed
    } else {
        proof {
            lemma_lower_y();
            lemma_lower_yes();
            assert(spec_lower(t@).len() != 0);
        }
        Confirmation::Abort
    }
}

proof fn lemma_lower_y()
    ensures
        spec_lower("y"@) == "y"@,
{
    reveal_strlit("y");
    assert(spec_lower("y"@) =~= "y"@);
}

proof fn lemma_lower_yes()
    ensures
        spec_lower("yes"@) == "yes"@,
{
    reveal_strlit("yes");
    assert(spec_lower("yes"@) =~= "yes"@);
}

/// The empty reply and the single letter y, in either case, are consent.
pub proof fn lemma_confirm_consent()
    ensures
        accepts(""@),
        accepts("y"@),
        accepts("Y"@),
{
    reveal_strlit("");
    reveal_strlit("y");
    reveal_strlit("Y");
    assert(spec_trim(""@) =~= ""@);
    assert(spec_lower(""@).len() == 0);
    assert(!crate::text::is_space('y'));
    assert(spec_trim("y"@) =~= "y"@);
    lemma_lower_y();
    assert(!crate::text::is_space('Y'));
    assert(spec_trim("Y"@) =~= "Y"@);
    assert(lower_char('Y') == 'y');
    assert(spec_lower("Y"@) =~= "y"@);
}

/// A reply that, trimmed and lower-cased, is neither empty nor "y" nor
/// "yes" raises the abort outcome: the command never runs.
pub proof fn lemma_confirm_declines(input: Seq<char>)
    requires
        spec_lower(spec_trim(input)).len() != 0,
        spec_lower(spec_trim(input)) != "y"@,
        spec_lower(spec_trim(input)) != "yes"@,
    ensures
        !accepts(input),
{
}

/// Relies on String::from_utf8: it succeeds exactly on valid UTF-8 and
/// decodes it.
#[verifier::external_body]
fn string_from_utf8(bytes: Vec<u8>) -> (r: Option<String>)
    ensures
        (r is Some) <==> valid_utf8(bytes@),
        (r matches Option::Some(text) ==> text@ == decode_utf8(bytes@)),
{
    String::from_utf8(bytes).ok()
}

/// Decode what the command printed and append the trailing newline; bytes
/// that are not text fail with the decode error.
pub fn finish_capture(bytes: Vec<u8>) -> (r: Result<String, RunError>)
    ensures
        (r is Ok) <==> valid_utf8(bytes@),
        (r matches Ok(text) ==> text@ == decode_utf8(bytes@) + "\n"@),
        (r matches Err(e) ==> e == RunError::Decode),
{
    match string_from_utf8(bytes) {
        Some(text) => Ok(text.concat("\n")),
        None => Err(RunError::Decode),
    }
}

} // verus!
