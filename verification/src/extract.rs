//! Extracting a structured command from free-form model text: the direct
//! scan between the first `{` and the last `}`, and the single bounded
//! repair round trip when that span does not decode.

use vstd::prelude::*;
use crate::text::{contains_char, first_at, last_at, find_char, find_last_char, is_blank, all_space};
use crate::session::{Turn, TurnView, Role, ModelRequest};
use crate::prompts::PromptCatalog;
use crate::{ModelId, MAX_COMPLETION_TOKENS};

verus! {

/// Whether a text is one well-formed JSON document.
pub uninterp spec fn json_object(s: Seq<char>) -> bool;

/// The string under the given key of the JSON document `s`: nothing when
/// the document is no object, lacks the key, or holds a non-string there.
pub uninterp spec fn json_str_field(s: Seq<char>, key: Seq<char>) -> Option<Seq<char>>;

/// Relies on serde_json::from_str::<Value>, Value::get and Value::as_str:
/// whether a text parses as one JSON document, and which string stands
/// under a key of it, depend on the text alone. The outer answer is
/// nothing exactly when parsing fails.
#[verifier::external_body]
fn decode_str_field(data: &str, key: &str) -> (r: Option<Option<String>>)
    ensures
        (r is Some) <==> json_object(data@),
        (match r {
            Option::Some(f) => (match json_str_field(data@, key@) {
                Option::Some(v) => f matches Option::Some(x) && x@ == v,
                Option::None => f is None,
            }),
            Option::None => true,
        }),
{
    match serde_json::from_str::<serde_json::Value>(data) {
        Ok(doc) => Some(doc.get(key).and_then(|entry| entry.as_str()).map(|text| text.to_owned())),
        Err(_) => None,
    }
}

/// The decoded command object: the JSON text it came from, and the string
/// under its "command" key, when it carries one.
pub struct CommandObject {
    pub text: String,
    pub command: Option<String>,
}

/// What the direct scan of a reply finds.
pub enum ScanResult {
    /// The reply lacks `{` or `}`: no command, and no repair either.
    NoBraces,
    /// The span between the braces decodes as a JSON document.
    Object(CommandObject),
    /// Braces are there but the span between them does not decode.
    Malformed,
}

/// Whether a reply holds both an opening and a closing brace.
pub open spec fn has_braces(s: Seq<char>) -> bool {
    contains_char(s, '{') && contains_char(s, '}')
}

/// The span from the first `{` to the last `}`, inclusive; empty when the
/// first `{` stands after the last `}`.
pub open spec fn candidate(s: Seq<char>) -> Seq<char> {
    let i = first_at(s, '{');
    let j = last_at(s, '}');
    if i <= j {
        s.subrange(i, j + 1)
    } else {
        Seq::empty()
    }
}

/// Whether the direct scan of a reply yields a command object.
pub open spec fn decodes(s: Seq<char>) -> bool {
    has_braces(s) && json_object(candidate(s))
}

/// The command string the direct scan of a reply yields.
pub open spec fn spec_command(s: Seq<char>) -> Option<Seq<char>> {
    json_str_field(candidate(s), "command"@)
}

/// Whether `o` is the command object that the scan of `s` yields.
pub open spec fn object_of(o: CommandObject, s: Seq<char>) -> bool {
    &&& o.text@ == candidate(s)
    &&& (match spec_command(s) {
        Option::Some(v) => o.command matches Option::Some(x) && x@ == v,
        Option::None => o.command is None,
    })
}

/// The direct scan: locate the braces, slice the span, attempt decoding.
pub fn scan_reply(body: &str) -> (r: ScanResult)
    ensures
        (r is NoBraces) <==> !has_braces(body@),
        (r is Malformed) <==> (has_braces(body@) && !json_object(candidate(body@))),
        (r is Object) <==> decodes(body@),
        (r matches ScanResult::Object(o) ==> object_of(o, body@)),
{
    let n = body.unicode_len();
    let i_found = find_char(body, '{');
    let j_found = find_last_char(body, '}');
    match (i_found, j_found) {
        (Some(i), Some(j)) => {
            let data: &str = if i <= j {
                body.substring_char(i, j + 1)
            } else {
                body.substring_char(0, 0)
            };
            proof {
                assert(data@ =~= candidate(body@));
            }
            match decode_str_field(data, "command") {
                Some(command) => ScanResult::Object(
                    CommandObject { text: data.to_owned(), command },
                ),
                None => ScanResult::Malformed,
            }
        },
        _ => ScanResult::NoBraces,
    }
}

/// The direct scan collapsed to its outcome: the command object, or
/// nothing when a brace is missing or the span does not decode.
pub fn try_extract(body: &str) -> (r: Option<CommandObject>)
    ensures
        (r is Some) <==> decodes(body@),
        (r matches Option::Some(o) ==> object_of(o, body@)),
{
    match scan_reply(body) {
        ScanResult::Object(o) => Some(o),
        ScanResult::NoBraces => None,
        ScanResult::Malformed => None,
    }
}

/// Whether a reply asks for the one repair round trip: braces are there
/// but the span between them does not decode.
pub open spec fn needs_repair(s: Seq<char>) -> bool {
    has_braces(s) && !json_object(candidate(s))
}

/// The first step of extraction: either a final outcome, or the request
/// for the single repair call.
pub enum ExtractStep {
    Done(Option<CommandObject>),
    NeedRepair(ModelRequest),
}

/// Begin extraction on a reply. A reply whose span decodes yields its
/// object at once; one missing a brace yields no command at once; only a
/// malformed span asks for the repair call, whose request this builds.
pub fn extract_begin(catalog: &PromptCatalog, body: &str) -> (r: ExtractStep)
    ensures
        (r is NeedRepair) <==> needs_repair(body@),
        (match r {
            ExtractStep::Done(found) => ((found is Some) <==> decodes(body@)) && (found
                matches Option::Some(o) ==> object_of(o, body@)),
            ExtractStep::NeedRepair(req) => req.model == ModelId::Gpt35Turbo && req.max_tokens
                == MAX_COMPLETION_TOKENS && req@ == seq![
                (TurnView { role: Role::System, content: catalog.json_verify_system@ }),
                (TurnView { role: Role::User, content: catalog.json_verify_user@ + body@ }),
            ],
        }),
{
    match scan_reply(body) {
        ScanResult::Object(o) => ExtractStep::Done(Some(o)),
        ScanResult::NoBraces => ExtractStep::Done(None),
        ScanResult::Malformed => {
            let mut messages: Vec<Turn> = Vec::new();
            messages.push(Turn { role: Role::System, content: catalog.json_verify_system.clone() });
            messages.push(
                Turn { role: Role::User, content: catalog.json_verify_user.clone().concat(body) },
            );
            let req = ModelRequest {
                messages,
                model: ModelId::Gpt35Turbo,
                max_tokens: MAX_COMPLETION_TOKENS,
            };
            proof {
                assert(req@ =~= seq![
                    (TurnView { role: Role::System, content: catalog.json_verify_system@ }),
                    (TurnView { role: Role::User, content: catalog.json_verify_user@ + body@ }),
                ]);
            }
            ExtractStep::NeedRepair(req)
        },
    }
}

/// Finish extraction with the repair call's reply. A blank reply gives up;
/// any other gets the direct scan exactly once more, and its outcome,
/// successful or not, is final: there is never a second repair request.
pub fn extract_resume(reply: &str) -> (r: Option<CommandObject>)
    ensures
        is_blank(reply@) ==> r is None,
        !is_blank(reply@) ==> ((r is Some) <==> decodes(reply@)),
        (r matches Option::Some(o) ==> object_of(o, reply@)),
{
    if all_space(reply) {
        None
    } else {
        try_extract(reply)
    }
}

/// At most one repair round trip ever happens: a repair is requested only
/// for a reply whose brace span fails to decode, never for one that
/// decodes directly and never for one missing a brace.
pub proof fn lemma_repair_round_trips(s: Seq<char>)
    ensures
        decodes(s) ==> !needs_repair(s),
        !has_braces(s) ==> !needs_repair(s),
{
}

} // verus!
