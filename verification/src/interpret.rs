//! The stateless second pass: turning a task and the captured command
//! output into one request whose reply is the natural-language answer,
//! returned verbatim and never written into the conversation history.

use vstd::prelude::*;
use crate::session::{Turn, TurnView, Role, ModelRequest};
use crate::prompts::PromptCatalog;
use crate::{RunFlags, MAX_COMPLETION_TOKENS};

verus! {

/// The serialized JSON object of two string entries, first key first.
pub uninterp spec fn json_pair(k1: Seq<char>, v1: Seq<char>, k2: Seq<char>, v2: Seq<char>) -> Seq<
    char,
>;

/// Relies on serde_json::Map::insert, Value::Object and Value's Display:
/// the serialized object of two string entries depends on the four
/// strings alone.
#[verifier::external_body]
fn encode_pair(k1: &str, v1: &str, k2: &str, v2: &str) -> (r: String)
    ensures
        r@ == json_pair(k1@, v1@, k2@, v2@),
{
    let mut object = serde_json::Map::new();
    object.insert(k1.to_owned(), serde_json::Value::String(v1.to_owned()));
    object.insert(k2.to_owned(), serde_json::Value::String(v2.to_owned()));
    serde_json::Value::Object(object).to_string()
}

/// The structured payload the interpreter sends: exactly the task and the
/// output, as a JSON object.
pub open spec fn interpreter_payload(task: Seq<char>, output: Seq<char>) -> Seq<char> {
    json_pair("task"@, task, "output"@, output)
}

/// Build the interpreter's request: its fixed system directive, then one
/// user turn holding the {task, output} payload and the trailing
/// instruction suffix. The conversation history takes no part in it.
pub fn interpret_request(catalog: &PromptCatalog, task: &str, output: &str, flags: &RunFlags) -> (r:
    ModelRequest)
    ensures
        r.model == flags.model,
        r.max_tokens == MAX_COMPLETION_TOKENS,
        r@ == seq![
            (TurnView { role: Role::System, content: catalog.interpreter_system@ }),
            (TurnView {
                role: Role::User,
                content: interpreter_payload(task@, output@) + catalog.interpreter_user@,
            }),
        ],
{
    let payload = encode_pair("task", task, "output", output);
    let mut messages: Vec<Turn> = Vec::new();
    messages.push(Turn { role: Role::System, content: catalog.interpreter_system.clone() });
    messages.push(
        Turn { role: Role::User, content: payload.concat(catalog.interpreter_user.as_str()) },
    );
    let r = ModelRequest { messages, model: flags.model, max_tokens: MAX_COMPLETION_TOKENS };
    proof {
        assert(r@ =~= seq![
            (TurnView { role: Role::System, content: catalog.interpreter_system@ }),
            (TurnView {
                role: Role::User,
                content: interpreter_payload(task@, output@) + catalog.interpreter_user@,
            }),
        ]);
    }
    r
}

} // verus!
