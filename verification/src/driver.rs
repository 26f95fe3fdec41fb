//! The pipeline around one exchange: turning invocation words into a task,
//! reading one line of the loop, opening a turn, and deciding how the
//! result is rendered and whether the loop goes on.

use vstd::prelude::*;
use crate::text::{spec_trim, trim_of, str_eq};
use crate::session::{TurnView, Role, ModelRequest, ConversationSession};
use crate::prompts::PromptCatalog;
use crate::interpret::{interpret_request, interpreter_payload};
use crate::{RunFlags, RunError, TurnOutcome, MAX_COMPLETION_TOKENS};

verus! {

/// The first `n` words joined with single spaces.
pub open spec fn join_upto(words: Seq<String>, n: int) -> Seq<char>
    decreases n,
{
    if n <= 0 {
        Seq::empty()
    } else if n == 1 {
        words[0]@
    } else {
        join_upto(words, n - 1) + " "@ + words[n - 1]@
    }
}

/// All the words joined with single spaces.
pub open spec fn spec_join(words: Seq<String>) -> Seq<char> {
    join_upto(words, words.len() as int)
}

/// Join the invocation's task words with single spaces.
pub fn join_words(words: &Vec<String>) -> (r: String)
    ensures
        r@ == spec_join(words@),
{
    let mut r = String::new();
    let n = words.len();
    let mut i: usize = 0;
    while i < n
        invariant
            n == words@.len(),
            i <= n,
            r@ == join_upto(words@, i as int),
        decreases n - i,
    {
        if i > 0 {
            r.append(" ");
        } else {
            proof {
                assert(r@ + words@[0]@ =~= words@[0]@);
            }
        }
        r.append(words[i].as_str());
        i = i + 1;
    }
    r
}

/// What one line of the loop asks for.
pub enum ReplCommand {
    /// The literal line "quit", up to surrounding white space.
    Quit,
    /// Any other line: its trimmed text becomes the task.
    Task(String),
}

/// Read one line of the loop: the literal "quit" ends it, anything else
/// is the next task.
pub fn read_command(line: &str) -> (r: ReplCommand)
    ensures
        (r is Quit) <==> spec_trim(line@) == "quit"@,
        (r matches ReplCommand::Task(t) ==> t@ == spec_trim(line@)),
{
    let t = trim_of(line);
    if str_eq(t, "quit") {
        ReplCommand::Quit
    } else {
        ReplCommand::Task(t.to_owned())
    }
}

/// Open one exchange: append the user turn, the task text plus the fixed
/// trailing instruction suffix, and build the completion request that
/// resends the whole history.
pub fn begin_turn(
    session: &mut ConversationSession,
    catalog: &PromptCatalog,
    task: &str,
    flags: &RunFlags,
) -> (r: ModelRequest)
    ensures
        final(session)@ == old(session)@.push(
            TurnView { role: Role::User, content: task@ + catalog.assistant_user@ },
        ),
        r@ == final(session)@,
        r.model == flags.model,
        r.max_tokens == MAX_COMPLETION_TOKENS,
{
    let content = String::from_str(task).concat(catalog.assistant_user.as_str());
    session.push_user(content);
    let messages = session.messages();
    ModelRequest { messages, model: flags.model, max_tokens: MAX_COMPLETION_TOKENS }
}

/// How a completed exchange's result reaches the user.
pub enum Rendering {
    /// Interpret mode: one more model call explains the output.
    Interpret(ModelRequest),
    /// Otherwise the trimmed result is printed as it is.
    Print(String),
}

/// Decide how to render a completed exchange's result: a second,
/// stateless model pass over {task, output} when interpret mode is on,
/// the trimmed result itself when it is off.
pub fn render_plan(catalog: &PromptCatalog, task: &str, result: &str, flags: &RunFlags) -> (r:
    Rendering)
    ensures
        (r is Interpret) <==> flags.interpret,
        (match r {
            Rendering::Interpret(req) => req.model == flags.model && req.max_tokens
                == MAX_COMPLETION_TOKENS && req@ == seq![
                (TurnView { role: Role::System, content: catalog.interpreter_system@ }),
                (TurnView {
                    role: Role::User,
                    content: interpreter_payload(task@, result@) + catalog.interpreter_user@,
                }),
            ],
            Rendering::Print(text) => text@ == spec_trim(result@),
        }),
{
    if flags.interpret {
        Rendering::Interpret(interpret_request(catalog, task, result, flags))
    } else {
        Rendering::Print(trim_of(result).to_owned())
    }
}

/// Whether the loop goes on after one exchange: a decline is recoverable
/// and the loop continues; any error ends the session.
pub fn continues_after(outcome: &Result<TurnOutcome, RunError>) -> (r: bool)
    ensures
        r <==> (outcome is Ok),
{
    match outcome {
        Ok(_) => true,
        Err(_) => false,
    }
}

} // verus!
