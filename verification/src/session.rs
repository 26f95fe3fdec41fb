//! Conversation history: ordered turns, append-only, resent whole on every
//! model call; and the request value one such call carries.

use vstd::prelude::*;
use crate::ModelId;

verus! {

/// Who speaks in one turn of the conversation.
#[derive(Clone, Copy, PartialEq, Eq, Structural, Debug)]
pub enum Role {
    System,
    User,
    Assistant,
}

/// One message of the conversation history.
pub struct Turn {
    pub role: Role,
    pub content: String,
}

/// The mathematical value of a turn.
pub struct TurnView {
    pub role: Role,
    pub content: Seq<char>,
}

impl View for Turn {
    type V = TurnView;

    open spec fn view(&self) -> TurnView {
        TurnView { role: self.role, content: self.content@ }
    }
}

/// A fresh turn with the same role and content.
pub fn copy_turn(t: &Turn) -> (r: Turn)
    ensures
        r@ == t@,
{
    Turn { role: t.role, content: t.content.clone() }
}

/// Everything one completion call carries: the ordered messages, the model
/// to ask, and the bound on the answer's tokens.
pub struct ModelRequest {
    pub messages: Vec<Turn>,
    pub model: ModelId,
    pub max_tokens: u16,
}

impl View for ModelRequest {
    type V = Seq<TurnView>;

    open spec fn view(&self) -> Seq<TurnView> {
        self.messages@.map_values(|t: Turn| t@)
    }
}

/// Append-only multi-turn context. Turns are never reordered, edited or
/// dropped; the whole sequence goes out with every model call.
pub struct ConversationSession {
    pub turns: Vec<Turn>,
}

impl View for ConversationSession {
    type V = Seq<TurnView>;

    open spec fn view(&self) -> Seq<TurnView> {
        self.turns@.map_values(|t: Turn| t@)
    }
}

impl ConversationSession {
    pub fn new() -> (r: Self)
        ensures
            r@ == Seq::<TurnView>::empty(),
    {
        let r = ConversationSession { turns: Vec::new() };
        proof {
            assert(r@ =~= Seq::<TurnView>::empty());
        }
        r
    }

    /// Append a user turn with the given content.
    pub fn push_user(&mut self, content: String)
        ensures
            final(self)@ == old(self)@.push(TurnView { role: Role::User, content: content@ }),
    {
        let ghost before = self@;
        let ghost cv = content@;
        self.turns.push(Turn { role: Role::User, content });
        proof {
            assert(self@ =~= before.push(TurnView { role: Role::User, content: cv }));
        }
    }

    /// Append an assistant turn with the given content.
    pub fn push_assistant(&mut self, content: String)
        ensures
            final(self)@ == old(self)@.push(TurnView { role: Role::Assistant, content: content@ }),
    {
        let ghost before = self@;
        let ghost cv = content@;
        self.turns.push(Turn { role: Role::Assistant, content });
        proof {
            assert(self@ =~= before.push(TurnView { role: Role::Assistant, content: cv }));
        }
    }

    /// A copy of the whole history, in order, to send with a model call.
    pub fn messages(&self) -> (r: Vec<Turn>)
        ensures
            r@.map_values(|t: Turn| t@) == self@,
    {
        let mut r: Vec<Turn> = Vec::new();
        let n = self.turns.len();
        let mut i: usize = 0;
        while i < n
            invariant
                n == self.turns.len(),
                i <= n,
                r@.len() == i,
                forall|k: int| 0 <= k < i ==> #[trigger] r@[k]@ == self.turns@[k]@,
            decreases n - i,
        {
            let t = copy_turn(&self.turns[i]);
            r.push(t);
            i = i + 1;
        }
        proof {
            assert(r@.map_values(|t: Turn| t@) =~= self@);
        }
        r
    }
}

/// A session is well formed when it records completed exchanges only:
/// an even number of turns, a user turn in every even slot and an
/// assistant turn in every odd one, oldest first.
pub open spec fn alternating(s: Seq<TurnView>) -> bool {
    &&& s.len() % 2 == 0
    &&& forall|i: int|
        0 <= i < s.len() ==> (#[trigger] s[i]).role == (if i % 2 == 0 {
            Role::User
        } else {
            Role::Assistant
        })
}

/// The session that a sequence of completed exchanges leaves behind,
/// each exchange contributing its user content and then its assistant
/// content.
pub open spec fn session_after(exchanges: Seq<(Seq<char>, Seq<char>)>) -> Seq<TurnView>
    decreases exchanges.len(),
{
    if exchanges.len() == 0 {
        Seq::empty()
    } else {
        session_after(exchanges.drop_last()).push(
            TurnView { role: Role::User, content: exchanges.last().0 },
        ).push(TurnView { role: Role::Assistant, content: exchanges.last().1 })
    }
}

/// Committing one completed exchange keeps the session well formed.
pub proof fn lemma_exchange_preserves_shape(s: Seq<TurnView>, u: Seq<char>, a: Seq<char>)
    requires
        alternating(s),
    ensures
        alternating(
            s.push(TurnView { role: Role::User, content: u }).push(
                TurnView { role: Role::Assistant, content: a },
            ),
        ),
{
}

/// After any number of completed exchanges the session holds exactly two
/// turns per exchange, strictly alternating, user before assistant,
/// oldest exchange first.
pub proof fn lemma_session_shape(exchanges: Seq<(Seq<char>, Seq<char>)>)
    ensures
        session_after(exchanges).len() == 2 * exchanges.len(),
        alternating(session_after(exchanges)),
        forall|k: int|
            0 <= k < exchanges.len() ==> #[trigger] session_after(exchanges)[2 * k] == (TurnView {
                role: Role::User,
                content: exchanges[k].0,
            }) && session_after(exchanges)[2 * k + 1] == (TurnView {
                role: Role::Assistant,
                content: exchanges[k].1,
            }),
    decreases exchanges.len(),
{
    if exchanges.len() > 0 {
        lemma_session_shape(exchanges.drop_last());
        let prev = session_after(exchanges.drop_last());
        let whole = session_after(exchanges);
        assert forall|k: int| 0 <= k < exchanges.len() implies #[trigger] whole[2 * k]
            == (TurnView { role: Role::User, content: exchanges[k].0 }) && whole[2 * k + 1]
            == (TurnView { role: Role::Assistant, content: exchanges[k].1 }) by {
            if k < exchanges.len() - 1 {
                assert(whole[2 * k] == prev[2 * k]);
                assert(whole[2 * k + 1] == prev[2 * k + 1]);
                assert(exchanges.drop_last()[k] == exchanges[k]);
            }
        }
    }
}

} // verus!
