//! The conversation log and the life of one user turn: a submitted
//! input appends the user's envelope and a pending placeholder; the
//! backend's eventual answer — or the rendering of its error — replaces
//! the placeholder in place, found by its identifier, never by search.
//! The application serialises access to the log and performs the
//! network step between the two halves.

use vstd::prelude::*;
use vstd::string::StringExecFns;
use crate::ai_models::AIModel;
use crate::ai_models::AIModelV;
use crate::ai_models::name_of;
use crate::i18n::Language;
use crate::text::is_blank;
use crate::text::str_is_blank;

verus! {

/// Who a conversation entry is from.  A Thinking entry is the
/// transient placeholder shown while a backend call is outstanding; it
/// is never sent to a backend.
#[derive(Debug, PartialEq)]
pub enum Sender {
    User,
    AI(AIModel),
    Thinking(AIModel),
}

/// The shape of a sender.
pub enum SenderV {
    User,
    AI(AIModelV),
    Thinking(AIModelV),
}

impl View for Sender {
    type V = SenderV;

    open spec fn view(&self) -> SenderV {
        match self {
            Sender::User => SenderV::User,
            Sender::AI(m) => SenderV::AI(m@),
            Sender::Thinking(m) => SenderV::Thinking(m@),
        }
    }
}

impl Clone for Sender {
    fn clone(&self) -> (r: Self)
        ensures
            r@ == self@,
    {
        match self {
            Sender::User => Sender::User,
            Sender::AI(m) => Sender::AI(m.clone()),
            Sender::Thinking(m) => Sender::Thinking(m.clone()),
        }
    }
}

/// One entry of the conversation: its text, its sender, and the
/// moment it was created, in milliseconds.
#[derive(Debug)]
pub struct Message {
    pub content: String,
    pub sender: Sender,
    pub timestamp_ms: i64,
}

/// The shape of one entry.
pub struct MessageV {
    pub content: Seq<char>,
    pub sender: SenderV,
    pub timestamp_ms: int,
}

impl View for Message {
    type V = MessageV;

    open spec fn view(&self) -> MessageV {
        MessageV { content: self.content@, sender: self.sender@, timestamp_ms: self.timestamp_ms as int }
    }
}

impl Clone for Message {
    fn clone(&self) -> (r: Self)
        ensures
            r@ == self@,
    {
        Message {
            content: self.content.clone(),
            sender: self.sender.clone(),
            timestamp_ms: self.timestamp_ms,
        }
    }
}

/// Whether the interface is idle or taking input.
#[derive(Debug, PartialEq, Eq, Structural)]
pub enum InputMode {
    Normal,
    Editing,
}

/// Which screen the interface shows.
#[derive(Debug, PartialEq, Eq, Structural)]
pub enum AppState {
    Welcome,
    Chatting,
    Help,
}

/// The shapes of a sequence of entries.
pub open spec fn messages_view(s: Seq<Message>) -> Seq<MessageV> {
    s.map_values(|m: Message| m@)
}

/// How many placeholders a log holds.
pub open spec fn pending_count(s: Seq<MessageV>) -> nat
    decreases s.len(),
{
    if s.len() == 0 {
        0
    } else {
        pending_count(s.drop_last()) + (if s.last().sender is Thinking {
            1nat
        } else {
            0nat
        })
    }
}

/// The envelope of a submitted user input.
pub open spec fn user_envelope(text: Seq<char>, now: int) -> MessageV {
    MessageV { content: text, sender: SenderV::User, timestamp_ms: now }
}

/// The placeholder shown while the backend is working.
pub open spec fn pending_envelope(m: AIModelV, language: Language, now: int) -> MessageV {
    MessageV {
        content: thinking_text_of(m, language),
        sender: SenderV::Thinking(m),
        timestamp_ms: now,
    }
}

/// The envelope of an answer, or of an error rendered as one.
pub open spec fn answer_envelope(m: AIModelV, text: Seq<char>, now: int) -> MessageV {
    MessageV { content: text, sender: SenderV::AI(m), timestamp_ms: now }
}

/// The placeholder's text, per language, naming the backend at work.
pub open spec fn thinking_text_of(m: AIModelV, language: Language) -> Seq<char> {
    match language {
        Language::Chinese => "🤔 "@ + name_of(m, language) + " 正在思考中..."@,
        Language::English => "🤔 "@ + name_of(m, language) + " is thinking..."@,
    }
}

/// Renders the placeholder's text.
pub fn thinking_text(model: &AIModel, language: Language) -> (r: String)
    ensures
        r@ == thinking_text_of(model@, language),
{
    let name = model.name(language);
    let mut s = "🤔 ".to_owned();
    s.append(name.as_str());
    match language {
        Language::Chinese => s.append(" 正在思考中..."),
        Language::English => s.append(" is thinking..."),
    }
    s
}

/// The ordered log of one session's conversation, append-only but for
/// the single replace-in-place of a placeholder.  The application
/// guards it with a lock; each operation here is one critical section.
#[derive(Debug)]
pub struct ConversationStore {
    pub messages: Vec<Message>,
}

impl View for ConversationStore {
    type V = Seq<MessageV>;

    open spec fn view(&self) -> Seq<MessageV> {
        messages_view(self.messages@)
    }
}

impl ConversationStore {
    /// An empty log, as at session start.
    pub fn new() -> (r: Self)
        ensures
            r@ == Seq::<MessageV>::empty(),
    {
        let r = ConversationStore { messages: Vec::new() };
        proof {
            assert(r@ =~= Seq::<MessageV>::empty());
        }
        r
    }

    /// How many entries the log holds.
    pub fn len(&self) -> (r: usize)
        ensures
            r == self@.len(),
    {
        self.messages.len()
    }

    /// Adds an entry at the end and returns its stable identifier.
    pub fn append(&mut self, m: Message) -> (id: usize)
        ensures
            final(self)@ == old(self)@.push(m@),
            id == old(self)@.len(),
    {
        let id = self.messages.len();
        self.messages.push(m);
        proof {
            assert(self@ =~= old(self)@.push(self.messages@.last()@));
        }
        id
    }

    /// Swaps the entry with the given identifier; an identifier that
    /// no longer names an entry makes this a no-op, not an error.
    pub fn replace(&mut self, id: usize, m: Message)
        ensures
            id < old(self)@.len() ==> final(self)@ == old(self)@.update(id as int, m@),
            id >= old(self)@.len() ==> final(self)@ == old(self)@,
    {
        if id < self.messages.len() {
            self.messages.remove(id);
            self.messages.insert(id, m);
            proof {
                assert(self@ =~= old(self)@.update(id as int, m@));
            }
        }
    }

    /// A consistent point-in-time copy for rendering.
    pub fn snapshot(&self) -> (r: Vec<Message>)
        ensures
            messages_view(r@) == self@,
    {
        let mut out: Vec<Message> = Vec::new();
        let n = self.messages.len();
        let mut i: usize = 0;
        while i < n
            invariant
                i <= n,
                n == self.messages@.len(),
                messages_view(out@) == self@.take(i as int),
            decreases n - i,
        {
            let ghost prev = out@;
            let c = self.messages[i].clone();
            proof {
                assert(c@ == self.messages@[i as int]@);
            }
            out.push(c);
            proof {
                assert(out@ == prev.push(c));
                assert(messages_view(prev).len() == prev.len());
                assert(prev.len() == i);
                assert(out@.len() == i + 1);
                assert forall|j: int| 0 <= j < i + 1 implies messages_view(out@)[j] == self@.take(
                    i + 1 as int,
                )[j] by {
                    assert(messages_view(out@)[j] == out@[j]@);
                    assert(self@.take(i + 1 as int)[j] == self.messages@[j]@);
                    if j < i {
                        assert(messages_view(prev)[j] == prev[j]@);
                        assert(out@[j] == prev[j]);
                        assert(messages_view(prev)[j] == self@.take(i as int)[j]);
                    } else {
                        assert(out@[j] == c);
                    }
                }
                assert(messages_view(out@) =~= self@.take(i + 1 as int));
            }
            i += 1;
        }
        proof {
            assert(self@.take(n as int) =~= self@);
        }
        out
    }

    /// Takes one user input: a blank input does nothing; any other
    /// appends the user's envelope and then the placeholder, and hands
    /// back the placeholder's identifier for the later replacement.
    pub fn submit(&mut self, input: &str, model: &AIModel, language: Language, now_ms: i64) -> (r:
        Option<usize>)
        ensures
            is_blank(input@) ==> r is None && final(self)@ == old(self)@,
            !is_blank(input@) ==> (r matches Some(id) && id == old(self)@.len() + 1 && final(self)@
                == old(self)@.push(user_envelope(input@, now_ms as int)).push(
                pending_envelope(model@, language, now_ms as int),
            )),
    {
        if str_is_blank(input) {
            return None;
        }
        let _user_id = self.append(
            Message { content: input.to_owned(), sender: Sender::User, timestamp_ms: now_ms },
        );
        let text = thinking_text(model, language);
        let id = self.append(
            Message { content: text, sender: Sender::Thinking(model.clone()), timestamp_ms: now_ms },
        );
        Some(id)
    }

    /// Ends one turn: the placeholder with the given identifier is
    /// swapped for the answer — or for an error rendered as one — and
    /// the log is otherwise untouched.  An identifier that no longer
    /// names an entry makes this a no-op.
    pub fn complete(&mut self, id: usize, model: &AIModel, text: &str, now_ms: i64)
        ensures
            id < old(self)@.len() ==> final(self)@ == old(self)@.update(
                id as int,
                answer_envelope(model@, text@, now_ms as int),
            ),
            id >= old(self)@.len() ==> final(self)@ == old(self)@,
    {
        self.replace(
            id,
            Message {
                content: text.to_owned(),
                sender: Sender::AI(model.clone()),
                timestamp_ms: now_ms,
            },
        );
    }
}

/// One user turn, beginning to end.  A non-blank input submitted to a
/// log and later completed — with the answer or with an error rendered
/// as one — leaves the log grown by exactly one User envelope followed
/// by exactly one answering envelope, with no placeholder left behind.
pub proof fn lemma_turn_lifecycle(
    log: Seq<MessageV>,
    input: Seq<char>,
    m: AIModelV,
    language: Language,
    t0: int,
    answer: Seq<char>,
    t1: int,
)
    ensures
        !is_blank(input) ==> ({
            let after_submit = log.push(user_envelope(input, t0)).push(
                pending_envelope(m, language, t0),
            );
            let after = after_submit.update(log.len() as int + 1, answer_envelope(m, answer, t1));
            after == log.push(user_envelope(input, t0)).push(answer_envelope(m, answer, t1))
                && pending_count(after) == pending_count(log)
        }),
{
    if !is_blank(input) {
        let u = user_envelope(input, t0);
        let a = answer_envelope(m, answer, t1);
        let after_submit = log.push(u).push(pending_envelope(m, language, t0));
        let after = after_submit.update(log.len() as int + 1, a);
        assert(after =~= log.push(u).push(a));
        let x = log.push(u).push(a);
        assert(x.last() == a);
        assert(x.drop_last() =~= log.push(u));
        assert(!(a.sender is Thinking));
        assert(pending_count(x) == pending_count(log.push(u)));
        assert((log.push(u)).last() == u);
        assert((log.push(u)).drop_last() =~= log);
        assert(!(u.sender is Thinking));
        assert(pending_count(log.push(u)) == pending_count(log));
    }
}

} // verus!
