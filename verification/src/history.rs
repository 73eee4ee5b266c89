//! The conversation that the deliberation loop keeps with its chat backend:
//! the system prompt, which is never dropped, and after it the most recent
//! turns.

use vstd::prelude::*;

verus! {

/// Who said a message.
#[derive(Clone, Copy, Debug, PartialEq, Eq, Structural)]
pub enum Role {
    System,
    User,
    Assistant,
}

impl Role {
    /// The role's name as chat backends spell it.
    pub fn as_str(&self) -> (name: &'static str)
        ensures
            name@ == self.name(),
    {
        match self {
            Role::System => "system",
            Role::User => "user",
            Role::Assistant => "assistant",
        }
    }

    /// The role's name as chat backends spell it.
    pub open spec fn name(&self) -> Seq<char> {
        match self {
            Role::System => "system"@,
            Role::User => "user"@,
            Role::Assistant => "assistant"@,
        }
    }
}

/// One message of the conversation.
#[derive(Clone, Debug)]
pub struct ChatMessage {
    pub role: Role,
    pub content: String,
}

/// The mathematical value of a message.
pub struct ChatMessageView {
    pub role: Role,
    pub content: Seq<char>,
}

impl View for ChatMessage {
    type V = ChatMessageView;

    open spec fn view(&self) -> ChatMessageView {
        ChatMessageView { role: self.role, content: self.content@ }
    }
}

/// What the planner is told once, at the head of the conversation.
pub const SYSTEM_PROMPT: &'static str =
    "\nYou are Pond-Mind, the high-level planner of a small robot.\nYou have ONE tool: publish(topic, data).\nConstraints:\n1. Always answer with a single JSON object, no extra text.\n2. If you need the robot to act, set \\\"cmd\\\":\\\"publish\\\" and provide:\n     \u{2022} topic   \u{2013} a string, e.g. \"/actuator/fan\"\n     \u{2022} ONE data field: data_f32 | data_i64 | data_str\n3. If no action is needed, respond with {\\\"cmd\\\":\\\"noop\\\"}.\n4. Never exceed the physical limits of actuators (fan speed \u{2208} [0,1]).\n";

/// How many turns are kept after the system prompt.
pub const HISTORY_WINDOW: usize = 40;

/// The message at the head of every conversation.
pub open spec fn system_message() -> ChatMessageView {
    ChatMessageView { role: Role::System, content: SYSTEM_PROMPT@ }
}

/// A history cut back to its window: the head, and after it the last
/// `HISTORY_WINDOW` messages. A history that is no longer than the window
/// is left as it is.
pub open spec fn trim_spec(h: Seq<ChatMessageView>) -> Seq<ChatMessageView> {
    if h.len() > HISTORY_WINDOW {
        seq![h[0]] + h.subrange(h.len() - HISTORY_WINDOW, h.len() as int)
    } else {
        h
    }
}

/// The conversation so far.
pub struct ConversationHistory {
    messages: Vec<ChatMessage>,
}

impl View for ConversationHistory {
    type V = Seq<ChatMessageView>;

    closed spec fn view(&self) -> Seq<ChatMessageView> {
        self.messages@.map_values(|m: ChatMessage| m@)
    }
}

impl ConversationHistory {
    /// The invariant of a history: the system prompt is at its head.
    pub open spec fn wf(&self) -> bool {
        &&& self@.len() >= 1
        &&& self@[0] == system_message()
    }

    /// A history is within bounds when it holds the head and at most
    /// `HISTORY_WINDOW` turns after it.
    pub open spec fn bounded(&self) -> bool {
        self@.len() <= HISTORY_WINDOW + 1
    }

    /// A conversation that holds the system prompt and nothing else.
    pub fn new() -> (h: ConversationHistory)
        ensures
            h.wf(),
            h@ == seq![system_message()],
    {
        let mut messages: Vec<ChatMessage> = Vec::new();
        messages.push(ChatMessage { role: Role::System, content: SYSTEM_PROMPT.to_owned() });
        let h = ConversationHistory { messages };
        assert(h@ =~= seq![system_message()]);
        h
    }

    /// How many messages the history holds, the system prompt included.
    pub fn len(&self) -> (n: usize)
        ensures
            n == self@.len(),
    {
        self.messages.len()
    }

    /// The messages, oldest first, as a chat backend is to receive them.
    pub fn messages(&self) -> (list: &Vec<ChatMessage>)
        ensures
            list@.map_values(|m: ChatMessage| m@) == self@,
    {
        &self.messages
    }

    /// Appends a message. Nothing is dropped.
    pub fn push(&mut self, role: Role, content: String)
        requires
            old(self).wf(),
        ensures
            final(self).wf(),
            final(self)@ == old(self)@.push(ChatMessageView { role, content: content@ }),
    {
        self.messages.push(ChatMessage { role, content });
        assert(self@ =~= old(self)@.push(ChatMessageView { role, content: content@ }));
    }

    /// Cuts the history back to its window: the oldest turns after the
    /// system prompt leave first, and the system prompt stays.
    pub fn trim(&mut self)
        requires
            old(self).wf(),
        ensures
            final(self).wf(),
            final(self).bounded(),
            final(self)@ == trim_spec(old(self)@),
    {
        let ghost before = self@;
        let ghost mut dropped: int = 0;
        while self.messages.len() > HISTORY_WINDOW + 1
            invariant
                before.len() >= 1,
                0 <= dropped,
                self.messages@.len() == before.len() - dropped,
                self.messages@.len() >= 1,
                dropped > 0 ==> self.messages@.len() >= HISTORY_WINDOW + 1,
                self.messages@[0]@ == before[0],
                forall|i: int|
                    1 <= i < self.messages@.len() ==> (#[trigger] self.messages@[i])@ == before[i
                        + dropped],
            decreases self.messages@.len(),
        {
            let _ = self.messages.remove(1);
            proof {
                dropped = dropped + 1;
            }
        }
        proof {
            let after = self@;
            let want = trim_spec(before);
            assert(after.len() == want.len());
            assert forall|i: int| 0 <= i < after.len() implies after[i] == want[i] by {
                assert(after[i] == self.messages@[i]@);
            }
            assert(after =~= want);
        }
    }
}

/// History bound. Whatever is appended, a history that is trimmed holds at
/// most `HISTORY_WINDOW + 1` messages, its head is the message that was at
/// the head before, and what follows the head is the newest part of what
/// was there before, in the same order.
pub proof fn lemma_trim_keeps_head_and_recent(h: Seq<ChatMessageView>)
    requires
        h.len() >= 1,
    ensures
        trim_spec(h).len() <= HISTORY_WINDOW + 1,
        trim_spec(h).len() <= h.len(),
        trim_spec(h)[0] == h[0],
        forall|i: int|
            1 <= i < trim_spec(h).len() ==> #[trigger] trim_spec(h)[i] == h[h.len() - trim_spec(
                h,
            ).len() + i],
        trim_spec(trim_spec(h)) == trim_spec(h),
{
}

} // verus!
