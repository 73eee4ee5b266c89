//! The deliberation loop: at every tick, from the goal and the latest
//! sensor values through the chat backend to at most one command.
//!
//! A tick goes in steps, because the chat backend is asked in between:
//! `observe` says whether there is anything to do, `record_observation`
//! appends the user turn, and `record_reply` or `record_failure` closes
//! the tick.

use vstd::prelude::*;
use vstd::utf8::{decode_utf8, valid_utf8};
use crate::cache::SensorCache;
use crate::command::{
    command_envelope, data_fields, interpret, interpret_spec, u32_from_le, Reply, ReplyError,
    ReplyView,
};
use crate::envelope::{
    text_eq, text_from_utf8, is_sensor_topic, Envelope, EnvelopeView, GOAL_TOPIC, SENSOR_PREFIX,
};
use crate::history::{
    system_message, trim_spec, ChatMessageView, ConversationHistory, Role, HISTORY_WINDOW,
};
use crate::reflex::{absorb_sensor_spec, envelope_view, input_spec, TEMPERATURE_TOPIC};

verus! {

/// What the planner is shown at a tick.
#[derive(Clone, Debug)]
pub struct Observation {
    /// The current goal.
    pub goal: String,
    /// The cached temperature, as the bit pattern of a 32-bit float.
    pub temp: Option<u32>,
}

/// The mathematical value of an observation.
pub struct ObservationView {
    pub goal: Seq<char>,
    pub temp: Option<u32>,
}

impl View for Observation {
    type V = ObservationView;

    open spec fn view(&self) -> ObservationView {
        ObservationView { goal: self.goal@, temp: self.temp }
    }
}

/// The state of the deliberation loop.
pub struct Planner {
    history: ConversationHistory,
    sensors: SensorCache,
    goal: Option<String>,
}

/// The mathematical value of the loop's state.
pub struct PlannerView {
    pub history: Seq<ChatMessageView>,
    pub sensors: Map<Seq<char>, Seq<u8>>,
    pub goal: Option<Seq<char>>,
}

impl View for Planner {
    type V = PlannerView;

    closed spec fn view(&self) -> PlannerView {
        PlannerView {
            history: self.history@,
            sensors: self.sensors@,
            goal: match self.goal {
                Some(g) => Some(g@),
                None => None,
            },
        }
    }
}

/// What an envelope from the bus does to the loop's state: a sensor's
/// payload becomes the latest of its topic, a goal that is well-formed
/// UTF-8 becomes the current goal, and everything else is passed over.
pub open spec fn absorb_spec(p: PlannerView, e: EnvelopeView) -> PlannerView {
    if SENSOR_PREFIX@.is_prefix_of(e.topic) {
        PlannerView { sensors: absorb_sensor_spec(p.sensors, e), ..p }
    } else if e.topic == GOAL_TOPIC@ && valid_utf8(e.data) {
        PlannerView { goal: Some(decode_utf8(e.data)), ..p }
    } else {
        p
    }
}

/// What a tick shows the planner: nothing as long as no goal is set, and
/// else the goal and the cached temperature.
pub open spec fn observe_spec(p: PlannerView) -> Option<ObservationView> {
    match p.goal {
        None => None,
        Some(goal) => Some(ObservationView { goal, temp: input_spec(p.sensors) }),
    }
}

/// A user turn.
pub open spec fn user_turn(text: Seq<char>) -> ChatMessageView {
    ChatMessageView { role: Role::User, content: text }
}

/// An assistant turn.
pub open spec fn assistant_turn(text: Seq<char>) -> ChatMessageView {
    ChatMessageView { role: Role::Assistant, content: text }
}

/// What a reply leads to: the envelope to publish, if the reply is a
/// publish command; nothing, if it is a no-op; an error otherwise.
pub open spec fn reply_outcome_spec(parsed: Option<ReplyView>) -> Result<
    Option<EnvelopeView>,
    ReplyError,
> {
    match interpret_spec(parsed) {
        Ok(c) => Ok(command_envelope(c)),
        Err(e) => Err(e),
    }
}

/// The view of what a reply led to.
pub open spec fn reply_outcome_view(o: Result<Option<Envelope>, ReplyError>) -> Result<
    Option<EnvelopeView>,
    ReplyError,
> {
    match o {
        Ok(e) => Ok(envelope_view(e)),
        Err(e) => Err(e),
    }
}

impl Planner {
    /// The invariant of the loop's state: the history begins with the
    /// system prompt and holds at most one message more than its window
    /// allows, which is the user turn of a tick that is not closed yet.
    pub closed spec fn wf(&self) -> bool {
        &&& self.history.wf()
        &&& self.sensors.wf()
        &&& self.history@.len() <= HISTORY_WINDOW + 2
    }

    /// A well-formed state has the system prompt at the head of its history.
    pub proof fn lemma_wf_history(&self)
        requires
            self.wf(),
        ensures
            1 <= self@.history.len() <= HISTORY_WINDOW + 2,
            self@.history[0] == system_message(),
    {
    }

    /// A loop that has no goal, has seen no sensor, and whose conversation
    /// holds the system prompt alone.
    pub fn new() -> (p: Planner)
        ensures
            p.wf(),
            p@.history == seq![system_message()],
            p@.sensors == Map::<Seq<char>, Seq<u8>>::empty(),
            p@.goal is None,
    {
        Planner { history: ConversationHistory::new(), sensors: SensorCache::new(), goal: None }
    }

    /// Takes in an envelope from the bus.
    pub fn absorb(&mut self, env: &Envelope)
        requires
            old(self).wf(),
        ensures
            final(self).wf(),
            final(self)@ == absorb_spec(old(self)@, env@),
    {
        if is_sensor_topic(env.topic.as_str()) {
            self.sensors.insert(env.topic.clone(), env.data.clone());
        } else if text_eq(env.topic.as_str(), GOAL_TOPIC) {
            match text_from_utf8(env.data.clone()) {
                Some(text) => {
                    self.goal = Some(text);
                },
                None => {},
            }
        }
    }

    /// The conversation so far.
    pub fn history(&self) -> (h: &ConversationHistory)
        ensures
            h@ == self@.history,
    {
        &self.history
    }

    /// What this tick shows the planner. `None` means that no goal is set:
    /// the tick does nothing, and nothing is to be recorded.
    pub fn observe(&self) -> (obs: Option<Observation>)
        requires
            self.wf(),
        ensures
            match obs {
                Some(o) => Some(o@),
                None => None,
            } == observe_spec(self@),
    {
        match &self.goal {
            None => None,
            Some(goal) => {
                let temp = match self.sensors.get(TEMPERATURE_TOPIC) {
                    Some(data) => {
                        if data.len() == 4 {
                            Some(u32_from_le(data))
                        } else {
                            None
                        }
                    },
                    None => None,
                };
                Some(Observation { goal: goal.clone(), temp })
            },
        }
    }

    /// Appends the observation, as it was put into words, as a user turn.
    /// The history is cut back to its window first, so that the chat
    /// backend is given the system prompt, at most `HISTORY_WINDOW` earlier
    /// turns, and this one.
    pub fn record_observation(&mut self, text: String)
        requires
            old(self).wf(),
        ensures
            final(self).wf(),
            final(self)@ == (PlannerView {
                history: trim_spec(old(self)@.history).push(user_turn(text@)),
                ..old(self)@
            }),
    {
        self.history.trim();
        self.history.push(Role::User, text);
    }

    /// Closes a tick whose chat call succeeded. The reply is appended as an
    /// assistant turn and the history is cut back to its window, whatever
    /// the reply holds. Then the reply is read as a command: `parsed` is
    /// what the reply's JSON object held, or `None` if the reply is no JSON
    /// object. An envelope comes back only for a well-formed publish
    /// command.
    pub fn record_reply(&mut self, reply: String, parsed: Option<Reply>) -> (outcome: Result<
        Option<Envelope>,
        ReplyError,
    >)
        requires
            old(self).wf(),
        ensures
            final(self).wf(),
            final(self)@ == (PlannerView {
                history: trim_spec(old(self)@.history.push(assistant_turn(reply@))),
                ..old(self)@
            }),
            final(self)@.history.len() <= HISTORY_WINDOW + 1,
            reply_outcome_view(outcome) == reply_outcome_spec(
                match parsed {
                    Some(r) => Some(r@),
                    None => None,
                },
            ),
    {
        self.history.push(Role::Assistant, reply);
        self.history.trim();
        match interpret(parsed) {
            Ok(cmd) => Ok(cmd.into_envelope()),
            Err(e) => Err(e),
        }
    }

    /// Closes a tick whose chat call failed: the user turn stays, and the
    /// history is cut back to its window.
    pub fn record_failure(&mut self)
        requires
            old(self).wf(),
        ensures
            final(self).wf(),
            final(self)@ == (PlannerView { history: trim_spec(old(self)@.history), ..old(self)@ }),
            final(self)@.history.len() <= HISTORY_WINDOW + 1,
    {
        self.history.trim();
    }
}

/// Resilience to malformed planner output. A reply that is no JSON
/// object, or a publish command that fills none or more than one of the
/// data fields, leads to an error and to no envelope.
pub proof fn lemma_malformed_reply_publishes_nothing(parsed: Option<ReplyView>)
    requires
        parsed is None || (parsed->0.cmd == "publish"@ && data_fields(parsed->0) != 1),
    ensures
        reply_outcome_spec(parsed) is Err,
        parsed is None ==> reply_outcome_spec(parsed) == Err::<Option<EnvelopeView>, ReplyError>(
            ReplyError::Malformed,
        ),
{
    reveal_strlit("publish");
    reveal_strlit("noop");
    assert("publish"@.len() != "noop"@.len());
}

/// One tick of a conversation: what the planner was shown, and what the
/// chat backend replied, or `None` where the call failed.
pub struct Turn {
    pub observation: Seq<char>,
    pub reply: Option<Seq<char>>,
}

/// The history after one tick.
pub open spec fn tick_spec(h: Seq<ChatMessageView>, t: Turn) -> Seq<ChatMessageView> {
    let asked = trim_spec(h).push(user_turn(t.observation));
    match t.reply {
        Some(r) => trim_spec(asked.push(assistant_turn(r))),
        None => trim_spec(asked),
    }
}

/// The history after a run of ticks.
pub open spec fn ticks_spec(h: Seq<ChatMessageView>, turns: Seq<Turn>) -> Seq<ChatMessageView>
    decreases turns.len(),
{
    if turns.len() == 0 {
        h
    } else {
        tick_spec(ticks_spec(h, turns.drop_last()), turns.last())
    }
}

/// Whether the chat call of every tick succeeded.
pub open spec fn all_replied(turns: Seq<Turn>) -> bool {
    forall|i: int| 0 <= i < turns.len() ==> (#[trigger] turns[i]).reply is Some
}

/// History bound. After any number of ticks the history still begins with
/// the message that it began with, and holds at most `HISTORY_WINDOW`
/// turns after it.
pub proof fn lemma_history_bound(h: Seq<ChatMessageView>, turns: Seq<Turn>)
    requires
        1 <= h.len() <= HISTORY_WINDOW + 1,
    ensures
        1 <= ticks_spec(h, turns).len() <= HISTORY_WINDOW + 1,
        ticks_spec(h, turns)[0] == h[0],
    decreases turns.len(),
{
    if turns.len() > 0 {
        lemma_history_bound(h, turns.drop_last());
    }
}

/// A conversation in which every chat call succeeds grows by two messages
/// a tick until its window is full, and stays full from then on.
pub proof fn lemma_history_fills_window(turns: Seq<Turn>)
    requires
        all_replied(turns),
    ensures
        ticks_spec(seq![system_message()], turns).len() == (if 1 + 2 * turns.len()
            <= HISTORY_WINDOW + 1 {
            1 + 2 * turns.len() as int
        } else {
            HISTORY_WINDOW + 1
        }),
    decreases turns.len(),
{
    if turns.len() > 0 {
        assert(all_replied(turns.drop_last())) by {
            assert forall|i: int| 0 <= i < turns.drop_last().len() implies (
            #[trigger] turns.drop_last()[i]).reply is Some by {
                assert(turns[i].reply is Some);
            }
        }
        lemma_history_fills_window(turns.drop_last());
        lemma_history_bound(seq![system_message()], turns.drop_last());
        assert(turns.last() == turns[turns.len() - 1]);
    }
}

} // verus!
