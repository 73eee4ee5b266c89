//! Envelopes and the topic namespace.

use vstd::prelude::*;
use vstd::string::StrSliceExecFns;
use vstd::utf8::{decode_utf8, valid_utf8};

verus! {

/// The topic on which a device announces itself.
pub const ANNOUNCE_TOPIC: &'static str = "/device/announce";

/// The topic on which the current goal is published.
pub const GOAL_TOPIC: &'static str = "/goal";

/// What every sensor topic begins with.
pub const SENSOR_PREFIX: &'static str = "/sensor/";

/// Whether two texts are the same.
pub fn text_eq(a: &str, b: &str) -> (same: bool)
    ensures
        same == (a@ == b@),
{
    let n = a.unicode_len();
    if n != b.unicode_len() {
        return false;
    }
    let mut i: usize = 0;
    while i < n
        invariant
            n == a@.len(),
            n == b@.len(),
            i <= n,
            forall|k: int| 0 <= k < i ==> a@[k] == b@[k],
        decreases n - i,
    {
        if a.get_char(i) != b.get_char(i) {
            return false;
        }
        i = i + 1;
    }
    assert(a@ =~= b@);
    true
}

/// Whether `text` begins with `prefix`.
pub fn starts_with(text: &str, prefix: &str) -> (yes: bool)
    ensures
        yes == prefix@.is_prefix_of(text@),
{
    let n = prefix.unicode_len();
    if text.unicode_len() < n {
        return false;
    }
    let mut i: usize = 0;
    while i < n
        invariant
            n == prefix@.len(),
            n <= text@.len(),
            i <= n,
            forall|k: int| 0 <= k < i ==> text@[k] == prefix@[k],
        decreases n - i,
    {
        if text.get_char(i) != prefix.get_char(i) {
            assert(prefix@[i as int] != text@.subrange(0, n as int)[i as int]);
            return false;
        }
        i = i + 1;
    }
    assert(prefix@ =~= text@.subrange(0, n as int));
    true
}

/// `String::from_utf8`: the text that the bytes encode, where they are
/// well-formed UTF-8, and nothing where they are not.
#[verifier::external_body]
pub(crate) fn text_from_utf8(bytes: Vec<u8>) -> (text: Option<String>)
    ensures
        text is Some == valid_utf8(bytes@),
        text is Some ==> text->0@ == decode_utf8(bytes@),
{
    String::from_utf8(bytes).ok()
}

/// Whether a topic is a sensor's.
pub fn is_sensor_topic(topic: &str) -> (yes: bool)
    ensures
        yes == SENSOR_PREFIX@.is_prefix_of(topic@),
{
    starts_with(topic, SENSOR_PREFIX)
}

/// The atomic unit of bus traffic: a topic and an opaque payload.
#[derive(Clone, Debug)]
pub struct Envelope {
    pub topic: String,
    pub data: Vec<u8>,
}

/// The mathematical value of an envelope.
pub struct EnvelopeView {
    pub topic: Seq<char>,
    pub data: Seq<u8>,
}

impl View for Envelope {
    type V = EnvelopeView;

    open spec fn view(&self) -> EnvelopeView {
        EnvelopeView { topic: self.topic@, data: self.data@ }
    }
}

impl Envelope {
    /// An envelope with the given topic and payload.
    pub fn new(topic: String, data: Vec<u8>) -> (env: Envelope)
        ensures
            env@.topic == topic@,
            env@.data == data@,
    {
        Envelope { topic, data }
    }

    /// A copy that holds the same topic and the same payload.
    pub fn duplicate(&self) -> (env: Envelope)
        ensures
            env@ == self@,
    {
        Envelope { topic: self.topic.clone(), data: self.data.clone() }
    }
}

} // verus!
