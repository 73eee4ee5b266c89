//! The reflex loop: at every tick, from the latest sensor value through
//! the policy to one actuator command.
//!
//! A 32-bit float travels through this library as its IEEE-754 bit pattern.

use vstd::prelude::*;
use crate::cache::SensorCache;
use crate::command::{le_bytes_u32, u32_from_le, u32_of_le_bytes, u32_to_le};
use crate::envelope::{Envelope, EnvelopeView, is_sensor_topic, SENSOR_PREFIX};
use crate::policy::{
    outcome_view, resolve_spec, zeros, ActivePolicy, PolicyError, PolicyModel,
};

verus! {

/// The topic of the sensor that the loop reads.
pub const TEMPERATURE_TOPIC: &'static str = "/sensor/temp_sensor";

/// The topic of the actuator that the loop drives.
pub const FAN_TOPIC: &'static str = "/actuator/fan";

/// The bit pattern of 1.0.
pub const ONE_BITS: u32 = 0x3f80_0000;

/// The bit pattern of negative zero.
pub const NEGATIVE_ZERO_BITS: u32 = 0x8000_0000;

/// The bit pattern of positive infinity.
pub const INFINITY_BITS: u32 = 0x7f80_0000;

/// Whether a bit pattern is a NaN: all exponent bits set, and a fraction
/// that is not zero.
pub open spec fn is_nan_bits(bits: u32) -> bool {
    (bits & 0x7fff_ffff) > INFINITY_BITS
}

/// A float clamped to the duty-cycle range [0, 1]: what lies below zero
/// becomes 0.0, what lies above one becomes 1.0, and everything else,
/// a NaN and negative zero among it, stays as it is.
pub open spec fn clamp_unit_spec(bits: u32) -> u32 {
    if is_nan_bits(bits) {
        bits
    } else if bits > NEGATIVE_ZERO_BITS {
        0
    } else if ONE_BITS < bits && bits <= INFINITY_BITS {
        ONE_BITS
    } else {
        bits
    }
}

/// Clamps a float to the duty-cycle range [0, 1].
pub fn clamp_unit(bits: u32) -> (clamped: u32)
    ensures
        clamped == clamp_unit_spec(bits),
{
    if (bits & 0x7fff_ffff) > INFINITY_BITS {
        bits
    } else if bits > NEGATIVE_ZERO_BITS {
        0
    } else if ONE_BITS < bits && bits <= INFINITY_BITS {
        ONE_BITS
    } else {
        bits
    }
}

/// A clamped float is a NaN only where the input was one, and else lies
/// between 0.0 and 1.0 or is negative zero; clamping it again changes
/// nothing.
pub proof fn lemma_clamp_unit_range(bits: u32)
    ensures
        is_nan_bits(clamp_unit_spec(bits)) == is_nan_bits(bits),
        !is_nan_bits(bits) ==> clamp_unit_spec(bits) <= ONE_BITS || clamp_unit_spec(bits)
            == NEGATIVE_ZERO_BITS,
        clamp_unit_spec(clamp_unit_spec(bits)) == clamp_unit_spec(bits),
{
    assert((0u32 & 0x7fff_ffff) == 0) by (bit_vector);
    assert((0x3f80_0000u32 & 0x7fff_ffff) == 0x3f80_0000) by (bit_vector);
    assert(bits <= 0x8000_0000 ==> (bits & 0x7fff_ffff) == bits || bits == 0x8000_0000)
        by (bit_vector);
    assert((0x8000_0000u32 & 0x7fff_ffff) == 0) by (bit_vector);
}

/// The sensor value that the policy is given: the cached temperature,
/// where one is cached and has four bytes.
pub open spec fn input_spec(sensors: Map<Seq<char>, Seq<u8>>) -> Option<u32> {
    if sensors.contains_key(TEMPERATURE_TOPIC@) && sensors[TEMPERATURE_TOPIC@].len() == 4 {
        Some(u32_of_le_bytes(sensors[TEMPERATURE_TOPIC@]))
    } else {
        None
    }
}

/// The command that an inference's outcome leads to. A failed inference
/// leads to none. Else the first output, or 0.0 where there is none, is
/// clamped to [0, 1] and sent to the fan.
pub open spec fn actuation_spec(outcome: Option<Seq<u32>>) -> Option<EnvelopeView> {
    match outcome {
        None => None,
        Some(out) => Some(
            EnvelopeView {
                topic: FAN_TOPIC@,
                data: le_bytes_u32(clamp_unit_spec(if out.len() > 0 { out[0] } else { 0 })),
            },
        ),
    }
}

/// What a sensor cache makes of an envelope: the payload of a sensor topic
/// becomes the latest of that topic, and everything else is passed over.
pub open spec fn absorb_sensor_spec(sensors: Map<Seq<char>, Seq<u8>>, e: EnvelopeView) -> Map<
    Seq<char>,
    Seq<u8>,
> {
    if SENSOR_PREFIX@.is_prefix_of(e.topic) {
        sensors.insert(e.topic, e.data)
    } else {
        sensors
    }
}

/// The view of an optional envelope.
pub open spec fn envelope_view(e: Option<Envelope>) -> Option<EnvelopeView> {
    match e {
        Some(env) => Some(env@),
        None => None,
    }
}

/// The command that an inference's outcome leads to.
pub fn actuate(outcome: Result<Vec<u32>, PolicyError>) -> (cmd: Option<Envelope>)
    ensures
        envelope_view(cmd) == actuation_spec(outcome_view(outcome)),
{
    match outcome {
        Err(_) => None,
        Ok(out) => {
            let first: u32 = if out.len() > 0 { out[0] } else { 0 };
            let data = u32_to_le(clamp_unit(first));
            Some(Envelope { topic: FAN_TOPIC.to_owned(), data })
        },
    }
}

/// The state of the reflex loop: its own sensor cache.
pub struct Reflex {
    sensors: SensorCache,
}

impl View for Reflex {
    type V = Map<Seq<char>, Seq<u8>>;

    closed spec fn view(&self) -> Map<Seq<char>, Seq<u8>> {
        self.sensors@
    }
}

impl Reflex {
    /// The invariant of the loop's state.
    pub closed spec fn wf(&self) -> bool {
        self.sensors.wf()
    }

    /// A loop that has seen no sensor yet.
    pub fn new() -> (r: Reflex)
        ensures
            r.wf(),
            r@ == Map::<Seq<char>, Seq<u8>>::empty(),
    {
        Reflex { sensors: SensorCache::new() }
    }

    /// Takes in an envelope from the bus.
    pub fn absorb(&mut self, env: &Envelope)
        requires
            old(self).wf(),
        ensures
            final(self).wf(),
            final(self)@ == absorb_sensor_spec(old(self)@, env@),
    {
        if is_sensor_topic(env.topic.as_str()) {
            self.sensors.insert(env.topic.clone(), env.data.clone());
        }
    }

    /// The sensor value that a tick gives to the policy, if there is one.
    /// A stale value is as good as a new one.
    pub fn input(&self) -> (bits: Option<u32>)
        requires
            self.wf(),
        ensures
            bits == input_spec(self@),
    {
        match self.sensors.get(TEMPERATURE_TOPIC) {
            Some(data) => {
                if data.len() == 4 {
                    Some(u32_from_le(data))
                } else {
                    None
                }
            },
            None => None,
        }
    }

    /// One tick. Without a usable sensor value nothing is done. Else the
    /// policy is asked once, with that value as its whole input, and what
    /// it answers decides the command as `actuate` says. Whatever the
    /// policy does, a command goes to the fan and carries a value that
    /// clamping leaves as it is.
    pub fn step<P: PolicyModel>(&self, policy: &P) -> (cmd: Option<Envelope>)
        requires
            self.wf(),
        ensures
            input_spec(self@) is None ==> cmd is None,
            input_spec(self@) is Some ==> exists|input: Vec<u32>, outcome: Result<Vec<u32>, PolicyError>|
                {
                    &&& input@ == seq![input_spec(self@)->0]
                    &&& #[trigger] call_ensures(P::infer, (policy, &input), outcome)
                    &&& envelope_view(cmd) == actuation_spec(outcome_view(outcome))
                },
            cmd is Some ==> is_fan_command(cmd->0@),
    {
        match self.input() {
            Some(bits) => {
                let mut input: Vec<u32> = Vec::new();
                input.push(bits);
                assert(input@ =~= seq![bits]);
                let outcome = policy.infer(&input);
                proof {
                    if outcome is Ok {
                        lemma_actuation_is_fan_command(outcome->Ok_0@);
                    }
                }
                actuate(outcome)
            },
            None => None,
        }
    }
}

/// Whether an envelope goes to the fan and carries four bytes that spell a
/// value which clamping leaves as it is.
pub open spec fn is_fan_command(e: EnvelopeView) -> bool {
    &&& e.topic == FAN_TOPIC@
    &&& e.data.len() == 4
    &&& clamp_unit_spec(u32_of_le_bytes(e.data)) == u32_of_le_bytes(e.data)
}

/// Four bytes spell the word that they were taken from.
pub proof fn lemma_le_bytes_round_trip(x: u32)
    ensures
        le_bytes_u32(x).len() == 4,
        u32_of_le_bytes(le_bytes_u32(x)) == x,
{
    assert(((x as u8) as u32) | (((x >> 8) as u8 as u32) << 8) | (((x >> 16) as u8 as u32) << 16) | (((
    x >> 24) as u8 as u32) << 24) == x) by (bit_vector);
}

/// Every command that an inference's answer leads to is a fan command.
pub proof fn lemma_actuation_is_fan_command(out: Seq<u32>)
    ensures
        actuation_spec(Some(out)) is Some,
        is_fan_command(actuation_spec(Some(out))->0),
{
    let first: u32 = if out.len() > 0 { out[0] } else { 0 };
    lemma_le_bytes_round_trip(clamp_unit_spec(first));
    lemma_clamp_unit_range(first);
}

/// Reflex determinism. What a tick commands depends on the policy's answer
/// alone: the command goes to the fan and carries the first output,
/// clamped to [0, 1], and nothing else; the same answer gives the same
/// command tick after tick.
pub proof fn lemma_reflex_deterministic(out: Seq<u32>)
    requires
        out.len() > 0,
    ensures
        actuation_spec(Some(out)) == Some(
            EnvelopeView { topic: FAN_TOPIC@, data: le_bytes_u32(clamp_unit_spec(out[0])) },
        ),
        u32_of_le_bytes(actuation_spec(Some(out))->0.data) == clamp_unit_spec(out[0]),
{
    lemma_le_bytes_round_trip(clamp_unit_spec(out[0]));
}

/// Start-up fallback. Where no model is configured, or loading it fails,
/// the loop runs on the null policy. Whatever that policy is asked, it
/// answers with zeros, and its answer to one sensor value commands the fan
/// to 0.0.
pub proof fn lemma_fallback_commands_zero<P: PolicyModel>(
    loaded: Option<Result<P, PolicyError>>,
    input: Vec<u32>,
    outcome: Result<Vec<u32>, PolicyError>,
)
    requires
        !(loaded matches Some(Ok(_))),
        call_ensures(ActivePolicy::<P>::infer, (&resolve_spec(loaded), &input), outcome),
    ensures
        resolve_spec(loaded) is Null,
        outcome_view(outcome) == Some(zeros(input@.len())),
        actuation_spec(Some(zeros(1))) == Some(
            EnvelopeView { topic: FAN_TOPIC@, data: seq![0u8, 0u8, 0u8, 0u8] },
        ),
{
    assert((0u32 & 0x7fff_ffff) == 0) by (bit_vector);
    assert(0u32 as u8 == 0 && (0u32 >> 8) as u8 == 0 && (0u32 >> 16) as u8 == 0 && (0u32 >> 24) as u8
        == 0) by (bit_vector);
    assert(zeros(1).len() == 1 && zeros(1)[0] == 0);
    assert(le_bytes_u32(0) =~= seq![0u8, 0u8, 0u8, 0u8]);
}

} // verus!
