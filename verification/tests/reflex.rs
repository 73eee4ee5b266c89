use pond::envelope::Envelope;
use pond::policy::{ActivePolicy, MetalPolicy, NullPolicy, PolicyError, PolicyModel};
use pond::reflex::{actuate, clamp_unit, Reflex};

struct Doubler;

impl PolicyModel for Doubler {
    fn infer(&self, input: &Vec<u32>) -> Result<Vec<u32>, PolicyError> {
        Ok(input.iter().map(|b| (f32::from_bits(*b) * 2.0).to_bits()).collect())
    }
}

struct Broken;

impl PolicyModel for Broken {
    fn infer(&self, _input: &Vec<u32>) -> Result<Vec<u32>, PolicyError> {
        Err(PolicyError)
    }
}

fn sensor(value: f32) -> Envelope {
    Envelope::new("/sensor/temp_sensor".to_string(), value.to_le_bytes().to_vec())
}

fn fan_value(env: &Envelope) -> f32 {
    assert_eq!(env.topic, "/actuator/fan");
    assert_eq!(env.data.len(), 4);
    f32::from_le_bytes([env.data[0], env.data[1], env.data[2], env.data[3]])
}

#[test]
fn clamp_agrees_with_float_clamp() {
    let samples: [f32; 22] = [
        0.0,
        -0.0,
        1.0,
        -1.0,
        0.5,
        0.999_999_94,
        1.000_000_1,
        2.0,
        -2.0,
        1e-45,
        -1e-45,
        f32::MIN_POSITIVE,
        -f32::MIN_POSITIVE,
        f32::MAX,
        f32::MIN,
        f32::INFINITY,
        f32::NEG_INFINITY,
        0.25,
        0.75,
        -0.25,
        123.456,
        -123.456,
    ];
    for x in samples {
        let expected = x.clamp(0.0, 1.0).to_bits();
        assert_eq!(clamp_unit(x.to_bits()), expected, "at {}", x);
    }
}

#[test]
fn clamp_keeps_nan_bits() {
    for bits in [0x7fc0_0000u32, 0xffc0_0000, 0x7f80_0001, 0xff80_0001, 0x7fff_ffff, 0xffff_ffff] {
        assert!(f32::from_bits(bits).is_nan());
        assert_eq!(clamp_unit(bits), bits);
    }
}

#[test]
fn clamp_agrees_with_float_clamp_on_a_sweep() {
    let mut bits: u32 = 0;
    loop {
        let x = f32::from_bits(bits);
        if !x.is_nan() {
            assert_eq!(clamp_unit(bits), x.clamp(0.0, 1.0).to_bits(), "at {:#x}", bits);
        }
        match bits.checked_add(0x0001_0001) {
            Some(next) => bits = next,
            None => break,
        }
    }
}

#[test]
fn clamp_exact_values() {
    assert_eq!(clamp_unit(0x4000_0000), 0x3f80_0000);
    assert_eq!(clamp_unit(0xbf80_0000), 0);
    assert_eq!(clamp_unit(0x3f00_0000), 0x3f00_0000);
    assert_eq!(clamp_unit(0x8000_0000), 0x8000_0000);
}

#[test]
fn step_without_sensor_value_does_nothing() {
    let r = Reflex::new();
    assert!(r.step(&NullPolicy).is_none());
    assert!(r.input().is_none());
}

#[test]
fn step_ignores_payloads_that_are_not_four_bytes() {
    let mut r = Reflex::new();
    r.absorb(&Envelope::new("/sensor/temp_sensor".to_string(), vec![1, 2, 3]));
    assert!(r.step(&NullPolicy).is_none());
}

#[test]
fn step_ignores_other_topics() {
    let mut r = Reflex::new();
    r.absorb(&Envelope::new("/actuator/temp_sensor".to_string(), vec![0, 0, 0, 0]));
    r.absorb(&Envelope::new("/sensor".to_string(), vec![0, 0, 0, 0]));
    assert!(r.input().is_none());
}

#[test]
fn null_policy_commands_zero() {
    let mut r = Reflex::new();
    r.absorb(&sensor(21.5));
    assert_eq!(r.input(), Some(21.5f32.to_bits()));
    let cmd = r.step(&NullPolicy).unwrap();
    assert_eq!(cmd.topic, "/actuator/fan");
    assert_eq!(cmd.data, vec![0, 0, 0, 0]);
}

#[test]
fn step_publishes_the_clamped_policy_output_tick_after_tick() {
    let mut r = Reflex::new();
    r.absorb(&sensor(0.3));
    for _ in 0..5 {
        let cmd = r.step(&Doubler).unwrap();
        assert_eq!(fan_value(&cmd), (0.3f32 * 2.0).clamp(0.0, 1.0));
    }
    r.absorb(&sensor(0.8));
    for _ in 0..5 {
        let cmd = r.step(&Doubler).unwrap();
        assert_eq!(fan_value(&cmd), 1.0);
    }
    r.absorb(&sensor(-4.0));
    assert_eq!(fan_value(&r.step(&Doubler).unwrap()), 0.0);
}

#[test]
fn latest_sensor_value_wins() {
    let mut r = Reflex::new();
    r.absorb(&sensor(0.1));
    r.absorb(&sensor(0.2));
    assert_eq!(r.input(), Some(0.2f32.to_bits()));
}

#[test]
fn failed_inference_publishes_nothing() {
    let mut r = Reflex::new();
    r.absorb(&sensor(0.3));
    assert!(r.step(&Broken).is_none());
    assert!(actuate(Err(PolicyError)).is_none());
}

#[test]
fn empty_output_counts_as_zero() {
    let cmd = actuate(Ok(vec![])).unwrap();
    assert_eq!(cmd.data, vec![0, 0, 0, 0]);
    let cmd = actuate(Ok(vec![0.5f32.to_bits(), 9.0f32.to_bits()])).unwrap();
    assert_eq!(fan_value(&cmd), 0.5);
}

#[test]
fn missing_or_broken_model_falls_back_to_null_policy() {
    let none: ActivePolicy<MetalPolicy> = ActivePolicy::resolve(None);
    assert!(none.is_fallback());
    let failed: ActivePolicy<MetalPolicy> = ActivePolicy::resolve(Some(Err(PolicyError)));
    assert!(failed.is_fallback());
    let loaded = ActivePolicy::resolve(Some(MetalPolicy::load("/models/act.bin")));
    assert!(!loaded.is_fallback());
    let mut r = Reflex::new();
    r.absorb(&sensor(30.0));
    assert_eq!(r.step(&failed).unwrap().data, vec![0, 0, 0, 0]);
    assert_eq!(r.step(&none).unwrap().data, vec![0, 0, 0, 0]);
}

#[test]
fn null_and_metal_policies_answer_zeros_of_the_input_length() {
    assert_eq!(NullPolicy.infer(&vec![1, 2, 3]), Ok(vec![0, 0, 0]));
    assert_eq!(NullPolicy.infer(&vec![]), Ok(vec![]));
    assert_eq!(MetalPolicy.infer(&vec![7, 7]), Ok(vec![0, 0]));
    assert!(MetalPolicy::load("").is_ok());
}
