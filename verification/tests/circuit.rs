use ecdsa_spartan2::paths::PathConfig;
use ecdsa_spartan2::rsa_verify_circuit::{
    input_fields, stage_error, FieldParser, InputField, RsaVerifyCircuit, SynthesisPlan,
    WitnessCache, WitnessError, WitnessGenerator, WitnessJob, WitnessRequest, WitnessStage,
};

fn config() -> PathConfig {
    PathConfig::new("/home/user", "../circom", "keys", "artifacts")
}

#[test]
fn variants_carry_name_and_limbs() {
    let c = RsaVerifyCircuit::new_2048(config(), None);
    assert_eq!(c.circuit_name(), "rsa_verify_2048");
    assert_eq!(c.k(), 17);
    let d = RsaVerifyCircuit::new_4096(config(), Some("in.json".to_string()));
    assert_eq!(d.circuit_name(), "rsa_verify_4096");
    assert_eq!(d.k(), 34);
    assert_eq!(d.input_path(), Some("in.json".to_string()));
    assert_eq!(d.path_config(), &config());
    let e = d.clone();
    assert_eq!(e.circuit_name(), "rsa_verify_4096");
    assert_eq!(e.k(), 34);
    assert_eq!(e.input_path(), Some("in.json".to_string()));
}

#[test]
fn input_json_default_and_override() {
    let c = RsaVerifyCircuit::new_2048(config(), None);
    assert_eq!(c.resolve_input_json(), "../circom/inputs/rsa_verify_2048/default.json");
    let d = RsaVerifyCircuit::new_2048(config(), Some("mine.json".to_string()));
    assert_eq!(d.resolve_input_json(), "/home/user/mine.json");
    let e = RsaVerifyCircuit::new_4096(config(), Some("/abs/in.json".to_string()));
    assert_eq!(e.resolve_input_json(), "/abs/in.json");
}

#[test]
fn r1cs_paths() {
    assert_eq!(
        RsaVerifyCircuit::new_4096(config(), None).r1cs_path(),
        "../circom/build/rsa_verify_4096/rsa_verify_4096.r1cs"
    );
}

#[test]
fn generators_follow_variant() {
    assert_eq!(RsaVerifyCircuit::new_2048(config(), None).witness_generator(), WitnessGenerator::Rsa2048);
    assert_eq!(RsaVerifyCircuit::new_4096(config(), None).witness_generator(), WitnessGenerator::Rsa4096);
}

#[test]
fn fields_read_from_input() {
    assert_eq!(
        input_fields(),
        vec![
            InputField { name: "message", parser: FieldParser::BigIntArray },
            InputField { name: "messageLength", parser: FieldParser::U64Scalar },
            InputField { name: "signature", parser: FieldParser::BigIntArray },
            InputField { name: "modulus", parser: FieldParser::BigIntArray },
        ]
    );
}

#[test]
fn empty_cache_asks_for_generation_then_reuses() {
    let c = RsaVerifyCircuit::new_4096(config(), None);
    let mut cache: WitnessCache<u64> = WitnessCache::new();
    assert_eq!(cache.lookup(), None);
    assert_eq!(
        c.witness_request(&cache),
        WitnessRequest::Generate(WitnessJob {
            input_json: "../circom/inputs/rsa_verify_4096/default.json".to_string(),
            fields: input_fields(),
            generator: WitnessGenerator::Rsa4096,
        })
    );
    assert_eq!(cache.finish(Ok(vec![1, 2, 3])), Ok(vec![1, 2, 3]));
    assert_eq!(cache.lookup(), Some(vec![1, 2, 3]));
    assert_eq!(c.witness_request(&cache), WitnessRequest::Cached(vec![1, 2, 3]));
}

#[test]
fn failed_generation_leaves_cache() {
    let c = RsaVerifyCircuit::new_2048(config(), None);
    let mut cache: WitnessCache<u64> = WitnessCache::new();
    assert_eq!(cache.finish(Err(WitnessError::Unsatisfiable)), Err(WitnessError::Unsatisfiable));
    assert_eq!(cache.lookup(), None);
    assert!(matches!(c.witness_request(&cache), WitnessRequest::Generate(_)));
    cache.finish(Ok(vec![9])).unwrap();
    assert_eq!(cache.finish(Err(WitnessError::AssignmentMissing)), Err(WitnessError::AssignmentMissing));
    assert_eq!(cache.lookup(), Some(vec![9]));
}

#[test]
fn stage_errors() {
    assert_eq!(stage_error(WitnessStage::OpenInput), WitnessError::AssignmentMissing);
    assert_eq!(stage_error(WitnessStage::ParseInput), WitnessError::AssignmentMissing);
    assert_eq!(stage_error(WitnessStage::Calculate), WitnessError::Unsatisfiable);
}

#[test]
fn public_values_are_witness_entries_one_to_k() {
    let c = RsaVerifyCircuit::new_2048(config(), None);
    let witness: Vec<u64> = (100..130).collect();
    let values = c.public_values_from(Some(&witness), 0);
    assert_eq!(values, (101..118).collect::<Vec<u64>>());
    let d = RsaVerifyCircuit::new_4096(config(), None);
    let witness: Vec<u64> = (0..35).collect();
    assert_eq!(d.public_values_from(Some(&witness), 7), (1..35).collect::<Vec<u64>>());
}

#[test]
fn public_values_without_witness_are_zero() {
    let c = RsaVerifyCircuit::new_4096(config(), None);
    assert_eq!(c.public_values_from(None, 0u64), vec![0u64; 34]);
}

#[test]
fn setup_phase_detection() {
    assert!(RsaVerifyCircuit::is_setup_phase("bellpepper::util_cs::shape_cs::ShapeCS<Fq>"));
    assert!(!RsaVerifyCircuit::is_setup_phase("spartan2::bellpepper::solver::SatisfyingAssignment<E>"));
    assert!(!RsaVerifyCircuit::is_setup_phase("Shape"));
    let c = RsaVerifyCircuit::new_2048(config(), None);
    let path = "../circom/build/rsa_verify_2048/rsa_verify_2048.r1cs".to_string();
    assert_eq!(c.synthesis_plan("x::ShapeCS<F>"), SynthesisPlan::Setup { r1cs_path: path.clone() });
    assert_eq!(c.synthesis_plan("x::TestShapeCSx"), SynthesisPlan::Setup { r1cs_path: path.clone() });
    assert_eq!(c.synthesis_plan("SatisfyingAssignment"), SynthesisPlan::Prove { r1cs_path: path });
}

#[test]
fn no_challenges() {
    assert_eq!(RsaVerifyCircuit::new_2048(config(), None).num_challenges(), 0);
}
