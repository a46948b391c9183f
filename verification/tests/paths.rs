use ecdsa_spartan2::paths::{join, PathConfig};
use std::path::Path;

#[test]
fn join_agrees_with_std_paths() {
    let parts = ["", "a", "a/", "/", "/abs", "/abs/", "x/y", "../up", "./here", "dir//", "é"];
    for base in parts {
        for part in parts {
            let ours = join(base, part);
            let std_join = Path::new(base).join(part);
            assert_eq!(ours, std_join.to_str().unwrap(), "base {:?} part {:?}", base, part);
        }
    }
}

#[test]
fn absolute_paths_are_kept() {
    let config = PathConfig::new("/work", "../circom", "keys", "artifacts");
    assert_eq!(config.resolve("/tmp/in.json"), "/tmp/in.json");
    assert_eq!(config.resolve("in.json"), "/work/in.json");
}

#[test]
fn development_layout() {
    let config = PathConfig::development();
    assert_eq!(config.input_json("rsa_verify_2048"), "../circom/inputs/rsa_verify_2048/default.json");
    assert_eq!(config.r1cs_path("rsa_verify_4096"), "../circom/build/rsa_verify_4096/rsa_verify_4096.r1cs");
    assert_eq!(config.key_path("pk.bin"), "keys/pk.bin");
    assert_eq!(config.artifact_path("proof.bin"), "artifacts/proof.bin");
    assert_eq!(config.resolve("x.json"), "x.json");
    assert_eq!(config.clone(), config);
}
