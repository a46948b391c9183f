use ecdsa_spartan2::cli::{CircuitAction, CircuitKind, CommandOptions, ParsedCommand};
use ecdsa_spartan2::plan::{is_key_file, plan_command, Artifact, ArtifactKind, Step};

fn cmd(circuit: CircuitKind, action: CircuitAction, input: Option<&str>) -> ParsedCommand {
    ParsedCommand { circuit, action, options: CommandOptions { input: input.map(|s| s.to_string()) } }
}

#[test]
fn setup_writes_both_keys() {
    let c = CircuitKind::Show;
    assert_eq!(
        plan_command(&cmd(c, CircuitAction::Setup, Some("s.json"))),
        Step::Setup {
            circuit: c,
            input: Some("s.json".to_string()),
            proving_key: Artifact::Of(c, ArtifactKind::ProvingKey),
            verifying_key: Artifact::Of(c, ArtifactKind::VerifyingKey),
        }
    );
}

#[test]
fn prove_verify_and_run() {
    let c = CircuitKind::Rsa2048;
    assert_eq!(
        plan_command(&cmd(c, CircuitAction::Prove, None)),
        Step::Prove {
            circuit: c,
            input: None,
            proving_key: Artifact::Of(c, ArtifactKind::ProvingKey),
            instance: Artifact::Of(c, ArtifactKind::Instance),
            witness: Artifact::Of(c, ArtifactKind::Witness),
            proof: Artifact::Of(c, ArtifactKind::Proof),
        }
    );
    assert_eq!(
        plan_command(&cmd(c, CircuitAction::Verify, None)),
        Step::Verify {
            circuit: c,
            proof: Artifact::Of(c, ArtifactKind::Proof),
            verifying_key: Artifact::Of(c, ArtifactKind::VerifyingKey),
        }
    );
    assert_eq!(
        plan_command(&cmd(CircuitKind::Prepare, CircuitAction::Run, Some("j"))),
        Step::Run { circuit: CircuitKind::Prepare, input: Some("j".to_string()) }
    );
}

#[test]
fn reblind_uses_shared_blinds() {
    let c = CircuitKind::Prepare;
    assert_eq!(
        plan_command(&cmd(c, CircuitAction::Reblind, None)),
        Step::Reblind {
            circuit: c,
            proving_key: Artifact::Of(c, ArtifactKind::ProvingKey),
            instance: Artifact::Of(c, ArtifactKind::Instance),
            witness: Artifact::Of(c, ArtifactKind::Witness),
            proof: Artifact::Of(c, ArtifactKind::Proof),
            shared_blinds: Artifact::SharedBlinds,
        }
    );
}

#[test]
fn shared_blinds_and_refusals() {
    assert_eq!(
        plan_command(&cmd(CircuitKind::Prepare, CircuitAction::GenerateSharedBlinds, None)),
        Step::GenerateSharedBlinds { shared_blinds: Artifact::SharedBlinds, count: 1 }
    );
    assert_eq!(
        plan_command(&cmd(CircuitKind::Show, CircuitAction::GenerateSharedBlinds, None)),
        Step::Refuse {
            message: "Error: generate_shared_blinds is only supported for the Prepare circuit".to_string()
        }
    );
    assert_eq!(
        plan_command(&cmd(CircuitKind::Rsa4096, CircuitAction::Reblind, None)),
        Step::Refuse {
            message: "Error: RSA-4096 does not support reblind or shared blinds (standalone circuit)"
                .to_string()
        }
    );
    assert_eq!(
        plan_command(&cmd(CircuitKind::Rsa2048, CircuitAction::GenerateSharedBlinds, None)),
        Step::Refuse {
            message: "Error: RSA-2048 does not support reblind or shared blinds (standalone circuit)"
                .to_string()
        }
    );
}

#[test]
fn benchmarks() {
    assert_eq!(
        plan_command(&cmd(CircuitKind::Show, CircuitAction::Benchmark, Some("b"))),
        Step::Benchmark { input: Some("b".to_string()) }
    );
    assert_eq!(
        plan_command(&cmd(CircuitKind::Rsa4096, CircuitAction::Benchmark, None)),
        Step::RsaBenchmark { circuit: CircuitKind::Rsa4096, input: None }
    );
}

#[test]
fn supported_commands_are_never_refused() {
    let circuits = [CircuitKind::Prepare, CircuitKind::Show, CircuitKind::Rsa2048, CircuitKind::Rsa4096];
    let actions = [
        CircuitAction::Run,
        CircuitAction::Setup,
        CircuitAction::Prove,
        CircuitAction::Verify,
        CircuitAction::Reblind,
        CircuitAction::GenerateSharedBlinds,
        CircuitAction::Benchmark,
    ];
    for c in circuits {
        for a in actions {
            let rsa = c == CircuitKind::Rsa2048 || c == CircuitKind::Rsa4096;
            let supported = !(a == CircuitAction::GenerateSharedBlinds && c != CircuitKind::Prepare)
                && !(a == CircuitAction::Reblind && rsa);
            let refused = matches!(plan_command(&cmd(c, a, None)), Step::Refuse { .. });
            assert_eq!(refused, !supported, "{:?} {:?}", c, a);
        }
    }
}

#[test]
fn key_files() {
    assert!(is_key_file(Artifact::Of(CircuitKind::Show, ArtifactKind::ProvingKey)));
    assert!(is_key_file(Artifact::Of(CircuitKind::Show, ArtifactKind::VerifyingKey)));
    assert!(!is_key_file(Artifact::Of(CircuitKind::Show, ArtifactKind::Proof)));
    assert!(!is_key_file(Artifact::SharedBlinds));
}
