//! What the prover tool does for a parsed command: which circuit it builds,
//! which keys and artifacts it reads and writes, and which combinations it
//! refuses with a message.

use vstd::prelude::*;
use crate::cli::{CircuitAction, CircuitKind, CommandView, ParsedCommand, is_rsa, opt_view, supported};

verus! {

/// The files a circuit's pipeline keeps.
#[derive(Debug, Clone, Copy, PartialEq, Eq, Structural)]
pub enum ArtifactKind {
    ProvingKey,
    VerifyingKey,
    Proof,
    Witness,
    Instance,
}

/// A kept file: one of a circuit's, or the blinding factors the Prepare and
/// Show circuits share.
#[derive(Debug, Clone, Copy, PartialEq, Eq, Structural)]
pub enum Artifact {
    Of(CircuitKind, ArtifactKind),
    SharedBlinds,
}

/// Whether an artifact lives in the keys directory (the others live in the
/// artifacts directory).
pub open spec fn in_keys_dir(a: Artifact) -> bool {
    match a {
        Artifact::Of(_, kind) => kind == ArtifactKind::ProvingKey || kind
            == ArtifactKind::VerifyingKey,
        Artifact::SharedBlinds => false,
    }
}

/// Whether an artifact lives in the keys directory.
pub fn is_key_file(a: Artifact) -> (r: bool)
    ensures
        r == in_keys_dir(a),
{
    match a {
        Artifact::Of(_, kind) => kind == ArtifactKind::ProvingKey || kind
            == ArtifactKind::VerifyingKey,
        Artifact::SharedBlinds => false,
    }
}

/// The number of shared witness commitments the blinds are drawn for.
pub const NUM_SHARED: usize = 1;

/// One step of the tool.
#[derive(Debug, PartialEq, Eq)]
pub enum Step {
    /// Generate and save the proving and verifying keys.
    Setup { circuit: CircuitKind, input: Option<String>, proving_key: Artifact, verifying_key: Artifact },
    /// Set up, prove and verify in memory.
    Run { circuit: CircuitKind, input: Option<String> },
    /// Prove with the saved proving key and save instance, witness and proof.
    Prove {
        circuit: CircuitKind,
        input: Option<String>,
        proving_key: Artifact,
        instance: Artifact,
        witness: Artifact,
        proof: Artifact,
    },
    /// Verify the saved proof with the saved verifying key.
    Verify { circuit: CircuitKind, proof: Artifact, verifying_key: Artifact },
    /// Reblind the saved proof with the shared blinds (default circuit input).
    Reblind {
        circuit: CircuitKind,
        proving_key: Artifact,
        instance: Artifact,
        witness: Artifact,
        proof: Artifact,
        shared_blinds: Artifact,
    },
    /// Draw the blinding factors shared by the Prepare and Show circuits.
    GenerateSharedBlinds { shared_blinds: Artifact, count: usize },
    /// The full Prepare and Show pipeline with timings and sizes.
    Benchmark { input: Option<String> },
    /// Setup, prove and verify one RSA circuit with timings and sizes.
    RsaBenchmark { circuit: CircuitKind, input: Option<String> },
    /// Stop with this message and a failure status.
    Refuse { message: String },
}

/// The display label of an RSA circuit.
pub open spec fn rsa_label(c: CircuitKind) -> Seq<char> {
    if c == CircuitKind::Rsa2048 {
        "RSA-2048"@
    } else {
        "RSA-4096"@
    }
}

/// The refusal of reblinding or shared blinds for a standalone RSA circuit.
pub open spec fn rsa_refusal(c: CircuitKind) -> Seq<char> {
    "Error: "@ + rsa_label(c) + " does not support reblind or shared blinds (standalone circuit)"@
}

/// The refusal of shared blinds for the Show circuit.
pub open spec fn show_blinds_refusal() -> Seq<char> {
    "Error: generate_shared_blinds is only supported for the Prepare circuit"@
}

/// `step` is what the tool does for `cmd`.
pub open spec fn planned(cmd: CommandView, step: Step) -> bool {
    let c = cmd.circuit;
    match cmd.action {
        CircuitAction::Setup => step matches Step::Setup { circuit, input, proving_key, verifying_key }
            && circuit == c && opt_view(input) == cmd.input && proving_key == Artifact::Of(
            c,
            ArtifactKind::ProvingKey,
        ) && verifying_key == Artifact::Of(c, ArtifactKind::VerifyingKey),
        CircuitAction::Run => step matches Step::Run { circuit, input } && circuit == c && opt_view(
            input,
        ) == cmd.input,
        CircuitAction::Prove => step matches Step::Prove {
            circuit,
            input,
            proving_key,
            instance,
            witness,
            proof,
        } && circuit == c && opt_view(input) == cmd.input && proving_key == Artifact::Of(
            c,
            ArtifactKind::ProvingKey,
        ) && instance == Artifact::Of(c, ArtifactKind::Instance) && witness == Artifact::Of(
            c,
            ArtifactKind::Witness,
        ) && proof == Artifact::Of(c, ArtifactKind::Proof),
        CircuitAction::Verify => step matches Step::Verify { circuit, proof, verifying_key }
            && circuit == c && proof == Artifact::Of(c, ArtifactKind::Proof) && verifying_key
            == Artifact::Of(c, ArtifactKind::VerifyingKey),
        CircuitAction::Reblind => if is_rsa(c) {
            step matches Step::Refuse { message } && message@ == rsa_refusal(c)
        } else {
            step matches Step::Reblind {
                circuit,
                proving_key,
                instance,
                witness,
                proof,
                shared_blinds,
            } && circuit == c && proving_key == Artifact::Of(c, ArtifactKind::ProvingKey)
                && instance == Artifact::Of(c, ArtifactKind::Instance) && witness == Artifact::Of(
                c,
                ArtifactKind::Witness,
            ) && proof == Artifact::Of(c, ArtifactKind::Proof) && shared_blinds
                == Artifact::SharedBlinds
        },
        CircuitAction::GenerateSharedBlinds => if c == CircuitKind::Prepare {
            step matches Step::GenerateSharedBlinds { shared_blinds, count } && shared_blinds
                == Artifact::SharedBlinds && count == NUM_SHARED
        } else if c == CircuitKind::Show {
            step matches Step::Refuse { message } && message@ == show_blinds_refusal()
        } else {
            step matches Step::Refuse { message } && message@ == rsa_refusal(c)
        },
        CircuitAction::Benchmark => if is_rsa(c) {
            step matches Step::RsaBenchmark { circuit, input } && circuit == c && opt_view(input)
                == cmd.input
        } else {
            step matches Step::Benchmark { input } && opt_view(input) == cmd.input
        },
    }
}

/// The display label of an RSA circuit.
pub fn rsa_label_of(c: CircuitKind) -> (r: &'static str)
    ensures
        r@ == rsa_label(c),
{
    if c == CircuitKind::Rsa2048 {
        "RSA-2048"
    } else {
        "RSA-4096"
    }
}

/// The input override of a command.
fn input_of(command: &ParsedCommand) -> (r: Option<String>)
    ensures
        opt_view(r) == command@.input,
{
    match &command.options.input {
        Some(p) => Some(p.clone()),
        None => None,
    }
}

/// What the tool does for a parsed command.
pub fn plan_command(command: &ParsedCommand) -> (r: Step)
    ensures
        planned(command@, r),
{
    let c = command.circuit;
    let rsa = c == CircuitKind::Rsa2048 || c == CircuitKind::Rsa4096;
    match command.action {
        CircuitAction::Setup => Step::Setup {
            circuit: c,
            input: input_of(command),
            proving_key: Artifact::Of(c, ArtifactKind::ProvingKey),
            verifying_key: Artifact::Of(c, ArtifactKind::VerifyingKey),
        },
        CircuitAction::Run => Step::Run { circuit: c, input: input_of(command) },
        CircuitAction::Prove => Step::Prove {
            circuit: c,
            input: input_of(command),
            proving_key: Artifact::Of(c, ArtifactKind::ProvingKey),
            instance: Artifact::Of(c, ArtifactKind::Instance),
            witness: Artifact::Of(c, ArtifactKind::Witness),
            proof: Artifact::Of(c, ArtifactKind::Proof),
        },
        CircuitAction::Verify => Step::Verify {
            circuit: c,
            proof: Artifact::Of(c, ArtifactKind::Proof),
            verifying_key: Artifact::Of(c, ArtifactKind::VerifyingKey),
        },
        CircuitAction::Reblind => {
            if rsa {
                Step::Refuse { message: rsa_refusal_of(c) }
            } else {
                Step::Reblind {
                    circuit: c,
                    proving_key: Artifact::Of(c, ArtifactKind::ProvingKey),
                    instance: Artifact::Of(c, ArtifactKind::Instance),
                    witness: Artifact::Of(c, ArtifactKind::Witness),
                    proof: Artifact::Of(c, ArtifactKind::Proof),
                    shared_blinds: Artifact::SharedBlinds,
                }
            }
        },
        CircuitAction::GenerateSharedBlinds => {
            if c == CircuitKind::Prepare {
                Step::GenerateSharedBlinds { shared_blinds: Artifact::SharedBlinds, count: NUM_SHARED }
            } else if c == CircuitKind::Show {
                Step::Refuse {
                    message: String::from_str(
                        "Error: generate_shared_blinds is only supported for the Prepare circuit",
                    ),
                }
            } else {
                Step::Refuse { message: rsa_refusal_of(c) }
            }
        },
        CircuitAction::Benchmark => {
            if rsa {
                Step::RsaBenchmark { circuit: c, input: input_of(command) }
            } else {
                Step::Benchmark { input: input_of(command) }
            }
        },
    }
}

/// The refusal message of an RSA circuit.
fn rsa_refusal_of(c: CircuitKind) -> (r: String)
    ensures
        r@ == rsa_refusal(c),
{
    String::from_str("Error: ").concat(rsa_label_of(c)).concat(
        " does not support reblind or shared blinds (standalone circuit)",
    )
}

/// A supported command is carried out, never refused.
pub proof fn lemma_supported_commands_are_carried_out(cmd: CommandView, step: Step)
    requires
        supported(cmd),
        planned(cmd, step),
    ensures
        !(step is Refuse),
{
}

/// A benchmark of an RSA circuit benchmarks that RSA circuit, with the
/// command's input; a benchmark asked of the Prepare or Show circuit runs the
/// full Prepare and Show pipeline with the command's input.
pub proof fn lemma_benchmark_targets(cmd: CommandView, step: Step)
    requires
        cmd.action == CircuitAction::Benchmark,
        planned(cmd, step),
    ensures
        (cmd.circuit == CircuitKind::Rsa2048 || cmd.circuit == CircuitKind::Rsa4096) ==> (
        step matches Step::RsaBenchmark { circuit, input } && circuit == cmd.circuit && opt_view(
            input,
        ) == cmd.input),
        (cmd.circuit == CircuitKind::Prepare || cmd.circuit == CircuitKind::Show) ==> (
        step matches Step::Benchmark { input } && opt_view(input) == cmd.input),
{
}

/// A combination the command line does not accept is refused.
pub proof fn lemma_unsupported_commands_are_refused(cmd: CommandView, step: Step)
    requires
        !supported(cmd),
        planned(cmd, step),
    ensures
        step is Refuse,
{
}

/// Whether an artifact is one of circuit `c`'s own, or the shared blinds.
pub open spec fn belongs_to(a: Artifact, c: CircuitKind) -> bool {
    match a {
        Artifact::Of(owner, _) => owner == c,
        Artifact::SharedBlinds => true,
    }
}

/// Every step works on the circuit the command names, and only on that
/// circuit's artifacts (and the shared blinds); the input given on the
/// command line is the one the step uses.
pub proof fn lemma_steps_stay_on_their_circuit(cmd: CommandView, step: Step)
    requires
        planned(cmd, step),
    ensures
        step matches Step::Setup { circuit, input, proving_key, verifying_key } ==> circuit
            == cmd.circuit && opt_view(input) == cmd.input && belongs_to(proving_key, cmd.circuit)
            && belongs_to(verifying_key, cmd.circuit),
        step matches Step::Run { circuit, input } ==> circuit == cmd.circuit && opt_view(input)
            == cmd.input,
        step matches Step::Prove { circuit, input, proving_key, instance, witness, proof } ==> circuit
            == cmd.circuit && opt_view(input) == cmd.input && belongs_to(proving_key, cmd.circuit)
            && belongs_to(instance, cmd.circuit) && belongs_to(witness, cmd.circuit) && belongs_to(
            proof,
            cmd.circuit,
        ),
        step matches Step::Verify { circuit, proof, verifying_key } ==> circuit == cmd.circuit
            && belongs_to(proof, cmd.circuit) && belongs_to(verifying_key, cmd.circuit),
        step matches Step::Reblind { circuit, proving_key, instance, witness, proof, shared_blinds }
            ==> circuit == cmd.circuit && belongs_to(proving_key, cmd.circuit) && belongs_to(
            instance,
            cmd.circuit,
        ) && belongs_to(witness, cmd.circuit) && belongs_to(proof, cmd.circuit)
            && shared_blinds == Artifact::SharedBlinds,
        step matches Step::RsaBenchmark { circuit, input } ==> circuit == cmd.circuit && opt_view(
            input,
        ) == cmd.input,
        step matches Step::Benchmark { input } ==> opt_view(input) == cmd.input,
{
}

/// The keys setup writes are the ones proving and verifying read; the proof
/// proving writes is the one verifying reads; reblinding rewrites the
/// instance, witness and proof that proving wrote, with the proving key that
/// setup wrote. Keys live in the keys directory, the rest does not, and the
/// files a proof is written to are distinct.
pub proof fn lemma_artifacts_flow_between_steps(
    c: CircuitKind,
    setup: Step,
    prove: Step,
    verify: Step,
    reblind: Step,
    i: Option<Seq<char>>,
)
    requires
        planned(CommandView { circuit: c, action: CircuitAction::Setup, input: i }, setup),
        planned(CommandView { circuit: c, action: CircuitAction::Prove, input: i }, prove),
        planned(CommandView { circuit: c, action: CircuitAction::Verify, input: None }, verify),
        planned(CommandView { circuit: c, action: CircuitAction::Reblind, input: None }, reblind),
    ensures
        setup matches Step::Setup { proving_key: spk, verifying_key: svk, .. } && prove matches Step::Prove {
            proving_key: ppk,
            instance,
            witness,
            proof,
            ..
        } && verify matches Step::Verify { proof: vproof, verifying_key: vvk, .. } && {
            &&& ppk == spk
            &&& vvk == svk
            &&& vproof == proof
            &&& in_keys_dir(spk) && in_keys_dir(svk)
            &&& spk != svk
            &&& !in_keys_dir(instance) && !in_keys_dir(witness) && !in_keys_dir(proof)
            &&& instance != witness && witness != proof && instance != proof
            &&& (reblind matches Step::Reblind {
                proving_key: rpk,
                instance: ri,
                witness: rw,
                proof: rp,
                ..
            } ==> rpk == spk && ri == instance && rw == witness && rp == proof)
        },
{
}

} // verus!
