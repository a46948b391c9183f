//! The RSA signature verification circuits (RSA-2048 with 17 limbs, RSA-4096
//! with 34 limbs): their configuration, where their files are, how their
//! witness is obtained and cached, and which values they make public.
//!
//! Reading files, running the witness calculator and synthesizing constraints
//! happen outside this module; it decides what to read and generate, keeps
//! the cache, and turns a witness into the circuit's public values.

use vstd::prelude::*;
use crate::paths::PathConfig;
use crate::cli::opt_view;
use crate::text::{contains, occurs_in};

verus! {

/// The circuit name of the RSA-2048 variant.
pub open spec fn rsa2048_name() -> Seq<char> {
    "rsa_verify_2048"@
}

/// The circuit name of the RSA-4096 variant.
pub open spec fn rsa4096_name() -> Seq<char> {
    "rsa_verify_4096"@
}

/// The type name fragment of the constraint system used while setting up keys.
pub open spec fn setup_marker() -> Seq<char> {
    "ShapeCS"@
}

/// The RSA signature verification circuit.
#[derive(Debug)]
pub struct RsaVerifyCircuit {
    /// Circuit name used for path resolution.
    circuit_name: &'static str,
    /// Number of RSA limbs.
    k: usize,
    /// Layout used to resolve file paths.
    path_config: PathConfig,
    /// Optional override for the input JSON path.
    input_path: Option<String>,
}

impl RsaVerifyCircuit {
    /// The name and the limb count always belong to the same variant.
    #[verifier::type_invariant]
    spec fn well_formed(self) -> bool {
        ||| self.circuit_name@ == rsa2048_name() && self.k == 17
        ||| self.circuit_name@ == rsa4096_name() && self.k == 34
    }

    /// The circuit name.
    pub closed spec fn name(self) -> Seq<char> {
        self.circuit_name@
    }

    /// The number of RSA limbs, which is also the number of public values.
    pub closed spec fn limbs(self) -> nat {
        self.k as nat
    }

    /// The path layout.
    pub closed spec fn config(self) -> PathConfig {
        self.path_config
    }

    /// The input JSON override.
    pub closed spec fn input_override(self) -> Option<Seq<char>> {
        opt_view(self.input_path)
    }

    /// Creates a new RSA-2048 verify circuit.
    pub fn new_2048(path_config: PathConfig, input_path: Option<String>) -> (r: Self)
        ensures
            r.name() == rsa2048_name(),
            r.limbs() == 17,
            r.witness_generator_of() == WitnessGenerator::Rsa2048,
            r.config() == path_config,
            r.input_override() == opt_view(input_path),
    {
        RsaVerifyCircuit { circuit_name: "rsa_verify_2048", k: 17, path_config, input_path }
    }

    /// Creates a new RSA-4096 verify circuit.
    pub fn new_4096(path_config: PathConfig, input_path: Option<String>) -> (r: Self)
        ensures
            r.name() == rsa4096_name(),
            r.limbs() == 34,
            r.witness_generator_of() == WitnessGenerator::Rsa4096,
            r.config() == path_config,
            r.input_override() == opt_view(input_path),
    {
        proof {
            reveal_strlit("rsa_verify_2048");
            reveal_strlit("rsa_verify_4096");
            assert(rsa2048_name()[14] != rsa4096_name()[14]);
        }
        RsaVerifyCircuit { circuit_name: "rsa_verify_4096", k: 34, path_config, input_path }
    }

    /// The circuit name; the circuit is always one of the two variants.
    pub fn circuit_name(&self) -> (r: &'static str)
        ensures
            r@ == self.name(),
            r@ == rsa2048_name() || r@ == rsa4096_name(),
    {
        proof {
            use_type_invariant(self);
        }
        self.circuit_name
    }

    /// The number of RSA limbs: 17 for RSA-2048 and 34 for RSA-4096.
    pub fn k(&self) -> (r: usize)
        ensures
            r == self.limbs(),
            self.name() == rsa2048_name() ==> r == 17,
            self.name() == rsa4096_name() ==> r == 34,
    {
        proof {
            use_type_invariant(self);
            reveal_strlit("rsa_verify_2048");
            reveal_strlit("rsa_verify_4096");
            assert(rsa2048_name()[14] != rsa4096_name()[14]);
        }
        self.k
    }

    /// The path layout.
    pub fn path_config(&self) -> (r: &PathConfig)
        ensures
            *r == self.config(),
    {
        &self.path_config
    }

    /// The input JSON override.
    pub fn input_path(&self) -> (r: Option<String>)
        ensures
            opt_view(r) == self.input_override(),
    {
        match &self.input_path {
            Some(p) => Some(p.clone()),
            None => None,
        }
    }

    /// The input JSON the witness is computed from: the override read against
    /// the base directory, or the circuit's default input.
    pub open spec fn input_json_of(self) -> Seq<char> {
        match self.input_override() {
            Some(p) => self.config().resolved(p),
            None => self.config().input_json_of(self.name()),
        }
    }

    /// Resolves the input JSON path.
    pub fn resolve_input_json(&self) -> (r: String)
        ensures
            r@ == self.input_json_of(),
    {
        match &self.input_path {
            Some(p) => self.path_config.resolve(p.as_str()),
            None => self.path_config.input_json(self.circuit_name),
        }
    }

    /// The R1CS file path.
    pub fn r1cs_path(&self) -> (r: String)
        ensures
            r@ == self.config().r1cs_of(self.name()),
    {
        self.path_config.r1cs_path(self.circuit_name)
    }

    /// The witness calculator of this circuit's variant.
    pub fn witness_generator(&self) -> (r: WitnessGenerator)
        ensures
            r == (if self.name() == rsa2048_name() {
                WitnessGenerator::Rsa2048
            } else {
                WitnessGenerator::Rsa4096
            }),
    {
        proof {
            use_type_invariant(self);
            reveal_strlit("rsa_verify_2048");
            reveal_strlit("rsa_verify_4096");
            assert(rsa2048_name()[14] != rsa4096_name()[14]);
        }
        if crate::text::str_equal(self.circuit_name, "rsa_verify_2048") {
            WitnessGenerator::Rsa2048
        } else {
            WitnessGenerator::Rsa4096
        }
    }

    /// What obtaining the witness takes, given the cache: the cached witness,
    /// or a calculation from the input JSON with this circuit's calculator.
    pub fn witness_request<S: Copy>(&self, cache: &WitnessCache<S>) -> (r: WitnessRequest<S>)
        ensures
            match cache@ {
                Some(w) => r matches WitnessRequest::Cached(v) && v@ == w,
                None => r matches WitnessRequest::Generate(job) && job.input_json@
                    == self.input_json_of() && job.generator == self.witness_generator_of()
                    && job.fields@ == input_fields_spec(),
            },
    {
        match cache.lookup() {
            Some(w) => WitnessRequest::Cached(w),
            None => WitnessRequest::Generate(
                WitnessJob {
                    input_json: self.resolve_input_json(),
                    fields: input_fields(),
                    generator: self.witness_generator(),
                },
            ),
        }
    }

    /// The witness calculator of this circuit's variant.
    pub open spec fn witness_generator_of(self) -> WitnessGenerator {
        if self.name() == rsa2048_name() {
            WitnessGenerator::Rsa2048
        } else {
            WitnessGenerator::Rsa4096
        }
    }

    /// The public values: the modulus limbs at witness indices `1..=k`, or
    /// `zero` for each of them when no witness could be had.
    pub fn public_values_from<S: Copy>(&self, witness: Option<&Vec<S>>, zero: S) -> (r: Vec<S>)
        requires
            witness matches Some(w) ==> w@.len() > self.limbs(),
        ensures
            r@ == public_values_of(
                self.limbs(),
                match witness {
                    Some(w) => Some(w@),
                    None => None,
                },
                zero,
            ),
    {
        let ghost wv: Option<Seq<S>> = match witness {
            Some(w) => Some(w@),
            None => None,
        };
        proof {
            use_type_invariant(self);
        }
        let k = self.k;
        let mut values: Vec<S> = Vec::with_capacity(k);
        let mut idx: usize = 1;
        while idx <= k
            invariant
                k == self.limbs(),
                k <= 34,
                1 <= idx <= k + 1,
                wv == (match witness {
                    Some(w) => Some(w@),
                    None => None::<Seq<S>>,
                }),
                witness matches Some(w) ==> w@.len() > k,
                values@ == public_values_of((idx - 1) as nat, wv, zero),
            decreases k + 1 - idx,
        {
            let v = match witness {
                Some(w) => w[idx],
                None => zero,
            };
            values.push(v);
            assert(values@ =~= public_values_of(idx as nat, wv, zero));
            idx += 1;
        }
        values
    }

    /// Whether a synthesis runs to set up keys (the constraint system only
    /// records the shape) rather than to prove.
    pub fn is_setup_phase(cs_type_name: &str) -> (r: bool)
        ensures
            r == occurs_in(setup_marker(), cs_type_name@),
    {
        contains(cs_type_name, "ShapeCS")
    }

    /// How to synthesize the circuit into a constraint system of the named
    /// type: from the R1CS file alone while setting up keys, or from the R1CS
    /// file and the witness (obtained first) while proving.
    pub fn synthesis_plan(&self, cs_type_name: &str) -> (r: SynthesisPlan)
        ensures
            occurs_in(setup_marker(), cs_type_name@) ==> (r matches SynthesisPlan::Setup {
                r1cs_path,
            } && r1cs_path@ == self.config().r1cs_of(self.name())),
            !occurs_in(setup_marker(), cs_type_name@) ==> (r matches SynthesisPlan::Prove {
                r1cs_path,
            } && r1cs_path@ == self.config().r1cs_of(self.name())),
    {
        let r1cs_path = self.r1cs_path();
        if Self::is_setup_phase(cs_type_name) {
            SynthesisPlan::Setup { r1cs_path }
        } else {
            SynthesisPlan::Prove { r1cs_path }
        }
    }

    /// The number of verifier challenges the circuit expects.
    pub fn num_challenges(&self) -> (r: usize)
        ensures
            r == 0,
    {
        0
    }
}

impl Clone for RsaVerifyCircuit {
    fn clone(&self) -> (r: Self)
        ensures
            r.name() == self.name(),
            r.limbs() == self.limbs(),
            r.config() == self.config(),
            r.input_override() == self.input_override(),
    {
        proof {
            use_type_invariant(self);
        }
        RsaVerifyCircuit {
            circuit_name: self.circuit_name,
            k: self.k,
            path_config: self.path_config.clone(),
            input_path: self.input_path(),
        }
    }
}

/// The public values: entries `1..=k` of the witness, or `zero` for each
/// when there is none.
pub open spec fn public_values_of<S>(k: nat, witness: Option<Seq<S>>, zero: S) -> Seq<S> {
    Seq::new(
        k,
        |i: int|
            match witness {
                Some(w) => w[i + 1],
                None => zero,
            },
    )
}

/// The compiled witness calculators.
#[derive(Debug, Clone, Copy, PartialEq, Eq, Structural)]
pub enum WitnessGenerator {
    Rsa2048,
    Rsa4096,
}

/// How an input field is read from the input JSON.
#[derive(Debug, Clone, Copy, PartialEq, Eq, Structural)]
pub enum FieldParser {
    /// An array of big integers (given as decimal strings).
    BigIntArray,
    /// One unsigned integer.
    U64Scalar,
}

/// A field of the input JSON and how it is read.
#[derive(Debug, Clone, Copy, PartialEq, Eq)]
pub struct InputField {
    pub name: &'static str,
    pub parser: FieldParser,
}

/// The fields the RSA circuits read: the message, its length, the signature
/// and the modulus.
pub open spec fn input_fields_spec() -> Seq<InputField> {
    seq![
        InputField { name: "message", parser: FieldParser::BigIntArray },
        InputField { name: "messageLength", parser: FieldParser::U64Scalar },
        InputField { name: "signature", parser: FieldParser::BigIntArray },
        InputField { name: "modulus", parser: FieldParser::BigIntArray },
    ]
}

/// The fields the RSA circuits read from the input JSON, in order.
pub fn input_fields() -> (r: Vec<InputField>)
    ensures
        r@ == input_fields_spec(),
{
    let mut fields: Vec<InputField> = Vec::new();
    fields.push(InputField { name: "message", parser: FieldParser::BigIntArray });
    fields.push(InputField { name: "messageLength", parser: FieldParser::U64Scalar });
    fields.push(InputField { name: "signature", parser: FieldParser::BigIntArray });
    fields.push(InputField { name: "modulus", parser: FieldParser::BigIntArray });
    assert(fields@ =~= input_fields_spec());
    fields
}

/// A witness calculation to run.
#[derive(Debug, PartialEq, Eq)]
pub struct WitnessJob {
    /// The input JSON to read.
    pub input_json: String,
    /// The fields to read from it.
    pub fields: Vec<InputField>,
    /// The calculator to run on them.
    pub generator: WitnessGenerator,
}

/// Where the witness comes from.
#[derive(Debug, PartialEq, Eq)]
pub enum WitnessRequest<S> {
    /// It was computed before.
    Cached(Vec<S>),
    /// It must be computed.
    Generate(WitnessJob),
}

/// How a circuit is synthesized.
#[derive(Debug, PartialEq, Eq)]
pub enum SynthesisPlan {
    /// Key setup: the R1CS file alone.
    Setup { r1cs_path: String },
    /// Proving: the witness, then the R1CS file.
    Prove { r1cs_path: String },
}

/// Why a witness could not be had.
#[derive(Debug, Clone, Copy, PartialEq, Eq, Structural)]
pub enum WitnessError {
    /// The inputs could not be read.
    AssignmentMissing,
    /// The calculator rejected the inputs.
    Unsatisfiable,
}

/// The steps of a witness calculation whose failure this module names.
#[derive(Debug, Clone, Copy, PartialEq, Eq, Structural)]
pub enum WitnessStage {
    /// Opening the input JSON.
    OpenInput,
    /// Reading the input JSON as JSON.
    ParseInput,
    /// Running the witness calculator.
    Calculate,
}

/// The error a failed step reports.
pub open spec fn stage_error_of(stage: WitnessStage) -> WitnessError {
    match stage {
        WitnessStage::OpenInput => WitnessError::AssignmentMissing,
        WitnessStage::ParseInput => WitnessError::AssignmentMissing,
        WitnessStage::Calculate => WitnessError::Unsatisfiable,
    }
}

/// The error a failed step reports: missing inputs when the input JSON
/// cannot be opened or read, unsatisfiable when the calculator fails.
pub fn stage_error(stage: WitnessStage) -> (r: WitnessError)
    ensures
        r == stage_error_of(stage),
{
    match stage {
        WitnessStage::OpenInput => WitnessError::AssignmentMissing,
        WitnessStage::ParseInput => WitnessError::AssignmentMissing,
        WitnessStage::Calculate => WitnessError::Unsatisfiable,
    }
}

/// A copy of a vector of copyable values.
fn copy_vec<S: Copy>(v: &Vec<S>) -> (r: Vec<S>)
    ensures
        r@ == v@,
{
    let mut out: Vec<S> = Vec::with_capacity(v.len());
    let mut i: usize = 0;
    while i < v.len()
        invariant
            i <= v@.len(),
            out@ == v@.subrange(0, i as int),
        decreases v@.len() - i,
    {
        out.push(v[i]);
        i += 1;
        assert(out@ =~= v@.subrange(0, i as int));
    }
    assert(out@ =~= v@);
    out
}

/// The witness computed for a circuit, kept for later syntheses.
#[derive(Debug, Clone)]
pub struct WitnessCache<S> {
    witness: Option<Vec<S>>,
}

impl<S> View for WitnessCache<S> {
    type V = Option<Seq<S>>;

    closed spec fn view(&self) -> Option<Seq<S>> {
        match self.witness {
            Some(w) => Some(w@),
            None => None,
        }
    }
}

/// The cache after a witness calculation ended with `outcome`.
pub open spec fn cache_after<S>(cache: Option<Seq<S>>, outcome: Result<Seq<S>, WitnessError>) -> Option<
    Seq<S>,
> {
    match outcome {
        Ok(w) => Some(w),
        Err(_) => cache,
    }
}

impl<S: Copy> WitnessCache<S> {
    /// An empty cache.
    pub fn new() -> (r: Self)
        ensures
            r@ == None::<Seq<S>>,
    {
        WitnessCache { witness: None }
    }

    /// A copy of the cached witness, if any.
    pub fn lookup(&self) -> (r: Option<Vec<S>>)
        ensures
            match r {
                Some(w) => self@ == Some(w@),
                None => self@ == None::<Seq<S>>,
            },
    {
        match &self.witness {
            Some(w) => Some(copy_vec(w)),
            None => None,
        }
    }

    /// Records the end of a witness calculation: a computed witness is kept
    /// and handed back; an error is handed back and the cache is left as it
    /// was.
    pub fn finish(&mut self, outcome: Result<Vec<S>, WitnessError>) -> (r: Result<
        Vec<S>,
        WitnessError,
    >)
        ensures
            final(self)@ == cache_after(
                old(self)@,
                match outcome {
                    Ok(w) => Ok(w@),
                    Err(e) => Err(e),
                },
            ),
            match outcome {
                Ok(w) => r matches Ok(v) && v@ == w@,
                Err(e) => r == Err::<Vec<S>, WitnessError>(e),
            },
    {
        match outcome {
            Ok(w) => {
                let kept = copy_vec(&w);
                self.witness = Some(kept);
                Ok(w)
            },
            Err(e) => Err(e),
        }
    }
}

/// Once a witness has been computed, every later request is answered with it
/// from the cache.
pub proof fn lemma_computed_witness_is_reused<S>(cache: Option<Seq<S>>, w: Seq<S>)
    ensures
        cache_after(cache, Ok(w)) == Some(w),
{
}

/// A failed calculation leaves the cache as it was, so an empty cache asks
/// for a new calculation next time.
pub proof fn lemma_failure_keeps_cache<S>(cache: Option<Seq<S>>, e: WitnessError)
    ensures
        cache_after(cache, Err(e)) == cache,
{
}

/// The witness calculator a circuit runs is the one of its own variant:
/// the RSA-2048 calculator for the RSA-2048 circuit and the RSA-4096
/// calculator for the RSA-4096 circuit.
pub proof fn lemma_calculator_of_variant(c: RsaVerifyCircuit)
    ensures
        c.name() == "rsa_verify_2048"@ ==> c.witness_generator_of() == WitnessGenerator::Rsa2048,
        c.name() == "rsa_verify_4096"@ ==> c.witness_generator_of() == WitnessGenerator::Rsa4096,
{
    reveal_strlit("rsa_verify_2048");
    reveal_strlit("rsa_verify_4096");
    assert("rsa_verify_2048"@[14] != "rsa_verify_4096"@[14]);
}

} // verus!
