//! Where the prover reads circuit inputs and R1CS files and writes keys and
//! proof artifacts.
//!
//! Paths are joined the way `std::path::PathBuf::join` joins them on Unix: an
//! absolute part replaces the base, an empty base yields the part, and a
//! separator is put between the two unless the base already ends in one.

use vstd::prelude::*;
use crate::text::{starts_with, str_equal};

verus! {

/// `part` joined onto `base`.
pub open spec fn path_join(base: Seq<char>, part: Seq<char>) -> Seq<char> {
    if part.len() > 0 && part[0] == '/' {
        part
    } else if base.len() == 0 {
        part
    } else if base.last() == '/' {
        base + part
    } else {
        base + seq!['/'] + part
    }
}

/// Joins `part` onto `base`.
pub fn join(base: &str, part: &str) -> (r: String)
    ensures
        r@ == path_join(base@, part@),
{
    proof {
        reveal_strlit("/");
    }
    let absolute = starts_with(part, "/");
    proof {
        if part@.len() > 0 && part@[0] == '/' {
            assert(part@.subrange(0, 1) =~= "/"@);
        }
        if absolute {
            assert(part@[0] == part@.subrange(0, 1)[0]);
        }
    }
    if absolute {
        return String::from_str(part);
    }
    let n = base.unicode_len();
    if n == 0 {
        return String::from_str(part);
    }
    assert(base@.last() == base@[n - 1]);
    if base.get_char(n - 1) == '/' {
        String::from_str(base).concat(part)
    } else {
        String::from_str(base).concat("/").concat(part)
    }
}

/// The directory layout the prover works in.
#[derive(Debug, PartialEq, Eq)]
pub struct PathConfig {
    /// Directory that user-given relative paths are read against.
    pub base_dir: String,
    /// Root of the circom project: `inputs/<circuit>/default.json` and
    /// `build/<circuit>/<circuit>.r1cs` live under it.
    pub circom_dir: String,
    /// Directory of proving and verifying keys.
    pub keys_dir: String,
    /// Directory of instances, witnesses, proofs and shared blinds.
    pub artifacts_dir: String,
}

impl Clone for PathConfig {
    fn clone(&self) -> (r: Self)
        ensures
            r == *self,
    {
        PathConfig {
            base_dir: self.base_dir.clone(),
            circom_dir: self.circom_dir.clone(),
            keys_dir: self.keys_dir.clone(),
            artifacts_dir: self.artifacts_dir.clone(),
        }
    }
}

impl PathConfig {
    /// A user-given path, read against the base directory.
    pub open spec fn resolved(self, p: Seq<char>) -> Seq<char> {
        path_join(self.base_dir@, p)
    }

    /// The default input JSON of a circuit.
    pub open spec fn input_json_of(self, circuit: Seq<char>) -> Seq<char> {
        path_join(path_join(path_join(self.circom_dir@, "inputs"@), circuit), "default.json"@)
    }

    /// The R1CS file of a circuit.
    pub open spec fn r1cs_of(self, circuit: Seq<char>) -> Seq<char> {
        path_join(path_join(path_join(self.circom_dir@, "build"@), circuit), circuit + ".r1cs"@)
    }

    /// A key file.
    pub open spec fn key_of(self, file: Seq<char>) -> Seq<char> {
        path_join(self.keys_dir@, file)
    }

    /// An artifact file.
    pub open spec fn artifact_of(self, file: Seq<char>) -> Seq<char> {
        path_join(self.artifacts_dir@, file)
    }

    /// A layout from its four directories.
    pub fn new(base_dir: &str, circom_dir: &str, keys_dir: &str, artifacts_dir: &str) -> (r: Self)
        ensures
            r.base_dir@ == base_dir@,
            r.circom_dir@ == circom_dir@,
            r.keys_dir@ == keys_dir@,
            r.artifacts_dir@ == artifacts_dir@,
    {
        PathConfig {
            base_dir: String::from_str(base_dir),
            circom_dir: String::from_str(circom_dir),
            keys_dir: String::from_str(keys_dir),
            artifacts_dir: String::from_str(artifacts_dir),
        }
    }

    /// The layout of a checkout, run from the prover's crate directory with
    /// the circom project beside it.
    pub fn development() -> (r: Self)
        ensures
            r.base_dir@ == ""@,
            r.circom_dir@ == "../circom"@,
            r.keys_dir@ == "keys"@,
            r.artifacts_dir@ == "artifacts"@,
    {
        Self::new("", "../circom", "keys", "artifacts")
    }

    /// A user-given path, read against the base directory.
    pub fn resolve(&self, p: &str) -> (r: String)
        ensures
            r@ == self.resolved(p@),
    {
        join(self.base_dir.as_str(), p)
    }

    /// The default input JSON of a circuit.
    pub fn input_json(&self, circuit: &str) -> (r: String)
        ensures
            r@ == self.input_json_of(circuit@),
    {
        let inputs = join(self.circom_dir.as_str(), "inputs");
        let dir = join(inputs.as_str(), circuit);
        join(dir.as_str(), "default.json")
    }

    /// The R1CS file of a circuit.
    pub fn r1cs_path(&self, circuit: &str) -> (r: String)
        ensures
            r@ == self.r1cs_of(circuit@),
    {
        let build = join(self.circom_dir.as_str(), "build");
        let dir = join(build.as_str(), circuit);
        let file = String::from_str(circuit).concat(".r1cs");
        join(dir.as_str(), file.as_str())
    }

    /// A key file.
    pub fn key_path(&self, file: &str) -> (r: String)
        ensures
            r@ == self.key_of(file@),
    {
        join(self.keys_dir.as_str(), file)
    }

    /// An artifact file.
    pub fn artifact_path(&self, file: &str) -> (r: String)
        ensures
            r@ == self.artifact_of(file@),
    {
        join(self.artifacts_dir.as_str(), file)
    }
}

/// Reading an absolute path against any base directory leaves it as it is.
pub proof fn lemma_absolute_path_kept(config: PathConfig, p: Seq<char>)
    requires
        p.len() > 0,
        p[0] == '/',
    ensures
        config.resolved(p) == p,
{
}

} // verus!
