# ecdsa_spartan2 (verified core)

Verified core of the Spartan-2 wallet prover front end, written in Verus.

- `src/cli.rs` — the command line grammar (circuit word + action word +
  options, and the one-word forms), as spec functions and the parsers proved
  to follow them; laws: one-word forms equal their two-word forms, accepted
  commands are supported combinations, `--input=p` equals `--input p`.
- `src/plan.rs` — what each parsed command does (which keys and artifacts,
  which refusals); law: supported commands are never refused.
- `src/rsa_verify_circuit.rs` — the RSA-2048/4096 circuit configuration
  (type invariant pairing name and limb count), input and R1CS paths, the
  witness request/cache protocol, public values, setup-phase detection.
- `src/paths.rs` — the directory layout with `PathBuf::join` semantics.
- `src/size.rs`, `src/report.rs` — exact integer formatting of sizes and
  the benchmark report lines.
- `src/text.rs` — string helpers.
- `app/` — the program: argument reading, prover calls, witness calculator
  and R1CS loading, printing.
