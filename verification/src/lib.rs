//! Verified core of the ECDSA/RSA Spartan-2 wallet prover front end: the
//! configuration of the RSA signature verification circuits, the path layout
//! they read from, the command line grammar of the prover tool and the plans
//! it carries out.

pub mod text;
pub mod cli;
pub mod paths;
pub mod rsa_verify_circuit;
pub mod plan;
pub mod size;
pub mod report;
