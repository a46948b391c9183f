//! The benchmark reports: timings in milliseconds and artifact sizes, framed
//! in a box, line by line as the tool prints them.

use vstd::prelude::*;
use crate::text::{decimal, padded, pad_left, to_decimal, views};
use crate::size::{format_size, size_text};
use crate::cli::CircuitKind;
use crate::plan::{rsa_label, rsa_label_of};

verus! {

/// The top of a report box (after an empty line).
pub open spec fn box_top() -> Seq<char> {
    "\n╔════════════════════════════════════════════════╗"@
}

/// A divider inside a report box.
pub open spec fn box_divider() -> Seq<char> {
    "╠════════════════════════════════════════════════╣"@
}

/// The bottom of a report box (followed by an empty line).
pub open spec fn box_bottom() -> Seq<char> {
    "╚════════════════════════════════════════════════╝\n"@
}

/// The heading of the timing rows.
pub open spec fn timing_heading() -> Seq<char> {
    "║ TIMING MEASUREMENTS                            ║"@
}

/// The heading of the size rows.
pub open spec fn size_heading() -> Seq<char> {
    "║ SIZE MEASUREMENTS                              ║"@
}

/// A timing row: the label, the milliseconds right-aligned in ten columns,
/// and the unit.
pub open spec fn timing_row(label: Seq<char>, ms: nat) -> Seq<char> {
    label + padded(decimal(ms), 10) + " ms      ║"@
}

/// A size row: the label and the formatted size right-aligned in twelve
/// columns.
pub open spec fn size_row(label: Seq<char>, bytes: nat) -> Seq<char> {
    label + padded(size_text(bytes), 12) + "       ║"@
}

fn box_top_line() -> (r: String)
    ensures
        r@ == box_top(),
{
    String::from_str("\n╔════════════════════════════════════════════════╗")
}

fn box_divider_line() -> (r: String)
    ensures
        r@ == box_divider(),
{
    String::from_str("╠════════════════════════════════════════════════╣")
}

fn box_bottom_line() -> (r: String)
    ensures
        r@ == box_bottom(),
{
    String::from_str("╚════════════════════════════════════════════════╝\n")
}

/// A timing row.
fn timing_row_text(label: &str, ms: u128) -> (r: String)
    ensures
        r@ == timing_row(label@, ms as nat),
{
    let value = to_decimal(ms);
    let field = pad_left(value.as_str(), 10);
    String::from_str(label).concat(field.as_str()).concat(" ms      ║")
}

/// A size row.
fn size_row_text(label: &str, bytes: u64) -> (r: String)
    ensures
        r@ == size_row(label@, bytes as nat),
{
    let value = format_size(bytes);
    let field = pad_left(value.as_str(), 12);
    String::from_str(label).concat(field.as_str()).concat("       ║")
}

/// Timings and sizes of the full Prepare and Show pipeline.
#[derive(Debug, Clone, Copy)]
pub struct BenchmarkResults {
    pub prepare_setup_ms: u128,
    pub show_setup_ms: u128,
    pub generate_blinds_ms: u128,
    pub prove_prepare_ms: u128,
    pub reblind_prepare_ms: u128,
    pub prove_show_ms: u128,
    pub reblind_show_ms: u128,
    pub verify_prepare_ms: u128,
    pub verify_show_ms: u128,
    pub prepare_proving_key_bytes: u64,
    pub prepare_verifying_key_bytes: u64,
    pub show_proving_key_bytes: u64,
    pub show_verifying_key_bytes: u64,
    pub prepare_proof_bytes: u64,
    pub show_proof_bytes: u64,
    pub prepare_witness_bytes: u64,
    pub show_witness_bytes: u64,
}

/// The summary of the full pipeline, line by line.
pub open spec fn summary_of(r: BenchmarkResults) -> Seq<Seq<char>> {
    seq![
        box_top(),
        "║        BENCHMARK RESULTS SUMMARY               ║"@,
        box_divider(),
        timing_heading(),
        box_divider(),
        timing_row("║ Prepare Setup:          "@, r.prepare_setup_ms as nat),
        timing_row("║ Show Setup:             "@, r.show_setup_ms as nat),
        timing_row("║ Generate Blinds:        "@, r.generate_blinds_ms as nat),
        timing_row("║ Prove Prepare:          "@, r.prove_prepare_ms as nat),
        timing_row("║ Reblind Prepare:        "@, r.reblind_prepare_ms as nat),
        timing_row("║ Prove Show:             "@, r.prove_show_ms as nat),
        timing_row("║ Reblind Show:           "@, r.reblind_show_ms as nat),
        timing_row("║ Verify Prepare:         "@, r.verify_prepare_ms as nat),
        timing_row("║ Verify Show:            "@, r.verify_show_ms as nat),
        box_divider(),
        size_heading(),
        box_divider(),
        size_row("║ Prepare Proving Key:    "@, r.prepare_proving_key_bytes as nat),
        size_row("║ Prepare Verifying Key:  "@, r.prepare_verifying_key_bytes as nat),
        size_row("║ Show Proving Key:       "@, r.show_proving_key_bytes as nat),
        size_row("║ Show Verifying Key:     "@, r.show_verifying_key_bytes as nat),
        size_row("║ Prepare Proof:          "@, r.prepare_proof_bytes as nat),
        size_row("║ Show Proof:             "@, r.show_proof_bytes as nat),
        size_row("║ Prepare Witness:        "@, r.prepare_witness_bytes as nat),
        size_row("║ Show Witness:           "@, r.show_witness_bytes as nat),
        box_bottom(),
    ]
}

impl BenchmarkResults {
    /// The summary of the full pipeline, line by line.
    pub fn summary_lines(&self) -> (r: Vec<String>)
        ensures
            views(r@) == summary_of(*self),
    {
        let mut lines: Vec<String> = Vec::new();
        lines.push(box_top_line());
        lines.push(String::from_str("║        BENCHMARK RESULTS SUMMARY               ║"));
        lines.push(box_divider_line());
        lines.push(String::from_str("║ TIMING MEASUREMENTS                            ║"));
        lines.push(box_divider_line());
        lines.push(timing_row_text("║ Prepare Setup:          ", self.prepare_setup_ms));
        lines.push(timing_row_text("║ Show Setup:             ", self.show_setup_ms));
        lines.push(timing_row_text("║ Generate Blinds:        ", self.generate_blinds_ms));
        lines.push(timing_row_text("║ Prove Prepare:          ", self.prove_prepare_ms));
        lines.push(timing_row_text("║ Reblind Prepare:        ", self.reblind_prepare_ms));
        lines.push(timing_row_text("║ Prove Show:             ", self.prove_show_ms));
        lines.push(timing_row_text("║ Reblind Show:           ", self.reblind_show_ms));
        lines.push(timing_row_text("║ Verify Prepare:         ", self.verify_prepare_ms));
        lines.push(timing_row_text("║ Verify Show:            ", self.verify_show_ms));
        lines.push(box_divider_line());
        lines.push(String::from_str("║ SIZE MEASUREMENTS                              ║"));
        lines.push(box_divider_line());
        lines.push(size_row_text("║ Prepare Proving Key:    ", self.prepare_proving_key_bytes));
        lines.push(size_row_text("║ Prepare Verifying Key:  ", self.prepare_verifying_key_bytes));
        lines.push(size_row_text("║ Show Proving Key:       ", self.show_proving_key_bytes));
        lines.push(size_row_text("║ Show Verifying Key:     ", self.show_verifying_key_bytes));
        lines.push(size_row_text("║ Prepare Proof:          ", self.prepare_proof_bytes));
        lines.push(size_row_text("║ Show Proof:             ", self.show_proof_bytes));
        lines.push(size_row_text("║ Prepare Witness:        ", self.prepare_witness_bytes));
        lines.push(size_row_text("║ Show Witness:           ", self.show_witness_bytes));
        lines.push(box_bottom_line());
        assert(views(lines@) =~= summary_of(*self));
        lines
    }
}

/// Timings and sizes of one RSA circuit's setup, proof and verification.
#[derive(Debug, Clone, Copy)]
pub struct RsaBenchmarkResults {
    pub circuit: CircuitKind,
    pub setup_ms: u128,
    pub prove_ms: u128,
    pub verify_ms: u128,
    pub proving_key_bytes: u64,
    pub verifying_key_bytes: u64,
    pub proof_bytes: u64,
    pub witness_bytes: u64,
}

/// The summary of an RSA circuit's benchmark, line by line.
pub open spec fn rsa_summary_of(r: RsaBenchmarkResults) -> Seq<Seq<char>> {
    seq![
        box_top(),
        "║     "@ + rsa_label(r.circuit) + " BENCHMARK RESULTS                    ║"@,
        box_divider(),
        timing_heading(),
        box_divider(),
        timing_row("║ Setup:                  "@, r.setup_ms as nat),
        timing_row("║ Prove:                  "@, r.prove_ms as nat),
        timing_row("║ Verify:                 "@, r.verify_ms as nat),
        box_divider(),
        size_heading(),
        box_divider(),
        size_row("║ Proving Key:            "@, r.proving_key_bytes as nat),
        size_row("║ Verifying Key:          "@, r.verifying_key_bytes as nat),
        size_row("║ Proof:                  "@, r.proof_bytes as nat),
        size_row("║ Witness:                "@, r.witness_bytes as nat),
        box_bottom(),
    ]
}

impl RsaBenchmarkResults {
    /// The summary of the RSA benchmark, line by line.
    pub fn summary_lines(&self) -> (r: Vec<String>)
        ensures
            views(r@) == rsa_summary_of(*self),
    {
        let mut lines: Vec<String> = Vec::new();
        lines.push(box_top_line());
        lines.push(
            String::from_str("║     ").concat(rsa_label_of(self.circuit)).concat(
                " BENCHMARK RESULTS                    ║",
            ),
        );
        lines.push(box_divider_line());
        lines.push(String::from_str("║ TIMING MEASUREMENTS                            ║"));
        lines.push(box_divider_line());
        lines.push(timing_row_text("║ Setup:                  ", self.setup_ms));
        lines.push(timing_row_text("║ Prove:                  ", self.prove_ms));
        lines.push(timing_row_text("║ Verify:                 ", self.verify_ms));
        lines.push(box_divider_line());
        lines.push(String::from_str("║ SIZE MEASUREMENTS                              ║"));
        lines.push(box_divider_line());
        lines.push(size_row_text("║ Proving Key:            ", self.proving_key_bytes));
        lines.push(size_row_text("║ Verifying Key:          ", self.verifying_key_bytes));
        lines.push(size_row_text("║ Proof:                  ", self.proof_bytes));
        lines.push(size_row_text("║ Witness:                ", self.witness_bytes));
        lines.push(box_bottom_line());
        assert(views(lines@) =~= rsa_summary_of(*self));
        lines
    }
}

/// The banner printed before an RSA benchmark starts.
pub open spec fn rsa_banner_of(c: CircuitKind) -> Seq<Seq<char>> {
    seq![box_top(), "║   STARTING "@ + rsa_label(c) + " BENCHMARK PIPELINE            ║"@, box_bottom()]
}

/// The banner printed before an RSA benchmark starts, line by line.
pub fn rsa_banner(c: CircuitKind) -> (r: Vec<String>)
    ensures
        views(r@) == rsa_banner_of(c),
{
    let mut lines: Vec<String> = Vec::new();
    lines.push(box_top_line());
    lines.push(String::from_str("║   STARTING ").concat(rsa_label_of(c)).concat(" BENCHMARK PIPELINE            ║"));
    lines.push(box_bottom_line());
    assert(views(lines@) =~= rsa_banner_of(c));
    lines
}

/// The banner printed before the full pipeline starts.
pub open spec fn pipeline_banner_of() -> Seq<Seq<char>> {
    seq![box_top(), "║     STARTING COMPLETE BENCHMARK PIPELINE       ║"@, box_bottom()]
}

/// The banner printed before the full pipeline starts, line by line.
pub fn pipeline_banner() -> (r: Vec<String>)
    ensures
        views(r@) == pipeline_banner_of(),
{
    let mut lines: Vec<String> = Vec::new();
    lines.push(box_top_line());
    lines.push(String::from_str("║     STARTING COMPLETE BENCHMARK PIPELINE       ║"));
    lines.push(box_bottom_line());
    assert(views(lines@) =~= pipeline_banner_of());
    lines
}

/// The title line of an RSA summary names the benchmarked circuit right
/// after the frame and indent, so the summaries of the two RSA circuits have
/// different titles.
pub proof fn lemma_rsa_title_names_circuit(r: RsaBenchmarkResults, other: RsaBenchmarkResults)
    ensures
        r.circuit == CircuitKind::Rsa2048 ==> rsa_summary_of(r)[1].subrange(6, 14) == "RSA-2048"@,
        r.circuit == CircuitKind::Rsa4096 ==> rsa_summary_of(r)[1].subrange(6, 14) == "RSA-4096"@,
        r.circuit == CircuitKind::Rsa2048 && other.circuit == CircuitKind::Rsa4096 ==> rsa_summary_of(
            r,
        )[1] != rsa_summary_of(other)[1],
        r.circuit == CircuitKind::Rsa2048 ==> rsa_banner_of(r.circuit)[1].subrange(13, 21)
            == "RSA-2048"@,
        r.circuit == CircuitKind::Rsa4096 ==> rsa_banner_of(r.circuit)[1].subrange(13, 21)
            == "RSA-4096"@,
{
    reveal_strlit("║     ");
    reveal_strlit("║   STARTING ");
    reveal_strlit("RSA-2048");
    reveal_strlit("RSA-4096");
    let pre = "║     "@;
    let ban = "║   STARTING "@;
    let suf = " BENCHMARK RESULTS                    ║"@;
    let bsuf = " BENCHMARK PIPELINE            ║"@;
    assert(pre.len() == 6);
    assert(ban.len() == 13);
    let l = rsa_label(r.circuit);
    assert(l.len() == 8);
    assert((pre + l + suf).subrange(6, 14) =~= l);
    assert((ban + l + bsuf).subrange(13, 21) =~= l);
    if r.circuit == CircuitKind::Rsa2048 && other.circuit == CircuitKind::Rsa4096 {
        let lo = rsa_label(other.circuit);
        assert((pre + lo + suf).subrange(6, 14) =~= lo);
        assert(l[7] != lo[7]);
    }
}

} // verus!
