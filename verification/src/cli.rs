//! The command line grammar of the prover tool.
//!
//! A command names a circuit and an action (`prepare prove --input x.json`),
//! or is one of the older one-word forms (`prove_prepare --input x.json`).
//! Parsing never performs the action: it yields the parsed command, a request
//! for the usage text, or the error message that the tool prints.

use vstd::prelude::*;
use crate::text::{
    is_prefix, joined, views, str_equal, starts_with, strip_prefix, join_from,
};

verus! {

/// The circuits the tool drives.
#[derive(Debug, Clone, Copy, PartialEq, Eq, Structural)]
pub enum CircuitKind {
    Prepare,
    Show,
    Rsa2048,
    Rsa4096,
}

/// What the tool does with a circuit.
#[derive(Debug, Clone, Copy, PartialEq, Eq, Structural)]
pub enum CircuitAction {
    Run,
    Setup,
    Prove,
    Verify,
    Reblind,
    GenerateSharedBlinds,
    Benchmark,
}

/// Options given after the action.
#[derive(Debug, Clone, PartialEq, Eq)]
pub struct CommandOptions {
    /// Override of the circuit input JSON path.
    pub input: Option<String>,
}

/// A fully parsed command.
#[derive(Debug, Clone, PartialEq, Eq)]
pub struct ParsedCommand {
    pub circuit: CircuitKind,
    pub action: CircuitAction,
    pub options: CommandOptions,
}

/// Either the usage text was asked for, or parsing produced a value.
#[derive(Debug, Clone, PartialEq, Eq)]
pub enum Outcome<T> {
    Help,
    Proceed(T),
}

/// The abstract content of a parsed command.
pub struct CommandView {
    pub circuit: CircuitKind,
    pub action: CircuitAction,
    pub input: Option<Seq<char>>,
}

/// The character view of an optional string.
pub open spec fn opt_view(o: Option<String>) -> Option<Seq<char>> {
    match o {
        Some(s) => Some(s@),
        None => None,
    }
}

impl View for CommandOptions {
    type V = Option<Seq<char>>;

    open spec fn view(&self) -> Option<Seq<char>> {
        opt_view(self.input)
    }
}

impl View for ParsedCommand {
    type V = CommandView;

    open spec fn view(&self) -> CommandView {
        CommandView { circuit: self.circuit, action: self.action, input: self.options@ }
    }
}

impl<T: View> View for Outcome<T> {
    type V = Outcome<T::V>;

    open spec fn view(&self) -> Outcome<T::V> {
        match self {
            Outcome::Help => Outcome::Help,
            Outcome::Proceed(t) => Outcome::Proceed(t@),
        }
    }
}

/// The view of a parse result whose error is a message.
pub open spec fn result_view<T: View>(r: Result<T, String>) -> Result<T::V, Seq<char>> {
    match r {
        Ok(t) => Ok(t@),
        Err(e) => Err(e@),
    }
}

impl Default for CommandOptions {
    fn default() -> (r: Self)
        ensures
            r@ == None::<Seq<char>>,
    {
        CommandOptions { input: None }
    }
}

/// The message for an input flag without a value.
pub open spec fn missing_input_message() -> Seq<char> {
    "Missing value for --input"@
}

/// The options grammar: `--input <path>`, `-i <path>`, `--input=<path>` (the
/// last one given wins), `--help` / `-h` (asks for the usage text; what
/// follows it is not read).
pub open spec fn options_grammar(args: Seq<Seq<char>>, input: Option<Seq<char>>) -> Result<
    Outcome<Option<Seq<char>>>,
    Seq<char>,
>
    decreases args.len(),
{
    if args.len() == 0 {
        Ok(Outcome::Proceed(input))
    } else {
        let a = args[0];
        if a == "--input"@ || a == "-i"@ {
            if args.len() < 2 {
                Err(missing_input_message())
            } else {
                options_grammar(args.skip(2), Some(args[1]))
            }
        } else if is_prefix("--input="@, a) {
            let value = a.skip("--input="@.len() as int);
            if value.len() == 0 {
                Err(missing_input_message())
            } else {
                options_grammar(args.skip(1), Some(value))
            }
        } else if a == "--help"@ || a == "-h"@ {
            Ok(Outcome::Help)
        } else {
            Err("Unknown option '"@ + a + "'"@)
        }
    }
}

/// Actions that take no options accept nothing after them.
pub open spec fn no_options_grammar(args: Seq<Seq<char>>) -> Result<Option<Seq<char>>, Seq<char>> {
    if args.len() == 0 {
        Ok(None)
    } else {
        Err("Unexpected options: "@ + joined(args, " "@))
    }
}

/// The action named by a word.
pub open spec fn action_word(w: Seq<char>) -> Option<CircuitAction> {
    if w == "run"@ {
        Some(CircuitAction::Run)
    } else if w == "setup"@ {
        Some(CircuitAction::Setup)
    } else if w == "prove"@ {
        Some(CircuitAction::Prove)
    } else if w == "verify"@ {
        Some(CircuitAction::Verify)
    } else if w == "reblind"@ {
        Some(CircuitAction::Reblind)
    } else if w == "generate_shared_blinds"@ {
        Some(CircuitAction::GenerateSharedBlinds)
    } else if w == "benchmark"@ {
        Some(CircuitAction::Benchmark)
    } else {
        None
    }
}

/// Actions that read options (the others accept none).
pub open spec fn takes_options(a: CircuitAction) -> bool {
    a == CircuitAction::Run || a == CircuitAction::Prove || a == CircuitAction::Setup || a
        == CircuitAction::Benchmark
}

/// The debug name of a circuit, as error messages print it.
pub open spec fn circuit_debug_name(c: CircuitKind) -> Seq<char> {
    match c {
        CircuitKind::Prepare => "Prepare"@,
        CircuitKind::Show => "Show"@,
        CircuitKind::Rsa2048 => "Rsa2048"@,
        CircuitKind::Rsa4096 => "Rsa4096"@,
    }
}

/// Whether the circuit is one of the RSA signature circuits.
pub open spec fn is_rsa(c: CircuitKind) -> bool {
    c == CircuitKind::Rsa2048 || c == CircuitKind::Rsa4096
}

/// The message for an action word that names no action.
pub open spec fn unknown_action_message(w: Seq<char>, c: CircuitKind) -> Seq<char> {
    "Unknown action '"@ + w + "' for "@ + circuit_debug_name(c)
        + ". Expected one of run|setup|prove|verify|reblind|generate_shared_blinds|benchmark."@
}

/// The message for shared blinds asked of a circuit other than Prepare.
pub open spec fn shared_blinds_message() -> Seq<char> {
    "The generate_shared_blinds action is only supported for the Prepare circuit"@
}

/// The message for a reblind asked of an RSA circuit.
pub open spec fn rsa_reblind_message() -> Seq<char> {
    "RSA circuits do not support reblind (standalone circuit)"@
}

/// A circuit, an action and the arguments after the action word.
pub open spec fn command_with(c: CircuitKind, a: CircuitAction, rest: Seq<Seq<char>>) -> Result<
    Outcome<CommandView>,
    Seq<char>,
> {
    if a == CircuitAction::GenerateSharedBlinds && c != CircuitKind::Prepare {
        Err(shared_blinds_message())
    } else if a == CircuitAction::Reblind && is_rsa(c) {
        Err(rsa_reblind_message())
    } else if takes_options(a) {
        match options_grammar(rest, None) {
            Ok(Outcome::Help) => Ok(Outcome::Help),
            Ok(Outcome::Proceed(input)) => Ok(
                Outcome::Proceed(CommandView { circuit: c, action: a, input: input }),
            ),
            Err(e) => Err(e),
        }
    } else {
        match no_options_grammar(rest) {
            Ok(input) => Ok(Outcome::Proceed(CommandView { circuit: c, action: a, input: input })),
            Err(e) => Err(e),
        }
    }
}

/// The grammar after a circuit word: nothing (run), an action word and its
/// options, or options alone (run; recognised by a leading `-`).
pub open spec fn circuit_command_grammar(c: CircuitKind, tail: Seq<Seq<char>>) -> Result<
    Outcome<CommandView>,
    Seq<char>,
> {
    if tail.len() == 0 {
        Ok(Outcome::Proceed(CommandView { circuit: c, action: CircuitAction::Run, input: None }))
    } else {
        match action_word(tail[0]) {
            Some(a) => command_with(c, a, tail.skip(1)),
            None => if is_prefix("-"@, tail[0]) {
                command_with(c, CircuitAction::Run, tail)
            } else {
                Err(unknown_action_message(tail[0], c))
            },
        }
    }
}

/// The circuit named by a circuit word.
pub open spec fn circuit_word(w: Seq<char>) -> Option<CircuitKind> {
    if w == "prepare"@ {
        Some(CircuitKind::Prepare)
    } else if w == "show"@ {
        Some(CircuitKind::Show)
    } else if w == "rsa2048"@ {
        Some(CircuitKind::Rsa2048)
    } else if w == "rsa4096"@ {
        Some(CircuitKind::Rsa4096)
    } else {
        None
    }
}

/// The one-word forms and the circuit and action each stands for.
pub open spec fn legacy_word(w: Seq<char>) -> Option<(CircuitKind, CircuitAction)> {
    if w == "benchmark"@ {
        Some((CircuitKind::Prepare, CircuitAction::Benchmark))
    } else if w == "setup_prepare"@ {
        Some((CircuitKind::Prepare, CircuitAction::Setup))
    } else if w == "setup_show"@ {
        Some((CircuitKind::Show, CircuitAction::Setup))
    } else if w == "prove_prepare"@ {
        Some((CircuitKind::Prepare, CircuitAction::Prove))
    } else if w == "prove_show"@ {
        Some((CircuitKind::Show, CircuitAction::Prove))
    } else if w == "verify_prepare"@ {
        Some((CircuitKind::Prepare, CircuitAction::Verify))
    } else if w == "verify_show"@ {
        Some((CircuitKind::Show, CircuitAction::Verify))
    } else if w == "reblind_prepare"@ {
        Some((CircuitKind::Prepare, CircuitAction::Reblind))
    } else if w == "reblind_show"@ {
        Some((CircuitKind::Show, CircuitAction::Reblind))
    } else if w == "generate_shared_blinds"@ {
        Some((CircuitKind::Prepare, CircuitAction::GenerateSharedBlinds))
    } else {
        None
    }
}

/// The whole command line grammar (the program name excluded).
pub open spec fn command_grammar(args: Seq<Seq<char>>) -> Result<Outcome<CommandView>, Seq<char>> {
    if args.len() == 0 {
        Err("No command provided"@)
    } else {
        let w = args[0];
        if w == "-h"@ || w == "--help"@ {
            Ok(Outcome::Help)
        } else {
            match circuit_word(w) {
                Some(c) => circuit_command_grammar(c, args.skip(1)),
                None => match legacy_word(w) {
                    Some((c, a)) => command_with(c, a, args.skip(1)),
                    None => Err("Unknown command '"@ + w + "'"@),
                },
            }
        }
    }
}

/// Reads `args[start..]` as options.
fn parse_options_from(args: &[String], start: usize) -> (r: Result<Outcome<CommandOptions>, String>)
    requires
        start <= args@.len(),
    ensures
        result_view(r) == options_grammar(views(args@).skip(start as int), None),
{
    let ghost all = views(args@);
    let n = args.len();
    let mut input: Option<String> = None;
    let mut i: usize = start;
    assert(all.skip(start as int).len() == n - start);
    while i < n
        invariant
            all == views(args@),
            n == args@.len(),
            start <= i <= n,
            options_grammar(all.skip(start as int), None) == options_grammar(
                all.skip(i as int),
                opt_view(input),
            ),
        decreases n - i,
    {
        let ghost here = all.skip(i as int);
        assert(here[0] == args@[i as int]@);
        let arg = args[i].as_str();
        if str_equal(arg, "--input") || str_equal(arg, "-i") {
            if i + 1 < n {
                assert(here[1] == args@[i + 1]@);
                assert(here.skip(2) =~= all.skip(i + 2));
                input = Some(args[i + 1].clone());
                i += 2;
            } else {
                return Err(String::from_str("Missing value for --input"));
            }
        } else if let Some(value) = strip_prefix(arg, "--input=") {
            if value.unicode_len() == 0 {
                return Err(String::from_str("Missing value for --input"));
            }
            assert(here.skip(1) =~= all.skip(i + 1));
            input = Some(String::from_str(value));
            i += 1;
        } else if str_equal(arg, "--help") || str_equal(arg, "-h") {
            return Ok(Outcome::Help);
        } else {
            return Err(String::from_str("Unknown option '").concat(arg).concat("'"));
        }
    }
    assert(all.skip(i as int).len() == 0);
    Ok(Outcome::Proceed(CommandOptions { input }))
}

/// Reads the arguments as options: `--input <path>`, `-i <path>` or
/// `--input=<path>`, and `--help` / `-h`.
pub fn parse_options(args: &[String]) -> (r: Result<Outcome<CommandOptions>, String>)
    ensures
        result_view(r) == options_grammar(views(args@), None),
{
    let r = parse_options_from(args, 0);
    assert(views(args@).skip(0) =~= views(args@));
    r
}

/// Accepts `args[start..]` only when it is empty.
fn ensure_no_options_from(args: &[String], start: usize) -> (r: Result<CommandOptions, String>)
    requires
        start <= args@.len(),
    ensures
        result_view(r) == no_options_grammar(views(args@).skip(start as int)),
{
    if start == args.len() {
        Ok(CommandOptions::default())
    } else {
        let listed = join_from(args, start, " ");
        Err(String::from_str("Unexpected options: ").concat(listed.as_str()))
    }
}

/// Accepts the arguments only when there are none.
pub fn ensure_no_options(args: &[String]) -> (r: Result<CommandOptions, String>)
    ensures
        result_view(r) == no_options_grammar(views(args@)),
{
    let r = ensure_no_options_from(args, 0);
    assert(views(args@).skip(0) =~= views(args@));
    r
}

/// The action named by a word, if any.
fn read_action_word(w: &str) -> (r: Option<CircuitAction>)
    ensures
        r == action_word(w@),
{
    if str_equal(w, "run") {
        Some(CircuitAction::Run)
    } else if str_equal(w, "setup") {
        Some(CircuitAction::Setup)
    } else if str_equal(w, "prove") {
        Some(CircuitAction::Prove)
    } else if str_equal(w, "verify") {
        Some(CircuitAction::Verify)
    } else if str_equal(w, "reblind") {
        Some(CircuitAction::Reblind)
    } else if str_equal(w, "generate_shared_blinds") {
        Some(CircuitAction::GenerateSharedBlinds)
    } else if str_equal(w, "benchmark") {
        Some(CircuitAction::Benchmark)
    } else {
        None
    }
}

/// The debug name of a circuit.
pub fn circuit_name_of(c: CircuitKind) -> (r: &'static str)
    ensures
        r@ == circuit_debug_name(c),
{
    match c {
        CircuitKind::Prepare => "Prepare",
        CircuitKind::Show => "Show",
        CircuitKind::Rsa2048 => "Rsa2048",
        CircuitKind::Rsa4096 => "Rsa4096",
    }
}

/// The command for circuit `c` and action `a`, whose options are `args[start..]`.
fn command_with_from(c: CircuitKind, a: CircuitAction, args: &[String], start: usize) -> (r: Result<
    Outcome<ParsedCommand>,
    String,
>)
    requires
        start <= args@.len(),
    ensures
        result_view(r) == command_with(c, a, views(args@).skip(start as int)),
{
    if a == CircuitAction::GenerateSharedBlinds && c != CircuitKind::Prepare {
        return Err(
            String::from_str(
                "The generate_shared_blinds action is only supported for the Prepare circuit",
            ),
        );
    }
    if a == CircuitAction::Reblind && (c == CircuitKind::Rsa2048 || c == CircuitKind::Rsa4096) {
        return Err(String::from_str("RSA circuits do not support reblind (standalone circuit)"));
    }
    match a {
        CircuitAction::Run | CircuitAction::Prove | CircuitAction::Setup
        | CircuitAction::Benchmark => {
            match parse_options_from(args, start) {
                Ok(Outcome::Help) => Ok(Outcome::Help),
                Ok(Outcome::Proceed(options)) => Ok(
                    Outcome::Proceed(ParsedCommand { circuit: c, action: a, options }),
                ),
                Err(e) => Err(e),
            }
        },
        CircuitAction::Verify | CircuitAction::Reblind | CircuitAction::GenerateSharedBlinds => {
            match ensure_no_options_from(args, start) {
                Ok(options) => Ok(Outcome::Proceed(ParsedCommand { circuit: c, action: a, options })),
                Err(e) => Err(e),
            }
        },
    }
}

/// The command for circuit `c` whose remaining words are `args[start..]`.
fn circuit_command_from(c: CircuitKind, args: &[String], start: usize) -> (r: Result<
    Outcome<ParsedCommand>,
    String,
>)
    requires
        start <= args@.len(),
    ensures
        result_view(r) == circuit_command_grammar(c, views(args@).skip(start as int)),
{
    let ghost tail = views(args@).skip(start as int);
    if start == args.len() {
        return Ok(
            Outcome::Proceed(
                ParsedCommand {
                    circuit: c,
                    action: CircuitAction::Run,
                    options: CommandOptions::default(),
                },
            ),
        );
    }
    assert(tail[0] == args@[start as int]@);
    let first = args[start].as_str();
    match read_action_word(first) {
        Some(a) => {
            assert(tail.skip(1) =~= views(args@).skip(start + 1));
            command_with_from(c, a, args, start + 1)
        },
        None => {
            if starts_with(first, "-") {
                command_with_from(c, CircuitAction::Run, args, start)
            } else {
                Err(
                    String::from_str("Unknown action '").concat(first).concat("' for ").concat(
                        circuit_name_of(c),
                    ).concat(
                        ". Expected one of run|setup|prove|verify|reblind|generate_shared_blinds|benchmark.",
                    ),
                )
            }
        },
    }
}

/// Reads the words after a circuit word: nothing (run), an action and its
/// options, or options alone (run).
pub fn parse_circuit_command(circuit: CircuitKind, tail: &[String]) -> (r: Result<
    Outcome<ParsedCommand>,
    String,
>)
    ensures
        result_view(r) == circuit_command_grammar(circuit, views(tail@)),
{
    let r = circuit_command_from(circuit, tail, 0);
    assert(views(tail@).skip(0) =~= views(tail@));
    r
}

/// The circuit named by a word, if any.
fn read_circuit_word(w: &str) -> (r: Option<CircuitKind>)
    ensures
        r == circuit_word(w@),
{
    if str_equal(w, "prepare") {
        Some(CircuitKind::Prepare)
    } else if str_equal(w, "show") {
        Some(CircuitKind::Show)
    } else if str_equal(w, "rsa2048") {
        Some(CircuitKind::Rsa2048)
    } else if str_equal(w, "rsa4096") {
        Some(CircuitKind::Rsa4096)
    } else {
        None
    }
}

/// The circuit and action a one-word form stands for, if any.
fn read_legacy_word(w: &str) -> (r: Option<(CircuitKind, CircuitAction)>)
    ensures
        r == legacy_word(w@),
{
    if str_equal(w, "benchmark") {
        Some((CircuitKind::Prepare, CircuitAction::Benchmark))
    } else if str_equal(w, "setup_prepare") {
        Some((CircuitKind::Prepare, CircuitAction::Setup))
    } else if str_equal(w, "setup_show") {
        Some((CircuitKind::Show, CircuitAction::Setup))
    } else if str_equal(w, "prove_prepare") {
        Some((CircuitKind::Prepare, CircuitAction::Prove))
    } else if str_equal(w, "prove_show") {
        Some((CircuitKind::Show, CircuitAction::Prove))
    } else if str_equal(w, "verify_prepare") {
        Some((CircuitKind::Prepare, CircuitAction::Verify))
    } else if str_equal(w, "verify_show") {
        Some((CircuitKind::Show, CircuitAction::Verify))
    } else if str_equal(w, "reblind_prepare") {
        Some((CircuitKind::Prepare, CircuitAction::Reblind))
    } else if str_equal(w, "reblind_show") {
        Some((CircuitKind::Show, CircuitAction::Reblind))
    } else if str_equal(w, "generate_shared_blinds") {
        Some((CircuitKind::Prepare, CircuitAction::GenerateSharedBlinds))
    } else {
        None
    }
}

/// Reads a whole command line (the program name excluded).
pub fn parse_command(args: &[String]) -> (r: Result<Outcome<ParsedCommand>, String>)
    ensures
        result_view(r) == command_grammar(views(args@)),
{
    let ghost all = views(args@);
    if args.len() == 0 {
        return Err(String::from_str("No command provided"));
    }
    assert(all[0] == args@[0]@);
    let w = args[0].as_str();
    if str_equal(w, "-h") || str_equal(w, "--help") {
        return Ok(Outcome::Help);
    }
    match read_circuit_word(w) {
        Some(c) => circuit_command_from(c, args, 1),
        None => match read_legacy_word(w) {
            Some((c, a)) => command_with_from(c, a, args, 1),
            None => Err(String::from_str("Unknown command '").concat(w).concat("'")),
        },
    }
}

/// The combinations the command line accepts: shared blinds only for the
/// Prepare circuit, and no reblinding of the standalone RSA circuits.
pub open spec fn supported(cmd: CommandView) -> bool {
    &&& !(cmd.action == CircuitAction::GenerateSharedBlinds && cmd.circuit != CircuitKind::Prepare)
    &&& !(cmd.action == CircuitAction::Reblind && is_rsa(cmd.circuit))
}

/// Every command the command line accepts is a supported combination.
pub proof fn lemma_accepted_commands_are_supported(args: Seq<Seq<char>>)
    ensures
        command_grammar(args) matches Ok(Outcome::Proceed(cmd)) ==> supported(cmd),
{
}

/// The word that names a circuit.
pub open spec fn circuit_text(c: CircuitKind) -> Seq<char> {
    match c {
        CircuitKind::Prepare => "prepare"@,
        CircuitKind::Show => "show"@,
        CircuitKind::Rsa2048 => "rsa2048"@,
        CircuitKind::Rsa4096 => "rsa4096"@,
    }
}

/// The word that names an action.
pub open spec fn action_text(a: CircuitAction) -> Seq<char> {
    match a {
        CircuitAction::Run => "run"@,
        CircuitAction::Setup => "setup"@,
        CircuitAction::Prove => "prove"@,
        CircuitAction::Verify => "verify"@,
        CircuitAction::Reblind => "reblind"@,
        CircuitAction::GenerateSharedBlinds => "generate_shared_blinds"@,
        CircuitAction::Benchmark => "benchmark"@,
    }
}

/// The circuit word and action word a one-word form stands for.
pub open spec fn legacy_expansion(w: Seq<char>) -> Seq<Seq<char>> {
    match legacy_word(w) {
        Some((c, a)) => seq![circuit_text(c), action_text(a)],
        None => seq![w],
    }
}

/// Each one-word form means the same as its circuit word followed by its
/// action word, whatever follows.
pub proof fn lemma_legacy_alias(w: Seq<char>, rest: Seq<Seq<char>>)
    requires
        legacy_word(w) is Some,
    ensures
        command_grammar(seq![w] + rest) == command_grammar(legacy_expansion(w) + rest),
{
    reveal_strlit("-h");
    reveal_strlit("--help");
    reveal_strlit("prepare");
    reveal_strlit("show");
    reveal_strlit("rsa2048");
    reveal_strlit("rsa4096");
    reveal_strlit("run");
    reveal_strlit("setup");
    reveal_strlit("prove");
    reveal_strlit("verify");
    reveal_strlit("reblind");
    reveal_strlit("generate_shared_blinds");
    reveal_strlit("benchmark");
    reveal_strlit("setup_prepare");
    reveal_strlit("setup_show");
    reveal_strlit("prove_prepare");
    reveal_strlit("prove_show");
    reveal_strlit("verify_prepare");
    reveal_strlit("verify_show");
    reveal_strlit("reblind_prepare");
    reveal_strlit("reblind_show");
    let (c, a) = legacy_word(w)->0;
    let left = seq![w] + rest;
    let right = seq![circuit_text(c), action_text(a)] + rest;
    assert(left[0] == w);
    assert(left.skip(1) =~= rest);
    assert(right[0] == circuit_text(c));
    assert(right.skip(1) =~= seq![action_text(a)] + rest);
    assert((seq![action_text(a)] + rest)[0] == action_text(a));
    assert((seq![action_text(a)] + rest).skip(1) =~= rest);
    assert(w.len() >= 9);
    assert(circuit_word(w) is None);
    assert(circuit_word(circuit_text(c)) == Some(c));
    assert("run"@.len() == 3 && "setup"@.len() == 5 && "prove"@.len() == 5);
    assert("verify"@.len() == 6 && "reblind"@.len() == 7 && "benchmark"@.len() == 9);
    assert("generate_shared_blinds"@.len() == 22);
    assert("setup"@[0] != "prove"@[0]);
    match a {
        CircuitAction::Setup => assert("setup"@[0] != "prove"@[0]),
        CircuitAction::Prove => assert("prove"@[0] != "setup"@[0]),
        _ => {},
    }
    assert(action_word(action_text(a)) == Some(a));
}

/// `--input=<path>` means the same as `--input <path>` for a non-empty path.
pub proof fn lemma_input_forms_agree(path: Seq<char>, rest: Seq<Seq<char>>, input: Option<Seq<char>>)
    requires
        path.len() > 0,
    ensures
        options_grammar(seq!["--input="@ + path] + rest, input) == options_grammar(
            seq!["--input"@, path] + rest,
            input,
        ),
{
    reveal_strlit("--input=");
    reveal_strlit("--input");
    reveal_strlit("-i");
    let joined_form = seq!["--input="@ + path] + rest;
    let split_form = seq!["--input"@, path] + rest;
    let flag = "--input="@ + path;
    assert(joined_form[0] == flag);
    assert(split_form[0] == "--input"@);
    assert(split_form[1] == path);
    assert(flag.len() > "--input"@.len());
    assert(flag.len() > "-i"@.len());
    assert(flag.subrange(0, 8) =~= "--input="@);
    assert(flag.skip(8) =~= path);
    assert(joined_form.skip(1) =~= rest);
    assert(split_form.skip(2) =~= rest);
}

/// The lengths of the words of the command line grammar, and the characters
/// that tell apart the words of equal length.
proof fn lemma_word_shapes()
    ensures
        "run"@.len() == 3 && "setup"@.len() == 5 && "prove"@.len() == 5,
        "verify"@.len() == 6 && "reblind"@.len() == 7 && "benchmark"@.len() == 9,
        "generate_shared_blinds"@.len() == 22,
        "setup"@[0] != "prove"@[0],
        "prepare"@.len() == 7 && "show"@.len() == 4 && "rsa2048"@.len() == 7,
        "rsa4096"@.len() == 7 && "-h"@.len() == 2 && "--help"@.len() == 6,
        "prepare"@[0] != "rsa2048"@[0] && "prepare"@[0] != "rsa4096"@[0],
        "rsa2048"@[3] != "rsa4096"@[3],
        "--input"@.len() == 7 && "-i"@.len() == 2 && "--input="@.len() == 8,
        "-h"@[1] != "-i"@[1],
{
    reveal_strlit("-h");
    reveal_strlit("--help");
    reveal_strlit("--input");
    reveal_strlit("-i");
    reveal_strlit("--input=");
    reveal_strlit("prepare");
    reveal_strlit("show");
    reveal_strlit("rsa2048");
    reveal_strlit("rsa4096");
    reveal_strlit("run");
    reveal_strlit("setup");
    reveal_strlit("prove");
    reveal_strlit("verify");
    reveal_strlit("reblind");
    reveal_strlit("generate_shared_blinds");
    reveal_strlit("benchmark");
}

/// The word of every action is read back as that action, and the word of
/// every circuit as that circuit.
pub proof fn lemma_words_read_back(a: CircuitAction, c: CircuitKind)
    ensures
        action_word(action_text(a)) == Some(a),
        circuit_word(circuit_text(c)) == Some(c),
        action_word("run"@) == Some(CircuitAction::Run),
{
    lemma_word_shapes();
    match a {
        CircuitAction::Setup => assert("setup"@[0] != "prove"@[0]),
        CircuitAction::Prove => assert("prove"@[0] != "setup"@[0]),
        _ => {},
    }
    match c {
        CircuitKind::Prepare => {
            assert("prepare"@[0] != "rsa2048"@[0]);
        },
        CircuitKind::Rsa4096 => {
            assert("rsa4096"@[3] != "rsa2048"@[3]);
        },
        _ => {},
    }
}

/// A circuit word followed by an action that reads options, and by options
/// the options grammar accepts with input `i`, is that circuit, that action
/// and that input, unless the combination is one the tool refuses.
pub proof fn lemma_two_word_command_with_options(
    c: CircuitKind,
    a: CircuitAction,
    opts: Seq<Seq<char>>,
    i: Option<Seq<char>>,
)
    requires
        a == CircuitAction::Run || a == CircuitAction::Setup || a == CircuitAction::Prove || a
            == CircuitAction::Benchmark,
        options_grammar(opts, None) == Ok::<_, Seq<char>>(Outcome::Proceed(i)),
    ensures
        command_grammar(seq![circuit_text(c), action_text(a)] + opts) == Ok::<_, Seq<char>>(
            Outcome::Proceed(CommandView { circuit: c, action: a, input: i }),
        ),
{
    lemma_word_shapes();
    lemma_words_read_back(a, c);
    let line = seq![circuit_text(c), action_text(a)] + opts;
    assert(line[0] == circuit_text(c));
    assert(line.skip(1) =~= seq![action_text(a)] + opts);
    assert((seq![action_text(a)] + opts)[0] == action_text(a));
    assert((seq![action_text(a)] + opts).skip(1) =~= opts);
    assert(circuit_text(c) != "-h"@ && circuit_text(c) != "--help"@);
}

/// `<circuit> run <options>` runs that circuit with the input the options
/// give.
pub proof fn lemma_run_command(c: CircuitKind, opts: Seq<Seq<char>>, i: Option<Seq<char>>)
    requires
        options_grammar(opts, None) == Ok::<_, Seq<char>>(Outcome::Proceed(i)),
    ensures
        command_grammar(seq![circuit_text(c), "run"@] + opts) == Ok::<_, Seq<char>>(
            Outcome::Proceed(CommandView { circuit: c, action: CircuitAction::Run, input: i }),
        ),
{
    lemma_two_word_command_with_options(c, CircuitAction::Run, opts, i);
}

/// An action that reads no options, with nothing after it, is that circuit
/// and action without input, unless the combination is one the tool refuses.
pub proof fn lemma_two_word_command_without_options(c: CircuitKind, a: CircuitAction)
    requires
        a == CircuitAction::Verify || a == CircuitAction::Reblind || a
            == CircuitAction::GenerateSharedBlinds,
        a == CircuitAction::GenerateSharedBlinds ==> c == CircuitKind::Prepare,
        a == CircuitAction::Reblind ==> (c == CircuitKind::Prepare || c == CircuitKind::Show),
    ensures
        command_grammar(seq![circuit_text(c), action_text(a)]) == Ok::<_, Seq<char>>(
            Outcome::Proceed(CommandView { circuit: c, action: a, input: None }),
        ),
{
    lemma_word_shapes();
    lemma_words_read_back(a, c);
    let line = seq![circuit_text(c), action_text(a)];
    assert(line.skip(1) =~= seq![action_text(a)]);
    assert(seq![action_text(a)].skip(1) =~= Seq::<Seq<char>>::empty());
    assert(circuit_text(c) != "-h"@ && circuit_text(c) != "--help"@);
}

/// `-h` and `--help` both ask for the usage text wherever an option may
/// stand, whatever follows.
pub proof fn lemma_help_flags(rest: Seq<Seq<char>>, i: Option<Seq<char>>)
    ensures
        options_grammar(seq!["-h"@] + rest, i) == Ok::<_, Seq<char>>(
            Outcome::<Option<Seq<char>>>::Help,
        ),
        options_grammar(seq!["--help"@] + rest, i) == Ok::<_, Seq<char>>(
            Outcome::<Option<Seq<char>>>::Help,
        ),
{
    lemma_word_shapes();
    assert((seq!["-h"@] + rest)[0] == "-h"@);
    assert((seq!["--help"@] + rest)[0] == "--help"@);
    assert("-h"@[1] != "-i"@[1]);
    assert(!is_prefix("--input="@, "-h"@));
    assert(!is_prefix("--input="@, "--help"@));
}

/// The one-word forms, each the same as the two words it abbreviates,
/// whatever follows: `benchmark` is `prepare benchmark`, `setup_prepare` is
/// `prepare setup`, `setup_show` is `show setup`, `prove_prepare` is
/// `prepare prove`, `prove_show` is `show prove`, `verify_prepare` is
/// `prepare verify`, `verify_show` is `show verify`, `reblind_prepare` is
/// `prepare reblind`, `reblind_show` is `show reblind`, and
/// `generate_shared_blinds` is `prepare generate_shared_blinds`.
pub proof fn lemma_one_word_forms(rest: Seq<Seq<char>>)
    ensures
        command_grammar(seq!["benchmark"@] + rest) == command_grammar(
            seq!["prepare"@, "benchmark"@] + rest,
        ),
        command_grammar(seq!["setup_prepare"@] + rest) == command_grammar(
            seq!["prepare"@, "setup"@] + rest,
        ),
        command_grammar(seq!["setup_show"@] + rest) == command_grammar(
            seq!["show"@, "setup"@] + rest,
        ),
        command_grammar(seq!["prove_prepare"@] + rest) == command_grammar(
            seq!["prepare"@, "prove"@] + rest,
        ),
        command_grammar(seq!["prove_show"@] + rest) == command_grammar(
            seq!["show"@, "prove"@] + rest,
        ),
        command_grammar(seq!["verify_prepare"@] + rest) == command_grammar(
            seq!["prepare"@, "verify"@] + rest,
        ),
        command_grammar(seq!["verify_show"@] + rest) == command_grammar(
            seq!["show"@, "verify"@] + rest,
        ),
        command_grammar(seq!["reblind_prepare"@] + rest) == command_grammar(
            seq!["prepare"@, "reblind"@] + rest,
        ),
        command_grammar(seq!["reblind_show"@] + rest) == command_grammar(
            seq!["show"@, "reblind"@] + rest,
        ),
        command_grammar(seq!["generate_shared_blinds"@] + rest) == command_grammar(
            seq!["prepare"@, "generate_shared_blinds"@] + rest,
        ),
{
    reveal_strlit("benchmark");
    reveal_strlit("setup_prepare");
    reveal_strlit("setup_show");
    reveal_strlit("prove_prepare");
    reveal_strlit("prove_show");
    reveal_strlit("verify_prepare");
    reveal_strlit("verify_show");
    reveal_strlit("reblind_prepare");
    reveal_strlit("reblind_show");
    reveal_strlit("generate_shared_blinds");
    assert("benchmark"@.len() == 9 && "setup_show"@.len() == 10 && "prove_show"@.len() == 10);
    assert("setup_prepare"@.len() == 13 && "prove_prepare"@.len() == 13);
    assert("verify_show"@.len() == 11 && "reblind_show"@.len() == 12);
    assert("verify_prepare"@.len() == 14 && "reblind_prepare"@.len() == 15);
    assert("generate_shared_blinds"@.len() == 22);
    assert("setup_show"@[0] != "prove_show"@[0]);
    assert("setup_prepare"@[0] != "prove_prepare"@[0]);
    lemma_legacy_alias("benchmark"@, rest);
    lemma_legacy_alias("setup_prepare"@, rest);
    lemma_legacy_alias("setup_show"@, rest);
    lemma_legacy_alias("prove_prepare"@, rest);
    lemma_legacy_alias("prove_show"@, rest);
    lemma_legacy_alias("verify_prepare"@, rest);
    lemma_legacy_alias("verify_show"@, rest);
    lemma_legacy_alias("reblind_prepare"@, rest);
    lemma_legacy_alias("reblind_show"@, rest);
    lemma_legacy_alias("generate_shared_blinds"@, rest);
}

} // verus!
