use ecdsa_spartan2::cli::{
    ensure_no_options, parse_circuit_command, parse_command, parse_options, CircuitAction,
    CircuitKind, CommandOptions, Outcome, ParsedCommand,
};

fn args(words: &[&str]) -> Vec<String> {
    words.iter().map(|w| w.to_string()).collect()
}

fn command(circuit: CircuitKind, action: CircuitAction, input: Option<&str>) -> Outcome<ParsedCommand> {
    Outcome::Proceed(ParsedCommand {
        circuit,
        action,
        options: CommandOptions { input: input.map(|s| s.to_string()) },
    })
}

const EXPECTED: &str = "Expected one of run|setup|prove|verify|reblind|generate_shared_blinds|benchmark.";

#[test]
fn no_command_is_an_error() {
    assert_eq!(parse_command(&args(&[])), Err("No command provided".to_string()));
}

#[test]
fn unknown_command_is_named() {
    assert_eq!(parse_command(&args(&["frobnicate"])), Err("Unknown command 'frobnicate'".to_string()));
}

#[test]
fn help_flags_ask_for_usage() {
    assert_eq!(parse_command(&args(&["-h"])), Ok(Outcome::Help));
    assert_eq!(parse_command(&args(&["--help", "whatever"])), Ok(Outcome::Help));
    assert_eq!(parse_command(&args(&["prepare", "prove", "--help", "--bogus"])), Ok(Outcome::Help));
}

#[test]
fn bare_circuit_word_runs() {
    assert_eq!(parse_command(&args(&["rsa2048"])), Ok(command(CircuitKind::Rsa2048, CircuitAction::Run, None)));
    assert_eq!(parse_command(&args(&["show"])), Ok(command(CircuitKind::Show, CircuitAction::Run, None)));
}

#[test]
fn options_without_action_run() {
    assert_eq!(
        parse_command(&args(&["rsa4096", "--input=in.json"])),
        Ok(command(CircuitKind::Rsa4096, CircuitAction::Run, Some("in.json")))
    );
    assert_eq!(
        parse_command(&args(&["prepare", "-i", "x.json"])),
        Ok(command(CircuitKind::Prepare, CircuitAction::Run, Some("x.json")))
    );
}

#[test]
fn circuit_and_action_words() {
    assert_eq!(
        parse_command(&args(&["prepare", "setup", "--input", "../circom/inputs/jwt/default.json"])),
        Ok(command(CircuitKind::Prepare, CircuitAction::Setup, Some("../circom/inputs/jwt/default.json")))
    );
    assert_eq!(parse_command(&args(&["show", "verify"])), Ok(command(CircuitKind::Show, CircuitAction::Verify, None)));
    assert_eq!(parse_command(&args(&["prepare", "reblind"])), Ok(command(CircuitKind::Prepare, CircuitAction::Reblind, None)));
    assert_eq!(
        parse_command(&args(&["prepare", "generate_shared_blinds"])),
        Ok(command(CircuitKind::Prepare, CircuitAction::GenerateSharedBlinds, None))
    );
    assert_eq!(
        parse_command(&args(&["rsa2048", "benchmark", "--input", "r.json"])),
        Ok(command(CircuitKind::Rsa2048, CircuitAction::Benchmark, Some("r.json")))
    );
}

#[test]
fn unknown_action_names_circuit() {
    assert_eq!(
        parse_command(&args(&["rsa2048", "frob"])),
        Err(format!("Unknown action 'frob' for Rsa2048. {}", EXPECTED))
    );
    assert_eq!(
        parse_circuit_command(CircuitKind::Show, &args(&["x"])),
        Err(format!("Unknown action 'x' for Show. {}", EXPECTED))
    );
}

#[test]
fn shared_blinds_only_for_prepare() {
    let msg = "The generate_shared_blinds action is only supported for the Prepare circuit".to_string();
    assert_eq!(parse_command(&args(&["show", "generate_shared_blinds"])), Err(msg.clone()));
    assert_eq!(parse_command(&args(&["rsa4096", "generate_shared_blinds"])), Err(msg));
}

#[test]
fn rsa_circuits_do_not_reblind() {
    let msg = "RSA circuits do not support reblind (standalone circuit)".to_string();
    assert_eq!(parse_command(&args(&["rsa2048", "reblind"])), Err(msg.clone()));
    assert_eq!(parse_command(&args(&["rsa4096", "reblind", "--input", "x"])), Err(msg));
}

#[test]
fn actions_without_options_reject_extras() {
    assert_eq!(
        parse_command(&args(&["show", "verify", "--input", "a b"])),
        Err("Unexpected options: --input a b".to_string())
    );
    assert_eq!(ensure_no_options(&args(&[])), Ok(CommandOptions { input: None }));
    assert_eq!(ensure_no_options(&args(&["x"])), Err("Unexpected options: x".to_string()));
    assert_eq!(
        parse_command(&args(&["verify_prepare", "--help"])),
        Err("Unexpected options: --help".to_string())
    );
}

#[test]
fn option_errors() {
    let missing = Err("Missing value for --input".to_string());
    assert_eq!(parse_options(&args(&["--input"])), missing);
    assert_eq!(parse_options(&args(&["-i"])), missing);
    assert_eq!(parse_options(&args(&["--input="])), missing);
    assert_eq!(parse_options(&args(&["--bogus"])), Err("Unknown option '--bogus'".to_string()));
    assert_eq!(parse_options(&args(&["--bogus", "--help"])), Err("Unknown option '--bogus'".to_string()));
    assert_eq!(
        parse_command(&args(&["prove_show", "stray"])),
        Err("Unknown option 'stray'".to_string())
    );
}

#[test]
fn last_input_wins() {
    assert_eq!(
        parse_options(&args(&["--input", "a", "-i", "b", "--input=c"])),
        Ok(Outcome::Proceed(CommandOptions { input: Some("c".to_string()) }))
    );
    assert_eq!(parse_options(&args(&[])), Ok(Outcome::Proceed(CommandOptions { input: None })));
}

#[test]
fn input_forms_agree() {
    assert_eq!(parse_options(&args(&["--input=p.json", "-h"])), parse_options(&args(&["--input", "p.json", "-h"])));
    assert_eq!(parse_options(&args(&["--input=p.json", "--x"])), parse_options(&args(&["--input", "p.json", "--x"])));
    assert_eq!(parse_options(&args(&["--input=p.json"])), parse_options(&args(&["--input", "p.json"])));
}

#[test]
fn legacy_aliases_match_two_word_forms() {
    let pairs: &[(&str, &str, &str)] = &[
        ("benchmark", "prepare", "benchmark"),
        ("setup_prepare", "prepare", "setup"),
        ("setup_show", "show", "setup"),
        ("prove_prepare", "prepare", "prove"),
        ("prove_show", "show", "prove"),
        ("verify_prepare", "prepare", "verify"),
        ("verify_show", "show", "verify"),
        ("reblind_prepare", "prepare", "reblind"),
        ("reblind_show", "show", "reblind"),
        ("generate_shared_blinds", "prepare", "generate_shared_blinds"),
    ];
    let tails: &[&[&str]] = &[&[], &["--input", "a.json"], &["-h"], &["--input="], &["junk"]];
    for (alias, circuit, action) in pairs {
        for tail in tails {
            let mut one = vec![alias.to_string()];
            one.extend(args(tail));
            let mut two = vec![circuit.to_string(), action.to_string()];
            two.extend(args(tail));
            assert_eq!(parse_command(&one), parse_command(&two), "{} {:?}", alias, tail);
        }
    }
    assert_eq!(
        parse_command(&args(&["prove_prepare", "--input", "j.json"])),
        Ok(command(CircuitKind::Prepare, CircuitAction::Prove, Some("j.json")))
    );
}

#[test]
fn accepted_commands_are_supported() {
    let circuits = ["prepare", "show", "rsa2048", "rsa4096"];
    let actions = ["run", "setup", "prove", "verify", "reblind", "generate_shared_blinds", "benchmark"];
    for c in circuits {
        for a in actions {
            if let Ok(Outcome::Proceed(cmd)) = parse_command(&args(&[c, a])) {
                assert!(!(cmd.action == CircuitAction::GenerateSharedBlinds && cmd.circuit != CircuitKind::Prepare));
                assert!(!(cmd.action == CircuitAction::Reblind
                    && (cmd.circuit == CircuitKind::Rsa2048 || cmd.circuit == CircuitKind::Rsa4096)));
            }
        }
    }
}
