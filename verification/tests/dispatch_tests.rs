//! Tests of shell tokenization, command dispatch, and the shell's step
//! function, with the real evaluator behind the expression path.

use clic::cli::{Cli, Control, ReadEvent, Step};

fn args(tokens: &[&str]) -> Vec<String> {
    tokens.iter().map(|t| t.to_string()).collect()
}

#[test]
fn shell_line_with_spaces_is_one_expression_token() {
    let parsed = Cli::parse_shell_arguments("sqrt( 9 ) + 1".to_string());
    assert_eq!(parsed, vec!["sqrt( 9 ) + 1".to_string()]);
}

#[test]
fn shell_set_line_is_split_into_tokens() {
    let parsed = Cli::parse_shell_arguments("set x 4".to_string());
    assert_eq!(parsed, args(&["set", "x", "4"]));
}

#[test]
fn shell_blank_lines_give_no_tokens() {
    assert_eq!(Cli::parse_shell_arguments(String::new()).len(), 0);
    assert_eq!(Cli::parse_shell_arguments("   \t ".to_string()).len(), 0);
}

#[test]
fn shell_consts_line_is_one_token() {
    assert_eq!(
        Cli::parse_shell_arguments("consts".to_string()),
        vec!["consts".to_string()]
    );
    // with trailing text it is no longer the command but an expression
    assert_eq!(
        Cli::parse_shell_arguments("consts foo".to_string()),
        vec!["consts foo".to_string()]
    );
}

#[test]
fn help_command_prints_usage_in_profile_colors() {
    let mut cli = Cli::new();
    let step = cli.execute_command(&args(&["help"]));
    match step {
        Step::Done(effects) => {
            assert!(!effects.persist_constants);
            assert!(!effects.persist_colors);
            assert_eq!(effects.output.len(), 10);
            assert_eq!(effects.output[0].color, Some("cyan".to_string()));
            assert_eq!(effects.output[0].text, "Clic - A simple CLI calculator");
            assert_eq!(effects.output[2].color, Some("yellow".to_string()));
            assert_eq!(effects.output[2].text, "Basic usage");
        }
        _ => panic!("help must be fully handled"),
    }
}

#[test]
fn help_with_topic_prints_the_same_usage() {
    let mut cli = Cli::new();
    let with_topic = match cli.execute_command(&args(&["help", "colors"])) {
        Step::Done(effects) => effects.output,
        _ => panic!("help must be fully handled"),
    };
    let without = match cli.execute_command(&args(&["help"])) {
        Step::Done(effects) => effects.output,
        _ => panic!("help must be fully handled"),
    };
    assert_eq!(with_topic.len(), without.len());
    for (a, b) in with_topic.iter().zip(without.iter()) {
        assert_eq!(a.text, b.text);
        assert_eq!(a.color, b.color);
    }
}

#[test]
fn set_command_requests_a_parse() {
    let mut cli = Cli::new();
    match cli.execute_command(&args(&["set", "x", "2.5"])) {
        Step::Parse(name, raw) => {
            assert_eq!(name, "x");
            assert_eq!(raw, "2.5");
        }
        _ => panic!("set must request a parse"),
    }
}

#[test]
fn set_then_consts_shows_the_constant() {
    let mut cli = Cli::new();
    let parsed = "2".parse::<f64>().ok().map(f64::to_bits);
    let effects = cli.finish_set("x".to_string(), parsed);
    assert!(effects.persist_constants);
    assert_eq!(effects.output.len(), 0);

    let bits = match cli.execute_command(&args(&["consts"])) {
        Step::Formats(bits) => bits,
        _ => panic!("consts must request formatting"),
    };
    assert_eq!(bits, vec![2.0f64.to_bits()]);

    let formatted: Vec<String> = bits.iter().map(|b| format!("{}", f64::from_bits(*b))).collect();
    let listing = cli.consts_output(&formatted);
    assert!(listing
        .output
        .iter()
        .any(|span| span.color.is_none() && span.text == "    x = 2\n"));
    assert!(!listing.persist_constants);
}

#[test]
fn invalid_set_value_changes_nothing() {
    let mut cli = Cli::new();
    let parsed = "2..5".parse::<f64>().ok().map(f64::to_bits);
    assert!(parsed.is_none());
    let effects = cli.finish_set("x".to_string(), parsed);
    assert!(!effects.persist_constants);
    assert!(!effects.persist_colors);
    assert_eq!(effects.output.len(), 1);
    assert_eq!(effects.output[0].text, "Error: Invalid constant value\n");
    assert!(effects.output[0].color.is_none());
    assert_eq!(cli.context.get_constants().len(), 0);
}

#[test]
fn set_with_missing_arguments_is_a_usage_error() {
    let mut cli = Cli::new();
    for tokens in [vec!["set"], vec!["set", "x"]] {
        match cli.execute_command(&args(&tokens)) {
            Step::Done(effects) => {
                assert!(!effects.persist_constants);
                assert!(!effects.persist_colors);
                assert_eq!(effects.output[0].text, "Usage: set <name> <value>");
                assert_eq!(effects.output[0].color, Some("red".to_string()));
            }
            _ => panic!("a short set must be fully handled"),
        }
    }
    assert_eq!(cli.context.get_constants().len(), 0);
}

#[test]
fn color_with_missing_arguments_is_a_usage_error() {
    let mut cli = Cli::new();
    for tokens in [vec!["color"], vec!["color", "primary"]] {
        match cli.execute_command(&args(&tokens)) {
            Step::Done(effects) => {
                assert!(!effects.persist_colors);
                assert_eq!(
                    effects.output[0].text,
                    "Usage: color <primary/secondary/failure> <color>"
                );
                assert_eq!(effects.output[0].color, Some("red".to_string()));
            }
            _ => panic!("color must be fully handled"),
        }
    }
    assert_eq!(cli.colors.primary, "cyan");
}

#[test]
fn color_with_unknown_slot_changes_nothing() {
    let mut cli = Cli::new();
    match cli.execute_command(&args(&["color", "bogus", "blue"])) {
        Step::Done(effects) => {
            assert!(!effects.persist_colors);
            assert_eq!(
                effects.output[0].text,
                "Invalid key, available: primary, secondary, failure"
            );
        }
        _ => panic!("color must be fully handled"),
    }
    assert_eq!(cli.colors.primary, "cyan");
    assert_eq!(cli.colors.secondary, "yellow");
    assert_eq!(cli.colors.failure, "red");
}

#[test]
fn color_with_valid_slot_updates_and_persists() {
    let mut cli = Cli::new();
    match cli.execute_command(&args(&["color", "primary", "green"])) {
        Step::Done(effects) => {
            assert!(effects.persist_colors);
            assert!(!effects.persist_constants);
            assert_eq!(effects.output.len(), 0);
        }
        _ => panic!("color must be fully handled"),
    }
    assert_eq!(cli.colors.primary, "green");
    assert_eq!(cli.colors.secondary, "yellow");
}

#[test]
fn expression_is_evaluated_against_set_constants() {
    let mut cli = Cli::new();
    cli.finish_set("x".to_string(), "2".parse::<f64>().ok().map(f64::to_bits));

    let (expression, bindings) = match cli.execute_command(&args(&["x + 3"])) {
        Step::Eval(expression, bindings) => (expression, bindings),
        _ => panic!("an expression must request evaluation"),
    };
    assert_eq!(expression, "x + 3");
    assert_eq!(bindings, vec![("x".to_string(), 2.0f64.to_bits())]);

    // the evaluator collaborator, as the binary runs it
    let mut ctx = meval::Context::new();
    for (name, bits) in &bindings {
        ctx.var(name.clone(), f64::from_bits(*bits));
    }
    let value = meval::eval_str_with_context(&expression, &ctx).unwrap();
    assert_eq!(value, 5.0);

    let effects = cli.evaluation_output(Ok(format!("{}", value)));
    assert_eq!(effects.output.len(), 2);
    assert_eq!(effects.output[0].color, Some("cyan".to_string()));
    assert_eq!(effects.output[0].text, "= 5");
    assert_eq!(effects.output[1].text, "\n");
}

#[test]
fn evaluation_failure_is_reported_in_failure_color() {
    let cli = Cli::new();
    let effects = cli.evaluation_output(Err("Evaluation error: unknown variable `y`.".to_string()));
    assert_eq!(effects.output.len(), 2);
    assert_eq!(effects.output[0].color, Some("red".to_string()));
    assert_eq!(
        effects.output[0].text,
        "Evaluation error: unknown variable `y`."
    );
}

#[test]
fn builtin_constants_resolve_without_any_set() {
    let mut cli = Cli::new();
    let (expression, bindings) = match cli.execute_command(&args(&["pi"])) {
        Step::Eval(expression, bindings) => (expression, bindings),
        _ => panic!("an expression must request evaluation"),
    };
    assert_eq!(bindings.len(), 0);
    let mut ctx = meval::Context::new();
    for (name, bits) in &bindings {
        ctx.var(name.clone(), f64::from_bits(*bits));
    }
    let value = meval::eval_str_with_context(&expression, &ctx).unwrap();
    assert_eq!(value, std::f64::consts::PI);
}

#[test]
fn shell_end_of_input_stops_the_loop() {
    let mut cli = Cli::new();
    let turn = cli.shell_step(ReadEvent::EndOfInput);
    assert!(matches!(turn.control, Control::Stop));
    assert!(turn.add_history.is_none());
    assert!(turn.dispatch.is_none());
    assert_eq!(turn.output.len(), 0);
}

#[test]
fn shell_line_goes_to_history_and_dispatch() {
    let mut cli = Cli::new();
    let turn = cli.shell_step(ReadEvent::Line("help".to_string()));
    assert!(matches!(turn.control, Control::Continue));
    assert_eq!(turn.add_history, Some("help".to_string()));
    assert!(matches!(turn.dispatch, Some(Step::Done(_))));
}

#[test]
fn shell_blank_line_dispatches_nothing() {
    let mut cli = Cli::new();
    let turn = cli.shell_step(ReadEvent::Line("   ".to_string()));
    assert!(matches!(turn.control, Control::Continue));
    assert_eq!(turn.add_history, Some("   ".to_string()));
    assert!(turn.dispatch.is_none());
}

#[test]
fn shell_short_set_line_reports_usage_and_continues() {
    let mut cli = Cli::new();
    let turn = cli.shell_step(ReadEvent::Line("set x".to_string()));
    assert!(matches!(turn.control, Control::Continue));
    match turn.dispatch {
        Some(Step::Done(effects)) => {
            assert!(!effects.persist_constants);
            assert_eq!(effects.output[0].text, "Usage: set <name> <value>");
            assert_eq!(effects.output[0].color, Some("red".to_string()));
        }
        _ => panic!("a short set line must be fully handled"),
    }
    assert_eq!(cli.context.get_constants().len(), 0);
}

#[test]
fn shell_editor_failure_is_reported_and_stops() {
    let mut cli = Cli::new();
    let turn = cli.shell_step(ReadEvent::Failure("WindowResized".to_string()));
    assert!(matches!(turn.control, Control::Stop));
    assert_eq!(turn.output.len(), 2);
    assert_eq!(turn.output[0].color, Some("red".to_string()));
    assert_eq!(turn.output[0].text, "Unexpected error: WindowResized");
}

#[test]
fn shell_expression_line_keeps_spaces_through_dispatch() {
    let mut cli = Cli::new();
    let turn = cli.shell_step(ReadEvent::Line("sqrt( 9 ) + 1".to_string()));
    match turn.dispatch {
        Some(Step::Eval(expression, _)) => assert_eq!(expression, "sqrt( 9 ) + 1"),
        _ => panic!("a non-command line must request evaluation"),
    }
    let value = meval::eval_str_with_context("sqrt( 9 ) + 1", &meval::Context::new()).unwrap();
    assert_eq!(value, 4.0);
}
