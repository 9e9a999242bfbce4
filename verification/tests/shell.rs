use rust_cli::command::Action;
use rust_cli::command::ArityClass;
use rust_cli::command::CmdArgs;
use rust_cli::command::DispatchError;
use rust_cli::command::Op;
use rust_cli::command::classify_action;
use rust_cli::command::has_same_arg_len;
use rust_cli::parse::ParseError;
use rust_cli::parse::parse_line;
use rust_cli::text::lowercase_ascii;
use rust_cli::text::str_eq;
use rust_cli::tokenize::tokenize;

#[test]
fn tokenize_splits_on_whitespace_runs() {
    let toks = tokenize("  new \t foo.txt \r\n");
    assert_eq!(toks, vec!["new".to_string(), "foo.txt".to_string()]);
}

#[test]
fn tokenize_empty_and_blank_lines() {
    assert_eq!(tokenize(""), Vec::<String>::new());
    assert_eq!(tokenize(" \t \n"), Vec::<String>::new());
}

#[test]
fn lowercase_maps_ascii_letters_only() {
    assert_eq!(lowercase_ascii("HeLp"), "help");
    assert_eq!(lowercase_ascii("del FOO.txt 123"), "del foo.txt 123");
}

#[test]
fn str_eq_compares_characters() {
    assert!(str_eq("open", "open"));
    assert!(!str_eq("open", "Open"));
    assert!(!str_eq("open", "opens"));
}

#[test]
fn classify_recognizes_whole_whitelist() {
    for (tok, action) in [
        ("h", Action::Help),
        ("help", Action::Help),
        ("o", Action::Open),
        ("open", Action::Open),
        ("w", Action::Write),
        ("write", Action::Write),
        ("wo", Action::WriteOver),
        ("writeover", Action::WriteOver),
        ("cls", Action::Clear),
        ("clear", Action::Clear),
        ("del", Action::Delete),
        ("delete", Action::Delete),
        ("new", Action::Create),
        ("create", Action::Create),
        ("close", Action::Exit),
        ("exit", Action::Exit),
        ("ren", Action::Rename),
        ("rename", Action::Rename),
    ] {
        assert_eq!(classify_action(tok), Some(action));
        assert_eq!(classify_action(&tok.to_uppercase()), Some(action));
    }
    assert_eq!(classify_action("zzz"), None);
    assert_eq!(classify_action(""), None);
}

#[test]
fn niladic_one_token_dispatches() {
    for line in ["h", "help", "cls", "clear", "close", "exit"] {
        let cmd = parse_line(line).unwrap();
        assert!(cmd.dispatch().is_ok());
        assert_eq!(cmd.filename.as_str(), "none");
    }
}

#[test]
fn niladic_extra_tokens_are_arity_errors() {
    assert_eq!(parse_line("help me"), Err(ParseError::Arity(ArityClass::Niladic)));
    assert_eq!(parse_line("cls now please"), Err(ParseError::Arity(ArityClass::Niladic)));
    assert_eq!(parse_line("exit 0"), Err(ParseError::Arity(ArityClass::Niladic)));
}

#[test]
fn dyadic_two_tokens_take_second_as_filename() {
    let cmd = parse_line("open foo.txt").unwrap();
    assert_eq!(cmd.action.as_str(), "open");
    assert_eq!(cmd.filename.as_str(), "foo.txt");
    assert_eq!(cmd.dispatch(), Ok(Op::Open));

    let cmd = parse_line("new bar.txt").unwrap();
    assert_eq!(cmd.filename.as_str(), "bar.txt");
    assert_eq!(cmd.dispatch(), Ok(Op::Create));

    let cmd = parse_line("del bar.txt").unwrap();
    assert_eq!(cmd.filename.as_str(), "bar.txt");
    assert_eq!(cmd.dispatch(), Ok(Op::Delete));
}

#[test]
fn dyadic_wrong_counts_are_arity_errors() {
    assert_eq!(parse_line("open"), Err(ParseError::Arity(ArityClass::Dyadic)));
    assert_eq!(parse_line("del a b"), Err(ParseError::Arity(ArityClass::Dyadic)));
    assert_eq!(parse_line("new a b c"), Err(ParseError::Arity(ArityClass::Dyadic)));
}

#[test]
fn write_joins_payload_with_trailing_spaces() {
    let cmd = parse_line("w file.txt hello world").unwrap();
    assert_eq!(cmd.action.as_str(), "w");
    assert_eq!(cmd.filename.as_str(), "file.txt");
    assert_eq!(cmd.extra_args, vec!["hello ".to_string(), "world ".to_string()]);
    assert_eq!(cmd.write_data(), "hello world ");
    assert_eq!(cmd.dispatch(), Ok(Op::Write));
}

#[test]
fn write_with_no_payload_writes_nothing() {
    let cmd = parse_line("write file.txt").unwrap();
    assert_eq!(cmd.extra_args, Vec::<String>::new());
    assert_eq!(cmd.write_data(), "");
}

#[test]
fn write_without_filename_is_an_arity_error() {
    assert_eq!(parse_line("w"), Err(ParseError::Arity(ArityClass::Variadic)));
    assert_eq!(parse_line("writeover"), Err(ParseError::Arity(ArityClass::Variadic)));
}

#[test]
fn round_trip_payload_is_exact() {
    let create = parse_line("create foo.txt").unwrap();
    assert_eq!(create.dispatch(), Ok(Op::Create));
    let write = parse_line("write foo.txt A B C").unwrap();
    assert_eq!(write.filename.as_str(), "foo.txt");
    assert_eq!(write.write_data(), "A B C ");
}

#[test]
fn unknown_action_is_rejected() {
    assert_eq!(parse_line("zzz"), Err(ParseError::InvalidAction));
    assert_eq!(parse_line("zzz foo.txt"), Err(ParseError::InvalidAction));
    assert_eq!(parse_line("helpp"), Err(ParseError::InvalidAction));
}

#[test]
fn empty_line_is_rejected() {
    assert_eq!(parse_line(""), Err(ParseError::EmptyInput));
    assert_eq!(parse_line("   \t  "), Err(ParseError::EmptyInput));
}

#[test]
fn create_then_delete_dispatch_to_distinct_operations() {
    let create = parse_line("create same.txt").unwrap();
    let delete = parse_line("delete same.txt").unwrap();
    assert_eq!(create.dispatch(), Ok(Op::Create));
    assert_eq!(delete.dispatch(), Ok(Op::Delete));
    assert_eq!(create.filename, delete.filename);
}

#[test]
fn exit_always_dispatches_to_exit() {
    assert_eq!(parse_line("exit").unwrap().dispatch(), Ok(Op::Exit));
    assert_eq!(parse_line("close").unwrap().dispatch(), Ok(Op::Exit));
    assert_eq!(parse_line("EXIT").unwrap().dispatch(), Ok(Op::Exit));
}

#[test]
fn actions_are_case_insensitive_and_stored_lowered() {
    let cmd = parse_line("HELP").unwrap();
    assert_eq!(cmd.action.as_str(), "help");
    assert_eq!(cmd.dispatch(), Ok(Op::Help));
    let cmd = parse_line("W F.TXT x").unwrap();
    assert_eq!(cmd.action.as_str(), "w");
    assert_eq!(cmd.filename.as_str(), "F.TXT");
}

#[test]
fn writeover_is_a_distinct_unimplemented_signal() {
    let cmd = parse_line("wo f.txt data").unwrap();
    assert_eq!(cmd.dispatch(), Err(DispatchError::Unimplemented));
}

#[test]
fn rename_is_whitelisted_but_routes_nowhere() {
    let cmd = parse_line("ren f.txt").unwrap();
    assert_eq!(cmd.dispatch(), Err(DispatchError::InvalidAction));
}

#[test]
fn cmd_args_new_keeps_its_parts() {
    let extra = vec!["a ".to_string(), "b ".to_string()];
    let cmd = CmdArgs::new("w", "f.txt", &extra);
    assert_eq!(cmd.action.as_str(), "w");
    assert_eq!(cmd.filename.as_str(), "f.txt");
    assert_eq!(cmd.extra_args, extra);
    assert_eq!(cmd.write_data(), "a b ");
}

#[test]
fn check_arg_is_valid_follows_the_whitelist() {
    let none: Vec<String> = Vec::new();
    assert!(CmdArgs::new("OPEN", "none", &none).check_arg_is_valid());
    assert!(CmdArgs::new("ren", "none", &none).check_arg_is_valid());
    assert!(!CmdArgs::new("zzz", "none", &none).check_arg_is_valid());
    assert!(!CmdArgs::new("", "none", &none).check_arg_is_valid());
}

#[test]
fn has_same_arg_len_checks_list_and_count() {
    let singles = vec!["h", "help", "close", "exit", "cls", "clear"];
    let one = vec!["help"];
    let two = vec!["HELP", "me"];
    assert_eq!(has_same_arg_len(&one, &singles, 1), Some(()));
    assert_eq!(has_same_arg_len(&two, &singles, 1), None);
    assert_eq!(has_same_arg_len(&two, &singles, 2), Some(()));
    let other = vec!["open", "f.txt"];
    assert_eq!(has_same_arg_len(&other, &singles, 2), None);
}
