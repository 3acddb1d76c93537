use chess_notation::chess_command::{
    ArgType, CommandError, CommandParser, RegisteredCommand,
};

#[derive(Clone, Copy, Debug, PartialEq)]
enum TestCommand {
    Hello,
    Add,
    Say,
    Nop,
}

fn sample_parser() -> CommandParser<TestCommand> {
    let mut parser = CommandParser::new();
    parser.set_description(String::from("A test registry."));
    parser.register_cmd(
        RegisteredCommand::new(TestCommand::Hello)
            .add_aliases(&["hello", "hi"])
            .add_help_str("Greets.")
            .build()
            .unwrap(),
    );
    parser.register_cmd(
        RegisteredCommand::new(TestCommand::Add)
            .add_aliases(&["add2"])
            .add_num_args(2)
            .add_arg_type(ArgType::ArgType_u32)
            .add_help_str("Adds two numbers.")
            .build()
            .unwrap(),
    );
    parser.register_cmd(
        RegisteredCommand::new(TestCommand::Say)
            .add_aliases(&["say"])
            .add_num_args(1)
            .add_arg_type(ArgType::ArgType_String)
            .add_default_args_string(vec![String::from("nothing")])
            .add_help_str("Echoes a word.")
            .build()
            .unwrap(),
    );
    parser.register_cmd(
        RegisteredCommand::new(TestCommand::Nop)
            .add_aliases(&["nop"])
            .add_help_str("Does nothing.")
            .build()
            .unwrap(),
    );
    parser
}

#[test]
fn parses_plain_command() {
    let parser = sample_parser();
    let parsed = parser.parse_string(String::from("  hello  ")).unwrap();
    assert_eq!(*parsed.get_id(), TestCommand::Hello);
    assert!(parsed.get_arg_type().is_none());
    assert!(parsed.get_args_string().is_none());

    let parsed = parser.parse_string(String::from("hi")).unwrap();
    assert_eq!(*parsed.get_id(), TestCommand::Hello);
}

#[test]
fn parses_u32_arguments() {
    let parser = sample_parser();
    let parsed = parser.parse_string(String::from("add2 17 +25")).unwrap();
    assert_eq!(*parsed.get_id(), TestCommand::Add);
    assert_eq!(parsed.get_args_u32().unwrap(), &vec![17, 25]);

    let err = parser.parse_string(String::from("add2 17 x")).unwrap_err();
    assert_eq!(err, CommandError::InvalidArgumentType);

    let err = parser.parse_string(String::from("add2 17")).unwrap_err();
    assert_eq!(err, CommandError::IncorrectNumberOfArguments);
}

#[test]
fn parses_string_arguments_and_defaults() {
    let parser = sample_parser();
    let parsed = parser.parse_string(String::from("say word extra")).unwrap();
    assert_eq!(parsed.get_args_string().unwrap(), &vec![String::from("word")]);

    // no arguments given: the registered default applies
    let parsed = parser.parse_string(String::from("say")).unwrap();
    assert_eq!(parsed.get_args_string().unwrap(), &vec![String::from("nothing")]);
}

#[test]
fn rejects_unknown_and_empty() {
    let parser = sample_parser();
    assert_eq!(
        parser.parse_string(String::from("frobnicate")).unwrap_err(),
        CommandError::CommandNotFound
    );
    assert_eq!(
        parser.parse_string(String::from("   ")).unwrap_err(),
        CommandError::NoCommandRecieved
    );
    assert_eq!(
        parser.parse_string(String::new()).unwrap_err(),
        CommandError::NoCommandRecieved
    );
}

#[test]
fn help_text_lists_commands() {
    let parser = sample_parser();
    let help = parser.get_help_text();
    let expected = "A test registry.\n\n\
        Command aliases: [hello,hi]\nGreets.\n\n\n\
        Command aliases: [add2]\nNumber of arguments: 2\nArgument Type: u32\nAdds two numbers.\n\n\n\
        Command aliases: [say]\nNumber of arguments: 1\nArgument Type: String\nEchoes a word.\n\n\n\
        Command aliases: [nop]\nDoes nothing.\n\n\n";
    assert_eq!(help, expected);
}

#[test]
fn splits_on_unicode_whitespace() {
    let parser = sample_parser();
    let parsed = parser
        .parse_string(String::from("add2\u{a0}3\u{2003}4"))
        .unwrap();
    assert_eq!(*parsed.get_id(), TestCommand::Add);
    assert_eq!(parsed.get_args_u32().unwrap(), &vec![3, 4]);

    let err = parser.parse_string(String::from("\u{a0}\u{3000}")).unwrap_err();
    assert_eq!(err, CommandError::NoCommandRecieved);
}

#[test]
fn first_matching_registration_wins() {
    let mut parser = CommandParser::new();
    parser.register_cmds(vec![
        RegisteredCommand::new(TestCommand::Hello)
            .add_aliases(&["x"])
            .build()
            .unwrap(),
        RegisteredCommand::new(TestCommand::Nop)
            .add_aliases(&["x"])
            .build()
            .unwrap(),
    ]);
    let parsed = parser.parse_vec(vec![String::from("x")]).unwrap();
    assert_eq!(*parsed.get_id(), TestCommand::Hello);
}
