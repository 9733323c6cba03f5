use limes::{
    format_input_method, parse_engine_desc_name, parse_engine_desc_names, resolve_args, Backend,
    Call, Command, Context, EngineDescError, EngineField, EngineValue, Error, InputMethod, Parsed,
    Reply, RimeMode, Session, Step, TopCommand,
};

fn text(s: &str) -> String {
    s.to_string()
}

fn method(unique_name: &str, name: &str) -> InputMethod {
    InputMethod {
        unique_name: text(unique_name),
        name: text(name),
        native_name: text("native"),
        icon: text("icon"),
        label: text("label"),
        language_code: text("en"),
        enabled: true,
    }
}

fn desc(fields: &[&str]) -> EngineValue {
    EngineValue::Structure(fields.iter().map(|f| EngineField::Text(text(f))).collect())
}

/// Runs a session, answering each call it asks for with the next reply.
fn drive(
    command: Command,
    backend: Option<Backend>,
    mode: Option<RimeMode>,
    replies: Vec<Reply>,
) -> (Vec<Call>, Step) {
    let (mut session, mut step) = Session::start(command, backend, mode);
    let mut calls = Vec::new();
    let mut replies = replies.into_iter();
    loop {
        match step {
            Step::Perform(call) => {
                let reply = replies.next().expect("the session asked for more calls than expected");
                assert!(call.accepts(&reply), "reply {reply:?} does not answer {call:?}");
                calls.push(call);
                step = session.resume(reply);
            }
            done => {
                assert!(session.is_over());
                assert!(replies.next().is_none(), "the session ended early");
                return (calls, done);
            }
        }
    }
}

fn finished_lines(step: Step) -> Vec<String> {
    match step {
        Step::Finished(lines) => lines,
        other => panic!("expected a finished session, got {other:?}"),
    }
}

fn failed_error(step: Step) -> Error {
    match step {
        Step::Failed(e) => e,
        other => panic!("expected a failed session, got {other:?}"),
    }
}

#[test]
fn rime_mode_value_names_are_ascii_and_schema() {
    assert_eq!(RimeMode::Ascii, RimeMode::Ascii);
    assert_eq!(RimeMode::Schema, RimeMode::Schema);
    assert_ne!(RimeMode::Ascii, RimeMode::Schema);
}

#[test]
fn maps_available_input_method_tuple() {
    assert_eq!(
        InputMethod::from((
            "rime".to_string(),
            "Rime".to_string(),
            "中州韻".to_string(),
            "rime-icon".to_string(),
            "ㄓ".to_string(),
            "zh".to_string(),
            true,
        )),
        InputMethod {
            unique_name: "rime".to_string(),
            name: "Rime".to_string(),
            native_name: "中州韻".to_string(),
            icon: "rime-icon".to_string(),
            label: "ㄓ".to_string(),
            language_code: "zh".to_string(),
            enabled: true,
        },
    );
}

#[test]
fn formats_input_method_for_list_output() {
    let method = InputMethod {
        unique_name: "keyboard-us".to_string(),
        name: "Keyboard - English (US)".to_string(),
        native_name: "Keyboard US native name should not be printed".to_string(),
        icon: "keyboard-icon".to_string(),
        label: "EN".to_string(),
        language_code: "en".to_string(),
        enabled: true,
    };

    assert_eq!(
        format_input_method(&method),
        "keyboard-us\tKeyboard - English (US)",
    );
}

#[test]
fn parses_engine_name_from_engine_desc_variant() {
    let value = EngineValue::Variant(Box::new(desc(&["IBusEngineDesc", "metadata", "libpinyin"])));

    assert_eq!(parse_engine_desc_name(&value).unwrap(), "libpinyin");
}

#[test]
fn rejects_engine_desc_without_name_field() {
    let value = desc(&["IBusEngineDesc", "metadata"]);

    assert!(parse_engine_desc_name(&value).is_err());
}

#[test]
fn engine_desc_errors_name_their_cause() {
    assert_eq!(
        parse_engine_desc_name(&desc(&["IBusEngineDesc", "metadata"])),
        Err(EngineDescError::MissingName)
    );
    assert_eq!(parse_engine_desc_name(&EngineValue::Other), Err(EngineDescError::NotStruct));
    assert_eq!(
        parse_engine_desc_name(&EngineValue::Variant(Box::new(EngineValue::Other))),
        Err(EngineDescError::NotStruct)
    );
    let value = EngineValue::Structure(vec![
        EngineField::Text(text("IBusEngineDesc")),
        EngineField::Text(text("metadata")),
        EngineField::NotText(text("incorrect type")),
    ]);
    assert_eq!(
        parse_engine_desc_name(&value),
        Err(EngineDescError::NameNotString(text("incorrect type")))
    );
}

#[test]
fn engine_name_looks_through_nested_variants() {
    let inner = desc(&["IBusEngineDesc", "metadata", "xkb:us::eng", "more"]);
    let value = EngineValue::Variant(Box::new(EngineValue::Variant(Box::new(inner))));
    assert_eq!(parse_engine_desc_name(&value).unwrap(), "xkb:us::eng");
}

#[test]
fn engine_names_stop_at_first_error() {
    let values = vec![
        desc(&["d", "m", "libpinyin"]),
        EngineValue::Other,
        desc(&["d", "m"]),
    ];
    assert_eq!(parse_engine_desc_names(&values), Err(EngineDescError::NotStruct));
    let values = vec![desc(&["d", "m", "libpinyin"]), desc(&["d", "m", "xkb:us::eng"])];
    assert_eq!(
        parse_engine_desc_names(&values).unwrap(),
        vec![text("libpinyin"), text("xkb:us::eng")]
    );
    assert_eq!(parse_engine_desc_names(&Vec::new()).unwrap(), Vec::<String>::new());
}

#[test]
fn value_names_match_the_command_line() {
    assert_eq!(Backend::Fcitx5.value_name(), "fcitx5");
    assert_eq!(Backend::Fcitx5Rime.value_name(), "fcitx5-rime");
    assert_eq!(Backend::Ibus.value_name(), "ibus");
    assert_eq!(RimeMode::Ascii.value_name(), "ascii");
    assert_eq!(RimeMode::Schema.value_name(), "schema");
}

#[test]
fn no_words_resolve_to_get() {
    let parsed = resolve_args::<u8>(None, None, None, None);
    assert_eq!(parsed, Parsed::Run { command: Command::Get, backend: None, mode: None });
    let parsed = resolve_args::<u8>(None, None, Some(TopCommand::Get), None);
    assert_eq!(parsed, Parsed::Run { command: Command::Get, backend: None, mode: None });
}

#[test]
fn bare_name_resolves_to_set() {
    for name in ["keyboard-us", "rime"] {
        let parsed = resolve_args::<u8>(None, None, None, Some(text(name)));
        assert_eq!(
            parsed,
            Parsed::Run { command: Command::SetTo { name: text(name) }, backend: None, mode: None }
        );
    }
}

#[test]
fn subcommands_resolve_with_options() {
    let parsed = resolve_args::<u8>(
        Some(Backend::Fcitx5Rime),
        Some(RimeMode::Schema),
        Some(TopCommand::List),
        None,
    );
    assert_eq!(
        parsed,
        Parsed::Run {
            command: Command::List,
            backend: Some(Backend::Fcitx5Rime),
            mode: Some(RimeMode::Schema)
        }
    );
    let parsed = resolve_args::<u8>(Some(Backend::Ibus), Some(RimeMode::Ascii), Some(TopCommand::Toggle), None);
    assert_eq!(
        parsed,
        Parsed::Run { command: Command::Toggle, backend: Some(Backend::Ibus), mode: Some(RimeMode::Ascii) }
    );
    let parsed = resolve_args::<u8>(None, None, Some(TopCommand::SetTo { name: text("rime") }), None);
    assert_eq!(
        parsed,
        Parsed::Run { command: Command::SetTo { name: text("rime") }, backend: None, mode: None }
    );
}

#[test]
fn completion_resolves_whatever_the_options() {
    let parsed = resolve_args(
        Some(Backend::Fcitx5Rime),
        Some(RimeMode::Ascii),
        Some(TopCommand::Completion { shell: "bash" }),
        None,
    );
    assert_eq!(parsed, Parsed::Completion("bash"));
}

#[test]
fn default_backend_is_fcitx5() {
    let (calls, step) = drive(
        Command::Get,
        None,
        None,
        vec![Reply::Done, Reply::Done, Reply::Text(text("keyboard-us"))],
    );
    assert_eq!(
        calls,
        vec![Call::ConnectSessionBus, Call::OpenFcitx5Proxy, Call::Fcitx5CurrentInputMethod]
    );
    assert_eq!(finished_lines(step), vec![text("keyboard-us")]);
}

#[test]
fn mode_is_refused_without_rime() {
    for backend in [None, Some(Backend::Fcitx5), Some(Backend::Ibus)] {
        for mode in [RimeMode::Ascii, RimeMode::Schema] {
            let (calls, step) = drive(Command::List, backend, Some(mode), vec![]);
            assert!(calls.is_empty());
            let error = failed_error(step);
            assert_eq!(error, Error::ModeNeedsRime);
            assert_eq!(error.message(), "--mode is only supported with --backend fcitx5-rime");
        }
    }
}

#[test]
fn ibus_toggle_is_refused_without_dbus() {
    let (calls, step) = drive(Command::Toggle, Some(Backend::Ibus), None, vec![]);
    assert!(calls.is_empty());
    let error = failed_error(step);
    assert_eq!(error, Error::IbusToggleUnsupported);
    assert_eq!(error.message(), "IBus backend does not support toggle");
}

#[test]
fn fcitx5_commands_call_the_controller() {
    let (calls, step) = drive(
        Command::SetTo { name: text("rime") },
        Some(Backend::Fcitx5),
        None,
        vec![Reply::Done, Reply::Done, Reply::Done],
    );
    assert_eq!(calls[2], Call::Fcitx5SetCurrentIm(text("rime")));
    assert!(finished_lines(step).is_empty());

    let (calls, step) = drive(Command::Toggle, None, None, vec![Reply::Done, Reply::Done, Reply::Done]);
    assert_eq!(calls[2], Call::Fcitx5Toggle);
    assert!(finished_lines(step).is_empty());

    let methods = vec![method("keyboard-us", "Keyboard - English (US)"), method("rime", "Rime")];
    let (calls, step) =
        drive(Command::List, None, None, vec![Reply::Done, Reply::Done, Reply::Methods(methods)]);
    assert_eq!(calls[2], Call::Fcitx5AvailableInputMethods);
    assert_eq!(
        finished_lines(step),
        vec![text("keyboard-us\tKeyboard - English (US)"), text("rime\tRime")]
    );
}

#[test]
fn rime_ascii_get_prints_state() {
    for (on, shown) in [(true, "true"), (false, "false")] {
        let (calls, step) = drive(
            Command::Get,
            Some(Backend::Fcitx5Rime),
            None,
            vec![Reply::Done, Reply::Done, Reply::Flag(on)],
        );
        assert_eq!(
            calls,
            vec![Call::ConnectSessionBus, Call::OpenRimeProxy, Call::RimeIsAsciiMode]
        );
        assert_eq!(finished_lines(step), vec![text(shown)]);
    }
}

#[test]
fn rime_ascii_set_takes_true_or_false() {
    for (name, on) in [("true", true), ("false", false)] {
        let (calls, step) = drive(
            Command::SetTo { name: text(name) },
            Some(Backend::Fcitx5Rime),
            Some(RimeMode::Ascii),
            vec![Reply::Done, Reply::Done, Reply::Done],
        );
        assert_eq!(calls[2], Call::RimeSetAsciiMode(on));
        assert!(finished_lines(step).is_empty());
    }
    let (calls, step) = drive(
        Command::SetTo { name: text("yes") },
        Some(Backend::Fcitx5Rime),
        None,
        vec![Reply::Done, Reply::Done],
    );
    assert_eq!(calls, vec![Call::ConnectSessionBus, Call::OpenRimeProxy]);
    let error = failed_error(step);
    assert_eq!(error, Error::InvalidAsciiState(text("yes")));
    assert_eq!(error.message(), "invalid ascii state 'yes', expected 'true' or 'false'");
}

#[test]
fn rime_ascii_toggle_writes_negation() {
    for on in [true, false] {
        let (calls, step) = drive(
            Command::Toggle,
            Some(Backend::Fcitx5Rime),
            None,
            vec![Reply::Done, Reply::Done, Reply::Flag(on), Reply::Done],
        );
        assert_eq!(
            calls,
            vec![
                Call::ConnectSessionBus,
                Call::OpenRimeProxy,
                Call::RimeIsAsciiMode,
                Call::RimeSetAsciiMode(!on)
            ]
        );
        assert!(finished_lines(step).is_empty());
    }
}

#[test]
fn rime_toggle_write_failure_is_reported_as_toggle() {
    let (_, step) = drive(
        Command::Toggle,
        Some(Backend::Fcitx5Rime),
        None,
        vec![Reply::Done, Reply::Done, Reply::Flag(true), Reply::Failed(text("denied"))],
    );
    let error = failed_error(step);
    assert_eq!(
        error,
        Error::Service { context: Context::RimeToggleAscii, detail: text("denied") }
    );
    assert_eq!(error.message(), "could not toggle rime ascii mode: denied");
}

#[test]
fn rime_ascii_list_is_refused_after_connecting() {
    let (calls, step) = drive(Command::List, Some(Backend::Fcitx5Rime), None, vec![Reply::Done]);
    assert_eq!(calls, vec![Call::ConnectSessionBus]);
    let error = failed_error(step);
    assert_eq!(error, Error::AsciiListUnsupported);
    assert_eq!(error.message(), "list is not supported in ascii mode; use `--mode schema`");
}

#[test]
fn rime_schema_toggle_is_refused_after_opening() {
    let (calls, step) = drive(
        Command::Toggle,
        Some(Backend::Fcitx5Rime),
        Some(RimeMode::Schema),
        vec![Reply::Done, Reply::Done],
    );
    assert_eq!(calls, vec![Call::ConnectSessionBus, Call::OpenRimeProxy]);
    let error = failed_error(step);
    assert_eq!(error, Error::SchemaToggleUnsupported);
    assert_eq!(
        error.message(),
        "toggle is not supported for rime schemas; use `set <schema>`"
    );
}

#[test]
fn rime_schema_commands() {
    let schemas = vec![text("luna_pinyin"), text("double_pinyin")];
    let (calls, step) = drive(
        Command::List,
        Some(Backend::Fcitx5Rime),
        Some(RimeMode::Schema),
        vec![Reply::Done, Reply::Done, Reply::Texts(schemas.clone())],
    );
    assert_eq!(calls[2], Call::RimeListAllSchemas);
    assert_eq!(finished_lines(step), schemas);

    let (calls, step) = drive(
        Command::Get,
        Some(Backend::Fcitx5Rime),
        Some(RimeMode::Schema),
        vec![Reply::Done, Reply::Done, Reply::Text(text("luna_pinyin"))],
    );
    assert_eq!(calls[2], Call::RimeCurrentSchema);
    assert_eq!(finished_lines(step), vec![text("luna_pinyin")]);

    let (calls, step) = drive(
        Command::SetTo { name: text("luna_pinyin") },
        Some(Backend::Fcitx5Rime),
        Some(RimeMode::Schema),
        vec![Reply::Done, Reply::Done, Reply::Failed(text("no such schema"))],
    );
    assert_eq!(calls[2], Call::RimeSetSchema(text("luna_pinyin")));
    assert_eq!(
        failed_error(step).message(),
        "could not set rime schema to 'luna_pinyin': no such schema"
    );
}

#[test]
fn ibus_get_reads_engine_name() {
    let value = EngineValue::Variant(Box::new(desc(&["IBusEngineDesc", "metadata", "libpinyin"])));
    let (calls, step) = drive(
        Command::Get,
        Some(Backend::Ibus),
        None,
        vec![Reply::Done, Reply::Done, Reply::Done, Reply::Engine(value)],
    );
    assert_eq!(
        calls,
        vec![
            Call::ResolveIbusAddress,
            Call::ConnectIbus,
            Call::OpenIbusProxy,
            Call::IbusGetGlobalEngine
        ]
    );
    assert_eq!(finished_lines(step), vec![text("libpinyin")]);
}

#[test]
fn ibus_list_fails_on_a_bad_description() {
    let values = vec![desc(&["d", "m", "libpinyin"]), desc(&["d", "m"])];
    let (_, step) = drive(
        Command::List,
        Some(Backend::Ibus),
        None,
        vec![Reply::Done, Reply::Done, Reply::Done, Reply::Engines(values)],
    );
    let error = failed_error(step);
    assert_eq!(error, Error::EngineDesc(EngineDescError::MissingName));
    assert_eq!(error.message(), "IBus engine description is missing engine id field");

    let values = vec![desc(&["d", "m", "libpinyin"]), desc(&["d", "m", "xkb:us::eng"])];
    let (_, step) = drive(
        Command::List,
        Some(Backend::Ibus),
        None,
        vec![Reply::Done, Reply::Done, Reply::Done, Reply::Engines(values)],
    );
    assert_eq!(finished_lines(step), vec![text("libpinyin"), text("xkb:us::eng")]);
}

#[test]
fn ibus_set_switches_engine() {
    let (calls, step) = drive(
        Command::SetTo { name: text("xkb:us::eng") },
        Some(Backend::Ibus),
        None,
        vec![Reply::Done, Reply::Done, Reply::Done, Reply::Done],
    );
    assert_eq!(calls[3], Call::IbusSetGlobalEngine(text("xkb:us::eng")));
    assert!(finished_lines(step).is_empty());
}

#[test]
fn failed_steps_name_their_context() {
    let cases: Vec<(Command, Option<Backend>, Option<RimeMode>, usize, &str)> = vec![
        (Command::Get, None, None, 0, "could not connect to the D-Bus session bus: boom"),
        (Command::Get, None, None, 1, "could not connect to Fcitx5 on the session bus: boom"),
        (Command::Get, None, None, 2, "could not get current Fcitx5 input method: boom"),
        (
            Command::SetTo { name: text("rime") },
            None,
            None,
            2,
            "could not switch Fcitx5 input method to 'rime': boom",
        ),
        (Command::List, None, None, 2, "could not list Fcitx5 input methods: boom"),
        (Command::Toggle, None, None, 2, "could not toggle Fcitx5 input method: boom"),
        (
            Command::Get,
            Some(Backend::Fcitx5Rime),
            None,
            1,
            "could not connect to Fcitx5 Rime on the session bus: boom",
        ),
        (Command::Get, Some(Backend::Fcitx5Rime), None, 2, "could not read rime ascii mode: boom"),
        (Command::Toggle, Some(Backend::Fcitx5Rime), None, 2, "could not read rime ascii mode: boom"),
        (
            Command::SetTo { name: text("true") },
            Some(Backend::Fcitx5Rime),
            None,
            2,
            "could not set rime ascii mode: boom",
        ),
        (
            Command::Get,
            Some(Backend::Fcitx5Rime),
            Some(RimeMode::Schema),
            2,
            "could not get current rime schema: boom",
        ),
        (
            Command::List,
            Some(Backend::Fcitx5Rime),
            Some(RimeMode::Schema),
            2,
            "could not list rime schemas: boom",
        ),
        (Command::Get, Some(Backend::Ibus), None, 0, "could not resolve IBus private D-Bus address: boom"),
        (
            Command::Get,
            Some(Backend::Ibus),
            None,
            1,
            "could not connect to IBus; is ibus-daemon running?: boom",
        ),
        (
            Command::Get,
            Some(Backend::Ibus),
            None,
            2,
            "could not connect to IBus on its private D-Bus address: boom",
        ),
        (Command::Get, Some(Backend::Ibus), None, 3, "could not get current IBus engine: boom"),
        (
            Command::SetTo { name: text("libpinyin") },
            Some(Backend::Ibus),
            None,
            3,
            "could not switch IBus global engine to 'libpinyin': boom",
        ),
        (Command::List, Some(Backend::Ibus), None, 3, "could not list IBus engines: boom"),
    ];
    for (command, backend, mode, successes, expected) in cases {
        let mut replies: Vec<Reply> = (0..successes).map(|_| Reply::Done).collect();
        replies.push(Reply::Failed(text("boom")));
        let (calls, step) = drive(command, backend, mode, replies);
        assert_eq!(calls.len(), successes + 1);
        assert_eq!(failed_error(step).message(), expected);
    }
}

#[test]
fn engine_desc_error_messages() {
    assert_eq!(
        Error::EngineDesc(EngineDescError::NotStruct).message(),
        "IBus engine description is not a struct"
    );
    assert_eq!(
        Error::EngineDesc(EngineDescError::NameNotString(text("incorrect type"))).message(),
        "IBus engine id field is not a string: incorrect type"
    );
}

#[test]
fn calls_accept_only_their_replies() {
    assert!(Call::RimeIsAsciiMode.accepts(&Reply::Flag(true)));
    assert!(!Call::RimeIsAsciiMode.accepts(&Reply::Done));
    assert!(Call::Fcitx5Toggle.accepts(&Reply::Done));
    assert!(!Call::Fcitx5Toggle.accepts(&Reply::Text(text("x"))));
    assert!(Call::IbusListEngines.accepts(&Reply::Failed(text("x"))));
    assert!(!Call::IbusListEngines.accepts(&Reply::Engine(EngineValue::Other)));
}

#[test]
fn rime_ascii_get_output_is_accepted_by_set() {
    for on in [true, false] {
        let (_, step) = drive(
            Command::Get,
            Some(Backend::Fcitx5Rime),
            None,
            vec![Reply::Done, Reply::Done, Reply::Flag(on)],
        );
        let shown = finished_lines(step).remove(0);
        let (calls, step) = drive(
            Command::SetTo { name: shown },
            Some(Backend::Fcitx5Rime),
            None,
            vec![Reply::Done, Reply::Done, Reply::Done],
        );
        assert_eq!(calls[2], Call::RimeSetAsciiMode(on));
        assert!(finished_lines(step).is_empty());
    }
}
