use download_orchestrator::event::{
    push_effect, touch_warning, Effect, ProcessEvent, Request, Timestamp, Turn,
};

#[test]
fn output_is_read_as_utf8() {
    assert_eq!(
        ProcessEvent::stdout("[download] 42% été\n".as_bytes()),
        ProcessEvent::StdoutLine("[download] 42% été\n".to_string())
    );
    assert_eq!(
        ProcessEvent::stderr("ERROR: 日本".as_bytes()),
        ProcessEvent::StderrLine("ERROR: 日本".to_string())
    );
    assert_eq!(ProcessEvent::stdout(&[]), ProcessEvent::StdoutLine(String::new()));
}

#[test]
fn bytes_that_are_no_utf8_are_replaced() {
    assert_eq!(
        ProcessEvent::stdout(&[b'a', 0xff, b'b']),
        ProcessEvent::StdoutLine("a\u{fffd}b".to_string())
    );
    assert_eq!(
        ProcessEvent::stderr(&[0xe2, 0x82]),
        ProcessEvent::StderrLine("\u{fffd}".to_string())
    );
    assert_eq!(
        ProcessEvent::stdout(&[0xc3, 0xa9, 0xc3]),
        ProcessEvent::StdoutLine("é\u{fffd}".to_string())
    );
}

#[test]
fn termination_carries_the_exit_code() {
    assert_eq!(ProcessEvent::terminated(Some(0)), ProcessEvent::Terminated(Some(0)));
    assert_eq!(ProcessEvent::terminated(Some(-9)), ProcessEvent::Terminated(Some(-9)));
    assert_eq!(ProcessEvent::terminated(None), ProcessEvent::Terminated(None));
}

#[test]
fn turns() {
    assert_eq!(Turn::quiet(Request::Next), Turn { effects: vec![], request: Request::Next });
    assert_eq!(
        Turn::reporting("line".to_string(), Request::Finish),
        Turn { effects: vec![Effect::Report("line".to_string())], request: Request::Finish }
    );
}

#[test]
fn effects_are_appended_at_the_end() {
    let mut effects = vec![Effect::Kill];
    push_effect(&mut effects, Effect::Touch("/d/f".to_string()));
    push_effect(&mut effects, Effect::Report("r".to_string()));
    assert_eq!(
        effects,
        vec![Effect::Kill, Effect::Touch("/d/f".to_string()), Effect::Report("r".to_string())]
    );
}

#[test]
fn touch_warnings() {
    assert_eq!(
        touch_warning(Timestamp::Modification, "Permission denied (os error 13)"),
        "Erreur lors de la mise à jour de la date de modification: Permission denied (os error 13)"
    );
    assert_eq!(
        touch_warning(Timestamp::Access, "x"),
        "Erreur lors de la mise à jour de la date d'accès: x"
    );
}
