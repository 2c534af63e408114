use nvim_dispatch::coerce::{CoercionError, DispatchError};
use nvim_dispatch::font::FontFeatures;
use nvim_dispatch::gui::{
    call_gui_event, call_gui_request, clipboard_reply, error_reply, unknown_option, GuiApi,
    GuiRequest, Selection, UiOption,
};
use nvim_dispatch::value::{Value, ValueTag};

/// A GUI that writes down each command it carries out.
struct Desk {
    log: Vec<String>,
    session: bool,
}

impl Desk {
    fn new(session: bool) -> Self {
        Desk { log: Vec::new(), session }
    }
}

impl GuiApi for Desk {
    fn set_font(&mut self, font_desc: &str) {
        self.log.push(format!("font {}", font_desc));
    }

    fn clipboard_primary_set(&mut self, text: &str) {
        self.log.push(format!("primary {}", text));
    }

    fn clipboard_clipboard_set(&mut self, text: &str) {
        self.log.push(format!("clipboard {}", text));
    }

    fn has_session(&self) -> bool {
        self.session
    }

    fn set_option(&mut self, option: UiOption) {
        assert!(self.session);
        self.log.push(format!("option {:?}", option));
    }
}

fn s(text: &str) -> Value {
    Value::text(text)
}

fn run(session: bool, method: &str, args: Vec<Value>) -> (Result<(), DispatchError>, Vec<String>) {
    let mut ui = Desk::new(session);
    let outcome = call_gui_event(&mut ui, method, &args);
    (outcome, ui.log)
}

#[test]
fn unknown_commands_are_unsupported() {
    assert_eq!(run(true, "Bogus", vec![]), (Err(DispatchError::UnsupportedEvent), vec![]));
    assert_eq!(run(true, "font", vec![s("Mono 12")]), (Err(DispatchError::UnsupportedEvent), vec![]));
    assert_eq!(run(false, "", vec![]), (Err(DispatchError::UnsupportedEvent), vec![]));
    assert_eq!(run(true, "cursor_goto", vec![]), (Err(DispatchError::UnsupportedEvent), vec![]));
}

#[test]
fn font_command_sets_the_font() {
    assert_eq!(run(false, "Font", vec![s("Mono 12")]), (Ok(()), vec!["font Mono 12".to_string()]));
    assert_eq!(
        run(false, "Font", vec![]),
        (Err(DispatchError::MissingArgument { index: 0, method: "Font" }), vec![])
    );
    assert_eq!(
        run(false, "Font", vec![Value::UInt64(12)]),
        (Err(DispatchError::Coercion { index: 0, error: CoercionError::InvalidText }), vec![])
    );
}

#[test]
fn clipboard_set_goes_to_the_named_selection() {
    assert_eq!(
        run(false, "Clipboard", vec![s("Set"), s("*"), s("text")]),
        (Ok(()), vec!["primary text".to_string()])
    );
    assert_eq!(
        run(false, "Clipboard", vec![s("Set"), s("+"), s("text")]),
        (Ok(()), vec!["clipboard text".to_string()])
    );
    assert_eq!(
        run(false, "Clipboard", vec![s("Set"), s("**"), s("")]),
        (Ok(()), vec!["clipboard ".to_string()])
    );
    assert_eq!(run(false, "Clipboard", vec![s("Clear")]), (Ok(()), vec![]));
    assert_eq!(
        run(false, "Clipboard", vec![]),
        (Err(DispatchError::MissingArgument { index: 0, method: "Clipboard" }), vec![])
    );
    assert_eq!(
        run(false, "Clipboard", vec![s("Set"), s("*")]),
        (Err(DispatchError::MissingArgument { index: 2, method: "Clipboard" }), vec![])
    );
    assert_eq!(
        run(false, "Clipboard", vec![s("Set"), Value::Nil, s("t")]),
        (Err(DispatchError::Coercion { index: 1, error: CoercionError::InvalidText }), vec![])
    );
    assert_eq!(
        run(false, "Clipboard", vec![s("Set"), s("*"), Value::Nil]),
        (Err(DispatchError::Coercion { index: 2, error: CoercionError::InvalidText }), vec![])
    );
}

#[test]
fn options_are_set_through_the_session() {
    assert_eq!(
        run(true, "Option", vec![s("Popupmenu"), Value::UInt64(1)]),
        (Ok(()), vec!["option ExtPopupmenu(true)".to_string()])
    );
    assert_eq!(
        run(true, "Option", vec![s("Tabline"), Value::UInt64(0)]),
        (Ok(()), vec!["option ExtTabline(false)".to_string()])
    );
    assert_eq!(
        run(true, "Option", vec![s("Cmdline"), Value::Int64(2)]),
        (Ok(()), vec!["option ExtCmdline(false)".to_string()])
    );
    assert_eq!(run(true, "Option", vec![s("Wildmenu"), Value::UInt64(1)]), (Ok(()), vec![]));
    assert_eq!(run(false, "Option", vec![s("Wildmenu"), Value::UInt64(1)]), (Ok(()), vec![]));
}

#[test]
fn options_without_a_session_are_an_error() {
    assert_eq!(
        run(false, "Option", vec![s("Popupmenu"), Value::UInt64(1)]),
        (Err(DispatchError::NoSession), vec![])
    );
    assert_eq!(run(false, "Option", vec![s("Tabline")]), (Err(DispatchError::NoSession), vec![]));
    assert_eq!(
        run(true, "Option", vec![s("Tabline")]),
        (Err(DispatchError::MissingArgument { index: 1, method: "Option" }), vec![])
    );
    assert_eq!(
        run(true, "Option", vec![s("Cmdline"), s("1")]),
        (
            Err(DispatchError::Coercion {
                index: 1,
                error: CoercionError::TypeMismatch {
                    expected: ValueTag::UInt64,
                    actual: ValueTag::String
                },
            }),
            vec![]
        )
    );
    assert_eq!(
        run(true, "Option", vec![]),
        (Err(DispatchError::MissingArgument { index: 0, method: "Option" }), vec![])
    );
}

#[test]
fn clipboard_get_names_the_selection() {
    assert_eq!(
        call_gui_request("Clipboard", &vec![s("Get"), s("*")]),
        Ok(GuiRequest::ClipboardGet(Selection::Primary))
    );
    assert_eq!(
        call_gui_request("Clipboard", &vec![s("Get"), s("+")]),
        Ok(GuiRequest::ClipboardGet(Selection::Clipboard))
    );
    assert_eq!(call_gui_request("Clipboard", &vec![s("Put"), s("*")]), Err(DispatchError::UnknownOption));
    assert_eq!(call_gui_request("Bogus", &vec![s("Get"), s("*")]), Err(DispatchError::UnsupportedEvent));
    assert_eq!(
        call_gui_request("Clipboard", &vec![s("Get")]),
        Err(DispatchError::MissingArgument { index: 1, method: "Clipboard" })
    );
    assert_eq!(
        call_gui_request("Clipboard", &vec![]),
        Err(DispatchError::MissingArgument { index: 0, method: "Clipboard" })
    );
    assert_eq!(
        call_gui_request("Clipboard", &vec![s("Get"), Value::Nil]),
        Err(DispatchError::Coercion { index: 1, error: CoercionError::InvalidText })
    );
}

#[test]
fn clipboard_reply_is_the_lines_of_the_text() {
    assert_eq!(clipboard_reply(None), Value::Array(vec![s("")]));
    assert_eq!(clipboard_reply(Some("".to_string())), Value::Array(vec![s("")]));
    assert_eq!(clipboard_reply(Some("a\nb".to_string())), Value::Array(vec![s("a"), s("b")]));
    assert_eq!(clipboard_reply(Some("a\n".to_string())), Value::Array(vec![s("a"), s("")]));
    assert_eq!(clipboard_reply(Some("one line".to_string())), Value::Array(vec![s("one line")]));
}

#[test]
fn error_reply_is_nil_or_a_message() {
    assert_eq!(error_reply(DispatchError::UnknownOption), Value::Nil);
    assert_eq!(error_reply(DispatchError::UnsupportedEvent), s("Unsupported request"));
    assert_eq!(
        error_reply(DispatchError::MissingArgument { index: 1, method: "Clipboard" }),
        s("Missing argument")
    );
    assert_eq!(
        error_reply(DispatchError::Coercion { index: 1, error: CoercionError::InvalidText }),
        s("Can't convert argument")
    );
    assert_eq!(error_reply(DispatchError::NoSession), s("Nvim not initialized"));
}

#[test]
fn font_features_are_none_for_a_blank_text() {
    assert_eq!(FontFeatures::new().features(), None);
    assert_eq!(FontFeatures::from("".to_string()).features(), None);
    assert_eq!(FontFeatures::from("  \t\n".to_string()).features(), None);
    assert_eq!(FontFeatures::from("\u{a0}\u{2003}\u{3000}".to_string()).features(), None);
    assert_eq!(FontFeatures::from("liga".to_string()).features(), Some("liga"));
    assert_eq!(FontFeatures::from(" liga, zero ".to_string()).features(), Some(" liga, zero "));
    assert_eq!(FontFeatures::from("\u{200b}".to_string()).features(), Some("\u{200b}"));
    assert_eq!(FontFeatures::from(" ".to_string()), FontFeatures::new());
}

#[test]
fn unknown_options_are_told_apart_from_commands_carried_out() {
    assert!(unknown_option("Clipboard", &vec![s("Clear")]));
    assert!(unknown_option("Clipboard", &vec![s("set"), s("*"), s("t")]));
    assert!(!unknown_option("Clipboard", &vec![s("Set"), s("*"), s("t")]));
    assert!(!unknown_option("Clipboard", &vec![s("Set")]));
    assert!(!unknown_option("Clipboard", &vec![]));
    assert!(!unknown_option("Clipboard", &vec![Value::Nil]));
    assert!(unknown_option("Option", &vec![s("Wildmenu"), Value::UInt64(1)]));
    assert!(unknown_option("Option", &vec![s("")]));
    assert!(!unknown_option("Option", &vec![s("Popupmenu"), Value::UInt64(1)]));
    assert!(!unknown_option("Option", &vec![s("Tabline")]));
    assert!(!unknown_option("Option", &vec![s("Cmdline"), s("x")]));
    assert!(!unknown_option("Option", &vec![]));
    assert!(!unknown_option("Font", &vec![s("Mono 12")]));
    assert!(!unknown_option("Bogus", &vec![s("Clear")]));
    for (method, args) in vec![
        ("Clipboard", vec![s("Clear")]),
        ("Option", vec![s("Wildmenu"), Value::UInt64(1)]),
    ] {
        assert!(unknown_option(method, &args));
        assert_eq!(run(true, method, args), (Ok(()), vec![]));
    }
}
