//! The dispatchers of the commands and requests that the editor sends to the GUI
//! beside the redraw calls.

use crate::coerce::{CoercionError, DispatchError};
use crate::text::{lines_of, split_lines, str_eq};
use crate::value::{lemma_array_view, TextView, Value, ValueTag, ValueView};
use vstd::prelude::*;

verus! {

/// An option of the editor's user interface, switched on or off.
#[derive(Clone, Copy, Debug, PartialEq, Eq, Structural)]
pub enum UiOption {
    ExtPopupmenu(bool),
    ExtTabline(bool),
    ExtCmdline(bool),
}

/// One of the two clipboards of the desktop.
#[derive(Clone, Copy, Debug, PartialEq, Eq, Structural)]
pub enum Selection {
    /// The primary selection, named `*`.
    Primary,
    /// The clipboard proper: every other name.
    Clipboard,
}

/// A command that the GUI carries out.
pub enum GuiCommand {
    Font { desc: Seq<char> },
    ClipboardSet { selection: Selection, text: Seq<char> },
    SetOption { option: UiOption },
}

/// A request that the GUI answers.
#[derive(Clone, Copy, Debug, PartialEq, Eq, Structural)]
pub enum GuiRequest {
    /// The text of a clipboard is asked for.
    ClipboardGet(Selection),
}

/// What the command dispatcher drives: the font, the clipboards, and the session with
/// the editor through which options are set.
///
/// `commanded` says how a command takes the GUI from one state to the next, and
/// `session_is` what the GUI answers when it is asked for its session; each operation
/// promises that much, and nothing more is asked of an implementation. An
/// implementation that says nothing of its steps leaves both as they are given here.
pub trait GuiApi: Sized {
    /// In the state `state`, the GUI answers `connected` when it is asked whether a
    /// session with the editor stands.
    open spec fn session_is(state: Self, connected: bool) -> bool {
        true
    }

    /// The GUI goes from `pre` to `post` by carrying out `command`.
    open spec fn commanded(pre: Self, command: GuiCommand, post: Self) -> bool {
        true
    }

    fn set_font(&mut self, font_desc: &str)
        ensures
            Self::commanded(*old(self), GuiCommand::Font { desc: font_desc@ }, *final(self)),
    ;

    fn clipboard_primary_set(&mut self, text: &str)
        ensures
            Self::commanded(
                *old(self),
                GuiCommand::ClipboardSet { selection: Selection::Primary, text: text@ },
                *final(self),
            ),
    ;

    fn clipboard_clipboard_set(&mut self, text: &str)
        ensures
            Self::commanded(
                *old(self),
                GuiCommand::ClipboardSet { selection: Selection::Clipboard, text: text@ },
                *final(self),
            ),
    ;

    /// Whether a session with the editor stands.
    fn has_session(&self) -> (connected: bool)
        ensures
            Self::session_is(*self, connected),
    ;

    /// Asks the editor to set an option. It is called only after the GUI has answered
    /// that a session stands.
    fn set_option(&mut self, option: UiOption)
        requires
            Self::session_is(*old(self), true),
        ensures
            Self::commanded(*old(self), GuiCommand::SetOption { option }, *final(self)),
    ;
}

/// The selection that a name stands for.
pub open spec fn selection_named(name: Seq<char>) -> Selection {
    if name == "*"@ {
        Selection::Primary
    } else {
        Selection::Clipboard
    }
}

/// The text of the argument at a position.
pub open spec fn text_arg(method: &'static str, args: Seq<ValueView>, at: int) -> Result<
    Seq<char>,
    DispatchError,
> {
    if at >= args.len() {
        Err(DispatchError::MissingArgument { index: args.len() as usize, method })
    } else {
        match args[at].as_text() {
            Some(s) => Ok(s),
            None => Err(
                DispatchError::Coercion { index: at as usize, error: CoercionError::InvalidText },
            ),
        }
    }
}

/// The unsigned integer of the argument at a position.
pub open spec fn uint_arg(method: &'static str, args: Seq<ValueView>, at: int) -> Result<
    u64,
    DispatchError,
> {
    if at >= args.len() {
        Err(DispatchError::MissingArgument { index: args.len() as usize, method })
    } else {
        match args[at].as_u64() {
            Some(n) => Ok(n),
            None => Err(
                DispatchError::Coercion {
                    index: at as usize,
                    error: CoercionError::TypeMismatch {
                        expected: ValueTag::UInt64,
                        actual: args[at].tag(),
                    },
                },
            ),
        }
    }
}

/// The option of the user interface that a name and a number stand for: the option is
/// on where the number is 1.
pub open spec fn option_named(name: Seq<char>, number: u64) -> Option<UiOption> {
    if name == "Popupmenu"@ {
        Some(UiOption::ExtPopupmenu(number == 1))
    } else if name == "Tabline"@ {
        Some(UiOption::ExtTabline(number == 1))
    } else if name == "Cmdline"@ {
        Some(UiOption::ExtCmdline(number == 1))
    } else {
        None
    }
}

/// What the command `Clipboard` asks for: with the option `Set`, the text goes to the
/// selection; another option asks for nothing.
pub open spec fn clipboard_event(args: Seq<ValueView>) -> Result<Option<GuiCommand>, DispatchError> {
    match text_arg("Clipboard", args, 0) {
        Err(e) => Err(e),
        Ok(option) => if option != "Set"@ {
            Ok(None)
        } else if args.len() < 3 {
            Err(DispatchError::MissingArgument { index: args.len() as usize, method: "Clipboard" })
        } else {
            match text_arg("Clipboard", args, 1) {
                Err(e) => Err(e),
                Ok(name) => match text_arg("Clipboard", args, 2) {
                    Err(e) => Err(e),
                    Ok(text) => Ok(
                        Some(GuiCommand::ClipboardSet { selection: selection_named(name), text }),
                    ),
                },
            }
        },
    }
}

/// What the command `Option` asks for: a known option is set through the session with
/// the editor, which must stand; an unknown option asks for nothing.
pub open spec fn option_event(args: Seq<ValueView>, connected: bool) -> Result<
    Option<GuiCommand>,
    DispatchError,
> {
    match text_arg("Option", args, 0) {
        Err(e) => Err(e),
        Ok(name) => if option_named(name, 0) is None {
            Ok(None)
        } else if !connected {
            Err(DispatchError::NoSession)
        } else {
            match uint_arg("Option", args, 1) {
                Err(e) => Err(e),
                Ok(number) => Ok(
                    Some(GuiCommand::SetOption { option: option_named(name, number)->Some_0 }),
                ),
            }
        },
    }
}

/// What a command asks of the GUI: an error, nothing, or one command to carry out.
pub open spec fn gui_event_spec(method: Seq<char>, args: Seq<ValueView>, connected: bool) -> Result<
    Option<GuiCommand>,
    DispatchError,
> {
    if method == "Font"@ {
        match text_arg("Font", args, 0) {
            Err(e) => Err(e),
            Ok(desc) => Ok(Some(GuiCommand::Font { desc })),
        }
    } else if method == "Clipboard"@ {
        clipboard_event(args)
    } else if method == "Option"@ {
        option_event(args, connected)
    } else {
        Err(DispatchError::UnsupportedEvent)
    }
}

/// Whether a command asks the GUI for its session: the command `Option` does, for an
/// option that is known.
pub open spec fn asks_for_session(method: Seq<char>, args: Seq<ValueView>) -> bool {
    &&& method == "Option"@
    &&& text_arg("Option", args, 0) matches Ok(name)
    &&& option_named(name, 0) is Some
}

/// The GUI goes from `pre` to `post` as the plan says: on an error, and where nothing
/// is asked for, it stays as it was; else it carries out the one command.
pub open spec fn plan_done<U: GuiApi>(
    pre: U,
    plan: Result<Option<GuiCommand>, DispatchError>,
    outcome: Result<(), DispatchError>,
    post: U,
) -> bool {
    match plan {
        Err(e) => outcome == Err::<(), DispatchError>(e) && post == pre,
        Ok(None) => outcome == Ok::<(), DispatchError>(()) && post == pre,
        Ok(Some(command)) => outcome == Ok::<(), DispatchError>(()) && U::commanded(
            pre,
            command,
            post,
        ),
    }
}

/// What dispatching a command does: the GUI is asked for its session where the command
/// needs one, and then goes by the plan of the command.
pub open spec fn gui_event_done<U: GuiApi>(
    pre: U,
    method: Seq<char>,
    args: Seq<ValueView>,
    outcome: Result<(), DispatchError>,
    post: U,
) -> bool {
    if asks_for_session(method, args) {
        exists|connected: bool| #[trigger]
            U::session_is(pre, connected) && plan_done(
                pre,
                gui_event_spec(method, args, connected),
                outcome,
                post,
            )
    } else {
        plan_done(pre, gui_event_spec(method, args, true), outcome, post)
    }
}

fn text_at<'a>(method: &'static str, args: &'a Vec<Value>, at: usize) -> (outcome: Result<
    &'a str,
    DispatchError,
>)
    ensures
        match outcome {
            Ok(s) => text_arg(method, args.deep_view(), at as int) == Ok::<
                Seq<char>,
                DispatchError,
            >(s@),
            Err(e) => text_arg(method, args.deep_view(), at as int) == Err::<
                Seq<char>,
                DispatchError,
            >(e),
        },
{
    if at >= args.len() {
        return Err(DispatchError::MissingArgument { index: args.len(), method });
    }
    match args[at].as_str() {
        Some(s) => Ok(s),
        None => Err(DispatchError::Coercion { index: at, error: CoercionError::InvalidText }),
    }
}

fn uint_at(method: &'static str, args: &Vec<Value>, at: usize) -> (outcome: Result<
    u64,
    DispatchError,
>)
    ensures
        outcome == uint_arg(method, args.deep_view(), at as int),
{
    if at >= args.len() {
        return Err(DispatchError::MissingArgument { index: args.len(), method });
    }
    match args[at].as_u64() {
        Some(n) => Ok(n),
        None => Err(
            DispatchError::Coercion {
                index: at,
                error: CoercionError::TypeMismatch {
                    expected: ValueTag::UInt64,
                    actual: args[at].tag(),
                },
            },
        ),
    }
}

fn option_for(name: &str, number: u64) -> (option: Option<UiOption>)
    ensures
        option == option_named(name@, number),
{
    if str_eq(name, "Popupmenu") {
        Some(UiOption::ExtPopupmenu(number == 1))
    } else if str_eq(name, "Tabline") {
        Some(UiOption::ExtTabline(number == 1))
    } else if str_eq(name, "Cmdline") {
        Some(UiOption::ExtCmdline(number == 1))
    } else {
        None
    }
}

/// Dispatches one command to the GUI. A method that is none of the commands is an
/// error; an option that is not known is passed over.
pub fn call_gui_event<U: GuiApi>(ui: &mut U, method: &str, args: &Vec<Value>) -> (outcome: Result<
    (),
    DispatchError,
>)
    ensures
        gui_event_done(*old(ui), method@, args.deep_view(), outcome, *final(ui)),
{
    proof {
        reveal_strlit("Font");
        reveal_strlit("Clipboard");
        reveal_strlit("Option");
        assert("Font"@.len() == 4 && "Clipboard"@.len() == 9 && "Option"@.len() == 6);
    }
    if str_eq(method, "Font") {
        let desc = match text_at("Font", args, 0) {
            Ok(desc) => desc,
            Err(e) => {
                return Err(e);
            },
        };
        ui.set_font(desc);
        Ok(())
    } else if str_eq(method, "Clipboard") {
        let option = match text_at("Clipboard", args, 0) {
            Ok(option) => option,
            Err(e) => {
                return Err(e);
            },
        };
        if !str_eq(option, "Set") {
            return Ok(());
        }
        if args.len() < 3 {
            return Err(DispatchError::MissingArgument { index: args.len(), method: "Clipboard" });
        }
        let name = match text_at("Clipboard", args, 1) {
            Ok(name) => name,
            Err(e) => {
                return Err(e);
            },
        };
        let text = match text_at("Clipboard", args, 2) {
            Ok(text) => text,
            Err(e) => {
                return Err(e);
            },
        };
        if str_eq(name, "*") {
            ui.clipboard_primary_set(text);
        } else {
            ui.clipboard_clipboard_set(text);
        }
        Ok(())
    } else if str_eq(method, "Option") {
        let name = match text_at("Option", args, 0) {
            Ok(name) => name,
            Err(e) => {
                return Err(e);
            },
        };
        if option_for(name, 0).is_none() {
            return Ok(());
        }
        let connected = ui.has_session();
        assert(U::session_is(*ui, connected));
        if !connected {
            return Err(DispatchError::NoSession);
        }
        let number = match uint_at("Option", args, 1) {
            Ok(number) => number,
            Err(e) => {
                return Err(e);
            },
        };
        match option_for(name, number) {
            Some(option) => {
                ui.set_option(option);
            },
            None => {},
        }
        Ok(())
    } else {
        Err(DispatchError::UnsupportedEvent)
    }
}

/// Whether a command names an option that is not known: the command `Clipboard` with
/// another option than `Set`, or the command `Option` with an option that is none of
/// the options of the user interface.
pub open spec fn names_unknown_option(method: Seq<char>, args: Seq<ValueView>) -> bool {
    ||| {
        &&& method == "Clipboard"@
        &&& text_arg("Clipboard", args, 0) matches Ok(option)
        &&& option != "Set"@
    }
    ||| {
        &&& method == "Option"@
        &&& text_arg("Option", args, 0) matches Ok(name)
        &&& option_named(name, 0) is None
    }
}

/// The commands that ask for nothing, and are yet no error, are those that name an
/// option that is not known.
pub proof fn lemma_unknown_option_asks_for_nothing(
    method: Seq<char>,
    args: Seq<ValueView>,
    connected: bool,
)
    ensures
        names_unknown_option(method, args) <==> gui_event_spec(method, args, connected) matches Ok(
            None,
        ),
{
    reveal_strlit("Font");
    reveal_strlit("Clipboard");
    reveal_strlit("Option");
    assert("Font"@.len() == 4 && "Clipboard"@.len() == 9 && "Option"@.len() == 6);
}

/// Whether a command names an option that is not known. Such a command is passed over
/// by `call_gui_event`, which gives `Ok` for it as for a command that was carried out.
pub fn unknown_option(method: &str, args: &Vec<Value>) -> (unknown: bool)
    ensures
        unknown == names_unknown_option(method@, args.deep_view()),
{
    proof {
        reveal_strlit("Clipboard");
        reveal_strlit("Option");
        assert("Clipboard"@.len() == 9 && "Option"@.len() == 6);
    }
    if str_eq(method, "Clipboard") {
        match text_at("Clipboard", args, 0) {
            Ok(option) => !str_eq(option, "Set"),
            Err(_) => false,
        }
    } else if str_eq(method, "Option") {
        match text_at("Option", args, 0) {
            Ok(name) => option_for(name, 0).is_none(),
            Err(_) => false,
        }
    } else {
        false
    }
}

/// A method that is none of the commands is an unsupported event, and the GUI stays as
/// it was.
pub proof fn lemma_unknown_command_is_unsupported<U: GuiApi>(
    pre: U,
    method: Seq<char>,
    args: Seq<ValueView>,
    outcome: Result<(), DispatchError>,
    post: U,
)
    requires
        gui_event_done(pre, method, args, outcome, post),
        method != "Font"@,
        method != "Clipboard"@,
        method != "Option"@,
    ensures
        outcome == Err::<(), DispatchError>(DispatchError::UnsupportedEvent),
        post == pre,
{
}

/// What a request asks for: the text of a clipboard, or an error.
pub open spec fn gui_request_spec(method: Seq<char>, args: Seq<ValueView>) -> Result<
    GuiRequest,
    DispatchError,
> {
    if method == "Clipboard"@ {
        match text_arg("Clipboard", args, 0) {
            Err(e) => Err(e),
            Ok(option) => if option != "Get"@ {
                Err(DispatchError::UnknownOption)
            } else {
                match text_arg("Clipboard", args, 1) {
                    Err(e) => Err(e),
                    Ok(name) => Ok(GuiRequest::ClipboardGet(selection_named(name))),
                }
            },
        }
    } else {
        Err(DispatchError::UnsupportedEvent)
    }
}

/// Finds what a request asks for. The caller gets the text of the clipboard that is
/// named, without holding the state of the GUI while it waits for it, and answers with
/// `clipboard_reply`; it answers an error with `error_reply`.
pub fn call_gui_request(method: &str, args: &Vec<Value>) -> (outcome: Result<
    GuiRequest,
    DispatchError,
>)
    ensures
        outcome == gui_request_spec(method@, args.deep_view()),
{
    if !str_eq(method, "Clipboard") {
        return Err(DispatchError::UnsupportedEvent);
    }
    let option = match text_at("Clipboard", args, 0) {
        Ok(option) => option,
        Err(e) => {
            return Err(e);
        },
    };
    if !str_eq(option, "Get") {
        return Err(DispatchError::UnknownOption);
    }
    let name = match text_at("Clipboard", args, 1) {
        Ok(name) => name,
        Err(e) => {
            return Err(e);
        },
    };
    if str_eq(name, "*") {
        Ok(GuiRequest::ClipboardGet(Selection::Primary))
    } else {
        Ok(GuiRequest::ClipboardGet(Selection::Clipboard))
    }
}

/// The string values that stand for lines of text.
pub open spec fn line_values(lines: Seq<Seq<char>>) -> Seq<ValueView> {
    Seq::new(lines.len(), |i: int| ValueView::String(TextView::Utf8(lines[i])))
}

/// The answer to a request for the text of a clipboard: the lines of the text, and one
/// empty line for a clipboard without text.
pub open spec fn clipboard_reply_spec(text: Option<Seq<char>>) -> ValueView {
    match text {
        Some(s) => ValueView::Array(line_values(lines_of(s))),
        None => ValueView::Array(line_values(lines_of(Seq::empty()))),
    }
}

/// The answer to a request for the text of a clipboard.
pub fn clipboard_reply(text: Option<String>) -> (reply: Value)
    ensures
        reply@ == clipboard_reply_spec(text.deep_view()),
{
    let lines = match &text {
        Some(s) => split_lines(s.as_str()),
        None => split_lines(""),
    };
    proof {
        reveal_strlit("");
        assert(""@ =~= Seq::<char>::empty());
    }
    let mut values: Vec<Value> = Vec::new();
    let mut i: usize = 0;
    while i < lines.len()
        invariant
            i <= lines.len(),
            values@.len() == i,
            forall|k: int|
                0 <= k < i ==> values@[k]@ == ValueView::String(TextView::Utf8(lines@[k]@)),
        decreases lines.len() - i,
    {
        values.push(Value::text(lines[i].as_str()));
        i += 1;
    }
    proof {
        lemma_array_view(values);
        assert(values.deep_view() =~= line_values(lines.deep_view()));
    }
    Value::Array(values)
}

/// The answer to a request that failed: nil for an option that is not known, and else
/// a string that says what went wrong.
pub open spec fn error_reply_spec(error: DispatchError) -> ValueView {
    match error {
        DispatchError::UnknownOption => ValueView::Nil,
        DispatchError::UnsupportedEvent => ValueView::String(
            TextView::Utf8("Unsupported request"@),
        ),
        DispatchError::MissingArgument { .. } => ValueView::String(
            TextView::Utf8("Missing argument"@),
        ),
        DispatchError::Coercion { .. } => ValueView::String(
            TextView::Utf8("Can't convert argument"@),
        ),
        DispatchError::NoSession => ValueView::String(TextView::Utf8("Nvim not initialized"@)),
    }
}

/// The answer to a request that failed.
pub fn error_reply(error: DispatchError) -> (reply: Value)
    ensures
        reply@ == error_reply_spec(error),
{
    match error {
        DispatchError::UnknownOption => Value::Nil,
        DispatchError::UnsupportedEvent => Value::text("Unsupported request"),
        DispatchError::MissingArgument { .. } => Value::text("Missing argument"),
        DispatchError::Coercion { .. } => Value::text("Can't convert argument"),
        DispatchError::NoSession => Value::text("Nvim not initialized"),
    }
}

} // verus!
