//! The dispatcher of redraw calls: from a method name and untyped arguments to one
//! typed operation of the sink.

use crate::attrs::{lookup, AttrMap, Entries};
use crate::coerce::{
    coerce_args, coerce_args_spec, coerce_from, coerce_spec, lemma_coerce_from, DispatchError,
};
use crate::decode::{conforms, first_missing, Typed, TypedView};
use crate::events::{
    items_of, lemma_map_from, CompleteItem, ContentView, ModeInfo, RedrawEvents, RedrawOp, Tabpage,
};
use crate::method::{
    block_shape, content_shape, lemma_method_named, lemma_method_named_is, menu_shape,
    method_named, modes_shape, tabs_shape, RedrawMethod,
};
use crate::repaint::RepaintOutcome;
use crate::value::{Value, ValueView};
use vstd::pervasive::unreached;
use vstd::prelude::*;

verus! {

/// The styled text that a decoded value holds.
pub open spec fn content_of(typed: TypedView) -> ContentView {
    let items = typed->Sequence_0;
    Seq::new(
        items.len(),
        |i: int| ((*items[i]->Pair_0)->Record_0, (*items[i]->Pair_1)->Text_0),
    )
}

/// The block of styled text that a decoded value holds.
pub open spec fn block_of(typed: TypedView) -> Seq<ContentView> {
    let lines = typed->Sequence_0;
    Seq::new(lines.len(), |i: int| content_of(lines[i]))
}

/// The text cells that a decoded row holds.
pub open spec fn cells_of(typed: TypedView) -> Seq<Seq<char>> {
    let cells = typed->Sequence_0;
    Seq::new(cells.len(), |i: int| cells[i]->Text_0)
}

/// The rows of text cells that a decoded value holds.
pub open spec fn rows_of(typed: TypedView) -> Seq<Seq<Seq<char>>> {
    let rows = typed->Sequence_0;
    Seq::new(rows.len(), |i: int| cells_of(rows[i]))
}

/// The handle of a tab: the value under the key `tab`.
pub open spec fn tab_of(entries: Entries) -> ValueView {
    lookup(entries, "tab"@)->Some_0
}

/// The display name of a tab: the text under the key `name`, if there is one.
pub open spec fn name_of(entries: Entries) -> Option<Seq<char>> {
    match lookup(entries, "name"@) {
        Some(value) => value.as_text(),
        None => None,
    }
}

/// The tabs that a decoded value holds: the handle of each and its display name.
pub open spec fn tabs_of(typed: TypedView) -> Seq<(ValueView, Option<Seq<char>>)> {
    let tabs = typed->Sequence_0;
    Seq::new(tabs.len(), |i: int| (tab_of(tabs[i]->Record_0), name_of(tabs[i]->Record_0)))
}

/// The mode descriptions that a decoded value holds.
pub open spec fn modes_of(typed: TypedView) -> Seq<Entries> {
    let modes = typed->Sequence_0;
    Seq::new(modes.len(), |i: int| modes[i]->Record_0)
}

/// The operation of the sink that a method stands for, with the typed parameters in
/// the order of the arguments.
pub open spec fn op_of(method: RedrawMethod, typed: Seq<TypedView>) -> RedrawOp {
    match method {
        RedrawMethod::CursorGoto => RedrawOp::CursorGoto {
            row: typed[0]->UInt_0,
            col: typed[1]->UInt_0,
        },
        RedrawMethod::Put => RedrawOp::Put { text: typed[0]->Text_0 },
        RedrawMethod::Clear => RedrawOp::Clear,
        RedrawMethod::Resize => RedrawOp::Resize {
            columns: typed[0]->UInt_0,
            rows: typed[1]->UInt_0,
        },
        RedrawMethod::HighlightSet => RedrawOp::HighlightSet { attrs: typed[0]->Record_0 },
        RedrawMethod::EolClear => RedrawOp::EolClear,
        RedrawMethod::SetScrollRegion => RedrawOp::SetScrollRegion {
            top: typed[0]->UInt_0,
            bot: typed[1]->UInt_0,
            left: typed[2]->UInt_0,
            right: typed[3]->UInt_0,
        },
        RedrawMethod::Scroll => RedrawOp::Scroll { count: typed[0]->Int_0 },
        RedrawMethod::UpdateBg => RedrawOp::UpdateBg { bg: typed[0]->Int_0 },
        RedrawMethod::UpdateFg => RedrawOp::UpdateFg { fg: typed[0]->Int_0 },
        RedrawMethod::UpdateSp => RedrawOp::UpdateSp { sp: typed[0]->Int_0 },
        RedrawMethod::ModeChange => RedrawOp::ModeChange {
            mode: typed[0]->Text_0,
            idx: typed[1]->UInt_0,
        },
        RedrawMethod::MouseOn => RedrawOp::Mouse { on: true },
        RedrawMethod::MouseOff => RedrawOp::Mouse { on: false },
        RedrawMethod::BusyStart => RedrawOp::Busy { busy: true },
        RedrawMethod::BusyStop => RedrawOp::Busy { busy: false },
        RedrawMethod::PopupmenuShow => RedrawOp::PopupmenuShow {
            menu: items_of(rows_of(typed[0])),
            selected: typed[1]->Int_0,
            row: typed[2]->UInt_0,
            col: typed[3]->UInt_0,
        },
        RedrawMethod::PopupmenuHide => RedrawOp::PopupmenuHide,
        RedrawMethod::PopupmenuSelect => RedrawOp::PopupmenuSelect { selected: typed[0]->Int_0 },
        RedrawMethod::TablineUpdate => RedrawOp::TablineUpdate {
            selected: typed[0]->Any_0,
            tabs: tabs_of(typed[1]),
        },
        RedrawMethod::ModeInfoSet => RedrawOp::ModeInfoSet {
            cursor_style_enabled: typed[0]->Bool_0,
            mode_info: modes_of(typed[1]),
        },
        RedrawMethod::CmdlineShow => RedrawOp::CmdlineShow {
            content: content_of(typed[0]),
            pos: typed[1]->UInt_0,
            firstc: typed[2]->Text_0,
            prompt: typed[3]->Text_0,
            indent: typed[4]->UInt_0,
            level: typed[5]->UInt_0,
        },
        RedrawMethod::CmdlineBlockShow => RedrawOp::CmdlineBlockShow {
            content: block_of(typed[0]),
        },
        RedrawMethod::CmdlineBlockAppend => RedrawOp::CmdlineBlockAppend {
            content: content_of(typed[0]),
        },
        RedrawMethod::CmdlineHide => RedrawOp::CmdlineHide { level: typed[0]->UInt_0 },
        RedrawMethod::CmdlineBlockHide => RedrawOp::CmdlineBlockHide,
        RedrawMethod::CmdlinePos => RedrawOp::CmdlinePos {
            pos: typed[0]->UInt_0,
            level: typed[1]->UInt_0,
        },
        RedrawMethod::CmdlineSpecialChar => RedrawOp::CmdlineSpecialChar {
            c: typed[0]->Text_0,
            shift: typed[1]->Bool_0,
            level: typed[2]->UInt_0,
        },
    }
}

/// What a call asks of the sink: an error, nothing for a method that the registry does
/// not hold, or one operation.
pub open spec fn call_spec(method: Seq<char>, args: Seq<ValueView>) -> Result<
    Option<RedrawOp>,
    DispatchError,
> {
    match method_named(method) {
        None => Ok(None),
        Some(known) => match coerce_args_spec(known.name_spec(), args, known.signature_spec()) {
            Err(e) => Err(e),
            Ok(typed) => Ok(Some(op_of(known, typed))),
        },
    }
}

/// What dispatching a call does: on an error, and for a method that the registry does
/// not hold, the sink stays as it was; else the sink performs the one operation of the
/// call, and the call gives the repaint that the operation asked for.
pub open spec fn dispatched<S: RedrawEvents>(
    pre: S,
    method: Seq<char>,
    args: Seq<ValueView>,
    outcome: Result<RepaintOutcome, DispatchError>,
    post: S,
) -> bool {
    match call_spec(method, args) {
        Err(e) => outcome == Err::<RepaintOutcome, DispatchError>(e) && post == pre,
        Ok(None) => outcome == Ok::<RepaintOutcome, DispatchError>(RepaintOutcome::Nothing)
            && post == pre,
        Ok(Some(op)) => outcome matches Ok(asked) && S::performed(pre, op, asked, post),
    }
}

fn uint_at(typed: &Vec<Typed>, at: usize) -> (n: u64)
    requires
        at < typed@.len(),
        typed@[at as int]@ is UInt,
    ensures
        typed.deep_view()[at as int] == TypedView::UInt(n),
{
    match typed[at].as_uint() {
        Some(n) => n,
        None => unreached(),
    }
}

fn int_at(typed: &Vec<Typed>, at: usize) -> (n: i64)
    requires
        at < typed@.len(),
        typed@[at as int]@ is Int,
    ensures
        typed.deep_view()[at as int] == TypedView::Int(n),
{
    match typed[at].as_int() {
        Some(n) => n,
        None => unreached(),
    }
}

fn bool_at(typed: &Vec<Typed>, at: usize) -> (b: bool)
    requires
        at < typed@.len(),
        typed@[at as int]@ is Bool,
    ensures
        typed.deep_view()[at as int] == TypedView::Bool(b),
{
    match typed[at].as_bool() {
        Some(b) => b,
        None => unreached(),
    }
}

fn text_at(typed: &Vec<Typed>, at: usize) -> (s: String)
    requires
        at < typed@.len(),
        typed@[at as int]@ is Text,
    ensures
        typed.deep_view()[at as int] == TypedView::Text(s@),
{
    match typed[at].as_text() {
        Some(s) => s.to_owned(),
        None => unreached(),
    }
}

fn items_in(typed: &Typed) -> (items: &Vec<Typed>)
    requires
        typed@ is Sequence,
    ensures
        typed@ == TypedView::Sequence(items.deep_view()),
{
    match typed.as_items() {
        Some(items) => items,
        None => unreached(),
    }
}

fn record_in(typed: &Typed) -> (map: &AttrMap)
    requires
        typed@ is Record,
    ensures
        typed@ == TypedView::Record(map@),
{
    match typed.as_record() {
        Some(map) => map,
        None => unreached(),
    }
}

fn content_from(typed: &Typed) -> (content: Vec<(AttrMap, String)>)
    requires
        conforms(typed@, content_shape()),
    ensures
        content.deep_view() == content_of(typed@),
{
    proof {
        reveal_with_fuel(conforms, 4);
    }
    let items = items_in(typed);
    let mut content: Vec<(AttrMap, String)> = Vec::new();
    let mut i: usize = 0;
    while i < items.len()
        invariant
            i <= items.len(),
            typed@ == TypedView::Sequence(items.deep_view()),
            conforms(typed@, content_shape()),
            content@.len() == i,
            forall|k: int| 0 <= k < i ==> content@[k].deep_view() == content_of(typed@)[k],
        decreases items.len() - i,
    {
        proof {
            reveal_with_fuel(conforms, 4);
            assert(conforms(items.deep_view()[i as int], *content_shape()->of));
        }
        let (first, second) = match items[i].as_pair() {
            Some(parts) => parts,
            None => unreached(),
        };
        let attrs = record_in(first);
        let text = match second.as_text() {
            Some(s) => s.to_owned(),
            None => unreached(),
        };
        content.push((attrs.clone(), text));
        i += 1;
    }
    assert(content.deep_view() =~= content_of(typed@));
    content
}

fn block_from(typed: &Typed) -> (block: Vec<Vec<(AttrMap, String)>>)
    requires
        conforms(typed@, block_shape()),
    ensures
        block.deep_view() == block_of(typed@),
{
    let items = items_in(typed);
    let mut block: Vec<Vec<(AttrMap, String)>> = Vec::new();
    let mut i: usize = 0;
    while i < items.len()
        invariant
            i <= items.len(),
            typed@ == TypedView::Sequence(items.deep_view()),
            conforms(typed@, block_shape()),
            block@.len() == i,
            forall|k: int| 0 <= k < i ==> block@[k].deep_view() == block_of(typed@)[k],
        decreases items.len() - i,
    {
        assert(conforms(items.deep_view()[i as int], content_shape()));
        let line = content_from(&items[i]);
        block.push(line);
        i += 1;
    }
    assert(block.deep_view() =~= block_of(typed@));
    block
}

fn cells_from(typed: &Typed) -> (cells: Vec<String>)
    requires
        typed@ is Sequence,
        forall|i: int|
            0 <= i < typed@->Sequence_0.len() ==> (#[trigger] typed@->Sequence_0[i]) is Text,
    ensures
        cells.deep_view() == cells_of(typed@),
{
    let items = items_in(typed);
    let mut cells: Vec<String> = Vec::new();
    let mut i: usize = 0;
    assert forall|k: int| 0 <= k < items.deep_view().len() implies (#[trigger] items.deep_view()[k])
        is Text by {
        assert(typed@->Sequence_0 == items.deep_view());
        assert(typed@->Sequence_0[k] is Text);
    }
    while i < items.len()
        invariant
            i <= items.len(),
            typed@ == TypedView::Sequence(items.deep_view()),
            forall|k: int|
                0 <= k < items.deep_view().len() ==> (#[trigger] items.deep_view()[k]) is Text,
            cells@.len() == i,
            forall|k: int| 0 <= k < i ==> cells@[k]@ == cells_of(typed@)[k],
        decreases items.len() - i,
    {
        assert(items.deep_view()[i as int] is Text);
        let cell = match items[i].as_text() {
            Some(s) => s.to_owned(),
            None => unreached(),
        };
        cells.push(cell);
        i += 1;
    }
    assert(cells.deep_view() =~= cells_of(typed@));
    cells
}

fn rows_from(typed: &Typed) -> (rows: Vec<Vec<String>>)
    requires
        conforms(typed@, menu_shape()),
    ensures
        rows.deep_view() == rows_of(typed@),
        forall|i: int| 0 <= i < rows_of(typed@).len() ==> (#[trigger] rows_of(typed@)[i]).len() >= 4,
{
    proof {
        reveal_with_fuel(conforms, 4);
    }
    let items = items_in(typed);
    let mut rows: Vec<Vec<String>> = Vec::new();
    let mut i: usize = 0;
    while i < items.len()
        invariant
            i <= items.len(),
            typed@ == TypedView::Sequence(items.deep_view()),
            conforms(typed@, menu_shape()),
            rows@.len() == i,
            forall|k: int| 0 <= k < i ==> rows@[k].deep_view() == rows_of(typed@)[k],
        decreases items.len() - i,
    {
        proof {
            reveal_with_fuel(conforms, 4);
            assert(conforms(items.deep_view()[i as int], *menu_shape()->of));
        }
        let cells = cells_from(&items[i]);
        rows.push(cells);
        i += 1;
    }
    assert(rows.deep_view() =~= rows_of(typed@));
    assert forall|i: int| 0 <= i < rows_of(typed@).len() implies (#[trigger] rows_of(
        typed@,
    )[i]).len() >= 4 by {
        assert(conforms(items.deep_view()[i], *menu_shape()->of));
    }
    rows
}

fn tabs_from(typed: &Typed) -> (tabs: Vec<(Tabpage, Option<String>)>)
    requires
        conforms(typed@, tabs_shape()),
    ensures
        tabs.deep_view() == tabs_of(typed@),
{
    proof {
        reveal_with_fuel(conforms, 3);
    }
    let items = items_in(typed);
    let mut tabs: Vec<(Tabpage, Option<String>)> = Vec::new();
    let mut i: usize = 0;
    while i < items.len()
        invariant
            i <= items.len(),
            typed@ == TypedView::Sequence(items.deep_view()),
            conforms(typed@, tabs_shape()),
            tabs@.len() == i,
            forall|k: int| 0 <= k < i ==> tabs@[k].deep_view() == tabs_of(typed@)[k],
        decreases items.len() - i,
    {
        proof {
            reveal_with_fuel(conforms, 3);
            reveal_with_fuel(first_missing, 3);
            assert(conforms(items.deep_view()[i as int], *tabs_shape()->of));
        }
        let map = record_in(&items[i]);
        let tab = match map.get("tab") {
            Some(value) => Tabpage::new(value.clone()),
            None => unreached(),
        };
        let name = match map.get("name") {
            Some(value) => match value.as_str() {
                Some(s) => Some(s.to_owned()),
                None => None,
            },
            None => None,
        };
        tabs.push((tab, name));
        i += 1;
    }
    assert(tabs.deep_view() =~= tabs_of(typed@));
    tabs
}

fn modes_from(typed: &Typed) -> (modes: Vec<ModeInfo>)
    requires
        conforms(typed@, modes_shape()),
    ensures
        modes.deep_view() == modes_of(typed@),
{
    proof {
        reveal_with_fuel(conforms, 3);
    }
    let items = items_in(typed);
    let mut modes: Vec<ModeInfo> = Vec::new();
    let mut i: usize = 0;
    while i < items.len()
        invariant
            i <= items.len(),
            typed@ == TypedView::Sequence(items.deep_view()),
            conforms(typed@, modes_shape()),
            modes@.len() == i,
            forall|k: int| 0 <= k < i ==> modes@[k].deep_view() == modes_of(typed@)[k],
        decreases items.len() - i,
    {
        proof {
            reveal_with_fuel(conforms, 3);
            assert(conforms(items.deep_view()[i as int], *modes_shape()->of));
        }
        let map = record_in(&items[i]);
        modes.push(ModeInfo::new(map.clone()));
        i += 1;
    }
    assert(modes.deep_view() =~= modes_of(typed@));
    modes
}

fn any_at(typed: &Vec<Typed>, at: usize) -> (value: Value)
    requires
        at < typed@.len(),
        typed@[at as int]@ is Any,
    ensures
        typed.deep_view()[at as int] == TypedView::Any(value@),
{
    match typed[at].as_any() {
        Some(value) => value.clone(),
        None => unreached(),
    }
}

/// Dispatches one call: coerces its arguments to the parameters of its method, and
/// only then has the sink perform the operation. A method that the registry does not
/// hold is passed over.
pub fn dispatch<S: RedrawEvents>(ui: &mut S, method: &str, args: &Vec<Value>) -> (outcome: Result<
    RepaintOutcome,
    DispatchError,
>)
    ensures
        dispatched(*old(ui), method@, args.deep_view(), outcome, *final(ui)),
{
    let known = match RedrawMethod::from_name(method) {
        Some(known) => known,
        None => {
            return Ok(RepaintOutcome::Nothing);
        },
    };
    let kinds = known.signature();
    let typed = match coerce_args(known.name(), args, &kinds) {
        Ok(typed) => typed,
        Err(e) => {
            return Err(e);
        },
    };
    let asked = match known {
        RedrawMethod::CursorGoto => {
            let row = uint_at(&typed, 0);
            let col = uint_at(&typed, 1);
            ui.on_cursor_goto(row, col)
        },
        RedrawMethod::Put => {
            let text = text_at(&typed, 0);
            ui.on_put(text)
        },
        RedrawMethod::Clear => ui.on_clear(),
        RedrawMethod::Resize => {
            let columns = uint_at(&typed, 0);
            let rows = uint_at(&typed, 1);
            ui.on_resize(columns, rows)
        },
        RedrawMethod::HighlightSet => {
            let attrs = record_in(&typed[0]).clone();
            ui.on_highlight_set(attrs)
        },
        RedrawMethod::EolClear => ui.on_eol_clear(),
        RedrawMethod::SetScrollRegion => {
            let top = uint_at(&typed, 0);
            let bot = uint_at(&typed, 1);
            let left = uint_at(&typed, 2);
            let right = uint_at(&typed, 3);
            ui.on_set_scroll_region(top, bot, left, right)
        },
        RedrawMethod::Scroll => {
            let count = int_at(&typed, 0);
            ui.on_scroll(count)
        },
        RedrawMethod::UpdateBg => {
            let bg = int_at(&typed, 0);
            ui.on_update_bg(bg)
        },
        RedrawMethod::UpdateFg => {
            let fg = int_at(&typed, 0);
            ui.on_update_fg(fg)
        },
        RedrawMethod::UpdateSp => {
            let sp = int_at(&typed, 0);
            ui.on_update_sp(sp)
        },
        RedrawMethod::ModeChange => {
            let mode = text_at(&typed, 0);
            let idx = uint_at(&typed, 1);
            ui.on_mode_change(mode, idx)
        },
        RedrawMethod::MouseOn => ui.on_mouse(true),
        RedrawMethod::MouseOff => ui.on_mouse(false),
        RedrawMethod::BusyStart => ui.on_busy(true),
        RedrawMethod::BusyStop => ui.on_busy(false),
        RedrawMethod::PopupmenuShow => {
            let rows = rows_from(&typed[0]);
            proof {
                lemma_map_from(rows.deep_view(), 0);
                assert(items_of(rows.deep_view()).skip(0) =~= items_of(rows.deep_view()));
            }
            let items = match CompleteItem::map(&rows) {
                Ok(items) => items,
                Err(_) => unreached(),
            };
            let selected = int_at(&typed, 1);
            let row = uint_at(&typed, 2);
            let col = uint_at(&typed, 3);
            let menu = items.as_slice();
            assert(menu.deep_view() =~= items.deep_view());
            ui.popupmenu_show(menu, selected, row, col)
        },
        RedrawMethod::PopupmenuHide => ui.popupmenu_hide(),
        RedrawMethod::PopupmenuSelect => {
            let selected = int_at(&typed, 0);
            ui.popupmenu_select(selected)
        },
        RedrawMethod::TablineUpdate => {
            let selected = Tabpage::new(any_at(&typed, 0));
            let tabs = tabs_from(&typed[1]);
            ui.tabline_update(selected, tabs)
        },
        RedrawMethod::ModeInfoSet => {
            let cursor_style_enabled = bool_at(&typed, 0);
            let mode_info = modes_from(&typed[1]);
            ui.mode_info_set(cursor_style_enabled, mode_info)
        },
        RedrawMethod::CmdlineShow => {
            let content = content_from(&typed[0]);
            let pos = uint_at(&typed, 1);
            let firstc = text_at(&typed, 2);
            let prompt = text_at(&typed, 3);
            let indent = uint_at(&typed, 4);
            let level = uint_at(&typed, 5);
            ui.cmdline_show(content, pos, firstc, prompt, indent, level)
        },
        RedrawMethod::CmdlineBlockShow => {
            let content = block_from(&typed[0]);
            ui.cmdline_block_show(content)
        },
        RedrawMethod::CmdlineBlockAppend => {
            let content = content_from(&typed[0]);
            ui.cmdline_block_append(content)
        },
        RedrawMethod::CmdlineHide => {
            let level = uint_at(&typed, 0);
            ui.cmdline_hide(level)
        },
        RedrawMethod::CmdlineBlockHide => ui.cmdline_block_hide(),
        RedrawMethod::CmdlinePos => {
            let pos = uint_at(&typed, 0);
            let level = uint_at(&typed, 1);
            ui.cmdline_pos(pos, level)
        },
        RedrawMethod::CmdlineSpecialChar => {
            let c = text_at(&typed, 0);
            let shift = bool_at(&typed, 1);
            let level = uint_at(&typed, 2);
            ui.cmdline_special_char(c, shift, level)
        },
    };
    Ok(asked)
}

/// Dispatches one call, as `dispatch` does.
pub fn call<S: RedrawEvents>(ui: &mut S, method: &str, args: Vec<Value>) -> (outcome: Result<
    RepaintOutcome,
    DispatchError,
>)
    ensures
        dispatched(*old(ui), method@, args.deep_view(), outcome, *final(ui)),
{
    dispatch(ui, method, &args)
}

/// The typed parameters of a call whose arguments can all be coerced.
pub open spec fn typed_args(known: RedrawMethod, args: Seq<ValueView>) -> Seq<TypedView> {
    Seq::new(
        known.signature_spec().len(),
        |i: int| coerce_spec(args[i], known.signature_spec()[i])->Ok_0,
    )
}

/// A call of a method of the registry, with an argument for each parameter that can be
/// coerced to its kind, succeeds: the sink performs the operation of the method, once,
/// with the coerced arguments in their order, and the call gives the repaint that the
/// operation asked for.
pub proof fn lemma_well_typed_call_is_performed<S: RedrawEvents>(
    pre: S,
    method: Seq<char>,
    args: Seq<ValueView>,
    outcome: Result<RepaintOutcome, DispatchError>,
    post: S,
    known: RedrawMethod,
)
    requires
        dispatched(pre, method, args, outcome, post),
        method == known.name_spec()@,
        args.len() >= known.signature_spec().len(),
        forall|i: int|
            0 <= i < known.signature_spec().len() ==> (#[trigger] coerce_spec(
                args[i],
                known.signature_spec()[i],
            )) is Ok,
    ensures
        call_spec(method, args) == Ok::<Option<RedrawOp>, DispatchError>(
            Some(op_of(known, typed_args(known, args))),
        ),
        outcome matches Ok(asked) && S::performed(
            pre,
            op_of(known, typed_args(known, args)),
            asked,
            post,
        ),
{
    let kinds = known.signature_spec();
    lemma_method_named(known);
    lemma_coerce_from(args, kinds, 0);
    match coerce_from(args, kinds, 0) {
        Ok(typed) => {
            assert(typed =~= typed_args(known, args));
        },
        Err((index, error)) => {
            assert(coerce_spec(args[index], kinds[index]) is Ok);
        },
    }
}

/// A call of a method of the registry with fewer arguments than the method has
/// parameters fails with a missing argument, and the sink stays as it was.
pub proof fn lemma_missing_argument<S: RedrawEvents>(
    pre: S,
    method: Seq<char>,
    args: Seq<ValueView>,
    outcome: Result<RepaintOutcome, DispatchError>,
    post: S,
    known: RedrawMethod,
)
    requires
        dispatched(pre, method, args, outcome, post),
        method == known.name_spec()@,
        args.len() < known.signature_spec().len(),
    ensures
        outcome == Err::<RepaintOutcome, DispatchError>(
            DispatchError::MissingArgument {
                index: args.len() as usize,
                method: known.name_spec(),
            },
        ),
        post == pre,
{
    lemma_method_named(known);
}

/// A call whose method name is that of no method of the registry is no error: it asks
/// for no repaint, and the sink stays as it was.
pub proof fn lemma_unknown_method_is_passed_over<S: RedrawEvents>(
    pre: S,
    method: Seq<char>,
    args: Seq<ValueView>,
    outcome: Result<RepaintOutcome, DispatchError>,
    post: S,
)
    requires
        dispatched(pre, method, args, outcome, post),
        forall|known: RedrawMethod| (#[trigger] known.name_spec())@ != method,
    ensures
        outcome == Ok::<RepaintOutcome, DispatchError>(RepaintOutcome::Nothing),
        post == pre,
{
    lemma_method_named_is(method);
}

/// A call fails only for a missing argument or for an argument that cannot be coerced,
/// and then the sink stays as it was.
pub proof fn lemma_failed_call_leaves_sink<S: RedrawEvents>(
    pre: S,
    method: Seq<char>,
    args: Seq<ValueView>,
    outcome: Result<RepaintOutcome, DispatchError>,
    post: S,
)
    requires
        dispatched(pre, method, args, outcome, post),
        outcome is Err,
    ensures
        post == pre,
        outcome->Err_0 is MissingArgument || outcome->Err_0 is Coercion,
{
}

} // verus!
