//! The typed operations of the redraw sink, and the values they take.

use crate::attrs::{AttrMap, Entries};
use crate::decode::DecodeError;
use crate::repaint::RepaintOutcome;
use crate::value::{Value, ValueView};
use vstd::prelude::*;

verus! {

/// One row of the completion menu: its first four columns.
#[derive(Debug, PartialEq, Eq)]
pub struct CompleteItem {
    pub word: String,
    pub kind: String,
    pub menu: String,
    pub info: String,
}

/// Mathematical model of a `CompleteItem`.
pub struct CompleteItemView {
    pub word: Seq<char>,
    pub kind: Seq<char>,
    pub menu: Seq<char>,
    pub info: Seq<char>,
}

impl DeepView for CompleteItem {
    type V = CompleteItemView;

    open spec fn deep_view(&self) -> CompleteItemView {
        CompleteItemView { word: self.word@, kind: self.kind@, menu: self.menu@, info: self.info@ }
    }
}

impl View for CompleteItem {
    type V = CompleteItemView;

    open spec fn view(&self) -> CompleteItemView {
        self.deep_view()
    }
}

/// The item that the first four cells of a row give.
pub open spec fn item_of(row: Seq<Seq<char>>) -> CompleteItemView {
    CompleteItemView { word: row[0], kind: row[1], menu: row[2], info: row[3] }
}

/// The items that rows give, one for each row.
pub open spec fn items_of(rows: Seq<Seq<Seq<char>>>) -> Seq<CompleteItemView> {
    Seq::new(rows.len(), |i: int| item_of(rows[i]))
}

/// The items of the rows from position `at` on; the first row with fewer than four
/// cells gives the error.
pub open spec fn map_from(rows: Seq<Seq<Seq<char>>>, at: int) -> Result<
    Seq<CompleteItemView>,
    DecodeError,
>
    decreases rows.len() - at,
{
    if at < 0 || at >= rows.len() {
        Ok(Seq::empty())
    } else if rows[at].len() < 4 {
        Err(DecodeError::ShapeMismatch { expected: 4, actual: rows[at].len() as usize })
    } else {
        match map_from(rows, at + 1) {
            Err(e) => Err(e),
            Ok(rest) => Ok(seq![item_of(rows[at])] + rest),
        }
    }
}

/// Rows that all have four cells or more give one item each.
pub proof fn lemma_map_from(rows: Seq<Seq<Seq<char>>>, at: int)
    requires
        0 <= at <= rows.len(),
        forall|i: int| 0 <= i < rows.len() ==> (#[trigger] rows[i]).len() >= 4,
    ensures
        map_from(rows, at) == Ok::<Seq<CompleteItemView>, DecodeError>(items_of(rows).skip(at)),
    decreases rows.len() - at,
{
    if at < rows.len() {
        lemma_map_from(rows, at + 1);
        assert(seq![item_of(rows[at])] + items_of(rows).skip(at + 1) =~= items_of(rows).skip(at));
    } else {
        assert(items_of(rows).skip(at) =~= Seq::<CompleteItemView>::empty());
    }
}

impl CompleteItem {
    /// The items of the rows of a completion menu: one for each row, made of its first
    /// four cells. A row with fewer cells is an error.
    pub fn map(menu: &Vec<Vec<String>>) -> (outcome: Result<Vec<CompleteItem>, DecodeError>)
        ensures
            match outcome {
                Ok(items) => map_from(menu.deep_view(), 0) == Ok::<
                    Seq<CompleteItemView>,
                    DecodeError,
                >(items.deep_view()),
                Err(e) => map_from(menu.deep_view(), 0) == Err::<
                    Seq<CompleteItemView>,
                    DecodeError,
                >(e),
            },
    {
        let ghost rows = menu.deep_view();
        let mut items: Vec<CompleteItem> = Vec::new();
        let mut i: usize = 0;
        proof {
            assert forall|rest: Seq<CompleteItemView>| #[trigger] (items.deep_view() + rest)
                == rest by {
                assert(items.deep_view() + rest =~= rest);
            }
        }
        while i < menu.len()
            invariant
                i <= menu.len(),
                rows == menu.deep_view(),
                map_from(rows, 0) == match map_from(rows, i as int) {
                    Ok(rest) => Ok::<Seq<CompleteItemView>, DecodeError>(items.deep_view() + rest),
                    Err(e) => Err(e),
                },
            decreases menu.len() - i,
        {
            let row = &menu[i];
            assert(rows[i as int] == row.deep_view());
            if row.len() < 4 {
                return Err(DecodeError::ShapeMismatch { expected: 4, actual: row.len() });
            }
            let ghost before = items.deep_view();
            let item = CompleteItem {
                word: row[0].clone(),
                kind: row[1].clone(),
                menu: row[2].clone(),
                info: row[3].clone(),
            };
            assert(item@ == item_of(rows[i as int]));
            items.push(item);
            proof {
                assert(items.deep_view() =~= before.push(item@));
                assert forall|rest: Seq<CompleteItemView>|
                    before + (seq![item@] + rest) == #[trigger] (items.deep_view() + rest) by {
                    assert(before + (seq![item@] + rest) =~= items.deep_view() + rest);
                }
            }
            i += 1;
        }
        proof {
            assert(items.deep_view() + Seq::<CompleteItemView>::empty() =~= items.deep_view());
        }
        Ok(items)
    }
}

/// The handle of a tab page: the value by which the editor names it.
#[derive(Debug, PartialEq, Eq)]
pub struct Tabpage {
    pub code_data: Value,
}

impl DeepView for Tabpage {
    type V = ValueView;

    open spec fn deep_view(&self) -> ValueView {
        self.code_data@
    }
}

impl View for Tabpage {
    type V = ValueView;

    open spec fn view(&self) -> ValueView {
        self.deep_view()
    }
}

impl Tabpage {
    pub fn new(code_data: Value) -> (tab: Tabpage)
        ensures
            tab@ == code_data@,
    {
        Tabpage { code_data }
    }

    /// The value by which the editor names the tab page.
    pub fn get_value(&self) -> (value: &Value)
        ensures
            value@ == self@,
    {
        &self.code_data
    }
}

/// The description of one mode of the editor: its attributes as they were sent.
#[derive(Debug, PartialEq, Eq)]
pub struct ModeInfo {
    pub attrs: AttrMap,
}

impl DeepView for ModeInfo {
    type V = Entries;

    open spec fn deep_view(&self) -> Entries {
        self.attrs@
    }
}

impl View for ModeInfo {
    type V = Entries;

    open spec fn view(&self) -> Entries {
        self.deep_view()
    }
}

impl ModeInfo {
    pub fn new(attrs: AttrMap) -> (info: ModeInfo)
        ensures
            info@ == attrs@,
    {
        ModeInfo { attrs }
    }
}

/// Styled text: pieces of text, each with its attributes.
pub type ContentView = Seq<(Entries, Seq<char>)>;

/// One operation of the redraw sink, with the parameters it is called with.
#[allow(inconsistent_fields)]
pub enum RedrawOp {
    CursorGoto { row: u64, col: u64 },
    Put { text: Seq<char> },
    Clear,
    Resize { columns: u64, rows: u64 },
    HighlightSet { attrs: Entries },
    EolClear,
    SetScrollRegion { top: u64, bot: u64, left: u64, right: u64 },
    Scroll { count: i64 },
    UpdateBg { bg: i64 },
    UpdateFg { fg: i64 },
    UpdateSp { sp: i64 },
    ModeChange { mode: Seq<char>, idx: u64 },
    Mouse { on: bool },
    Busy { busy: bool },
    PopupmenuShow { menu: Seq<CompleteItemView>, selected: i64, row: u64, col: u64 },
    PopupmenuHide,
    PopupmenuSelect { selected: i64 },
    TablineUpdate { selected: ValueView, tabs: Seq<(ValueView, Option<Seq<char>>)> },
    ModeInfoSet { cursor_style_enabled: bool, mode_info: Seq<Entries> },
    CmdlineShow {
        content: ContentView,
        pos: u64,
        firstc: Seq<char>,
        prompt: Seq<char>,
        indent: u64,
        level: u64,
    },
    CmdlineHide { level: u64 },
    CmdlineBlockShow { content: Seq<ContentView> },
    CmdlineBlockAppend { content: ContentView },
    CmdlineBlockHide,
    CmdlinePos { pos: u64, level: u64 },
    CmdlineSpecialChar { c: Seq<char>, shift: bool, level: u64 },
}

/// The redraw sink: one operation for each redraw method, and the notification that
/// ends a batch.
///
/// `performed` and `redrawn` say how an operation takes the sink from one state to the
/// next; each operation promises that it is such a step, and nothing more is asked of
/// an implementation. An implementation that says nothing of its steps leaves both as
/// they are given here.
pub trait RedrawEvents: Sized {
    /// The sink goes from `pre` to `post` by the operation `op`, which asks for the
    /// repaint `outcome`.
    open spec fn performed(pre: Self, op: RedrawOp, outcome: RepaintOutcome, post: Self) -> bool {
        true
    }

    /// The sink goes from `pre` to `post` by the notification that a batch is done and
    /// `instruction` is to be repainted.
    open spec fn redrawn(pre: Self, instruction: RepaintOutcome, post: Self) -> bool {
        true
    }

    fn on_cursor_goto(&mut self, row: u64, col: u64) -> (outcome: RepaintOutcome)
        ensures
            Self::performed(*old(self), RedrawOp::CursorGoto { row, col }, outcome, *final(self)),
    ;

    fn on_put(&mut self, text: String) -> (outcome: RepaintOutcome)
        ensures
            Self::performed(*old(self), RedrawOp::Put { text: text@ }, outcome, *final(self)),
    ;

    fn on_clear(&mut self) -> (outcome: RepaintOutcome)
        ensures
            Self::performed(*old(self), RedrawOp::Clear, outcome, *final(self)),
    ;

    fn on_resize(&mut self, columns: u64, rows: u64) -> (outcome: RepaintOutcome)
        ensures
            Self::performed(*old(self), RedrawOp::Resize { columns, rows }, outcome, *final(self)),
    ;

    fn on_redraw(&mut self, mode: &RepaintOutcome)
        ensures
            Self::redrawn(*old(self), *mode, *final(self)),
    ;

    fn on_highlight_set(&mut self, attrs: AttrMap) -> (outcome: RepaintOutcome)
        ensures
            Self::performed(
                *old(self),
                RedrawOp::HighlightSet { attrs: attrs@ },
                outcome,
                *final(self),
            ),
    ;

    fn on_eol_clear(&mut self) -> (outcome: RepaintOutcome)
        ensures
            Self::performed(*old(self), RedrawOp::EolClear, outcome, *final(self)),
    ;

    fn on_set_scroll_region(&mut self, top: u64, bot: u64, left: u64, right: u64) -> (outcome:
        RepaintOutcome)
        ensures
            Self::performed(
                *old(self),
                RedrawOp::SetScrollRegion { top, bot, left, right },
                outcome,
                *final(self),
            ),
    ;

    fn on_scroll(&mut self, count: i64) -> (outcome: RepaintOutcome)
        ensures
            Self::performed(*old(self), RedrawOp::Scroll { count }, outcome, *final(self)),
    ;

    fn on_update_bg(&mut self, bg: i64) -> (outcome: RepaintOutcome)
        ensures
            Self::performed(*old(self), RedrawOp::UpdateBg { bg }, outcome, *final(self)),
    ;

    fn on_update_fg(&mut self, fg: i64) -> (outcome: RepaintOutcome)
        ensures
            Self::performed(*old(self), RedrawOp::UpdateFg { fg }, outcome, *final(self)),
    ;

    fn on_update_sp(&mut self, sp: i64) -> (outcome: RepaintOutcome)
        ensures
            Self::performed(*old(self), RedrawOp::UpdateSp { sp }, outcome, *final(self)),
    ;

    fn on_mode_change(&mut self, mode: String, idx: u64) -> (outcome: RepaintOutcome)
        ensures
            Self::performed(
                *old(self),
                RedrawOp::ModeChange { mode: mode@, idx },
                outcome,
                *final(self),
            ),
    ;

    fn on_mouse(&mut self, on: bool) -> (outcome: RepaintOutcome)
        ensures
            Self::performed(*old(self), RedrawOp::Mouse { on }, outcome, *final(self)),
    ;

    fn on_busy(&mut self, busy: bool) -> (outcome: RepaintOutcome)
        ensures
            Self::performed(*old(self), RedrawOp::Busy { busy }, outcome, *final(self)),
    ;

    fn popupmenu_show(&mut self, menu: &[CompleteItem], selected: i64, row: u64, col: u64) -> (outcome:
        RepaintOutcome)
        ensures
            Self::performed(
                *old(self),
                RedrawOp::PopupmenuShow { menu: menu.deep_view(), selected, row, col },
                outcome,
                *final(self),
            ),
    ;

    fn popupmenu_hide(&mut self) -> (outcome: RepaintOutcome)
        ensures
            Self::performed(*old(self), RedrawOp::PopupmenuHide, outcome, *final(self)),
    ;

    fn popupmenu_select(&mut self, selected: i64) -> (outcome: RepaintOutcome)
        ensures
            Self::performed(
                *old(self),
                RedrawOp::PopupmenuSelect { selected },
                outcome,
                *final(self),
            ),
    ;

    fn tabline_update(&mut self, selected: Tabpage, tabs: Vec<(Tabpage, Option<String>)>) -> (outcome:
        RepaintOutcome)
        ensures
            Self::performed(
                *old(self),
                RedrawOp::TablineUpdate { selected: selected@, tabs: tabs.deep_view() },
                outcome,
                *final(self),
            ),
    ;

    fn mode_info_set(&mut self, cursor_style_enabled: bool, mode_info: Vec<ModeInfo>) -> (outcome:
        RepaintOutcome)
        ensures
            Self::performed(
                *old(self),
                RedrawOp::ModeInfoSet { cursor_style_enabled, mode_info: mode_info.deep_view() },
                outcome,
                *final(self),
            ),
    ;

    fn cmdline_show(
        &mut self,
        content: Vec<(AttrMap, String)>,
        pos: u64,
        firstc: String,
        prompt: String,
        indent: u64,
        level: u64,
    ) -> (outcome: RepaintOutcome)
        ensures
            Self::performed(
                *old(self),
                RedrawOp::CmdlineShow {
                    content: content.deep_view(),
                    pos,
                    firstc: firstc@,
                    prompt: prompt@,
                    indent,
                    level,
                },
                outcome,
                *final(self),
            ),
    ;

    fn cmdline_hide(&mut self, level: u64) -> (outcome: RepaintOutcome)
        ensures
            Self::performed(*old(self), RedrawOp::CmdlineHide { level }, outcome, *final(self)),
    ;

    fn cmdline_block_show(&mut self, content: Vec<Vec<(AttrMap, String)>>) -> (outcome:
        RepaintOutcome)
        ensures
            Self::performed(
                *old(self),
                RedrawOp::CmdlineBlockShow { content: content.deep_view() },
                outcome,
                *final(self),
            ),
    ;

    fn cmdline_block_append(&mut self, content: Vec<(AttrMap, String)>) -> (outcome:
        RepaintOutcome)
        ensures
            Self::performed(
                *old(self),
                RedrawOp::CmdlineBlockAppend { content: content.deep_view() },
                outcome,
                *final(self),
            ),
    ;

    fn cmdline_block_hide(&mut self) -> (outcome: RepaintOutcome)
        ensures
            Self::performed(*old(self), RedrawOp::CmdlineBlockHide, outcome, *final(self)),
    ;

    fn cmdline_pos(&mut self, pos: u64, level: u64) -> (outcome: RepaintOutcome)
        ensures
            Self::performed(
                *old(self),
                RedrawOp::CmdlinePos { pos, level },
                outcome,
                *final(self),
            ),
    ;

    fn cmdline_special_char(&mut self, c: String, shift: bool, level: u64) -> (outcome:
        RepaintOutcome)
        ensures
            Self::performed(
                *old(self),
                RedrawOp::CmdlineSpecialChar { c: c@, shift, level },
                outcome,
                *final(self),
            ),
    ;
}

} // verus!
