//! The registry of the redraw methods: the name of each, and the kinds of its
//! parameters.

use crate::coerce::ArgumentKind;
use crate::decode::{Keys, ScalarKind, TargetShape};
use crate::text::str_eq;
use vstd::prelude::*;

verus! {

/// A redraw method that the dispatcher knows.
#[derive(Clone, Copy, Debug, PartialEq, Eq, Structural)]
pub enum RedrawMethod {
    CursorGoto,
    Put,
    Clear,
    Resize,
    HighlightSet,
    EolClear,
    SetScrollRegion,
    Scroll,
    UpdateBg,
    UpdateFg,
    UpdateSp,
    ModeChange,
    MouseOn,
    MouseOff,
    BusyStart,
    BusyStop,
    PopupmenuShow,
    PopupmenuHide,
    PopupmenuSelect,
    TablineUpdate,
    ModeInfoSet,
    CmdlineShow,
    CmdlineBlockShow,
    CmdlineBlockAppend,
    CmdlineHide,
    CmdlineBlockHide,
    CmdlinePos,
    CmdlineSpecialChar,
}

/// The shape of any value, kept as it is.
pub open spec fn any_shape() -> TargetShape {
    TargetShape::Scalar(ScalarKind::Any)
}

/// The shape of a map of attributes.
pub open spec fn attrs_shape() -> TargetShape {
    TargetShape::Record(Keys::End)
}

/// The shape of styled text: pairs of a map of attributes and a text.
pub open spec fn content_shape() -> TargetShape {
    TargetShape::Sequence {
        of: Box::new(
            TargetShape::Pair(
                Box::new(attrs_shape()),
                Box::new(TargetShape::Scalar(ScalarKind::Text)),
            ),
        ),
        min_len: 0,
    }
}

/// The shape of a block of styled text: a sequence of lines of styled text.
pub open spec fn block_shape() -> TargetShape {
    TargetShape::Sequence { of: Box::new(content_shape()), min_len: 0 }
}

/// The shape of the rows of a completion menu: each row has at least four text cells.
pub open spec fn menu_shape() -> TargetShape {
    TargetShape::Sequence {
        of: Box::new(
            TargetShape::Sequence {
                of: Box::new(TargetShape::Scalar(ScalarKind::Text)),
                min_len: 4,
            },
        ),
        min_len: 0,
    }
}

/// The shape of the tabs of a tab line: each is a map that holds the key `tab`.
pub open spec fn tabs_shape() -> TargetShape {
    TargetShape::Sequence {
        of: Box::new(TargetShape::Record(Keys::Key("tab", Box::new(Keys::End)))),
        min_len: 0,
    }
}

/// The shape of the descriptions of the editor's modes: each is a map of attributes.
pub open spec fn modes_shape() -> TargetShape {
    TargetShape::Sequence { of: Box::new(attrs_shape()), min_len: 0 }
}

/// Builds the shape of any value.
pub fn make_any_shape() -> (shape: TargetShape)
    ensures
        shape == any_shape(),
{
    TargetShape::Scalar(ScalarKind::Any)
}

/// Builds the shape of a map of attributes.
pub fn make_attrs_shape() -> (shape: TargetShape)
    ensures
        shape == attrs_shape(),
{
    TargetShape::Record(Keys::End)
}

/// Builds the shape of styled text.
pub fn make_content_shape() -> (shape: TargetShape)
    ensures
        shape == content_shape(),
{
    TargetShape::Sequence {
        of: Box::new(
            TargetShape::Pair(
                Box::new(make_attrs_shape()),
                Box::new(TargetShape::Scalar(ScalarKind::Text)),
            ),
        ),
        min_len: 0,
    }
}

/// Builds the shape of a block of styled text.
pub fn make_block_shape() -> (shape: TargetShape)
    ensures
        shape == block_shape(),
{
    TargetShape::Sequence { of: Box::new(make_content_shape()), min_len: 0 }
}

/// Builds the shape of the rows of a completion menu.
pub fn make_menu_shape() -> (shape: TargetShape)
    ensures
        shape == menu_shape(),
{
    TargetShape::Sequence {
        of: Box::new(
            TargetShape::Sequence {
                of: Box::new(TargetShape::Scalar(ScalarKind::Text)),
                min_len: 4,
            },
        ),
        min_len: 0,
    }
}

/// Builds the shape of the tabs of a tab line.
pub fn make_tabs_shape() -> (shape: TargetShape)
    ensures
        shape == tabs_shape(),
{
    TargetShape::Sequence {
        of: Box::new(TargetShape::Record(Keys::Key("tab", Box::new(Keys::End)))),
        min_len: 0,
    }
}

/// Builds the shape of the descriptions of the editor's modes.
pub fn make_modes_shape() -> (shape: TargetShape)
    ensures
        shape == modes_shape(),
{
    TargetShape::Sequence { of: Box::new(make_attrs_shape()), min_len: 0 }
}

/// The methods of the registry, in the order in which a name is looked up.
pub open spec fn methods() -> Seq<RedrawMethod> {
    seq![
        RedrawMethod::CursorGoto,
        RedrawMethod::Put,
        RedrawMethod::Clear,
        RedrawMethod::Resize,
        RedrawMethod::HighlightSet,
        RedrawMethod::EolClear,
        RedrawMethod::SetScrollRegion,
        RedrawMethod::Scroll,
        RedrawMethod::UpdateBg,
        RedrawMethod::UpdateFg,
        RedrawMethod::UpdateSp,
        RedrawMethod::ModeChange,
        RedrawMethod::MouseOn,
        RedrawMethod::MouseOff,
        RedrawMethod::BusyStart,
        RedrawMethod::BusyStop,
        RedrawMethod::PopupmenuShow,
        RedrawMethod::PopupmenuHide,
        RedrawMethod::PopupmenuSelect,
        RedrawMethod::TablineUpdate,
        RedrawMethod::ModeInfoSet,
        RedrawMethod::CmdlineShow,
        RedrawMethod::CmdlineBlockShow,
        RedrawMethod::CmdlineBlockAppend,
        RedrawMethod::CmdlineHide,
        RedrawMethod::CmdlineBlockHide,
        RedrawMethod::CmdlinePos,
        RedrawMethod::CmdlineSpecialChar,
    ]
}

/// The first method from position `from` on that has the given name.
pub open spec fn method_from(name: Seq<char>, from: int) -> Option<RedrawMethod>
    decreases methods().len() - from,
{
    if from < 0 || from >= methods().len() {
        None
    } else if methods()[from].name_spec()@ == name {
        Some(methods()[from])
    } else {
        method_from(name, from + 1)
    }
}

/// The method with the given name, if the registry holds one.
pub open spec fn method_named(name: Seq<char>) -> Option<RedrawMethod> {
    method_from(name, 0)
}

/// The length of a name, its first character and its last but one.
spec fn mark(name: Seq<char>) -> (nat, char, char) {
    (name.len(), name[0], name[name.len() - 2])
}

spec fn mark_of(method: RedrawMethod) -> (nat, char, char) {
    match method {
        RedrawMethod::CursorGoto => (11, 'c', 't'),
        RedrawMethod::Put => (3, 'p', 'u'),
        RedrawMethod::Clear => (5, 'c', 'a'),
        RedrawMethod::Resize => (6, 'r', 'z'),
        RedrawMethod::HighlightSet => (13, 'h', 'e'),
        RedrawMethod::EolClear => (9, 'e', 'a'),
        RedrawMethod::SetScrollRegion => (17, 's', 'o'),
        RedrawMethod::Scroll => (6, 's', 'l'),
        RedrawMethod::UpdateBg => (9, 'u', 'b'),
        RedrawMethod::UpdateFg => (9, 'u', 'f'),
        RedrawMethod::UpdateSp => (9, 'u', 's'),
        RedrawMethod::ModeChange => (11, 'm', 'g'),
        RedrawMethod::MouseOn => (8, 'm', 'o'),
        RedrawMethod::MouseOff => (9, 'm', 'f'),
        RedrawMethod::BusyStart => (10, 'b', 'r'),
        RedrawMethod::BusyStop => (9, 'b', 'o'),
        RedrawMethod::PopupmenuShow => (14, 'p', 'o'),
        RedrawMethod::PopupmenuHide => (14, 'p', 'd'),
        RedrawMethod::PopupmenuSelect => (16, 'p', 'c'),
        RedrawMethod::TablineUpdate => (14, 't', 't'),
        RedrawMethod::ModeInfoSet => (13, 'm', 'e'),
        RedrawMethod::CmdlineShow => (12, 'c', 'o'),
        RedrawMethod::CmdlineBlockShow => (18, 'c', 'o'),
        RedrawMethod::CmdlineBlockAppend => (20, 'c', 'n'),
        RedrawMethod::CmdlineHide => (12, 'c', 'd'),
        RedrawMethod::CmdlineBlockHide => (18, 'c', 'd'),
        RedrawMethod::CmdlinePos => (11, 'c', 'o'),
        RedrawMethod::CmdlineSpecialChar => (20, 'c', 'a'),
    }
}

proof fn lemma_mark(method: RedrawMethod)
    ensures
        mark(method.name_spec()@) == mark_of(method),
{
    reveal_strlit("cursor_goto");
    reveal_strlit("put");
    reveal_strlit("clear");
    reveal_strlit("resize");
    reveal_strlit("highlight_set");
    reveal_strlit("eol_clear");
    reveal_strlit("set_scroll_region");
    reveal_strlit("scroll");
    reveal_strlit("update_bg");
    reveal_strlit("update_fg");
    reveal_strlit("update_sp");
    reveal_strlit("mode_change");
    reveal_strlit("mouse_on");
    reveal_strlit("mouse_off");
    reveal_strlit("busy_start");
    reveal_strlit("busy_stop");
    reveal_strlit("popupmenu_show");
    reveal_strlit("popupmenu_hide");
    reveal_strlit("popupmenu_select");
    reveal_strlit("tabline_update");
    reveal_strlit("mode_info_set");
    reveal_strlit("cmdline_show");
    reveal_strlit("cmdline_block_show");
    reveal_strlit("cmdline_block_append");
    reveal_strlit("cmdline_hide");
    reveal_strlit("cmdline_block_hide");
    reveal_strlit("cmdline_pos");
    reveal_strlit("cmdline_special_char");
}

/// Two methods with the same name are the same method.
pub proof fn lemma_names_distinct(a: RedrawMethod, b: RedrawMethod)
    ensures
        a.name_spec()@ == b.name_spec()@ ==> a == b,
{
    lemma_mark(a);
    lemma_mark(b);
}

/// The place of a method in the registry.
spec fn place(method: RedrawMethod) -> int {
    match method {
        RedrawMethod::CursorGoto => 0,
        RedrawMethod::Put => 1,
        RedrawMethod::Clear => 2,
        RedrawMethod::Resize => 3,
        RedrawMethod::HighlightSet => 4,
        RedrawMethod::EolClear => 5,
        RedrawMethod::SetScrollRegion => 6,
        RedrawMethod::Scroll => 7,
        RedrawMethod::UpdateBg => 8,
        RedrawMethod::UpdateFg => 9,
        RedrawMethod::UpdateSp => 10,
        RedrawMethod::ModeChange => 11,
        RedrawMethod::MouseOn => 12,
        RedrawMethod::MouseOff => 13,
        RedrawMethod::BusyStart => 14,
        RedrawMethod::BusyStop => 15,
        RedrawMethod::PopupmenuShow => 16,
        RedrawMethod::PopupmenuHide => 17,
        RedrawMethod::PopupmenuSelect => 18,
        RedrawMethod::TablineUpdate => 19,
        RedrawMethod::ModeInfoSet => 20,
        RedrawMethod::CmdlineShow => 21,
        RedrawMethod::CmdlineBlockShow => 22,
        RedrawMethod::CmdlineBlockAppend => 23,
        RedrawMethod::CmdlineHide => 24,
        RedrawMethod::CmdlineBlockHide => 25,
        RedrawMethod::CmdlinePos => 26,
        RedrawMethod::CmdlineSpecialChar => 27,
    }
}

/// The registry finds every method under its own name.
pub proof fn lemma_method_named(method: RedrawMethod)
    ensures
        method_named(method.name_spec()@) == Some(method),
{
    assert(methods()[place(method)] == method);
    lemma_method_from(method.name_spec()@, method, place(method), 0);
}

proof fn lemma_method_from(name: Seq<char>, method: RedrawMethod, at: int, from: int)
    requires
        0 <= from <= at < methods().len(),
        methods()[at] == method,
        name == method.name_spec()@,
    ensures
        method_from(name, from) == Some(method),
    decreases at - from,
{
    if from < at {
        lemma_names_distinct(methods()[from], method);
        if methods()[from] == method {
        } else {
            lemma_method_from(name, method, at, from + 1);
        }
    }
}

/// What the lookup from a position gives: a method with that name, or none where no
/// method from that position on has it.
proof fn lemma_method_from_is(name: Seq<char>, from: int)
    requires
        0 <= from <= methods().len(),
    ensures
        match method_from(name, from) {
            Some(method) => method.name_spec()@ == name,
            None => forall|i: int|
                from <= i < methods().len() ==> (#[trigger] methods()[i]).name_spec()@ != name,
        },
    decreases methods().len() - from,
{
    if from < methods().len() && methods()[from].name_spec()@ != name {
        lemma_method_from_is(name, from + 1);
    }
}

/// The registry finds a method under a name if the name is that of the method, and
/// none if it is the name of no method.
pub proof fn lemma_method_named_is(name: Seq<char>)
    ensures
        match method_named(name) {
            Some(method) => method.name_spec()@ == name,
            None => forall|method: RedrawMethod| (#[trigger] method.name_spec())@ != name,
        },
{
    lemma_method_from_is(name, 0);
    if method_named(name) is None {
        assert forall|method: RedrawMethod| (#[trigger] method.name_spec())@ != name by {
            assert(methods()[place(method)] == method);
        }
    }
}

impl RedrawMethod {
    /// The name of the method on the wire.
    pub open spec fn name_spec(self) -> &'static str {
        match self {
            RedrawMethod::CursorGoto => "cursor_goto",
            RedrawMethod::Put => "put",
            RedrawMethod::Clear => "clear",
            RedrawMethod::Resize => "resize",
            RedrawMethod::HighlightSet => "highlight_set",
            RedrawMethod::EolClear => "eol_clear",
            RedrawMethod::SetScrollRegion => "set_scroll_region",
            RedrawMethod::Scroll => "scroll",
            RedrawMethod::UpdateBg => "update_bg",
            RedrawMethod::UpdateFg => "update_fg",
            RedrawMethod::UpdateSp => "update_sp",
            RedrawMethod::ModeChange => "mode_change",
            RedrawMethod::MouseOn => "mouse_on",
            RedrawMethod::MouseOff => "mouse_off",
            RedrawMethod::BusyStart => "busy_start",
            RedrawMethod::BusyStop => "busy_stop",
            RedrawMethod::PopupmenuShow => "popupmenu_show",
            RedrawMethod::PopupmenuHide => "popupmenu_hide",
            RedrawMethod::PopupmenuSelect => "popupmenu_select",
            RedrawMethod::TablineUpdate => "tabline_update",
            RedrawMethod::ModeInfoSet => "mode_info_set",
            RedrawMethod::CmdlineShow => "cmdline_show",
            RedrawMethod::CmdlineBlockShow => "cmdline_block_show",
            RedrawMethod::CmdlineBlockAppend => "cmdline_block_append",
            RedrawMethod::CmdlineHide => "cmdline_hide",
            RedrawMethod::CmdlineBlockHide => "cmdline_block_hide",
            RedrawMethod::CmdlinePos => "cmdline_pos",
            RedrawMethod::CmdlineSpecialChar => "cmdline_special_char",
        }
    }

    /// The kinds of the method's parameters, in their order.
    pub open spec fn signature_spec(self) -> Seq<ArgumentKind> {
        match self {
            RedrawMethod::CursorGoto => seq![
                ArgumentKind::UnsignedInt,
                ArgumentKind::UnsignedInt,
            ],
            RedrawMethod::Put => seq![
                ArgumentKind::String,
            ],
            RedrawMethod::Clear => Seq::empty(),
            RedrawMethod::Resize => seq![
                ArgumentKind::UnsignedInt,
                ArgumentKind::UnsignedInt,
            ],
            RedrawMethod::HighlightSet => seq![
                ArgumentKind::Shaped(attrs_shape()),
            ],
            RedrawMethod::EolClear => Seq::empty(),
            RedrawMethod::SetScrollRegion => seq![
                ArgumentKind::UnsignedInt,
                ArgumentKind::UnsignedInt,
                ArgumentKind::UnsignedInt,
                ArgumentKind::UnsignedInt,
            ],
            RedrawMethod::Scroll => seq![
                ArgumentKind::SignedInt,
            ],
            RedrawMethod::UpdateBg => seq![
                ArgumentKind::SignedInt,
            ],
            RedrawMethod::UpdateFg => seq![
                ArgumentKind::SignedInt,
            ],
            RedrawMethod::UpdateSp => seq![
                ArgumentKind::SignedInt,
            ],
            RedrawMethod::ModeChange => seq![
                ArgumentKind::String,
                ArgumentKind::UnsignedInt,
            ],
            RedrawMethod::MouseOn => Seq::empty(),
            RedrawMethod::MouseOff => Seq::empty(),
            RedrawMethod::BusyStart => Seq::empty(),
            RedrawMethod::BusyStop => Seq::empty(),
            RedrawMethod::PopupmenuShow => seq![
                ArgumentKind::Shaped(menu_shape()),
                ArgumentKind::SignedInt,
                ArgumentKind::UnsignedInt,
                ArgumentKind::UnsignedInt,
            ],
            RedrawMethod::PopupmenuHide => Seq::empty(),
            RedrawMethod::PopupmenuSelect => seq![
                ArgumentKind::SignedInt,
            ],
            RedrawMethod::TablineUpdate => seq![
                ArgumentKind::Shaped(any_shape()),
                ArgumentKind::Shaped(tabs_shape()),
            ],
            RedrawMethod::ModeInfoSet => seq![
                ArgumentKind::Boolean,
                ArgumentKind::Shaped(modes_shape()),
            ],
            RedrawMethod::CmdlineShow => seq![
                ArgumentKind::Shaped(content_shape()),
                ArgumentKind::UnsignedInt,
                ArgumentKind::String,
                ArgumentKind::String,
                ArgumentKind::UnsignedInt,
                ArgumentKind::UnsignedInt,
            ],
            RedrawMethod::CmdlineBlockShow => seq![
                ArgumentKind::Shaped(block_shape()),
            ],
            RedrawMethod::CmdlineBlockAppend => seq![
                ArgumentKind::Shaped(content_shape()),
            ],
            RedrawMethod::CmdlineHide => seq![
                ArgumentKind::UnsignedInt,
            ],
            RedrawMethod::CmdlineBlockHide => Seq::empty(),
            RedrawMethod::CmdlinePos => seq![
                ArgumentKind::UnsignedInt,
                ArgumentKind::UnsignedInt,
            ],
            RedrawMethod::CmdlineSpecialChar => seq![
                ArgumentKind::String,
                ArgumentKind::Boolean,
                ArgumentKind::UnsignedInt,
            ],
        }
    }

    /// The name of the method on the wire.
    #[verifier::when_used_as_spec(name_spec)]
    pub fn name(self) -> (name: &'static str)
        ensures
            name == self.name_spec(),
    {
        match self {
            RedrawMethod::CursorGoto => "cursor_goto",
            RedrawMethod::Put => "put",
            RedrawMethod::Clear => "clear",
            RedrawMethod::Resize => "resize",
            RedrawMethod::HighlightSet => "highlight_set",
            RedrawMethod::EolClear => "eol_clear",
            RedrawMethod::SetScrollRegion => "set_scroll_region",
            RedrawMethod::Scroll => "scroll",
            RedrawMethod::UpdateBg => "update_bg",
            RedrawMethod::UpdateFg => "update_fg",
            RedrawMethod::UpdateSp => "update_sp",
            RedrawMethod::ModeChange => "mode_change",
            RedrawMethod::MouseOn => "mouse_on",
            RedrawMethod::MouseOff => "mouse_off",
            RedrawMethod::BusyStart => "busy_start",
            RedrawMethod::BusyStop => "busy_stop",
            RedrawMethod::PopupmenuShow => "popupmenu_show",
            RedrawMethod::PopupmenuHide => "popupmenu_hide",
            RedrawMethod::PopupmenuSelect => "popupmenu_select",
            RedrawMethod::TablineUpdate => "tabline_update",
            RedrawMethod::ModeInfoSet => "mode_info_set",
            RedrawMethod::CmdlineShow => "cmdline_show",
            RedrawMethod::CmdlineBlockShow => "cmdline_block_show",
            RedrawMethod::CmdlineBlockAppend => "cmdline_block_append",
            RedrawMethod::CmdlineHide => "cmdline_hide",
            RedrawMethod::CmdlineBlockHide => "cmdline_block_hide",
            RedrawMethod::CmdlinePos => "cmdline_pos",
            RedrawMethod::CmdlineSpecialChar => "cmdline_special_char",
        }
    }

    /// The kinds of the method's parameters, in their order.
    pub fn signature(self) -> (kinds: Vec<ArgumentKind>)
        ensures
            kinds@ == self.signature_spec(),
    {
        let mut kinds: Vec<ArgumentKind> = Vec::new();
        match self {
            RedrawMethod::CursorGoto => {
                kinds.push(ArgumentKind::UnsignedInt);
                kinds.push(ArgumentKind::UnsignedInt);
            },
            RedrawMethod::Put => {
                kinds.push(ArgumentKind::String);
            },
            RedrawMethod::Clear => {},
            RedrawMethod::Resize => {
                kinds.push(ArgumentKind::UnsignedInt);
                kinds.push(ArgumentKind::UnsignedInt);
            },
            RedrawMethod::HighlightSet => {
                kinds.push(ArgumentKind::Shaped(make_attrs_shape()));
            },
            RedrawMethod::EolClear => {},
            RedrawMethod::SetScrollRegion => {
                kinds.push(ArgumentKind::UnsignedInt);
                kinds.push(ArgumentKind::UnsignedInt);
                kinds.push(ArgumentKind::UnsignedInt);
                kinds.push(ArgumentKind::UnsignedInt);
            },
            RedrawMethod::Scroll => {
                kinds.push(ArgumentKind::SignedInt);
            },
            RedrawMethod::UpdateBg => {
                kinds.push(ArgumentKind::SignedInt);
            },
            RedrawMethod::UpdateFg => {
                kinds.push(ArgumentKind::SignedInt);
            },
            RedrawMethod::UpdateSp => {
                kinds.push(ArgumentKind::SignedInt);
            },
            RedrawMethod::ModeChange => {
                kinds.push(ArgumentKind::String);
                kinds.push(ArgumentKind::UnsignedInt);
            },
            RedrawMethod::MouseOn => {},
            RedrawMethod::MouseOff => {},
            RedrawMethod::BusyStart => {},
            RedrawMethod::BusyStop => {},
            RedrawMethod::PopupmenuShow => {
                kinds.push(ArgumentKind::Shaped(make_menu_shape()));
                kinds.push(ArgumentKind::SignedInt);
                kinds.push(ArgumentKind::UnsignedInt);
                kinds.push(ArgumentKind::UnsignedInt);
            },
            RedrawMethod::PopupmenuHide => {},
            RedrawMethod::PopupmenuSelect => {
                kinds.push(ArgumentKind::SignedInt);
            },
            RedrawMethod::TablineUpdate => {
                kinds.push(ArgumentKind::Shaped(make_any_shape()));
                kinds.push(ArgumentKind::Shaped(make_tabs_shape()));
            },
            RedrawMethod::ModeInfoSet => {
                kinds.push(ArgumentKind::Boolean);
                kinds.push(ArgumentKind::Shaped(make_modes_shape()));
            },
            RedrawMethod::CmdlineShow => {
                kinds.push(ArgumentKind::Shaped(make_content_shape()));
                kinds.push(ArgumentKind::UnsignedInt);
                kinds.push(ArgumentKind::String);
                kinds.push(ArgumentKind::String);
                kinds.push(ArgumentKind::UnsignedInt);
                kinds.push(ArgumentKind::UnsignedInt);
            },
            RedrawMethod::CmdlineBlockShow => {
                kinds.push(ArgumentKind::Shaped(make_block_shape()));
            },
            RedrawMethod::CmdlineBlockAppend => {
                kinds.push(ArgumentKind::Shaped(make_content_shape()));
            },
            RedrawMethod::CmdlineHide => {
                kinds.push(ArgumentKind::UnsignedInt);
            },
            RedrawMethod::CmdlineBlockHide => {},
            RedrawMethod::CmdlinePos => {
                kinds.push(ArgumentKind::UnsignedInt);
                kinds.push(ArgumentKind::UnsignedInt);
            },
            RedrawMethod::CmdlineSpecialChar => {
                kinds.push(ArgumentKind::String);
                kinds.push(ArgumentKind::Boolean);
                kinds.push(ArgumentKind::UnsignedInt);
            },
        }
        assert(kinds@ =~= self.signature_spec());
        kinds
    }

    /// All the methods of the registry.
    pub fn all() -> (all: Vec<RedrawMethod>)
        ensures
            all@ == methods(),
    {
        let mut all: Vec<RedrawMethod> = Vec::new();
        all.push(RedrawMethod::CursorGoto);
        all.push(RedrawMethod::Put);
        all.push(RedrawMethod::Clear);
        all.push(RedrawMethod::Resize);
        all.push(RedrawMethod::HighlightSet);
        all.push(RedrawMethod::EolClear);
        all.push(RedrawMethod::SetScrollRegion);
        all.push(RedrawMethod::Scroll);
        all.push(RedrawMethod::UpdateBg);
        all.push(RedrawMethod::UpdateFg);
        all.push(RedrawMethod::UpdateSp);
        all.push(RedrawMethod::ModeChange);
        all.push(RedrawMethod::MouseOn);
        all.push(RedrawMethod::MouseOff);
        all.push(RedrawMethod::BusyStart);
        all.push(RedrawMethod::BusyStop);
        all.push(RedrawMethod::PopupmenuShow);
        all.push(RedrawMethod::PopupmenuHide);
        all.push(RedrawMethod::PopupmenuSelect);
        all.push(RedrawMethod::TablineUpdate);
        all.push(RedrawMethod::ModeInfoSet);
        all.push(RedrawMethod::CmdlineShow);
        all.push(RedrawMethod::CmdlineBlockShow);
        all.push(RedrawMethod::CmdlineBlockAppend);
        all.push(RedrawMethod::CmdlineHide);
        all.push(RedrawMethod::CmdlineBlockHide);
        all.push(RedrawMethod::CmdlinePos);
        all.push(RedrawMethod::CmdlineSpecialChar);
        assert(all@ =~= methods());
        all
    }

    /// The method with the given name, if the registry holds one.
    pub fn from_name(name: &str) -> (found: Option<RedrawMethod>)
        ensures
            found == method_named(name@),
    {
        let all = RedrawMethod::all();
        let mut i: usize = 0;
        while i < all.len()
            invariant
                i <= all.len(),
                all@ == methods(),
                method_from(name@, i as int) == method_named(name@),
            decreases all.len() - i,
        {
            let method = all[i];
            if str_eq(method.name(), name) {
                return Some(method);
            }
            i += 1;
        }
        None
    }
}

} // verus!
