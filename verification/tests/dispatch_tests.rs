use nvim_dispatch::attrs::AttrMap;
use nvim_dispatch::batch::{redraw_batch, BatchReport, Call};
use nvim_dispatch::coerce::{ArgumentKind, CoercionError, DispatchError};
use nvim_dispatch::decode::{DecodeError, Keys, ScalarKind, TargetShape};
use nvim_dispatch::dispatch::{call, dispatch};
use nvim_dispatch::events::{CompleteItem, ModeInfo, RedrawEvents, Tabpage};
use nvim_dispatch::method::{
    make_any_shape, make_attrs_shape, make_block_shape, make_content_shape, make_menu_shape,
    make_modes_shape, make_tabs_shape, RedrawMethod,
};
use nvim_dispatch::repaint::RepaintOutcome;
use nvim_dispatch::value::{Text, Value, ValueTag};

/// A sink that writes down each operation it is asked for.
struct Recorder {
    log: Vec<String>,
    answer: RepaintOutcome,
}

impl Recorder {
    fn new() -> Self {
        Recorder { log: Vec::new(), answer: RepaintOutcome::Area { top: 1, bot: 2, left: 3, right: 4 } }
    }

    fn note(&mut self, line: String) -> RepaintOutcome {
        self.log.push(line);
        self.answer
    }
}

fn show_attrs(attrs: &AttrMap) -> String {
    let mut parts = Vec::new();
    let mut i = 0;
    while let Some((k, v)) = attrs.entry(i) {
        parts.push(format!("{}={:?}", k, v));
        i += 1;
    }
    format!("{{{}}}", parts.join(","))
}

fn show_content(content: &Vec<(AttrMap, String)>) -> String {
    let parts: Vec<String> =
        content.iter().map(|(a, t)| format!("({},{:?})", show_attrs(a), t)).collect();
    format!("[{}]", parts.join(","))
}

impl RedrawEvents for Recorder {
    fn on_cursor_goto(&mut self, row: u64, col: u64) -> RepaintOutcome {
        self.note(format!("cursor_goto {} {}", row, col))
    }

    fn on_put(&mut self, text: String) -> RepaintOutcome {
        self.note(format!("put {:?}", text))
    }

    fn on_clear(&mut self) -> RepaintOutcome {
        self.note(format!("clear"))
    }

    fn on_resize(&mut self, columns: u64, rows: u64) -> RepaintOutcome {
        self.note(format!("resize {} {}", columns, rows))
    }

    fn on_redraw(&mut self, mode: &RepaintOutcome) {
        self.log.push(format!("redraw {:?}", mode));
    }

    fn on_highlight_set(&mut self, attrs: AttrMap) -> RepaintOutcome {
        self.note(format!("highlight_set {}", show_attrs(&attrs)))
    }

    fn on_eol_clear(&mut self) -> RepaintOutcome {
        self.note(format!("eol_clear"))
    }

    fn on_set_scroll_region(&mut self, top: u64, bot: u64, left: u64, right: u64) -> RepaintOutcome {
        self.note(format!("set_scroll_region {} {} {} {}", top, bot, left, right))
    }

    fn on_scroll(&mut self, count: i64) -> RepaintOutcome {
        self.note(format!("scroll {}", count))
    }

    fn on_update_bg(&mut self, bg: i64) -> RepaintOutcome {
        self.note(format!("update_bg {}", bg))
    }

    fn on_update_fg(&mut self, fg: i64) -> RepaintOutcome {
        self.note(format!("update_fg {}", fg))
    }

    fn on_update_sp(&mut self, sp: i64) -> RepaintOutcome {
        self.note(format!("update_sp {}", sp))
    }

    fn on_mode_change(&mut self, mode: String, idx: u64) -> RepaintOutcome {
        self.note(format!("mode_change {:?} {}", mode, idx))
    }

    fn on_mouse(&mut self, on: bool) -> RepaintOutcome {
        self.note(format!("mouse {}", on))
    }

    fn on_busy(&mut self, busy: bool) -> RepaintOutcome {
        self.note(format!("busy {}", busy))
    }

    fn popupmenu_show(&mut self, menu: &[CompleteItem], selected: i64, row: u64, col: u64) -> RepaintOutcome {
        self.note(format!("popupmenu_show {:?} {} {} {}", menu, selected, row, col))
    }

    fn popupmenu_hide(&mut self) -> RepaintOutcome {
        self.note(format!("popupmenu_hide"))
    }

    fn popupmenu_select(&mut self, selected: i64) -> RepaintOutcome {
        self.note(format!("popupmenu_select {}", selected))
    }

    fn tabline_update(&mut self, selected: Tabpage, tabs: Vec<(Tabpage, Option<String>)>) -> RepaintOutcome {
        let parts: Vec<String> =
            tabs.iter().map(|(t, n)| format!("({:?},{:?})", t.get_value(), n)).collect();
        self.note(format!("tabline_update {:?} [{}]", selected.get_value(), parts.join(",")))
    }

    fn mode_info_set(&mut self, cursor_style_enabled: bool, mode_info: Vec<ModeInfo>) -> RepaintOutcome {
        let parts: Vec<String> = mode_info.iter().map(|m| show_attrs(&m.attrs)).collect();
        self.note(format!("mode_info_set {} [{}]", cursor_style_enabled, parts.join(",")))
    }

    fn cmdline_show(
        &mut self,
        content: Vec<(AttrMap, String)>,
        pos: u64,
        firstc: String,
        prompt: String,
        indent: u64,
        level: u64,
    ) -> RepaintOutcome {
        self.note(format!(
            "cmdline_show {} {} {:?} {:?} {} {}",
            show_content(&content),
            pos,
            firstc,
            prompt,
            indent,
            level
        ))
    }

    fn cmdline_hide(&mut self, level: u64) -> RepaintOutcome {
        self.note(format!("cmdline_hide {}", level))
    }

    fn cmdline_block_show(&mut self, content: Vec<Vec<(AttrMap, String)>>) -> RepaintOutcome {
        let parts: Vec<String> = content.iter().map(show_content).collect();
        self.note(format!("cmdline_block_show [{}]", parts.join(",")))
    }

    fn cmdline_block_append(&mut self, content: Vec<(AttrMap, String)>) -> RepaintOutcome {
        self.note(format!("cmdline_block_append {}", show_content(&content)))
    }

    fn cmdline_block_hide(&mut self) -> RepaintOutcome {
        self.note(format!("cmdline_block_hide"))
    }

    fn cmdline_pos(&mut self, pos: u64, level: u64) -> RepaintOutcome {
        self.note(format!("cmdline_pos {} {}", pos, level))
    }

    fn cmdline_special_char(&mut self, c: String, shift: bool, level: u64) -> RepaintOutcome {
        self.note(format!("cmdline_special_char {:?} {} {}", c, shift, level))
    }
}

const ASKED: RepaintOutcome = RepaintOutcome::Area { top: 1, bot: 2, left: 3, right: 4 };

fn u(n: u64) -> Value {
    Value::UInt64(n)
}

fn i(n: i64) -> Value {
    Value::Int64(n)
}

fn s(text: &str) -> Value {
    Value::text(text)
}

fn map(entries: Vec<(&str, Value)>) -> Value {
    Value::Dict(entries.into_iter().map(|(k, v)| (Value::text(k), v)).collect())
}

fn row(cells: &[&str]) -> Value {
    Value::Array(cells.iter().map(|c| Value::text(c)).collect())
}

fn expect_call(method: &str, args: Vec<Value>, line: &str, asked: RepaintOutcome) {
    let mut ui = Recorder::new();
    assert_eq!(call(&mut ui, method, args), Ok(asked));
    assert_eq!(ui.log, vec![line.to_string()]);
}

fn expect_error(method: &str, args: Vec<Value>, error: DispatchError) {
    let mut ui = Recorder::new();
    assert_eq!(call(&mut ui, method, args), Err(error));
    assert!(ui.log.is_empty());
}

#[test]
fn well_typed_calls_reach_their_operation_once_with_arguments_in_order() {
    expect_call("cursor_goto", vec![u(3), u(4)], "cursor_goto 3 4", ASKED);
    expect_call("put", vec![s("x")], "put \"x\"", ASKED);
    expect_call("clear", vec![], "clear", ASKED);
    expect_call("resize", vec![u(80), i(24)], "resize 80 24", ASKED);
    expect_call("eol_clear", vec![], "eol_clear", ASKED);
    expect_call("scroll", vec![i(-2)], "scroll -2", ASKED);
    expect_call("update_bg", vec![i(-1)], "update_bg -1", ASKED);
    expect_call("update_fg", vec![u(255)], "update_fg 255", ASKED);
    expect_call("update_sp", vec![i(7)], "update_sp 7", ASKED);
    expect_call("mode_change", vec![s("insert"), u(2)], "mode_change \"insert\" 2", ASKED);
    expect_call("popupmenu_hide", vec![], "popupmenu_hide", ASKED);
    expect_call("popupmenu_select", vec![i(-1)], "popupmenu_select -1", ASKED);
    expect_call("cmdline_hide", vec![u(1)], "cmdline_hide 1", ASKED);
    expect_call("cmdline_block_hide", vec![], "cmdline_block_hide", ASKED);
    expect_call("cmdline_pos", vec![u(5), u(1)], "cmdline_pos 5 1", ASKED);
    expect_call(
        "cmdline_special_char",
        vec![s("^"), Value::Bool(true), u(1)],
        "cmdline_special_char \"^\" true 1",
        ASKED,
    );
}

#[test]
fn methods_without_arguments_stand_for_a_fixed_parameter() {
    expect_call("mouse_on", vec![], "mouse true", ASKED);
    expect_call("mouse_off", vec![], "mouse false", ASKED);
    expect_call("busy_start", vec![], "busy true", ASKED);
    expect_call("busy_stop", vec![], "busy false", ASKED);
    expect_call("clear", vec![u(1), s("more")], "clear", ASKED);
}

#[test]
fn highlight_and_scroll_region_pass_on_what_the_sink_asks() {
    expect_call(
        "highlight_set",
        vec![map(vec![("bold", Value::Bool(true)), ("foreground", u(9))])],
        "highlight_set {bold=Bool(true),foreground=UInt64(9)}",
        ASKED,
    );
    expect_call(
        "set_scroll_region",
        vec![u(0), u(10), u(1), u(79)],
        "set_scroll_region 0 10 1 79",
        ASKED,
    );
    let mut ui = Recorder::new();
    ui.answer = RepaintOutcome::Full;
    assert_eq!(call(&mut ui, "highlight_set", vec![map(vec![])]), Ok(RepaintOutcome::Full));
    assert_eq!(
        call(&mut ui, "set_scroll_region", vec![u(0), u(1), u(2), u(3)]),
        Ok(RepaintOutcome::Full)
    );
    ui.answer = RepaintOutcome::Nothing;
    assert_eq!(call(&mut ui, "highlight_set", vec![map(vec![])]), Ok(RepaintOutcome::Nothing));
    assert_eq!(ui.log.len(), 3);
}

#[test]
fn missing_arguments_fail_and_leave_the_sink() {
    expect_error("cursor_goto", vec![u(1)], DispatchError::MissingArgument { index: 1, method: "cursor_goto" });
    expect_error("cursor_goto", vec![], DispatchError::MissingArgument { index: 0, method: "cursor_goto" });
    expect_error("cursor_goto", vec![Value::Nil], DispatchError::MissingArgument { index: 1, method: "cursor_goto" });
    expect_error("put", vec![], DispatchError::MissingArgument { index: 0, method: "put" });
    expect_error(
        "cmdline_show",
        vec![Value::Array(vec![]), u(0), s(":"), s("")],
        DispatchError::MissingArgument { index: 4, method: "cmdline_show" },
    );
    expect_error(
        "popupmenu_show",
        vec![Value::Array(vec![])],
        DispatchError::MissingArgument { index: 1, method: "popupmenu_show" },
    );
    expect_error("tabline_update", vec![u(1)], DispatchError::MissingArgument { index: 1, method: "tabline_update" });
    expect_error("mode_info_set", vec![], DispatchError::MissingArgument { index: 0, method: "mode_info_set" });
}

#[test]
fn arguments_of_the_wrong_type_fail_and_leave_the_sink() {
    expect_error(
        "cursor_goto",
        vec![u(1), s("2")],
        DispatchError::Coercion {
            index: 1,
            error: CoercionError::TypeMismatch { expected: ValueTag::UInt64, actual: ValueTag::String },
        },
    );
    expect_error(
        "cursor_goto",
        vec![i(-1), s("2")],
        DispatchError::Coercion {
            index: 0,
            error: CoercionError::TypeMismatch { expected: ValueTag::UInt64, actual: ValueTag::Int64 },
        },
    );
    expect_error("put", vec![u(1)], DispatchError::Coercion { index: 0, error: CoercionError::InvalidText });
    expect_error(
        "put",
        vec![Value::String(Text::Raw(vec![0xff]))],
        DispatchError::Coercion { index: 0, error: CoercionError::InvalidText },
    );
    expect_error(
        "cmdline_special_char",
        vec![s("^"), u(1), u(1)],
        DispatchError::Coercion {
            index: 1,
            error: CoercionError::TypeMismatch { expected: ValueTag::Bool, actual: ValueTag::UInt64 },
        },
    );
    expect_error(
        "highlight_set",
        vec![Value::Array(vec![])],
        DispatchError::Coercion {
            index: 0,
            error: CoercionError::Shape(DecodeError::TypeMismatch {
                expected: ValueTag::Dict,
                actual: ValueTag::Array,
            }),
        },
    );
}

#[test]
fn unknown_redraw_methods_are_passed_over() {
    let mut ui = Recorder::new();
    assert_eq!(call(&mut ui, "future_feature", vec![u(1), Value::Nil]), Ok(RepaintOutcome::Nothing));
    assert_eq!(call(&mut ui, "", vec![]), Ok(RepaintOutcome::Nothing));
    assert_eq!(call(&mut ui, "Clear", vec![]), Ok(RepaintOutcome::Nothing));
    assert_eq!(dispatch(&mut ui, "cursor_gotoo", &vec![]), Ok(RepaintOutcome::Nothing));
    assert!(ui.log.is_empty());
}

#[test]
fn popupmenu_rows_need_four_cells() {
    expect_error(
        "popupmenu_show",
        vec![Value::Array(vec![row(&["word", "kind", "menu"])]), i(0), u(1), u(2)],
        DispatchError::Coercion {
            index: 0,
            error: CoercionError::Shape(DecodeError::ShapeMismatch { expected: 4, actual: 3 }),
        },
    );
    expect_error(
        "popupmenu_show",
        vec![
            Value::Array(vec![row(&["a", "b", "c", "d"]), row(&[])]),
            i(0),
            u(1),
            u(2),
        ],
        DispatchError::Coercion {
            index: 0,
            error: CoercionError::Shape(DecodeError::ShapeMismatch { expected: 4, actual: 0 }),
        },
    );
    expect_error(
        "popupmenu_show",
        vec![Value::Array(vec![Value::Array(vec![s("a"), s("b"), s("c"), u(4)])]), i(0), u(1), u(2)],
        DispatchError::Coercion {
            index: 0,
            error: CoercionError::Shape(DecodeError::TypeMismatch {
                expected: ValueTag::String,
                actual: ValueTag::UInt64,
            }),
        },
    );
    expect_error(
        "popupmenu_show",
        vec![s("rows"), i(0), u(1), u(2)],
        DispatchError::Coercion {
            index: 0,
            error: CoercionError::Shape(DecodeError::TypeMismatch {
                expected: ValueTag::Array,
                actual: ValueTag::String,
            }),
        },
    );
}

#[test]
fn popupmenu_rows_become_complete_items() {
    let mut ui = Recorder::new();
    let args = vec![
        Value::Array(vec![row(&["word", "kind", "menu", "info"]), row(&["w", "k", "m", "i", "extra"])]),
        i(-1),
        u(3),
        u(4),
    ];
    assert_eq!(call(&mut ui, "popupmenu_show", args), Ok(ASKED));
    let first = CompleteItem {
        word: "word".to_string(),
        kind: "kind".to_string(),
        menu: "menu".to_string(),
        info: "info".to_string(),
    };
    let second = CompleteItem {
        word: "w".to_string(),
        kind: "k".to_string(),
        menu: "m".to_string(),
        info: "i".to_string(),
    };
    assert_eq!(ui.log, vec![format!("popupmenu_show {:?} -1 3 4", vec![first, second])]);
}

#[test]
fn complete_item_map_checks_each_row() {
    let four = vec!["word".to_string(), "kind".to_string(), "menu".to_string(), "info".to_string()];
    let three = vec!["word".to_string(), "kind".to_string(), "menu".to_string()];
    assert_eq!(
        CompleteItem::map(&vec![four.clone()]),
        Ok(vec![CompleteItem {
            word: "word".to_string(),
            kind: "kind".to_string(),
            menu: "menu".to_string(),
            info: "info".to_string(),
        }])
    );
    assert_eq!(CompleteItem::map(&vec![]), Ok(vec![]));
    assert_eq!(
        CompleteItem::map(&vec![three.clone()]),
        Err(DecodeError::ShapeMismatch { expected: 4, actual: 3 })
    );
    assert_eq!(
        CompleteItem::map(&vec![four, three, vec![]]),
        Err(DecodeError::ShapeMismatch { expected: 4, actual: 3 })
    );
}

#[test]
fn tabline_rows_need_the_tab_key() {
    expect_call(
        "tabline_update",
        vec![
            Value::Extension(2, vec![1]),
            Value::Array(vec![
                map(vec![("tab", Value::Extension(2, vec![1])), ("name", s("one"))]),
                map(vec![("name", u(5)), ("tab", Value::Extension(2, vec![2]))]),
                map(vec![("tab", u(3))]),
            ]),
        ],
        "tabline_update Extension(2, [1]) [(Extension(2, [1]),Some(\"one\")),(Extension(2, [2]),None),(UInt64(3),None)]",
        ASKED,
    );
    expect_error(
        "tabline_update",
        vec![u(1), Value::Array(vec![map(vec![("tab", u(1))]), map(vec![("name", s("two"))])])],
        DispatchError::Coercion {
            index: 1,
            error: CoercionError::Shape(DecodeError::MissingField { field: "tab" }),
        },
    );
    expect_error(
        "tabline_update",
        vec![u(1), Value::Array(vec![u(1)])],
        DispatchError::Coercion {
            index: 1,
            error: CoercionError::Shape(DecodeError::TypeMismatch {
                expected: ValueTag::Dict,
                actual: ValueTag::UInt64,
            }),
        },
    );
}

#[test]
fn mode_info_rows_are_attribute_maps() {
    expect_call(
        "mode_info_set",
        vec![
            Value::Bool(true),
            Value::Array(vec![map(vec![("cursor_shape", s("block")), ("cell_percentage", u(25))]), map(vec![])]),
        ],
        "mode_info_set true [{cursor_shape=String(Utf8(\"block\")),cell_percentage=UInt64(25)},{}]",
        ASKED,
    );
    expect_error(
        "mode_info_set",
        vec![Value::Bool(true), Value::Array(vec![Value::Dict(vec![(u(1), u(2))])])],
        DispatchError::Coercion {
            index: 1,
            error: CoercionError::Shape(DecodeError::TypeMismatch {
                expected: ValueTag::String,
                actual: ValueTag::UInt64,
            }),
        },
    );
    expect_error(
        "mode_info_set",
        vec![u(1), s("bad")],
        DispatchError::Coercion {
            index: 0,
            error: CoercionError::TypeMismatch { expected: ValueTag::Bool, actual: ValueTag::UInt64 },
        },
    );
}

#[test]
fn cmdline_content_is_pairs_of_attributes_and_text() {
    let cell = |k: &str, t: &str| Value::Array(vec![map(vec![(k, u(1))]), s(t)]);
    expect_call(
        "cmdline_show",
        vec![Value::Array(vec![cell("a", "se"), cell("b", "t")]), u(2), s(":"), s(""), u(0), u(1)],
        "cmdline_show [({a=UInt64(1)},\"se\"),({b=UInt64(1)},\"t\")] 2 \":\" \"\" 0 1",
        ASKED,
    );
    expect_call(
        "cmdline_block_show",
        vec![Value::Array(vec![Value::Array(vec![cell("a", "x")]), Value::Array(vec![])])],
        "cmdline_block_show [[({a=UInt64(1)},\"x\")],[]]",
        ASKED,
    );
    expect_call(
        "cmdline_block_append",
        vec![Value::Array(vec![cell("z", "y")])],
        "cmdline_block_append [({z=UInt64(1)},\"y\")]",
        ASKED,
    );
    expect_error(
        "cmdline_block_append",
        vec![Value::Array(vec![Value::Array(vec![map(vec![]), s("t"), u(3)])])],
        DispatchError::Coercion {
            index: 0,
            error: CoercionError::Shape(DecodeError::ShapeMismatch { expected: 2, actual: 3 }),
        },
    );
}

#[test]
fn registry_knows_each_method_by_its_name() {
    let all = RedrawMethod::all();
    assert_eq!(all.len(), 28);
    for m in &all {
        assert_eq!(RedrawMethod::from_name(m.name()), Some(*m));
    }
    assert_eq!(RedrawMethod::from_name("cursor_goto"), Some(RedrawMethod::CursorGoto));
    assert_eq!(RedrawMethod::from_name("cmdline_special_char"), Some(RedrawMethod::CmdlineSpecialChar));
    assert_eq!(RedrawMethod::from_name("future_feature"), None);
    assert_eq!(
        RedrawMethod::CursorGoto.signature(),
        vec![ArgumentKind::UnsignedInt, ArgumentKind::UnsignedInt]
    );
    assert_eq!(
        RedrawMethod::CmdlineSpecialChar.signature(),
        vec![ArgumentKind::String, ArgumentKind::Boolean, ArgumentKind::UnsignedInt]
    );
    assert_eq!(RedrawMethod::Clear.signature(), vec![]);
}

#[test]
fn batch_dispatches_in_order_and_redraws_once() {
    let mut ui = Recorder::new();
    let calls = vec![
        Call { method: "cursor_goto".to_string(), args: vec![u(1), u(2)] },
        Call { method: "put".to_string(), args: vec![] },
        Call { method: "future_feature".to_string(), args: vec![] },
        Call { method: "put".to_string(), args: vec![s("a")] },
        Call { method: "scroll".to_string(), args: vec![s("up")] },
    ];
    let report = redraw_batch(&mut ui, &calls);
    assert_eq!(
        report,
        BatchReport {
            instruction: ASKED,
            failures: vec![
                (1, DispatchError::MissingArgument { index: 0, method: "put" }),
                (
                    4,
                    DispatchError::Coercion {
                        index: 0,
                        error: CoercionError::TypeMismatch {
                            expected: ValueTag::Int64,
                            actual: ValueTag::String,
                        },
                    }
                ),
            ],
        }
    );
    assert_eq!(
        ui.log,
        vec![
            "cursor_goto 1 2".to_string(),
            "put \"a\"".to_string(),
            format!("redraw {:?}", ASKED),
        ]
    );
}

#[test]
fn batch_folds_the_repaints_of_its_calls() {
    let mut ui = Recorder::new();
    ui.answer = RepaintOutcome::Cursor { row: 7, col: 8 };
    let calls = vec![
        Call { method: "cursor_goto".to_string(), args: vec![u(7), u(8)] },
        Call { method: "highlight_set".to_string(), args: vec![map(vec![])] },
    ];
    let report = redraw_batch(&mut ui, &calls);
    assert_eq!(report.instruction, RepaintOutcome::Cursor { row: 7, col: 8 });
    assert!(report.failures.is_empty());

    let mut empty = Recorder::new();
    let report = redraw_batch(&mut empty, &vec![]);
    assert_eq!(report.instruction, RepaintOutcome::Nothing);
    assert_eq!(empty.log, vec!["redraw Nothing".to_string()]);

    let mut full = Recorder::new();
    full.answer = RepaintOutcome::Full;
    let calls = vec![
        Call { method: "set_scroll_region".to_string(), args: vec![u(0), u(1), u(2), u(3)] },
        Call { method: "clear".to_string(), args: vec![] },
    ];
    assert_eq!(redraw_batch(&mut full, &calls).instruction, RepaintOutcome::Full);
    assert_eq!(full.log.len(), 3);
}

#[test]
fn registry_gives_each_parameter_its_shape() {
    let text = || TargetShape::Scalar(ScalarKind::Text);
    let attrs = || TargetShape::Record(Keys::End);
    let content = || TargetShape::Sequence {
        of: Box::new(TargetShape::Pair(Box::new(attrs()), Box::new(text()))),
        min_len: 0,
    };
    assert_eq!(make_any_shape(), TargetShape::Scalar(ScalarKind::Any));
    assert_eq!(make_attrs_shape(), attrs());
    assert_eq!(make_content_shape(), content());
    assert_eq!(make_block_shape(), TargetShape::Sequence { of: Box::new(content()), min_len: 0 });
    assert_eq!(
        make_menu_shape(),
        TargetShape::Sequence {
            of: Box::new(TargetShape::Sequence { of: Box::new(text()), min_len: 4 }),
            min_len: 0,
        }
    );
    assert_eq!(
        make_tabs_shape(),
        TargetShape::Sequence {
            of: Box::new(TargetShape::Record(Keys::Key("tab", Box::new(Keys::End)))),
            min_len: 0,
        }
    );
    assert_eq!(make_modes_shape(), TargetShape::Sequence { of: Box::new(attrs()), min_len: 0 });
    assert_eq!(
        RedrawMethod::PopupmenuShow.signature(),
        vec![
            ArgumentKind::Shaped(make_menu_shape()),
            ArgumentKind::SignedInt,
            ArgumentKind::UnsignedInt,
            ArgumentKind::UnsignedInt,
        ]
    );
    assert_eq!(
        RedrawMethod::TablineUpdate.signature(),
        vec![ArgumentKind::Shaped(make_any_shape()), ArgumentKind::Shaped(make_tabs_shape())]
    );
}
