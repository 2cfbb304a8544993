//! The layout-language parser.  A screen description is a sequence of lines:
//! block headers (`--global_settings--`, `--picture_box--`, `--label--`,
//! `--button--`, `--end--`, case-insensitive), field lines `name: value`
//! with an optional trailing `//` comment, blank lines and comment lines.
//! Parsing folds a small state machine over the lines; the result is the
//! table of controls keyed by name.

use vstd::prelude::*;

use crate::controls::{Control, ControlModel, ControlType, Controls};
use crate::text::{
    lower_spec, lower_str, split_once, split_once_spec, str_eq, trim, trim_spec,
};
use crate::{ErrorModel, UiError};

verus! {

/// Where in the document the parser stands.
#[derive(Clone, Copy, PartialEq, Eq, Structural, Debug)]
pub enum ReadState {
    Outside,
    InGlobalSettings,
    InControl,
}

/// The transient record of shared defaults, live between a
/// `--global_settings--` block and the next block header.
pub struct GlobalSettings {
    pub font_name: String,
    pub font_size: String,
    pub color: String,
}

/// The mathematical shadow of `GlobalSettings`.
pub ghost struct GlobalsModel {
    pub font_name: Seq<char>,
    pub font_size: Seq<char>,
    pub color: Seq<char>,
}

impl View for GlobalSettings {
    type V = GlobalsModel;

    open spec fn view(&self) -> GlobalsModel {
        GlobalsModel { font_name: self.font_name@, font_size: self.font_size@, color: self.color@ }
    }
}

/// The whole parser state between two lines.
pub ghost struct ParseState {
    pub mode: ReadState,
    pub globals: GlobalsModel,
    pub cur_kind: ControlType,
    pub cur_name: Seq<char>,
    pub cur_fields: Map<Seq<char>, Seq<char>>,
    pub done: Map<Seq<char>, ControlModel>,
}

/// The two defaults every control starts with.
pub open spec fn init_fields_spec() -> Map<Seq<char>, Seq<char>> {
    Map::empty().insert("dock_with"@, ""@).insert("offset"@, "0;0"@)
}

pub open spec fn init_state_spec() -> ParseState {
    ParseState {
        mode: ReadState::Outside,
        globals: GlobalsModel { font_name: ""@, font_size: ""@, color: ""@ },
        cur_kind: ControlType::PictureBox,
        cur_name: ""@,
        cur_fields: init_fields_spec(),
        done: Map::empty(),
    }
}

/// A line whose trimmed form starts with `//`: ignored everywhere.
pub open spec fn is_comment_line(s: Seq<char>) -> bool {
    trim_spec(s).len() >= 2 && trim_spec(s)[0] == '/' && trim_spec(s)[1] == '/'
}

/// A line whose trimmed form starts with `--`: claimed as a block header.
pub open spec fn is_header_like(s: Seq<char>) -> bool {
    trim_spec(s).len() >= 2 && trim_spec(s)[0] == '-' && trim_spec(s)[1] == '-'
}

/// The field seeds a `--picture_box--` header adds.
pub open spec fn seed_picture_box(f: Map<Seq<char>, Seq<char>>, g: GlobalsModel) -> Map<
    Seq<char>,
    Seq<char>,
> {
    f.insert("draw_order"@, "0.0"@).insert("top_left_position"@, ""@).insert(
        "center_position"@,
        ""@,
    ).insert("color"@, g.color)
}

/// The field seeds a `--label--` header adds.
pub open spec fn seed_label(f: Map<Seq<char>, Seq<char>>, g: GlobalsModel) -> Map<
    Seq<char>,
    Seq<char>,
> {
    f.insert("top_left_position"@, ""@).insert("center_position"@, ""@).insert(
        "color"@,
        g.color,
    ).insert("font_name"@, g.font_name).insert("font_size"@, g.font_size).insert(
        "text_string"@,
        ""@,
    )
}

/// The field seeds a `--button--` header adds.
pub open spec fn seed_button(f: Map<Seq<char>, Seq<char>>, g: GlobalsModel) -> Map<
    Seq<char>,
    Seq<char>,
> {
    f.insert("texture_name_hover"@, ""@).insert("texture_name_active"@, ""@).insert(
        "texture_name_disabled"@,
        ""@,
    ).insert("on_click_sound"@, ""@).insert("draw_order"@, "0.0"@).insert(
        "top_left_position"@,
        ""@,
    ).insert("center_position"@, ""@).insert("color"@, g.color)
}

/// Splits a field line into its lower-cased name and its trimmed value:
/// the name is the text before the first `:`, the value the text after it
/// and before any trailing `//` comment.  `None` when the part before the
/// comment holds no `:`.
pub open spec fn field_split(line: Seq<char>) -> Option<(Seq<char>, Seq<char>)> {
    let body = match split_once_spec(line, "//"@) {
        Some(t) => t.0,
        None => line,
    };
    match split_once_spec(body, ":"@) {
        Some(t) => Some((lower_spec(t.0), trim_spec(t.1))),
        None => None,
    }
}

/// One line's effect on the parser state, or the error it raises.
/// `line_no` is 1-based, as the errors cite it.
pub open spec fn parse_step(st: ParseState, line: Seq<char>, line_no: int) -> Result<
    ParseState,
    ErrorModel,
> {
    let low = lower_spec(line);
    if line.len() == 0 {
        Ok(st)
    } else if is_comment_line(line) {
        Ok(st)
    } else if low == "--global_settings--"@ {
        Ok(
            ParseState {
                mode: ReadState::InGlobalSettings,
                globals: GlobalsModel { font_name: ""@, font_size: "20"@, color: "255;255;255"@ },
                ..st
            },
        )
    } else if low == "--picture_box--"@ {
        Ok(
            ParseState {
                mode: ReadState::InControl,
                cur_kind: ControlType::PictureBox,
                cur_name: ""@,
                cur_fields: seed_picture_box(init_fields_spec(), st.globals),
                ..st
            },
        )
    } else if low == "--label--"@ {
        Ok(
            ParseState {
                mode: ReadState::InControl,
                cur_kind: ControlType::Label,
                cur_name: ""@,
                cur_fields: seed_label(init_fields_spec(), st.globals),
                ..st
            },
        )
    } else if low == "--button--"@ {
        Ok(
            ParseState {
                mode: ReadState::InControl,
                cur_kind: ControlType::Button,
                cur_name: ""@,
                cur_fields: seed_button(init_fields_spec(), st.globals),
                ..st
            },
        )
    } else if low == "--end--"@ {
        match st.mode {
            ReadState::Outside => Err(ErrorModel::Format { line_number: line_no, line }),
            ReadState::InGlobalSettings => Ok(
                ParseState {
                    mode: ReadState::Outside,
                    cur_kind: ControlType::PictureBox,
                    cur_name: ""@,
                    cur_fields: init_fields_spec(),
                    ..st
                },
            ),
            ReadState::InControl => Ok(
                ParseState {
                    mode: ReadState::Outside,
                    cur_kind: ControlType::PictureBox,
                    cur_name: ""@,
                    cur_fields: init_fields_spec(),
                    done: st.done.insert(
                        st.cur_name,
                        ControlModel {
                            kind: st.cur_kind,
                            name: st.cur_name,
                            fields: st.cur_fields,
                        },
                    ),
                    ..st
                },
            ),
        }
    } else if is_header_like(line) {
        Err(ErrorModel::Format { line_number: line_no, line })
    } else {
        match field_split(line) {
            None => Err(ErrorModel::Format { line_number: line_no, line }),
            Some(nv) => {
                let name = nv.0;
                let value = nv.1;
                match st.mode {
                    ReadState::Outside => Err(
                        ErrorModel::Format { line_number: line_no, line },
                    ),
                    ReadState::InGlobalSettings => {
                        if name == "font_name"@ {
                            Ok(
                                ParseState {
                                    globals: GlobalsModel { font_name: value, ..st.globals },
                                    ..st
                                },
                            )
                        } else if name == "font_size"@ {
                            Ok(
                                ParseState {
                                    globals: GlobalsModel { font_size: value, ..st.globals },
                                    ..st
                                },
                            )
                        } else if name == "color"@ {
                            Ok(
                                ParseState {
                                    globals: GlobalsModel { color: value, ..st.globals },
                                    ..st
                                },
                            )
                        } else {
                            Err(ErrorModel::Format { line_number: line_no, line })
                        }
                    },
                    ReadState::InControl => {
                        if name == "name"@ {
                            Ok(
                                ParseState {
                                    cur_name: value,
                                    cur_fields: st.cur_fields.insert(name, value),
                                    ..st
                                },
                            )
                        } else {
                            Ok(ParseState { cur_fields: st.cur_fields.insert(name, value), ..st },
                            )
                        }
                    },
                }
            },
        }
    }
}

/// Folds `parse_step` over the remaining lines.
pub open spec fn parse_from(st: ParseState, lines: Seq<Seq<char>>, idx: int) -> Result<
    Map<Seq<char>, ControlModel>,
    ErrorModel,
>
    decreases lines.len() - idx,
{
    if idx < 0 || idx >= lines.len() {
        Ok(st.done)
    } else {
        match parse_step(st, lines[idx], idx + 1) {
            Ok(st2) => parse_from(st2, lines, idx + 1),
            Err(e) => Err(e),
        }
    }
}

/// What a whole document parses to: the table of finished controls, or the
/// first error in line order.
pub open spec fn parse_lines(lines: Seq<Seq<char>>) -> Result<
    Map<Seq<char>, ControlModel>,
    ErrorModel,
> {
    parse_from(init_state_spec(), lines, 0)
}

/// Parsing is a pure function of the text: the same lines always give the
/// same control table (and the same error).  Parsing twice yields equal
/// results.
pub proof fn lemma_parse_deterministic(l1: Seq<Seq<char>>, l2: Seq<Seq<char>>)
    requires
        l1 == l2,
    ensures
        parse_lines(l1) == parse_lines(l2),
{
}

/// A fresh in-progress control with the two universal defaults.
fn new_block_control() -> (c: Control)
    ensures
        c.wf(),
        c@.kind == ControlType::PictureBox,
        c@.name == ""@,
        c@.fields == init_fields_spec(),
{
    let mut c = Control::default();
    c.fields.insert(String::from_str("dock_with"), String::from_str(""));
    c.fields.insert(String::from_str("offset"), String::from_str("0;0"));
    proof {
        reveal_strlit("");
        assert(""@ =~= Seq::<char>::empty());
    }
    c
}

/// Whether the trimmed line starts with the two given characters.
fn trimmed_starts_with(line: &str, c0: char, c1: char) -> (r: bool)
    ensures
        r == (trim_spec(line@).len() >= 2 && trim_spec(line@)[0] == c0 && trim_spec(line@)[1]
            == c1),
{
    let t = trim(line);
    let n = t.unicode_len();
    if n >= 2 {
        t.get_char(0) == c0 && t.get_char(1) == c1
    } else {
        false
    }
}

/// Reads a whole document.  Returns the finished control table, or the
/// first error: a `FormatError` citing the 1-based line number and the raw
/// line for an unknown header, a field line outside any block, a field line
/// without `:` before its comment, an unknown field name in
/// `--global_settings--`, or `--end--` outside any block.
pub fn instantiate_controls(lines: Vec<String>) -> (r: Result<Controls, UiError>)
    ensures
        match r {
            Ok(c) => c.wf() && parse_lines(lines@.map_values(|l: String| l@)) == Ok::<
                Map<Seq<char>, ControlModel>,
                ErrorModel,
            >(c@),
            Err(e) => parse_lines(lines@.map_values(|l: String| l@)) == Err::<
                Map<Seq<char>, ControlModel>,
                ErrorModel,
            >(e@),
        },
{
    proof {
        reveal_strlit("");
        reveal_strlit("//");
        reveal_strlit(":");
        assert(""@ =~= Seq::<char>::empty());
    }
    let ghost views = lines@.map_values(|l: String| l@);
    let mut controls = Controls::new();
    let mut read_state = ReadState::Outside;
    let mut globals = GlobalSettings {
        font_name: String::new(),
        font_size: String::new(),
        color: String::new(),
    };
    let mut control = new_block_control();

    let n = lines.len();
    let mut i: usize = 0;
    while i < n
        invariant
            n == lines@.len(),
            views == lines@.map_values(|l: String| l@),
            0 <= i <= n,
            controls.wf(),
            control.wf(),
            parse_lines(views) == parse_from(
                ParseState {
                    mode: read_state,
                    globals: globals@,
                    cur_kind: control@.kind,
                    cur_name: control@.name,
                    cur_fields: control@.fields,
                    done: controls@,
                },
                views,
                i as int,
            ),
        decreases n - i,
    {
        proof {
            reveal_strlit("");
            reveal_strlit("//");
            reveal_strlit(":");
            assert(""@ =~= Seq::<char>::empty());
        }
        let ghost st = ParseState {
            mode: read_state,
            globals: globals@,
            cur_kind: control@.kind,
            cur_name: control@.name,
            cur_fields: control@.fields,
            done: controls@,
        };
        let line: &String = &lines[i];
        proof {
            assert(views[i as int] == line@);
        }
        let line_no = i + 1;
        if line.as_str().is_empty() {
            proof {
                assert(parse_step(st, line@, line_no as int) == Ok::<ParseState, ErrorModel>(st));
            }
        } else if trimmed_starts_with(line.as_str(), '/', '/') {
            proof {
                assert(parse_step(st, line@, line_no as int) == Ok::<ParseState, ErrorModel>(st));
            }
        } else {
            let low = lower_str(line.as_str());
            if str_eq(low.as_str(), "--global_settings--") {
                read_state = ReadState::InGlobalSettings;
                globals = GlobalSettings {
                    font_name: String::new(),
                    font_size: String::from_str("20"),
                    color: String::from_str("255;255;255"),
                };
                proof {
                    reveal_strlit("");
                    assert(""@ =~= Seq::<char>::empty());
                    assert(parse_step(st, line@, line_no as int) matches Ok(st2) && st2
                        == ParseState {
                        mode: read_state,
                        globals: globals@,
                        cur_kind: control@.kind,
                        cur_name: control@.name,
                        cur_fields: control@.fields,
                        done: controls@,
                    });
                }
            } else if str_eq(low.as_str(), "--picture_box--") {
                read_state = ReadState::InControl;
                control = new_block_control();
                control.control_type = ControlType::PictureBox;
                control.fields.insert(String::from_str("draw_order"), String::from_str("0.0"));
                control.fields.insert(String::from_str("top_left_position"), String::new());
                control.fields.insert(String::from_str("center_position"), String::new());
                control.fields.insert(String::from_str("color"), globals.color.clone());
                proof {
                    reveal_strlit("");
                    assert(""@ =~= Seq::<char>::empty());
                    assert(parse_step(st, line@, line_no as int) matches Ok(st2) && st2
                        == ParseState {
                        mode: read_state,
                        globals: globals@,
                        cur_kind: control@.kind,
                        cur_name: control@.name,
                        cur_fields: control@.fields,
                        done: controls@,
                    });
                }
            } else if str_eq(low.as_str(), "--label--") {
                read_state = ReadState::InControl;
                control = new_block_control();
                control.control_type = ControlType::Label;
                control.fields.insert(String::from_str("top_left_position"), String::new());
                control.fields.insert(String::from_str("center_position"), String::new());
                control.fields.insert(String::from_str("color"), globals.color.clone());
                control.fields.insert(String::from_str("font_name"), globals.font_name.clone());
                control.fields.insert(String::from_str("font_size"), globals.font_size.clone());
                control.fields.insert(String::from_str("text_string"), String::new());
                proof {
                    reveal_strlit("");
                    assert(""@ =~= Seq::<char>::empty());
                    assert(parse_step(st, line@, line_no as int) matches Ok(st2) && st2
                        == ParseState {
                        mode: read_state,
                        globals: globals@,
                        cur_kind: control@.kind,
                        cur_name: control@.name,
                        cur_fields: control@.fields,
                        done: controls@,
                    });
                }
            } else if str_eq(low.as_str(), "--button--") {
                read_state = ReadState::InControl;
                control = new_block_control();
                control.control_type = ControlType::Button;
                control.fields.insert(String::from_str("texture_name_hover"), String::new());
                control.fields.insert(String::from_str("texture_name_active"), String::new());
                control.fields.insert(String::from_str("texture_name_disabled"), String::new());
                control.fields.insert(String::from_str("on_click_sound"), String::new());
                control.fields.insert(String::from_str("draw_order"), String::from_str("0.0"));
                control.fields.insert(String::from_str("top_left_position"), String::new());
                control.fields.insert(String::from_str("center_position"), String::new());
                control.fields.insert(String::from_str("color"), globals.color.clone());
                proof {
                    reveal_strlit("");
                    assert(""@ =~= Seq::<char>::empty());
                    assert(parse_step(st, line@, line_no as int) matches Ok(st2) && st2
                        == ParseState {
                        mode: read_state,
                        globals: globals@,
                        cur_kind: control@.kind,
                        cur_name: control@.name,
                        cur_fields: control@.fields,
                        done: controls@,
                    });
                }
            } else if str_eq(low.as_str(), "--end--") {
                match read_state {
                    ReadState::Outside => {
                        return Err(
                            UiError::FormatError { line_number: line_no, line: line.clone() },
                        );
                    },
                    ReadState::InGlobalSettings => {},
                    ReadState::InControl => {
                        controls.insert(control);
                    },
                }
                read_state = ReadState::Outside;
                control = new_block_control();
                proof {
                    reveal_strlit("");
                    assert(""@ =~= Seq::<char>::empty());
                    assert(parse_step(st, line@, line_no as int) matches Ok(st2) && st2
                        == ParseState {
                        mode: read_state,
                        globals: globals@,
                        cur_kind: control@.kind,
                        cur_name: control@.name,
                        cur_fields: control@.fields,
                        done: controls@,
                    });
                }
            } else if trimmed_starts_with(line.as_str(), '-', '-') {
                return Err(UiError::FormatError { line_number: line_no, line: line.clone() });
            } else {
                let body: &str = match split_once(line.as_str(), "//") {
                    Some(t) => t.0,
                    None => line.as_str(),
                };
                match split_once(body, ":") {
                    None => {
                        return Err(
                            UiError::FormatError { line_number: line_no, line: line.clone() },
                        );
                    },
                    Some((name_part, value_part)) => {
                        let field_name = lower_str(name_part);
                        let field_value = String::from_str(trim(value_part));
                        proof {
                            assert(field_split(line@) matches Some(nv) && nv.0 == field_name@
                                && nv.1 == field_value@);
                        }
                        match read_state {
                            ReadState::Outside => {
                                return Err(
                                    UiError::FormatError {
                                        line_number: line_no,
                                        line: line.clone(),
                                    },
                                );
                            },
                            ReadState::InGlobalSettings => {
                                if str_eq(field_name.as_str(), "font_name") {
                                    globals.font_name = field_value;
                                } else if str_eq(field_name.as_str(), "font_size") {
                                    globals.font_size = field_value;
                                } else if str_eq(field_name.as_str(), "color") {
                                    globals.color = field_value;
                                } else {
                                    return Err(
                                        UiError::FormatError {
                                            line_number: line_no,
                                            line: line.clone(),
                                        },
                                    );
                                }
                                proof {
                                    assert(parse_step(st, line@, line_no as int) matches Ok(st2)
                                        && st2 == ParseState {
                                        mode: read_state,
                                        globals: globals@,
                                        cur_kind: control@.kind,
                                        cur_name: control@.name,
                                        cur_fields: control@.fields,
                                        done: controls@,
                                    });
                                }
                            },
                            ReadState::InControl => {
                                if str_eq(field_name.as_str(), "name") {
                                    control.name = field_value.clone();
                                }
                                control.fields.insert(field_name, field_value);
                                proof {
                                    assert(parse_step(st, line@, line_no as int) matches Ok(st2)
                                        && st2 == ParseState {
                                        mode: read_state,
                                        globals: globals@,
                                        cur_kind: control@.kind,
                                        cur_name: control@.name,
                                        cur_fields: control@.fields,
                                        done: controls@,
                                    });
                                }
                            },
                        }
                    },
                }
            }
        }
        i = i + 1;
    }
    Ok(controls)
}

} // verus!
