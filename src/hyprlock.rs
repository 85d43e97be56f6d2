//! Hyprlock color variables: `$name = rgba(r,g,b,a)` lines, the tuple kept as text.

use vstd::prelude::*;
use crate::grammar::{units_of, Class, Syntax};
use crate::laws::{
    all_from, all_in, code_from, defaults_valid, field_at, free_from, full, law_fixed_point,
    law_fixed_point_of_text, law_round_trip, lemma_comment_quiet, lemma_default_checked,
    lemma_empty_quiet, lemma_ident_key, lines_wf, native_at, quiet, texts_valid, tree_wf,
    valid_key, valid_value,
};
use crate::layout::{
    parse, parsed, render, rendered, stray_keys, stray_keys_exec, tree_of, Field, FieldModel,
    Layout, LayoutModel, Section, SectionModel,
};
use crate::schema::{schema, schema_of};
use crate::value::{Node, ThemeValue};

verus! {

/// The fields of the hyprlock codec, their defaults, and the fixed lines.
pub open spec fn hyprlock_layout() -> LayoutModel {
    LayoutModel {
        app: "hyprlock"@,
        syntax: Syntax::Macro,
        header: seq![
            "# ────────────────────────────────────────────────────────────"@,
            "# Omarchy Custom Theme for Hyprlock"@,
            "# Generated with Omarchist"@,
            "# ────────────────────────────────────────────────────────────"@,
            ""@,
        ],
        sections: seq![
            SectionModel {
                name: None,
                title: ""@,
                heading: Seq::empty(),
                fields: seq![
                    FieldModel {
                        native: "color"@,
                        default: "12,12,12,1.0"@,
                        title: "Background Color"@,
                        about: "Main background color (RGBA format)"@,
                        hint: "rgba-comma"@,
                        color: false,
                    },
                    FieldModel {
                        native: "inner_color"@,
                        default: "138,138,141,0.3"@,
                        title: "Inner Color"@,
                        about: "Inner element color (RGBA format)"@,
                        hint: "rgba-comma"@,
                        color: false,
                    },
                    FieldModel {
                        native: "outer_color"@,
                        default: "234,234,234,0.5"@,
                        title: "Outer Color"@,
                        about: "Outer element color (RGBA format)"@,
                        hint: "rgba-comma"@,
                        color: false,
                    },
                    FieldModel {
                        native: "font_color"@,
                        default: "234,234,234,1.0"@,
                        title: "Font Color"@,
                        about: "Text color (RGBA format)"@,
                        hint: "rgba-comma"@,
                        color: false,
                    },
                    FieldModel {
                        native: "check_color"@,
                        default: "245,158,11,1.0"@,
                        title: "Check Color"@,
                        about: "Check/accent color (RGBA format)"@,
                        hint: "rgba-comma"@,
                        color: false,
                    },
                ],
            },
        ],
        trailer: Seq::empty(),
    }
}

/// The table of [`hyprlock_layout`].
pub fn hyprlock_table() -> (r: Layout)
    ensures
        r@ == hyprlock_layout(),
{
    let r = Layout {
        app: "hyprlock",
        syntax: Syntax::Macro,
        header: vec![
            "# ────────────────────────────────────────────────────────────",
            "# Omarchy Custom Theme for Hyprlock",
            "# Generated with Omarchist",
            "# ────────────────────────────────────────────────────────────",
            "",
        ],
        sections: vec![
            Section {
                name: None,
                title: "",
                heading: Vec::new(),
                fields: vec![
                    Field {
                        native: "color",
                        default: "12,12,12,1.0",
                        title: "Background Color",
                        about: "Main background color (RGBA format)",
                        hint: "rgba-comma",
                        color: false,
                    },
                    Field {
                        native: "inner_color",
                        default: "138,138,141,0.3",
                        title: "Inner Color",
                        about: "Inner element color (RGBA format)",
                        hint: "rgba-comma",
                        color: false,
                    },
                    Field {
                        native: "outer_color",
                        default: "234,234,234,0.5",
                        title: "Outer Color",
                        about: "Outer element color (RGBA format)",
                        hint: "rgba-comma",
                        color: false,
                    },
                    Field {
                        native: "font_color",
                        default: "234,234,234,1.0",
                        title: "Font Color",
                        about: "Text color (RGBA format)",
                        hint: "rgba-comma",
                        color: false,
                    },
                    Field {
                        native: "check_color",
                        default: "245,158,11,1.0",
                        title: "Check Color",
                        about: "Check/accent color (RGBA format)",
                        hint: "rgba-comma",
                        color: false,
                    },
                ],
            },
        ],
        trailer: Vec::new(),
    };
    proof {
        let m = hyprlock_layout();
        assert(r.sections@[0]@.heading =~= m.sections[0].heading);
        assert(r.sections@[0]@.fields =~= m.sections[0].fields);
        assert(r@.header =~= m.header);
        assert(r@.sections =~= m.sections);
        assert(r@.trailer =~= m.trailer);
    }
    r
}

/// The hyprlock codec.
pub struct HyprlockGenerator;

impl HyprlockGenerator {
    /// The key of this codec's part of the tree.
    pub fn get_app_name(&self) -> (r: &'static str)
        ensures
            r@ == hyprlock_layout().app,
    {
        "hyprlock"
    }

    /// The file the rendered text is meant for.
    pub fn get_file_name(&self) -> (r: &'static str)
        ensures
            r@ == "hyprlock.conf"@,
    {
        "hyprlock.conf"
    }

    /// The file text for `theme_data`; a field missing from the tree, or not
    /// a string there, takes its default.
    pub fn generate_config(&self, theme_data: &ThemeValue) -> (r: Result<String, String>)
        ensures
            r matches Ok(t) && t@ == rendered(hyprlock_layout(), theme_data@),
    {
        Ok(render(&hyprlock_table(), theme_data))
    }

    /// The schema of this codec's fields, for an editor.
    pub fn get_config_schema(&self) -> (r: ThemeValue)
        ensures
            r@ == schema_of(hyprlock_layout()),
    {
        schema(&hyprlock_table())
    }

    /// The tree of the fields that `content` states; the others are left out.
    pub fn parse_existing_config(&self, content: &str) -> (r: Result<ThemeValue, String>)
        ensures
            r matches Ok(v) && v@ == parsed(hyprlock_layout(), content@),
    {
        Ok(parse(&hyprlock_table(), content))
    }

    /// The variables that `content` assigns with `rgba(...)` but that no field
    /// reads, in order: a caller may warn of them.
    pub fn unknown_variables(&self, content: &str) -> (r: Vec<String>)
        ensures
            r@.map_values(|x: String| x@) == stray_keys(
                hyprlock_layout(),
                units_of(Syntax::Macro, content@),
            ),
    {
        stray_keys_exec(&hyprlock_table(), content)
    }
}

/// The position, counting across sections, of the hyprlock field with key `k`;
/// keys are told apart by their codes.
spec fn hyprlock_slot(k: Seq<char>) -> int {
    let c = code_from(k, 0);
    if c == code_from("color"@, 0) {
        0
    } else if c == code_from("inner_color"@, 0) {
        1
    } else if c == code_from("outer_color"@, 0) {
        2
    } else if c == code_from("font_color"@, 0) {
        3
    } else if c == code_from("check_color"@, 0) {
        4
    } else {
        -1
    }
}

/// Where section `i` starts in the hyprlock table.
spec fn hyprlock_offset(i: int) -> int {
    if i == 0 {
        0
    } else {
        5
    }
}

/// The codes of the keys and names that the hyprlock table holds.
proof fn lemma_hyprlock_codes()
    ensures
        code_from("color"@, 0) == 30836209635,
        code_from("inner_color"@, 0) == 135619084204178289702761,
        code_from("outer_color"@, 0) == 135619084204178289801967,
        code_from("font_color"@, 0) == 1059524095345147230182,
        code_from("check_color"@, 0) == 135619084204176406312035,
{
    reveal_with_fuel(code_from, 13);
    reveal_strlit("color");
    reveal_strlit("inner_color");
    reveal_strlit("outer_color");
    reveal_strlit("font_color");
    reveal_strlit("check_color");
}

proof fn lemma_hyprlock_slot(i: int, j: int)
    requires
        field_at(hyprlock_layout(), i, j),
    ensures
        hyprlock_slot(native_at(hyprlock_layout(), i, j)) == hyprlock_offset(i) + j,
{
    let l = hyprlock_layout();
    lemma_hyprlock_codes();
    if i == 0 && j == 0 {
        assert(native_at(l, i, j) == "color"@);
    } else if i == 0 && j == 1 {
        assert(native_at(l, i, j) == "inner_color"@);
    } else if i == 0 && j == 2 {
        assert(native_at(l, i, j) == "outer_color"@);
    } else if i == 0 && j == 3 {
        assert(native_at(l, i, j) == "font_color"@);
    } else if i == 0 && j == 4 {
        assert(native_at(l, i, j) == "check_color"@);
    }
}

/// The hyprlock table meets the conditions under which its text reads back
/// as written.
proof fn lemma_hyprlock_wf()
    ensures
        lines_wf(hyprlock_layout()),
        tree_wf(hyprlock_layout()),
{
    let l = hyprlock_layout();
    reveal_with_fuel(all_from, 13);
    reveal_with_fuel(free_from, 64);
    lemma_hyprlock_codes();
    reveal_strlit("");
    assert(""@ =~= Seq::<char>::empty());
    lemma_empty_quiet(l);
    assert forall|i: int, j: int| field_at(l, i, j) implies valid_key(l.syntax, native_at(l, i, j)) && all_in(#[trigger] native_at(l, i, j), Class::Ident) by {
        if i == 0 && j == 0 {
            reveal_strlit("color");
            lemma_ident_key("color"@);
            assert(native_at(l, i, j) == "color"@);
        } else if i == 0 && j == 1 {
            reveal_strlit("inner_color");
            lemma_ident_key("inner_color"@);
            assert(native_at(l, i, j) == "inner_color"@);
        } else if i == 0 && j == 2 {
            reveal_strlit("outer_color");
            lemma_ident_key("outer_color"@);
            assert(native_at(l, i, j) == "outer_color"@);
        } else if i == 0 && j == 3 {
            reveal_strlit("font_color");
            lemma_ident_key("font_color"@);
            assert(native_at(l, i, j) == "font_color"@);
        } else if i == 0 && j == 4 {
            reveal_strlit("check_color");
            lemma_ident_key("check_color"@);
            assert(native_at(l, i, j) == "check_color"@);
        }
    }
    assert forall|i: int, j: int, i2: int, j2: int|
        field_at(l, i, j) && field_at(l, i2, j2) && native_at(l, i, j) == native_at(l, i2, j2) implies i == i2 && j == j2 by {
        lemma_hyprlock_slot(i, j);
        lemma_hyprlock_slot(i2, j2);
    }
    reveal_strlit("# ────────────────────────────────────────────────────────────");
    assert(free_from("# ────────────────────────────────────────────────────────────"@, 0));
    lemma_comment_quiet(l, "# ────────────────────────────────────────────────────────────"@);
    reveal_strlit("# Omarchy Custom Theme for Hyprlock");
    assert(free_from("# Omarchy Custom Theme for Hyprlock"@, 0));
    lemma_comment_quiet(l, "# Omarchy Custom Theme for Hyprlock"@);
    reveal_strlit("# Generated with Omarchist");
    assert(free_from("# Generated with Omarchist"@, 0));
    lemma_comment_quiet(l, "# Generated with Omarchist"@);
    assert forall|q: int| 0 <= q < l.header.len() implies quiet(l, #[trigger] l.header[q]) by {
        if q == 0 {
            assert(l.header[q] == "# ────────────────────────────────────────────────────────────"@);
        } else if q == 1 {
            assert(l.header[q] == "# Omarchy Custom Theme for Hyprlock"@);
        } else if q == 2 {
            assert(l.header[q] == "# Generated with Omarchist"@);
        } else if q == 3 {
            assert(l.header[q] == "# ────────────────────────────────────────────────────────────"@);
        } else if q == 4 {
            assert(l.header[q] == ""@);
        }
    }
}

/// Rendering a hyprlock tree that holds a value for every field, then parsing
/// the text, gives that tree back, where each value is one the syntax writes
/// and reads unchanged.
pub proof fn hyprlock_round_trip(vss: Seq<Seq<Option<Seq<char>>>>)
    requires
        full(hyprlock_layout(), vss),
        forall|i: int, j: int| field_at(hyprlock_layout(), i, j) ==> valid_value(Syntax::Macro, #[trigger] vss[i][j]->0),
    ensures
        parsed(hyprlock_layout(), rendered(hyprlock_layout(), tree_of(hyprlock_layout(), vss))) == tree_of(hyprlock_layout(), vss),
{
    lemma_hyprlock_wf();
    law_round_trip(hyprlock_layout(), vss);
}

/// Two cycles of rendering and parsing a hyprlock tree give what one gives, where
/// every text written for the tree is one the syntax reads back unchanged.
pub proof fn hyprlock_fixed_point(t: Node)
    requires
        texts_valid(hyprlock_layout(), t),
    ensures
        parsed(hyprlock_layout(), rendered(hyprlock_layout(), parsed(hyprlock_layout(), rendered(hyprlock_layout(), t)))) == parsed(hyprlock_layout(), rendered(hyprlock_layout(), t)),
{
    lemma_hyprlock_wf();
    law_fixed_point(hyprlock_layout(), t);
}

/// Every default of the hyprlock table is a value its syntax reads back unchanged.
proof fn lemma_hyprlock_defaults()
    ensures
        defaults_valid(hyprlock_layout()),
{
    let l = hyprlock_layout();
    reveal_with_fuel(all_from, 17);
    reveal_with_fuel(free_from, 17);
    reveal_strlit("12,12,12,1.0");
    assert(all_from("12,12,12,1.0"@, Class::NotParen, 0) && free_from("12,12,12,1.0"@, 0));
    lemma_default_checked(Syntax::Macro, "12,12,12,1.0"@, Class::NotParen);
    reveal_strlit("138,138,141,0.3");
    assert(all_from("138,138,141,0.3"@, Class::NotParen, 0) && free_from("138,138,141,0.3"@, 0));
    lemma_default_checked(Syntax::Macro, "138,138,141,0.3"@, Class::NotParen);
    reveal_strlit("234,234,234,0.5");
    assert(all_from("234,234,234,0.5"@, Class::NotParen, 0) && free_from("234,234,234,0.5"@, 0));
    lemma_default_checked(Syntax::Macro, "234,234,234,0.5"@, Class::NotParen);
    reveal_strlit("234,234,234,1.0");
    assert(all_from("234,234,234,1.0"@, Class::NotParen, 0) && free_from("234,234,234,1.0"@, 0));
    lemma_default_checked(Syntax::Macro, "234,234,234,1.0"@, Class::NotParen);
    reveal_strlit("245,158,11,1.0");
    assert(all_from("245,158,11,1.0"@, Class::NotParen, 0) && free_from("245,158,11,1.0"@, 0));
    lemma_default_checked(Syntax::Macro, "245,158,11,1.0"@, Class::NotParen);
    assert forall|i: int, j: int| field_at(l, i, j) implies valid_value(l.syntax, #[trigger] l.sections[i].fields[j].default) by {
        if i == 0 && j == 0 {
            assert(l.sections[i].fields[j].default == "12,12,12,1.0"@);
        } else if i == 0 && j == 1 {
            assert(l.sections[i].fields[j].default == "138,138,141,0.3"@);
        } else if i == 0 && j == 2 {
            assert(l.sections[i].fields[j].default == "234,234,234,0.5"@);
        } else if i == 0 && j == 3 {
            assert(l.sections[i].fields[j].default == "234,234,234,1.0"@);
        } else if i == 0 && j == 4 {
            assert(l.sections[i].fields[j].default == "245,158,11,1.0"@);
        }
    }
}

/// Starting from any hyprlock text, two cycles of rendering and parsing give
/// what one gives.
pub proof fn hyprlock_fixed_point_of_text(x: Seq<char>)
    ensures
        ({
            let t = parsed(hyprlock_layout(), x);
            parsed(hyprlock_layout(), rendered(hyprlock_layout(), parsed(hyprlock_layout(), rendered(hyprlock_layout(), t)))) == parsed(hyprlock_layout(), rendered(hyprlock_layout(), t))
        }),
{
    lemma_hyprlock_wf();
    lemma_hyprlock_defaults();
    law_fixed_point_of_text(hyprlock_layout(), x);
}

} // verus!
