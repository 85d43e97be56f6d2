//! Waybar style sheets: `@define-color name value;` declarations.

use vstd::prelude::*;
use crate::grammar::{Class, Syntax};
use crate::laws::{
    all_from, all_in, code_from, defaults_valid, field_at, free_from, full, law_fixed_point,
    law_fixed_point_of_text, law_round_trip, lemma_comment_quiet, lemma_default_checked,
    lemma_empty_quiet, lemma_kebab_key, lemma_star_quiet, lines_wf, native_at, quiet,
    texts_valid, tree_wf, valid_key, valid_value,
};
use crate::layout::{
    parse, parsed, render, rendered, tree_of, Field, FieldModel, Layout, LayoutModel, Section,
    SectionModel,
};
use crate::schema::{schema, schema_of};
use crate::value::{Node, ThemeValue};

verus! {

/// The fields of the waybar codec, their defaults, and the fixed lines.
pub open spec fn waybar_layout() -> LayoutModel {
    LayoutModel {
        app: "waybar"@,
        syntax: Syntax::DefineColor,
        header: seq![
            "/* ────────────────────────────────────────────────────────────"@,
            " * Omarchy Custom Theme for Waybar"@,
            " * Generated with Omarchist"@,
            " * ────────────────────────────────────────────────────────────"@,
            " */"@,
            ""@,
        ],
        sections: seq![
            SectionModel {
                name: Some("main"@),
                title: ""@,
                heading: Seq::empty(),
                fields: seq![
                    FieldModel {
                        native: "background"@,
                        default: "#1e1e1e"@,
                        title: "Background"@,
                        about: ""@,
                        hint: ""@,
                        color: true,
                    },
                    FieldModel {
                        native: "foreground"@,
                        default: "#8a8a8d"@,
                        title: "Foreground"@,
                        about: ""@,
                        hint: ""@,
                        color: true,
                    },
                ],
            },
        ],
        trailer: Seq::empty(),
    }
}

/// The table of [`waybar_layout`].
pub fn waybar_table() -> (r: Layout)
    ensures
        r@ == waybar_layout(),
{
    let r = Layout {
        app: "waybar",
        syntax: Syntax::DefineColor,
        header: vec![
            "/* ────────────────────────────────────────────────────────────",
            " * Omarchy Custom Theme for Waybar",
            " * Generated with Omarchist",
            " * ────────────────────────────────────────────────────────────",
            " */",
            "",
        ],
        sections: vec![
            Section {
                name: Some("main"),
                title: "",
                heading: Vec::new(),
                fields: vec![
                    Field {
                        native: "background",
                        default: "#1e1e1e",
                        title: "Background",
                        about: "",
                        hint: "",
                        color: true,
                    },
                    Field {
                        native: "foreground",
                        default: "#8a8a8d",
                        title: "Foreground",
                        about: "",
                        hint: "",
                        color: true,
                    },
                ],
            },
        ],
        trailer: Vec::new(),
    };
    proof {
        let m = waybar_layout();
        assert(r.sections@[0]@.heading =~= m.sections[0].heading);
        assert(r.sections@[0]@.fields =~= m.sections[0].fields);
        assert(r@.header =~= m.header);
        assert(r@.sections =~= m.sections);
        assert(r@.trailer =~= m.trailer);
    }
    r
}

/// The waybar codec.
pub struct WaybarGenerator;

impl WaybarGenerator {
    /// The key of this codec's part of the tree.
    pub fn get_app_name(&self) -> (r: &'static str)
        ensures
            r@ == waybar_layout().app,
    {
        "waybar"
    }

    /// The file the rendered text is meant for.
    pub fn get_file_name(&self) -> (r: &'static str)
        ensures
            r@ == "waybar.css"@,
    {
        "waybar.css"
    }

    /// The file text for `theme_data`; a field missing from the tree, or not
    /// a string there, takes its default.
    pub fn generate_config(&self, theme_data: &ThemeValue) -> (r: Result<String, String>)
        ensures
            r matches Ok(t) && t@ == rendered(waybar_layout(), theme_data@),
    {
        Ok(render(&waybar_table(), theme_data))
    }

    /// The schema of this codec's fields, for an editor.
    pub fn get_config_schema(&self) -> (r: ThemeValue)
        ensures
            r@ == schema_of(waybar_layout()),
    {
        schema(&waybar_table())
    }

    /// The tree of the fields that `content` states; the others are left out.
    pub fn parse_existing_config(&self, content: &str) -> (r: Result<ThemeValue, String>)
        ensures
            r matches Ok(v) && v@ == parsed(waybar_layout(), content@),
    {
        Ok(parse(&waybar_table(), content))
    }
}

/// The position, counting across sections, of the waybar field with key `k`;
/// keys are told apart by their codes.
spec fn waybar_slot(k: Seq<char>) -> int {
    let c = code_from(k, 0);
    if c == code_from("background"@, 0) {
        0
    } else if c == code_from("foreground"@, 0) {
        1
    } else {
        -1
    }
}

/// Where section `i` starts in the waybar table.
spec fn waybar_offset(i: int) -> int {
    if i == 0 {
        0
    } else {
        2
    }
}

/// The codes of the keys and names that the waybar table holds.
proof fn lemma_waybar_codes()
    ensures
        code_from("background"@, 0) == 930329896302247735522,
        code_from("foreground"@, 0) == 930329896302235400166,
        code_from("main"@, 0) == 232419565,
{
    reveal_with_fuel(code_from, 12);
    reveal_strlit("background");
    reveal_strlit("foreground");
    reveal_strlit("main");
}

proof fn lemma_waybar_slot(i: int, j: int)
    requires
        field_at(waybar_layout(), i, j),
    ensures
        waybar_slot(native_at(waybar_layout(), i, j)) == waybar_offset(i) + j,
{
    let l = waybar_layout();
    lemma_waybar_codes();
    if i == 0 && j == 0 {
        assert(native_at(l, i, j) == "background"@);
    } else if i == 0 && j == 1 {
        assert(native_at(l, i, j) == "foreground"@);
    }
}

/// The waybar table meets the conditions under which its text reads back
/// as written.
proof fn lemma_waybar_wf()
    ensures
        lines_wf(waybar_layout()),
        tree_wf(waybar_layout()),
{
    let l = waybar_layout();
    reveal_with_fuel(all_from, 12);
    reveal_with_fuel(free_from, 65);
    lemma_waybar_codes();
    reveal_strlit("");
    assert(""@ =~= Seq::<char>::empty());
    lemma_empty_quiet(l);
    assert forall|i: int, j: int| field_at(l, i, j) implies valid_key(l.syntax, native_at(l, i, j)) && all_in(#[trigger] native_at(l, i, j), Class::Kebab) by {
        if i == 0 && j == 0 {
            reveal_strlit("background");
            lemma_kebab_key("background"@);
            assert(native_at(l, i, j) == "background"@);
        } else if i == 0 && j == 1 {
            reveal_strlit("foreground");
            lemma_kebab_key("foreground"@);
            assert(native_at(l, i, j) == "foreground"@);
        }
    }
    assert forall|i: int, j: int, i2: int, j2: int|
        field_at(l, i, j) && field_at(l, i2, j2) && native_at(l, i, j) == native_at(l, i2, j2) implies i == i2 && j == j2 by {
        lemma_waybar_slot(i, j);
        lemma_waybar_slot(i2, j2);
    }
    reveal_strlit("/* ────────────────────────────────────────────────────────────");
    assert(free_from("/* ────────────────────────────────────────────────────────────"@, 0));
    lemma_comment_quiet(l, "/* ────────────────────────────────────────────────────────────"@);
    reveal_strlit(" * Omarchy Custom Theme for Waybar");
    assert(free_from(" * Omarchy Custom Theme for Waybar"@, 0));
    lemma_star_quiet(l, " * Omarchy Custom Theme for Waybar"@);
    reveal_strlit(" * Generated with Omarchist");
    assert(free_from(" * Generated with Omarchist"@, 0));
    lemma_star_quiet(l, " * Generated with Omarchist"@);
    reveal_strlit(" * ────────────────────────────────────────────────────────────");
    assert(free_from(" * ────────────────────────────────────────────────────────────"@, 0));
    lemma_star_quiet(l, " * ────────────────────────────────────────────────────────────"@);
    reveal_strlit(" */");
    assert(free_from(" */"@, 0));
    lemma_star_quiet(l, " */"@);
    assert forall|q: int| 0 <= q < l.header.len() implies quiet(l, #[trigger] l.header[q]) by {
        if q == 0 {
            assert(l.header[q] == "/* ────────────────────────────────────────────────────────────"@);
        } else if q == 1 {
            assert(l.header[q] == " * Omarchy Custom Theme for Waybar"@);
        } else if q == 2 {
            assert(l.header[q] == " * Generated with Omarchist"@);
        } else if q == 3 {
            assert(l.header[q] == " * ────────────────────────────────────────────────────────────"@);
        } else if q == 4 {
            assert(l.header[q] == " */"@);
        } else if q == 5 {
            assert(l.header[q] == ""@);
        }
    }
}

/// Rendering a waybar tree that holds a value for every field, then parsing
/// the text, gives that tree back, where each value is one the syntax writes
/// and reads unchanged.
pub proof fn waybar_round_trip(vss: Seq<Seq<Option<Seq<char>>>>)
    requires
        full(waybar_layout(), vss),
        forall|i: int, j: int| field_at(waybar_layout(), i, j) ==> valid_value(Syntax::DefineColor, #[trigger] vss[i][j]->0),
    ensures
        parsed(waybar_layout(), rendered(waybar_layout(), tree_of(waybar_layout(), vss))) == tree_of(waybar_layout(), vss),
{
    lemma_waybar_wf();
    law_round_trip(waybar_layout(), vss);
}

/// Two cycles of rendering and parsing a waybar tree give what one gives, where
/// every text written for the tree is one the syntax reads back unchanged.
pub proof fn waybar_fixed_point(t: Node)
    requires
        texts_valid(waybar_layout(), t),
    ensures
        parsed(waybar_layout(), rendered(waybar_layout(), parsed(waybar_layout(), rendered(waybar_layout(), t)))) == parsed(waybar_layout(), rendered(waybar_layout(), t)),
{
    lemma_waybar_wf();
    law_fixed_point(waybar_layout(), t);
}

/// Every default of the waybar table is a value its syntax reads back unchanged.
proof fn lemma_waybar_defaults()
    ensures
        defaults_valid(waybar_layout()),
{
    let l = waybar_layout();
    reveal_with_fuel(all_from, 9);
    reveal_with_fuel(free_from, 9);
    reveal_strlit("#1e1e1e");
    assert(all_from("#1e1e1e"@, Class::NotSemi, 0) && free_from("#1e1e1e"@, 0));
    lemma_default_checked(Syntax::DefineColor, "#1e1e1e"@, Class::NotSemi);
    reveal_strlit("#8a8a8d");
    assert(all_from("#8a8a8d"@, Class::NotSemi, 0) && free_from("#8a8a8d"@, 0));
    lemma_default_checked(Syntax::DefineColor, "#8a8a8d"@, Class::NotSemi);
    assert forall|i: int, j: int| field_at(l, i, j) implies valid_value(l.syntax, #[trigger] l.sections[i].fields[j].default) by {
        if i == 0 && j == 0 {
            assert(l.sections[i].fields[j].default == "#1e1e1e"@);
        } else if i == 0 && j == 1 {
            assert(l.sections[i].fields[j].default == "#8a8a8d"@);
        }
    }
}

/// Starting from any waybar text, two cycles of rendering and parsing give
/// what one gives.
pub proof fn waybar_fixed_point_of_text(x: Seq<char>)
    ensures
        ({
            let t = parsed(waybar_layout(), x);
            parsed(waybar_layout(), rendered(waybar_layout(), parsed(waybar_layout(), rendered(waybar_layout(), t)))) == parsed(waybar_layout(), rendered(waybar_layout(), t))
        }),
{
    lemma_waybar_wf();
    lemma_waybar_defaults();
    law_fixed_point_of_text(waybar_layout(), x);
}

} // verus!
