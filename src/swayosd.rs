//! SwayOSD style sheets: `@define-color name value;` declarations.

use vstd::prelude::*;
use crate::grammar::{Class, Syntax};
use crate::laws::{
    all_from, all_in, code_from, defaults_valid, field_at, free_from, full, law_fixed_point,
    law_fixed_point_of_text, law_round_trip, lemma_comment_quiet, lemma_default_checked,
    lemma_empty_quiet, lemma_kebab_key, lemma_star_quiet, lines_wf, native_at, quiet,
    texts_valid, tree_wf, valid_key, valid_value,
};
use crate::layout::{
    parse, parsed, render, rendered, tree_of, Field, FieldModel, Layout, LayoutModel, Section,
    SectionModel,
};
use crate::schema::{schema, schema_of};
use crate::value::{Node, ThemeValue};

verus! {

/// The fields of the swayosd codec, their defaults, and the fixed lines.
pub open spec fn swayosd_layout() -> LayoutModel {
    LayoutModel {
        app: "swayosd"@,
        syntax: Syntax::DefineColor,
        header: seq![
            "/* ────────────────────────────────────────────────────────────"@,
            " * Omarchy Custom Theme for SwayOSD"@,
            " * Generated with Omarchist"@,
            " * ────────────────────────────────────────────────────────────"@,
            " */"@,
            ""@,
        ],
        sections: seq![
            SectionModel {
                name: None,
                title: ""@,
                heading: Seq::empty(),
                fields: seq![
                    FieldModel {
                        native: "background-color"@,
                        default: "#121212"@,
                        title: "Background Color"@,
                        about: "Background color of OSD"@,
                        hint: ""@,
                        color: true,
                    },
                    FieldModel {
                        native: "border-color"@,
                        default: "#8A8A8D"@,
                        title: "Border Color"@,
                        about: "Border color of OSD"@,
                        hint: ""@,
                        color: true,
                    },
                    FieldModel {
                        native: "label"@,
                        default: "#8A8A8D"@,
                        title: "Label Color"@,
                        about: "Color of text labels"@,
                        hint: ""@,
                        color: true,
                    },
                    FieldModel {
                        native: "image"@,
                        default: "#8A8A8D"@,
                        title: "Image Color"@,
                        about: "Color of icons/images"@,
                        hint: ""@,
                        color: true,
                    },
                    FieldModel {
                        native: "progress"@,
                        default: "#8A8A8D"@,
                        title: "Progress Color"@,
                        about: "Color of progress bars"@,
                        hint: ""@,
                        color: true,
                    },
                ],
            },
        ],
        trailer: Seq::empty(),
    }
}

/// The table of [`swayosd_layout`].
pub fn swayosd_table() -> (r: Layout)
    ensures
        r@ == swayosd_layout(),
{
    let r = Layout {
        app: "swayosd",
        syntax: Syntax::DefineColor,
        header: vec![
            "/* ────────────────────────────────────────────────────────────",
            " * Omarchy Custom Theme for SwayOSD",
            " * Generated with Omarchist",
            " * ────────────────────────────────────────────────────────────",
            " */",
            "",
        ],
        sections: vec![
            Section {
                name: None,
                title: "",
                heading: Vec::new(),
                fields: vec![
                    Field {
                        native: "background-color",
                        default: "#121212",
                        title: "Background Color",
                        about: "Background color of OSD",
                        hint: "",
                        color: true,
                    },
                    Field {
                        native: "border-color",
                        default: "#8A8A8D",
                        title: "Border Color",
                        about: "Border color of OSD",
                        hint: "",
                        color: true,
                    },
                    Field {
                        native: "label",
                        default: "#8A8A8D",
                        title: "Label Color",
                        about: "Color of text labels",
                        hint: "",
                        color: true,
                    },
                    Field {
                        native: "image",
                        default: "#8A8A8D",
                        title: "Image Color",
                        about: "Color of icons/images",
                        hint: "",
                        color: true,
                    },
                    Field {
                        native: "progress",
                        default: "#8A8A8D",
                        title: "Progress Color",
                        about: "Color of progress bars",
                        hint: "",
                        color: true,
                    },
                ],
            },
        ],
        trailer: Vec::new(),
    };
    proof {
        let m = swayosd_layout();
        assert(r.sections@[0]@.heading =~= m.sections[0].heading);
        assert(r.sections@[0]@.fields =~= m.sections[0].fields);
        assert(r@.header =~= m.header);
        assert(r@.sections =~= m.sections);
        assert(r@.trailer =~= m.trailer);
    }
    r
}

/// The swayosd codec.
pub struct SwayosdGenerator;

impl SwayosdGenerator {
    /// The key of this codec's part of the tree.
    pub fn get_app_name(&self) -> (r: &'static str)
        ensures
            r@ == swayosd_layout().app,
    {
        "swayosd"
    }

    /// The file the rendered text is meant for.
    pub fn get_file_name(&self) -> (r: &'static str)
        ensures
            r@ == "swayosd.css"@,
    {
        "swayosd.css"
    }

    /// The file text for `theme_data`; a field missing from the tree, or not
    /// a string there, takes its default.
    pub fn generate_config(&self, theme_data: &ThemeValue) -> (r: Result<String, String>)
        ensures
            r matches Ok(t) && t@ == rendered(swayosd_layout(), theme_data@),
    {
        Ok(render(&swayosd_table(), theme_data))
    }

    /// The schema of this codec's fields, for an editor.
    pub fn get_config_schema(&self) -> (r: ThemeValue)
        ensures
            r@ == schema_of(swayosd_layout()),
    {
        schema(&swayosd_table())
    }

    /// The tree of the fields that `content` states; the others are left out.
    pub fn parse_existing_config(&self, content: &str) -> (r: Result<ThemeValue, String>)
        ensures
            r matches Ok(v) && v@ == parsed(swayosd_layout(), content@),
    {
        Ok(parse(&swayosd_table(), content))
    }
}

/// The position, counting across sections, of the swayosd field with key `k`;
/// keys are told apart by their codes.
spec fn swayosd_slot(k: Seq<char>) -> int {
    let c = code_from(k, 0);
    if c == code_from("background-color"@, 0) {
        0
    } else if c == code_from("border-color"@, 0) {
        1
    } else if c == code_from("label"@, 0) {
        2
    } else if c == code_from("image"@, 0) {
        3
    } else if c == code_from("progress"@, 0) {
        4
    } else {
        -1
    }
}

/// Where section `i` starts in the swayosd table.
spec fn swayosd_offset(i: int) -> int {
    if i == 0 {
        0
    } else {
        5
    }
}

/// The codes of the keys and names that the swayosd table holds.
proof fn lemma_swayosd_codes()
    ensures
        code_from("background-color"@, 0) == 4659836250904169470831921089540322,
        code_from("border-color"@, 0) == 17359242777914918735493090,
        code_from("label"@, 0) == 29204459756,
        code_from("image"@, 0) == 27329591017,
        code_from("progress"@, 0) == 65248521145284976,
{
    reveal_with_fuel(code_from, 18);
    reveal_strlit("background-color");
    reveal_strlit("border-color");
    reveal_strlit("label");
    reveal_strlit("image");
    reveal_strlit("progress");
}

proof fn lemma_swayosd_slot(i: int, j: int)
    requires
        field_at(swayosd_layout(), i, j),
    ensures
        swayosd_slot(native_at(swayosd_layout(), i, j)) == swayosd_offset(i) + j,
{
    let l = swayosd_layout();
    lemma_swayosd_codes();
    if i == 0 && j == 0 {
        assert(native_at(l, i, j) == "background-color"@);
    } else if i == 0 && j == 1 {
        assert(native_at(l, i, j) == "border-color"@);
    } else if i == 0 && j == 2 {
        assert(native_at(l, i, j) == "label"@);
    } else if i == 0 && j == 3 {
        assert(native_at(l, i, j) == "image"@);
    } else if i == 0 && j == 4 {
        assert(native_at(l, i, j) == "progress"@);
    }
}

/// The swayosd table meets the conditions under which its text reads back
/// as written.
proof fn lemma_swayosd_wf()
    ensures
        lines_wf(swayosd_layout()),
        tree_wf(swayosd_layout()),
{
    let l = swayosd_layout();
    reveal_with_fuel(all_from, 18);
    reveal_with_fuel(free_from, 65);
    lemma_swayosd_codes();
    reveal_strlit("");
    assert(""@ =~= Seq::<char>::empty());
    lemma_empty_quiet(l);
    assert forall|i: int, j: int| field_at(l, i, j) implies valid_key(l.syntax, native_at(l, i, j)) && all_in(#[trigger] native_at(l, i, j), Class::Kebab) by {
        if i == 0 && j == 0 {
            reveal_strlit("background-color");
            lemma_kebab_key("background-color"@);
            assert(native_at(l, i, j) == "background-color"@);
        } else if i == 0 && j == 1 {
            reveal_strlit("border-color");
            lemma_kebab_key("border-color"@);
            assert(native_at(l, i, j) == "border-color"@);
        } else if i == 0 && j == 2 {
            reveal_strlit("label");
            lemma_kebab_key("label"@);
            assert(native_at(l, i, j) == "label"@);
        } else if i == 0 && j == 3 {
            reveal_strlit("image");
            lemma_kebab_key("image"@);
            assert(native_at(l, i, j) == "image"@);
        } else if i == 0 && j == 4 {
            reveal_strlit("progress");
            lemma_kebab_key("progress"@);
            assert(native_at(l, i, j) == "progress"@);
        }
    }
    assert forall|i: int, j: int, i2: int, j2: int|
        field_at(l, i, j) && field_at(l, i2, j2) && native_at(l, i, j) == native_at(l, i2, j2) implies i == i2 && j == j2 by {
        lemma_swayosd_slot(i, j);
        lemma_swayosd_slot(i2, j2);
    }
    reveal_strlit("/* ────────────────────────────────────────────────────────────");
    assert(free_from("/* ────────────────────────────────────────────────────────────"@, 0));
    lemma_comment_quiet(l, "/* ────────────────────────────────────────────────────────────"@);
    reveal_strlit(" * Omarchy Custom Theme for SwayOSD");
    assert(free_from(" * Omarchy Custom Theme for SwayOSD"@, 0));
    lemma_star_quiet(l, " * Omarchy Custom Theme for SwayOSD"@);
    reveal_strlit(" * Generated with Omarchist");
    assert(free_from(" * Generated with Omarchist"@, 0));
    lemma_star_quiet(l, " * Generated with Omarchist"@);
    reveal_strlit(" * ────────────────────────────────────────────────────────────");
    assert(free_from(" * ────────────────────────────────────────────────────────────"@, 0));
    lemma_star_quiet(l, " * ────────────────────────────────────────────────────────────"@);
    reveal_strlit(" */");
    assert(free_from(" */"@, 0));
    lemma_star_quiet(l, " */"@);
    assert forall|q: int| 0 <= q < l.header.len() implies quiet(l, #[trigger] l.header[q]) by {
        if q == 0 {
            assert(l.header[q] == "/* ────────────────────────────────────────────────────────────"@);
        } else if q == 1 {
            assert(l.header[q] == " * Omarchy Custom Theme for SwayOSD"@);
        } else if q == 2 {
            assert(l.header[q] == " * Generated with Omarchist"@);
        } else if q == 3 {
            assert(l.header[q] == " * ────────────────────────────────────────────────────────────"@);
        } else if q == 4 {
            assert(l.header[q] == " */"@);
        } else if q == 5 {
            assert(l.header[q] == ""@);
        }
    }
}

/// Rendering a swayosd tree that holds a value for every field, then parsing
/// the text, gives that tree back, where each value is one the syntax writes
/// and reads unchanged.
pub proof fn swayosd_round_trip(vss: Seq<Seq<Option<Seq<char>>>>)
    requires
        full(swayosd_layout(), vss),
        forall|i: int, j: int| field_at(swayosd_layout(), i, j) ==> valid_value(Syntax::DefineColor, #[trigger] vss[i][j]->0),
    ensures
        parsed(swayosd_layout(), rendered(swayosd_layout(), tree_of(swayosd_layout(), vss))) == tree_of(swayosd_layout(), vss),
{
    lemma_swayosd_wf();
    law_round_trip(swayosd_layout(), vss);
}

/// Two cycles of rendering and parsing a swayosd tree give what one gives, where
/// every text written for the tree is one the syntax reads back unchanged.
pub proof fn swayosd_fixed_point(t: Node)
    requires
        texts_valid(swayosd_layout(), t),
    ensures
        parsed(swayosd_layout(), rendered(swayosd_layout(), parsed(swayosd_layout(), rendered(swayosd_layout(), t)))) == parsed(swayosd_layout(), rendered(swayosd_layout(), t)),
{
    lemma_swayosd_wf();
    law_fixed_point(swayosd_layout(), t);
}

/// Every default of the swayosd table is a value its syntax reads back unchanged.
proof fn lemma_swayosd_defaults()
    ensures
        defaults_valid(swayosd_layout()),
{
    let l = swayosd_layout();
    reveal_with_fuel(all_from, 9);
    reveal_with_fuel(free_from, 9);
    reveal_strlit("#121212");
    assert(all_from("#121212"@, Class::NotSemi, 0) && free_from("#121212"@, 0));
    lemma_default_checked(Syntax::DefineColor, "#121212"@, Class::NotSemi);
    reveal_strlit("#8A8A8D");
    assert(all_from("#8A8A8D"@, Class::NotSemi, 0) && free_from("#8A8A8D"@, 0));
    lemma_default_checked(Syntax::DefineColor, "#8A8A8D"@, Class::NotSemi);
    assert forall|i: int, j: int| field_at(l, i, j) implies valid_value(l.syntax, #[trigger] l.sections[i].fields[j].default) by {
        if i == 0 && j == 0 {
            assert(l.sections[i].fields[j].default == "#121212"@);
        } else if i == 0 && j == 1 {
            assert(l.sections[i].fields[j].default == "#8A8A8D"@);
        } else if i == 0 && j == 2 {
            assert(l.sections[i].fields[j].default == "#8A8A8D"@);
        } else if i == 0 && j == 3 {
            assert(l.sections[i].fields[j].default == "#8A8A8D"@);
        } else if i == 0 && j == 4 {
            assert(l.sections[i].fields[j].default == "#8A8A8D"@);
        }
    }
}

/// Starting from any swayosd text, two cycles of rendering and parsing give
/// what one gives.
pub proof fn swayosd_fixed_point_of_text(x: Seq<char>)
    ensures
        ({
            let t = parsed(swayosd_layout(), x);
            parsed(swayosd_layout(), rendered(swayosd_layout(), parsed(swayosd_layout(), rendered(swayosd_layout(), t)))) == parsed(swayosd_layout(), rendered(swayosd_layout(), t))
        }),
{
    lemma_swayosd_wf();
    lemma_swayosd_defaults();
    law_fixed_point_of_text(swayosd_layout(), x);
}

} // verus!
