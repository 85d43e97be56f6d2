//! Walker style sheets: `@define-color name value;` declarations.

use vstd::prelude::*;
use crate::grammar::{Class, Syntax};
use crate::laws::{
    all_from, all_in, code_from, defaults_valid, field_at, free_from, full, law_fixed_point,
    law_fixed_point_of_text, law_round_trip, lemma_comment_quiet, lemma_default_checked,
    lemma_empty_quiet, lemma_kebab_key, lemma_star_quiet, lines_wf, native_at, quiet,
    texts_valid, tree_wf, valid_key, valid_value,
};
use crate::layout::{
    parse, parsed, render, rendered, tree_of, Field, FieldModel, Layout, LayoutModel, Section,
    SectionModel,
};
use crate::schema::{schema, schema_of};
use crate::value::{Node, ThemeValue};

verus! {

/// The fields of the walker codec, their defaults, and the fixed lines.
pub open spec fn walker_layout() -> LayoutModel {
    LayoutModel {
        app: "walker"@,
        syntax: Syntax::DefineColor,
        header: seq![
            "/* ────────────────────────────────────────────────────────────"@,
            " * Omarchy Custom Theme for Walker"@,
            " * Generated with Omarchist"@,
            " * ────────────────────────────────────────────────────────────"@,
            " */"@,
            ""@,
        ],
        sections: seq![
            SectionModel {
                name: None,
                title: ""@,
                heading: Seq::empty(),
                fields: seq![
                    FieldModel {
                        native: "selected-text"@,
                        default: "#B91C1C"@,
                        title: "Selected Text Color"@,
                        about: "Color of selected text"@,
                        hint: ""@,
                        color: true,
                    },
                    FieldModel {
                        native: "text"@,
                        default: "#EAEAEA"@,
                        title: "Text Color"@,
                        about: "Color of normal text"@,
                        hint: ""@,
                        color: true,
                    },
                    FieldModel {
                        native: "base"@,
                        default: "#121212"@,
                        title: "Base Color"@,
                        about: "Base background color"@,
                        hint: ""@,
                        color: true,
                    },
                    FieldModel {
                        native: "border"@,
                        default: "EAEAEA88"@,
                        title: "Border Color"@,
                        about: "Border color (can include alpha)"@,
                        hint: "hex-alpha"@,
                        color: true,
                    },
                    FieldModel {
                        native: "foreground"@,
                        default: "#EAEAEA"@,
                        title: "Foreground Color"@,
                        about: "Primary foreground color"@,
                        hint: ""@,
                        color: true,
                    },
                    FieldModel {
                        native: "background"@,
                        default: "#121212"@,
                        title: "Background Color"@,
                        about: "Primary background color"@,
                        hint: ""@,
                        color: true,
                    },
                ],
            },
        ],
        trailer: Seq::empty(),
    }
}

/// The table of [`walker_layout`].
pub fn walker_table() -> (r: Layout)
    ensures
        r@ == walker_layout(),
{
    let r = Layout {
        app: "walker",
        syntax: Syntax::DefineColor,
        header: vec![
            "/* ────────────────────────────────────────────────────────────",
            " * Omarchy Custom Theme for Walker",
            " * Generated with Omarchist",
            " * ────────────────────────────────────────────────────────────",
            " */",
            "",
        ],
        sections: vec![
            Section {
                name: None,
                title: "",
                heading: Vec::new(),
                fields: vec![
                    Field {
                        native: "selected-text",
                        default: "#B91C1C",
                        title: "Selected Text Color",
                        about: "Color of selected text",
                        hint: "",
                        color: true,
                    },
                    Field {
                        native: "text",
                        default: "#EAEAEA",
                        title: "Text Color",
                        about: "Color of normal text",
                        hint: "",
                        color: true,
                    },
                    Field {
                        native: "base",
                        default: "#121212",
                        title: "Base Color",
                        about: "Base background color",
                        hint: "",
                        color: true,
                    },
                    Field {
                        native: "border",
                        default: "EAEAEA88",
                        title: "Border Color",
                        about: "Border color (can include alpha)",
                        hint: "hex-alpha",
                        color: true,
                    },
                    Field {
                        native: "foreground",
                        default: "#EAEAEA",
                        title: "Foreground Color",
                        about: "Primary foreground color",
                        hint: "",
                        color: true,
                    },
                    Field {
                        native: "background",
                        default: "#121212",
                        title: "Background Color",
                        about: "Primary background color",
                        hint: "",
                        color: true,
                    },
                ],
            },
        ],
        trailer: Vec::new(),
    };
    proof {
        let m = walker_layout();
        assert(r.sections@[0]@.heading =~= m.sections[0].heading);
        assert(r.sections@[0]@.fields =~= m.sections[0].fields);
        assert(r@.header =~= m.header);
        assert(r@.sections =~= m.sections);
        assert(r@.trailer =~= m.trailer);
    }
    r
}

/// The walker codec.
pub struct WalkerGenerator;

impl WalkerGenerator {
    /// The key of this codec's part of the tree.
    pub fn get_app_name(&self) -> (r: &'static str)
        ensures
            r@ == walker_layout().app,
    {
        "walker"
    }

    /// The file the rendered text is meant for.
    pub fn get_file_name(&self) -> (r: &'static str)
        ensures
            r@ == "walker.css"@,
    {
        "walker.css"
    }

    /// The file text for `theme_data`; a field missing from the tree, or not
    /// a string there, takes its default.
    pub fn generate_config(&self, theme_data: &ThemeValue) -> (r: Result<String, String>)
        ensures
            r matches Ok(t) && t@ == rendered(walker_layout(), theme_data@),
    {
        Ok(render(&walker_table(), theme_data))
    }

    /// The schema of this codec's fields, for an editor.
    pub fn get_config_schema(&self) -> (r: ThemeValue)
        ensures
            r@ == schema_of(walker_layout()),
    {
        schema(&walker_table())
    }

    /// The tree of the fields that `content` states; the others are left out.
    pub fn parse_existing_config(&self, content: &str) -> (r: Result<ThemeValue, String>)
        ensures
            r matches Ok(v) && v@ == parsed(walker_layout(), content@),
    {
        Ok(parse(&walker_table(), content))
    }
}

/// The position, counting across sections, of the walker field with key `k`;
/// keys are told apart by their codes.
spec fn walker_slot(k: Seq<char>) -> int {
    let c = code_from(k, 0);
    if c == code_from("selected-text"@, 0) {
        0
    } else if c == code_from("text"@, 0) {
        1
    } else if c == code_from("base"@, 0) {
        2
    } else if c == code_from("border"@, 0) {
        3
    } else if c == code_from("foreground"@, 0) {
        4
    } else if c == code_from("background"@, 0) {
        5
    } else {
        -1
    }
}

/// Where section `i` starts in the walker table.
spec fn walker_offset(i: int) -> int {
    if i == 0 {
        0
    } else {
        6
    }
}

/// The codes of the keys and names that the walker table holds.
proof fn lemma_walker_codes()
    ensures
        code_from("selected-text"@, 0) == 2262020521463154861835760371,
        code_from("text"@, 0) == 245248756,
        code_from("base"@, 0) == 213709026,
        code_from("border"@, 0) == 3944333752290,
        code_from("foreground"@, 0) == 930329896302235400166,
        code_from("background"@, 0) == 930329896302247735522,
{
    reveal_with_fuel(code_from, 15);
    reveal_strlit("selected-text");
    reveal_strlit("text");
    reveal_strlit("base");
    reveal_strlit("border");
    reveal_strlit("foreground");
    reveal_strlit("background");
}

proof fn lemma_walker_slot(i: int, j: int)
    requires
        field_at(walker_layout(), i, j),
    ensures
        walker_slot(native_at(walker_layout(), i, j)) == walker_offset(i) + j,
{
    let l = walker_layout();
    lemma_walker_codes();
    if i == 0 && j == 0 {
        assert(native_at(l, i, j) == "selected-text"@);
    } else if i == 0 && j == 1 {
        assert(native_at(l, i, j) == "text"@);
    } else if i == 0 && j == 2 {
        assert(native_at(l, i, j) == "base"@);
    } else if i == 0 && j == 3 {
        assert(native_at(l, i, j) == "border"@);
    } else if i == 0 && j == 4 {
        assert(native_at(l, i, j) == "foreground"@);
    } else if i == 0 && j == 5 {
        assert(native_at(l, i, j) == "background"@);
    }
}

/// The walker table meets the conditions under which its text reads back
/// as written.
proof fn lemma_walker_wf()
    ensures
        lines_wf(walker_layout()),
        tree_wf(walker_layout()),
{
    let l = walker_layout();
    reveal_with_fuel(all_from, 15);
    reveal_with_fuel(free_from, 65);
    lemma_walker_codes();
    reveal_strlit("");
    assert(""@ =~= Seq::<char>::empty());
    lemma_empty_quiet(l);
    assert forall|i: int, j: int| field_at(l, i, j) implies valid_key(l.syntax, native_at(l, i, j)) && all_in(#[trigger] native_at(l, i, j), Class::Kebab) by {
        if i == 0 && j == 0 {
            reveal_strlit("selected-text");
            lemma_kebab_key("selected-text"@);
            assert(native_at(l, i, j) == "selected-text"@);
        } else if i == 0 && j == 1 {
            reveal_strlit("text");
            lemma_kebab_key("text"@);
            assert(native_at(l, i, j) == "text"@);
        } else if i == 0 && j == 2 {
            reveal_strlit("base");
            lemma_kebab_key("base"@);
            assert(native_at(l, i, j) == "base"@);
        } else if i == 0 && j == 3 {
            reveal_strlit("border");
            lemma_kebab_key("border"@);
            assert(native_at(l, i, j) == "border"@);
        } else if i == 0 && j == 4 {
            reveal_strlit("foreground");
            lemma_kebab_key("foreground"@);
            assert(native_at(l, i, j) == "foreground"@);
        } else if i == 0 && j == 5 {
            reveal_strlit("background");
            lemma_kebab_key("background"@);
            assert(native_at(l, i, j) == "background"@);
        }
    }
    assert forall|i: int, j: int, i2: int, j2: int|
        field_at(l, i, j) && field_at(l, i2, j2) && native_at(l, i, j) == native_at(l, i2, j2) implies i == i2 && j == j2 by {
        lemma_walker_slot(i, j);
        lemma_walker_slot(i2, j2);
    }
    reveal_strlit("/* ────────────────────────────────────────────────────────────");
    assert(free_from("/* ────────────────────────────────────────────────────────────"@, 0));
    lemma_comment_quiet(l, "/* ────────────────────────────────────────────────────────────"@);
    reveal_strlit(" * Omarchy Custom Theme for Walker");
    assert(free_from(" * Omarchy Custom Theme for Walker"@, 0));
    lemma_star_quiet(l, " * Omarchy Custom Theme for Walker"@);
    reveal_strlit(" * Generated with Omarchist");
    assert(free_from(" * Generated with Omarchist"@, 0));
    lemma_star_quiet(l, " * Generated with Omarchist"@);
    reveal_strlit(" * ────────────────────────────────────────────────────────────");
    assert(free_from(" * ────────────────────────────────────────────────────────────"@, 0));
    lemma_star_quiet(l, " * ────────────────────────────────────────────────────────────"@);
    reveal_strlit(" */");
    assert(free_from(" */"@, 0));
    lemma_star_quiet(l, " */"@);
    assert forall|q: int| 0 <= q < l.header.len() implies quiet(l, #[trigger] l.header[q]) by {
        if q == 0 {
            assert(l.header[q] == "/* ────────────────────────────────────────────────────────────"@);
        } else if q == 1 {
            assert(l.header[q] == " * Omarchy Custom Theme for Walker"@);
        } else if q == 2 {
            assert(l.header[q] == " * Generated with Omarchist"@);
        } else if q == 3 {
            assert(l.header[q] == " * ────────────────────────────────────────────────────────────"@);
        } else if q == 4 {
            assert(l.header[q] == " */"@);
        } else if q == 5 {
            assert(l.header[q] == ""@);
        }
    }
}

/// Rendering a walker tree that holds a value for every field, then parsing
/// the text, gives that tree back, where each value is one the syntax writes
/// and reads unchanged.
pub proof fn walker_round_trip(vss: Seq<Seq<Option<Seq<char>>>>)
    requires
        full(walker_layout(), vss),
        forall|i: int, j: int| field_at(walker_layout(), i, j) ==> valid_value(Syntax::DefineColor, #[trigger] vss[i][j]->0),
    ensures
        parsed(walker_layout(), rendered(walker_layout(), tree_of(walker_layout(), vss))) == tree_of(walker_layout(), vss),
{
    lemma_walker_wf();
    law_round_trip(walker_layout(), vss);
}

/// Two cycles of rendering and parsing a walker tree give what one gives, where
/// every text written for the tree is one the syntax reads back unchanged.
pub proof fn walker_fixed_point(t: Node)
    requires
        texts_valid(walker_layout(), t),
    ensures
        parsed(walker_layout(), rendered(walker_layout(), parsed(walker_layout(), rendered(walker_layout(), t)))) == parsed(walker_layout(), rendered(walker_layout(), t)),
{
    lemma_walker_wf();
    law_fixed_point(walker_layout(), t);
}

/// Every default of the walker table is a value its syntax reads back unchanged.
proof fn lemma_walker_defaults()
    ensures
        defaults_valid(walker_layout()),
{
    let l = walker_layout();
    reveal_with_fuel(all_from, 10);
    reveal_with_fuel(free_from, 10);
    reveal_strlit("#B91C1C");
    assert(all_from("#B91C1C"@, Class::NotSemi, 0) && free_from("#B91C1C"@, 0));
    lemma_default_checked(Syntax::DefineColor, "#B91C1C"@, Class::NotSemi);
    reveal_strlit("#EAEAEA");
    assert(all_from("#EAEAEA"@, Class::NotSemi, 0) && free_from("#EAEAEA"@, 0));
    lemma_default_checked(Syntax::DefineColor, "#EAEAEA"@, Class::NotSemi);
    reveal_strlit("#121212");
    assert(all_from("#121212"@, Class::NotSemi, 0) && free_from("#121212"@, 0));
    lemma_default_checked(Syntax::DefineColor, "#121212"@, Class::NotSemi);
    reveal_strlit("EAEAEA88");
    assert(all_from("EAEAEA88"@, Class::NotSemi, 0) && free_from("EAEAEA88"@, 0));
    lemma_default_checked(Syntax::DefineColor, "EAEAEA88"@, Class::NotSemi);
    assert forall|i: int, j: int| field_at(l, i, j) implies valid_value(l.syntax, #[trigger] l.sections[i].fields[j].default) by {
        if i == 0 && j == 0 {
            assert(l.sections[i].fields[j].default == "#B91C1C"@);
        } else if i == 0 && j == 1 {
            assert(l.sections[i].fields[j].default == "#EAEAEA"@);
        } else if i == 0 && j == 2 {
            assert(l.sections[i].fields[j].default == "#121212"@);
        } else if i == 0 && j == 3 {
            assert(l.sections[i].fields[j].default == "EAEAEA88"@);
        } else if i == 0 && j == 4 {
            assert(l.sections[i].fields[j].default == "#EAEAEA"@);
        } else if i == 0 && j == 5 {
            assert(l.sections[i].fields[j].default == "#121212"@);
        }
    }
}

/// Starting from any walker text, two cycles of rendering and parsing give
/// what one gives.
pub proof fn walker_fixed_point_of_text(x: Seq<char>)
    ensures
        ({
            let t = parsed(walker_layout(), x);
            parsed(walker_layout(), rendered(walker_layout(), parsed(walker_layout(), rendered(walker_layout(), t)))) == parsed(walker_layout(), rendered(walker_layout(), t))
        }),
{
    lemma_walker_wf();
    lemma_walker_defaults();
    law_fixed_point_of_text(walker_layout(), x);
}

} // verus!
