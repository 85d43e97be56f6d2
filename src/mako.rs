//! Mako settings files: `key=value` lines; the colors are read back, the fixed settings after them are not.

use vstd::prelude::*;
use crate::grammar::{Class, Syntax};
use crate::laws::{
    all_from, all_in, code_from, defaults_valid, field_at, free_from, full, law_fixed_point,
    law_fixed_point_of_text, law_round_trip, lemma_comment_quiet, lemma_default_checked,
    lemma_empty_quiet, lemma_kebab_key, lemma_kv_quiet, lines_wf, native_at, quiet, texts_valid,
    tree_wf, valid_key, valid_value,
};
use crate::layout::{
    parse, parsed, render, rendered, tree_of, Field, FieldModel, Layout, LayoutModel, Section,
    SectionModel,
};
use crate::schema::{schema, schema_of};
use crate::value::{Node, ThemeValue};

verus! {

/// The fields of the mako codec, their defaults, and the fixed lines.
pub open spec fn mako_layout() -> LayoutModel {
    LayoutModel {
        app: "mako"@,
        syntax: Syntax::KeyValue,
        header: seq![
            "# ────────────────────────────────────────────────────────────"@,
            "# Omarchy Custom Theme for Mako"@,
            "# Generated with Omarchist"@,
            "# ────────────────────────────────────────────────────────────"@,
            ""@,
        ],
        sections: seq![
            SectionModel {
                name: Some("normal"@),
                title: ""@,
                heading: Seq::empty(),
                fields: seq![
                    FieldModel {
                        native: "text-color"@,
                        default: "#8A8A8D"@,
                        title: "Text Color"@,
                        about: "Color of notification text"@,
                        hint: ""@,
                        color: true,
                    },
                    FieldModel {
                        native: "border-color"@,
                        default: "#8A8A8D"@,
                        title: "Border Color"@,
                        about: "Color of notification border"@,
                        hint: ""@,
                        color: true,
                    },
                    FieldModel {
                        native: "background-color"@,
                        default: "#1E1E1E"@,
                        title: "Background Color"@,
                        about: "Background color of notifications"@,
                        hint: ""@,
                        color: true,
                    },
                ],
            },
        ],
        trailer: seq![
            "width=420"@,
            "height=110"@,
            "padding=10"@,
            "border-size=2"@,
            "font=Liberation Sans 11"@,
            "anchor=top-right"@,
            "outer-margin=20"@,
            "default-timeout=5000"@,
            "max-icon-size=32"@,
            ""@,
            "[app-name=Spotify]"@,
            "invisible=1"@,
            ""@,
            "[mode=do-not-disturb]"@,
            "invisible=true"@,
            ""@,
            "[mode=do-not-disturb app-name=notify-send]"@,
            "invisible=false"@,
        ],
    }
}

/// The table of [`mako_layout`].
pub fn mako_table() -> (r: Layout)
    ensures
        r@ == mako_layout(),
{
    let r = Layout {
        app: "mako",
        syntax: Syntax::KeyValue,
        header: vec![
            "# ────────────────────────────────────────────────────────────",
            "# Omarchy Custom Theme for Mako",
            "# Generated with Omarchist",
            "# ────────────────────────────────────────────────────────────",
            "",
        ],
        sections: vec![
            Section {
                name: Some("normal"),
                title: "",
                heading: Vec::new(),
                fields: vec![
                    Field {
                        native: "text-color",
                        default: "#8A8A8D",
                        title: "Text Color",
                        about: "Color of notification text",
                        hint: "",
                        color: true,
                    },
                    Field {
                        native: "border-color",
                        default: "#8A8A8D",
                        title: "Border Color",
                        about: "Color of notification border",
                        hint: "",
                        color: true,
                    },
                    Field {
                        native: "background-color",
                        default: "#1E1E1E",
                        title: "Background Color",
                        about: "Background color of notifications",
                        hint: "",
                        color: true,
                    },
                ],
            },
        ],
        trailer: vec![
            "width=420",
            "height=110",
            "padding=10",
            "border-size=2",
            "font=Liberation Sans 11",
            "anchor=top-right",
            "outer-margin=20",
            "default-timeout=5000",
            "max-icon-size=32",
            "",
            "[app-name=Spotify]",
            "invisible=1",
            "",
            "[mode=do-not-disturb]",
            "invisible=true",
            "",
            "[mode=do-not-disturb app-name=notify-send]",
            "invisible=false",
        ],
    };
    proof {
        let m = mako_layout();
        assert(r.sections@[0]@.heading =~= m.sections[0].heading);
        assert(r.sections@[0]@.fields =~= m.sections[0].fields);
        assert(r@.header =~= m.header);
        assert(r@.sections =~= m.sections);
        assert(r@.trailer =~= m.trailer);
    }
    r
}

/// The mako codec.
pub struct MakoGenerator;

impl MakoGenerator {
    /// The key of this codec's part of the tree.
    pub fn get_app_name(&self) -> (r: &'static str)
        ensures
            r@ == mako_layout().app,
    {
        "mako"
    }

    /// The file the rendered text is meant for.
    pub fn get_file_name(&self) -> (r: &'static str)
        ensures
            r@ == "mako.ini"@,
    {
        "mako.ini"
    }

    /// The file text for `theme_data`; a field missing from the tree, or not
    /// a string there, takes its default.
    pub fn generate_config(&self, theme_data: &ThemeValue) -> (r: Result<String, String>)
        ensures
            r matches Ok(t) && t@ == rendered(mako_layout(), theme_data@),
    {
        Ok(render(&mako_table(), theme_data))
    }

    /// The schema of this codec's fields, for an editor.
    pub fn get_config_schema(&self) -> (r: ThemeValue)
        ensures
            r@ == schema_of(mako_layout()),
    {
        schema(&mako_table())
    }

    /// The tree of the fields that `content` states; the others are left out.
    pub fn parse_existing_config(&self, content: &str) -> (r: Result<ThemeValue, String>)
        ensures
            r matches Ok(v) && v@ == parsed(mako_layout(), content@),
    {
        Ok(parse(&mako_table(), content))
    }
}

/// The position, counting across sections, of the mako field with key `k`;
/// keys are told apart by their codes.
spec fn mako_slot(k: Seq<char>) -> int {
    let c = code_from(k, 0);
    if c == code_from("text-color"@, 0) {
        0
    } else if c == code_from("border-color"@, 0) {
        1
    } else if c == code_from("background-color"@, 0) {
        2
    } else {
        -1
    }
}

/// Where section `i` starts in the mako table.
spec fn mako_offset(i: int) -> int {
    if i == 0 {
        0
    } else {
        3
    }
}

/// The codes of the keys and names that the mako table holds.
proof fn lemma_mako_codes()
    ensures
        code_from("text-color"@, 0) == 1059524095331725619956,
        code_from("border-color"@, 0) == 17359242777914918735493090,
        code_from("background-color"@, 0) == 4659836250904169470831921089540322,
        code_from("normal"@, 0) == 3737120454638,
        code_from("width"@, 0) == 28162209015,
        code_from("height"@, 0) == 4013864678120,
        code_from("padding"@, 0) == 456806758953200,
        code_from("border-size"@, 0) == 120372636069429876930530,
        code_from("font"@, 0) == 245086182,
        code_from("anchor"@, 0) == 3947026249569,
        code_from("outer-margin"@, 0) == 16747650416849105259936495,
        code_from("default-timeout"@, 0) == 37053707820416865093478143079140,
        code_from("max-icon-size"@, 0) == 1972185269359331247367532781,
        code_from("invisible"@, 0) == 7339050240223065961,
{
    reveal_with_fuel(code_from, 18);
    reveal_strlit("text-color");
    reveal_strlit("border-color");
    reveal_strlit("background-color");
    reveal_strlit("normal");
    reveal_strlit("width");
    reveal_strlit("height");
    reveal_strlit("padding");
    reveal_strlit("border-size");
    reveal_strlit("font");
    reveal_strlit("anchor");
    reveal_strlit("outer-margin");
    reveal_strlit("default-timeout");
    reveal_strlit("max-icon-size");
    reveal_strlit("invisible");
}

proof fn lemma_mako_slot(i: int, j: int)
    requires
        field_at(mako_layout(), i, j),
    ensures
        mako_slot(native_at(mako_layout(), i, j)) == mako_offset(i) + j,
{
    let l = mako_layout();
    lemma_mako_codes();
    if i == 0 && j == 0 {
        assert(native_at(l, i, j) == "text-color"@);
    } else if i == 0 && j == 1 {
        assert(native_at(l, i, j) == "border-color"@);
    } else if i == 0 && j == 2 {
        assert(native_at(l, i, j) == "background-color"@);
    }
}

/// The mako table meets the conditions under which its text reads back
/// as written.
proof fn lemma_mako_wf()
    ensures
        lines_wf(mako_layout()),
        tree_wf(mako_layout()),
{
    let l = mako_layout();
    reveal_with_fuel(all_from, 18);
    reveal_with_fuel(free_from, 64);
    lemma_mako_codes();
    reveal_strlit("");
    assert(""@ =~= Seq::<char>::empty());
    lemma_empty_quiet(l);
    assert forall|i: int, j: int| field_at(l, i, j) implies valid_key(l.syntax, native_at(l, i, j)) && all_in(#[trigger] native_at(l, i, j), Class::Kebab) by {
        if i == 0 && j == 0 {
            reveal_strlit("text-color");
            lemma_kebab_key("text-color"@);
            assert(native_at(l, i, j) == "text-color"@);
        } else if i == 0 && j == 1 {
            reveal_strlit("border-color");
            lemma_kebab_key("border-color"@);
            assert(native_at(l, i, j) == "border-color"@);
        } else if i == 0 && j == 2 {
            reveal_strlit("background-color");
            lemma_kebab_key("background-color"@);
            assert(native_at(l, i, j) == "background-color"@);
        }
    }
    assert forall|i: int, j: int, i2: int, j2: int|
        field_at(l, i, j) && field_at(l, i2, j2) && native_at(l, i, j) == native_at(l, i2, j2) implies i == i2 && j == j2 by {
        lemma_mako_slot(i, j);
        lemma_mako_slot(i2, j2);
    }
    reveal_strlit("# ────────────────────────────────────────────────────────────");
    assert(free_from("# ────────────────────────────────────────────────────────────"@, 0));
    lemma_comment_quiet(l, "# ────────────────────────────────────────────────────────────"@);
    reveal_strlit("# Omarchy Custom Theme for Mako");
    assert(free_from("# Omarchy Custom Theme for Mako"@, 0));
    lemma_comment_quiet(l, "# Omarchy Custom Theme for Mako"@);
    reveal_strlit("# Generated with Omarchist");
    assert(free_from("# Generated with Omarchist"@, 0));
    lemma_comment_quiet(l, "# Generated with Omarchist"@);
    reveal_strlit("width=420");
    assert(free_from("width=420"@, 0));
    reveal_strlit("width");
    reveal_strlit("=420");
    assert("width=420"@ =~= "width"@ + "=420"@);
    assert(all_from("width"@, Class::Name, 0));
    assert forall|i: int, j: int| field_at(l, i, j) implies "width"@ != native_at(l, i, j) by {
        lemma_mako_slot(i, j);
    }
    lemma_kv_quiet(l, "width=420"@, "width"@, "=420"@);
    reveal_strlit("height=110");
    assert(free_from("height=110"@, 0));
    reveal_strlit("height");
    reveal_strlit("=110");
    assert("height=110"@ =~= "height"@ + "=110"@);
    assert(all_from("height"@, Class::Name, 0));
    assert forall|i: int, j: int| field_at(l, i, j) implies "height"@ != native_at(l, i, j) by {
        lemma_mako_slot(i, j);
    }
    lemma_kv_quiet(l, "height=110"@, "height"@, "=110"@);
    reveal_strlit("padding=10");
    assert(free_from("padding=10"@, 0));
    reveal_strlit("padding");
    reveal_strlit("=10");
    assert("padding=10"@ =~= "padding"@ + "=10"@);
    assert(all_from("padding"@, Class::Name, 0));
    assert forall|i: int, j: int| field_at(l, i, j) implies "padding"@ != native_at(l, i, j) by {
        lemma_mako_slot(i, j);
    }
    lemma_kv_quiet(l, "padding=10"@, "padding"@, "=10"@);
    reveal_strlit("border-size=2");
    assert(free_from("border-size=2"@, 0));
    reveal_strlit("border-size");
    reveal_strlit("=2");
    assert("border-size=2"@ =~= "border-size"@ + "=2"@);
    assert(all_from("border-size"@, Class::Name, 0));
    assert forall|i: int, j: int| field_at(l, i, j) implies "border-size"@ != native_at(l, i, j) by {
        lemma_mako_slot(i, j);
    }
    lemma_kv_quiet(l, "border-size=2"@, "border-size"@, "=2"@);
    reveal_strlit("font=Liberation Sans 11");
    assert(free_from("font=Liberation Sans 11"@, 0));
    reveal_strlit("font");
    reveal_strlit("=Liberation Sans 11");
    assert("font=Liberation Sans 11"@ =~= "font"@ + "=Liberation Sans 11"@);
    assert(all_from("font"@, Class::Name, 0));
    assert forall|i: int, j: int| field_at(l, i, j) implies "font"@ != native_at(l, i, j) by {
        lemma_mako_slot(i, j);
    }
    lemma_kv_quiet(l, "font=Liberation Sans 11"@, "font"@, "=Liberation Sans 11"@);
    reveal_strlit("anchor=top-right");
    assert(free_from("anchor=top-right"@, 0));
    reveal_strlit("anchor");
    reveal_strlit("=top-right");
    assert("anchor=top-right"@ =~= "anchor"@ + "=top-right"@);
    assert(all_from("anchor"@, Class::Name, 0));
    assert forall|i: int, j: int| field_at(l, i, j) implies "anchor"@ != native_at(l, i, j) by {
        lemma_mako_slot(i, j);
    }
    lemma_kv_quiet(l, "anchor=top-right"@, "anchor"@, "=top-right"@);
    reveal_strlit("outer-margin=20");
    assert(free_from("outer-margin=20"@, 0));
    reveal_strlit("outer-margin");
    reveal_strlit("=20");
    assert("outer-margin=20"@ =~= "outer-margin"@ + "=20"@);
    assert(all_from("outer-margin"@, Class::Name, 0));
    assert forall|i: int, j: int| field_at(l, i, j) implies "outer-margin"@ != native_at(l, i, j) by {
        lemma_mako_slot(i, j);
    }
    lemma_kv_quiet(l, "outer-margin=20"@, "outer-margin"@, "=20"@);
    reveal_strlit("default-timeout=5000");
    assert(free_from("default-timeout=5000"@, 0));
    reveal_strlit("default-timeout");
    reveal_strlit("=5000");
    assert("default-timeout=5000"@ =~= "default-timeout"@ + "=5000"@);
    assert(all_from("default-timeout"@, Class::Name, 0));
    assert forall|i: int, j: int| field_at(l, i, j) implies "default-timeout"@ != native_at(l, i, j) by {
        lemma_mako_slot(i, j);
    }
    lemma_kv_quiet(l, "default-timeout=5000"@, "default-timeout"@, "=5000"@);
    reveal_strlit("max-icon-size=32");
    assert(free_from("max-icon-size=32"@, 0));
    reveal_strlit("max-icon-size");
    reveal_strlit("=32");
    assert("max-icon-size=32"@ =~= "max-icon-size"@ + "=32"@);
    assert(all_from("max-icon-size"@, Class::Name, 0));
    assert forall|i: int, j: int| field_at(l, i, j) implies "max-icon-size"@ != native_at(l, i, j) by {
        lemma_mako_slot(i, j);
    }
    lemma_kv_quiet(l, "max-icon-size=32"@, "max-icon-size"@, "=32"@);
    reveal_strlit("[app-name=Spotify]");
    assert(free_from("[app-name=Spotify]"@, 0));
    lemma_comment_quiet(l, "[app-name=Spotify]"@);
    reveal_strlit("invisible=1");
    assert(free_from("invisible=1"@, 0));
    reveal_strlit("invisible");
    reveal_strlit("=1");
    assert("invisible=1"@ =~= "invisible"@ + "=1"@);
    assert(all_from("invisible"@, Class::Name, 0));
    assert forall|i: int, j: int| field_at(l, i, j) implies "invisible"@ != native_at(l, i, j) by {
        lemma_mako_slot(i, j);
    }
    lemma_kv_quiet(l, "invisible=1"@, "invisible"@, "=1"@);
    reveal_strlit("[mode=do-not-disturb]");
    assert(free_from("[mode=do-not-disturb]"@, 0));
    lemma_comment_quiet(l, "[mode=do-not-disturb]"@);
    reveal_strlit("invisible=true");
    assert(free_from("invisible=true"@, 0));
    reveal_strlit("invisible");
    reveal_strlit("=true");
    assert("invisible=true"@ =~= "invisible"@ + "=true"@);
    assert(all_from("invisible"@, Class::Name, 0));
    assert forall|i: int, j: int| field_at(l, i, j) implies "invisible"@ != native_at(l, i, j) by {
        lemma_mako_slot(i, j);
    }
    lemma_kv_quiet(l, "invisible=true"@, "invisible"@, "=true"@);
    reveal_strlit("[mode=do-not-disturb app-name=notify-send]");
    assert(free_from("[mode=do-not-disturb app-name=notify-send]"@, 0));
    lemma_comment_quiet(l, "[mode=do-not-disturb app-name=notify-send]"@);
    reveal_strlit("invisible=false");
    assert(free_from("invisible=false"@, 0));
    reveal_strlit("invisible");
    reveal_strlit("=false");
    assert("invisible=false"@ =~= "invisible"@ + "=false"@);
    assert(all_from("invisible"@, Class::Name, 0));
    assert forall|i: int, j: int| field_at(l, i, j) implies "invisible"@ != native_at(l, i, j) by {
        lemma_mako_slot(i, j);
    }
    lemma_kv_quiet(l, "invisible=false"@, "invisible"@, "=false"@);
    assert forall|q: int| 0 <= q < l.header.len() implies quiet(l, #[trigger] l.header[q]) by {
        if q == 0 {
            assert(l.header[q] == "# ────────────────────────────────────────────────────────────"@);
        } else if q == 1 {
            assert(l.header[q] == "# Omarchy Custom Theme for Mako"@);
        } else if q == 2 {
            assert(l.header[q] == "# Generated with Omarchist"@);
        } else if q == 3 {
            assert(l.header[q] == "# ────────────────────────────────────────────────────────────"@);
        } else if q == 4 {
            assert(l.header[q] == ""@);
        }
    }
    assert forall|q: int| 0 <= q < l.trailer.len() implies quiet(l, #[trigger] l.trailer[q]) by {
        if q == 0 {
            assert(l.trailer[q] == "width=420"@);
        } else if q == 1 {
            assert(l.trailer[q] == "height=110"@);
        } else if q == 2 {
            assert(l.trailer[q] == "padding=10"@);
        } else if q == 3 {
            assert(l.trailer[q] == "border-size=2"@);
        } else if q == 4 {
            assert(l.trailer[q] == "font=Liberation Sans 11"@);
        } else if q == 5 {
            assert(l.trailer[q] == "anchor=top-right"@);
        } else if q == 6 {
            assert(l.trailer[q] == "outer-margin=20"@);
        } else if q == 7 {
            assert(l.trailer[q] == "default-timeout=5000"@);
        } else if q == 8 {
            assert(l.trailer[q] == "max-icon-size=32"@);
        } else if q == 9 {
            assert(l.trailer[q] == ""@);
        } else if q == 10 {
            assert(l.trailer[q] == "[app-name=Spotify]"@);
        } else if q == 11 {
            assert(l.trailer[q] == "invisible=1"@);
        } else if q == 12 {
            assert(l.trailer[q] == ""@);
        } else if q == 13 {
            assert(l.trailer[q] == "[mode=do-not-disturb]"@);
        } else if q == 14 {
            assert(l.trailer[q] == "invisible=true"@);
        } else if q == 15 {
            assert(l.trailer[q] == ""@);
        } else if q == 16 {
            assert(l.trailer[q] == "[mode=do-not-disturb app-name=notify-send]"@);
        } else if q == 17 {
            assert(l.trailer[q] == "invisible=false"@);
        }
    }
}

/// Rendering a mako tree that holds a value for every field, then parsing
/// the text, gives that tree back, where each value is one the syntax writes
/// and reads unchanged.
pub proof fn mako_round_trip(vss: Seq<Seq<Option<Seq<char>>>>)
    requires
        full(mako_layout(), vss),
        forall|i: int, j: int| field_at(mako_layout(), i, j) ==> valid_value(Syntax::KeyValue, #[trigger] vss[i][j]->0),
    ensures
        parsed(mako_layout(), rendered(mako_layout(), tree_of(mako_layout(), vss))) == tree_of(mako_layout(), vss),
{
    lemma_mako_wf();
    law_round_trip(mako_layout(), vss);
}

/// Two cycles of rendering and parsing a mako tree give what one gives, where
/// every text written for the tree is one the syntax reads back unchanged.
pub proof fn mako_fixed_point(t: Node)
    requires
        texts_valid(mako_layout(), t),
    ensures
        parsed(mako_layout(), rendered(mako_layout(), parsed(mako_layout(), rendered(mako_layout(), t)))) == parsed(mako_layout(), rendered(mako_layout(), t)),
{
    lemma_mako_wf();
    law_fixed_point(mako_layout(), t);
}

/// Every default of the mako table is a value its syntax reads back unchanged.
proof fn lemma_mako_defaults()
    ensures
        defaults_valid(mako_layout()),
{
    let l = mako_layout();
    reveal_with_fuel(all_from, 9);
    reveal_with_fuel(free_from, 9);
    reveal_strlit("#8A8A8D");
    assert(all_from("#8A8A8D"@, Class::Hexish, 0) && free_from("#8A8A8D"@, 0));
    lemma_default_checked(Syntax::KeyValue, "#8A8A8D"@, Class::Hexish);
    reveal_strlit("#1E1E1E");
    assert(all_from("#1E1E1E"@, Class::Hexish, 0) && free_from("#1E1E1E"@, 0));
    lemma_default_checked(Syntax::KeyValue, "#1E1E1E"@, Class::Hexish);
    assert forall|i: int, j: int| field_at(l, i, j) implies valid_value(l.syntax, #[trigger] l.sections[i].fields[j].default) by {
        if i == 0 && j == 0 {
            assert(l.sections[i].fields[j].default == "#8A8A8D"@);
        } else if i == 0 && j == 1 {
            assert(l.sections[i].fields[j].default == "#8A8A8D"@);
        } else if i == 0 && j == 2 {
            assert(l.sections[i].fields[j].default == "#1E1E1E"@);
        }
    }
}

/// Starting from any mako text, two cycles of rendering and parsing give
/// what one gives.
pub proof fn mako_fixed_point_of_text(x: Seq<char>)
    ensures
        ({
            let t = parsed(mako_layout(), x);
            parsed(mako_layout(), rendered(mako_layout(), parsed(mako_layout(), rendered(mako_layout(), t)))) == parsed(mako_layout(), rendered(mako_layout(), t))
        }),
{
    lemma_mako_wf();
    lemma_mako_defaults();
    law_fixed_point_of_text(mako_layout(), x);
}

} // verus!
