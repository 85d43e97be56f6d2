//! Alacritty configuration files: TOML tables under `[colors]`.

use vstd::prelude::*;
use crate::grammar::Syntax;
use crate::layout::{
    build_tree, render, rendered, tree_of, vals_view, Field, FieldModel, Layout, LayoutModel, Section,
    SectionModel,
};
use crate::text::push_str;
use crate::toml_doc::{
    describe_toml_error, lookup_exec, parse_toml, toml_accepts, toml_as_str, toml_doc_of,
    toml_error_text, toml_get, toml_lookup, toml_parse_of, toml_text,
};
use crate::schema::{schema, schema_of};
use crate::value::ThemeValue;

verus! {

broadcast use vstd::std_specs::vec::group_vec_axioms;

/// The string that document `doc` holds for field `f` of section `s`, under
/// `colors.<section>.<key>`.
pub open spec fn toml_field(doc: toml::Value, s: SectionModel, f: FieldModel) -> Option<Seq<char>> {
    let sec = match s.name {
        Some(n) => toml_lookup(toml_lookup(Some(doc), "colors"@), n),
        None => toml_lookup(Some(doc), "colors"@),
    };
    match toml_lookup(sec, f.native) {
        Some(x) => toml_text(x),
        None => None,
    }
}

/// The value that document `doc` gives each field.
pub open spec fn toml_values(l: LayoutModel, doc: toml::Value) -> Seq<Seq<Option<Seq<char>>>> {
    l.sections.map_values(
        |s: SectionModel| s.fields.map_values(|f: FieldModel| toml_field(doc, s, f)),
    )
}

/// The tree of the fields that the TOML document `doc` holds as strings;
/// the others are left out.
pub fn colors_from_toml(doc: &toml::Value) -> (r: ThemeValue)
    ensures
        r@ == tree_of(alacritty_layout(), toml_values(alacritty_layout(), *doc)),
{
    let l = alacritty_table();
    let ghost vss = toml_values(l@, *doc);
    let colors = toml_get(doc, "colors");
    let mut vals: Vec<Vec<Option<String>>> = Vec::new();
    let mut si: usize = 0;
    while si < l.sections.len()
        invariant
            l@ == alacritty_layout(),
            vss == toml_values(l@, *doc),
            match colors {
                Some(c) => toml_lookup(Some(*doc), "colors"@) == Some(*c),
                None => toml_lookup(Some(*doc), "colors"@) is None,
            },
            si <= l.sections@.len(),
            vals@.len() == si,
            forall|j: int| 0 <= j < si ==> #[trigger] crate::layout::texts_view(vals@[j]@) == vss[j],
            forall|j: int|
                0 <= j < si ==> (#[trigger] vals@[j])@.len() == l.sections@[j].fields@.len(),
        decreases l.sections@.len() - si,
    {
        let sec = &l.sections[si];
        let node = match sec.name {
            Some(n) => lookup_exec(colors, n),
            None => colors,
        };
        let mut vs: Vec<Option<String>> = Vec::new();
        let mut fi: usize = 0;
        while fi < sec.fields.len()
            invariant
                l@ == alacritty_layout(),
                vss == toml_values(l@, *doc),
                si < l.sections@.len(),
                *sec == l.sections@[si as int],
                match node {
                    Some(x) => match sec@.name {
                        Some(n) => toml_lookup(toml_lookup(Some(*doc), "colors"@), n) == Some(*x),
                        None => toml_lookup(Some(*doc), "colors"@) == Some(*x),
                    },
                    None => match sec@.name {
                        Some(n) => toml_lookup(toml_lookup(Some(*doc), "colors"@), n) is None,
                        None => toml_lookup(Some(*doc), "colors"@) is None,
                    },
                },
                fi <= sec.fields@.len(),
                vs@.len() == fi,
                forall|j: int| 0 <= j < fi ==> #[trigger] crate::layout::text_view(vs@[j]) == vss[si as int][j],
            decreases sec.fields@.len() - fi,
        {
            let f = &sec.fields[fi];
            assert(l@.sections[si as int].fields[fi as int] == f@);
            let v = match lookup_exec(node, f.native) {
                Some(x) => match toml_as_str(x) {
                    Some(s) => Some(s.to_owned()),
                    None => None,
                },
                None => None,
            };
            vs.push(v);
            fi = fi + 1;
        }
        assert(crate::layout::texts_view(vs@) =~= vss[si as int]);
        vals.push(vs);
        si = si + 1;
    }
    assert(vals_view(vals@) =~= vss);
    build_tree(&l, &vals)
}

/// The fields of the alacritty codec, their defaults, and the fixed lines.
pub open spec fn alacritty_layout() -> LayoutModel {
    LayoutModel {
        app: "alacritty"@,
        syntax: Syntax::TomlString,
        header: seq![
            "# ────────────────────────────────────────────────────────────"@,
            "# Omarchy Custom Theme for Alacritty"@,
            "# Generated with Omarchist"@,
            "# ────────────────────────────────────────────────────────────"@,
            ""@,
            "[colors]"@,
        ],
        sections: seq![
            SectionModel {
                name: Some("primary"@),
                title: ""@,
                heading: seq![
                    "[colors.primary]"@,
                ],
                fields: seq![
                    FieldModel {
                        native: "background"@,
                        default: "#121212"@,
                        title: "Background Color"@,
                        about: ""@,
                        hint: ""@,
                        color: true,
                    },
                    FieldModel {
                        native: "foreground"@,
                        default: "#bebebe"@,
                        title: "Foreground Color"@,
                        about: ""@,
                        hint: ""@,
                        color: true,
                    },
                    FieldModel {
                        native: "dim_foreground"@,
                        default: "#8a8a8d"@,
                        title: "Dim Foreground Color"@,
                        about: ""@,
                        hint: ""@,
                        color: true,
                    },
                ],
            },
            SectionModel {
                name: Some("cursor"@),
                title: ""@,
                heading: seq![
                    ""@,
                    "[colors.cursor]"@,
                ],
                fields: seq![
                    FieldModel {
                        native: "text"@,
                        default: "#121212"@,
                        title: "Cursor Text"@,
                        about: ""@,
                        hint: ""@,
                        color: true,
                    },
                    FieldModel {
                        native: "cursor"@,
                        default: "#EAEAEA"@,
                        title: "Cursor Color"@,
                        about: ""@,
                        hint: ""@,
                        color: true,
                    },
                ],
            },
            SectionModel {
                name: Some("selection"@),
                title: ""@,
                heading: seq![
                    ""@,
                    "[colors.selection]"@,
                ],
                fields: seq![
                    FieldModel {
                        native: "text"@,
                        default: "CellForeground"@,
                        title: "Selection Text"@,
                        about: ""@,
                        hint: ""@,
                        color: true,
                    },
                    FieldModel {
                        native: "background"@,
                        default: "#333333"@,
                        title: "Selection Background"@,
                        about: ""@,
                        hint: ""@,
                        color: true,
                    },
                ],
            },
            SectionModel {
                name: Some("normal"@),
                title: ""@,
                heading: seq![
                    ""@,
                    "[colors.normal]"@,
                ],
                fields: seq![
                    FieldModel {
                        native: "black"@,
                        default: "#333333"@,
                        title: "Black"@,
                        about: ""@,
                        hint: ""@,
                        color: true,
                    },
                    FieldModel {
                        native: "red"@,
                        default: "#D35F5F"@,
                        title: "Red"@,
                        about: ""@,
                        hint: ""@,
                        color: true,
                    },
                    FieldModel {
                        native: "green"@,
                        default: "#FFC107"@,
                        title: "Green"@,
                        about: ""@,
                        hint: ""@,
                        color: true,
                    },
                    FieldModel {
                        native: "yellow"@,
                        default: "#b91c1c"@,
                        title: "Yellow"@,
                        about: ""@,
                        hint: ""@,
                        color: true,
                    },
                    FieldModel {
                        native: "blue"@,
                        default: "#e68e0d"@,
                        title: "Blue"@,
                        about: ""@,
                        hint: ""@,
                        color: true,
                    },
                    FieldModel {
                        native: "magenta"@,
                        default: "#D35F5F"@,
                        title: "Magenta"@,
                        about: ""@,
                        hint: ""@,
                        color: true,
                    },
                    FieldModel {
                        native: "cyan"@,
                        default: "#bebebe"@,
                        title: "Cyan"@,
                        about: ""@,
                        hint: ""@,
                        color: true,
                    },
                    FieldModel {
                        native: "white"@,
                        default: "#bebebe"@,
                        title: "White"@,
                        about: ""@,
                        hint: ""@,
                        color: true,
                    },
                ],
            },
            SectionModel {
                name: Some("bright"@),
                title: ""@,
                heading: seq![
                    ""@,
                    "[colors.bright]"@,
                ],
                fields: seq![
                    FieldModel {
                        native: "black"@,
                        default: "#8a8a8d"@,
                        title: "Bright Black"@,
                        about: ""@,
                        hint: ""@,
                        color: true,
                    },
                    FieldModel {
                        native: "red"@,
                        default: "#B91C1C"@,
                        title: "Bright Red"@,
                        about: ""@,
                        hint: ""@,
                        color: true,
                    },
                    FieldModel {
                        native: "green"@,
                        default: "#FFC107"@,
                        title: "Bright Green"@,
                        about: ""@,
                        hint: ""@,
                        color: true,
                    },
                    FieldModel {
                        native: "yellow"@,
                        default: "#b90a0a"@,
                        title: "Bright Yellow"@,
                        about: ""@,
                        hint: ""@,
                        color: true,
                    },
                    FieldModel {
                        native: "blue"@,
                        default: "#f59e0b"@,
                        title: "Bright Blue"@,
                        about: ""@,
                        hint: ""@,
                        color: true,
                    },
                    FieldModel {
                        native: "magenta"@,
                        default: "#b91c1c"@,
                        title: "Bright Magenta"@,
                        about: ""@,
                        hint: ""@,
                        color: true,
                    },
                    FieldModel {
                        native: "cyan"@,
                        default: "#eaeaea"@,
                        title: "Bright Cyan"@,
                        about: ""@,
                        hint: ""@,
                        color: true,
                    },
                    FieldModel {
                        native: "white"@,
                        default: "#eaeaea"@,
                        title: "Bright White"@,
                        about: ""@,
                        hint: ""@,
                        color: true,
                    },
                ],
            },
        ],
        trailer: Seq::empty(),
    }
}

/// The table of [`alacritty_layout`].
pub fn alacritty_table() -> (r: Layout)
    ensures
        r@ == alacritty_layout(),
{
    let r = Layout {
        app: "alacritty",
        syntax: Syntax::TomlString,
        header: vec![
            "# ────────────────────────────────────────────────────────────",
            "# Omarchy Custom Theme for Alacritty",
            "# Generated with Omarchist",
            "# ────────────────────────────────────────────────────────────",
            "",
            "[colors]",
        ],
        sections: vec![
            Section {
                name: Some("primary"),
                title: "",
                heading: vec![
                    "[colors.primary]",
                ],
                fields: vec![
                    Field {
                        native: "background",
                        default: "#121212",
                        title: "Background Color",
                        about: "",
                        hint: "",
                        color: true,
                    },
                    Field {
                        native: "foreground",
                        default: "#bebebe",
                        title: "Foreground Color",
                        about: "",
                        hint: "",
                        color: true,
                    },
                    Field {
                        native: "dim_foreground",
                        default: "#8a8a8d",
                        title: "Dim Foreground Color",
                        about: "",
                        hint: "",
                        color: true,
                    },
                ],
            },
            Section {
                name: Some("cursor"),
                title: "",
                heading: vec![
                    "",
                    "[colors.cursor]",
                ],
                fields: vec![
                    Field {
                        native: "text",
                        default: "#121212",
                        title: "Cursor Text",
                        about: "",
                        hint: "",
                        color: true,
                    },
                    Field {
                        native: "cursor",
                        default: "#EAEAEA",
                        title: "Cursor Color",
                        about: "",
                        hint: "",
                        color: true,
                    },
                ],
            },
            Section {
                name: Some("selection"),
                title: "",
                heading: vec![
                    "",
                    "[colors.selection]",
                ],
                fields: vec![
                    Field {
                        native: "text",
                        default: "CellForeground",
                        title: "Selection Text",
                        about: "",
                        hint: "",
                        color: true,
                    },
                    Field {
                        native: "background",
                        default: "#333333",
                        title: "Selection Background",
                        about: "",
                        hint: "",
                        color: true,
                    },
                ],
            },
            Section {
                name: Some("normal"),
                title: "",
                heading: vec![
                    "",
                    "[colors.normal]",
                ],
                fields: vec![
                    Field {
                        native: "black",
                        default: "#333333",
                        title: "Black",
                        about: "",
                        hint: "",
                        color: true,
                    },
                    Field {
                        native: "red",
                        default: "#D35F5F",
                        title: "Red",
                        about: "",
                        hint: "",
                        color: true,
                    },
                    Field {
                        native: "green",
                        default: "#FFC107",
                        title: "Green",
                        about: "",
                        hint: "",
                        color: true,
                    },
                    Field {
                        native: "yellow",
                        default: "#b91c1c",
                        title: "Yellow",
                        about: "",
                        hint: "",
                        color: true,
                    },
                    Field {
                        native: "blue",
                        default: "#e68e0d",
                        title: "Blue",
                        about: "",
                        hint: "",
                        color: true,
                    },
                    Field {
                        native: "magenta",
                        default: "#D35F5F",
                        title: "Magenta",
                        about: "",
                        hint: "",
                        color: true,
                    },
                    Field {
                        native: "cyan",
                        default: "#bebebe",
                        title: "Cyan",
                        about: "",
                        hint: "",
                        color: true,
                    },
                    Field {
                        native: "white",
                        default: "#bebebe",
                        title: "White",
                        about: "",
                        hint: "",
                        color: true,
                    },
                ],
            },
            Section {
                name: Some("bright"),
                title: "",
                heading: vec![
                    "",
                    "[colors.bright]",
                ],
                fields: vec![
                    Field {
                        native: "black",
                        default: "#8a8a8d",
                        title: "Bright Black",
                        about: "",
                        hint: "",
                        color: true,
                    },
                    Field {
                        native: "red",
                        default: "#B91C1C",
                        title: "Bright Red",
                        about: "",
                        hint: "",
                        color: true,
                    },
                    Field {
                        native: "green",
                        default: "#FFC107",
                        title: "Bright Green",
                        about: "",
                        hint: "",
                        color: true,
                    },
                    Field {
                        native: "yellow",
                        default: "#b90a0a",
                        title: "Bright Yellow",
                        about: "",
                        hint: "",
                        color: true,
                    },
                    Field {
                        native: "blue",
                        default: "#f59e0b",
                        title: "Bright Blue",
                        about: "",
                        hint: "",
                        color: true,
                    },
                    Field {
                        native: "magenta",
                        default: "#b91c1c",
                        title: "Bright Magenta",
                        about: "",
                        hint: "",
                        color: true,
                    },
                    Field {
                        native: "cyan",
                        default: "#eaeaea",
                        title: "Bright Cyan",
                        about: "",
                        hint: "",
                        color: true,
                    },
                    Field {
                        native: "white",
                        default: "#eaeaea",
                        title: "Bright White",
                        about: "",
                        hint: "",
                        color: true,
                    },
                ],
            },
        ],
        trailer: Vec::new(),
    };
    proof {
        let m = alacritty_layout();
        assert(r.sections@[0]@.heading =~= m.sections[0].heading);
        assert(r.sections@[0]@.fields =~= m.sections[0].fields);
        assert(r.sections@[1]@.heading =~= m.sections[1].heading);
        assert(r.sections@[1]@.fields =~= m.sections[1].fields);
        assert(r.sections@[2]@.heading =~= m.sections[2].heading);
        assert(r.sections@[2]@.fields =~= m.sections[2].fields);
        assert(r.sections@[3]@.heading =~= m.sections[3].heading);
        assert(r.sections@[3]@.fields =~= m.sections[3].fields);
        assert(r.sections@[4]@.heading =~= m.sections[4].heading);
        assert(r.sections@[4]@.fields =~= m.sections[4].fields);
        assert(r@.header =~= m.header);
        assert(r@.sections =~= m.sections);
        assert(r@.trailer =~= m.trailer);
    }
    r
}

/// The alacritty codec.
pub struct AlacrittyGenerator;

impl AlacrittyGenerator {
    /// The key of this codec's part of the tree.
    pub fn get_app_name(&self) -> (r: &'static str)
        ensures
            r@ == alacritty_layout().app,
    {
        "alacritty"
    }

    /// The file the rendered text is meant for.
    pub fn get_file_name(&self) -> (r: &'static str)
        ensures
            r@ == "alacritty.toml"@,
    {
        "alacritty.toml"
    }

    /// The file text for `theme_data`; a field missing from the tree, or not
    /// a string there, takes its default.
    pub fn generate_config(&self, theme_data: &ThemeValue) -> (r: Result<String, String>)
        ensures
            r matches Ok(t) && t@ == rendered(alacritty_layout(), theme_data@),
    {
        Ok(render(&alacritty_table(), theme_data))
    }

    /// The schema of this codec's fields, for an editor.
    pub fn get_config_schema(&self) -> (r: ThemeValue)
        ensures
            r@ == schema_of(alacritty_layout()),
    {
        schema(&alacritty_table())
    }

    /// The tree of the fields that `content` holds as strings, read by a
    /// TOML parser; an error where that parser rejects the text.
    pub fn parse_existing_config(&self, content: &str) -> (r: Result<ThemeValue, String>)
        ensures
            r.is_ok() == toml_accepts(content@),
            r matches Ok(v) ==> v@ == tree_of(
                alacritty_layout(),
                toml_values(alacritty_layout(), toml_doc_of(content@)),
            ),
            r matches Err(m) ==> m@ == "Failed to parse alacritty.toml: "@ + toml_error_text(
                toml_parse_of(content@)->Err_0,
            ),
    {
        match parse_toml(content) {
            Ok(doc) => {
                let v = colors_from_toml(&doc);
                Ok(v)
            },
            Err(e) => {
                let mut msg = String::new();
                push_str(&mut msg, "Failed to parse alacritty.toml: ");
                let d = describe_toml_error(&e);
                push_str(&mut msg, d.as_str());
                Err(msg)
            },
        }
    }
}

} // verus!
