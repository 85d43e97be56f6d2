//! btop theme files: one `theme[key]="value"` line per color.

use vstd::prelude::*;
use crate::grammar::{Class, Syntax};
use crate::laws::{
    all_from, all_in, code_from, defaults_valid, field_at, free_from, full, law_fixed_point,
    law_fixed_point_of_text, law_round_trip, lemma_comment_quiet, lemma_default_checked,
    lemma_empty_quiet, lemma_ident_key, lines_wf, native_at, quiet, texts_valid, tree_wf,
    valid_key, valid_value,
};
use crate::layout::{
    parse, parsed, render, rendered, tree_of, Field, FieldModel, Layout, LayoutModel, Section,
    SectionModel,
};
use crate::schema::{schema, schema_of};
use crate::value::{Node, ThemeValue};

verus! {

/// The fields of the btop codec, their defaults, and the fixed lines.
pub open spec fn btop_layout() -> LayoutModel {
    LayoutModel {
        app: "btop"@,
        syntax: Syntax::Bracketed,
        header: seq![
            "# ────────────────────────────────────────────────────────────"@,
            "# Omarchy Custom Theme for btop"@,
            "# Generated with Omarchist"@,
            "# ────────────────────────────────────────────────────────────"@,
            ""@,
        ],
        sections: seq![
            SectionModel {
                name: Some("basic"@),
                title: "Basic Colors"@,
                heading: seq![
                    ""@,
                    "# Main colors; an empty main_bg keeps the terminal's own background"@,
                ],
                fields: seq![
                    FieldModel {
                        native: "main_bg"@,
                        default: ""@,
                        title: "Main Background"@,
                        about: ""@,
                        hint: ""@,
                        color: true,
                    },
                    FieldModel {
                        native: "main_fg"@,
                        default: "#EAEAEA"@,
                        title: "Main Foreground"@,
                        about: ""@,
                        hint: ""@,
                        color: true,
                    },
                    FieldModel {
                        native: "title"@,
                        default: "#8a8a8d"@,
                        title: "Title Color"@,
                        about: ""@,
                        hint: ""@,
                        color: true,
                    },
                    FieldModel {
                        native: "hi_fg"@,
                        default: "#f59e0b"@,
                        title: "Highlight Color"@,
                        about: ""@,
                        hint: ""@,
                        color: true,
                    },
                    FieldModel {
                        native: "selected_bg"@,
                        default: "#f59e0b"@,
                        title: "Selected Background"@,
                        about: ""@,
                        hint: ""@,
                        color: true,
                    },
                    FieldModel {
                        native: "selected_fg"@,
                        default: "#EAEAEA"@,
                        title: "Selected Foreground"@,
                        about: ""@,
                        hint: ""@,
                        color: true,
                    },
                    FieldModel {
                        native: "inactive_fg"@,
                        default: "#333333"@,
                        title: "Inactive Text"@,
                        about: ""@,
                        hint: ""@,
                        color: true,
                    },
                    FieldModel {
                        native: "proc_misc"@,
                        default: "#8a8a8d"@,
                        title: "Process Misc"@,
                        about: ""@,
                        hint: ""@,
                        color: true,
                    },
                ],
            },
            SectionModel {
                name: Some("boxes"@),
                title: "Box Outlines"@,
                heading: seq![
                    ""@,
                    "# Box outlines and divider lines"@,
                ],
                fields: seq![
                    FieldModel {
                        native: "cpu_box"@,
                        default: "#8a8a8d"@,
                        title: "CPU Box Outline"@,
                        about: ""@,
                        hint: ""@,
                        color: true,
                    },
                    FieldModel {
                        native: "mem_box"@,
                        default: "#8a8a8d"@,
                        title: "Memory Box Outline"@,
                        about: ""@,
                        hint: ""@,
                        color: true,
                    },
                    FieldModel {
                        native: "net_box"@,
                        default: "#8a8a8d"@,
                        title: "Network Box Outline"@,
                        about: ""@,
                        hint: ""@,
                        color: true,
                    },
                    FieldModel {
                        native: "proc_box"@,
                        default: "#8a8a8d"@,
                        title: "Process Box Outline"@,
                        about: ""@,
                        hint: ""@,
                        color: true,
                    },
                    FieldModel {
                        native: "div_line"@,
                        default: "#8a8a8d"@,
                        title: "Divider Line"@,
                        about: ""@,
                        hint: ""@,
                        color: true,
                    },
                ],
            },
            SectionModel {
                name: Some("temperature"@),
                title: "Temperature Graph"@,
                heading: seq![
                    ""@,
                    "# Temperature graph colors"@,
                ],
                fields: seq![
                    FieldModel {
                        native: "temp_start"@,
                        default: "#8a8a8d"@,
                        title: "Start Color"@,
                        about: ""@,
                        hint: ""@,
                        color: true,
                    },
                    FieldModel {
                        native: "temp_mid"@,
                        default: "#f59e0b"@,
                        title: "Mid Color"@,
                        about: ""@,
                        hint: ""@,
                        color: true,
                    },
                    FieldModel {
                        native: "temp_end"@,
                        default: "#b91c1c"@,
                        title: "End Color"@,
                        about: ""@,
                        hint: ""@,
                        color: true,
                    },
                ],
            },
            SectionModel {
                name: Some("cpu"@),
                title: "CPU Graph"@,
                heading: seq![
                    ""@,
                    "# CPU graph colors"@,
                ],
                fields: seq![
                    FieldModel {
                        native: "cpu_start"@,
                        default: "#8a8a8d"@,
                        title: "Start Color"@,
                        about: ""@,
                        hint: ""@,
                        color: true,
                    },
                    FieldModel {
                        native: "cpu_mid"@,
                        default: "#f59e0b"@,
                        title: "Mid Color"@,
                        about: ""@,
                        hint: ""@,
                        color: true,
                    },
                    FieldModel {
                        native: "cpu_end"@,
                        default: "#b91c1c"@,
                        title: "End Color"@,
                        about: ""@,
                        hint: ""@,
                        color: true,
                    },
                ],
            },
            SectionModel {
                name: Some("memory"@),
                title: "Memory Meters"@,
                heading: seq![
                    ""@,
                    "# Memory and disk meters"@,
                ],
                fields: seq![
                    FieldModel {
                        native: "free_start"@,
                        default: "#8a8a8d"@,
                        title: "Free Start"@,
                        about: ""@,
                        hint: ""@,
                        color: true,
                    },
                    FieldModel {
                        native: "free_mid"@,
                        default: "#f59e0b"@,
                        title: "Free Mid"@,
                        about: ""@,
                        hint: ""@,
                        color: true,
                    },
                    FieldModel {
                        native: "free_end"@,
                        default: "#b91c1c"@,
                        title: "Free End"@,
                        about: ""@,
                        hint: ""@,
                        color: true,
                    },
                    FieldModel {
                        native: "cached_start"@,
                        default: "#8a8a8d"@,
                        title: "Cached Start"@,
                        about: ""@,
                        hint: ""@,
                        color: true,
                    },
                    FieldModel {
                        native: "cached_mid"@,
                        default: "#f59e0b"@,
                        title: "Cached Mid"@,
                        about: ""@,
                        hint: ""@,
                        color: true,
                    },
                    FieldModel {
                        native: "cached_end"@,
                        default: "#b91c1c"@,
                        title: "Cached End"@,
                        about: ""@,
                        hint: ""@,
                        color: true,
                    },
                    FieldModel {
                        native: "available_start"@,
                        default: "#8a8a8d"@,
                        title: "Available Start"@,
                        about: ""@,
                        hint: ""@,
                        color: true,
                    },
                    FieldModel {
                        native: "available_mid"@,
                        default: "#f59e0b"@,
                        title: "Available Mid"@,
                        about: ""@,
                        hint: ""@,
                        color: true,
                    },
                    FieldModel {
                        native: "available_end"@,
                        default: "#b91c1c"@,
                        title: "Available End"@,
                        about: ""@,
                        hint: ""@,
                        color: true,
                    },
                    FieldModel {
                        native: "used_start"@,
                        default: "#8a8a8d"@,
                        title: "Used Start"@,
                        about: ""@,
                        hint: ""@,
                        color: true,
                    },
                    FieldModel {
                        native: "used_mid"@,
                        default: "#f59e0b"@,
                        title: "Used Mid"@,
                        about: ""@,
                        hint: ""@,
                        color: true,
                    },
                    FieldModel {
                        native: "used_end"@,
                        default: "#b91c1c"@,
                        title: "Used End"@,
                        about: ""@,
                        hint: ""@,
                        color: true,
                    },
                ],
            },
            SectionModel {
                name: Some("network"@),
                title: "Network Meters"@,
                heading: seq![
                    ""@,
                    "# Download and upload graph colors"@,
                ],
                fields: seq![
                    FieldModel {
                        native: "download_start"@,
                        default: "#8a8a8d"@,
                        title: "Download Start"@,
                        about: ""@,
                        hint: ""@,
                        color: true,
                    },
                    FieldModel {
                        native: "download_mid"@,
                        default: "#f59e0b"@,
                        title: "Download Mid"@,
                        about: ""@,
                        hint: ""@,
                        color: true,
                    },
                    FieldModel {
                        native: "download_end"@,
                        default: "#b91c1c"@,
                        title: "Download End"@,
                        about: ""@,
                        hint: ""@,
                        color: true,
                    },
                    FieldModel {
                        native: "upload_start"@,
                        default: "#8a8a8d"@,
                        title: "Upload Start"@,
                        about: ""@,
                        hint: ""@,
                        color: true,
                    },
                    FieldModel {
                        native: "upload_mid"@,
                        default: "#f59e0b"@,
                        title: "Upload Mid"@,
                        about: ""@,
                        hint: ""@,
                        color: true,
                    },
                    FieldModel {
                        native: "upload_end"@,
                        default: "#b91c1c"@,
                        title: "Upload End"@,
                        about: ""@,
                        hint: ""@,
                        color: true,
                    },
                ],
            },
        ],
        trailer: Seq::empty(),
    }
}

/// The table of [`btop_layout`].
pub fn btop_table() -> (r: Layout)
    ensures
        r@ == btop_layout(),
{
    let r = Layout {
        app: "btop",
        syntax: Syntax::Bracketed,
        header: vec![
            "# ────────────────────────────────────────────────────────────",
            "# Omarchy Custom Theme for btop",
            "# Generated with Omarchist",
            "# ────────────────────────────────────────────────────────────",
            "",
        ],
        sections: vec![
            Section {
                name: Some("basic"),
                title: "Basic Colors",
                heading: vec![
                    "",
                    "# Main colors; an empty main_bg keeps the terminal's own background",
                ],
                fields: vec![
                    Field {
                        native: "main_bg",
                        default: "",
                        title: "Main Background",
                        about: "",
                        hint: "",
                        color: true,
                    },
                    Field {
                        native: "main_fg",
                        default: "#EAEAEA",
                        title: "Main Foreground",
                        about: "",
                        hint: "",
                        color: true,
                    },
                    Field {
                        native: "title",
                        default: "#8a8a8d",
                        title: "Title Color",
                        about: "",
                        hint: "",
                        color: true,
                    },
                    Field {
                        native: "hi_fg",
                        default: "#f59e0b",
                        title: "Highlight Color",
                        about: "",
                        hint: "",
                        color: true,
                    },
                    Field {
                        native: "selected_bg",
                        default: "#f59e0b",
                        title: "Selected Background",
                        about: "",
                        hint: "",
                        color: true,
                    },
                    Field {
                        native: "selected_fg",
                        default: "#EAEAEA",
                        title: "Selected Foreground",
                        about: "",
                        hint: "",
                        color: true,
                    },
                    Field {
                        native: "inactive_fg",
                        default: "#333333",
                        title: "Inactive Text",
                        about: "",
                        hint: "",
                        color: true,
                    },
                    Field {
                        native: "proc_misc",
                        default: "#8a8a8d",
                        title: "Process Misc",
                        about: "",
                        hint: "",
                        color: true,
                    },
                ],
            },
            Section {
                name: Some("boxes"),
                title: "Box Outlines",
                heading: vec![
                    "",
                    "# Box outlines and divider lines",
                ],
                fields: vec![
                    Field {
                        native: "cpu_box",
                        default: "#8a8a8d",
                        title: "CPU Box Outline",
                        about: "",
                        hint: "",
                        color: true,
                    },
                    Field {
                        native: "mem_box",
                        default: "#8a8a8d",
                        title: "Memory Box Outline",
                        about: "",
                        hint: "",
                        color: true,
                    },
                    Field {
                        native: "net_box",
                        default: "#8a8a8d",
                        title: "Network Box Outline",
                        about: "",
                        hint: "",
                        color: true,
                    },
                    Field {
                        native: "proc_box",
                        default: "#8a8a8d",
                        title: "Process Box Outline",
                        about: "",
                        hint: "",
                        color: true,
                    },
                    Field {
                        native: "div_line",
                        default: "#8a8a8d",
                        title: "Divider Line",
                        about: "",
                        hint: "",
                        color: true,
                    },
                ],
            },
            Section {
                name: Some("temperature"),
                title: "Temperature Graph",
                heading: vec![
                    "",
                    "# Temperature graph colors",
                ],
                fields: vec![
                    Field {
                        native: "temp_start",
                        default: "#8a8a8d",
                        title: "Start Color",
                        about: "",
                        hint: "",
                        color: true,
                    },
                    Field {
                        native: "temp_mid",
                        default: "#f59e0b",
                        title: "Mid Color",
                        about: "",
                        hint: "",
                        color: true,
                    },
                    Field {
                        native: "temp_end",
                        default: "#b91c1c",
                        title: "End Color",
                        about: "",
                        hint: "",
                        color: true,
                    },
                ],
            },
            Section {
                name: Some("cpu"),
                title: "CPU Graph",
                heading: vec![
                    "",
                    "# CPU graph colors",
                ],
                fields: vec![
                    Field {
                        native: "cpu_start",
                        default: "#8a8a8d",
                        title: "Start Color",
                        about: "",
                        hint: "",
                        color: true,
                    },
                    Field {
                        native: "cpu_mid",
                        default: "#f59e0b",
                        title: "Mid Color",
                        about: "",
                        hint: "",
                        color: true,
                    },
                    Field {
                        native: "cpu_end",
                        default: "#b91c1c",
                        title: "End Color",
                        about: "",
                        hint: "",
                        color: true,
                    },
                ],
            },
            Section {
                name: Some("memory"),
                title: "Memory Meters",
                heading: vec![
                    "",
                    "# Memory and disk meters",
                ],
                fields: vec![
                    Field {
                        native: "free_start",
                        default: "#8a8a8d",
                        title: "Free Start",
                        about: "",
                        hint: "",
                        color: true,
                    },
                    Field {
                        native: "free_mid",
                        default: "#f59e0b",
                        title: "Free Mid",
                        about: "",
                        hint: "",
                        color: true,
                    },
                    Field {
                        native: "free_end",
                        default: "#b91c1c",
                        title: "Free End",
                        about: "",
                        hint: "",
                        color: true,
                    },
                    Field {
                        native: "cached_start",
                        default: "#8a8a8d",
                        title: "Cached Start",
                        about: "",
                        hint: "",
                        color: true,
                    },
                    Field {
                        native: "cached_mid",
                        default: "#f59e0b",
                        title: "Cached Mid",
                        about: "",
                        hint: "",
                        color: true,
                    },
                    Field {
                        native: "cached_end",
                        default: "#b91c1c",
                        title: "Cached End",
                        about: "",
                        hint: "",
                        color: true,
                    },
                    Field {
                        native: "available_start",
                        default: "#8a8a8d",
                        title: "Available Start",
                        about: "",
                        hint: "",
                        color: true,
                    },
                    Field {
                        native: "available_mid",
                        default: "#f59e0b",
                        title: "Available Mid",
                        about: "",
                        hint: "",
                        color: true,
                    },
                    Field {
                        native: "available_end",
                        default: "#b91c1c",
                        title: "Available End",
                        about: "",
                        hint: "",
                        color: true,
                    },
                    Field {
                        native: "used_start",
                        default: "#8a8a8d",
                        title: "Used Start",
                        about: "",
                        hint: "",
                        color: true,
                    },
                    Field {
                        native: "used_mid",
                        default: "#f59e0b",
                        title: "Used Mid",
                        about: "",
                        hint: "",
                        color: true,
                    },
                    Field {
                        native: "used_end",
                        default: "#b91c1c",
                        title: "Used End",
                        about: "",
                        hint: "",
                        color: true,
                    },
                ],
            },
            Section {
                name: Some("network"),
                title: "Network Meters",
                heading: vec![
                    "",
                    "# Download and upload graph colors",
                ],
                fields: vec![
                    Field {
                        native: "download_start",
                        default: "#8a8a8d",
                        title: "Download Start",
                        about: "",
                        hint: "",
                        color: true,
                    },
                    Field {
                        native: "download_mid",
                        default: "#f59e0b",
                        title: "Download Mid",
                        about: "",
                        hint: "",
                        color: true,
                    },
                    Field {
                        native: "download_end",
                        default: "#b91c1c",
                        title: "Download End",
                        about: "",
                        hint: "",
                        color: true,
                    },
                    Field {
                        native: "upload_start",
                        default: "#8a8a8d",
                        title: "Upload Start",
                        about: "",
                        hint: "",
                        color: true,
                    },
                    Field {
                        native: "upload_mid",
                        default: "#f59e0b",
                        title: "Upload Mid",
                        about: "",
                        hint: "",
                        color: true,
                    },
                    Field {
                        native: "upload_end",
                        default: "#b91c1c",
                        title: "Upload End",
                        about: "",
                        hint: "",
                        color: true,
                    },
                ],
            },
        ],
        trailer: Vec::new(),
    };
    proof {
        let m = btop_layout();
        assert(r.sections@[0]@.heading =~= m.sections[0].heading);
        assert(r.sections@[0]@.fields =~= m.sections[0].fields);
        assert(r.sections@[1]@.heading =~= m.sections[1].heading);
        assert(r.sections@[1]@.fields =~= m.sections[1].fields);
        assert(r.sections@[2]@.heading =~= m.sections[2].heading);
        assert(r.sections@[2]@.fields =~= m.sections[2].fields);
        assert(r.sections@[3]@.heading =~= m.sections[3].heading);
        assert(r.sections@[3]@.fields =~= m.sections[3].fields);
        assert(r.sections@[4]@.heading =~= m.sections[4].heading);
        assert(r.sections@[4]@.fields =~= m.sections[4].fields);
        assert(r.sections@[5]@.heading =~= m.sections[5].heading);
        assert(r.sections@[5]@.fields =~= m.sections[5].fields);
        assert(r@.header =~= m.header);
        assert(r@.sections =~= m.sections);
        assert(r@.trailer =~= m.trailer);
    }
    r
}

/// The btop codec.
pub struct BtopGenerator;

impl BtopGenerator {
    /// The key of this codec's part of the tree.
    pub fn get_app_name(&self) -> (r: &'static str)
        ensures
            r@ == btop_layout().app,
    {
        "btop"
    }

    /// The file the rendered text is meant for.
    pub fn get_file_name(&self) -> (r: &'static str)
        ensures
            r@ == "btop.theme"@,
    {
        "btop.theme"
    }

    /// The file text for `theme_data`; a field missing from the tree, or not
    /// a string there, takes its default.
    pub fn generate_config(&self, theme_data: &ThemeValue) -> (r: Result<String, String>)
        ensures
            r matches Ok(t) && t@ == rendered(btop_layout(), theme_data@),
    {
        Ok(render(&btop_table(), theme_data))
    }

    /// The schema of this codec's fields, for an editor.
    pub fn get_config_schema(&self) -> (r: ThemeValue)
        ensures
            r@ == schema_of(btop_layout()),
    {
        schema(&btop_table())
    }

    /// The tree of the fields that `content` states; the others are left out.
    pub fn parse_existing_config(&self, content: &str) -> (r: Result<ThemeValue, String>)
        ensures
            r matches Ok(v) && v@ == parsed(btop_layout(), content@),
    {
        Ok(parse(&btop_table(), content))
    }
}

/// The position, counting across sections, of the btop field with key `k`;
/// keys are told apart by their codes.
spec fn btop_slot(k: Seq<char>) -> int {
    let c = code_from(k, 0);
    if c == code_from("main_bg"@, 0) {
        0
    } else if c == code_from("main_fg"@, 0) {
        1
    } else if c == code_from("title"@, 0) {
        2
    } else if c == code_from("hi_fg"@, 0) {
        3
    } else if c == code_from("selected_bg"@, 0) {
        4
    } else if c == code_from("selected_fg"@, 0) {
        5
    } else if c == code_from("inactive_fg"@, 0) {
        6
    } else if c == code_from("proc_misc"@, 0) {
        7
    } else if c == code_from("cpu_box"@, 0) {
        8
    } else if c == code_from("mem_box"@, 0) {
        9
    } else if c == code_from("net_box"@, 0) {
        10
    } else if c == code_from("proc_box"@, 0) {
        11
    } else if c == code_from("div_line"@, 0) {
        12
    } else if c == code_from("temp_start"@, 0) {
        13
    } else if c == code_from("temp_mid"@, 0) {
        14
    } else if c == code_from("temp_end"@, 0) {
        15
    } else if c == code_from("cpu_start"@, 0) {
        16
    } else if c == code_from("cpu_mid"@, 0) {
        17
    } else if c == code_from("cpu_end"@, 0) {
        18
    } else if c == code_from("free_start"@, 0) {
        19
    } else if c == code_from("free_mid"@, 0) {
        20
    } else if c == code_from("free_end"@, 0) {
        21
    } else if c == code_from("cached_start"@, 0) {
        22
    } else if c == code_from("cached_mid"@, 0) {
        23
    } else if c == code_from("cached_end"@, 0) {
        24
    } else if c == code_from("available_start"@, 0) {
        25
    } else if c == code_from("available_mid"@, 0) {
        26
    } else if c == code_from("available_end"@, 0) {
        27
    } else if c == code_from("used_start"@, 0) {
        28
    } else if c == code_from("used_mid"@, 0) {
        29
    } else if c == code_from("used_end"@, 0) {
        30
    } else if c == code_from("download_start"@, 0) {
        31
    } else if c == code_from("download_mid"@, 0) {
        32
    } else if c == code_from("download_end"@, 0) {
        33
    } else if c == code_from("upload_start"@, 0) {
        34
    } else if c == code_from("upload_mid"@, 0) {
        35
    } else if c == code_from("upload_end"@, 0) {
        36
    } else {
        -1
    }
}

/// Where section `i` starts in the btop table.
spec fn btop_offset(i: int) -> int {
    if i == 0 {
        0
    } else if i == 1 {
        8
    } else if i == 2 {
        13
    } else if i == 3 {
        16
    } else if i == 4 {
        19
    } else if i == 5 {
        31
    } else {
        37
    }
}

/// The codes of the keys and names that the btop table holds.
proof fn lemma_btop_codes()
    ensures
        code_from("main_bg"@, 0) == 456391778791661,
        code_from("main_fg"@, 0) == 456529217745133,
        code_from("title"@, 0) == 27340387572,
        code_from("hi_fg"@, 0) == 27864331496,
        code_from("selected_bg"@, 0) == 122511729608149293544179,
        code_from("selected_fg"@, 0) == 122548623096296712647411,
        code_from("inactive_fg"@, 0) == 122548623733640058664809,
        code_from("proc_misc"@, 0) == 7198906620204284272,
        code_from("cpu_box"@, 0) == 531606020126819,
        code_from("mem_box"@, 0) == 531606019994349,
        code_from("net_box"@, 0) == 531606020109038,
        code_from("proc_box"@, 0) == 68045570538469744,
        code_from("div_line"@, 0) == 57345367376508132,
        code_from("temp_start"@, 0) == 1078180842291462894324,
        code_from("temp_mid"@, 0) == 56760561175327476,
        code_from("temp_end"@, 0) == 56782276529976052,
        code_from("cpu_start"@, 0) == 8423287830402136163,
        code_from("cpu_mid"@, 0) == 443441884264547,
        code_from("cpu_end"@, 0) == 443611535472739,
        code_from("free_start"@, 0) == 1078180842291439696230,
        code_from("free_mid"@, 0) == 56760561152129382,
        code_from("free_end"@, 0) == 56782276506777958,
        code_from("cached_start"@, 0) == 17664914920102913602285795,
        code_from("cached_mid"@, 0) == 929965033882107048163,
        code_from("cached_end"@, 0) == 930320818252669317347,
        code_from("available_start"@, 0) == 37046011654523741438650539866977,
        code_from("available_mid"@, 0) == 1950278030811900349949442913,
        code_from("available_end"@, 0) == 1951024164716193753893206881,
        code_from("used_start"@, 0) == 1078180842291437599221,
        code_from("used_mid"@, 0) == 56760561150032373,
        code_from("used_end"@, 0) == 56782276504680949,
        code_from("download_start"@, 0) == 289421966050966119110626113508,
        code_from("download_mid"@, 0) == 15236547115107092652750820,
        code_from("download_end"@, 0) == 15242376286234384871061476,
        code_from("upload_start"@, 0) == 17664914920102912543373429,
        code_from("upload_mid"@, 0) == 929965033881048135797,
        code_from("upload_end"@, 0) == 930320818251610404981,
        code_from("basic"@, 0) == 26797207778,
        code_from("boxes"@, 0) == 31083870178,
        code_from("temperature"@, 0) == 120299714575911890940660,
        code_from("cpu"@, 0) == 1931363,
        code_from("memory"@, 0) == 4188364567277,
        code_from("network"@, 0) == 474538034672366,
{
    reveal_with_fuel(code_from, 17);
    reveal_strlit("main_bg");
    reveal_strlit("main_fg");
    reveal_strlit("title");
    reveal_strlit("hi_fg");
    reveal_strlit("selected_bg");
    reveal_strlit("selected_fg");
    reveal_strlit("inactive_fg");
    reveal_strlit("proc_misc");
    reveal_strlit("cpu_box");
    reveal_strlit("mem_box");
    reveal_strlit("net_box");
    reveal_strlit("proc_box");
    reveal_strlit("div_line");
    reveal_strlit("temp_start");
    reveal_strlit("temp_mid");
    reveal_strlit("temp_end");
    reveal_strlit("cpu_start");
    reveal_strlit("cpu_mid");
    reveal_strlit("cpu_end");
    reveal_strlit("free_start");
    reveal_strlit("free_mid");
    reveal_strlit("free_end");
    reveal_strlit("cached_start");
    reveal_strlit("cached_mid");
    reveal_strlit("cached_end");
    reveal_strlit("available_start");
    reveal_strlit("available_mid");
    reveal_strlit("available_end");
    reveal_strlit("used_start");
    reveal_strlit("used_mid");
    reveal_strlit("used_end");
    reveal_strlit("download_start");
    reveal_strlit("download_mid");
    reveal_strlit("download_end");
    reveal_strlit("upload_start");
    reveal_strlit("upload_mid");
    reveal_strlit("upload_end");
    reveal_strlit("basic");
    reveal_strlit("boxes");
    reveal_strlit("temperature");
    reveal_strlit("cpu");
    reveal_strlit("memory");
    reveal_strlit("network");
}

proof fn lemma_btop_slot(i: int, j: int)
    requires
        field_at(btop_layout(), i, j),
    ensures
        btop_slot(native_at(btop_layout(), i, j)) == btop_offset(i) + j,
{
    let l = btop_layout();
    lemma_btop_codes();
    if i == 0 && j == 0 {
        assert(native_at(l, i, j) == "main_bg"@);
    } else if i == 0 && j == 1 {
        assert(native_at(l, i, j) == "main_fg"@);
    } else if i == 0 && j == 2 {
        assert(native_at(l, i, j) == "title"@);
    } else if i == 0 && j == 3 {
        assert(native_at(l, i, j) == "hi_fg"@);
    } else if i == 0 && j == 4 {
        assert(native_at(l, i, j) == "selected_bg"@);
    } else if i == 0 && j == 5 {
        assert(native_at(l, i, j) == "selected_fg"@);
    } else if i == 0 && j == 6 {
        assert(native_at(l, i, j) == "inactive_fg"@);
    } else if i == 0 && j == 7 {
        assert(native_at(l, i, j) == "proc_misc"@);
    } else if i == 1 && j == 0 {
        assert(native_at(l, i, j) == "cpu_box"@);
    } else if i == 1 && j == 1 {
        assert(native_at(l, i, j) == "mem_box"@);
    } else if i == 1 && j == 2 {
        assert(native_at(l, i, j) == "net_box"@);
    } else if i == 1 && j == 3 {
        assert(native_at(l, i, j) == "proc_box"@);
    } else if i == 1 && j == 4 {
        assert(native_at(l, i, j) == "div_line"@);
    } else if i == 2 && j == 0 {
        assert(native_at(l, i, j) == "temp_start"@);
    } else if i == 2 && j == 1 {
        assert(native_at(l, i, j) == "temp_mid"@);
    } else if i == 2 && j == 2 {
        assert(native_at(l, i, j) == "temp_end"@);
    } else if i == 3 && j == 0 {
        assert(native_at(l, i, j) == "cpu_start"@);
    } else if i == 3 && j == 1 {
        assert(native_at(l, i, j) == "cpu_mid"@);
    } else if i == 3 && j == 2 {
        assert(native_at(l, i, j) == "cpu_end"@);
    } else if i == 4 && j == 0 {
        assert(native_at(l, i, j) == "free_start"@);
    } else if i == 4 && j == 1 {
        assert(native_at(l, i, j) == "free_mid"@);
    } else if i == 4 && j == 2 {
        assert(native_at(l, i, j) == "free_end"@);
    } else if i == 4 && j == 3 {
        assert(native_at(l, i, j) == "cached_start"@);
    } else if i == 4 && j == 4 {
        assert(native_at(l, i, j) == "cached_mid"@);
    } else if i == 4 && j == 5 {
        assert(native_at(l, i, j) == "cached_end"@);
    } else if i == 4 && j == 6 {
        assert(native_at(l, i, j) == "available_start"@);
    } else if i == 4 && j == 7 {
        assert(native_at(l, i, j) == "available_mid"@);
    } else if i == 4 && j == 8 {
        assert(native_at(l, i, j) == "available_end"@);
    } else if i == 4 && j == 9 {
        assert(native_at(l, i, j) == "used_start"@);
    } else if i == 4 && j == 10 {
        assert(native_at(l, i, j) == "used_mid"@);
    } else if i == 4 && j == 11 {
        assert(native_at(l, i, j) == "used_end"@);
    } else if i == 5 && j == 0 {
        assert(native_at(l, i, j) == "download_start"@);
    } else if i == 5 && j == 1 {
        assert(native_at(l, i, j) == "download_mid"@);
    } else if i == 5 && j == 2 {
        assert(native_at(l, i, j) == "download_end"@);
    } else if i == 5 && j == 3 {
        assert(native_at(l, i, j) == "upload_start"@);
    } else if i == 5 && j == 4 {
        assert(native_at(l, i, j) == "upload_mid"@);
    } else if i == 5 && j == 5 {
        assert(native_at(l, i, j) == "upload_end"@);
    }
}

/// The btop table meets the conditions under which its text reads back
/// as written.
proof fn lemma_btop_wf()
    ensures
        lines_wf(btop_layout()),
        tree_wf(btop_layout()),
{
    let l = btop_layout();
    reveal_with_fuel(all_from, 17);
    reveal_with_fuel(free_from, 69);
    lemma_btop_codes();
    reveal_strlit("");
    assert(""@ =~= Seq::<char>::empty());
    lemma_empty_quiet(l);
    assert forall|i: int, j: int| field_at(l, i, j) implies valid_key(l.syntax, native_at(l, i, j)) && all_in(#[trigger] native_at(l, i, j), Class::Ident) by {
        if i == 0 && j == 0 {
            reveal_strlit("main_bg");
            lemma_ident_key("main_bg"@);
            assert(native_at(l, i, j) == "main_bg"@);
        } else if i == 0 && j == 1 {
            reveal_strlit("main_fg");
            lemma_ident_key("main_fg"@);
            assert(native_at(l, i, j) == "main_fg"@);
        } else if i == 0 && j == 2 {
            reveal_strlit("title");
            lemma_ident_key("title"@);
            assert(native_at(l, i, j) == "title"@);
        } else if i == 0 && j == 3 {
            reveal_strlit("hi_fg");
            lemma_ident_key("hi_fg"@);
            assert(native_at(l, i, j) == "hi_fg"@);
        } else if i == 0 && j == 4 {
            reveal_strlit("selected_bg");
            lemma_ident_key("selected_bg"@);
            assert(native_at(l, i, j) == "selected_bg"@);
        } else if i == 0 && j == 5 {
            reveal_strlit("selected_fg");
            lemma_ident_key("selected_fg"@);
            assert(native_at(l, i, j) == "selected_fg"@);
        } else if i == 0 && j == 6 {
            reveal_strlit("inactive_fg");
            lemma_ident_key("inactive_fg"@);
            assert(native_at(l, i, j) == "inactive_fg"@);
        } else if i == 0 && j == 7 {
            reveal_strlit("proc_misc");
            lemma_ident_key("proc_misc"@);
            assert(native_at(l, i, j) == "proc_misc"@);
        } else if i == 1 && j == 0 {
            reveal_strlit("cpu_box");
            lemma_ident_key("cpu_box"@);
            assert(native_at(l, i, j) == "cpu_box"@);
        } else if i == 1 && j == 1 {
            reveal_strlit("mem_box");
            lemma_ident_key("mem_box"@);
            assert(native_at(l, i, j) == "mem_box"@);
        } else if i == 1 && j == 2 {
            reveal_strlit("net_box");
            lemma_ident_key("net_box"@);
            assert(native_at(l, i, j) == "net_box"@);
        } else if i == 1 && j == 3 {
            reveal_strlit("proc_box");
            lemma_ident_key("proc_box"@);
            assert(native_at(l, i, j) == "proc_box"@);
        } else if i == 1 && j == 4 {
            reveal_strlit("div_line");
            lemma_ident_key("div_line"@);
            assert(native_at(l, i, j) == "div_line"@);
        } else if i == 2 && j == 0 {
            reveal_strlit("temp_start");
            lemma_ident_key("temp_start"@);
            assert(native_at(l, i, j) == "temp_start"@);
        } else if i == 2 && j == 1 {
            reveal_strlit("temp_mid");
            lemma_ident_key("temp_mid"@);
            assert(native_at(l, i, j) == "temp_mid"@);
        } else if i == 2 && j == 2 {
            reveal_strlit("temp_end");
            lemma_ident_key("temp_end"@);
            assert(native_at(l, i, j) == "temp_end"@);
        } else if i == 3 && j == 0 {
            reveal_strlit("cpu_start");
            lemma_ident_key("cpu_start"@);
            assert(native_at(l, i, j) == "cpu_start"@);
        } else if i == 3 && j == 1 {
            reveal_strlit("cpu_mid");
            lemma_ident_key("cpu_mid"@);
            assert(native_at(l, i, j) == "cpu_mid"@);
        } else if i == 3 && j == 2 {
            reveal_strlit("cpu_end");
            lemma_ident_key("cpu_end"@);
            assert(native_at(l, i, j) == "cpu_end"@);
        } else if i == 4 && j == 0 {
            reveal_strlit("free_start");
            lemma_ident_key("free_start"@);
            assert(native_at(l, i, j) == "free_start"@);
        } else if i == 4 && j == 1 {
            reveal_strlit("free_mid");
            lemma_ident_key("free_mid"@);
            assert(native_at(l, i, j) == "free_mid"@);
        } else if i == 4 && j == 2 {
            reveal_strlit("free_end");
            lemma_ident_key("free_end"@);
            assert(native_at(l, i, j) == "free_end"@);
        } else if i == 4 && j == 3 {
            reveal_strlit("cached_start");
            lemma_ident_key("cached_start"@);
            assert(native_at(l, i, j) == "cached_start"@);
        } else if i == 4 && j == 4 {
            reveal_strlit("cached_mid");
            lemma_ident_key("cached_mid"@);
            assert(native_at(l, i, j) == "cached_mid"@);
        } else if i == 4 && j == 5 {
            reveal_strlit("cached_end");
            lemma_ident_key("cached_end"@);
            assert(native_at(l, i, j) == "cached_end"@);
        } else if i == 4 && j == 6 {
            reveal_strlit("available_start");
            lemma_ident_key("available_start"@);
            assert(native_at(l, i, j) == "available_start"@);
        } else if i == 4 && j == 7 {
            reveal_strlit("available_mid");
            lemma_ident_key("available_mid"@);
            assert(native_at(l, i, j) == "available_mid"@);
        } else if i == 4 && j == 8 {
            reveal_strlit("available_end");
            lemma_ident_key("available_end"@);
            assert(native_at(l, i, j) == "available_end"@);
        } else if i == 4 && j == 9 {
            reveal_strlit("used_start");
            lemma_ident_key("used_start"@);
            assert(native_at(l, i, j) == "used_start"@);
        } else if i == 4 && j == 10 {
            reveal_strlit("used_mid");
            lemma_ident_key("used_mid"@);
            assert(native_at(l, i, j) == "used_mid"@);
        } else if i == 4 && j == 11 {
            reveal_strlit("used_end");
            lemma_ident_key("used_end"@);
            assert(native_at(l, i, j) == "used_end"@);
        } else if i == 5 && j == 0 {
            reveal_strlit("download_start");
            lemma_ident_key("download_start"@);
            assert(native_at(l, i, j) == "download_start"@);
        } else if i == 5 && j == 1 {
            reveal_strlit("download_mid");
            lemma_ident_key("download_mid"@);
            assert(native_at(l, i, j) == "download_mid"@);
        } else if i == 5 && j == 2 {
            reveal_strlit("download_end");
            lemma_ident_key("download_end"@);
            assert(native_at(l, i, j) == "download_end"@);
        } else if i == 5 && j == 3 {
            reveal_strlit("upload_start");
            lemma_ident_key("upload_start"@);
            assert(native_at(l, i, j) == "upload_start"@);
        } else if i == 5 && j == 4 {
            reveal_strlit("upload_mid");
            lemma_ident_key("upload_mid"@);
            assert(native_at(l, i, j) == "upload_mid"@);
        } else if i == 5 && j == 5 {
            reveal_strlit("upload_end");
            lemma_ident_key("upload_end"@);
            assert(native_at(l, i, j) == "upload_end"@);
        }
    }
    assert forall|i: int, j: int, i2: int, j2: int|
        field_at(l, i, j) && field_at(l, i2, j2) && native_at(l, i, j) == native_at(l, i2, j2) implies i == i2 && j == j2 by {
        lemma_btop_slot(i, j);
        lemma_btop_slot(i2, j2);
    }
    reveal_strlit("# ────────────────────────────────────────────────────────────");
    assert(free_from("# ────────────────────────────────────────────────────────────"@, 0));
    lemma_comment_quiet(l, "# ────────────────────────────────────────────────────────────"@);
    reveal_strlit("# Omarchy Custom Theme for btop");
    assert(free_from("# Omarchy Custom Theme for btop"@, 0));
    lemma_comment_quiet(l, "# Omarchy Custom Theme for btop"@);
    reveal_strlit("# Generated with Omarchist");
    assert(free_from("# Generated with Omarchist"@, 0));
    lemma_comment_quiet(l, "# Generated with Omarchist"@);
    reveal_strlit("# Main colors; an empty main_bg keeps the terminal's own background");
    assert(free_from("# Main colors; an empty main_bg keeps the terminal's own background"@, 0));
    lemma_comment_quiet(l, "# Main colors; an empty main_bg keeps the terminal's own background"@);
    reveal_strlit("# Box outlines and divider lines");
    assert(free_from("# Box outlines and divider lines"@, 0));
    lemma_comment_quiet(l, "# Box outlines and divider lines"@);
    reveal_strlit("# Temperature graph colors");
    assert(free_from("# Temperature graph colors"@, 0));
    lemma_comment_quiet(l, "# Temperature graph colors"@);
    reveal_strlit("# CPU graph colors");
    assert(free_from("# CPU graph colors"@, 0));
    lemma_comment_quiet(l, "# CPU graph colors"@);
    reveal_strlit("# Memory and disk meters");
    assert(free_from("# Memory and disk meters"@, 0));
    lemma_comment_quiet(l, "# Memory and disk meters"@);
    reveal_strlit("# Download and upload graph colors");
    assert(free_from("# Download and upload graph colors"@, 0));
    lemma_comment_quiet(l, "# Download and upload graph colors"@);
    assert forall|q: int| 0 <= q < l.header.len() implies quiet(l, #[trigger] l.header[q]) by {
        if q == 0 {
            assert(l.header[q] == "# ────────────────────────────────────────────────────────────"@);
        } else if q == 1 {
            assert(l.header[q] == "# Omarchy Custom Theme for btop"@);
        } else if q == 2 {
            assert(l.header[q] == "# Generated with Omarchist"@);
        } else if q == 3 {
            assert(l.header[q] == "# ────────────────────────────────────────────────────────────"@);
        } else if q == 4 {
            assert(l.header[q] == ""@);
        }
    }
    assert forall|i: int, q: int| 0 <= i < l.sections.len() && 0 <= q < l.sections[i].heading.len() implies quiet(l, #[trigger] l.sections[i].heading[q]) by {
        if i == 0 && q == 0 {
            assert(l.sections[i].heading[q] == ""@);
        } else if i == 0 && q == 1 {
            assert(l.sections[i].heading[q] == "# Main colors; an empty main_bg keeps the terminal's own background"@);
        } else if i == 1 && q == 0 {
            assert(l.sections[i].heading[q] == ""@);
        } else if i == 1 && q == 1 {
            assert(l.sections[i].heading[q] == "# Box outlines and divider lines"@);
        } else if i == 2 && q == 0 {
            assert(l.sections[i].heading[q] == ""@);
        } else if i == 2 && q == 1 {
            assert(l.sections[i].heading[q] == "# Temperature graph colors"@);
        } else if i == 3 && q == 0 {
            assert(l.sections[i].heading[q] == ""@);
        } else if i == 3 && q == 1 {
            assert(l.sections[i].heading[q] == "# CPU graph colors"@);
        } else if i == 4 && q == 0 {
            assert(l.sections[i].heading[q] == ""@);
        } else if i == 4 && q == 1 {
            assert(l.sections[i].heading[q] == "# Memory and disk meters"@);
        } else if i == 5 && q == 0 {
            assert(l.sections[i].heading[q] == ""@);
        } else if i == 5 && q == 1 {
            assert(l.sections[i].heading[q] == "# Download and upload graph colors"@);
        }
    }
    assert forall|i: int, i2: int|
        0 <= i < l.sections.len() && 0 <= i2 < l.sections.len() && l.sections[i].name is Some && l.sections[i].name == l.sections[i2].name implies i == i2 by {
        if i == 0 {
            assert(l.sections[i].name == Some("basic"@));
        } else if i == 1 {
            assert(l.sections[i].name == Some("boxes"@));
        } else if i == 2 {
            assert(l.sections[i].name == Some("temperature"@));
        } else if i == 3 {
            assert(l.sections[i].name == Some("cpu"@));
        } else if i == 4 {
            assert(l.sections[i].name == Some("memory"@));
        } else if i == 5 {
            assert(l.sections[i].name == Some("network"@));
        }
        if i2 == 0 {
            assert(l.sections[i2].name == Some("basic"@));
        } else if i2 == 1 {
            assert(l.sections[i2].name == Some("boxes"@));
        } else if i2 == 2 {
            assert(l.sections[i2].name == Some("temperature"@));
        } else if i2 == 3 {
            assert(l.sections[i2].name == Some("cpu"@));
        } else if i2 == 4 {
            assert(l.sections[i2].name == Some("memory"@));
        } else if i2 == 5 {
            assert(l.sections[i2].name == Some("network"@));
        }
    }
}

/// Rendering a btop tree that holds a value for every field, then parsing
/// the text, gives that tree back, where each value is one the syntax writes
/// and reads unchanged.
pub proof fn btop_round_trip(vss: Seq<Seq<Option<Seq<char>>>>)
    requires
        full(btop_layout(), vss),
        forall|i: int, j: int| field_at(btop_layout(), i, j) ==> valid_value(Syntax::Bracketed, #[trigger] vss[i][j]->0),
    ensures
        parsed(btop_layout(), rendered(btop_layout(), tree_of(btop_layout(), vss))) == tree_of(btop_layout(), vss),
{
    lemma_btop_wf();
    law_round_trip(btop_layout(), vss);
}

/// Two cycles of rendering and parsing a btop tree give what one gives, where
/// every text written for the tree is one the syntax reads back unchanged.
pub proof fn btop_fixed_point(t: Node)
    requires
        texts_valid(btop_layout(), t),
    ensures
        parsed(btop_layout(), rendered(btop_layout(), parsed(btop_layout(), rendered(btop_layout(), t)))) == parsed(btop_layout(), rendered(btop_layout(), t)),
{
    lemma_btop_wf();
    law_fixed_point(btop_layout(), t);
}

/// Every default of the btop table is a value its syntax reads back unchanged.
proof fn lemma_btop_defaults()
    ensures
        defaults_valid(btop_layout()),
{
    let l = btop_layout();
    reveal_with_fuel(all_from, 9);
    reveal_with_fuel(free_from, 9);
    reveal_strlit("");
    assert(all_from(""@, Class::NotQuote, 0) && free_from(""@, 0));
    lemma_default_checked(Syntax::Bracketed, ""@, Class::NotQuote);
    reveal_strlit("#EAEAEA");
    assert(all_from("#EAEAEA"@, Class::NotQuote, 0) && free_from("#EAEAEA"@, 0));
    lemma_default_checked(Syntax::Bracketed, "#EAEAEA"@, Class::NotQuote);
    reveal_strlit("#8a8a8d");
    assert(all_from("#8a8a8d"@, Class::NotQuote, 0) && free_from("#8a8a8d"@, 0));
    lemma_default_checked(Syntax::Bracketed, "#8a8a8d"@, Class::NotQuote);
    reveal_strlit("#f59e0b");
    assert(all_from("#f59e0b"@, Class::NotQuote, 0) && free_from("#f59e0b"@, 0));
    lemma_default_checked(Syntax::Bracketed, "#f59e0b"@, Class::NotQuote);
    reveal_strlit("#333333");
    assert(all_from("#333333"@, Class::NotQuote, 0) && free_from("#333333"@, 0));
    lemma_default_checked(Syntax::Bracketed, "#333333"@, Class::NotQuote);
    reveal_strlit("#b91c1c");
    assert(all_from("#b91c1c"@, Class::NotQuote, 0) && free_from("#b91c1c"@, 0));
    lemma_default_checked(Syntax::Bracketed, "#b91c1c"@, Class::NotQuote);
    assert forall|i: int, j: int| field_at(l, i, j) implies valid_value(l.syntax, #[trigger] l.sections[i].fields[j].default) by {
        if i == 0 && j == 0 {
            assert(l.sections[i].fields[j].default == ""@);
        } else if i == 0 && j == 1 {
            assert(l.sections[i].fields[j].default == "#EAEAEA"@);
        } else if i == 0 && j == 2 {
            assert(l.sections[i].fields[j].default == "#8a8a8d"@);
        } else if i == 0 && j == 3 {
            assert(l.sections[i].fields[j].default == "#f59e0b"@);
        } else if i == 0 && j == 4 {
            assert(l.sections[i].fields[j].default == "#f59e0b"@);
        } else if i == 0 && j == 5 {
            assert(l.sections[i].fields[j].default == "#EAEAEA"@);
        } else if i == 0 && j == 6 {
            assert(l.sections[i].fields[j].default == "#333333"@);
        } else if i == 0 && j == 7 {
            assert(l.sections[i].fields[j].default == "#8a8a8d"@);
        } else if i == 1 && j == 0 {
            assert(l.sections[i].fields[j].default == "#8a8a8d"@);
        } else if i == 1 && j == 1 {
            assert(l.sections[i].fields[j].default == "#8a8a8d"@);
        } else if i == 1 && j == 2 {
            assert(l.sections[i].fields[j].default == "#8a8a8d"@);
        } else if i == 1 && j == 3 {
            assert(l.sections[i].fields[j].default == "#8a8a8d"@);
        } else if i == 1 && j == 4 {
            assert(l.sections[i].fields[j].default == "#8a8a8d"@);
        } else if i == 2 && j == 0 {
            assert(l.sections[i].fields[j].default == "#8a8a8d"@);
        } else if i == 2 && j == 1 {
            assert(l.sections[i].fields[j].default == "#f59e0b"@);
        } else if i == 2 && j == 2 {
            assert(l.sections[i].fields[j].default == "#b91c1c"@);
        } else if i == 3 && j == 0 {
            assert(l.sections[i].fields[j].default == "#8a8a8d"@);
        } else if i == 3 && j == 1 {
            assert(l.sections[i].fields[j].default == "#f59e0b"@);
        } else if i == 3 && j == 2 {
            assert(l.sections[i].fields[j].default == "#b91c1c"@);
        } else if i == 4 && j == 0 {
            assert(l.sections[i].fields[j].default == "#8a8a8d"@);
        } else if i == 4 && j == 1 {
            assert(l.sections[i].fields[j].default == "#f59e0b"@);
        } else if i == 4 && j == 2 {
            assert(l.sections[i].fields[j].default == "#b91c1c"@);
        } else if i == 4 && j == 3 {
            assert(l.sections[i].fields[j].default == "#8a8a8d"@);
        } else if i == 4 && j == 4 {
            assert(l.sections[i].fields[j].default == "#f59e0b"@);
        } else if i == 4 && j == 5 {
            assert(l.sections[i].fields[j].default == "#b91c1c"@);
        } else if i == 4 && j == 6 {
            assert(l.sections[i].fields[j].default == "#8a8a8d"@);
        } else if i == 4 && j == 7 {
            assert(l.sections[i].fields[j].default == "#f59e0b"@);
        } else if i == 4 && j == 8 {
            assert(l.sections[i].fields[j].default == "#b91c1c"@);
        } else if i == 4 && j == 9 {
            assert(l.sections[i].fields[j].default == "#8a8a8d"@);
        } else if i == 4 && j == 10 {
            assert(l.sections[i].fields[j].default == "#f59e0b"@);
        } else if i == 4 && j == 11 {
            assert(l.sections[i].fields[j].default == "#b91c1c"@);
        } else if i == 5 && j == 0 {
            assert(l.sections[i].fields[j].default == "#8a8a8d"@);
        } else if i == 5 && j == 1 {
            assert(l.sections[i].fields[j].default == "#f59e0b"@);
        } else if i == 5 && j == 2 {
            assert(l.sections[i].fields[j].default == "#b91c1c"@);
        } else if i == 5 && j == 3 {
            assert(l.sections[i].fields[j].default == "#8a8a8d"@);
        } else if i == 5 && j == 4 {
            assert(l.sections[i].fields[j].default == "#f59e0b"@);
        } else if i == 5 && j == 5 {
            assert(l.sections[i].fields[j].default == "#b91c1c"@);
        }
    }
}

/// Starting from any btop text, two cycles of rendering and parsing give
/// what one gives.
pub proof fn btop_fixed_point_of_text(x: Seq<char>)
    ensures
        ({
            let t = parsed(btop_layout(), x);
            parsed(btop_layout(), rendered(btop_layout(), parsed(btop_layout(), rendered(btop_layout(), t)))) == parsed(btop_layout(), rendered(btop_layout(), t))
        }),
{
    lemma_btop_wf();
    lemma_btop_defaults();
    law_fixed_point_of_text(btop_layout(), x);
}

} // verus!
