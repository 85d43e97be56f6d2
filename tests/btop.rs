use theme_codecs::btop::BtopGenerator;
use theme_codecs::value::ThemeValue;

fn s(x: &str) -> ThemeValue {
    ThemeValue::Str(x.to_string())
}

fn t(es: Vec<(&str, ThemeValue)>) -> ThemeValue {
    ThemeValue::Table(es.into_iter().map(|(k, v)| (k.to_string(), v)).collect())
}

#[test]
fn btop_theme_round_trip_is_lossless_for_all_keys() {
    let generator = BtopGenerator;
    let input_theme = r##"
# Comments and blank lines should be ignored
theme[main_bg]=""
theme[main_fg]="#EAEAEA"
theme[title]="#8a8a8d"
theme[hi_fg]="#f59e0b"
theme[selected_bg]="#f59e0b"
theme[selected_fg]="#EAEAEA"
theme[inactive_fg]="#333333"
theme[proc_misc]="#8a8a8d"

theme[cpu_box]="#8a8a8d"
theme[mem_box]="#8a8a8d"
theme[net_box]="#8a8a8d"
theme[proc_box]="#8a8a8d"
theme[div_line]="#8a8a8d"

theme[temp_start]="#8a8a8d"
theme[temp_mid]="#f59e0b"
theme[temp_end]="#b91c1c"

theme[cpu_start]="#8a8a8d"
theme[cpu_mid]="#f59e0b"
theme[cpu_end]="#b91c1c"

theme[free_start]="#8a8a8d"
theme[free_mid]="#f59e0b"
theme[free_end]="#b91c1c"

theme[cached_start]="#8a8a8d"
theme[cached_mid]="#f59e0b"
theme[cached_end]="#b91c1c"

theme[available_start]="#8a8a8d"
theme[available_mid]="#f59e0b"
theme[available_end]="#b91c1c"

theme[used_start]="#8a8a8d"
theme[used_mid]="#f59e0b"
theme[used_end]="#b91c1c"

theme[download_start]="#8a8a8d"
theme[download_mid]="#f59e0b"
theme[download_end]="#b91c1c"

theme[upload_start]="#8a8a8d"
theme[upload_mid]="#f59e0b"
theme[upload_end]="#b91c1c"
"##;
    let parsed1 = generator.parse_existing_config(input_theme).expect("parse_existing_config should succeed");
    let regenerated_theme = generator.generate_config(&parsed1).expect("generate_config should succeed");
    let parsed2 = generator
        .parse_existing_config(&regenerated_theme)
        .expect("parse_existing_config on regenerated theme should succeed");
    assert_eq!(parsed1, parsed2, "Parsed JSON before and after regeneration should be identical");
}

#[test]
fn btop_theme_json_schema_all_fields_round_trip() {
    let config_json = t(vec![(
        "btop",
        t(vec![(
            "colors",
            t(vec![
                (
                    "basic",
                    t(vec![
                        ("main_bg", s("#111111")),
                        ("main_fg", s("#eeeeee")),
                        ("title", s("#cccccc")),
                        ("hi_fg", s("#ffaa00")),
                        ("selected_bg", s("#292900")),
                        ("selected_fg", s("#eeeeee")),
                        ("inactive_fg", s("#444444")),
                        ("proc_misc", s("#123456")),
                    ]),
                ),
                (
                    "boxes",
                    t(vec![
                        ("cpu_box", s("#0101FF")),
                        ("mem_box", s("#01FF01")),
                        ("net_box", s("#FF0101")),
                        ("proc_box", s("#CCCCCC")),
                        ("div_line", s("#333333")),
                    ]),
                ),
                ("temperature", t(vec![("temp_start", s("#222222")), ("temp_mid", s("#fcba04")), ("temp_end", s("#ba0404"))])),
                ("cpu", t(vec![("cpu_start", s("#030303")), ("cpu_mid", s("#ffa500")), ("cpu_end", s("#ff0000"))])),
                (
                    "memory",
                    t(vec![
                        ("free_start", s("#0e0e0e")),
                        ("free_mid", s("#ffdb58")),
                        ("free_end", s("#bada55")),
                        ("cached_start", s("#99aabb")),
                        ("cached_mid", s("#887766")),
                        ("cached_end", s("#555555")),
                        ("available_start", s("#102030")),
                        ("available_mid", s("#304050")),
                        ("available_end", s("#506070")),
                        ("used_start", s("#706050")),
                        ("used_mid", s("#a0b0c0")),
                        ("used_end", s("#d0e0f0")),
                    ]),
                ),
                (
                    "network",
                    t(vec![
                        ("download_start", s("#0f0f99")),
                        ("download_mid", s("#777700")),
                        ("download_end", s("#f97f00")),
                        ("upload_start", s("#1a2b3c")),
                        ("upload_mid", s("#4d5e6f")),
                        ("upload_end", s("#7f8e9d")),
                    ]),
                ),
            ]),
        )]),
    )]);
    let generator = BtopGenerator;
    let generated = generator.generate_config(&config_json).expect("generate_config should succeed");
    let reparsed = generator
        .parse_existing_config(&generated)
        .expect("parse_existing_config on generated config should succeed");
    assert_eq!(config_json, reparsed, "JSON before and after round-trip through btop format must match exactly");
}

#[test]
fn btop_empty_value_is_present_and_re_rendered() {
    let parsed = BtopGenerator.parse_existing_config("theme[main_bg]=\"\"\n").unwrap();
    assert_eq!(parsed, t(vec![("btop", t(vec![("colors", t(vec![("basic", t(vec![("main_bg", s(""))]))]))]))]));
    let text = BtopGenerator.generate_config(&parsed).unwrap();
    assert!(text.contains("\ntheme[main_bg]=\"\"\n"));
    let absent = BtopGenerator.parse_existing_config("theme[main_fg]=\"#ffffff\"\n").unwrap();
    assert!(absent.get("btop").unwrap().get("colors").unwrap().get("basic").unwrap().get("main_bg").is_none());
}

#[test]
fn btop_tolerates_spaces_around_the_equals_sign() {
    let a = BtopGenerator.parse_existing_config("  theme[hi_fg]  =  \"#f59e0b\"  \n").unwrap();
    let b = BtopGenerator.parse_existing_config("theme[hi_fg]=\"#f59e0b\"\n").unwrap();
    assert_eq!(a, b);
    assert_eq!(a, t(vec![("btop", t(vec![("colors", t(vec![("basic", t(vec![("hi_fg", s("#f59e0b"))]))]))]))]));
}

#[test]
fn btop_ignores_unknown_keys_and_keeps_the_last_statement() {
    let input = "theme[unknown_key]=\"#123456\"\ntheme[cpu_mid]=\"#000000\"\ntheme[cpu_mid]=\"#111111\"\nsomething else\n";
    let parsed = BtopGenerator.parse_existing_config(input).unwrap();
    assert_eq!(parsed, t(vec![("btop", t(vec![("colors", t(vec![("cpu", t(vec![("cpu_mid", s("#111111"))]))]))]))]));
}

#[test]
fn btop_renders_defaults_for_missing_namespace() {
    let text = BtopGenerator.generate_config(&t(vec![("other", t(vec![]))])).unwrap();
    assert!(text.contains("theme[main_bg]=\"\"\n"));
    assert!(text.contains("theme[main_fg]=\"#EAEAEA\"\n"));
    assert!(text.contains("theme[upload_end]=\"#b91c1c\"\n"));
    let parsed = BtopGenerator.parse_existing_config(&text).unwrap();
    let basic = parsed.get("btop").unwrap().get("colors").unwrap().get("basic").unwrap();
    assert_eq!(basic.get("title"), Some(&s("#8a8a8d")));
}

#[test]
fn btop_schema_declares_the_render_defaults() {
    let schema = BtopGenerator.get_config_schema();
    let leaf = schema
        .get("properties").unwrap()
        .get("colors").unwrap()
        .get("properties").unwrap()
        .get("basic").unwrap()
        .get("properties").unwrap()
        .get("main_fg").unwrap();
    assert_eq!(leaf.get("default"), Some(&s("#EAEAEA")));
    assert_eq!(leaf.get("title"), Some(&s("Main Foreground")));
    assert_eq!(leaf.get("format"), Some(&s("color")));
}
