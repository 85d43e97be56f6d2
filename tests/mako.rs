use theme_codecs::mako::MakoGenerator;
use theme_codecs::value::ThemeValue;

fn s(x: &str) -> ThemeValue {
    ThemeValue::Str(x.to_string())
}

fn t(es: Vec<(&str, ThemeValue)>) -> ThemeValue {
    ThemeValue::Table(es.into_iter().map(|(k, v)| (k.to_string(), v)).collect())
}

#[test]
fn ini_round_trip_is_lossless_for_top_level_colors() {
    let generator = MakoGenerator;
    let input_ini = r#"

text-color=#ABCDEF
border-color=#123456
background-color=#0F0F0F
width=420
height=110
padding=10
border-size=2
font=Liberation Sans 11
anchor=top-right
outer-margin=20
default-timeout=5000
max-icon-size=32

[app-name=Spotify]
invisible=1

[mode=do-not-disturb]
invisible=true

[mode=do-not-disturb app-name=notify-send]
invisible=false
"#;
    let parsed1 = generator.parse_existing_config(input_ini).expect("parse_existing_config should succeed");
    let regenerated_ini = generator.generate_config(&parsed1).expect("generate_config should succeed");
    let parsed2 = generator
        .parse_existing_config(&regenerated_ini)
        .expect("parse_existing_config on regenerated ini should succeed");
    assert_eq!(parsed1, parsed2, "Parsed JSON before and after regeneration should be identical");
}

#[test]
fn json_round_trip_is_lossless_missing_fields() {
    let generator = MakoGenerator;
    let parsed_json = t(vec![(
        "mako",
        t(vec![(
            "colors",
            t(vec![(
                "normal",
                t(vec![("text_color", s("#AABBCC")), ("border_color", s("#334455")), ("background_color", s("#112233"))]),
            )]),
        )]),
    )]);
    let ini = generator.generate_config(&parsed_json).expect("generate_config should succeed");
    let reparsed_json = generator.parse_existing_config(&ini).expect("parse_existing_config should succeed");
    assert_eq!(
        parsed_json, reparsed_json,
        "JSON config before and after INI round-trip should be identical for top-level colors"
    );
}

#[test]
fn mako_renames_dashes_and_reads_only_colors() {
    let parsed = MakoGenerator.parse_existing_config("  border-color = #123456 trailing\nwidth=420\n").unwrap();
    assert_eq!(parsed, t(vec![("mako", t(vec![("colors", t(vec![("normal", t(vec![("border_color", s("#123456"))]))]))]))]));
}

#[test]
fn mako_without_colors_gives_empty_namespace() {
    assert_eq!(MakoGenerator.parse_existing_config("width=420\n").unwrap(), t(vec![("mako", t(vec![]))]));
}

#[test]
fn mako_renders_fixed_settings_after_colors() {
    let text = MakoGenerator.generate_config(&t(vec![])).unwrap();
    assert!(text.contains("text-color=#8A8A8D\nborder-color=#8A8A8D\nbackground-color=#1E1E1E\nwidth=420\n"));
    assert!(text.ends_with("[mode=do-not-disturb app-name=notify-send]\ninvisible=false\n"));
}

#[test]
fn mako_first_statement_of_a_key_wins() {
    let text = "border-color=#111111\n[urgency=high]\nborder-color=#FF0000\n";
    let parsed = MakoGenerator.parse_existing_config(text).unwrap();
    assert_eq!(parsed, t(vec![("mako", t(vec![("colors", t(vec![("normal", t(vec![("border_color", s("#111111"))]))]))]))]));
}
