use theme_codecs::hyprland::HyprlandGenerator;
use theme_codecs::value::ThemeValue;

fn s(x: &str) -> ThemeValue {
    ThemeValue::Str(x.to_string())
}

fn t(es: Vec<(&str, ThemeValue)>) -> ThemeValue {
    ThemeValue::Table(es.into_iter().map(|(k, v)| (k.to_string(), v)).collect())
}

fn normalize_raw_hyprland(raw: &str) -> String {
    let mut out = String::new();
    for line in raw.lines() {
        let line = line.trim();
        if line.starts_with("col.active_border")
            || line.starts_with("col.inactive_border")
            || line.starts_with("border_size")
            || line.starts_with("gaps_in")
            || line.starts_with("gaps_out")
            || line.starts_with("rounding")
        {
            out.push_str(line);
        }
    }
    out
}

fn hyprland_round_trip(input_conf: &str) {
    let generator = HyprlandGenerator;
    let parsed1 = generator.parse_existing_config(input_conf).expect("parse_existing_config should succeed");
    let regenerated_conf = generator.generate_config(&parsed1).expect("generate_config should succeed");
    let parsed2 = generator
        .parse_existing_config(&regenerated_conf)
        .expect("parse_existing_config on regenerated config should succeed");
    assert_eq!(parsed1, parsed2, "Hyprland parsed JSON before and after regeneration should be identical");
    assert_eq!(
        normalize_raw_hyprland(input_conf),
        normalize_raw_hyprland(&regenerated_conf),
        "Regenerated config should match the key-value structure of the input config"
    );
}

#[test]
fn hyprland_round_trip_is_lossless_with_extra_fields() {
    let input_conf = r#"
# Example Hyprland config
general {
    col.active_border = rgb(8A8A8D)
    col.inactive_border = rgb(5C5C5E)
    border_size = 2
    gaps_in = 6
    gaps_out = 22
}

# Bad value
exec-once = uwsm app -- waybar

decoration {
    rounding = 4
}
"#;
    hyprland_round_trip(input_conf);
}

#[test]
fn hyprland_round_trip_is_lossless() {
    let input_conf = r#"
# Example Hyprland config
general {
    col.active_border = rgb(8A8A8D)
    col.inactive_border = rgb(5C5C5E)
    border_size = 2
    gaps_in = 6
    gaps_out = 22
}

decoration {
    rounding = 4
}
"#;
    hyprland_round_trip(input_conf);
}

#[test]
fn hyprland_parse_catches_missing_field_errors() {
    let input_conf_missing = r#"
general {
    col.active_border = rgb(8A8A8D)
    border_size = 2
    gaps_in = 6
    # gaps_out is missing
}
decoration {
    rounding = 0
}
"#;
    let generator = HyprlandGenerator;
    let parsed = generator.parse_existing_config(input_conf_missing).unwrap();
    let general = parsed.get("hyprland").unwrap().get("general").unwrap();
    assert!(general.get("gaps_out").is_none(), "Should not parse missing gaps_out field");
    assert!(general.get("gaps_in").is_some());
}

#[test]
fn hyprland_parse_handles_weird_spacing_and_casing() {
    let input_conf_weird = r#"
general {
    col.active_border    =   rgb(8a8a8d   )
    col.inactive_border=rgb(#5c5c5e)
    border_size=1
    gaps_out=12
    gaps_in =8
}
decoration
{
    rounding    =    5
}
"#;
    let generator = HyprlandGenerator;
    let parsed = generator.parse_existing_config(input_conf_weird).unwrap();
    let general = parsed.get("hyprland").unwrap().get("general").unwrap();
    assert_eq!(general.get("active_border"), Some(&s("8A8A8D")));
    assert_eq!(general.get("inactive_border"), Some(&s("5C5C5E")));
    assert_eq!(general.get("border_size"), Some(&ThemeValue::UInt(1)));
    assert_eq!(general.get("gaps_in"), Some(&ThemeValue::UInt(8)));
    assert_eq!(general.get("gaps_out"), Some(&ThemeValue::UInt(12)));
    let decoration = parsed.get("hyprland").unwrap().get("decoration").unwrap();
    assert_eq!(decoration.get("rounding"), Some(&ThemeValue::UInt(5)));
}

#[test]
fn hyprland_strips_hash_and_writes_defaults() {
    let tree = t(vec![("hyprland", t(vec![("general", t(vec![("active_border", s("#ABCDEF")), ("gaps_in", ThemeValue::UInt(7))]))]))]);
    let text = HyprlandGenerator.generate_config(&tree).unwrap();
    assert!(text.contains("    col.active_border = rgb(ABCDEF)\n"));
    assert!(text.contains("    col.inactive_border = rgb(5C5C5E)\n"));
    assert!(text.contains("    border_size = 1\n"));
    assert!(text.contains("    gaps_in = 7\n"));
    assert!(text.contains("    gaps_out = 20\n"));
    assert!(text.contains("decoration {\n    rounding = 0\n}\n"));
}

#[test]
fn hyprland_number_too_large_is_left_out() {
    let parsed = HyprlandGenerator
        .parse_existing_config("general {\n border_size = 99999999999999999999\n gaps_in = 18446744073709551615\n}\n")
        .unwrap();
    assert_eq!(
        parsed,
        t(vec![("hyprland", t(vec![("general", t(vec![("gaps_in", ThemeValue::UInt(18446744073709551615))]))]))])
    );
}

#[test]
fn hyprland_uppercase_is_idempotent() {
    let once = HyprlandGenerator.parse_existing_config("general {\n col.active_border = rgb(aBcDeF)\n}\n").unwrap();
    let text = HyprlandGenerator.generate_config(&once).unwrap();
    let twice = HyprlandGenerator.parse_existing_config(&text).unwrap();
    let a = once.get("hyprland").unwrap().get("general").unwrap().get("active_border").unwrap();
    assert_eq!(a, &s("ABCDEF"));
    let b = twice.get("hyprland").unwrap().get("general").unwrap().get("active_border").unwrap();
    assert_eq!(a, b);
}

#[test]
fn hyprland_empty_text_gives_empty_namespace() {
    assert_eq!(HyprlandGenerator.parse_existing_config("").unwrap(), t(vec![("hyprland", t(vec![]))]));
}

#[test]
fn hyprland_schema_numbers_have_defaults() {
    let schema = HyprlandGenerator.get_config_schema();
    let leaf = schema.get("properties").unwrap().get("general").unwrap().get("properties").unwrap().get("gaps_out").unwrap();
    assert_eq!(leaf.get("default"), Some(&ThemeValue::UInt(20)));
    assert_eq!(leaf.get("type"), Some(&s("number")));
}
