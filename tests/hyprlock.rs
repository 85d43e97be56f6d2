use theme_codecs::hyprlock::HyprlockGenerator;
use theme_codecs::value::ThemeValue;

fn s(x: &str) -> ThemeValue {
    ThemeValue::Str(x.to_string())
}

fn t(es: Vec<(&str, ThemeValue)>) -> ThemeValue {
    ThemeValue::Table(es.into_iter().map(|(k, v)| (k.to_string(), v)).collect())
}

fn hyprlock_round_trip(input_conf: &str) {
    let generator = HyprlockGenerator;
    let parsed1 = generator.parse_existing_config(input_conf).expect("parse_existing_config should succeed");
    let regenerated_conf = generator.generate_config(&parsed1).expect("generate_config should succeed");
    let parsed2 = generator
        .parse_existing_config(&regenerated_conf)
        .expect("parse_existing_config on regenerated config should succeed");
    assert_eq!(parsed1, parsed2, "Hyprlock parsed JSON before and after regeneration should be identical");
}

#[test]
fn hyprlock_round_trip_from_json_schema() {
    let generator = HyprlockGenerator;
    let config_json = t(vec![(
        "hyprlock",
        t(vec![(
            "colors",
            t(vec![
                ("color", s("12,12,12,1.0")),
                ("inner_color", s("138,138,141,0.3")),
                ("outer_color", s("234,234,234,0.5")),
                ("font_color", s("234,234,234,1.0")),
                ("check_color", s("245,158,11,1.0")),
            ]),
        )]),
    )]);
    let config = generator.generate_config(&config_json).expect("Should generate hyprlock config from schema-based JSON");
    let reparsed_json = generator.parse_existing_config(&config).expect("Parsing generated config should succeed");
    assert_eq!(config_json, reparsed_json, "JSON config round-trips through generate_config and parse_existing_config");
}

#[test]
fn hyprlock_round_trip_is_lossless() {
    let input_conf = r#"
# Example Hyprlock config
$color = rgba(12,12,12,1.0)
$inner_color = rgba(138,138,141,0.3)
$outer_color = rgba(234,234,234,0.5)
$font_color = rgba(234,234,234,1.0)
$check_color = rgba(245,158,11,1.0)
"#;
    hyprlock_round_trip(input_conf);
}

#[test]
fn hyprlock_round_trip_is_lossless_with_whitespace() {
    let input_conf = r#"
# Mixed whitespace and formatting
   $color     =   rgba( 12 ,  12,12 , 1.0  )
$inner_color=rgba(138,138,141,0.3)
   $outer_color = rgba(234, 234, 234, 0.5)
$font_color= rgba(234,234,234,1.0)
$check_color = rgba(245,158,11,1.0)
"#;
    hyprlock_round_trip(input_conf);
}

#[test]
fn hyprlock_keeps_tuple_text_and_ignores_unknown_variables() {
    let input = "   $color     =   RGBA( 12 ,  12,12 , 1.0  )\n$accent = rgba(1,2,3,1.0)\n";
    let parsed = HyprlockGenerator.parse_existing_config(input).unwrap();
    assert_eq!(parsed, t(vec![("hyprlock", t(vec![("colors", t(vec![("color", s("12 ,  12,12 , 1.0"))]))]))]));
}

#[test]
fn hyprlock_renders_defaults() {
    let text = HyprlockGenerator.generate_config(&t(vec![])).unwrap();
    assert!(text.contains("\n$color = rgba(12,12,12,1.0)\n"));
    assert!(text.contains("\n$check_color = rgba(245,158,11,1.0)\n"));
}

#[test]
fn hyprlock_lists_unknown_variables_in_order() {
    let input = "$accent = rgba(1,2,3,1.0)\n$color = rgba(12,12,12,1.0)\n$shadow = RGBA(0,0,0,0.5)\n# $skipped = rgba(1,1,1,1)\n";
    assert_eq!(HyprlockGenerator.unknown_variables(input), vec!["accent".to_string(), "shadow".to_string()]);
    assert!(HyprlockGenerator.unknown_variables("$color = rgba(1,1,1,1)\n").is_empty());
}
