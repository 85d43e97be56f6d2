use theme_codecs::alacritty::AlacrittyGenerator;
use theme_codecs::value::ThemeValue;

fn s(x: &str) -> ThemeValue {
    ThemeValue::Str(x.to_string())
}

fn t(es: Vec<(&str, ThemeValue)>) -> ThemeValue {
    ThemeValue::Table(es.into_iter().map(|(k, v)| (k.to_string(), v)).collect())
}

fn toml_round_trip(input_toml: &str) {
    let generator = AlacrittyGenerator;
    let parsed1 = generator.parse_existing_config(input_toml).expect("parse_existing_config should succeed");
    let regenerated_toml = generator.generate_config(&parsed1).expect("generate_config should succeed");
    let parsed2 = generator
        .parse_existing_config(&regenerated_toml)
        .expect("parse_existing_config on regenerated toml should succeed");
    assert_eq!(parsed1, parsed2, "Parsed JSON before and after regeneration should be identical");
    let sanitized_input: toml::Value = toml::from_str(input_toml).unwrap();
    let sanitized_regenerated: toml::Value = toml::from_str(&regenerated_toml).unwrap();
    assert_eq!(sanitized_input, sanitized_regenerated);
}

#[test]
fn toml_test_conversion_1() {
    let input_toml = r##"
[colors]
[colors.primary]
background = "#121212"
foreground = "#bebebe"
dim_foreground = "#8a8a8d"

[colors.cursor]
text = "#abcdef"
cursor = "#123456"

[colors.selection]
text = "CellForeground"
background = "#333333"

[colors.normal]
black = "#111111"
red = "#ff0055"
green = "#28fc3b"
yellow = "#c0c000"
blue = "#0055fc"
magenta = "#e24fff"
cyan = "#6beceb"
white = "#fafafa"

[colors.bright]
black = "#ababab"
red = "#ff0000"
green = "#00ff00"
yellow = "#ffff00"
blue = "#0000ff"
magenta = "#ff00ff"
cyan = "#00ffff"
white = "#ffffff"
"##;
    toml_round_trip(input_toml);
}

#[test]
fn toml_test_conversion_2() {
    let input_toml = r##"
[colors]
[colors.primary]
background = "#222222"
foreground = "#cccccc"
dim_foreground = "#797979"

[colors.cursor]
text = "#333333"
cursor = "#dddddd"

[colors.selection]
text = "CellForeground"
background = "#444444"

[colors.normal]
black = "#111122"
red = "#ee3344"
green = "#22cc33"
yellow = "#ffd700"
blue = "#3355ee"
magenta = "#ee33ee"
cyan = "#33eeee"
white = "#eeeeee"

[colors.bright]
black = "#999999"
red = "#ff2222"
green = "#22ff22"
yellow = "#fffe22"
blue = "#2222ff"
magenta = "#ff22ff"
cyan = "#22ffff"
white = "#eeeeee"
"##;
    toml_round_trip(input_toml);
}

#[test]
fn toml_test_conversion_3() {
    let input_toml = r##"
[colors]
[colors.primary]
background = "#232323"
foreground = "#dfdfdf"
dim_foreground = "#8f8e90"

[colors.cursor]
text = "#232323"
cursor = "#fefefe"

[colors.selection]
text = "CellForeground"
background = "#232323"

[colors.normal]
black = "#222222"
red = "#ff6565"
green = "#55fa65"
yellow = "#cabf30"
blue = "#5068df"
magenta = "#bb32ff"
cyan = "#27eae4"
white = "#c0c0c0"

[colors.bright]
black = "#555555"
red = "#fd4e4e"
green = "#91ff91"
yellow = "#ffee58"
blue = "#597cff"
magenta = "#f661ef"
cyan = "#56fff7"
white = "#ffffff"
"##;
    toml_round_trip(input_toml);
}

#[test]
fn json_test_conversion_1() {
    let config_json = t(vec![(
        "alacritty",
        t(vec![(
            "colors",
            t(vec![
                ("primary", t(vec![("background", s("#121212")), ("foreground", s("#bebebe")), ("dim_foreground", s("#8a8a8d"))])),
                ("cursor", t(vec![("text", s("#121212")), ("cursor", s("#eaeaea"))])),
                ("selection", t(vec![("text", s("CellForeground")), ("background", s("#333333"))])),
                (
                    "normal",
                    t(vec![
                        ("black", s("#333333")),
                        ("red", s("#D35F5F")),
                        ("green", s("#FFC107")),
                        ("yellow", s("#b91c1c")),
                        ("blue", s("#e68e0d")),
                        ("magenta", s("#D35F5F")),
                        ("cyan", s("#bebebe")),
                        ("white", s("#bebebe")),
                    ]),
                ),
                (
                    "bright",
                    t(vec![
                        ("black", s("#8a8a8d")),
                        ("red", s("#B91C1C")),
                        ("green", s("#FFC107")),
                        ("yellow", s("#b90a0a")),
                        ("blue", s("#f59e0b")),
                        ("magenta", s("#B91C1C")),
                        ("cyan", s("#eaeaea")),
                        ("white", s("#ffffff")),
                    ]),
                ),
            ]),
        )]),
    )]);
    let generator = AlacrittyGenerator;
    let generated_toml = generator.generate_config(&config_json).expect("generate_config should succeed");
    let reparsed_json = generator
        .parse_existing_config(&generated_toml)
        .expect("parse_existing_config on generated TOML should succeed");
    assert_eq!(
        config_json, reparsed_json,
        "Alacritty parsed JSON round-trips through generate_config and parse_existing_config"
    );
}

#[test]
fn alacritty_normal_red_is_kept_and_rendered_under_its_table() {
    let input = "[colors.normal]\nred = \"#ff0055\"\nblack = \"#111111\"\n";
    let parsed = AlacrittyGenerator.parse_existing_config(input).unwrap();
    let red = parsed.get("alacritty").unwrap().get("colors").unwrap().get("normal").unwrap().get("red").unwrap();
    assert_eq!(red, &s("#ff0055"));
    let text = AlacrittyGenerator.generate_config(&parsed).unwrap();
    let normal_at = text.find("[colors.normal]").unwrap();
    let bright_at = text.find("[colors.bright]").unwrap();
    let red_at = text.find("red = \"#ff0055\"").unwrap();
    assert!(normal_at < red_at && red_at < bright_at);
    assert_eq!(text.matches("red = \"#ff0055\"").count(), 1);
}

#[test]
fn alacritty_rejects_text_that_is_not_toml() {
    let r = AlacrittyGenerator.parse_existing_config("[colors\nred = ");
    let msg = r.unwrap_err();
    assert!(msg.starts_with("Failed to parse alacritty.toml: "));
    assert!(msg.len() > "Failed to parse alacritty.toml: ".len());
}

#[test]
fn alacritty_ignores_values_that_are_not_strings() {
    let parsed = AlacrittyGenerator.parse_existing_config("[colors.primary]\nbackground = 5\nforeground = \"#ffffff\"\n").unwrap();
    assert_eq!(
        parsed,
        t(vec![("alacritty", t(vec![("colors", t(vec![("primary", t(vec![("foreground", s("#ffffff"))]))]))]))])
    );
}

#[test]
fn alacritty_empty_text_gives_empty_namespace() {
    let parsed = AlacrittyGenerator.parse_existing_config("").unwrap();
    assert_eq!(parsed, t(vec![("alacritty", t(vec![]))]));
}

#[test]
fn alacritty_renders_defaults_without_namespace() {
    let text = AlacrittyGenerator.generate_config(&t(vec![])).unwrap();
    assert!(text.contains("[colors.primary]\nbackground = \"#121212\"\nforeground = \"#bebebe\"\n"));
    assert!(text.contains("[colors.selection]\ntext = \"CellForeground\"\nbackground = \"#333333\"\n"));
    assert!(text.contains("white = \"#eaeaea\"\n"));
}
