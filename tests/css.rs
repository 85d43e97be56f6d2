use theme_codecs::css::css_parser;
use theme_codecs::swayosd::SwayosdGenerator;
use theme_codecs::value::ThemeValue;
use theme_codecs::walker::WalkerGenerator;
use theme_codecs::waybar::WaybarGenerator;

fn s(x: &str) -> ThemeValue {
    ThemeValue::Str(x.to_string())
}

fn t(es: Vec<(&str, ThemeValue)>) -> ThemeValue {
    ThemeValue::Table(es.into_iter().map(|(k, v)| (k.to_string(), v)).collect())
}

#[test]
fn swayosd_json_initiated_round_trip() {
    let generator = SwayosdGenerator;
    let colors = t(vec![
        ("background_color", s("#102030")),
        ("border_color", s("#234567")),
        ("label", s("#345678")),
        ("image", s("#456789")),
        ("progress", s("#56789A")),
    ]);
    let json_input = t(vec![("swayosd", t(vec![("colors", colors)]))]);
    let css = generator.generate_config(&json_input).expect("generate_config from JSON");
    let parsed_json = generator.parse_existing_config(&css).expect("parse_existing_config on generated CSS");
    let orig_colors = json_input.get("swayosd").unwrap().get("colors");
    let parsed_colors = parsed_json.get("swayosd").unwrap().get("colors");
    assert_eq!(orig_colors, parsed_colors, "Parsed JSON should match original JSON for color fields");
}

fn swayosd_round_trip(input_css: &str) {
    let generator = SwayosdGenerator;
    let parsed1 = generator.parse_existing_config(input_css).expect("parse_existing_config should succeed");
    let regenerated_css = generator.generate_config(&parsed1).expect("generate_config should succeed");
    let parsed2 = generator
        .parse_existing_config(&regenerated_css)
        .expect("parse_existing_config on regenerated config should succeed");
    assert_eq!(parsed1, parsed2, "SwayOSD parsed JSON before and after regeneration should be identical");
}

#[test]
fn swayosd_round_trip_is_lossless() {
    let input_css = r#"
/* Example SwayOSD CSS */
@define-color background-color #121212;
@define-color border-color #8A8A8D;
@define-color label #8A8A8D;
@define-color image #8A8A8D;
@define-color progress #8A8A8D;
"#;
    swayosd_round_trip(input_css);
}

#[test]
fn swayosd_round_trip_handles_whitespace() {
    let input_css = r#"
/* Mixed spacing */
   @define-color   background-color    #121212  ;
@define-color border-color    #8A8A8D;
   @define-color label #8A8A8D ;
@define-color    image     #8A8A8D;
@define-color progress      #8A8A8D    ;
"#;
    swayosd_round_trip(input_css);
}

fn walker_json_round_trip(input_json: &ThemeValue) {
    let generator = WalkerGenerator;
    let generated_conf = generator.generate_config(input_json).expect("generate_config should succeed");
    let parsed_json = generator.parse_existing_config(&generated_conf).expect("parse_existing_config should succeed");
    assert_eq!(
        &parsed_json, input_json,
        "Walker JSON before and after config generation/parsing should be identical"
    );
}

#[test]
fn walker_json_round_trip_is_lossless() {
    let input_json = t(vec![(
        "walker",
        t(vec![(
            "colors",
            t(vec![
                ("selected_text", s("#B91C1C")),
                ("text", s("#EAEAEA")),
                ("base", s("#121212")),
                ("border", s("#EAEAEA88")),
                ("foreground", s("#abc123")),
                ("background", s("#222222")),
            ]),
        )]),
    )]);
    walker_json_round_trip(&input_json);
}

fn walker_round_trip(input_conf: &str) {
    let generator = WalkerGenerator;
    let parsed1 = generator.parse_existing_config(input_conf).expect("parse_existing_config should succeed");
    let regenerated_conf = generator.generate_config(&parsed1).expect("generate_config should succeed");
    let parsed2 = generator
        .parse_existing_config(&regenerated_conf)
        .expect("parse_existing_config on regenerated config should succeed");
    assert_eq!(parsed1, parsed2, "Walker parsed JSON before and after regeneration should be identical");
}

#[test]
fn walker_round_trip_is_lossless() {
    let input_conf = r#"
@define-color selected-text #B91C1C;
@define-color text #EAEAEA;
@define-color base #121212;
@define-color border #EAEAEA88;
@define-color foreground #abc123;
@define-color background #222222;
"#;
    walker_round_trip(input_conf);
}

#[test]
fn walker_round_trip_accepts_extra_whitespace() {
    let input_conf = r#"
    @define-color   selected-text   #b91c1c  ;
@define-color    text    #eaeaea;
@define-color base   #121212     ;
@define-color border #eaeaea88;
      @define-color foreground #eaeaea;
   @define-color background #121212;
"#;
    walker_round_trip(input_conf);
}

#[test]
fn walker_parses_partial_config() {
    let input_conf = r#"
@define-color text #dedede;
@define-color background #111111;
"#;
    let parsed = WalkerGenerator.parse_existing_config(input_conf).unwrap();
    assert_eq!(
        parsed,
        t(vec![("walker", t(vec![("colors", t(vec![("text", s("#dedede")), ("background", s("#111111"))]))]))])
    );
}

#[test]
fn parse_extracts_colors() {
    let css = r#"
        @define-color background #121212;
        @define-color foreground #ffffff;
        /* unrelated style */
        * { color: @foreground; }
        "#;
    let gen = WaybarGenerator;
    let parsed = gen.parse_existing_config(css).unwrap();
    assert_eq!(
        parsed,
        t(vec![(
            "waybar",
            t(vec![("colors", t(vec![("main", t(vec![("background", s("#121212")), ("foreground", s("#ffffff"))]))]))]),
        )])
    );
}

fn waybar_round_trip(input_css: &str) {
    let generator = WaybarGenerator;
    let parsed1 = generator.parse_existing_config(input_css).expect("parse_existing_config should succeed");
    let regenerated_css = generator.generate_config(&parsed1).expect("generate_config should succeed");
    let parsed2 = generator
        .parse_existing_config(&regenerated_css)
        .expect("parse_existing_config on regenerated config should succeed");
    assert_eq!(parsed1, parsed2, "Waybar parsed JSON before and after regeneration should be identical");
}

#[test]
fn waybar_round_trip_is_lossless() {
    let input_css = r#"
        /* Omarchist theme */
        @define-color background #8a8a8d;
        @define-color foreground #121212;
        "#;
    waybar_round_trip(input_css);
}

#[test]
fn waybar_json_round_trip_is_lossless() {
    let gen = WaybarGenerator;
    let original = t(vec![(
        "waybar",
        t(vec![("colors", t(vec![("main", t(vec![("background", s("#123456")), ("foreground", s("#abcdef"))]))]))]),
    )]);
    let generated_css = gen.generate_config(&original).expect("generate_config should succeed");
    let reparsed = gen.parse_existing_config(&generated_css).expect("parse_existing_config should succeed");
    assert_eq!(original, reparsed, "Waybar JSON -> CSS -> JSON should round-trip losslessly");
}

#[test]
fn css_unknown_property_is_left_out() {
    let css = "@define-color background #101010;\n@define-color accent-color #ff0000;\n@define-color foreground #fefefe;\n";
    let parsed = WaybarGenerator.parse_existing_config(css).unwrap();
    assert_eq!(
        parsed,
        t(vec![(
            "waybar",
            t(vec![("colors", t(vec![("main", t(vec![("background", s("#101010")), ("foreground", s("#fefefe"))]))]))]),
        )])
    );
}

#[test]
fn css_parser_renames_dashes_and_trims_values() {
    let css = "  @define-color   border-color   #8A8A8D   ;\n@define-color other #000000;\n@define-color label #111111;\n";
    let out = css_parser(css, &["border-color", "label", "missing"]).unwrap();
    assert_eq!(out, vec![("border_color".to_string(), s("#8A8A8D")), ("label".to_string(), s("#111111"))]);
}

#[test]
fn css_parser_keeps_the_last_declaration() {
    let css = "@define-color text #000000;\n@define-color text #ffffff;\n";
    let out = css_parser(css, &["text"]).unwrap();
    assert_eq!(out, vec![("text".to_string(), s("#ffffff"))]);
}

#[test]
fn css_codecs_render_declarations() {
    let text = WalkerGenerator.generate_config(&t(vec![])).unwrap();
    assert!(text.contains("\n@define-color selected-text #B91C1C;\n"));
    assert!(text.contains("\n@define-color border EAEAEA88;\n"));
    let text = SwayosdGenerator.generate_config(&t(vec![])).unwrap();
    assert!(text.contains("\n@define-color background-color #121212;\n"));
}

#[test]
fn walker_value_with_line_feed_round_trips() {
    let input = t(vec![(
        "walker",
        t(vec![(
            "colors",
            t(vec![
                ("selected_text", s("a\nb")),
                ("text", s("#EAEAEA")),
                ("base", s("#121212")),
                ("border", s("#EAEAEA88")),
                ("foreground", s("#EAEAEA")),
                ("background", s("#121212")),
            ]),
        )]),
    )]);
    let css = WalkerGenerator.generate_config(&input).unwrap();
    assert_eq!(WalkerGenerator.parse_existing_config(&css).unwrap(), input);
}

#[test]
fn css_parser_reads_declarations_across_lines() {
    let css = "@define-color\n  border-color\n  #8A8A8D\n  ;\n/* note */\n@define-color label #111111;\n";
    let out = css_parser(css, &["border-color", "label"]).unwrap();
    assert_eq!(out, vec![("border_color".to_string(), s("#8A8A8D")), ("label".to_string(), s("#111111"))]);
}
