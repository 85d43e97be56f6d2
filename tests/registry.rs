use theme_codecs::registry::{ConfigGenerator, ConfigGeneratorRegistry};

#[test]
fn registry_lists_every_codec() {
    let r = ConfigGeneratorRegistry::new();
    assert_eq!(
        r.get_all_apps(),
        vec!["alacritty", "waybar", "btop", "hyprland", "hyprlock", "mako", "swayosd", "walker"]
    );
}

#[test]
fn registry_finds_by_name_and_reports_unknown() {
    let r = ConfigGeneratorRegistry::default();
    assert_eq!(r.get_generator("mako"), Some(ConfigGenerator::Mako));
    assert_eq!(r.get_generator("mako").unwrap().get_file_name(), "mako.ini");
    assert_eq!(r.get_generator("neovim"), None);
    assert!(r.get_schema_for_app("neovim").is_none());
    assert_eq!(r.get_schema_for_app("btop"), Some(ConfigGenerator::Btop.get_config_schema()));
}

#[test]
fn registry_register_keeps_one_per_name() {
    let mut r = ConfigGeneratorRegistry::new();
    r.register(ConfigGenerator::Btop);
    assert_eq!(r.get_all_apps().len(), 8);
}

#[test]
fn generator_dispatch_matches_codec() {
    let g = ConfigGenerator::Waybar;
    let parsed = g.parse_existing_config("@define-color background #010101;\n").unwrap();
    let text = g.generate_config(&parsed).unwrap();
    assert!(text.contains("@define-color background #010101;\n@define-color foreground #8a8a8d;\n"));
    assert_eq!(g.get_app_name(), "waybar");
    assert!(ConfigGenerator::Alacritty.parse_existing_config("= =").is_err());
}
