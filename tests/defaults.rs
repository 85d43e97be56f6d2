use theme_codecs::alacritty::AlacrittyGenerator;
use theme_codecs::btop::BtopGenerator;
use theme_codecs::hyprland::HyprlandGenerator;
use theme_codecs::hyprlock::HyprlockGenerator;
use theme_codecs::mako::MakoGenerator;
use theme_codecs::swayosd::SwayosdGenerator;
use theme_codecs::value::ThemeValue;
use theme_codecs::walker::WalkerGenerator;
use theme_codecs::waybar::WaybarGenerator;

fn other_apps_only() -> ThemeValue {
    ThemeValue::Table(vec![("someapp".to_string(), ThemeValue::Table(vec![]))])
}

#[test]
fn alacritty_defaults_without_namespace() {
    let text = AlacrittyGenerator.generate_config(&other_apps_only()).unwrap();
    assert!(text.contains("[colors.cursor]\ntext = \"#121212\"\ncursor = \"#EAEAEA\"\n"));
    assert!(text.contains("[colors.selection]\ntext = \"CellForeground\"\nbackground = \"#333333\"\n"));
    assert!(text.contains("[colors.primary]\nbackground = \"#121212\"\n"));
    assert!(text.contains("[colors.normal]\nblack = \"#333333\"\nred = \"#D35F5F\"\n"));
    let text2 = AlacrittyGenerator.generate_config(&ThemeValue::Str("x".to_string())).unwrap();
    assert_eq!(text, text2);
}

#[test]
fn walker_defaults_without_namespace() {
    let text = WalkerGenerator.generate_config(&other_apps_only()).unwrap();
    assert!(text.ends_with(
        "@define-color selected-text #B91C1C;\n@define-color text #EAEAEA;\n@define-color base #121212;\n@define-color border EAEAEA88;\n@define-color foreground #EAEAEA;\n@define-color background #121212;\n"
    ));
    let schema = WalkerGenerator.get_config_schema();
    let border = schema.get("properties").unwrap().get("colors").unwrap().get("properties").unwrap().get("border").unwrap();
    assert_eq!(border.get("default"), Some(&ThemeValue::Str("EAEAEA88".to_string())));
}

#[test]
fn btop_defaults_without_namespace() {
    let text = BtopGenerator.generate_config(&other_apps_only()).unwrap();
    for line in [
        "theme[main_bg]=\"\"",
        "theme[main_fg]=\"#EAEAEA\"",
        "theme[selected_fg]=\"#EAEAEA\"",
        "theme[title]=\"#8a8a8d\"",
        "theme[inactive_fg]=\"#333333\"",
        "theme[hi_fg]=\"#f59e0b\"",
        "theme[selected_bg]=\"#f59e0b\"",
        "theme[proc_misc]=\"#8a8a8d\"",
        "theme[cpu_box]=\"#8a8a8d\"",
        "theme[div_line]=\"#8a8a8d\"",
        "theme[temp_start]=\"#8a8a8d\"",
        "theme[temp_mid]=\"#f59e0b\"",
        "theme[temp_end]=\"#b91c1c\"",
        "theme[used_mid]=\"#f59e0b\"",
        "theme[upload_end]=\"#b91c1c\"",
    ] {
        assert!(text.contains(&format!("\n{line}\n")), "missing {line}");
    }
}

#[test]
fn hyprland_defaults_without_namespace() {
    let text = HyprlandGenerator.generate_config(&other_apps_only()).unwrap();
    assert!(text.contains(
        "general {\n    col.active_border = rgb(8A8A8D)\n    col.inactive_border = rgb(5C5C5E)\n    border_size = 1\n    gaps_in = 5\n    gaps_out = 20\n}\n"
    ));
    assert!(text.contains("decoration {\n    rounding = 0\n}\n"));
}

#[test]
fn hyprlock_defaults_without_namespace() {
    let text = HyprlockGenerator.generate_config(&other_apps_only()).unwrap();
    assert!(text.ends_with(
        "$color = rgba(12,12,12,1.0)\n$inner_color = rgba(138,138,141,0.3)\n$outer_color = rgba(234,234,234,0.5)\n$font_color = rgba(234,234,234,1.0)\n$check_color = rgba(245,158,11,1.0)\n"
    ));
}

#[test]
fn mako_defaults_without_namespace() {
    let text = MakoGenerator.generate_config(&other_apps_only()).unwrap();
    assert!(text.contains("\ntext-color=#8A8A8D\nborder-color=#8A8A8D\nbackground-color=#1E1E1E\nwidth=420\n"));
    assert!(text.ends_with("[mode=do-not-disturb app-name=notify-send]\ninvisible=false\n"));
}

#[test]
fn swayosd_defaults_without_namespace() {
    let text = SwayosdGenerator.generate_config(&other_apps_only()).unwrap();
    assert!(text.ends_with(
        "@define-color background-color #121212;\n@define-color border-color #8A8A8D;\n@define-color label #8A8A8D;\n@define-color image #8A8A8D;\n@define-color progress #8A8A8D;\n"
    ));
}

#[test]
fn waybar_defaults_without_namespace() {
    let text = WaybarGenerator.generate_config(&other_apps_only()).unwrap();
    assert!(text.ends_with("@define-color background #1e1e1e;\n@define-color foreground #8a8a8d;\n"));
}
