use theme_codecs::btop::BtopGenerator;
use theme_codecs::hyprlock::HyprlockGenerator;
use theme_codecs::mako::MakoGenerator;
use theme_codecs::walker::WalkerGenerator;

#[test]
fn btop_two_cycles_equal_one_with_foreign_lines() {
    let text = "# comment\ntheme[main_fg]=\"#ABCDEF\"\nnot a theme line\ntheme[bogus]=\"#000000\"\n  theme[cpu_end] = \"#101010\"  \n";
    let t = BtopGenerator.parse_existing_config(text).unwrap();
    let once = BtopGenerator.parse_existing_config(&BtopGenerator.generate_config(&t).unwrap()).unwrap();
    let twice = BtopGenerator.parse_existing_config(&BtopGenerator.generate_config(&once).unwrap()).unwrap();
    assert_eq!(once, twice);
    let basic = once.get("btop").unwrap().get("colors").unwrap().get("basic").unwrap();
    assert_eq!(basic.get("main_fg").unwrap().as_str(), Some("#ABCDEF"));
    assert_eq!(basic.get("main_bg").unwrap().as_str(), Some(""));
}

#[test]
fn hyprlock_two_cycles_equal_one_with_foreign_lines() {
    let text = "$color = rgba( 1, 2, 3, 0.5 )\n$unknown = rgba(9,9,9,1)\nsource = other.conf\n";
    let t = HyprlockGenerator.parse_existing_config(text).unwrap();
    let once = HyprlockGenerator.parse_existing_config(&HyprlockGenerator.generate_config(&t).unwrap()).unwrap();
    let twice = HyprlockGenerator.parse_existing_config(&HyprlockGenerator.generate_config(&once).unwrap()).unwrap();
    assert_eq!(once, twice);
    let colors = once.get("hyprlock").unwrap().get("colors").unwrap();
    assert_eq!(colors.get("color").unwrap().as_str(), Some("1, 2, 3, 0.5"));
    assert_eq!(colors.get("check_color").unwrap().as_str(), Some("245,158,11,1.0"));
}

#[test]
fn mako_two_cycles_equal_one_with_foreign_lines() {
    let text = "[urgency=high]\nborder-color=#FF0000\nwidth=300\n";
    let t = MakoGenerator.parse_existing_config(text).unwrap();
    let once = MakoGenerator.parse_existing_config(&MakoGenerator.generate_config(&t).unwrap()).unwrap();
    let twice = MakoGenerator.parse_existing_config(&MakoGenerator.generate_config(&once).unwrap()).unwrap();
    assert_eq!(once, twice);
}

#[test]
fn walker_two_cycles_equal_one_with_foreign_lines() {
    let text = "@import \"style.css\";\n@define-color text   #dedede  ;\n#window { color: @text; }\n";
    let t = WalkerGenerator.parse_existing_config(text).unwrap();
    let once = WalkerGenerator.parse_existing_config(&WalkerGenerator.generate_config(&t).unwrap()).unwrap();
    let twice = WalkerGenerator.parse_existing_config(&WalkerGenerator.generate_config(&once).unwrap()).unwrap();
    assert_eq!(once, twice);
    assert_eq!(once.get("walker").unwrap().get("colors").unwrap().get("text").unwrap().as_str(), Some("#dedede"));
}
