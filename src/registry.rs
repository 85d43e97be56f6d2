//! The codecs by application name.

use vstd::prelude::*;
use crate::alacritty::{alacritty_layout, AlacrittyGenerator};
use crate::btop::{btop_layout, BtopGenerator};
use crate::hyprland::{
    hyprland_lines, hyprland_schema_of, hyprland_tree, hyprland_values, HyprlandGenerator,
};
use crate::hyprlock::{hyprlock_layout, HyprlockGenerator};
use crate::layout::{join, parsed, rendered};
use crate::mako::{mako_layout, MakoGenerator};
use crate::schema::schema_of;
use crate::swayosd::{swayosd_layout, SwayosdGenerator};
use crate::alacritty::toml_values;
use crate::layout::tree_of;
use crate::toml_doc::{toml_accepts, toml_doc_of, toml_error_text, toml_parse_of};
use crate::value::{same_text, Node, ThemeValue};
use crate::walker::{walker_layout, WalkerGenerator};
use crate::waybar::{waybar_layout, WaybarGenerator};

verus! {

/// One of the supported applications' codecs.
#[derive(Clone, Copy, PartialEq, Eq, Structural, Debug)]
pub enum ConfigGenerator {
    Alacritty,
    Btop,
    Hyprland,
    Hyprlock,
    Mako,
    Swayosd,
    Walker,
    Waybar,
}

pub open spec fn app_name_of(g: ConfigGenerator) -> Seq<char> {
    match g {
        ConfigGenerator::Alacritty => "alacritty"@,
        ConfigGenerator::Btop => "btop"@,
        ConfigGenerator::Hyprland => "hyprland"@,
        ConfigGenerator::Hyprlock => "hyprlock"@,
        ConfigGenerator::Mako => "mako"@,
        ConfigGenerator::Swayosd => "swayosd"@,
        ConfigGenerator::Walker => "walker"@,
        ConfigGenerator::Waybar => "waybar"@,
    }
}

pub open spec fn file_name_of(g: ConfigGenerator) -> Seq<char> {
    match g {
        ConfigGenerator::Alacritty => "alacritty.toml"@,
        ConfigGenerator::Btop => "btop.theme"@,
        ConfigGenerator::Hyprland => "hyprland.conf"@,
        ConfigGenerator::Hyprlock => "hyprlock.conf"@,
        ConfigGenerator::Mako => "mako.ini"@,
        ConfigGenerator::Swayosd => "swayosd.css"@,
        ConfigGenerator::Walker => "walker.css"@,
        ConfigGenerator::Waybar => "waybar.css"@,
    }
}

/// The text that codec `g` renders for `tree`.
pub open spec fn rendered_by(g: ConfigGenerator, tree: Node) -> Seq<char> {
    match g {
        ConfigGenerator::Alacritty => rendered(alacritty_layout(), tree),
        ConfigGenerator::Btop => rendered(btop_layout(), tree),
        ConfigGenerator::Hyprland => join(hyprland_lines(tree)),
        ConfigGenerator::Hyprlock => rendered(hyprlock_layout(), tree),
        ConfigGenerator::Mako => rendered(mako_layout(), tree),
        ConfigGenerator::Swayosd => rendered(swayosd_layout(), tree),
        ConfigGenerator::Walker => rendered(walker_layout(), tree),
        ConfigGenerator::Waybar => rendered(waybar_layout(), tree),
    }
}

/// The tree that codec `g` parses from `t`; the structured-table codec is
/// not line based and is left out here.
pub open spec fn parsed_by(g: ConfigGenerator, t: Seq<char>) -> Node {
    match g {
        ConfigGenerator::Btop => parsed(btop_layout(), t),
        ConfigGenerator::Hyprland => hyprland_tree(hyprland_values(t)),
        ConfigGenerator::Hyprlock => parsed(hyprlock_layout(), t),
        ConfigGenerator::Mako => parsed(mako_layout(), t),
        ConfigGenerator::Swayosd => parsed(swayosd_layout(), t),
        ConfigGenerator::Walker => parsed(walker_layout(), t),
        ConfigGenerator::Waybar => parsed(waybar_layout(), t),
        ConfigGenerator::Alacritty => Node::Other,
    }
}

pub open spec fn schema_by(g: ConfigGenerator) -> Node {
    match g {
        ConfigGenerator::Alacritty => schema_of(alacritty_layout()),
        ConfigGenerator::Btop => schema_of(btop_layout()),
        ConfigGenerator::Hyprland => hyprland_schema_of(),
        ConfigGenerator::Hyprlock => schema_of(hyprlock_layout()),
        ConfigGenerator::Mako => schema_of(mako_layout()),
        ConfigGenerator::Swayosd => schema_of(swayosd_layout()),
        ConfigGenerator::Walker => schema_of(walker_layout()),
        ConfigGenerator::Waybar => schema_of(waybar_layout()),
    }
}

impl ConfigGenerator {
    /// The application's name, the key of its part of the tree.
    pub fn get_app_name(&self) -> (r: &'static str)
        ensures
            r@ == app_name_of(*self),
    {
        match self {
            ConfigGenerator::Alacritty => AlacrittyGenerator.get_app_name(),
            ConfigGenerator::Btop => BtopGenerator.get_app_name(),
            ConfigGenerator::Hyprland => HyprlandGenerator.get_app_name(),
            ConfigGenerator::Hyprlock => HyprlockGenerator.get_app_name(),
            ConfigGenerator::Mako => MakoGenerator.get_app_name(),
            ConfigGenerator::Swayosd => SwayosdGenerator.get_app_name(),
            ConfigGenerator::Walker => WalkerGenerator.get_app_name(),
            ConfigGenerator::Waybar => WaybarGenerator.get_app_name(),
        }
    }

    /// The file the rendered text is meant for.
    pub fn get_file_name(&self) -> (r: &'static str)
        ensures
            r@ == file_name_of(*self),
    {
        match self {
            ConfigGenerator::Alacritty => AlacrittyGenerator.get_file_name(),
            ConfigGenerator::Btop => BtopGenerator.get_file_name(),
            ConfigGenerator::Hyprland => HyprlandGenerator.get_file_name(),
            ConfigGenerator::Hyprlock => HyprlockGenerator.get_file_name(),
            ConfigGenerator::Mako => MakoGenerator.get_file_name(),
            ConfigGenerator::Swayosd => SwayosdGenerator.get_file_name(),
            ConfigGenerator::Walker => WalkerGenerator.get_file_name(),
            ConfigGenerator::Waybar => WaybarGenerator.get_file_name(),
        }
    }

    /// The file text for `theme_data`.
    pub fn generate_config(&self, theme_data: &ThemeValue) -> (r: Result<String, String>)
        ensures
            r matches Ok(t) && t@ == rendered_by(*self, theme_data@),
    {
        match self {
            ConfigGenerator::Alacritty => AlacrittyGenerator.generate_config(theme_data),
            ConfigGenerator::Btop => BtopGenerator.generate_config(theme_data),
            ConfigGenerator::Hyprland => HyprlandGenerator.generate_config(theme_data),
            ConfigGenerator::Hyprlock => HyprlockGenerator.generate_config(theme_data),
            ConfigGenerator::Mako => MakoGenerator.generate_config(theme_data),
            ConfigGenerator::Swayosd => SwayosdGenerator.generate_config(theme_data),
            ConfigGenerator::Walker => WalkerGenerator.generate_config(theme_data),
            ConfigGenerator::Waybar => WaybarGenerator.generate_config(theme_data),
        }
    }

    /// The schema of the codec's fields.
    pub fn get_config_schema(&self) -> (r: ThemeValue)
        ensures
            r@ == schema_by(*self),
    {
        match self {
            ConfigGenerator::Alacritty => AlacrittyGenerator.get_config_schema(),
            ConfigGenerator::Btop => BtopGenerator.get_config_schema(),
            ConfigGenerator::Hyprland => HyprlandGenerator.get_config_schema(),
            ConfigGenerator::Hyprlock => HyprlockGenerator.get_config_schema(),
            ConfigGenerator::Mako => MakoGenerator.get_config_schema(),
            ConfigGenerator::Swayosd => SwayosdGenerator.get_config_schema(),
            ConfigGenerator::Walker => WalkerGenerator.get_config_schema(),
            ConfigGenerator::Waybar => WaybarGenerator.get_config_schema(),
        }
    }

    /// The tree of the fields that `content` states. Only the structured-table
    /// codec can fail: where its TOML parser rejects the text.
    pub fn parse_existing_config(&self, content: &str) -> (r: Result<ThemeValue, String>)
        ensures
            *self == ConfigGenerator::Alacritty ==> r.is_ok() == toml_accepts(content@),
            *self == ConfigGenerator::Alacritty ==> (r matches Ok(v) ==> v@ == tree_of(
                alacritty_layout(),
                toml_values(alacritty_layout(), toml_doc_of(content@)),
            )),
            *self == ConfigGenerator::Alacritty ==> (r matches Err(m) ==> m@
                == "Failed to parse alacritty.toml: "@ + toml_error_text(
                toml_parse_of(content@)->Err_0,
            )),
            *self != ConfigGenerator::Alacritty ==> (r matches Ok(v) && v@ == parsed_by(
                *self,
                content@,
            )),
    {
        match self {
            ConfigGenerator::Alacritty => AlacrittyGenerator.parse_existing_config(content),
            ConfigGenerator::Btop => BtopGenerator.parse_existing_config(content),
            ConfigGenerator::Hyprland => HyprlandGenerator.parse_existing_config(content),
            ConfigGenerator::Hyprlock => HyprlockGenerator.parse_existing_config(content),
            ConfigGenerator::Mako => MakoGenerator.parse_existing_config(content),
            ConfigGenerator::Swayosd => SwayosdGenerator.parse_existing_config(content),
            ConfigGenerator::Walker => WalkerGenerator.parse_existing_config(content),
            ConfigGenerator::Waybar => WaybarGenerator.parse_existing_config(content),
        }
    }
}

/// The codecs that a new registry holds, in order.
pub open spec fn all_generators() -> Seq<ConfigGenerator> {
    seq![
        ConfigGenerator::Alacritty,
        ConfigGenerator::Waybar,
        ConfigGenerator::Btop,
        ConfigGenerator::Hyprland,
        ConfigGenerator::Hyprlock,
        ConfigGenerator::Mako,
        ConfigGenerator::Swayosd,
        ConfigGenerator::Walker,
    ]
}

/// A lookup table from application name to codec.
pub struct ConfigGeneratorRegistry {
    generators: Vec<ConfigGenerator>,
}

impl View for ConfigGeneratorRegistry {
    type V = Seq<ConfigGenerator>;

    closed spec fn view(&self) -> Seq<ConfigGenerator> {
        self.generators@
    }
}

impl Default for ConfigGeneratorRegistry {
    fn default() -> (r: Self)
        ensures
            r@ == all_generators(),
    {
        Self::new()
    }
}

impl ConfigGeneratorRegistry {
    /// A registry holding every supported codec.
    pub fn new() -> (r: Self)
        ensures
            r@ == all_generators(),
    {
        let mut registry = ConfigGeneratorRegistry { generators: Vec::new() };
        registry.register(ConfigGenerator::Alacritty);
        registry.register(ConfigGenerator::Waybar);
        registry.register(ConfigGenerator::Btop);
        registry.register(ConfigGenerator::Hyprland);
        registry.register(ConfigGenerator::Hyprlock);
        registry.register(ConfigGenerator::Mako);
        registry.register(ConfigGenerator::Swayosd);
        registry.register(ConfigGenerator::Walker);
        assert(registry@ =~= all_generators());
        registry
    }

    /// Adds `generator` under its application name; one already there under
    /// that name stays, as the two are the same codec.
    pub fn register(&mut self, generator: ConfigGenerator)
        ensures
            final(self)@ == if old(self)@.contains(generator) {
                old(self)@
            } else {
                old(self)@.push(generator)
            },
    {
        let mut i: usize = 0;
        while i < self.generators.len()
            invariant
                i <= self.generators@.len(),
                self.generators@ == old(self).generators@,
                forall|j: int| 0 <= j < i ==> self.generators@[j] != generator,
            decreases self.generators@.len() - i,
        {
            if self.generators[i] == generator {
                return;
            }
            i = i + 1;
        }
        self.generators.push(generator);
    }

    /// The codec registered under `app_name`, if there is one.
    pub fn get_generator(&self, app_name: &str) -> (r: Option<ConfigGenerator>)
        ensures
            match r {
                Some(g) => self@.contains(g) && app_name_of(g) == app_name@,
                None => forall|g: ConfigGenerator|
                    #[trigger] self@.contains(g) ==> app_name_of(g) != app_name@,
            },
    {
        let mut i: usize = 0;
        while i < self.generators.len()
            invariant
                i <= self.generators@.len(),
                forall|j: int|
                    0 <= j < i ==> app_name_of(#[trigger] self.generators@[j]) != app_name@,
            decreases self.generators@.len() - i,
        {
            let g = self.generators[i];
            if same_text(g.get_app_name(), app_name) {
                return Some(g);
            }
            i = i + 1;
        }
        None
    }

    /// The names of the registered applications, in order of registration.
    pub fn get_all_apps(&self) -> (r: Vec<&'static str>)
        ensures
            r@.len() == self@.len(),
            forall|i: int| 0 <= i < r@.len() ==> (#[trigger] r@[i])@ == app_name_of(self@[i]),
    {
        let mut out: Vec<&'static str> = Vec::new();
        let mut i: usize = 0;
        while i < self.generators.len()
            invariant
                i <= self.generators@.len(),
                out@.len() == i,
                forall|j: int|
                    0 <= j < i ==> (#[trigger] out@[j])@ == app_name_of(self.generators@[j]),
            decreases self.generators@.len() - i,
        {
            out.push(self.generators[i].get_app_name());
            i = i + 1;
        }
        out
    }

    /// The schema of the codec registered under `app_name`, if there is one.
    pub fn get_schema_for_app(&self, app_name: &str) -> (r: Option<ThemeValue>)
        ensures
            match r {
                Some(v) => exists|g: ConfigGenerator|
                    #[trigger] self@.contains(g) && app_name_of(g) == app_name@ && v@ == schema_by(g),
                None => forall|g: ConfigGenerator|
                    #[trigger] self@.contains(g) ==> app_name_of(g) != app_name@,
            },
    {
        match self.get_generator(app_name) {
            Some(g) => Some(g.get_config_schema()),
            None => None,
        }
    }
}

} // verus!
