//! Two-way codecs between a theme-data tree and the configuration files of
//! several desktop applications.
//!
//! A theme-data tree ([`value::ThemeValue`]) holds, under one key per
//! application, the colors and sizes that the application's file sets. Each
//! codec renders its part of a tree as the application's file text, filling
//! in a default for every field the tree lacks, and parses such a text back
//! into a tree holding exactly the fields the text states.
//!
//! - [`layout`] describes a line-based codec as a table of fields and renders
//!   and parses any such table; [`grammar`] holds the one-line syntaxes it
//!   reads; [`laws`] proves that parsing rendered text gives back what was
//!   written and that a second cycle changes nothing.
//! - [`btop`], [`hyprlock`], [`mako`], [`swayosd`], [`walker`] and [`waybar`]
//!   are the line-based codecs; [`css`] is the `@define-color` extractor that
//!   the style-sheet formats share.
//! - [`hyprland`] reads and writes brace-delimited blocks; [`alacritty`]
//!   writes TOML tables and reads them with a TOML parser ([`toml_doc`]).
//! - [`schema`] builds the editor schema of a codec; [`registry`] finds a
//!   codec by application name.

pub mod alacritty;
pub mod btop;
pub mod css;
pub mod grammar;
pub mod hyprland;
pub mod hyprlock;
pub mod laws;
pub mod layout;
pub mod mako;
pub mod registry;
pub mod schema;
pub mod swayosd;
pub mod text;
pub mod toml_doc;
pub mod value;
pub mod walker;
pub mod waybar;
