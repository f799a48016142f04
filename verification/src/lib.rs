//! Context menu model for Windows and Linux (Gtk3): configuration, colors,
//! menu items, layout, selection and accelerator rules.
pub mod config;
pub mod text;
pub mod menu_item;
pub mod layout;
pub mod menu;
pub mod accelerator;
pub mod theme;
pub mod geometry;
pub mod gtk_rules;
pub mod builder;
pub mod style;
pub mod messages;
pub mod laws;
