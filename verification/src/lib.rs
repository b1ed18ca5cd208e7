//! Settings of the Hyprland window manager, as its configuration text and as a
//! record of typed fields.
//!
//! [`loader::parse_settings`] reads configuration text into a
//! [`settings::HyprlandSettings`]; [`serializer::render_settings`] writes a
//! record back as text. Both are verified against the models in this crate,
//! and [`laws`] holds what is proved of the two together. Reading and
//! writing the file itself is the caller's part: [`storage`] says what each
//! step of it leads to.
pub mod text;
pub mod values;
pub mod sections;
pub mod fields;
pub mod settings;
pub mod error;
pub mod loader;
pub mod layout;
pub mod serializer;
pub mod storage;
pub mod laws;

pub use settings::HyprlandSettings;
