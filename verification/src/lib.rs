//! Path strings for the variants of an enum.
//!
//! Given the declaration of an enum, the settings `prefix` and `suffix` of its
//! `path_str` attribute and the case style that its `strum` attribute asks
//! for, this crate works out the method `path` of that enum: one match arm
//! per variant, each returning `prefix + "/" + label + suffix`, where the
//! label is the variant's name in the requested case style.
//!
//! The crate works on plain descriptions of declarations and produces the
//! method as a value and as Rust source text; turning token streams into such
//! descriptions, and the text back into tokens, is left to the caller.

pub mod case;
pub mod config;
pub mod derive;
pub mod error;
pub mod item;
pub mod laws;
pub mod method;
pub mod render;
pub mod settings;
mod text;

pub use case::{label, CaseStyle};
pub use config::{requested_style, PathConfig};
pub use derive::{derive_path_str, generate, match_arms, path_str};
pub use error::DeriveError;
pub use item::{AttrArg, Attribute, ItemData, ItemDecl};
pub use method::{variant_path, MatchArm, PathMethod};
pub use render::push_literal;
pub use settings::find_setting;
