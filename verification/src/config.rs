//! What a declaration's attributes ask of the derive: the prefix and suffix
//! of the paths, and the case style of the labels.

use vstd::prelude::*;
use crate::case::{CaseStyle, style_named};
use crate::error::DeriveError;
use crate::item::{Attribute, AttributeView, attr_views};
use crate::settings::{find_setting, setting};

verus! {

/// The settings of the `path_str` attribute.
#[derive(Clone, Debug, PartialEq, Eq)]
pub struct PathConfig {
    /// What every path begins with, before the `/`.
    pub prefix: String,
    /// What every path ends with; empty where the attribute sets none.
    pub suffix: String,
}

/// The mathematical value of a [`PathConfig`].
pub struct PathConfigView {
    pub prefix: Seq<char>,
    pub suffix: Seq<char>,
}

impl View for PathConfig {
    type V = PathConfigView;

    open spec fn view(&self) -> PathConfigView {
        PathConfigView { prefix: self.prefix@, suffix: self.suffix@ }
    }
}

/// The prefix that the attributes set, if they set one.
pub open spec fn prefix_of(attrs: Seq<AttributeView>) -> Option<Seq<char>> {
    setting(attrs, "path_str"@, "prefix"@)
}

/// The suffix that the attributes set; empty if they set none.
pub open spec fn suffix_of(attrs: Seq<AttributeView>) -> Seq<char> {
    match setting(attrs, "path_str"@, "suffix"@) {
        Some(suffix) => suffix,
        None => Seq::empty(),
    }
}

/// The configuration that the attributes hold, which takes a prefix.
pub open spec fn config_of(attrs: Seq<AttributeView>) -> Option<PathConfigView> {
    match prefix_of(attrs) {
        Some(prefix) => Some(PathConfigView { prefix, suffix: suffix_of(attrs) }),
        None => None,
    }
}

/// The case style that the attributes ask for: the one that the `strum`
/// attribute names with `serialize_all`, if it names one known here.
pub open spec fn style_of(attrs: Seq<AttributeView>) -> Option<CaseStyle> {
    match setting(attrs, "strum"@, "serialize_all"@) {
        Some(directive) => style_named(directive),
        None => None,
    }
}

impl PathConfig {
    /// Reads the configuration from a declaration's attributes. Fails with
    /// `MissingPrefix` exactly where no `path_str` attribute sets `prefix`
    /// to a string.
    pub fn from_attrs(attrs: &Vec<Attribute>) -> (config: Result<PathConfig, DeriveError>)
        ensures
            match config {
                Ok(config) => config_of(attr_views(attrs@)) == Some(config@),
                Err(e) => e == DeriveError::MissingPrefix && config_of(attr_views(attrs@)) is None,
            },
    {
        match find_setting(attrs, "path_str", "prefix") {
            Some(prefix) => {
                let suffix = match find_setting(attrs, "path_str", "suffix") {
                    Some(suffix) => suffix.to_string(),
                    None => String::new(),
                };
                Ok(PathConfig { prefix: prefix.to_string(), suffix })
            },
            None => Err(DeriveError::MissingPrefix),
        }
    }
}

/// The case style that a declaration's attributes ask for.
pub fn requested_style(attrs: &Vec<Attribute>) -> (style: Option<CaseStyle>)
    ensures
        style == style_of(attr_views(attrs@)),
{
    match find_setting(attrs, "strum", "serialize_all") {
        Some(directive) => CaseStyle::from_directive(directive),
        None => None,
    }
}

} // verus!
