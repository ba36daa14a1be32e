//! The derived method as a value: one match arm per variant, each with the
//! path that it returns.

use vstd::prelude::*;
use crate::text::push_char;

verus! {

/// One arm of the derived method's match.
#[derive(Clone, Debug, PartialEq, Eq)]
pub struct MatchArm {
    /// The name of the variant that the arm matches.
    pub variant: String,
    /// The path that the arm returns.
    pub path: String,
}

/// The derived method `path` of an enum.
#[derive(Clone, Debug, PartialEq, Eq)]
pub struct PathMethod {
    /// The name of the enum that the method belongs to.
    pub enum_name: String,
    /// The arms of its match, in the order in which the variants are declared.
    pub arms: Vec<MatchArm>,
}

/// The mathematical value of a [`MatchArm`].
pub struct MatchArmView {
    pub variant: Seq<char>,
    pub path: Seq<char>,
}

/// The mathematical value of a [`PathMethod`].
pub struct PathMethodView {
    pub enum_name: Seq<char>,
    pub arms: Seq<MatchArmView>,
}

impl View for MatchArm {
    type V = MatchArmView;

    open spec fn view(&self) -> MatchArmView {
        MatchArmView { variant: self.variant@, path: self.path@ }
    }
}

/// The values of a list of arms.
pub open spec fn arm_views(arms: Seq<MatchArm>) -> Seq<MatchArmView> {
    arms.map_values(|arm: MatchArm| arm@)
}

impl View for PathMethod {
    type V = PathMethodView;

    open spec fn view(&self) -> PathMethodView {
        PathMethodView { enum_name: self.enum_name@, arms: arm_views(self.arms@) }
    }
}

/// The path of a variant: the prefix, a `/`, the variant's label, the suffix.
pub open spec fn path_of(prefix: Seq<char>, label: Seq<char>, suffix: Seq<char>) -> Seq<char> {
    prefix.push('/') + label + suffix
}

/// Builds the path of a variant from its three parts.
pub fn variant_path(prefix: &str, label: &str, suffix: &str) -> (path: String)
    ensures
        path@ == path_of(prefix@, label@, suffix@),
{
    let mut path = prefix.to_string();
    push_char(&mut path, '/');
    path.append(label);
    path.append(suffix);
    path
}

impl MatchArm {
    /// The arm for the variant called `variant`, whose label is `label`.
    pub fn new(variant: &str, label: &str, prefix: &str, suffix: &str) -> (arm: MatchArm)
        ensures
            arm@ == (MatchArmView { variant: variant@, path: path_of(prefix@, label@, suffix@) }),
    {
        MatchArm { variant: variant.to_string(), path: variant_path(prefix, label, suffix) }
    }
}

} // verus!
