//! Deriving the path method of an enum from its declaration.

use vstd::prelude::*;
use crate::case::{CaseStyle, label, label_of};
use crate::config::{PathConfig, PathConfigView, config_of, requested_style, style_of};
use crate::error::DeriveError;
use crate::item::{ItemData, ItemDataView, ItemDecl, ItemDeclView, texts};
use crate::method::{MatchArm, MatchArmView, PathMethod, PathMethodView, arm_views, path_of};
use crate::render::method_text;

verus! {

/// The arm for each of `variants`, in the same order.
pub open spec fn arms_of(
    variants: Seq<Seq<char>>,
    style: Option<CaseStyle>,
    config: PathConfigView,
) -> Seq<MatchArmView> {
    Seq::new(
        variants.len(),
        |i: int|
            MatchArmView {
                variant: variants[i],
                path: path_of(config.prefix, label_of(variants[i], style), config.suffix),
            },
    )
}

/// The method derived for a declaration, or why there is none: an item that
/// is no enum has none, whatever its attributes; an enum has none where its
/// attributes set no prefix.
pub open spec fn derived(item: ItemDeclView) -> Result<PathMethodView, DeriveError> {
    match item.data {
        ItemDataView::Enum { variants } => match config_of(item.attrs) {
            Some(config) => Ok(
                PathMethodView {
                    enum_name: item.name,
                    arms: arms_of(variants, style_of(item.attrs), config),
                },
            ),
            None => Err(DeriveError::MissingPrefix),
        },
        _ => Err(DeriveError::NotAnEnum),
    }
}

/// The arms for the variants of an enum under a configuration and a style.
pub fn match_arms(variants: &Vec<String>, style: Option<CaseStyle>, config: &PathConfig) -> (arms:
    Vec<MatchArm>)
    ensures
        arm_views(arms@) == arms_of(texts(variants@), style, config@),
{
    let mut arms: Vec<MatchArm> = Vec::new();
    let mut i: usize = 0;
    while i < variants.len()
        invariant
            i <= variants.len(),
            arms.len() == i,
            forall|j: int|
                0 <= j < i ==> (#[trigger] arms[j])@ == arms_of(
                    texts(variants@),
                    style,
                    config@,
                )[j],
        decreases variants.len() - i,
    {
        let name = variants[i].as_str();
        let label = label(name, style);
        let arm = MatchArm::new(name, label.as_str(), config.prefix.as_str(), config.suffix.as_str());
        arms.push(arm);
        i += 1;
    }
    assert(arm_views(arms@) =~= arms_of(texts(variants@), style, config@));
    arms
}

/// Derives the path method of a declaration.
///
/// Fails with `NotAnEnum` exactly where the item is a struct or a union, and
/// with `MissingPrefix` exactly where it is an enum whose attributes set no
/// prefix. Otherwise the method has one arm per variant, in declaration
/// order, and the arm of a variant returns the prefix, a `/`, the variant's
/// label and the suffix.
pub fn generate(item: &ItemDecl) -> (method: Result<PathMethod, DeriveError>)
    ensures
        match method {
            Ok(method) => derived(item@) == Ok::<PathMethodView, DeriveError>(method@),
            Err(e) => derived(item@) == Err::<PathMethodView, DeriveError>(e),
        },
{
    match &item.data {
        ItemData::Enum { variants } => {
            match PathConfig::from_attrs(&item.attrs) {
                Ok(config) => {
                    let style = requested_style(&item.attrs);
                    let arms = match_arms(variants, style, &config);
                    Ok(PathMethod { enum_name: item.name.clone(), arms })
                },
                Err(e) => Err(e),
            }
        },
        _ => Err(DeriveError::NotAnEnum),
    }
}

/// The source text derived for a declaration, or why there is none.
pub open spec fn derived_text(item: ItemDeclView) -> Result<Seq<char>, DeriveError> {
    match derived(item) {
        Ok(method) => Ok(method_text(method)),
        Err(e) => Err(e),
    }
}

/// Whether `output` is what deriving from `item` gives: the same failure,
/// or the same text.
pub open spec fn is_output_for(item: ItemDeclView, output: Result<String, DeriveError>) -> bool {
    match output {
        Ok(text) => derived_text(item) == Ok::<Seq<char>, DeriveError>(text@),
        Err(e) => derived_text(item) == Err::<Seq<char>, DeriveError>(e),
    }
}

/// Derives the method `path` for a declaration and returns it as Rust source
/// text: an `impl` block for the enum, to stand beside its declaration.
///
/// Fails as [`generate`] does, and then produces no text at all.
pub fn derive_path_str(item: &ItemDecl) -> (output: Result<String, DeriveError>)
    ensures
        is_output_for(item@, output),
{
    match generate(item) {
        Ok(method) => Ok(method.render()),
        Err(e) => Err(e),
    }
}

/// The marker attribute `path_str`: it carries the settings that the derive
/// reads, and hands the item that it is written on back as it came.
pub fn path_str<A, T>(_args: A, input: T) -> (output: T)
    ensures
        output == input,
{
    input
}

} // verus!
