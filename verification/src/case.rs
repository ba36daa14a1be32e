//! Case styles for variant names.
//!
//! A `strum` attribute may ask, with `serialize_all = "snake_case"` and the
//! like, that variant names be written in another case style. The styles are
//! recognised here; the conversion itself is the work of the `convert_case`
//! crate.

use vstd::prelude::*;
use crate::text::same_text;

verus! {

/// A case style that a variant name can be converted to. Each is shown with
/// the directive that names it and with what becomes of `VariantOne`.
#[derive(Clone, Copy, Debug, PartialEq, Eq, Structural)]
pub enum CaseStyle {
    /// `snake_case`: `variant_one`
    Snake,
    /// `kebab-case`: `variant-one`
    Kebab,
    /// `camelCase`: `variantOne`
    Camel,
    /// `PascalCase`: `VariantOne`
    Pascal,
    /// `SCREAMING_SNAKE_CASE`: `VARIANT_ONE`
    UpperSnake,
    /// `SCREAMING-KEBAB-CASE`: `VARIANT-ONE`
    UpperKebab,
    /// `Train-Case`: `Variant-One`
    Train,
    /// `title_case`: `Variant One`
    Title,
    /// `lowercase`: `variantone`
    Flat,
    /// `UPPERCASE`: `VARIANTONE`
    UpperFlat,
}

/// The style that a directive names; `None` for a directive that names no
/// style known here.
pub open spec fn style_named(directive: Seq<char>) -> Option<CaseStyle> {
    if directive == "snake_case"@ {
        Some(CaseStyle::Snake)
    } else if directive == "kebab-case"@ {
        Some(CaseStyle::Kebab)
    } else if directive == "camelCase"@ {
        Some(CaseStyle::Camel)
    } else if directive == "PascalCase"@ {
        Some(CaseStyle::Pascal)
    } else if directive == "SCREAMING_SNAKE_CASE"@ {
        Some(CaseStyle::UpperSnake)
    } else if directive == "SCREAMING-KEBAB-CASE"@ {
        Some(CaseStyle::UpperKebab)
    } else if directive == "Train-Case"@ {
        Some(CaseStyle::Train)
    } else if directive == "title_case"@ {
        Some(CaseStyle::Title)
    } else if directive == "lowercase"@ {
        Some(CaseStyle::Flat)
    } else if directive == "UPPERCASE"@ {
        Some(CaseStyle::UpperFlat)
    } else {
        None
    }
}

/// What `convert_case` makes of `name` when asked for `style`.
pub uninterp spec fn recased(name: Seq<char>, style: CaseStyle) -> Seq<char>;

/// The label of a variant called `name`: the name itself where no style is
/// asked for, else the name in that style.
pub open spec fn label_of(name: Seq<char>, style: Option<CaseStyle>) -> Seq<char> {
    match style {
        Some(style) => recased(name, style),
        None => name,
    }
}

/// Converts `name` to `style`.
///
/// Calls `convert_case::Casing::to_case` on `name` with the `Case` of the
/// same name as `style`. That function splits the text into words and joins
/// them again in the pattern of the case; it reads nothing but its two
/// arguments and does not panic. The contract gives its result the name
/// `recased` and claims no more of it.
#[verifier::external_body]
fn recase(name: &str, style: CaseStyle) -> (label: String)
    ensures
        label@ == recased(name@, style),
{
    let case = match style {
        CaseStyle::Snake => convert_case::Case::Snake,
        CaseStyle::Kebab => convert_case::Case::Kebab,
        CaseStyle::Camel => convert_case::Case::Camel,
        CaseStyle::Pascal => convert_case::Case::Pascal,
        CaseStyle::UpperSnake => convert_case::Case::UpperSnake,
        CaseStyle::UpperKebab => convert_case::Case::UpperKebab,
        CaseStyle::Train => convert_case::Case::Train,
        CaseStyle::Title => convert_case::Case::Title,
        CaseStyle::Flat => convert_case::Case::Flat,
        CaseStyle::UpperFlat => convert_case::Case::UpperFlat,
    };
    convert_case::Casing::to_case(&name, case)
}

impl CaseStyle {
    /// The style that a `serialize_all` directive names, if it names one.
    pub fn from_directive(directive: &str) -> (style: Option<CaseStyle>)
        ensures
            style == style_named(directive@),
    {
        if same_text(directive, "snake_case") {
            Some(CaseStyle::Snake)
        } else if same_text(directive, "kebab-case") {
            Some(CaseStyle::Kebab)
        } else if same_text(directive, "camelCase") {
            Some(CaseStyle::Camel)
        } else if same_text(directive, "PascalCase") {
            Some(CaseStyle::Pascal)
        } else if same_text(directive, "SCREAMING_SNAKE_CASE") {
            Some(CaseStyle::UpperSnake)
        } else if same_text(directive, "SCREAMING-KEBAB-CASE") {
            Some(CaseStyle::UpperKebab)
        } else if same_text(directive, "Train-Case") {
            Some(CaseStyle::Train)
        } else if same_text(directive, "title_case") {
            Some(CaseStyle::Title)
        } else if same_text(directive, "lowercase") {
            Some(CaseStyle::Flat)
        } else if same_text(directive, "UPPERCASE") {
            Some(CaseStyle::UpperFlat)
        } else {
            None
        }
    }
}

/// The label of a variant called `name` under an optional case style.
pub fn label(name: &str, style: Option<CaseStyle>) -> (label: String)
    ensures
        label@ == label_of(name@, style),
{
    match style {
        Some(style) => recase(name, style),
        None => name.to_string(),
    }
}

} // verus!
