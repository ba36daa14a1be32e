//! What holds of every derivation, proved from the definitions.

use vstd::prelude::*;
use crate::case::{CaseStyle, label_of, recased, style_named};
use crate::config::{style_of, suffix_of};
use crate::derive::{derived, derived_text, is_output_for};
use crate::error::DeriveError;
use crate::item::{ItemDataView, ItemDecl, ItemDeclView};
use crate::method::{PathMethodView, path_of};
use crate::settings::{lemma_setting_absent, setting};

verus! {

/// Whether `text` begins with `head`.
pub open spec fn begins_with(text: Seq<char>, head: Seq<char>) -> bool {
    head.len() <= text.len() && text.take(head.len() as int) == head
}

/// Whether `text` ends with `tail`.
pub open spec fn ends_with(text: Seq<char>, tail: Seq<char>) -> bool {
    tail.len() <= text.len() && text.skip(text.len() - tail.len()) == tail
}

/// An item that is no enum gets no method and no text, whatever its
/// attributes: deriving fails with `NotAnEnum`.
pub proof fn lemma_only_enums(item: ItemDeclView)
    requires
        !(item.data is Enum),
    ensures
        derived(item) == Err::<PathMethodView, DeriveError>(DeriveError::NotAnEnum),
        derived_text(item) == Err::<Seq<char>, DeriveError>(DeriveError::NotAnEnum),
{
}

/// An enum on which no argument of a `path_str` attribute binds `prefix`
/// to a string gets no method and no text: deriving fails with
/// `MissingPrefix`.
pub proof fn lemma_prefix_required(item: ItemDeclView)
    requires
        item.data is Enum,
        forall|i: int, j: int|
            0 <= i < item.attrs.len() && 0 <= j < item.attrs[i].args.len() && item.attrs[i].name
                == "path_str"@ ==> (#[trigger] item.attrs[i].args[j]).value_of("prefix"@) is None,
    ensures
        derived(item) == Err::<PathMethodView, DeriveError>(DeriveError::MissingPrefix),
        derived_text(item) == Err::<Seq<char>, DeriveError>(DeriveError::MissingPrefix),
{
    lemma_setting_absent(item.attrs, "path_str"@, "prefix"@);
}

/// An enum with a prefix and no suffix gets a method with one arm per
/// variant; the arm at a variant's place in the declaration is for that
/// variant and returns the prefix, a `/` and the variant's label. Where the
/// attributes hold no case directive, the label is the variant's name.
pub proof fn lemma_prefix_without_suffix(
    item: ItemDeclView,
    variants: Seq<Seq<char>>,
    prefix: Seq<char>,
)
    requires
        item.data == (ItemDataView::Enum { variants }),
        setting(item.attrs, "path_str"@, "prefix"@) == Some(prefix),
        setting(item.attrs, "path_str"@, "suffix"@) is None,
    ensures
        derived(item) is Ok,
        derived(item)->Ok_0.arms.len() == variants.len(),
        forall|i: int|
            0 <= i < variants.len() ==> {
                let arm = #[trigger] derived(item)->Ok_0.arms[i];
                &&& arm.variant == variants[i]
                &&& arm.path == prefix.push('/') + label_of(variants[i], style_of(item.attrs))
                &&& setting(item.attrs, "strum"@, "serialize_all"@) is None ==> arm.path
                    == prefix.push('/') + variants[i]
            },
{
    assert forall|i: int| 0 <= i < variants.len() implies {
        let arm = #[trigger] derived(item)->Ok_0.arms[i];
        arm.path == prefix.push('/') + label_of(variants[i], style_of(item.attrs))
    } by {
        let label = label_of(variants[i], style_of(item.attrs));
        assert(prefix.push('/') + label + Seq::<char>::empty() =~= prefix.push('/') + label);
    }
}

/// Where the `strum` attribute names a case style known here, the label in
/// every path is the variant's name converted to that style.
pub proof fn lemma_directive_converts_labels(
    item: ItemDeclView,
    variants: Seq<Seq<char>>,
    prefix: Seq<char>,
    directive: Seq<char>,
    style: CaseStyle,
)
    requires
        item.data == (ItemDataView::Enum { variants }),
        setting(item.attrs, "path_str"@, "prefix"@) == Some(prefix),
        setting(item.attrs, "strum"@, "serialize_all"@) == Some(directive),
        style_named(directive) == Some(style),
    ensures
        derived(item) is Ok,
        forall|i: int|
            0 <= i < variants.len() ==> (#[trigger] derived(item)->Ok_0.arms[i]).path == path_of(
                prefix,
                recased(variants[i], style),
                suffix_of(item.attrs),
            ),
{
}

/// With a prefix and a suffix, every path that the derived method returns
/// begins with the prefix and a `/`, and ends with the suffix.
pub proof fn lemma_paths_begin_and_end(
    item: ItemDeclView,
    variants: Seq<Seq<char>>,
    prefix: Seq<char>,
    suffix: Seq<char>,
)
    requires
        item.data == (ItemDataView::Enum { variants }),
        setting(item.attrs, "path_str"@, "prefix"@) == Some(prefix),
        setting(item.attrs, "path_str"@, "suffix"@) == Some(suffix),
    ensures
        derived(item) is Ok,
        forall|i: int|
            0 <= i < variants.len() ==> {
                let arm = #[trigger] derived(item)->Ok_0.arms[i];
                &&& begins_with(arm.path, prefix.push('/'))
                &&& ends_with(arm.path, suffix)
            },
{
    assert forall|i: int| 0 <= i < variants.len() implies {
        let arm = #[trigger] derived(item)->Ok_0.arms[i];
        &&& begins_with(arm.path, prefix.push('/'))
        &&& ends_with(arm.path, suffix)
    } by {
        let path = derived(item)->Ok_0.arms[i].path;
        let label = label_of(variants[i], style_of(item.attrs));
        assert(path == prefix.push('/') + label + suffix);
        assert(path.take(prefix.push('/').len() as int) =~= prefix.push('/'));
        assert(path.skip(path.len() - suffix.len()) =~= suffix);
    }
}

/// Deriving twice from declarations that read the same gives the same
/// outcome: the same failure, or the same text character for character.
pub proof fn lemma_same_input_same_output(
    first: ItemDecl,
    second: ItemDecl,
    first_output: Result<String, DeriveError>,
    second_output: Result<String, DeriveError>,
)
    requires
        first@ == second@,
        is_output_for(first@, first_output),
        is_output_for(second@, second_output),
    ensures
        match (first_output, second_output) {
            (Ok(first_text), Ok(second_text)) => first_text@ == second_text@,
            (Err(first_error), Err(second_error)) => first_error == second_error,
            _ => false,
        },
{
}

} // verus!
