//! Reading settings out of a declaration's attributes.
//!
//! A setting is an argument `key = "value"` of an attribute. Where several
//! arguments give the same key, the first in declaration order counts.

use vstd::prelude::*;
use crate::item::{AttrArg, AttrArgView, Attribute, AttributeView, attr_views};
use crate::text::same_text;

verus! {

impl AttrArgView {
    /// The string that this argument binds `key` to, if it does.
    pub open spec fn value_of(self, key: Seq<char>) -> Option<Seq<char>> {
        match self {
            AttrArgView::Setting { name, value } => if name == key {
                Some(value)
            } else {
                None
            },
            AttrArgView::Other => None,
        }
    }
}

/// The value of the first argument among `args` that binds `key`.
pub open spec fn first_value(args: Seq<AttrArgView>, key: Seq<char>) -> Option<Seq<char>>
    decreases args.len(),
{
    if args.len() == 0 {
        None
    } else if args[0].value_of(key) is Some {
        args[0].value_of(key)
    } else {
        first_value(args.drop_first(), key)
    }
}

/// The value that the attributes called `attr_name` give to `key`: that of
/// the first of them which binds `key` at all.
pub open spec fn setting(attrs: Seq<AttributeView>, attr_name: Seq<char>, key: Seq<char>) -> Option<
    Seq<char>,
>
    decreases attrs.len(),
{
    if attrs.len() == 0 {
        None
    } else if attrs[0].name == attr_name && first_value(attrs[0].args, key) is Some {
        first_value(attrs[0].args, key)
    } else {
        setting(attrs.drop_first(), attr_name, key)
    }
}

/// The text of an optional string slice.
pub open spec fn text_of(found: Option<&str>) -> Option<Seq<char>> {
    match found {
        Some(text) => Some(text@),
        None => None,
    }
}

impl AttrArg {
    /// The string that this argument binds `key` to, if it does.
    pub fn value_of<'a>(&'a self, key: &str) -> (found: Option<&'a str>)
        ensures
            text_of(found) == self@.value_of(key@),
    {
        match self {
            AttrArg::Setting { name, value } => {
                if same_text(name.as_str(), key) {
                    Some(value.as_str())
                } else {
                    None
                }
            },
            AttrArg::Other => None,
        }
    }
}

impl Attribute {
    /// The value of the first argument of this attribute that binds `key`.
    pub fn value_of<'a>(&'a self, key: &str) -> (found: Option<&'a str>)
        ensures
            text_of(found) == first_value(self@.args, key@),
    {
        let ghost args = self@.args;
        let mut i: usize = 0;
        assert(args.skip(0) =~= args);
        while i < self.args.len()
            invariant
                i <= self.args.len(),
                args == self@.args,
                first_value(args, key@) == first_value(args.skip(i as int), key@),
            decreases self.args.len() - i,
        {
            let found = self.args[i].value_of(key);
            proof {
                assert(args.skip(i as int)[0] == self.args[i as int]@);
                assert(args.skip(i as int).drop_first() =~= args.skip(i as int + 1));
            }
            if found.is_some() {
                return found;
            }
            i += 1;
        }
        None
    }
}

/// The value that the attributes called `attr_name` give to `key`.
pub fn find_setting<'a>(attrs: &'a Vec<Attribute>, attr_name: &str, key: &str) -> (found: Option<
    &'a str,
>)
    ensures
        text_of(found) == setting(attr_views(attrs@), attr_name@, key@),
{
    let ghost all = attr_views(attrs@);
    let mut i: usize = 0;
    assert(all.skip(0) =~= all);
    while i < attrs.len()
        invariant
            i <= attrs.len(),
            all == attr_views(attrs@),
            setting(all, attr_name@, key@) == setting(all.skip(i as int), attr_name@, key@),
        decreases attrs.len() - i,
    {
        proof {
            assert(all.skip(i as int)[0] == attrs[i as int]@);
            assert(all.skip(i as int).drop_first() =~= all.skip(i as int + 1));
        }
        if same_text(attrs[i].name.as_str(), attr_name) {
            let found = attrs[i].value_of(key);
            if found.is_some() {
                return found;
            }
        }
        i += 1;
    }
    None
}

/// No value is found among `args` exactly where none of them binds `key`.
pub proof fn lemma_first_value_absent(args: Seq<AttrArgView>, key: Seq<char>)
    ensures
        first_value(args, key) is None <==> forall|j: int|
            0 <= j < args.len() ==> (#[trigger] args[j]).value_of(key) is None,
    decreases args.len(),
{
    if args.len() > 0 {
        let rest = args.drop_first();
        lemma_first_value_absent(rest, key);
        if first_value(args, key) is None {
            assert forall|j: int| 0 <= j < args.len() implies (#[trigger] args[j]).value_of(
                key,
            ) is None by {
                if j > 0 {
                    assert(args[j] == rest[j - 1]);
                }
            }
        } else if args[0].value_of(key) is None {
            let j = choose|j: int| 0 <= j < rest.len() && (#[trigger] rest[j]).value_of(key) is Some;
            assert(args[j + 1] == rest[j]);
        }
    }
}

/// The attributes give `key` no value exactly where no argument of an
/// attribute called `attr_name` binds it.
pub proof fn lemma_setting_absent(attrs: Seq<AttributeView>, attr_name: Seq<char>, key: Seq<char>)
    ensures
        setting(attrs, attr_name, key) is None <==> forall|i: int, j: int|
            0 <= i < attrs.len() && 0 <= j < attrs[i].args.len() && attrs[i].name == attr_name
                ==> (#[trigger] attrs[i].args[j]).value_of(key) is None,
    decreases attrs.len(),
{
    if attrs.len() > 0 {
        let rest = attrs.drop_first();
        lemma_setting_absent(rest, attr_name, key);
        lemma_first_value_absent(attrs[0].args, key);
        if setting(attrs, attr_name, key) is None {
            assert forall|i: int, j: int|
                0 <= i < attrs.len() && 0 <= j < attrs[i].args.len() && attrs[i].name
                    == attr_name implies (#[trigger] attrs[i].args[j]).value_of(key) is None by {
                if i > 0 {
                    assert(attrs[i] == rest[i - 1]);
                }
            }
        } else if !(attrs[0].name == attr_name && first_value(attrs[0].args, key) is Some) {
            let (i, j) = choose|i: int, j: int|
                0 <= i < rest.len() && 0 <= j < rest[i].args.len() && rest[i].name == attr_name && (
                #[trigger] rest[i].args[j]).value_of(key) is Some;
            assert(attrs[i + 1] == rest[i]);
            assert(attrs[i + 1].args[j].value_of(key) is Some);
        }
    }
}

} // verus!
