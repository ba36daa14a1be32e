//! The derived method as Rust source text.

use vstd::prelude::*;
use crate::method::{MatchArm, MatchArmView, PathMethod, PathMethodView, arm_views};
use crate::text::push_char;

verus! {

/// The hexadecimal digit for a number below sixteen, in lower case.
pub open spec fn hex_digit(d: nat) -> char {
    if d < 10 {
        (48 + d) as u8 as char
    } else {
        (87 + d) as u8 as char
    }
}

/// The hexadecimal numeral of `n`, without leading zeros.
pub open spec fn hex(n: nat) -> Seq<char>
    decreases n,
{
    if n < 16 {
        seq![hex_digit(n)]
    } else {
        hex(n / 16).push(hex_digit(n % 16))
    }
}

/// How one character is written inside a string literal: a quote, a
/// backslash, a line feed, a carriage return and a tab by their two-letter
/// escapes, any other printable ASCII character as itself, and every other
/// character as `\u{..}` with its code in hexadecimal.
pub open spec fn escaped_char(c: char) -> Seq<char> {
    if c == '"' {
        seq!['\\', '"']
    } else if c == '\\' {
        seq!['\\', '\\']
    } else if c == '\n' {
        seq!['\\', 'n']
    } else if c == '\r' {
        seq!['\\', 'r']
    } else if c == '\t' {
        seq!['\\', 't']
    } else if 0x20 <= c as u32 <= 0x7e {
        seq![c]
    } else {
        seq!['\\', 'u', '{'] + hex(c as nat) + seq!['}']
    }
}

/// A text with each of its characters escaped.
pub open spec fn escaped(text: Seq<char>) -> Seq<char> {
    text.map_values(|c: char| escaped_char(c)).flatten()
}

/// The string literal that denotes `text`.
pub open spec fn literal(text: Seq<char>) -> Seq<char> {
    seq!['"'] + escaped(text) + seq!['"']
}

/// Appends the hexadecimal digit for `d`.
fn push_hex_digit(out: &mut String, d: u32)
    requires
        d < 16,
    ensures
        final(out)@ == old(out)@.push(hex_digit(d as nat)),
{
    let digit: u8 = d as u8;
    if digit < 10 {
        push_char(out, (48 + digit) as char);
    } else {
        push_char(out, (87 + digit) as char);
    }
}

/// Appends the hexadecimal numeral of `n`.
fn push_hex(out: &mut String, n: u32)
    ensures
        final(out)@ == old(out)@ + hex(n as nat),
    decreases n,
{
    if n < 16 {
        push_hex_digit(out, n);
    } else {
        push_hex(out, n / 16);
        push_hex_digit(out, n % 16);
    }
}

/// Appends one character as it is written inside a string literal.
fn push_escaped_char(out: &mut String, c: char)
    ensures
        final(out)@ == old(out)@ + escaped_char(c),
{
    if c == '"' {
        push_char(out, '\\');
        push_char(out, '"');
    } else if c == '\\' {
        push_char(out, '\\');
        push_char(out, '\\');
    } else if c == '\n' {
        push_char(out, '\\');
        push_char(out, 'n');
    } else if c == '\r' {
        push_char(out, '\\');
        push_char(out, 'r');
    } else if c == '\t' {
        push_char(out, '\\');
        push_char(out, 't');
    } else if 0x20 <= c as u32 && c as u32 <= 0x7e {
        push_char(out, c);
    } else {
        push_char(out, '\\');
        push_char(out, 'u');
        push_char(out, '{');
        push_hex(out, c as u32);
        push_char(out, '}');
    }
}

/// Escaping a text one character longer adds that character's escape.
proof fn lemma_escaped_push(text: Seq<char>, c: char)
    ensures
        escaped(text.push(c)) == escaped(text) + escaped_char(c),
{
    let each = |c: char| escaped_char(c);
    assert(text.push(c).map_values(each) =~= text.map_values(each).push(escaped_char(c)));
    text.map_values(each).lemma_flatten_push(escaped_char(c));
}

/// Appends the string literal that denotes `text`.
pub fn push_literal(out: &mut String, text: &str)
    ensures
        final(out)@ == old(out)@ + literal(text@),
{
    let ghost before = out@;
    push_char(out, '"');
    for c in it: text.chars()
        invariant
            it.seq() == text@,
            out@ == before.push('"') + escaped(text@.take(it.index())),
    {
        proof {
            let done = text@.take(it.index());
            lemma_escaped_push(done, c);
            assert(text@.take(it.index() + 1) =~= done.push(c));
        }
        push_escaped_char(out, c);
    }
    assert(text@.take(text@.len() as int) =~= text@);
    push_char(out, '"');
}

/// The source text of one arm inside the method of the enum `enum_name`.
pub open spec fn arm_text(enum_name: Seq<char>, arm: MatchArmView) -> Seq<char> {
    "            "@ + enum_name + "::"@ + arm.variant + " => ::std::string::String::from("@
        + literal(arm.path) + "),\n"@
}

/// The source text of the arms, one line each, in their order.
pub open spec fn arms_text(enum_name: Seq<char>, arms: Seq<MatchArmView>) -> Seq<char> {
    arms.map_values(|arm: MatchArmView| arm_text(enum_name, arm)).flatten()
}

/// The source text of the method: an `impl` block for the enum that holds
/// `path`, whose body matches on the variant.
pub open spec fn method_text(method: PathMethodView) -> Seq<char> {
    "impl "@ + method.enum_name
        + " {\n    pub fn path(&self) -> ::std::string::String {\n        match *self {\n"@
        + arms_text(method.enum_name, method.arms) + "        }\n    }\n}\n"@
}

/// The text of a list of arms one longer adds that arm's line.
proof fn lemma_arms_text_push(enum_name: Seq<char>, arms: Seq<MatchArmView>, arm: MatchArmView)
    ensures
        arms_text(enum_name, arms.push(arm)) == arms_text(enum_name, arms) + arm_text(
            enum_name,
            arm,
        ),
{
    let each = |arm: MatchArmView| arm_text(enum_name, arm);
    assert(arms.push(arm).map_values(each) =~= arms.map_values(each).push(
        arm_text(enum_name, arm),
    ));
    arms.map_values(each).lemma_flatten_push(arm_text(enum_name, arm));
}

impl MatchArm {
    /// Appends the source text of this arm inside the method of `enum_name`.
    pub fn push_text(&self, out: &mut String, enum_name: &str)
        ensures
            final(out)@ == old(out)@ + arm_text(enum_name@, self@),
    {
        out.append("            ");
        out.append(enum_name);
        out.append("::");
        out.append(self.variant.as_str());
        out.append(" => ::std::string::String::from(");
        push_literal(out, self.path.as_str());
        out.append("),\n");
    }
}

impl PathMethod {
    /// The method as Rust source text.
    pub fn render(&self) -> (text: String)
        ensures
            text@ == method_text(self@),
    {
        let mut text = String::new();
        text.append("impl ");
        text.append(self.enum_name.as_str());
        text.append(" {\n    pub fn path(&self) -> ::std::string::String {\n        match *self {\n");
        let ghost head = text@;
        let ghost arms = arm_views(self.arms@);
        let mut i: usize = 0;
        while i < self.arms.len()
            invariant
                i <= self.arms.len(),
                arms == arm_views(self.arms@),
                text@ == head + arms_text(self.enum_name@, arms.take(i as int)),
            decreases self.arms.len() - i,
        {
            proof {
                lemma_arms_text_push(self.enum_name@, arms.take(i as int), arms[i as int]);
                assert(arms.take(i as int + 1) =~= arms.take(i as int).push(arms[i as int]));
            }
            self.arms[i].push_text(&mut text, self.enum_name.as_str());
            i += 1;
        }
        assert(arms.take(i as int) =~= arms);
        text.append("        }\n    }\n}\n");
        text
    }
}

} // verus!
