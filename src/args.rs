//! Descriptions of command-line options, with their format and default value.
use vstd::prelude::*;

use crate::text::{decimal, push_decimal};

verus! {

/// A value that can be shown as the default of a command-line option.
pub trait ToArgString {
    /// Converts this value to the text that shows it.
    fn to_arg_str(&self) -> String;
}

impl ToArgString for u32 {
    /// A count, in decimal.
    fn to_arg_str(&self) -> (r: String)
        ensures
            r@ == decimal(*self as nat),
    {
        let mut r = String::new();
        push_decimal(&mut r, *self);
        r
    }
}

impl<'a> ToArgString for &'a str {
    /// A string, between single quotes.
    fn to_arg_str(&self) -> (r: String)
        ensures
            r@ == seq!['\''] + (*self)@ + seq!['\''],
    {
        let mut r = String::new();
        r.push('\'');
        r.push_str(*self);
        r.push('\'');
        r
    }
}

/// A string that is shown as it is, without quotes.
pub struct UnquotedArgString(pub &'static str);

impl ToArgString for UnquotedArgString {
    fn to_arg_str(&self) -> (r: String)
        ensures
            r@ == self.0@,
    {
        self.0.to_owned()
    }
}

/// The hint that gives the format of an option's value.
pub open spec fn format_hint(format: Seq<char>) -> Seq<char> {
    seq!['f', 'o', 'r', 'm', 'a', 't', ':', ' ', '\''] + format + seq!['\'']
}

/// The hint that gives the default of an option.
pub open spec fn default_hint(default: Seq<char>) -> Seq<char> {
    seq!['d', 'e', 'f', 'a', 'u', 'l', 't', ':', ' '] + default
}

/// The hints that are present, separated by a comma and a space.
pub open spec fn hints(format: Option<Seq<char>>, default: Option<Seq<char>>) -> Seq<char> {
    match (format, default) {
        (Some(f), Some(d)) => format_hint(f) + seq![',', ' '] + default_hint(d),
        (Some(f), None) => format_hint(f),
        (None, Some(d)) => default_hint(d),
        (None, None) => Seq::empty(),
    }
}

/// An option's description followed by its hints between square brackets.
pub open spec fn described(
    desc: Seq<char>,
    format: Option<Seq<char>>,
    default: Option<Seq<char>>,
) -> Seq<char> {
    desc + seq![' ', '['] + hints(format, default) + seq![']']
}

/// The text of an optional string.
pub open spec fn opt_text(s: Option<&str>) -> Option<Seq<char>> {
    match s {
        Some(s) => Some(s@),
        None => None,
    }
}

/// The text of an optional owned string.
pub open spec fn opt_string(s: Option<String>) -> Option<Seq<char>> {
    match s {
        Some(s) => Some(s@),
        None => None,
    }
}

/// Builds the description message of an option whose default, where there is one, is
/// already shown as text: the description, then between square brackets the format of
/// the option's value and its default, where they are given.
pub fn describe(desc: &str, format: Option<&str>, default: Option<String>) -> (r: String)
    ensures
        r@ == described(desc@, opt_text(format), opt_string(default)),
{
    proof {
        reveal_strlit("format: '");
        reveal_strlit("default: ");
    }
    let mut r = String::new();
    r.push_str(desc);
    r.push(' ');
    r.push('[');
    let has_format = format.is_some();
    match format {
        Some(f) => {
            r.push_str("format: '");
            r.push_str(f);
            r.push('\'');
        },
        None => {},
    }
    match default {
        Some(d) => {
            if has_format {
                r.push(',');
                r.push(' ');
            }
            r.push_str("default: ");
            r.push_str(d.as_str());
        },
        None => {},
    }
    r.push(']');
    assert(r@ =~= described(desc@, opt_text(format), opt_string(default)));
    r
}

/// Builds a description message for an option: its description, then between square
/// brackets the format of its value and its default, where they are given. The default
/// is shown as its `to_arg_str` gives it.
pub fn arg_desc<T: ToArgString>(desc: &str, format: Option<&str>, default: Option<T>) -> (r:
    String)
    ensures
        default is None ==> r@ == described(desc@, opt_text(format), None),
        default is Some ==> exists|shown: Seq<char>|
            r@ == described(desc@, opt_text(format), Some(shown)),
{
    let shown = match default {
        Some(d) => Some(d.to_arg_str()),
        None => None,
    };
    describe(desc, format, shown)
}

} // verus!
