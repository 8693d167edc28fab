use vstd::prelude::*;

use crate::ast::Pos;
use crate::text::text_eq;

verus! {

/// An element of a literal list in the source: the atom it is, if it is one,
/// and the offset just after it.
#[derive(Clone, Debug, PartialEq, Eq)]
pub struct ListElem {
    pub atom: Option<String>,
    pub end: u32,
}

/// The options argument of a `meck:new/2` call.
#[derive(Clone, Debug, PartialEq, Eq)]
pub enum MeckOptions {
    /// A literal list, element by element.
    List(Vec<ListElem>),
    /// Anything else: a variable, a call.
    Other,
}

/// A `meck:new` call found in a function of a test suite.
#[derive(Clone, Debug, PartialEq, Eq)]
pub struct MeckNewCall {
    /// The name and arity of the function that holds the call.
    pub function: String,
    pub arity: u32,
    /// The range of the call.
    pub range: Pos,
    /// Whether the call stands inside an anonymous function.
    pub in_anonymous_fun: bool,
    /// The offset just after the module argument.
    pub module_end: u32,
    /// The options, for `meck:new/2`.
    pub options: Option<MeckOptions>,
}

/// A warning that a `meck:new` call lacks the `no_link` option, and its fix:
/// `fix_text` inserted at `fix_offset`.
#[derive(Clone, Debug, PartialEq, Eq)]
pub struct MissingNoLink {
    pub range: Pos,
    pub message: String,
    pub fix_offset: u32,
    pub fix_text: String,
}

/// The setup functions of a suite, where a linked mock would die with the setup process.
pub open spec fn is_setup_function(name: Seq<char>, arity: u32) -> bool {
    (name == "init_per_suite"@ && arity == 1) || (name == "init_per_group"@ && arity == 2)
}

pub open spec fn is_no_link(e: ListElem) -> bool {
    e.atom matches Some(a) && a@ == "no_link"@
}

pub open spec fn has_no_link(elems: Seq<ListElem>) -> bool {
    exists|i: int| 0 <= i < elems.len() && is_no_link(#[trigger] elems[i])
}

/// The warning for a call, if it is owed: for a call in a setup function,
/// outside any anonymous function, that either has no options (the fix adds
/// `, [no_link]` after the module) or has a non-empty literal list without
/// `no_link` (the fix adds `, no_link` after its last element).
pub open spec fn missing_no_link_spec(c: MeckNewCall) -> Option<(Pos, Seq<char>, u32, Seq<char>)> {
    if !is_setup_function(c.function@, c.arity) || c.in_anonymous_fun {
        None
    } else {
        match c.options {
            None => Some((c.range, "Missing no_link option."@, c.module_end, ", [no_link]"@)),
            Some(MeckOptions::List(elems)) => if elems@.len() > 0 && !has_no_link(elems@) {
                Some((c.range, "Missing no_link option."@, elems@.last().end, ", no_link"@))
            } else {
                None
            },
            Some(MeckOptions::Other) => None,
        }
    }
}

pub open spec fn warning_view(w: Option<MissingNoLink>) -> Option<(Pos, Seq<char>, u32, Seq<char>)> {
    match w {
        Some(w) => Some((w.range, w.message@, w.fix_offset, w.fix_text@)),
        None => None,
    }
}

fn contains_no_link(elems: &Vec<ListElem>) -> (r: bool)
    ensures
        r == has_no_link(elems@),
{
    let mut i: usize = 0;
    while i < elems.len()
        invariant
            i <= elems@.len(),
            forall|j: int| 0 <= j < i ==> !is_no_link(#[trigger] elems@[j]),
        decreases elems@.len() - i,
    {
        match &elems[i].atom {
            Some(a) => {
                if text_eq(a.as_str(), "no_link") {
                    return true;
                }
            },
            None => {},
        }
        i = i + 1;
    }
    false
}

/// Checks a `meck:new` call of a suite's setup function for the `no_link` option.
pub fn missing_no_link_in_init_per_suite(call: &MeckNewCall) -> (r: Option<MissingNoLink>)
    ensures
        warning_view(r) == missing_no_link_spec(*call),
{
    let f = call.function.as_str();
    let setup = (text_eq(f, "init_per_suite") && call.arity == 1) || (text_eq(f, "init_per_group")
        && call.arity == 2);
    if !setup || call.in_anonymous_fun {
        return None;
    }
    match &call.options {
        None => Some(
            MissingNoLink {
                range: call.range,
                message: String::from_str("Missing no_link option."),
                fix_offset: call.module_end,
                fix_text: String::from_str(", [no_link]"),
            },
        ),
        Some(MeckOptions::List(elems)) => {
            if elems.len() > 0 && !contains_no_link(elems) {
                Some(
                    MissingNoLink {
                        range: call.range,
                        message: String::from_str("Missing no_link option."),
                        fix_offset: elems[elems.len() - 1].end,
                        fix_text: String::from_str(", no_link"),
                    },
                )
            } else {
                None
            }
        },
        Some(MeckOptions::Other) => None,
    }
}

/// `text` with `insert` placed before its character at `offset`.
pub fn apply_insert(text: &str, offset: usize, insert: &str) -> (r: String)
    requires
        offset <= text@.len(),
    ensures
        r@ == text@.subrange(0, offset as int) + insert@ + text@.subrange(offset as int, text@.len() as int),
{
    let n = text.unicode_len();
    let mut r = String::from_str(text.substring_char(0, offset));
    r.append(insert);
    r.append(text.substring_char(offset, n));
    r
}

} // verus!
