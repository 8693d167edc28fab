use vstd::prelude::*;

verus! {

/// Whether a character has Unicode's `Lowercase` property.
pub uninterp spec fn char_lowercase(c: char) -> bool;

/// Whether a character is a Unicode letter or number.
pub uninterp spec fn char_alphanumeric(c: char) -> bool;

/// Relies on `char::is_lowercase`: the `Lowercase` property, which holds of the
/// ASCII letters `a` to `z` and not of `A` to `Z`.
#[verifier::external_body]
fn is_lowercase(c: char) -> (r: bool)
    ensures
        r == char_lowercase(c),
        'a' <= c <= 'z' ==> r,
        'A' <= c <= 'Z' ==> !r,
{
    c.is_lowercase()
}

/// Relies on `char::is_alphanumeric`: `Alphabetic` or `Numeric`, which holds of
/// the ASCII letters and digits.
#[verifier::external_body]
fn is_alphanumeric(c: char) -> (r: bool)
    ensures
        r == char_alphanumeric(c),
        'a' <= c <= 'z' || 'A' <= c <= 'Z' || '0' <= c <= '9' ==> r,
{
    c.is_alphanumeric()
}

/// An atom that needs no quotes: a lowercase letter, then letters, digits, `_` and `@`.
pub open spec fn is_unquoted_atom(s: Seq<char>) -> bool {
    &&& s.len() > 0
    &&& char_lowercase(s[0])
    &&& forall|i: int| 1 <= i < s.len() ==> char_alphanumeric(#[trigger] s[i]) || s[i] == '_' || s[i] == '@'
}

/// How an atom is written: as it is when it needs no quotes, else in single quotes.
pub open spec fn display_form(s: Seq<char>) -> Seq<char> {
    if is_unquoted_atom(s) {
        s
    } else {
        seq!['\''] + s + seq!['\'']
    }
}

/// The name of an atom, unquoted. Names compare and order by their text.
#[derive(Clone, Debug, PartialEq, Eq, Hash, PartialOrd, Ord)]
pub struct AtomName(pub String);

impl AtomName {
    pub fn new(name: &str) -> (r: Self)
        ensures
            r.0@ == name@,
    {
        AtomName(String::from_str(name))
    }

    /// The name without quotes, as a file name built from it needs it.
    pub fn as_unquoted_str(&self) -> (r: &str)
        ensures
            r@ == self.0@,
    {
        self.0.as_str()
    }

    /// The name of the compiled file of a module with this name: the name
    /// unquoted, as the compiler writes it, then `.beam`.
    pub fn beam_file_name(&self) -> (r: String)
        ensures
            r@ == self.0@ + ".beam"@,
    {
        let mut r = self.0.clone();
        r.append(".beam");
        r
    }

    fn needs_no_quotes(&self) -> (r: bool)
        ensures
            r == is_unquoted_atom(self.0@),
    {
        let s = self.0.as_str();
        let n = s.unicode_len();
        if n == 0 {
            return false;
        }
        if !is_lowercase(s.get_char(0)) {
            return false;
        }
        let mut i: usize = 1;
        while i < n
            invariant
                n == s@.len(),
                1 <= i <= n,
                s@ == self.0@,
                forall|j: int| 1 <= j < i ==> char_alphanumeric(#[trigger] s@[j]) || s@[j] == '_' || s@[j] == '@',
            decreases n - i,
        {
            let c = s.get_char(i);
            if !(is_alphanumeric(c) || c == '_' || c == '@') {
                return false;
            }
            i = i + 1;
        }
        true
    }

    /// The atom as Erlang source writes it.
    pub fn to_display_string(&self) -> (r: String)
        ensures
            r@ == display_form(self.0@),
    {
        if self.needs_no_quotes() {
            self.0.clone()
        } else {
            let mut r = String::from_str("'");
            r.append(self.0.as_str());
            r.append("'");
            proof {
                reveal_strlit("'");
                assert(r@ =~= seq!['\''] + self.0@ + seq!['\'']);
            }
            r
        }
    }
}

} // verus!
