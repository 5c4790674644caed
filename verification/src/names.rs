//! Unqualified names for extensions and extension functions.

use vstd::prelude::*;

verus! {

/// A character that may start an identifier.
pub open spec fn is_ident_start(c: char) -> bool {
    ('a' <= c && c <= 'z') || ('A' <= c && c <= 'Z') || c == '_'
}

/// A character that may continue an identifier.
pub open spec fn is_ident_char(c: char) -> bool {
    is_ident_start(c) || ('0' <= c && c <= '9')
}

/// An unqualified name: a letter or underscore, then letters, digits or
/// underscores.
pub open spec fn is_valid_identifier(s: Seq<char>) -> bool {
    &&& s.len() > 0
    &&& is_ident_start(s[0])
    &&& forall|i: int| 0 <= i < s.len() ==> is_ident_char(#[trigger] s[i])
}

/// The name of an extension or of one of its functions.
#[derive(Debug)]
pub struct Name {
    id: String,
}

impl View for Name {
    type V = Seq<char>;

    closed spec fn view(&self) -> Seq<char> {
        self.id@
    }
}

impl Name {
    /// Wraps a string the caller already knows to be a name; the public
    /// constructor is `parse_unqualified_name`.
    pub(crate) fn of_str(s: &str) -> (r: Name)
        ensures
            r@ == s@,
    {
        Name { id: s.to_owned() }
    }

    /// Parses a string as an unqualified name, accepting exactly the strings
    /// that match the identifier grammar.
    pub fn parse_unqualified_name(s: &str) -> (r: Option<Name>)
        ensures
            (r is Some) <==> is_valid_identifier(s@),
            match r {
                Some(n) => n@ == s@,
                None => true,
            },
    {
        let len = s.unicode_len();
        if len == 0 {
            return None;
        }
        let first = s.get_char(0);
        if !(('a' <= first && first <= 'z') || ('A' <= first && first <= 'Z') || first == '_') {
            return None;
        }
        let mut i: usize = 0;
        while i < len
            invariant
                len == s@.len(),
                0 <= i <= len,
                forall|j: int| 0 <= j < i ==> is_ident_char(#[trigger] s@[j]),
            decreases len - i,
        {
            let c = s.get_char(i);
            let ok = ('a' <= c && c <= 'z') || ('A' <= c && c <= 'Z') || c == '_' || ('0' <= c
                && c <= '9');
            if !ok {
                return None;
            }
            i = i + 1;
        }
        Some(Name { id: s.to_owned() })
    }

    /// The text of the name.
    pub fn as_str(&self) -> (r: &str)
        ensures
            r@ == self@,
    {
        self.id.as_str()
    }

    /// An owned copy of the name.
    pub fn duplicate(&self) -> (r: Name)
        ensures
            r == *self,
    {
        Name { id: self.id.clone() }
    }
}

impl PartialEq for Name {
    fn eq(&self, other: &Name) -> (r: bool) {
        self.id == other.id
    }
}

impl vstd::std_specs::cmp::PartialEqSpecImpl for Name {
    open spec fn obeys_eq_spec() -> bool {
        true
    }

    open spec fn eq_spec(&self, other: &Name) -> bool {
        self@ == other@
    }
}

/// Two names are equal as values exactly when their texts are equal.
pub fn name_eq(a: &Name, b: &Name) -> (r: bool)
    ensures
        r == (a@ == b@),
{
    a.id == b.id
}

/// Two strings are equal exactly when their character sequences are.
pub fn str_equal(a: &str, b: &str) -> (r: bool)
    ensures
        r == (a@ == b@),
{
    a.to_owned() == b.to_owned()
}

} // verus!
