//! Identifiers: the names of modules, structs and fields.

use vstd::prelude::*;
use vstd::string::StrSliceExecFns;

verus! {

/// Whether `c` may stand in an identifier: a letter of the Latin alphabet, a
/// digit or an underscore.
pub open spec fn is_identifier_char(c: char) -> bool {
    ||| c == '_'
    ||| 'a' <= c <= 'z'
    ||| 'A' <= c <= 'Z'
    ||| '0' <= c <= '9'
}

/// Whether `s` is an identifier: it starts with a letter, or with an
/// underscore that something follows, and holds identifier characters only.
pub open spec fn is_identifier(s: Seq<char>) -> bool {
    &&& s.len() > 0
    &&& ('a' <= s[0] <= 'z' || 'A' <= s[0] <= 'Z' || (s[0] == '_' && s.len() > 1))
    &&& forall|i: int| 0 <= i < s.len() ==> is_identifier_char(#[trigger] s[i])
}

/// A validated name. Its view is the sequence of its characters.
#[derive(Debug, PartialEq, Eq, Hash)]
pub struct Identifier {
    name: String,
}

impl Identifier {
    /// An identifier is spelled as one.
    #[verifier::type_invariant]
    spec fn well_formed(self) -> bool {
        is_identifier(self.name@)
    }
}

impl View for Identifier {
    type V = Seq<char>;

    closed spec fn view(&self) -> Seq<char> {
        self.name@
    }
}

impl Clone for Identifier {
    fn clone(&self) -> (r: Identifier)
        ensures
            r@ == self@,
    {
        proof {
            use_type_invariant(self);
        }
        Identifier { name: self.name.clone() }
    }
}

/// Whether `c` may stand in an identifier.
pub fn identifier_char(c: char) -> (r: bool)
    ensures
        r == is_identifier_char(c),
{
    c == '_' || ('a' <= c && c <= 'z') || ('A' <= c && c <= 'Z') || ('0' <= c && c <= '9')
}

/// Whether `s` is an identifier.
pub fn is_valid(s: &str) -> (r: bool)
    ensures
        r == is_identifier(s@),
{
    let n = s.unicode_len();
    if n == 0 {
        return false;
    }
    let first = s.get_char(0);
    let letter = ('a' <= first && first <= 'z') || ('A' <= first && first <= 'Z');
    if !(letter || (first == '_' && n > 1)) {
        return false;
    }
    let mut i: usize = 0;
    while i < n
        invariant
            i <= n,
            n == s@.len(),
            forall|j: int| 0 <= j < i ==> is_identifier_char(#[trigger] s@[j]),
        decreases n - i,
    {
        if !identifier_char(s.get_char(i)) {
            return false;
        }
        i += 1;
    }
    true
}

impl Identifier {
    /// The identifier spelled `s`, if `s` is one.
    pub fn new(s: String) -> (r: Option<Identifier>)
        ensures
            r is Some <==> is_identifier(s@),
            r is Some ==> r->Some_0@ == s@,
    {
        if is_valid(s.as_str()) {
            Some(Identifier { name: s })
        } else {
            None
        }
    }

    /// The characters of this identifier, which spell an identifier.
    pub fn as_str(&self) -> (r: &str)
        ensures
            r@ == self@,
            is_identifier(r@),
    {
        proof {
            use_type_invariant(self);
        }
        self.name.as_str()
    }

    /// The characters of this identifier, in a string of their own.
    pub fn to_string(&self) -> (r: String)
        ensures
            r@ == self@,
    {
        self.name.clone()
    }

    /// The characters of this identifier.
    pub fn into_string(self) -> (r: String)
        ensures
            r@ == self@,
            is_identifier(r@),
    {
        proof {
            use_type_invariant(&self);
        }
        self.name
    }
}

} // verus!
