//! Module identifiers: absolute, scheme-qualified URI text.
use vstd::prelude::*;
use vstd::string::*;
use crate::text::{find_char, find_first};

verus! {

pub open spec fn is_ascii_lower(c: char) -> bool {
    'a' <= c && c <= 'z'
}

pub open spec fn is_scheme_char(c: char) -> bool {
    is_ascii_lower(c) || ('0' <= c && c <= '9') || c == '+' || c == '-' || c == '.'
}

/// `s` starts with a lower-case scheme (a letter, then letters, digits, `+`,
/// `-` or `.`) closed by the first `:`.
pub open spec fn has_scheme(s: Seq<char>) -> bool {
    match find_first(s, ':') {
        Some(i) => i > 0 && is_ascii_lower(s[0]) && forall|j: int|
            1 <= j < i ==> is_scheme_char(#[trigger] s[j]),
        None => false,
    }
}

/// The text before the first `:`.
pub open spec fn scheme_of(s: Seq<char>) -> Seq<char> {
    match find_first(s, ':') {
        Some(i) => s.subrange(0, i),
        None => s,
    }
}

pub open spec fn npm_scheme() -> Seq<char> {
    seq!['n', 'p', 'm']
}

/// The identifier names a package of the npm registry.
pub open spec fn is_npm_specifier(s: Seq<char>) -> bool {
    scheme_of(s) == npm_scheme()
}

/// The serialization of `s` parsed as an absolute URL, or `None` when it
/// does not parse.
pub uninterp spec fn parsed_url(s: Seq<char>) -> Option<Seq<char>>;

/// Relies on url::Url::parse and Url::as_str: the serialization of the
/// parsed URL, which starts with the scheme, lower-cased, and the `:` after
/// it.
#[verifier::external_body]
fn parse_url(text: &str) -> (r: Option<String>)
    ensures
        r matches Some(u) ==> parsed_url(text@) == Some(u@) && has_scheme(u@),
        r is None ==> parsed_url(text@) is None,
{
    match url::Url::parse(text) {
        Ok(u) => Some(u.as_str().to_string()),
        Err(_) => None,
    }
}

/// An absolute, scheme-qualified module identifier. Two identifiers are the
/// same module exactly when their texts are equal.
pub struct ModuleSpecifier {
    text: String,
}

impl View for ModuleSpecifier {
    type V = Seq<char>;

    closed spec fn view(&self) -> Seq<char> {
        self.text@
    }
}

impl ModuleSpecifier {
    /// Parses `text` as an absolute URL and keeps its serialization.
    pub fn parse(text: &str) -> (r: Option<ModuleSpecifier>)
        ensures
            r is Some <==> parsed_url(text@) is Some,
            r matches Some(m) ==> parsed_url(text@) == Some(m@) && has_scheme(m@),
    {
        match parse_url(text) {
            Some(serialized) => Some(ModuleSpecifier { text: serialized }),
            None => None,
        }
    }

    pub fn as_str(&self) -> (r: &str)
        ensures
            r@ == self@,
    {
        self.text.as_str()
    }

    /// A second identifier with the same text.
    pub fn duplicate(&self) -> (r: ModuleSpecifier)
        ensures
            r@ == self@,
    {
        ModuleSpecifier { text: self.text.clone() }
    }

    pub fn same_as(&self, other: &ModuleSpecifier) -> (r: bool)
        ensures
            r == (self@ == other@),
    {
        self.text == other.text
    }

    /// The identifier's scheme is `npm`.
    pub fn is_npm(&self) -> (r: bool)
        ensures
            r == is_npm_specifier(self@),
    {
        let s = self.text.as_str();
        let n = s.unicode_len();
        proof {
            assert(s@.subrange(0, n as int) =~= s@);
            reveal_strlit("npm");
        }
        let end: usize = match find_char(s, ':', 0, n) {
            None => n,
            Some(i) => i,
        };
        let ghost sch = scheme_of(s@);
        proof {
            assert(sch =~= s@.subrange(0, end as int));
        }
        if end != 3 {
            proof {
                assert(sch.len() != npm_scheme().len());
            }
            return false;
        }
        let r = s.get_char(0) == 'n' && s.get_char(1) == 'p' && s.get_char(2) == 'm';
        proof {
            if r {
                assert(sch =~= npm_scheme());
            } else {
                assert(sch[0] != npm_scheme()[0] || sch[1] != npm_scheme()[1] || sch[2] != npm_scheme()[2]);
            }
        }
        r
    }
}

} // verus!
