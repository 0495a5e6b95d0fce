//! Structural parsing of npm package references:
//! `npm:` [`/`] name [`@` version] [`/` sub-path], where a scoped name is
//! `@scope/name`.
use vstd::prelude::*;
use vstd::string::*;
use crate::text::{contains_char, find_char, find_first, find_last, rfind_char};
use crate::specifier::{npm_scheme, ModuleSpecifier};

verus! {

/// Why a reference is malformed.
#[derive(PartialEq, Eq, Structural, Clone, Copy, Debug)]
pub enum NpmReferenceError {
    /// The text does not start with `npm:`.
    NotNpmSpecifier,
    /// A scoped name (`@scope`) without the `/name` that completes it.
    InvalidPackage,
    /// An `@` with no version after it.
    EmptyVersion,
    /// An `@` in the sub-path: the version was written after the sub-path.
    VersionInSubPath,
    /// No package name.
    MissingName,
}

/// What a well-formed reference names.
pub struct NpmRefModel {
    pub name: Seq<char>,
    pub version: Option<Seq<char>>,
    pub sub_path: Option<Seq<char>>,
}

pub open spec fn starts_with_npm(s: Seq<char>) -> bool {
    s.len() >= 4 && s.subrange(0, 4) == npm_scheme().push(':')
}

/// The text after `npm:`, without one leading `/`.
pub open spec fn npm_body(s: Seq<char>) -> Seq<char> {
    let r = s.subrange(4, s.len() as int);
    if r.len() > 0 && r[0] == '/' {
        r.subrange(1, r.len() as int)
    } else {
        r
    }
}

/// Parses `rest`, the text after the scope prefix `scope` (`@scope/`, or empty
/// for an unscoped name).
pub open spec fn parse_named(scope: Seq<char>, rest: Seq<char>) -> Result<NpmRefModel, NpmReferenceError> {
    let seg = match find_first(rest, '/') {
        Some(j) => rest.subrange(0, j),
        None => rest,
    };
    let sub = match find_first(rest, '/') {
        Some(j) => if j + 1 < rest.len() {
            Some(rest.subrange(j + 1, rest.len() as int))
        } else {
            None
        },
        None => None,
    };
    let pkg = match find_last(seg, '@') {
        Some(k) => seg.subrange(0, k),
        None => seg,
    };
    let version = match find_last(seg, '@') {
        Some(k) => Some(seg.subrange(k + 1, seg.len() as int)),
        None => None,
    };
    if version matches Some(v) && v.len() == 0 {
        Err(NpmReferenceError::EmptyVersion)
    } else if sub matches Some(p) && contains_char(p, '@') {
        Err(NpmReferenceError::VersionInSubPath)
    } else if pkg.len() == 0 {
        Err(NpmReferenceError::MissingName)
    } else {
        Ok(NpmRefModel { name: scope + pkg, version, sub_path: sub })
    }
}

/// The structural reading of an npm reference.
pub open spec fn parse_npm_reference(s: Seq<char>) -> Result<NpmRefModel, NpmReferenceError> {
    if !starts_with_npm(s) {
        Err(NpmReferenceError::NotNpmSpecifier)
    } else {
        let b = npm_body(s);
        if b.len() > 0 && b[0] == '@' {
            match find_first(b, '/') {
                Some(i) => parse_named(b.subrange(0, i + 1), b.subrange(i + 1, b.len() as int)),
                None => Err(NpmReferenceError::InvalidPackage),
            }
        } else {
            parse_named(Seq::empty(), b)
        }
    }
}

/// A parsed reference to a package of the npm registry.
pub struct NpmPackageReference {
    pub name: String,
    pub version: Option<String>,
    pub sub_path: Option<String>,
}

pub open spec fn opt_str_view(o: Option<String>) -> Option<Seq<char>> {
    match o {
        Some(s) => Some(s@),
        None => None,
    }
}

impl View for NpmPackageReference {
    type V = NpmRefModel;

    open spec fn view(&self) -> NpmRefModel {
        NpmRefModel {
            name: self.name@,
            version: opt_str_view(self.version),
            sub_path: opt_str_view(self.sub_path),
        }
    }
}

pub open spec fn opt_ref_view(r: Result<NpmPackageReference, NpmReferenceError>) -> Result<NpmRefModel, NpmReferenceError> {
    match r {
        Ok(p) => Ok(p@),
        Err(e) => Err(e),
    }
}

fn slice_owned(s: &str, from: usize, to: usize) -> (r: String)
    requires
        from <= to <= s@.len(),
    ensures
        r@ == s@.subrange(from as int, to as int),
{
    s.substring_char(from, to).to_owned()
}

/// Reads `s[rest_start..]` as a name segment with optional version and
/// sub-path; `base` is where the name (with its scope) starts.
fn parse_named_at(s: &str, base: usize, rest_start: usize) -> (r: Result<NpmPackageReference, NpmReferenceError>)
    requires
        base <= rest_start <= s@.len(),
    ensures
        opt_ref_view(r) == parse_named(
            s@.subrange(base as int, rest_start as int),
            s@.subrange(rest_start as int, s@.len() as int),
        ),
{
    let n = s.unicode_len();
    let ghost rest = s@.subrange(rest_start as int, n as int);
    let ghost scope = s@.subrange(base as int, rest_start as int);
    let slash = find_char(s, '/', rest_start, n);
    let seg_end: usize = match slash {
        Some(j) => rest_start + j,
        None => n,
    };
    let ghost seg = s@.subrange(rest_start as int, seg_end as int);
    proof {
        match slash {
            Some(j) => {
                assert(rest.subrange(0, j as int) =~= seg);
            },
            None => {
                assert(rest =~= seg);
            },
        }
    }
    let at = rfind_char(s, '@', rest_start, seg_end);
    let pkg_end: usize = match at {
        Some(k) => rest_start + k,
        None => seg_end,
    };
    let version: Option<String> = match at {
        Some(k) => Some(slice_owned(s, pkg_end + 1, seg_end)),
        None => None,
    };
    let sub_path: Option<String> = match slash {
        Some(j) => if seg_end + 1 < n {
            Some(slice_owned(s, seg_end + 1, n))
        } else {
            None
        },
        None => None,
    };
    proof {
        if let Some(k) = at {
            assert(seg.subrange(k + 1, seg.len() as int) =~= s@.subrange(pkg_end + 1, seg_end as int));
            assert(seg.subrange(0, k as int) =~= s@.subrange(rest_start as int, pkg_end as int));
        }
        if let Some(j) = slash {
            if seg_end + 1 < n {
                assert(rest.subrange(j + 1, rest.len() as int) =~= s@.subrange(seg_end + 1, n as int));
            }
        }
        assert(scope + s@.subrange(rest_start as int, pkg_end as int) =~= s@.subrange(base as int, pkg_end as int));
    }
    if let Some(v) = &version {
        if v.unicode_len() == 0 {
            return Err(NpmReferenceError::EmptyVersion);
        }
    }
    if let Some(p) = &sub_path {
        let pn = p.unicode_len();
        let found = find_char(p.as_str(), '@', 0, pn);
        proof {
            assert(p@.subrange(0, pn as int) =~= p@);
        }
        if found.is_some() {
            return Err(NpmReferenceError::VersionInSubPath);
        }
    }
    if pkg_end == rest_start {
        return Err(NpmReferenceError::MissingName);
    }
    Ok(NpmPackageReference { name: slice_owned(s, base, pkg_end), version, sub_path })
}

impl NpmPackageReference {
    /// Reads `text` as an npm package reference, without any I/O.
    pub fn from_str(text: &str) -> (r: Result<NpmPackageReference, NpmReferenceError>)
        ensures
            opt_ref_view(r) == parse_npm_reference(text@),
    {
        let n = text.unicode_len();
        proof {
            reveal_strlit("npm");
        }
        if n < 4 || text.get_char(0) != 'n' || text.get_char(1) != 'p' || text.get_char(2) != 'm'
            || text.get_char(3) != ':' {
            proof {
                if n >= 4 {
                    assert(text@.subrange(0, 4)[0] == text@[0]);
                    assert(text@.subrange(0, 4)[1] == text@[1]);
                    assert(text@.subrange(0, 4)[2] == text@[2]);
                    assert(text@.subrange(0, 4)[3] == text@[3]);
                }
            }
            return Err(NpmReferenceError::NotNpmSpecifier);
        }
        proof {
            assert(text@.subrange(0, 4) =~= npm_scheme().push(':'));
        }
        let base: usize = if n > 4 && text.get_char(4) == '/' {
            5
        } else {
            4
        };
        let ghost b = npm_body(text@);
        proof {
            assert(b =~= text@.subrange(base as int, n as int));
        }
        if base < n && text.get_char(base) == '@' {
            match find_char(text, '/', base, n) {
                None => Err(NpmReferenceError::InvalidPackage),
                Some(i) => {
                    proof {
                        assert(b.subrange(0, i + 1) =~= text@.subrange(base as int, base + i + 1));
                        assert(b.subrange(i + 1, b.len() as int) =~= text@.subrange(base + i + 1, n as int));
                    }
                    parse_named_at(text, base, base + i + 1)
                },
            }
        } else {
            proof {
                assert(text@.subrange(base as int, base as int) =~= Seq::<char>::empty());
            }
            parse_named_at(text, base, base)
        }
    }

    /// Reads the identifier as an npm package reference.
    pub fn from_specifier(specifier: &ModuleSpecifier) -> (r: Result<NpmPackageReference, NpmReferenceError>)
        ensures
            opt_ref_view(r) == parse_npm_reference(specifier@),
    {
        NpmPackageReference::from_str(specifier.as_str())
    }
}

} // verus!
