//! Parsing of symbol selector strings such as `pkg:alice.age` into a
//! selector specification.

use vstd::prelude::*;

verus! {

/// The index of the first `:` in `s`, or `-1` when there is none.
pub open spec fn first_colon(s: Seq<char>) -> int
    decreases s.len(),
{
    if s.len() == 0 {
        -1
    } else if s[0] == ':' {
        0
    } else {
        let r = first_colon(s.drop_first());
        if r < 0 {
            -1
        } else {
            r + 1
        }
    }
}

pub proof fn lemma_first_colon(s: Seq<char>)
    ensures
        first_colon(s) >= 0 ==> 0 <= first_colon(s) < s.len() && s[first_colon(s)] == ':'
            && forall|j: int| 0 <= j < first_colon(s) ==> s[j] != ':',
        first_colon(s) < 0 ==> forall|j: int| 0 <= j < s.len() ==> s[j] != ':',
    decreases s.len(),
{
    if s.len() > 0 && s[0] != ':' {
        let t = s.drop_first();
        lemma_first_colon(t);
        let r = first_colon(t);
        if r >= 0 {
            assert(first_colon(s) == r + 1);
            assert(s[r + 1] == t[r]);
            assert forall|j: int| 0 <= j < r + 1 implies s[j] != ':' by {
                if j > 0 {
                    assert(s[j] == t[j - 1]);
                }
            }
        } else {
            assert forall|j: int| 0 <= j < s.len() implies s[j] != ':' by {
                if j > 0 {
                    assert(s[j] == t[j - 1]);
                }
            }
        }
    }
}

/// The package path part of a selector: what stands before the first `:`,
/// empty when there is none.
pub open spec fn spec_pkgpath(s: Seq<char>) -> Seq<char> {
    if first_colon(s) < 0 {
        Seq::empty()
    } else {
        s.subrange(0, first_colon(s))
    }
}

/// The field path part of a selector: what stands after the first `:`, or
/// the whole string when there is none.
pub open spec fn spec_field_path(s: Seq<char>) -> Seq<char> {
    if first_colon(s) < 0 {
        s
    } else {
        s.subrange(first_colon(s) + 1, s.len() as int)
    }
}

/// A selector string is invalid exactly when its field path is empty.
pub open spec fn spec_selector_invalid(s: Seq<char>) -> bool {
    spec_field_path(s).len() == 0
}

/// The error returned for an invalid selector string; it keeps the string.
#[derive(Debug)]
pub struct SelectorError {
    pub symbol_path: String,
}

impl SelectorError {
    /// The error text shown to a caller.
    pub fn message(&self) -> (r: String)
        ensures
            r@ == "invalid symbol selector spec "@ + self.symbol_path@,
    {
        let m = String::from_str("invalid symbol selector spec ");
        m.concat(self.symbol_path.as_str())
    }
}

/// A parsed symbol selector: where to look (package root and package path)
/// and the dotted field path to select, with optional source code overrides.
#[derive(Debug)]
pub struct SymbolSelectorSpec {
    pub pkg_root: String,
    pub pkgpath: String,
    pub field_path: String,
    pub source_codes: Option<Vec<String>>,
}

/// Split a selector string at its first `:` into package path and field
/// path.  Fails exactly when the field path would be empty.
pub fn split_field_path(symbol_path: &str) -> (r: Result<(String, String), SelectorError>)
    ensures
        match r {
            Ok((p, f)) => !spec_selector_invalid(symbol_path@) && p@ == spec_pkgpath(symbol_path@)
                && f@ == spec_field_path(symbol_path@),
            Err(e) => spec_selector_invalid(symbol_path@) && e.symbol_path@ == symbol_path@,
        },
{
    proof {
        lemma_first_colon(symbol_path@);
    }
    let n = symbol_path.unicode_len();
    let mut i: usize = 0;
    let mut colon: Option<usize> = None;
    while i < n
        invariant
            n == symbol_path@.len(),
            i <= n,
            match colon {
                None => forall|j: int| 0 <= j < i ==> symbol_path@[j] != ':',
                Some(c) => c < i && symbol_path@[c as int] == ':' && forall|j: int|
                    0 <= j < c ==> symbol_path@[j] != ':',
            },
        decreases n - i,
    {
        if colon.is_none() && symbol_path.get_char(i) == ':' {
            colon = Some(i);
        }
        i = i + 1;
    }
    proof {
        lemma_first_colon(symbol_path@);
    }
    match colon {
        Some(c) => {
            proof {
                assert(symbol_path@[c as int] == ':');
                assert(first_colon(symbol_path@) == c);
            }
            let pkgpath = String::from_str(symbol_path.substring_char(0, c));
            let field_path = String::from_str(symbol_path.substring_char(c + 1, n));
            if field_path.as_str().unicode_len() == 0 {
                Err(SelectorError { symbol_path: String::from_str(symbol_path) })
            } else {
                Ok((pkgpath, field_path))
            }
        },
        None => {
            proof {
                assert(first_colon(symbol_path@) < 0);
            }
            let field_path = String::from_str(symbol_path);
            if field_path.as_str().unicode_len() == 0 {
                Err(SelectorError { symbol_path: String::from_str(symbol_path) })
            } else {
                Ok((String::new(), field_path))
            }
        },
    }
}

/// Parse a symbol selector string to a symbol selector spec.  The package
/// root is carried over as given; empty source code lists become `None`.
pub fn parse_symbol_selector_spec(
    pkg_root: &str,
    symbol_path: &str,
    source_codes: Vec<String>,
) -> (r: Result<SymbolSelectorSpec, SelectorError>)
    ensures
        match r {
            Ok(spec) => !spec_selector_invalid(symbol_path@) && spec.pkg_root@ == pkg_root@
                && spec.pkgpath@ == spec_pkgpath(symbol_path@) && spec.field_path@
                == spec_field_path(symbol_path@) && (match spec.source_codes {
                Some(v) => v@.len() > 0 && v@ == source_codes@,
                None => source_codes@.len() == 0,
            }),
            Err(e) => spec_selector_invalid(symbol_path@) && e.symbol_path@ == symbol_path@,
        },
{
    match split_field_path(symbol_path) {
        Ok((pkgpath, field_path)) => Ok(
            SymbolSelectorSpec {
                pkg_root: String::from_str(pkg_root),
                pkgpath,
                field_path,
                source_codes: if source_codes.len() == 0 {
                    None
                } else {
                    Some(source_codes)
                },
            },
        ),
        Err(e) => Err(e),
    }
}

} // verus!
