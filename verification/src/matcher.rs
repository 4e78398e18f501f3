//! The pattern matcher: no pattern, a literal substring (optionally case
//! insensitive), a glob, or a regular expression. Glob and regular-expression
//! matching call outside crates; literal matching is implemented here.

use vstd::prelude::*;

verus! {

/// ASCII lowercase folding of one character.
pub open spec fn to_lower_char(c: char) -> char {
    match c {
        'A' => 'a',
        'B' => 'b',
        'C' => 'c',
        'D' => 'd',
        'E' => 'e',
        'F' => 'f',
        'G' => 'g',
        'H' => 'h',
        'I' => 'i',
        'J' => 'j',
        'K' => 'k',
        'L' => 'l',
        'M' => 'm',
        'N' => 'n',
        'O' => 'o',
        'P' => 'p',
        'Q' => 'q',
        'R' => 'r',
        'S' => 's',
        'T' => 't',
        'U' => 'u',
        'V' => 'v',
        'W' => 'w',
        'X' => 'x',
        'Y' => 'y',
        'Z' => 'z',
        _ => c,
    }
}

fn lower_char(c: char) -> (r: char)
    ensures
        r == to_lower_char(c),
{
    match c {
        'A' => 'a',
        'B' => 'b',
        'C' => 'c',
        'D' => 'd',
        'E' => 'e',
        'F' => 'f',
        'G' => 'g',
        'H' => 'h',
        'I' => 'i',
        'J' => 'j',
        'K' => 'k',
        'L' => 'l',
        'M' => 'm',
        'N' => 'n',
        'O' => 'o',
        'P' => 'p',
        'Q' => 'q',
        'R' => 'r',
        'S' => 's',
        'T' => 't',
        'U' => 'u',
        'V' => 'v',
        'W' => 'w',
        'X' => 'x',
        'Y' => 'y',
        'Z' => 'z',
        _ => c,
    }
}

/// ASCII lowercase folding of a text.
pub open spec fn lower_seq(s: Seq<char>) -> Seq<char> {
    s.map_values(|c: char| to_lower_char(c))
}

/// Folding applied only when the match is case insensitive.
pub open spec fn folded(s: Seq<char>, case_sensitive: bool) -> Seq<char> {
    if case_sensitive {
        s
    } else {
        lower_seq(s)
    }
}

/// Whether `needle` occurs as a contiguous piece of `hay`.
pub open spec fn contains_sub(hay: Seq<char>, needle: Seq<char>) -> bool {
    exists|i: int|
        0 <= i <= hay.len() - needle.len() && #[trigger] hay.subrange(i, i + needle.len() as int)
            == needle
}

fn chars_match(a: char, b: char, case_sensitive: bool) -> (r: bool)
    ensures
        r == (if case_sensitive {
            a == b
        } else {
            to_lower_char(a) == to_lower_char(b)
        }),
{
    if case_sensitive {
        a == b
    } else {
        lower_char(a) == lower_char(b)
    }
}

/// Whether `needle` occurs inside `hay`, folding case when asked to.
pub fn str_contains(hay: &str, needle: &str, case_sensitive: bool) -> (r: bool)
    ensures
        r == contains_sub(folded(hay@, case_sensitive), folded(needle@, case_sensitive)),
{
    let h = hay.unicode_len();
    let n = needle.unicode_len();
    let ghost fh = folded(hay@, case_sensitive);
    let ghost fn_ = folded(needle@, case_sensitive);
    if n > h {
        proof {
            assert(!contains_sub(fh, fn_));
        }
        return false;
    }
    if n == 0 {
        proof {
            assert(fh.subrange(0, 0 + fn_.len() as int) =~= fn_);
        }
        return true;
    }
    let mut i: usize = 0;
    while i <= h - n
        invariant
            1 <= n <= h,
            h == hay@.len(),
            n == needle@.len(),
            fh == folded(hay@, case_sensitive),
            fn_ == folded(needle@, case_sensitive),
            fh.len() == h,
            fn_.len() == n,
            0 <= i <= h - n + 1,
            forall|p: int| 0 <= p < i ==> #[trigger] fh.subrange(p, p + n as int) != fn_,
        decreases h + 1 - i,
    {
        let mut j: usize = 0;
        let mut ok = true;
        while j < n
            invariant
                1 <= n <= h,
                i + n <= h,
                h == hay@.len(),
                n == needle@.len(),
                fh == folded(hay@, case_sensitive),
                fn_ == folded(needle@, case_sensitive),
                fh.len() == h,
                fn_.len() == n,
                0 <= j <= n,
                ok ==> forall|q: int| 0 <= q < j ==> fh[i + q] == #[trigger] fn_[q],
                !ok ==> fh.subrange(i as int, i + n as int) != fn_,
            decreases n - j,
        {
            if !chars_match(hay.get_char(i + j), needle.get_char(j), case_sensitive) {
                proof {
                    assert(fh[i + j as int] != fn_[j as int]);
                    assert(fh.subrange(i as int, i + n as int)[j as int] == fh[i + j as int]);
                }
                ok = false;
            }
            j = j + 1;
        }
        if ok {
            proof {
                assert(fh.subrange(i as int, i + n as int) =~= fn_);
            }
            return true;
        }
        i = i + 1;
    }
    proof {
        assert(forall|p: int| 0 <= p <= h - n ==> #[trigger] fh.subrange(p, p + n as int) != fn_);
    }
    false
}

/// Verdict of glob matching: `Some(m)` when the pattern compiles and `m` says
/// whether the name matches; `None` when the pattern does not compile. It
/// depends on the pattern and the name alone.
pub uninterp spec fn glob_verdict(pattern: Seq<char>, name: Seq<char>) -> Option<bool>;

/// Relies on globset's `Glob::new`, `GlobSetBuilder::build` and
/// `GlobSet::is_match`: matching a name against a glob pattern is purely a
/// function of the two texts. Building goes through `GlobSetBuilder`, whose
/// `build` reports an oversized compiled pattern as an error instead of
/// panicking, so a failure of either stage is a `None` verdict.
#[verifier::external_body]
fn glob_is_match(pattern: &str, name: &str) -> (r: Option<bool>)
    ensures
        r == glob_verdict(pattern@, name@),
{
    match globset::Glob::new(pattern) {
        Ok(g) => match globset::GlobSetBuilder::new().add(g).build() {
            Ok(set) => Some(set.is_match(name)),
            Err(_) => None,
        },
        Err(_) => None,
    }
}

/// Verdict of regular-expression matching: `Some(m)` when the pattern
/// compiles and `m` says whether the name matches; `None` when it does not
/// compile. It depends on the pattern and the name alone.
pub uninterp spec fn regex_verdict(pattern: Seq<char>, name: Seq<char>) -> Option<bool>;

/// Relies on regex's `Regex::new` and `Regex::is_match`: matching a name
/// against a pattern is purely a function of the two texts.
#[verifier::external_body]
fn regex_is_match(pattern: &str, name: &str) -> (r: Option<bool>)
    ensures
        r == regex_verdict(pattern@, name@),
{
    match regex::Regex::new(pattern) {
        Ok(re) => Some(re.is_match(name)),
        Err(_) => None,
    }
}

/// A polymorphic name matcher. `NoPattern` is never asked to match: callers
/// branch on `is_none` and take the whole-list path instead.
#[derive(Debug, Clone)]
pub enum MatchState {
    NoPattern,
    Literal { pattern: String, case_sensitive: bool },
    Glob { pattern: String },
    Regex { pattern: String },
}

impl MatchState {
    pub open spec fn spec_is_none(self) -> bool {
        self is NoPattern
    }

    /// What the matcher accepts. A glob or regular-expression pattern that
    /// does not compile accepts nothing.
    pub open spec fn spec_matches(self, name: Seq<char>) -> bool {
        match self {
            MatchState::NoPattern => true,
            MatchState::Literal { pattern, case_sensitive } => contains_sub(
                folded(name, case_sensitive),
                folded(pattern@, case_sensitive),
            ),
            MatchState::Glob { pattern } => glob_verdict(pattern@, name) == Some(true),
            MatchState::Regex { pattern } => regex_verdict(pattern@, name) == Some(true),
        }
    }

    pub fn is_none(&self) -> (r: bool)
        ensures
            r == self.spec_is_none(),
    {
        match self {
            MatchState::NoPattern => true,
            _ => false,
        }
    }

    pub fn is_match(&self, name: &str) -> (r: bool)
        ensures
            r == self.spec_matches(name@),
    {
        match self {
            MatchState::NoPattern => true,
            MatchState::Literal { pattern, case_sensitive } => str_contains(
                name,
                pattern.as_str(),
                *case_sensitive,
            ),
            MatchState::Glob { pattern } => {
                match glob_is_match(pattern.as_str(), name) {
                    Some(m) => m,
                    None => false,
                }
            },
            MatchState::Regex { pattern } => {
                match regex_is_match(pattern.as_str(), name) {
                    Some(m) => m,
                    None => false,
                }
            },
        }
    }
}

} // verus!
