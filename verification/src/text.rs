//! Text utilities the core needs: whitespace trimming, splitting captured
//! output into lines, and rendering counts as decimal strings for user
//! messages.

use vstd::prelude::*;

verus! {

/// The whitespace characters that trimming removes: the Unicode White_Space
/// set, as `char::is_whitespace` defines it.
pub open spec fn is_space_char(c: char) -> bool {
    ||| c == ' '
    ||| c == '\t'
    ||| c == '\n'
    ||| c == '\r'
    ||| c == '\u{b}'
    ||| c == '\u{c}'
    ||| c == '\u{85}'
    ||| c == '\u{a0}'
    ||| c == '\u{1680}'
    ||| ('\u{2000}' <= c && c <= '\u{200a}')
    ||| c == '\u{2028}'
    ||| c == '\u{2029}'
    ||| c == '\u{202f}'
    ||| c == '\u{205f}'
    ||| c == '\u{3000}'
}

fn is_space(c: char) -> (r: bool)
    ensures
        r == is_space_char(c),
{
    c == ' ' || c == '\t' || c == '\n' || c == '\r' || c == '\u{b}' || c == '\u{c}'
        || c == '\u{85}' || c == '\u{a0}' || c == '\u{1680}'
        || ('\u{2000}' <= c && c <= '\u{200a}') || c == '\u{2028}' || c == '\u{2029}'
        || c == '\u{202f}' || c == '\u{205f}' || c == '\u{3000}'
}

pub open spec fn trim_front(s: Seq<char>) -> Seq<char>
    decreases s.len(),
{
    if s.len() > 0 && is_space_char(s[0]) {
        trim_front(s.drop_first())
    } else {
        s
    }
}

pub open spec fn trim_back(s: Seq<char>) -> Seq<char>
    decreases s.len(),
{
    if s.len() > 0 && is_space_char(s.last()) {
        trim_back(s.drop_last())
    } else {
        s
    }
}

/// The text with leading and trailing whitespace removed.
pub open spec fn trimmed(s: Seq<char>) -> Seq<char> {
    trim_back(trim_front(s))
}

proof fn lemma_trim_front_skip(s: Seq<char>, i: int)
    requires
        0 <= i <= s.len(),
        forall|k: int| 0 <= k < i ==> is_space_char(s[k]),
        i < s.len() ==> !is_space_char(s[i]),
    ensures
        trim_front(s) == s.subrange(i, s.len() as int),
    decreases i,
{
    if i == 0 {
        assert(s.subrange(0, s.len() as int) =~= s);
    } else {
        let t = s.drop_first();
        lemma_trim_front_skip(t, i - 1);
        assert(t.subrange(i - 1, t.len() as int) =~= s.subrange(i, s.len() as int));
    }
}

proof fn lemma_trim_back_skip(s: Seq<char>, j: int)
    requires
        0 <= j <= s.len(),
        forall|k: int| j <= k < s.len() ==> is_space_char(s[k]),
        j > 0 ==> !is_space_char(s[j - 1]),
    ensures
        trim_back(s) == s.subrange(0, j),
    decreases s.len() - j,
{
    if j == s.len() {
        assert(s.subrange(0, s.len() as int) =~= s);
    } else {
        let t = s.drop_last();
        lemma_trim_back_skip(t, j);
        assert(t.subrange(0, j) =~= s.subrange(0, j));
    }
}

/// Remove leading and trailing whitespace from `s`.
pub fn trim_str(s: &str) -> (r: String)
    ensures
        r@ == trimmed(s@),
{
    let n = s.unicode_len();
    let mut i: usize = 0;
    while i < n && is_space(s.get_char(i))
        invariant
            0 <= i <= n,
            n == s@.len(),
            forall|k: int| 0 <= k < i ==> is_space_char(s@[k]),
        decreases n - i,
    {
        i = i + 1;
    }
    let mut j: usize = n;
    while j > i && is_space(s.get_char(j - 1))
        invariant
            i <= j <= n,
            n == s@.len(),
            forall|k: int| 0 <= k < i ==> is_space_char(s@[k]),
            forall|k: int| j <= k < n ==> is_space_char(s@[k]),
        decreases j,
    {
        j = j - 1;
    }
    proof {
        lemma_trim_front_skip(s@, i as int);
        let t = s@.subrange(i as int, n as int);
        lemma_trim_back_skip(t, j - i);
        assert(t.subrange(0, j - i) =~= s@.subrange(i as int, j as int));
    }
    s.substring_char(i, j).to_owned()
}

/// Whether the text holds a newline character.
pub open spec fn has_nl(s: Seq<char>) -> bool {
    exists|k: int| 0 <= k < s.len() && s[k] == '\n'
}

/// Index of the first newline character.
pub open spec fn first_nl(s: Seq<char>) -> int
    decreases s.len(),
{
    if s.len() == 0 {
        0
    } else if s[0] == '\n' {
        0
    } else {
        1 + first_nl(s.drop_first())
    }
}

proof fn lemma_first_nl_bounds(s: Seq<char>)
    requires
        has_nl(s),
    ensures
        0 <= first_nl(s) < s.len(),
        s[first_nl(s)] == '\n',
    decreases s.len(),
{
    if s.len() > 0 && s[0] != '\n' {
        let t = s.drop_first();
        let w = choose|k: int| 0 <= k < s.len() && s[k] == '\n';
        assert(t[w - 1] == '\n');
        lemma_first_nl_bounds(t);
    }
}

proof fn lemma_first_nl(s: Seq<char>, k: int)
    requires
        0 <= k < s.len(),
        s[k] == '\n',
        forall|m: int| 0 <= m < k ==> s[m] != '\n',
    ensures
        first_nl(s) == k,
        has_nl(s),
    decreases k,
{
    if k > 0 {
        let t = s.drop_first();
        lemma_first_nl(t, k - 1);
    }
}

/// A line with a trailing carriage return removed: the piece before a
/// newline loses it, so that `\r\n` ends a line like `\n` does.
pub open spec fn strip_cr(s: Seq<char>) -> Seq<char> {
    if s.len() > 0 && s.last() == '\r' {
        s.drop_last()
    } else {
        s
    }
}

/// The lines of the text: pieces between line endings, where an ending is a
/// newline or a carriage return followed by one; a trailing ending does not
/// open an empty final line, empty text has no lines, and a final line
/// without an ending keeps a lone trailing carriage return.
pub open spec fn lines_of(s: Seq<char>) -> Seq<Seq<char>>
    decreases s.len(),
    via lines_of_decreases
{
    if s.len() == 0 {
        Seq::empty()
    } else if has_nl(s) {
        seq![strip_cr(s.subrange(0, first_nl(s)))] + lines_of(
            s.subrange(first_nl(s) + 1, s.len() as int),
        )
    } else {
        seq![s]
    }
}

#[via_fn]
proof fn lines_of_decreases(s: Seq<char>) {
    if s.len() != 0 && has_nl(s) {
        lemma_first_nl_bounds(s);
    }
}

/// Split the text into its lines.
pub fn split_lines(s: &str) -> (r: Vec<String>)
    ensures
        r@.len() == lines_of(s@).len(),
        forall|k: int| 0 <= k < r@.len() ==> r@[k]@ == lines_of(s@)[k],
    decreases s@.len(),
{
    let n = s.unicode_len();
    let mut k: usize = 0;
    while k < n && s.get_char(k) != '\n'
        invariant
            0 <= k <= n,
            n == s@.len(),
            forall|m: int| 0 <= m < k ==> s@[m] != '\n',
        decreases n - k,
    {
        k = k + 1;
    }
    let mut r: Vec<String> = Vec::new();
    if k == n {
        // no newline in the text
        proof {
            assert(!has_nl(s@));
        }
        if n == 0 {
            return r;
        }
        let line = s.to_owned();
        r.push(line);
        r
    } else {
        proof {
            lemma_first_nl(s@, k as int);
        }
        let end = if k > 0 && s.get_char(k - 1) == '\r' {
            k - 1
        } else {
            k
        };
        let line = s.substring_char(0, end).to_owned();
        proof {
            let head = s@.subrange(0, k as int);
            if k > 0 && s@[k - 1] == '\r' {
                assert(head.drop_last() =~= s@.subrange(0, k - 1));
                assert(line@ == strip_cr(head));
            } else {
                assert(line@ == strip_cr(head));
            }
        }
        let rest = s.substring_char(k + 1, n);
        let mut tail = split_lines(rest);
        r.push(line);
        r.append(&mut tail);
        proof {
            let ls = lines_of(s@);
            assert(ls == seq![strip_cr(s@.subrange(0, k as int))] + lines_of(
                s@.subrange(k + 1, n as int),
            ));
            assert(forall|m: int| 0 <= m < r@.len() ==> r@[m]@ == ls[m]);
        }
        r
    }
}

/// The decimal digit character for a value below ten.
pub open spec fn dec_digit(d: nat) -> char {
    if d == 0 {
        '0'
    } else if d == 1 {
        '1'
    } else if d == 2 {
        '2'
    } else if d == 3 {
        '3'
    } else if d == 4 {
        '4'
    } else if d == 5 {
        '5'
    } else if d == 6 {
        '6'
    } else if d == 7 {
        '7'
    } else if d == 8 {
        '8'
    } else {
        '9'
    }
}

/// The decimal rendering of a number, most significant digit first.
pub open spec fn dec_str(n: nat) -> Seq<char>
    decreases n,
{
    if n < 10 {
        seq![dec_digit(n)]
    } else {
        dec_str(n / 10) + seq![dec_digit(n % 10)]
    }
}

fn dec_digit_str(d: u64) -> (r: &'static str)
    requires
        d < 10,
    ensures
        r@ == seq![dec_digit(d as nat)],
{
    proof {
        reveal_strlit("0");
        reveal_strlit("1");
        reveal_strlit("2");
        reveal_strlit("3");
        reveal_strlit("4");
        reveal_strlit("5");
        reveal_strlit("6");
        reveal_strlit("7");
        reveal_strlit("8");
        reveal_strlit("9");
    }
    let r: &'static str = if d == 0 {
        "0"
    } else if d == 1 {
        "1"
    } else if d == 2 {
        "2"
    } else if d == 3 {
        "3"
    } else if d == 4 {
        "4"
    } else if d == 5 {
        "5"
    } else if d == 6 {
        "6"
    } else if d == 7 {
        "7"
    } else if d == 8 {
        "8"
    } else {
        "9"
    };
    proof {
        assert(r@ =~= seq![dec_digit(d as nat)]);
    }
    r
}

/// Render a number in decimal.
pub fn u64_to_string(n: u64) -> (r: String)
    ensures
        r@ == dec_str(n as nat),
    decreases n,
{
    if n < 10 {
        dec_digit_str(n).to_owned()
    } else {
        let mut r = u64_to_string(n / 10);
        r.append(dec_digit_str(n % 10));
        r
    }
}

} // verus!
