//! Character-level helpers shared by the other modules.

use vstd::prelude::*;

verus! {

/// `i` is a position of `s` at which a copy of `token` begins.
pub open spec fn occurs_at(s: Seq<char>, token: Seq<char>, i: int) -> bool {
    &&& 0 <= i
    &&& i + token.len() <= s.len()
    &&& s.subrange(i, i + token.len()) == token
}

/// `token` occurs somewhere in `s`.
pub open spec fn contains_token(s: Seq<char>, token: Seq<char>) -> bool {
    exists|i: int| occurs_at(s, token, i)
}

/// `i` is the leftmost position of `s` at which `token` occurs.
pub open spec fn is_first_occurrence(s: Seq<char>, token: Seq<char>, i: int) -> bool {
    &&& occurs_at(s, token, i)
    &&& forall|j: int| 0 <= j < i ==> !occurs_at(s, token, j)
}

/// The leftmost position of `token` in `s`, if it occurs at all.
pub open spec fn first_occurrence(s: Seq<char>, token: Seq<char>) -> Option<int> {
    if contains_token(s, token) {
        Some(choose|i: int| is_first_occurrence(s, token, i))
    } else {
        None
    }
}

/// `s` with the `len` characters from `at` on replaced by `with`.
pub open spec fn splice(s: Seq<char>, at: int, len: int, with: Seq<char>) -> Seq<char> {
    s.subrange(0, at) + with + s.subrange(at + len, s.len() as int)
}

/// A leftmost occurrence is unique, so it is the one `first_occurrence` names.
pub proof fn lemma_first_occurrence_is(s: Seq<char>, token: Seq<char>, i: int)
    requires
        is_first_occurrence(s, token, i),
    ensures
        first_occurrence(s, token) == Some(i),
{
    // Two leftmost occurrences cannot differ: the later one would have the
    // earlier one before it.
    let k = choose|k: int| is_first_occurrence(s, token, k);
    assert(is_first_occurrence(s, token, k));
    assert(k == i);
}

/// The characters of `s`, in order.
pub fn chars_of(s: &str) -> (v: Vec<char>)
    ensures
        v@ == s@,
{
    let mut v: Vec<char> = Vec::new();
    for c in it: s.chars()
        invariant
            v@ == it.seq().take(it.index() as int),
            it.seq() == s@,
    {
        v.push(c);
    }
    v
}

/// Tells whether two strings hold the same characters.
pub fn text_eq(a: &str, b: &str) -> (same: bool)
    ensures
        same == (a@ == b@),
{
    let left = chars_of(a);
    let right = chars_of(b);
    if left.len() != right.len() {
        return false;
    }
    let mut i: usize = 0;
    while i < left.len()
        invariant
            i <= left.len(),
            left.len() == right.len(),
            left@ == a@,
            right@ == b@,
            forall|j: int| 0 <= j < i ==> left@[j] == right@[j],
        decreases left.len() - i,
    {
        if left[i] != right[i] {
            return false;
        }
        i += 1;
    }
    proof {
        assert(left@ =~= right@);
    }
    true
}

/// Whether `token` begins at position `i` of `s`.
fn matches_at(s: &Vec<char>, token: &Vec<char>, i: usize) -> (hit: bool)
    requires
        i + token.len() <= s.len(),
    ensures
        hit == occurs_at(s@, token@, i as int),
{
    let mut k: usize = 0;
    while k < token.len()
        invariant
            k <= token.len(),
            i + token.len() <= s.len(),
            forall|j: int| 0 <= j < k ==> s@[i + j] == token@[j],
        decreases token.len() - k,
    {
        if s[i + k] != token[k] {
            proof {
                // The copy that would begin at `i` differs from `token` at `k`.
                let sub = s@.subrange(i as int, i + token.len());
                assert(sub[k as int] != token@[k as int]);
            }
            return false;
        }
        k += 1;
    }
    proof {
        assert(s@.subrange(i as int, i + token.len()) =~= token@);
    }
    true
}

/// Finds the leftmost occurrence of `token` in `s`.
pub fn find_first(s: &Vec<char>, token: &Vec<char>) -> (found: Option<usize>)
    ensures
        match found {
            Some(i) => first_occurrence(s@, token@) == Some(i as int) && is_first_occurrence(
                s@,
                token@,
                i as int,
            ),
            None => first_occurrence(s@, token@) is None && !contains_token(s@, token@),
        },
{
    if token.len() > s.len() {
        return None;
    }
    let last: usize = s.len() - token.len();
    let mut i: usize = 0;
    while i < last
        invariant
            i <= last,
            last == s.len() - token.len(),
            forall|j: int| 0 <= j < i ==> !occurs_at(s@, token@, j),
        decreases last - i,
    {
        if matches_at(s, token, i) {
            proof {
                lemma_first_occurrence_is(s@, token@, i as int);
            }
            return Some(i);
        }
        i += 1;
    }
    if matches_at(s, token, last) {
        proof {
            lemma_first_occurrence_is(s@, token@, last as int);
        }
        Some(last)
    } else {
        None
    }
}

/// A decimal digit.
pub open spec fn is_digit(c: char) -> bool {
    '0' <= c <= '9'
}

/// Every character of `s` is a decimal digit.
pub open spec fn all_digits(s: Seq<char>) -> bool {
    forall|i: int| 0 <= i < s.len() ==> is_digit(#[trigger] s[i])
}

/// Tells whether `c` is a decimal digit.
pub fn char_is_digit(c: char) -> (digit: bool)
    ensures
        digit == is_digit(c),
{
    '0' <= c && c <= '9'
}

/// The code points that Unicode gives the property `White_Space`.
pub open spec fn is_whitespace(c: char) -> bool {
    let n = c as u32;
    ||| 0x09 <= n <= 0x0D
    ||| n == 0x20
    ||| n == 0x85
    ||| n == 0xA0
    ||| n == 0x1680
    ||| 0x2000 <= n <= 0x200A
    ||| n == 0x2028
    ||| n == 0x2029
    ||| n == 0x202F
    ||| n == 0x205F
    ||| n == 0x3000
}

/// Tells whether `c` is white space.
pub fn char_is_whitespace(c: char) -> (white: bool)
    ensures
        white == is_whitespace(c),
{
    let n: u32 = c as u32;
    (0x09 <= n && n <= 0x0D) || n == 0x20 || n == 0x85 || n == 0xA0 || n == 0x1680 || (0x2000 <= n
        && n <= 0x200A) || n == 0x2028 || n == 0x2029 || n == 0x202F || n == 0x205F || n == 0x3000
}

/// `s` without the white space at its end.
pub open spec fn trimmed_end(s: Seq<char>) -> Seq<char>
    decreases s.len(),
{
    if s.len() > 0 && is_whitespace(s.last()) {
        trimmed_end(s.drop_last())
    } else {
        s
    }
}

/// Cutting white space off a prefix that is followed by white space only
/// gives what cutting it off the whole gives.
proof fn lemma_trimmed_prefix(s: Seq<char>, end: int)
    requires
        0 <= end <= s.len(),
        forall|j: int| end <= j < s.len() ==> is_whitespace(s[j]),
    ensures
        trimmed_end(s) == trimmed_end(s.subrange(0, end)),
    decreases s.len() - end,
{
    if end < s.len() {
        assert(s.drop_last().subrange(0, end) =~= s.subrange(0, end));
        lemma_trimmed_prefix(s.drop_last(), end);
    } else {
        assert(s.subrange(0, end) =~= s);
    }
}

/// Removes the white space at the end of `s`.
pub fn trim_end(s: &str) -> (trimmed: String)
    ensures
        trimmed@ == trimmed_end(s@),
{
    let chars = chars_of(s);
    let mut end: usize = chars.len();
    while end > 0 && char_is_whitespace(chars[end - 1])
        invariant
            end <= chars.len(),
            forall|j: int| end <= j < chars.len() ==> is_whitespace(chars@[j]),
        decreases end,
    {
        end -= 1;
    }
    proof {
        lemma_trimmed_prefix(s@, end as int);
    }
    String::from_str(s.substring_char(0, end))
}

/// Copies `s` with the `len` characters from `at` on replaced by `with`.
pub fn splice_text(s: &str, at: usize, len: usize, with: &str) -> (out: String)
    requires
        at + len <= s@.len(),
    ensures
        out@ == splice(s@, at as int, len as int, with@),
{
    let total = s.unicode_len();
    let mut out = String::from_str(s.substring_char(0, at));
    out.append(with);
    out.append(s.substring_char(at + len, total));
    out
}

} // verus!
