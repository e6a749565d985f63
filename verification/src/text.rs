//! Text building blocks shared by the rest of the library: decimal and
//! hexadecimal rendering, literal comparison and small string searches.

use vstd::prelude::*;
use vstd::string::*;

verus! {

/// The one-character text of a decimal digit.
pub open spec fn digit_text(d: nat) -> Seq<char> {
    if d == 0 {
        "0"@
    } else if d == 1 {
        "1"@
    } else if d == 2 {
        "2"@
    } else if d == 3 {
        "3"@
    } else if d == 4 {
        "4"@
    } else if d == 5 {
        "5"@
    } else if d == 6 {
        "6"@
    } else if d == 7 {
        "7"@
    } else if d == 8 {
        "8"@
    } else {
        "9"@
    }
}

/// The decimal rendering of a natural number, as `{}` prints it.
pub open spec fn decimal(n: nat) -> Seq<char>
    decreases n,
{
    if n < 10 {
        digit_text(n)
    } else {
        decimal(n / 10) + digit_text(n % 10)
    }
}

/// The literal text of one decimal digit.
pub fn digit_literal(d: u128) -> (r: &'static str)
    requires
        d < 10,
    ensures
        r@ == digit_text(d as nat),
{
    if d == 0 {
        "0"
    } else if d == 1 {
        "1"
    } else if d == 2 {
        "2"
    } else if d == 3 {
        "3"
    } else if d == 4 {
        "4"
    } else if d == 5 {
        "5"
    } else if d == 6 {
        "6"
    } else if d == 7 {
        "7"
    } else if d == 8 {
        "8"
    } else {
        "9"
    }
}

/// Renders `n` in decimal, as `format!("{}", n)` does.
pub fn decimal_string(n: u128) -> (s: String)
    ensures
        s@ == decimal(n as nat),
    decreases n,
{
    if n < 10 {
        String::from_str(digit_literal(n))
    } else {
        let mut s = decimal_string(n / 10);
        s.append(digit_literal(n % 10));
        s
    }
}

/// Whether two string slices hold the same characters.
pub fn str_equal(a: &str, b: &str) -> (r: bool)
    ensures
        r == (a@ == b@),
{
    let n = a.unicode_len();
    let m = b.unicode_len();
    if n != m {
        return false;
    }
    let mut i: usize = 0;
    while i < n
        invariant
            n == a@.len(),
            m == b@.len(),
            n == m,
            i <= n,
            forall|j: int| 0 <= j < i ==> a@[j] == b@[j],
        decreases n - i,
    {
        if a.get_char(i) != b.get_char(i) {
            return false;
        }
        i = i + 1;
    }
    assert(a@ =~= b@);
    true
}


/// The one-character text of a lower-case hexadecimal digit.
pub open spec fn hex_digit_text(d: nat) -> Seq<char> {
    if d < 10 {
        digit_text(d)
    } else if d == 10 {
        "a"@
    } else if d == 11 {
        "b"@
    } else if d == 12 {
        "c"@
    } else if d == 13 {
        "d"@
    } else if d == 14 {
        "e"@
    } else {
        "f"@
    }
}

/// A byte as two lower-case hexadecimal digits, as `{:02x}` prints it.
pub open spec fn hex_byte(b: u8) -> Seq<char> {
    hex_digit_text((b / 16) as nat) + hex_digit_text((b % 16) as nat)
}

/// The literal text of one hexadecimal digit.
pub fn hex_digit_literal(d: u8) -> (r: &'static str)
    requires
        d < 16,
    ensures
        r@ == hex_digit_text(d as nat),
{
    if d < 10 {
        digit_literal(d as u128)
    } else if d == 10 {
        "a"
    } else if d == 11 {
        "b"
    } else if d == 12 {
        "c"
    } else if d == 13 {
        "d"
    } else if d == 14 {
        "e"
    } else {
        "f"
    }
}

/// Appends `b` as two lower-case hexadecimal digits.
pub fn push_hex_byte(out: &mut String, b: u8)
    ensures
        final(out)@ == old(out)@ + hex_byte(b),
{
    out.append(hex_digit_literal(b / 16));
    out.append(hex_digit_literal(b % 16));
}

/// The characters of a string slice, in a vector.
pub fn chars_of(s: &str) -> (v: Vec<char>)
    ensures
        v@ == s@,
{
    let n = s.unicode_len();
    let mut v: Vec<char> = Vec::new();
    let mut i: usize = 0;
    while i < n
        invariant
            n == s@.len(),
            i <= n,
            v@ == s@.take(i as int),
        decreases n - i,
    {
        v.push(s.get_char(i));
        i = i + 1;
        assert(v@ =~= s@.take(i as int));
    }
    assert(s@.take(n as int) =~= s@);
    v
}

/// Whether `p` occurs in `s` starting at index `i`.
pub open spec fn occurs_at(s: Seq<char>, p: Seq<char>, i: int) -> bool {
    0 <= i && i + p.len() <= s.len() && s.subrange(i, i + p.len()) == p
}

/// The first index at or after `i` where `p` occurs in `s`.
pub open spec fn find_from(s: Seq<char>, p: Seq<char>, i: int) -> Option<int>
    decreases s.len() + 1 - i,
{
    if i < 0 || i + p.len() > s.len() {
        None
    } else if occurs_at(s, p, i) {
        Some(i)
    } else {
        find_from(s, p, i + 1)
    }
}

/// Whether `p` occurs anywhere in `s`, as `str::contains` answers.
pub open spec fn contains_text(s: Seq<char>, p: Seq<char>) -> bool {
    exists|i: int| occurs_at(s, p, i)
}

/// `find_from` gives the first occurrence at or after `i`.
pub proof fn lemma_find_from(s: Seq<char>, p: Seq<char>, i: int)
    requires
        i >= 0,
    ensures
        find_from(s, p, i) matches Some(k) ==> i <= k && occurs_at(s, p, k) && forall|j: int|
            i <= j < k ==> !occurs_at(s, p, j),
        find_from(s, p, i) is None ==> forall|j: int| i <= j ==> !occurs_at(s, p, j),
    decreases s.len() + 1 - i,
{
    if i + p.len() > s.len() {
    } else if occurs_at(s, p, i) {
    } else {
        lemma_find_from(s, p, i + 1);
    }
}

/// `find_from` finds an occurrence at `k` when none lies between `i` and `k`.
pub proof fn lemma_find_from_at(s: Seq<char>, p: Seq<char>, i: int, k: int)
    requires
        0 <= i <= k,
        occurs_at(s, p, k),
        forall|j: int| i <= j < k ==> !occurs_at(s, p, j),
    ensures
        find_from(s, p, i) == Some(k),
    decreases k - i,
{
    if i < k {
        lemma_find_from_at(s, p, i + 1, k);
    }
}

/// Whether `p` sits in `s` at index `i`, comparing character by character.
pub fn matches_at(s: &Vec<char>, p: &Vec<char>, i: usize) -> (r: bool)
    ensures
        r == occurs_at(s@, p@, i as int),
{
    if i > s.len() || p.len() > s.len() - i {
        return false;
    }
    let mut j: usize = 0;
    while j < p.len()
        invariant
            i + p@.len() <= s@.len(),
            s@.len() == s.len(),
            j <= p@.len(),
            forall|k: int| 0 <= k < j ==> s@[i + k] == p@[k],
        decreases p.len() - j,
    {
        if s[i + j] != p[j] {
            assert(s@.subrange(i as int, i + p@.len())[j as int] != p@[j as int]);
            return false;
        }
        j = j + 1;
    }
    assert(s@.subrange(i as int, i + p@.len()) =~= p@);
    true
}

/// The first index at or after `from` where `p` occurs in `s`.
pub fn find_text(s: &Vec<char>, p: &Vec<char>, from: usize) -> (r: Option<usize>)
    ensures
        r matches Some(k) ==> find_from(s@, p@, from as int) == Some(k as int),
        r is None ==> find_from(s@, p@, from as int) is None,
{
    proof {
        lemma_find_from(s@, p@, from as int);
    }
    if from > s.len() || p.len() > s.len() - from {
        return None;
    }
    let last = s.len() - p.len();
    let mut i = from;
    loop
        invariant
            from <= i <= last,
            last + p@.len() == s@.len(),
            forall|j: int| from <= j < i ==> !occurs_at(s@, p@, j),
            find_from(s@, p@, from as int) matches Some(k) ==> from <= k && occurs_at(s@, p@, k)
                && forall|j: int| from <= j < k ==> !occurs_at(s@, p@, j),
            find_from(s@, p@, from as int) is None ==> forall|j: int|
                from <= j ==> !occurs_at(s@, p@, j),
        decreases last + 1 - i,
    {
        if matches_at(s, p, i) {
            return Some(i);
        }
        if i >= last {
            return None;
        }
        i = i + 1;
    }
}

/// The characters of `s` from `start` up to `end`, as a string.
pub fn text_between(s: &str, start: usize, end: usize) -> (r: String)
    requires
        start <= end <= s@.len(),
    ensures
        r@ == s@.subrange(start as int, end as int),
{
    String::from_str(s.substring_char(start, end))
}

/// `s` without the prefix `p`, when `s` starts with it.
pub open spec fn spec_strip_prefix(s: Seq<char>, p: Seq<char>) -> Option<Seq<char>> {
    if p.len() <= s.len() && s.take(p.len() as int) == p {
        Some(s.skip(p.len() as int))
    } else {
        None
    }
}

/// Removes the prefix `p` from `s`, as `str::strip_prefix` does.
pub fn strip_prefix(s: &str, p: &str) -> (r: Option<String>)
    ensures
        r matches Some(t) ==> spec_strip_prefix(s@, p@) == Some(t@),
        r is None ==> spec_strip_prefix(s@, p@) is None,
{
    let sv = chars_of(s);
    let pv = chars_of(p);
    if matches_at(&sv, &pv, 0) {
        assert(s@.take(p@.len() as int) =~= s@.subrange(0, p@.len() as int));
        let rest = text_between(s, pv.len(), sv.len());
        assert(rest@ =~= s@.skip(p@.len() as int));
        Some(rest)
    } else {
        assert(!(p@.len() <= s@.len() && s@.take(p@.len() as int) == p@) || s@.subrange(0, p@.len() as int) =~= s@.take(p@.len() as int));
        None
    }
}

/// Whether `s` starts with `p`.
pub fn starts_with(s: &str, p: &str) -> (r: bool)
    ensures
        r == spec_strip_prefix(s@, p@) is Some,
{
    let sv = chars_of(s);
    let pv = chars_of(p);
    let r = matches_at(&sv, &pv, 0);
    assert(p@.len() <= s@.len() ==> s@.take(p@.len() as int) =~= s@.subrange(0, p@.len() as int));
    r
}


/// `char::is_whitespace`: the characters with the Unicode `White_Space` property.
pub open spec fn is_white_space(c: char) -> bool {
    ||| ('\u{9}' <= c && c <= '\u{d}')
    ||| c == ' '
    ||| c == '\u{85}'
    ||| c == '\u{a0}'
    ||| c == '\u{1680}'
    ||| ('\u{2000}' <= c && c <= '\u{200a}')
    ||| c == '\u{2028}'
    ||| c == '\u{2029}'
    ||| c == '\u{202f}'
    ||| c == '\u{205f}'
    ||| c == '\u{3000}'
}

/// Whether a character is white space, as `char::is_whitespace` answers.
pub fn white_space(c: char) -> (r: bool)
    ensures
        r == is_white_space(c),
{
    ('\u{9}' <= c && c <= '\u{d}') || c == ' ' || c == '\u{85}' || c == '\u{a0}' || c == '\u{1680}'
        || ('\u{2000}' <= c && c <= '\u{200a}') || c == '\u{2028}' || c == '\u{2029}' || c
        == '\u{202f}' || c == '\u{205f}' || c == '\u{3000}'
}

/// `a..b` are the bounds of `s` with leading and trailing white space cut off.
pub open spec fn trim_bounds(s: Seq<char>, a: int, b: int) -> bool {
    &&& 0 <= a <= b <= s.len()
    &&& forall|i: int| 0 <= i < a ==> is_white_space(#[trigger] s[i])
    &&& forall|i: int| b <= i < s.len() ==> is_white_space(#[trigger] s[i])
    &&& a < b ==> !is_white_space(s[a]) && !is_white_space(s[b - 1])
}

/// `s` without leading and trailing white space, as `str::trim` gives it.
pub open spec fn trimmed(s: Seq<char>) -> Seq<char> {
    let ab = choose|ab: (int, int)| trim_bounds(s, ab.0, ab.1);
    s.subrange(ab.0, ab.1)
}

/// Trim bounds are unique, so `trimmed` is the cut they describe.
pub proof fn lemma_trimmed(s: Seq<char>, a: int, b: int)
    requires
        trim_bounds(s, a, b),
    ensures
        trimmed(s) == s.subrange(a, b),
{
    let w = (a, b);
    assert(trim_bounds(s, w.0, w.1));
    let ab = choose|ab: (int, int)| trim_bounds(s, ab.0, ab.1);
    assert(trim_bounds(s, ab.0, ab.1));
    let a2 = ab.0;
    let b2 = ab.1;
    if a == b {
        if a2 < b2 {
            if a2 < a {
                assert(is_white_space(s[a2]));
            } else {
                assert(is_white_space(s[a2]));
            }
        }
        assert(s.subrange(a, b) =~= s.subrange(a2, b2));
    } else {
        assert(!is_white_space(s[a]));
        assert(!is_white_space(s[b - 1]));
        if a2 == b2 {
            if a < a2 {
                assert(is_white_space(s[a]));
            } else {
                assert(is_white_space(s[a]));
            }
        }
        if a2 < a {
            assert(is_white_space(s[a2]));
        }
        if a < a2 {
            assert(is_white_space(s[a]));
        }
        if b2 < b {
            assert(is_white_space(s[b - 1]));
        }
        if b < b2 {
            assert(is_white_space(s[b2 - 1]));
        }
        assert(a == a2 && b == b2);
    }
}

/// Cuts leading and trailing white space off `s`, as `str::trim` does.
pub fn trim(s: &str) -> (r: String)
    ensures
        r@ == trimmed(s@),
{
    let v = chars_of(s);
    let n = v.len();
    let mut a: usize = 0;
    while a < n && white_space(v[a])
        invariant
            n == v@.len(),
            a <= n,
            forall|i: int| 0 <= i < a ==> is_white_space(#[trigger] v@[i]),
        decreases n - a,
    {
        a = a + 1;
    }
    let mut b: usize = n;
    while b > a && white_space(v[b - 1])
        invariant
            n == v@.len(),
            a <= b <= n,
            forall|i: int| b <= i < n ==> is_white_space(#[trigger] v@[i]),
        decreases b,
    {
        b = b - 1;
    }
    proof {
        assert(trim_bounds(s@, a as int, b as int));
        lemma_trimmed(s@, a as int, b as int);
    }
    text_between(s, a, b)
}

/// ASCII upper-case letters mapped to lower case, other characters kept.
pub open spec fn ascii_lower_char(c: char) -> char {
    if 'A' <= c && c <= 'Z' {
        ((c as u32) + 32) as char
    } else {
        c
    }
}

/// `s` with ASCII letters in lower case, as `str::to_ascii_lowercase` gives it.
pub open spec fn ascii_lower(s: Seq<char>) -> Seq<char> {
    s.map_values(|c: char| ascii_lower_char(c))
}

/// Whether `c` lowered is `lower`.
fn lowers_to(c: char, lower: char) -> (r: bool)
    ensures
        r == (ascii_lower_char(c) == lower),
{
    if 'A' <= c && c <= 'Z' {
        let code = c as u32;
        code + 32 == lower as u32
    } else {
        c == lower
    }
}

/// Whether `needle` occurs in `s` once `s` is put in ASCII lower case.
pub fn contains_ascii_lowered(s: &Vec<char>, needle: &Vec<char>) -> (r: bool)
    ensures
        r == contains_text(ascii_lower(s@), needle@),
{
    let ghost low = ascii_lower(s@);
    if needle.len() > s.len() {
        assert forall|i: int| !occurs_at(low, needle@, i) by {}
        return false;
    }
    let last = s.len() - needle.len();
    let mut i: usize = 0;
    loop
        invariant
            i <= last,
            last + needle@.len() == s@.len(),
            s@.len() == s.len(),
            low == ascii_lower(s@),
            low.len() == s@.len(),
            forall|k: int| 0 <= k < i ==> !occurs_at(low, needle@, k),
        decreases last - i,
    {
        let mut j: usize = 0;
        let mut all = true;
        while j < needle.len()
            invariant
                i + needle@.len() <= s@.len(),
                s@.len() == s.len(),
                low == ascii_lower(s@),
                j <= needle@.len(),
                all ==> forall|k: int| 0 <= k < j ==> low[i + k] == needle@[k],
                !all ==> !occurs_at(low, needle@, i as int),
            decreases needle.len() - j,
        {
            if all && !lowers_to(s[i + j], needle[j]) {
                assert(low.subrange(i as int, i + needle@.len())[j as int] != needle@[j as int]);
                all = false;
            }
            j = j + 1;
        }
        if all {
            assert(low.subrange(i as int, i + needle@.len()) =~= needle@);
            assert(occurs_at(low, needle@, i as int));
            return true;
        }
        if i >= last {
            assert forall|k: int| !occurs_at(low, needle@, k) by {
                if 0 <= k && k < i {
                } else if k == i {
                } else {
                }
            }
            return false;
        }
        i = i + 1;
    }
}

/// The first `n` characters of `s`.
pub open spec fn take_chars(s: Seq<char>, n: nat) -> Seq<char> {
    if s.len() <= n {
        s
    } else {
        s.take(n as int)
    }
}

/// `n` spaces.
pub open spec fn spaces(n: nat) -> Seq<char> {
    Seq::new(n, |i: int| ' ')
}

/// `s` padded with spaces on the right to `width` characters, as `{:<width}` prints it.
pub open spec fn pad_right(s: Seq<char>, width: nat) -> Seq<char> {
    if s.len() >= width {
        s
    } else {
        s + spaces((width - s.len()) as nat)
    }
}

/// Appends `count` spaces.
pub fn push_spaces(out: &mut String, count: usize)
    ensures
        final(out)@ == old(out)@ + spaces(count as nat),
{
    let mut k: usize = 0;
    while k < count
        invariant
            k <= count,
            out@ == old(out)@ + spaces(k as nat),
        decreases count - k,
    {
        out.append(" ");
        proof {
            reveal_strlit(" ");
        }
        k = k + 1;
        assert(out@ =~= old(out)@ + spaces(k as nat));
    }
}

/// The value of a base-62 digit (`0`-`9`, then `a`-`z`, then `A`-`Z`), or
/// -1 for any other character.
pub open spec fn base62_digit(c: char) -> int {
    if '0' <= c && c <= '9' {
        c as int - '0' as int
    } else if 'a' <= c && c <= 'z' {
        c as int - 'a' as int + 10
    } else if 'A' <= c && c <= 'Z' {
        c as int - 'A' as int + 36
    } else {
        -1
    }
}

/// The number that base-62 digits spell, most significant first.
pub open spec fn base62_value(s: Seq<char>) -> int
    decreases s.len(),
{
    if s.len() == 0 {
        0
    } else {
        base62_value(s.drop_last()) * 62 + base62_digit(s.last())
    }
}

/// Whether `s` is a base-62 id: every character a base-62 digit, and the
/// number they spell below 2^128.
pub open spec fn spec_base62_id(s: Seq<char>) -> bool {
    &&& forall|i: int| 0 <= i < s.len() ==> base62_digit(#[trigger] s[i]) >= 0
    &&& base62_value(s) < 0x1_0000_0000_0000_0000_0000_0000_0000_0000
}

/// Over digits, a longer prefix spells a number no smaller.
pub proof fn lemma_base62_prefix_grows(s: Seq<char>, j: int, k: int)
    requires
        0 <= j <= k <= s.len(),
        forall|i: int| 0 <= i < s.len() ==> base62_digit(#[trigger] s[i]) >= 0,
    ensures
        base62_value(s.take(j)) <= base62_value(s.take(k)),
    decreases k - j,
{
    if j < k {
        lemma_base62_prefix_grows(s, j, k - 1);
        assert(s.take(k).drop_last() =~= s.take(k - 1));
        assert(s.take(k).last() == s[k - 1]);
        assert(base62_value(s.take(k - 1)) >= 0) by {
            lemma_base62_nonneg(s.take(k - 1));
        }
    }
}

/// Digits spell a number that is not negative.
pub proof fn lemma_base62_nonneg(s: Seq<char>)
    requires
        forall|i: int| 0 <= i < s.len() ==> base62_digit(#[trigger] s[i]) >= 0,
    ensures
        base62_value(s) >= 0,
    decreases s.len(),
{
    if s.len() > 0 {
        assert forall|i: int| 0 <= i < s.drop_last().len() implies base62_digit(#[trigger] s.drop_last()[i]) >= 0 by {
            assert(s.drop_last()[i] == s[i]);
        }
        lemma_base62_nonneg(s.drop_last());
        assert(base62_digit(s[s.len() - 1]) >= 0);
    }
}

/// Whether `id` is a base-62 id.
pub fn is_base62_id(id: &str) -> (r: bool)
    ensures
        r == spec_base62_id(id@),
{
    let cs = chars_of(id);
    let mut n: u128 = 0;
    let mut i: usize = 0;
    while i < cs.len()
        invariant
            cs@ == id@,
            i <= cs@.len(),
            forall|k: int| 0 <= k < i ==> base62_digit(#[trigger] cs@[k]) >= 0,
            n == base62_value(cs@.take(i as int)),
        decreases cs.len() - i,
    {
        let c = cs[i];
        let d: u128 = if '0' <= c && c <= '9' {
            (c as u32 - '0' as u32) as u128
        } else if 'a' <= c && c <= 'z' {
            (c as u32 - 'a' as u32 + 10) as u128
        } else if 'A' <= c && c <= 'Z' {
            (c as u32 - 'A' as u32 + 36) as u128
        } else {
            assert(base62_digit(cs@[i as int]) < 0);
            return false;
        };
        assert(d == base62_digit(c));
        assert(cs@.take(i + 1).drop_last() =~= cs@.take(i as int));
        assert(cs@.take(i + 1).last() == c);
        let next = match n.checked_mul(62) {
            Some(m) => m.checked_add(d),
            None => None,
        };
        match next {
            Some(v) => {
                n = v;
                i = i + 1;
            },
            None => {
                proof {
                    assert(base62_value(cs@.take(i + 1)) > u128::MAX);
                    if forall|k: int| 0 <= k < cs@.len() ==> base62_digit(#[trigger] cs@[k]) >= 0 {
                        lemma_base62_prefix_grows(cs@, i + 1, cs@.len() as int);
                        assert(cs@.take(cs@.len() as int) =~= cs@);
                    }
                }
                return false;
            },
        }
    }
    assert(cs@.take(cs@.len() as int) =~= cs@);
    true
}

} // verus!
