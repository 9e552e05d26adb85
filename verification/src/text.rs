//! Character-sequence helpers shared by the modules that read and build text.
//!
//! Every function here works on the `Seq<char>` view of a string: trimming by
//! the Unicode `White_Space` property (what `str::trim` uses), ASCII case
//! folding, splitting on separator characters, locating a character, and the
//! decimal and hexadecimal renderings of integers.

use vstd::prelude::*;
use vstd::string::*;

verus! {

// ---------------------------------------------------------------------------
// Conversions between `str`/`String` and character vectors
// ---------------------------------------------------------------------------

/// The characters of `s`, in order.
pub fn chars_of(s: &str) -> (v: Vec<char>)
    ensures
        v@ == s@,
{
    let n = s.unicode_len();
    let mut v: Vec<char> = Vec::new();
    let mut i: usize = 0;
    while i < n
        invariant
            n == s@.len(),
            i <= n,
            v@ == s@.subrange(0, i as int),
        decreases n - i,
    {
        let c = s.get_char(i);
        v.push(c);
        i = i + 1;
        assert(v@ =~= s@.subrange(0, i as int));
    }
    assert(v@ =~= s@);
    v
}

/// `String::from_iter` over a slice of characters.
#[verifier::external_body]
pub(crate) fn string_from_chars(cs: &[char]) -> (s: String)
    ensures
        s@ == cs@,
{
    String::from_iter(cs.iter())
}

/// The views of a vector of character vectors.
pub open spec fn views(v: Seq<Vec<char>>) -> Seq<Seq<char>> {
    v.map_values(|x: Vec<char>| x@)
}

/// The views of a vector of strings.
pub open spec fn string_views(v: Seq<String>) -> Seq<Seq<char>> {
    v.map_values(|x: String| x@)
}

/// The characters `cs[from..to]`.
pub fn sub_chars(cs: &[char], from: usize, to: usize) -> (v: Vec<char>)
    requires
        from <= to <= cs@.len(),
    ensures
        v@ == cs@.subrange(from as int, to as int),
{
    let mut v: Vec<char> = Vec::new();
    let mut i: usize = from;
    while i < to
        invariant
            from <= i <= to,
            to <= cs@.len(),
            v@ == cs@.subrange(from as int, i as int),
        decreases to - i,
    {
        v.push(cs[i]);
        i = i + 1;
        assert(v@ =~= cs@.subrange(from as int, i as int));
    }
    v
}

/// Appends `src` to `dst`.
pub fn append_chars(dst: &mut Vec<char>, src: &[char])
    ensures
        final(dst)@ == old(dst)@ + src@,
{
    let mut i: usize = 0;
    while i < src.len()
        invariant
            i <= src@.len(),
            dst@ == old(dst)@ + src@.subrange(0, i as int),
        decreases src@.len() - i,
    {
        dst.push(src[i]);
        i = i + 1;
        assert(dst@ =~= old(dst)@ + src@.subrange(0, i as int));
    }
    assert(src@.subrange(0, src@.len() as int) =~= src@);
}

/// Appends the characters of `s` to `dst`.
pub fn append_str(dst: &mut Vec<char>, s: &str)
    ensures
        final(dst)@ == old(dst)@ + s@,
{
    let cs = chars_of(s);
    append_chars(dst, cs.as_slice());
}

/// Whether two character slices are equal.
pub fn chars_eq(a: &[char], b: &[char]) -> (r: bool)
    ensures
        r == (a@ == b@),
{
    if a.len() != b.len() {
        return false;
    }
    let mut i: usize = 0;
    while i < a.len()
        invariant
            a@.len() == b@.len(),
            i <= a@.len(),
            forall|k: int| 0 <= k < i ==> a@[k] == b@[k],
        decreases a@.len() - i,
    {
        if a[i] != b[i] {
            return false;
        }
        i = i + 1;
    }
    assert(a@ =~= b@);
    true
}

/// Whether the characters of `s` equal `lit`.
pub fn str_is(s: &[char], lit: &str) -> (r: bool)
    ensures
        r == (s@ == lit@),
{
    let l = chars_of(lit);
    chars_eq(s, l.as_slice())
}

// ---------------------------------------------------------------------------
// White space and trimming
// ---------------------------------------------------------------------------

/// The Unicode `White_Space` property, which `char::is_whitespace` reports.
pub open spec fn is_ws(c: char) -> bool {
    let u = c as u32;
    ||| 0x9 <= u <= 0xD
    ||| u == 0x20
    ||| u == 0x85
    ||| u == 0xA0
    ||| u == 0x1680
    ||| 0x2000 <= u <= 0x200A
    ||| u == 0x2028
    ||| u == 0x2029
    ||| u == 0x202F
    ||| u == 0x205F
    ||| u == 0x3000
}

/// Whether `c` has the Unicode `White_Space` property.
pub fn is_whitespace(c: char) -> (r: bool)
    ensures
        r == is_ws(c),
{
    let u = c as u32;
    (0x9 <= u && u <= 0xD) || u == 0x20 || u == 0x85 || u == 0xA0 || u == 0x1680 || (0x2000
        <= u && u <= 0x200A) || u == 0x2028 || u == 0x2029 || u == 0x202F || u == 0x205F || u
        == 0x3000
}

/// `s` with its leading white space removed.
pub open spec fn trim_start(s: Seq<char>) -> Seq<char>
    decreases s.len(),
{
    if s.len() > 0 && is_ws(s[0]) {
        trim_start(s.drop_first())
    } else {
        s
    }
}

/// `s` with its trailing white space removed.
pub open spec fn trim_end(s: Seq<char>) -> Seq<char>
    decreases s.len(),
{
    if s.len() > 0 && is_ws(s.last()) {
        trim_end(s.drop_last())
    } else {
        s
    }
}

/// `s` with leading and trailing white space removed, as `str::trim` does.
pub open spec fn trim(s: Seq<char>) -> Seq<char> {
    trim_end(trim_start(s))
}

proof fn lemma_trim_start_at(s: Seq<char>, i: int)
    requires
        0 <= i <= s.len(),
        forall|k: int| 0 <= k < i ==> is_ws(#[trigger] s[k]),
        i == s.len() || !is_ws(s[i]),
    ensures
        trim_start(s) == s.subrange(i, s.len() as int),
    decreases i,
{
    if i == 0 {
        assert(s.subrange(0, s.len() as int) =~= s);
    } else {
        let t = s.drop_first();
        assert forall|k: int| 0 <= k < i - 1 implies is_ws(#[trigger] t[k]) by {
            assert(t[k] == s[k + 1]);
        }
        lemma_trim_start_at(t, i - 1);
        assert(t.subrange(i - 1, t.len() as int) =~= s.subrange(i, s.len() as int));
    }
}

proof fn lemma_trim_end_at(s: Seq<char>, j: int)
    requires
        0 <= j <= s.len(),
        forall|k: int| j <= k < s.len() ==> is_ws(#[trigger] s[k]),
        j == 0 || !is_ws(s[j - 1]),
    ensures
        trim_end(s) == s.subrange(0, j),
    decreases s.len() - j,
{
    if j == s.len() {
        assert(s.subrange(0, j) =~= s);
    } else {
        let t = s.drop_last();
        assert forall|k: int| j <= k < t.len() implies is_ws(#[trigger] t[k]) by {
            assert(t[k] == s[k]);
        }
        lemma_trim_end_at(t, j);
        assert(t.subrange(0, j) =~= s.subrange(0, j));
    }
}

/// The characters of `cs` with leading and trailing white space removed.
pub fn trim_chars(cs: &[char]) -> (r: Vec<char>)
    ensures
        r@ == trim(cs@),
{
    let n = cs.len();
    let mut i: usize = 0;
    while i < n && is_whitespace(cs[i])
        invariant
            n == cs@.len(),
            i <= n,
            forall|k: int| 0 <= k < i ==> is_ws(#[trigger] cs@[k]),
        decreases n - i,
    {
        i = i + 1;
    }
    proof {
        lemma_trim_start_at(cs@, i as int);
    }
    let ghost mid = cs@.subrange(i as int, n as int);
    let mut j: usize = n;
    while j > i && is_whitespace(cs[j - 1])
        invariant
            n == cs@.len(),
            i <= j <= n,
            forall|k: int| j <= k < n ==> is_ws(#[trigger] cs@[k]),
        decreases j,
    {
        j = j - 1;
    }
    proof {
        assert forall|k: int| j - i <= k < mid.len() implies is_ws(#[trigger] mid[k]) by {
            assert(mid[k] == cs@[k + i]);
        }
        if j > i {
            assert(mid[j - i - 1] == cs@[j - 1]);
        }
        lemma_trim_end_at(mid, j - i);
        assert(mid.subrange(0, j - i) =~= cs@.subrange(i as int, j as int));
    }
    sub_chars(cs, i, j)
}

/// `str::trim`, as a `String`.
pub fn trim_str(s: &str) -> (r: String)
    ensures
        r@ == trim(s@),
{
    let cs = chars_of(s);
    let t = trim_chars(cs.as_slice());
    string_from_chars(t.as_slice())
}

// ---------------------------------------------------------------------------
// ASCII case folding
// ---------------------------------------------------------------------------

/// `char::to_ascii_lowercase`.
pub open spec fn ascii_lower(c: char) -> char {
    if 'A' <= c <= 'Z' {
        ((c as u32) + 32) as char
    } else {
        c
    }
}

/// `char::to_ascii_uppercase`.
pub open spec fn ascii_upper(c: char) -> char {
    if 'a' <= c <= 'z' {
        ((c as u32) - 32) as char
    } else {
        c
    }
}

/// `str::to_ascii_lowercase` on a character sequence.
pub open spec fn lower_seq(s: Seq<char>) -> Seq<char> {
    s.map_values(|c: char| ascii_lower(c))
}

/// `str::to_ascii_uppercase` on a character sequence.
pub open spec fn upper_seq(s: Seq<char>) -> Seq<char> {
    s.map_values(|c: char| ascii_upper(c))
}

/// The ASCII lower-case form of `c`.
pub fn lower_char(c: char) -> (r: char)
    ensures
        r == ascii_lower(c),
{
    if 'A' <= c && c <= 'Z' {
        let u: u8 = (c as u8) + 32;
        u as char
    } else {
        c
    }
}

/// The ASCII upper-case form of `c`.
pub fn upper_char(c: char) -> (r: char)
    ensures
        r == ascii_upper(c),
{
    if 'a' <= c && c <= 'z' {
        let u: u8 = (c as u8) - 32;
        u as char
    } else {
        c
    }
}

/// The characters of `cs` with ASCII letters lower-cased.
pub fn lower_chars(cs: &[char]) -> (r: Vec<char>)
    ensures
        r@ == lower_seq(cs@),
{
    let mut r: Vec<char> = Vec::new();
    let mut i: usize = 0;
    while i < cs.len()
        invariant
            i <= cs@.len(),
            r@ == lower_seq(cs@.subrange(0, i as int)),
        decreases cs@.len() - i,
    {
        r.push(lower_char(cs[i]));
        i = i + 1;
        assert(r@ =~= lower_seq(cs@.subrange(0, i as int)));
    }
    assert(cs@.subrange(0, cs@.len() as int) =~= cs@);
    r
}

/// The characters of `cs` with ASCII letters upper-cased.
pub fn upper_chars(cs: &[char]) -> (r: Vec<char>)
    ensures
        r@ == upper_seq(cs@),
{
    let mut r: Vec<char> = Vec::new();
    let mut i: usize = 0;
    while i < cs.len()
        invariant
            i <= cs@.len(),
            r@ == upper_seq(cs@.subrange(0, i as int)),
        decreases cs@.len() - i,
    {
        r.push(upper_char(cs[i]));
        i = i + 1;
        assert(r@ =~= upper_seq(cs@.subrange(0, i as int)));
    }
    assert(cs@.subrange(0, cs@.len() as int) =~= cs@);
    r
}

// ---------------------------------------------------------------------------
// Locating characters
// ---------------------------------------------------------------------------

/// The index of the first `c` in `s`, or `s.len()` when there is none.
pub open spec fn first_index(s: Seq<char>, c: char) -> int
    decreases s.len(),
{
    if s.len() == 0 {
        0
    } else if s[0] == c {
        0
    } else {
        1 + first_index(s.drop_first(), c)
    }
}

/// The index of the last `c` in `s`, or `-1` when there is none.
pub open spec fn last_index(s: Seq<char>, c: char) -> int
    decreases s.len(),
{
    if s.len() == 0 {
        -1
    } else if s.last() == c {
        s.len() - 1
    } else {
        last_index(s.drop_last(), c)
    }
}

pub proof fn lemma_first_index_at(s: Seq<char>, c: char, i: int)
    requires
        0 <= i <= s.len(),
        forall|k: int| 0 <= k < i ==> #[trigger] s[k] != c,
        i == s.len() || s[i] == c,
    ensures
        first_index(s, c) == i,
    decreases i,
{
    if i > 0 {
        let t = s.drop_first();
        assert forall|k: int| 0 <= k < i - 1 implies #[trigger] t[k] != c by {
            assert(t[k] == s[k + 1]);
        }
        lemma_first_index_at(t, c, i - 1);
    }
}

pub proof fn lemma_last_index_at(s: Seq<char>, c: char, j: int)
    requires
        -1 <= j < s.len(),
        forall|k: int| j < k < s.len() ==> #[trigger] s[k] != c,
        j == -1 || s[j] == c,
    ensures
        last_index(s, c) == j,
    decreases s.len(),
{
    if s.len() > 0 && j < s.len() - 1 {
        let t = s.drop_last();
        assert forall|k: int| j < k < t.len() implies #[trigger] t[k] != c by {
            assert(t[k] == s[k]);
        }
        lemma_last_index_at(t, c, j);
    }
}

pub proof fn lemma_first_index_bounds(s: Seq<char>, c: char)
    ensures
        0 <= first_index(s, c) <= s.len(),
        first_index(s, c) < s.len() ==> s[first_index(s, c)] == c,
        forall|k: int| 0 <= k < first_index(s, c) ==> #[trigger] s[k] != c,
    decreases s.len(),
{
    if s.len() > 0 && s[0] != c {
        let t = s.drop_first();
        lemma_first_index_bounds(t, c);
        assert forall|k: int| 0 <= k < first_index(s, c) implies #[trigger] s[k] != c by {
            if k > 0 {
                assert(s[k] == t[k - 1]);
            }
        }
    }
}

pub proof fn lemma_last_index_bounds(s: Seq<char>, c: char)
    ensures
        -1 <= last_index(s, c) < s.len(),
        last_index(s, c) >= 0 ==> s[last_index(s, c)] == c,
    decreases s.len(),
{
    if s.len() > 0 && s.last() != c {
        lemma_last_index_bounds(s.drop_last(), c);
    }
}

/// The position of the first `c` in `cs`, if any (`str::find`).
pub fn find_char(cs: &[char], c: char) -> (r: Option<usize>)
    ensures
        r is Some <==> first_index(cs@, c) < cs@.len(),
        r matches Some(i) ==> i == first_index(cs@, c),
{
    let mut i: usize = 0;
    while i < cs.len()
        invariant
            i <= cs@.len(),
            forall|k: int| 0 <= k < i ==> #[trigger] cs@[k] != c,
        decreases cs@.len() - i,
    {
        if cs[i] == c {
            proof {
                lemma_first_index_at(cs@, c, i as int);
            }
            return Some(i);
        }
        i = i + 1;
    }
    proof {
        lemma_first_index_at(cs@, c, i as int);
    }
    None
}

/// The position of the last `c` in `cs`, if any (`str::rfind`).
pub fn rfind_char(cs: &[char], c: char) -> (r: Option<usize>)
    ensures
        r is Some <==> last_index(cs@, c) >= 0,
        r matches Some(i) ==> i == last_index(cs@, c),
{
    let mut j: usize = cs.len();
    while j > 0
        invariant
            j <= cs@.len(),
            forall|k: int| j <= k < cs@.len() ==> #[trigger] cs@[k] != c,
        decreases j,
    {
        if cs[j - 1] == c {
            proof {
                lemma_last_index_at(cs@, c, j - 1);
            }
            return Some(j - 1);
        }
        j = j - 1;
    }
    proof {
        lemma_last_index_at(cs@, c, -1);
    }
    None
}

/// `str::split_once` on a single character: the text before and after the
/// first `c`, when there is one.
pub open spec fn split_once(s: Seq<char>, c: char) -> Option<(Seq<char>, Seq<char>)> {
    let i = first_index(s, c);
    if i < s.len() {
        Some((s.subrange(0, i), s.subrange(i + 1, s.len() as int)))
    } else {
        None
    }
}

/// `str::split_once` on a single character.
pub fn split_once_chars(cs: &[char], c: char) -> (r: Option<(Vec<char>, Vec<char>)>)
    ensures
        match r {
            Some((a, b)) => split_once(cs@, c) == Some((a@, b@)),
            None => split_once(cs@, c) is None,
        },
{
    match find_char(cs, c) {
        Some(i) => {
            let n = cs.len();
            assert(i < n);
            let a = sub_chars(cs, 0, i);
            let b = sub_chars(cs, i + 1, n);
            Some((a, b))
        },
        None => None,
    }
}

/// Whether `c` occurs in `s`.
pub fn contains_char(cs: &[char], c: char) -> (r: bool)
    ensures
        r == cs@.contains(c),
{
    let mut i: usize = 0;
    while i < cs.len()
        invariant
            i <= cs@.len(),
            forall|k: int| 0 <= k < i ==> #[trigger] cs@[k] != c,
        decreases cs@.len() - i,
    {
        if cs[i] == c {
            assert(cs@[i as int] == c);
            return true;
        }
        i = i + 1;
    }
    false
}

// ---------------------------------------------------------------------------
// Splitting
// ---------------------------------------------------------------------------

/// `str::split` on any of the characters in `seps`: the pieces between
/// separators, in order, empty pieces included. There is always at least
/// one piece.
pub open spec fn split_any(s: Seq<char>, seps: Seq<char>) -> Seq<Seq<char>>
    decreases s.len(),
{
    if s.len() == 0 {
        seq![Seq::<char>::empty()]
    } else {
        let rest = split_any(s.drop_last(), seps);
        if seps.contains(s.last()) {
            rest.push(Seq::<char>::empty())
        } else {
            rest.update(rest.len() - 1, rest.last().push(s.last()))
        }
    }
}

pub proof fn lemma_split_any_nonempty(s: Seq<char>, seps: Seq<char>)
    ensures
        split_any(s, seps).len() >= 1,
    decreases s.len(),
{
    if s.len() > 0 {
        lemma_split_any_nonempty(s.drop_last(), seps);
    }
}

/// `str::split` on any of the characters in `seps`.
pub fn split_any_chars(cs: &[char], seps: &[char]) -> (parts: Vec<Vec<char>>)
    ensures
        views(parts@) == split_any(cs@, seps@),
{
    let mut done: Vec<Vec<char>> = Vec::new();
    let mut cur: Vec<char> = Vec::new();
    let mut i: usize = 0;
    assert(views(done@).push(cur@) =~= split_any(cs@.subrange(0, 0), seps@));
    while i < cs.len()
        invariant
            i <= cs@.len(),
            views(done@).push(cur@) == split_any(cs@.subrange(0, i as int), seps@),
        decreases cs@.len() - i,
    {
        let ch = cs[i];
        let ghost prefix = cs@.subrange(0, i as int);
        let ghost next = cs@.subrange(0, i as int + 1);
        assert(next.drop_last() =~= prefix);
        assert(next.last() == ch);
        if contains_char(seps, ch) {
            let ghost before = views(done@).push(cur@);
            let finished = cur;
            done.push(finished);
            assert(views(done@) =~= before);
            cur = Vec::new();
            assert(views(done@) =~= split_any(prefix, seps@));
            assert(views(done@).push(cur@) =~= split_any(next, seps@));
        } else {
            let ghost before = views(done@).push(cur@);
            cur.push(ch);
            assert(views(done@).push(cur@) =~= before.update(before.len() - 1, before.last().push(ch)));
        }
        i = i + 1;
    }
    assert(cs@.subrange(0, cs@.len() as int) =~= cs@);
    done.push(cur);
    assert(views(done@) =~= split_any(cs@, seps@));
    done
}

// ---------------------------------------------------------------------------
// Decimal and hexadecimal renderings
// ---------------------------------------------------------------------------

/// The ASCII digit for `d < 10`.
pub open spec fn digit_char(d: nat) -> char {
    (48 + d) as char
}

/// The decimal digits of `n`, most significant first, without leading zeros.
pub open spec fn dec_digits(n: nat) -> Seq<char>
    decreases n,
{
    if n < 10 {
        seq![digit_char(n)]
    } else {
        dec_digits(n / 10).push(digit_char(n % 10))
    }
}

/// `i64::to_string`: a minus sign for negative values, then the digits.
pub open spec fn dec_i64(n: i64) -> Seq<char> {
    if n < 0 {
        seq!['-'] + dec_digits((-(n as int)) as nat)
    } else {
        dec_digits(n as nat)
    }
}

/// The ASCII digit for `d`.
pub fn digit(d: u64) -> (c: char)
    requires
        d < 10,
    ensures
        c == digit_char(d as nat),
{
    let b: u8 = 48 + (d as u8);
    b as char
}

/// Appends the decimal digits of `n` to `out`.
pub fn push_decimal(out: &mut Vec<char>, n: u64)
    ensures
        final(out)@ == old(out)@ + dec_digits(n as nat),
    decreases n,
{
    if n >= 10 {
        push_decimal(out, n / 10);
    }
    out.push(digit(n % 10));
    proof {
        if n >= 10 {
            assert(final(out)@ =~= old(out)@ + dec_digits(n as nat)) by {
                assert(dec_digits(n as nat) == dec_digits((n / 10) as nat).push(
                    digit_char((n % 10) as nat),
                ));
            }
        } else {
            assert(final(out)@ =~= old(out)@ + dec_digits(n as nat));
        }
    }
}

/// Appends `i64::to_string(n)` to `out`.
pub fn push_decimal_i64(out: &mut Vec<char>, n: i64)
    ensures
        final(out)@ == old(out)@ + dec_i64(n),
{
    if n < 0 {
        out.push('-');
        let m: u64 = if n == i64::MIN {
            9223372036854775808u64
        } else {
            (-n) as u64
        };
        let ghost mid = out@;
        push_decimal(out, m);
        assert(final(out)@ =~= old(out)@ + dec_i64(n));
    } else {
        push_decimal(out, n as u64);
    }
}

/// The lower-case hexadecimal digit for `d < 16`.
pub open spec fn hex_char(d: nat) -> char {
    if d < 10 {
        (48 + d) as char
    } else {
        (87 + d) as char
    }
}

/// Lower-case hexadecimal, two digits per byte (what `hex::encode` returns).
pub open spec fn hex_lower(bytes: Seq<u8>) -> Seq<char>
    decreases bytes.len(),
{
    if bytes.len() == 0 {
        Seq::<char>::empty()
    } else {
        hex_lower(bytes.drop_last()) + seq![
            hex_char((bytes.last() / 16) as nat),
            hex_char((bytes.last() % 16) as nat),
        ]
    }
}

/// The bytes of a sequence of ASCII characters.
pub open spec fn ascii_bytes(s: Seq<char>) -> Seq<u8> {
    s.map_values(|c: char| c as u8)
}

// ---------------------------------------------------------------------------
// Integer parsing
// ---------------------------------------------------------------------------

/// Whether `c` is an ASCII decimal digit.
pub open spec fn is_digit(c: char) -> bool {
    '0' <= c <= '9'
}

/// The value of the ASCII digit `c`.
pub open spec fn digit_value(c: char) -> int {
    (c as u32) - 48
}

/// The value of a string of decimal digits.
pub open spec fn digits_value(s: Seq<char>) -> int
    decreases s.len(),
{
    if s.len() == 0 {
        0
    } else {
        10 * digits_value(s.drop_last()) + digit_value(s.last())
    }
}

/// Whether every character of `s` is an ASCII digit.
pub open spec fn all_digits(s: Seq<char>) -> bool {
    forall|k: int| 0 <= k < s.len() ==> is_digit(#[trigger] s[k])
}

/// The length of a leading `+` or `-` sign (0 or 1).
pub open spec fn sign_len(s: Seq<char>) -> int {
    if s.len() > 0 && (s[0] == '-' || s[0] == '+') {
        1
    } else {
        0
    }
}

/// The signed value that the digits after the sign spell.
pub open spec fn signed_value(s: Seq<char>) -> int {
    let body = s.subrange(sign_len(s), s.len() as int);
    if s.len() > 0 && s[0] == '-' {
        -digits_value(body)
    } else {
        digits_value(body)
    }
}

/// `i64::from_str`: an optional `+` or `-`, then at least one decimal digit,
/// and a value that fits in an `i64`. Nothing else is accepted (no white
/// space).
pub open spec fn parse_i64(s: Seq<char>) -> Option<i64> {
    let body = s.subrange(sign_len(s), s.len() as int);
    if body.len() == 0 || !all_digits(body) {
        None
    } else if i64::MIN <= signed_value(s) <= i64::MAX {
        Some(signed_value(s) as i64)
    } else {
        None
    }
}

proof fn lemma_digits_value_monotone(s: Seq<char>, i: int)
    requires
        0 <= i <= s.len(),
        forall|k: int| 0 <= k < s.len() ==> is_digit(#[trigger] s[k]),
    ensures
        0 <= digits_value(s.subrange(0, i)) <= digits_value(s),
    decreases s.len() - i,
{
    if i == s.len() {
        assert(s.subrange(0, i) =~= s);
        lemma_digits_value_nonneg(s);
    } else {
        lemma_digits_value_monotone(s, i + 1);
        let p = s.subrange(0, i + 1);
        assert(p.drop_last() =~= s.subrange(0, i));
        assert(is_digit(s[i]));
        lemma_digits_value_nonneg(s.subrange(0, i));
    }
}

proof fn lemma_digits_value_nonneg(s: Seq<char>)
    requires
        forall|k: int| 0 <= k < s.len() ==> is_digit(#[trigger] s[k]),
    ensures
        digits_value(s) >= 0,
    decreases s.len(),
{
    if s.len() > 0 {
        let t = s.drop_last();
        assert forall|k: int| 0 <= k < t.len() implies is_digit(#[trigger] t[k]) by {
            assert(t[k] == s[k]);
        }
        lemma_digits_value_nonneg(t);
        assert(is_digit(s[s.len() - 1]));
    }
}

/// `str::parse::<i64>` on a character slice.
pub fn parse_i64_chars(cs: &[char]) -> (r: Option<i64>)
    ensures
        r == parse_i64(cs@),
{
    let n = cs.len();
    let neg = n > 0 && cs[0] == '-';
    let start: usize = if n > 0 && (cs[0] == '-' || cs[0] == '+') {
        1
    } else {
        0
    };
    let ghost body = cs@.subrange(start as int, n as int);
    assert(start == sign_len(cs@));
    if start == n {
        return None;
    }
    // The magnitude limit: 2^63 for a negative value, 2^63 - 1 otherwise.
    let limit: u128 = if neg {
        9223372036854775808u128
    } else {
        9223372036854775807u128
    };
    let mut acc: u128 = 0;
    let mut i: usize = start;
    while i < n
        invariant
            start <= i <= n,
            n == cs@.len(),
            start < n,
            body == cs@.subrange(start as int, n as int),
            forall|k: int| start <= k < i ==> is_digit(#[trigger] cs@[k]),
            acc == digits_value(cs@.subrange(start as int, i as int)),
            acc <= limit,
            start == sign_len(cs@),
            neg <==> (cs@.len() > 0 && cs@[0] == '-'),
            limit == (if neg { 9223372036854775808u128 } else { 9223372036854775807u128 }),
        decreases n - i,
    {
        let c = cs[i];
        if !('0' <= c && c <= '9') {
            assert(body[i - start] == c);
            assert(!is_digit(c));
            assert(!is_digit(body[i - start]));
            assert(!all_digits(body));
            return None;
        }
        let d: u128 = ((c as u32) - 48) as u128;
        let ghost pre = cs@.subrange(start as int, i as int);
        let ghost nxt = cs@.subrange(start as int, i as int + 1);
        assert(nxt.drop_last() =~= pre);
        acc = acc * 10 + d;
        i = i + 1;
        if acc > limit {
            proof {
                // Every remaining character must still be a digit for the
                // value to parse, and more digits only make it larger.
                if all_digits(body) {
                    lemma_digits_value_monotone(body, (i - start) as int);
                    assert(body.subrange(0, (i - start) as int) =~= nxt);
                }
            }
            return None;
        }
    }
    proof {
        assert(cs@.subrange(start as int, i as int) =~= body);
        assert forall|k: int| 0 <= k < body.len() implies is_digit(#[trigger] body[k]) by {
            assert(body[k] == cs@[k + start]);
        }
        assert(all_digits(body));
    }
    if neg {
        if acc == 9223372036854775808u128 {
            Some(i64::MIN)
        } else {
            Some(-(acc as i64))
        }
    } else {
        Some(acc as i64)
    }
}

/// The decimal rendering of `n` is a non-empty run of digits that spells
/// `n`.
pub proof fn lemma_dec_digits_round_trip(n: nat)
    ensures
        dec_digits(n).len() > 0,
        all_digits(dec_digits(n)),
        digits_value(dec_digits(n)) == n,
    decreases n,
{
    if n < 10 {
        let s = seq![digit_char(n)];
        assert(digit_value(digit_char(n)) == n);
        assert(s.drop_last() =~= Seq::<char>::empty());
        assert(s.last() == digit_char(n));
        assert(digits_value(s) == 10 * digits_value(Seq::<char>::empty()) + digit_value(digit_char(n)));
    } else {
        lemma_dec_digits_round_trip(n / 10);
        let d = dec_digits(n / 10);
        let s = d.push(digit_char(n % 10));
        assert(s.drop_last() =~= d);
        assert(digit_value(digit_char(n % 10)) == n % 10);
        assert(n == 10 * (n / 10) + n % 10);
        assert(dec_digits(n) == s);
        assert(s.last() == digit_char(n % 10));
        assert(digits_value(s) == 10 * digits_value(d) + digit_value(digit_char(n % 10)));
        assert forall|k: int| 0 <= k < s.len() implies is_digit(#[trigger] s[k]) by {
            if k < d.len() {
                assert(s[k] == d[k]);
            }
        }
    }
}

/// `i64::from_str` reads back what `i64::to_string` wrote.
pub proof fn lemma_parse_i64_of_dec(n: i64)
    ensures
        parse_i64(dec_i64(n)) == Some(n),
{
    let s = dec_i64(n);
    if n < 0 {
        let m = (-(n as int)) as nat;
        lemma_dec_digits_round_trip(m);
        let d = dec_digits(m);
        assert(s == seq!['-'] + d);
        assert(sign_len(s) == 1);
        assert(s.subrange(1, s.len() as int) =~= d);
    } else {
        lemma_dec_digits_round_trip(n as nat);
        let d = dec_digits(n as nat);
        assert(is_digit(d[0]));
        assert(sign_len(s) == 0);
        assert(s.subrange(0, s.len() as int) =~= d);
    }
}

/// A text with no white space is its own trim.
pub proof fn lemma_trim_without_space(s: Seq<char>)
    requires
        forall|k: int| 0 <= k < s.len() ==> !is_ws(#[trigger] s[k]),
    ensures
        trim(s) == s,
{
    lemma_trim_start_at(s, 0);
    assert(s.subrange(0, s.len() as int) =~= s);
    lemma_trim_end_at(s, s.len() as int);
}

/// Every character of `dec_i64(n)` is a digit or a minus sign.
pub proof fn lemma_dec_i64_chars(n: i64)
    ensures
        forall|k: int| 0 <= k < dec_i64(n).len() ==> is_digit(#[trigger] dec_i64(n)[k]) || dec_i64(n)[k] == '-',
{
    if n < 0 {
        let m = (-(n as int)) as nat;
        lemma_dec_digits_round_trip(m);
        let d = dec_digits(m);
        assert forall|k: int| 0 <= k < dec_i64(n).len() implies is_digit(#[trigger] dec_i64(n)[k]) || dec_i64(
            n,
        )[k] == '-' by {
            if k > 0 {
                assert(dec_i64(n)[k] == d[k - 1]);
            }
        }
    } else {
        lemma_dec_digits_round_trip(n as nat);
    }
}

/// Every character of a lower-case hex rendering is a digit or `a`..`f`.
pub proof fn lemma_hex_lower_chars(bytes: Seq<u8>)
    ensures
        forall|k: int|
            0 <= k < hex_lower(bytes).len() ==> is_digit(#[trigger] hex_lower(bytes)[k]) || ('a' <= hex_lower(
                bytes,
            )[k] && hex_lower(bytes)[k] <= 'f'),
    decreases bytes.len(),
{
    if bytes.len() > 0 {
        lemma_hex_lower_chars(bytes.drop_last());
        let h = hex_lower(bytes.drop_last());
        let b = bytes.last();
        let hi = hex_char((b / 16) as nat);
        let lo = hex_char((b % 16) as nat);
        let s = hex_lower(bytes);
        assert(s == h + seq![hi, lo]);
        assert forall|k: int| 0 <= k < s.len() implies is_digit(#[trigger] s[k]) || ('a' <= s[k] && s[k] <= 'f') by {
            if k < h.len() {
                assert(s[k] == h[k]);
            } else if k == h.len() {
                assert(s[k] == hi);
            } else {
                assert(s[k] == lo);
            }
        }
    }
}

/// Splitting a text extended by separator-free characters extends its last
/// piece.
pub proof fn lemma_split_any_extend(prefix: Seq<char>, x: Seq<char>, seps: Seq<char>)
    requires
        forall|k: int| 0 <= k < x.len() ==> !seps.contains(#[trigger] x[k]),
    ensures
        split_any(prefix + x, seps) == split_any(prefix, seps).update(
            split_any(prefix, seps).len() - 1,
            split_any(prefix, seps).last() + x,
        ),
    decreases x.len(),
{
    lemma_split_any_nonempty(prefix, seps);
    if x.len() == 0 {
        assert(prefix + x =~= prefix);
        assert(split_any(prefix, seps).last() + x =~= split_any(prefix, seps).last());
        assert(split_any(prefix, seps).update(split_any(prefix, seps).len() - 1, split_any(prefix, seps).last())
            =~= split_any(prefix, seps));
    } else {
        let y = x.drop_last();
        assert forall|k: int| 0 <= k < y.len() implies !seps.contains(#[trigger] y[k]) by {
            assert(y[k] == x[k]);
        }
        lemma_split_any_extend(prefix, y, seps);
        assert((prefix + x).drop_last() =~= prefix + y);
        assert((prefix + x).last() == x.last());
        let r = split_any(prefix, seps);
        let rest = split_any(prefix + y, seps);
        assert(x.last() == x[x.len() - 1]);
        assert(!seps.contains(x.last()));
        assert(rest.len() == r.len());
        assert(rest.last() == r.last() + y);
        assert((r.last() + y).push(x.last()) =~= r.last() + x);
        assert(split_any(prefix + x, seps) =~= r.update(r.len() - 1, r.last() + x));
    }
}

/// Splitting a text extended by a separator starts a new, empty piece.
pub proof fn lemma_split_any_separator(prefix: Seq<char>, c: char, seps: Seq<char>)
    requires
        seps.contains(c),
    ensures
        split_any(prefix.push(c), seps) == split_any(prefix, seps).push(Seq::<char>::empty()),
{
    assert(prefix.push(c).drop_last() =~= prefix);
}

/// The length of a leading `+`.
pub open spec fn plus_len(s: Seq<char>) -> int {
    if s.len() > 0 && s[0] == '+' {
        1
    } else {
        0
    }
}

/// `usize::from_str`: an optional `+`, then at least one decimal digit, and
/// a value that fits in a `usize`. A `-` is never accepted.
pub open spec fn parse_usize(s: Seq<char>) -> Option<usize> {
    let body = s.subrange(plus_len(s), s.len() as int);
    if body.len() == 0 || !all_digits(body) {
        None
    } else if digits_value(body) <= usize::MAX {
        Some(digits_value(body) as usize)
    } else {
        None
    }
}

/// `str::parse::<usize>` on a character slice.
pub fn parse_usize_chars(cs: &[char]) -> (r: Option<usize>)
    ensures
        r == parse_usize(cs@),
{
    let n = cs.len();
    let start: usize = if n > 0 && cs[0] == '+' {
        1
    } else {
        0
    };
    let ghost body = cs@.subrange(start as int, n as int);
    assert(start == plus_len(cs@));
    if start == n {
        return None;
    }
    let limit: u128 = usize::MAX as u128;
    let mut acc: u128 = 0;
    let mut i: usize = start;
    while i < n
        invariant
            start <= i <= n,
            n == cs@.len(),
            start < n,
            body == cs@.subrange(start as int, n as int),
            forall|k: int| start <= k < i ==> is_digit(#[trigger] cs@[k]),
            acc == digits_value(cs@.subrange(start as int, i as int)),
            acc <= limit,
            limit == usize::MAX,
            start == plus_len(cs@),
        decreases n - i,
    {
        let c = cs[i];
        if !('0' <= c && c <= '9') {
            assert(body[i - start] == c);
            assert(!all_digits(body));
            return None;
        }
        let d: u128 = ((c as u32) - 48) as u128;
        let ghost pre = cs@.subrange(start as int, i as int);
        let ghost nxt = cs@.subrange(start as int, i as int + 1);
        assert(nxt.drop_last() =~= pre);
        acc = acc * 10 + d;
        i = i + 1;
        if acc > limit {
            proof {
                if all_digits(body) {
                    lemma_digits_value_monotone(body, (i - start) as int);
                    assert(body.subrange(0, (i - start) as int) =~= nxt);
                }
            }
            return None;
        }
    }
    proof {
        assert(cs@.subrange(start as int, i as int) =~= body);
        assert forall|k: int| 0 <= k < body.len() implies is_digit(#[trigger] body[k]) by {
            assert(body[k] == cs@[k + start]);
        }
        assert(all_digits(body));
    }
    Some(acc as usize)
}

// ---------------------------------------------------------------------------
// Case mapping, trailing characters, messages with numbers
// ---------------------------------------------------------------------------

/// What `str::to_lowercase` makes of a string: the Unicode lowercase mapping
/// of each character, with the final-sigma rule.
pub uninterp spec fn unicode_lowercase(s: Seq<char>) -> Seq<char>;

/// `str::to_lowercase`.
///
/// Trusted: the result is [`unicode_lowercase`] of the text, a function of
/// the text alone.
#[verifier::external_body]
pub(crate) fn to_lowercase(s: &str) -> (r: String)
    ensures
        r@ == unicode_lowercase(s@),
{
    s.to_lowercase()
}

/// `s` without any trailing run of `c` (`str::trim_end_matches(c)`).
pub open spec fn strip_trailing(s: Seq<char>, c: char) -> Seq<char>
    decreases s.len(),
{
    if s.len() > 0 && s.last() == c {
        strip_trailing(s.drop_last(), c)
    } else {
        s
    }
}

/// `s` without any trailing run of `c`.
pub fn trim_end_char(s: &str, c: char) -> (r: String)
    ensures
        r@ == strip_trailing(s@, c),
{
    let cs = chars_of(s);
    let mut n: usize = cs.len();
    assert(cs@.subrange(0, n as int) =~= cs@);
    while n > 0 && cs[n - 1] == c
        invariant
            n <= cs@.len(),
            strip_trailing(cs@, c) == strip_trailing(cs@.subrange(0, n as int), c),
        decreases n,
    {
        assert(cs@.subrange(0, n as int).drop_last() =~= cs@.subrange(0, n - 1));
        n = n - 1;
    }
    let v = sub_chars(cs.as_slice(), 0, n);
    string_from_chars(v.as_slice())
}

/// The text `prefix`, then the decimal digits of `n`, then `suffix`.
pub fn join_number(prefix: &str, n: u64, suffix: &str) -> (r: String)
    ensures
        r@ == prefix@ + dec_digits(n as nat) + suffix@,
{
    let mut v: Vec<char> = Vec::new();
    append_str(&mut v, prefix);
    push_decimal(&mut v, n);
    append_str(&mut v, suffix);
    string_from_chars(v.as_slice())
}

/// The parts, in order, with `sep` between neighbours (`[..].join(sep)`).
pub open spec fn joined(parts: Seq<Seq<char>>, sep: Seq<char>) -> Seq<char>
    decreases parts.len(),
{
    if parts.len() == 0 {
        Seq::<char>::empty()
    } else if parts.len() == 1 {
        parts[0]
    } else {
        joined(parts.drop_last(), sep) + sep + parts.last()
    }
}

/// The strings of `parts` joined with `sep`.
pub fn join_strings(parts: &[String], sep: &str) -> (r: String)
    ensures
        r@ == joined(string_views(parts@), sep@),
{
    let ghost ps = string_views(parts@);
    let mut v: Vec<char> = Vec::new();
    let mut i: usize = 0;
    while i < parts.len()
        invariant
            i <= parts@.len(),
            ps == string_views(parts@),
            v@ == joined(ps.subrange(0, i as int), sep@),
        decreases parts@.len() - i,
    {
        proof {
            assert(ps.subrange(0, i as int + 1).drop_last() =~= ps.subrange(0, i as int));
        }
        if i > 0 {
            append_str(&mut v, sep);
        }
        append_str(&mut v, parts[i].as_str());
        i = i + 1;
        proof {
            let sub = ps.subrange(0, i as int);
            assert(sub.last() == parts@[i - 1]@);
            if i == 1 {
                assert(v@ =~= sub[0]);
            }
        }
    }
    assert(ps.subrange(0, parts@.len() as int) =~= ps);
    string_from_chars(v.as_slice())
}

// ---------------------------------------------------------------------------
// Replacing a pattern
// ---------------------------------------------------------------------------

/// `with` before each character of `s` and once more at its end: what
/// replacing the empty pattern makes of `s`.
pub open spec fn interleave(s: Seq<char>, with: Seq<char>) -> Seq<char>
    decreases s.len(),
{
    if s.len() == 0 {
        with
    } else {
        with + seq![s[0]] + interleave(s.subrange(1, s.len() as int), with)
    }
}

/// `s` with every occurrence of `pat`, found left to right without
/// overlap, replaced by `with` (`str::replace`); an empty `pat` occurs
/// before each character and at the end.
pub open spec fn replace_all(s: Seq<char>, pat: Seq<char>, with: Seq<char>) -> Seq<char>
    decreases s.len(),
{
    if pat.len() == 0 {
        interleave(s, with)
    } else if s.len() < pat.len() {
        s
    } else if s.subrange(0, pat.len() as int) == pat {
        with + replace_all(s.subrange(pat.len() as int, s.len() as int), pat, with)
    } else {
        seq![s[0]] + replace_all(s.subrange(1, s.len() as int), pat, with)
    }
}

/// `with` before each character of `cs` and at the end.
fn interleave_chars(cs: &[char], ws: &[char]) -> (r: Vec<char>)
    ensures
        r@ == interleave(cs@, ws@),
{
    let n = cs.len();
    let mut out: Vec<char> = Vec::new();
    let mut i: usize = 0;
    assert(cs@.subrange(0, n as int) =~= cs@);
    while i < n
        invariant
            n == cs@.len(),
            i <= n,
            out@ + interleave(cs@.subrange(i as int, n as int), ws@) == interleave(cs@, ws@),
        decreases n - i,
    {
        let ghost rest = cs@.subrange(i as int, n as int);
        assert(rest.subrange(1, rest.len() as int) =~= cs@.subrange(i + 1, n as int));
        assert(rest[0] == cs@[i as int]);
        let ghost before = out@;
        append_chars(&mut out, ws);
        out.push(cs[i]);
        assert(out@ =~= before + ws@ + seq![cs@[i as int]]);
        assert(before + interleave(rest, ws@) =~= out@ + interleave(cs@.subrange(i + 1, n as int), ws@));
        i = i + 1;
    }
    assert(cs@.subrange(n as int, n as int) =~= Seq::<char>::empty());
    append_chars(&mut out, ws);
    out
}

/// Replace every occurrence of `pat` in `s` by `with`, as `str::replace`
/// does.
pub fn replace_str(s: &str, pat: &str, with: &str) -> (r: String)
    ensures
        r@ == replace_all(s@, pat@, with@),
{
    let cs = chars_of(s);
    let ps = chars_of(pat);
    let ws = chars_of(with);
    let n = cs.len();
    let m = ps.len();
    if m == 0 {
        let out = interleave_chars(cs.as_slice(), ws.as_slice());
        return string_from_chars(out.as_slice());
    }
    let mut out: Vec<char> = Vec::new();
    let mut i: usize = 0;
    assert(cs@.subrange(0, n as int) =~= cs@);
    while i < n
        invariant
            n == cs@.len(),
            m == ps@.len(),
            m > 0,
            i <= n,
            out@ + replace_all(cs@.subrange(i as int, n as int), ps@, ws@) == replace_all(cs@, ps@, ws@),
        decreases n - i,
    {
        let ghost rest = cs@.subrange(i as int, n as int);
        if n - i >= m && chars_eq(&cs.as_slice()[i..i + m], ps.as_slice()) {
            proof {
                assert(rest.subrange(0, m as int) =~= cs@.subrange(i as int, i + m));
                assert(rest.subrange(m as int, rest.len() as int) =~= cs@.subrange(i + m, n as int));
            }
            append_chars(&mut out, ws.as_slice());
            i = i + m;
        } else {
            proof {
                if rest.len() >= m {
                    assert(rest.subrange(0, m as int) =~= cs@.subrange(i as int, i + m));
                    assert(rest.subrange(1, rest.len() as int) =~= cs@.subrange(i + 1, n as int));
                } else {
                    assert(cs@.subrange(i + 1, n as int).len() < m);
                    assert(rest =~= seq![cs@[i as int]] + cs@.subrange(i + 1, n as int));
                }
            }
            out.push(cs[i]);
            i = i + 1;
        }
    }
    assert(cs@.subrange(n as int, n as int) =~= Seq::<char>::empty());
    assert(out@ =~= replace_all(cs@, ps@, ws@));
    string_from_chars(out.as_slice())
}

/// What `format!("{:?}", s)` makes of a string: the text in double quotes,
/// with quotes, backslashes and unprintable characters escaped.
pub uninterp spec fn debug_text(s: Seq<char>) -> Seq<char>;

/// The `Debug` rendering of a string.
///
/// Trusted: the result is [`debug_text`] of the string, a function of the
/// string alone.
#[verifier::external_body]
pub(crate) fn debug_quoted(s: &str) -> (r: String)
    ensures
        r@ == debug_text(s@),
{
    format!("{:?}", s)
}

} // verus!
