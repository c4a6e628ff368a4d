//! Character-level text operations used by the parsers of this crate:
//! splitting at a separator, substring search, and decimal numbers.
use vstd::prelude::*;
use vstd::utf8::decode_utf8;
use vstd::utf8::valid_utf8;

verus! {

/// The characters of `s`, in order.
pub fn chars_of(s: &str) -> (v: Vec<char>)
    ensures
        v@ == s@,
{
    let mut v: Vec<char> = Vec::new();
    for c in it: s.chars()
        invariant
            v@ == it.seq().take(it.index() as int),
    {
        v.push(c);
    }
    v
}

/// Builds a `String` out of a sequence of characters (`FromIterator<char>`
/// of std). Trusted: the string holds exactly the given characters, in order.
#[verifier::external_body]
pub(crate) fn string_from_chars(v: &[char]) -> (s: String)
    ensures
        s@ == v@,
{
    v.iter().collect()
}

/// The UTF-8 text of a byte string (`std::str::from_utf8`). Trusted: it is
/// `Some` exactly for valid UTF-8, and then holds the decoded characters.
#[verifier::external_body]
pub(crate) fn utf8_decode(bytes: &[u8]) -> (r: Option<String>)
    ensures
        r is Some <==> valid_utf8(bytes@),
        r matches Some(s) ==> s@ == decode_utf8(bytes@),
{
    std::str::from_utf8(bytes).ok().map(|s| s.to_string())
}

/// Concatenation of two strings.
pub fn concat_strings(a: &str, b: &str) -> (s: String)
    ensures
        s@ == a@ + b@,
{
    let mut v = chars_of(a);
    let w = chars_of(b);
    for i in 0..w.len()
        invariant
            v@ == a@ + w@.take(i as int),
            w@ == b@,
    {
        v.push(w[i]);
        assert(w@.take(i + 1) == w@.take(i as int).push(w@[i as int]));
    }
    assert(w@.take(w@.len() as int) == w@);
    string_from_chars(v.as_slice())
}

// ---------------------------------------------------------------------------
// Splitting
// ---------------------------------------------------------------------------

/// The pieces of `s` between occurrences of `sep`, as `str::split` yields
/// them: there is always at least one piece, and `n` separators give `n + 1`
/// pieces (some of which may be empty).
pub open spec fn split_seq(s: Seq<char>, sep: char) -> Seq<Seq<char>>
    decreases s.len(),
{
    if s.len() == 0 {
        seq![Seq::<char>::empty()]
    } else {
        let r = split_seq(s.drop_last(), sep);
        if s.last() == sep {
            r.push(Seq::<char>::empty())
        } else {
            r.update(r.len() - 1, r.last().push(s.last()))
        }
    }
}

/// The views of a sequence of strings.
pub open spec fn views(v: Seq<String>) -> Seq<Seq<char>> {
    v.map_values(|p: String| p@)
}

pub proof fn lemma_split_nonempty(s: Seq<char>, sep: char)
    ensures
        split_seq(s, sep).len() >= 1,
    decreases s.len(),
{
    if s.len() > 0 {
        lemma_split_nonempty(s.drop_last(), sep);
    }
}

/// Splitting a text that does not contain the separator gives the text back
/// as the only piece.
pub proof fn lemma_split_without_sep(s: Seq<char>, sep: char)
    requires
        !s.contains(sep),
    ensures
        split_seq(s, sep) == seq![s],
    decreases s.len(),
{
    if s.len() > 0 {
        assert(!s.drop_last().contains(sep)) by {
            if s.drop_last().contains(sep) {
                let i = choose|i: int| 0 <= i < s.drop_last().len() && s.drop_last()[i] == sep;
                assert(s[i] == sep);
            }
        }
        lemma_split_without_sep(s.drop_last(), sep);
        assert(s.last() != sep) by {
            assert(s[s.len() - 1] == s.last());
        }
        assert(s.drop_last().push(s.last()) == s);
        let r = split_seq(s.drop_last(), sep);
        assert(r.update(r.len() - 1, r.last().push(s.last())) =~= seq![s]);
    } else {
        assert(s =~= Seq::<char>::empty());
    }
}

/// Splitting `a + [sep] + b` splits `a` and `b` separately.
pub proof fn lemma_split_append(a: Seq<char>, b: Seq<char>, sep: char)
    ensures
        split_seq(a.push(sep) + b, sep) == split_seq(a, sep) + split_seq(b, sep),
    decreases b.len(),
{
    lemma_split_nonempty(a, sep);
    lemma_split_nonempty(b, sep);
    if b.len() == 0 {
        assert(a.push(sep) + b == a.push(sep));
        assert(a.push(sep).drop_last() == a);
        assert(split_seq(a, sep).push(Seq::<char>::empty()) == split_seq(a, sep) + split_seq(b, sep));
    } else {
        let ab = a.push(sep) + b;
        assert(ab.drop_last() == a.push(sep) + b.drop_last());
        assert(ab.last() == b.last());
        lemma_split_append(a, b.drop_last(), sep);
        lemma_split_nonempty(b.drop_last(), sep);
        let left = split_seq(a, sep);
        let rb = split_seq(b.drop_last(), sep);
        if b.last() == sep {
            assert((left + rb).push(Seq::<char>::empty()) == left + rb.push(Seq::<char>::empty()));
        } else {
            assert((left + rb).update((left + rb).len() - 1, (left + rb).last().push(b.last()))
                == left + rb.update(rb.len() - 1, rb.last().push(b.last())));
        }
    }
}

/// The first piece of a split is the text up to the first separator (or the
/// whole text when there is none).
pub proof fn lemma_split_first(s: Seq<char>, sep: char)
    ensures
        split_seq(s, sep).len() >= 1,
        split_seq(s, sep)[0] == s.take(split_seq(s, sep)[0].len() as int),
        !split_seq(s, sep)[0].contains(sep),
        split_seq(s, sep).len() == 1 ==> split_seq(s, sep)[0] == s,
        split_seq(s, sep).len() > 1 ==> split_seq(s, sep)[0].len() < s.len() && s[split_seq(
            s,
            sep,
        )[0].len() as int] == sep,
    decreases s.len(),
{
    lemma_split_nonempty(s, sep);
    if s.len() == 0 {
        assert(s.take(0) =~= Seq::<char>::empty());
    } else {
        let d = s.drop_last();
        lemma_split_first(d, sep);
        let r = split_seq(d, sep);
        let f = r[0];
        if s.last() == sep {
            assert(split_seq(s, sep)[0] == f);
            assert(s.take(f.len() as int) == d.take(f.len() as int));
            if r.len() == 1 {
                assert(f == d);
                assert(s[d.len() as int] == sep);
            } else {
                assert(s[f.len() as int] == d[f.len() as int]);
            }
        } else {
            if r.len() == 1 {
                assert(split_seq(s, sep)[0] == f.push(s.last()));
                assert(f.push(s.last()) =~= s);
                assert(s.take(s.len() as int) == s);
                assert(!f.push(s.last()).contains(sep)) by {
                    if f.push(s.last()).contains(sep) {
                        let i = choose|i: int| 0 <= i < f.push(s.last()).len() && f.push(s.last())[i] == sep;
                        if i < f.len() {
                            assert(f[i] == sep);
                        }
                    }
                }
            } else {
                assert(split_seq(s, sep)[0] == f);
                assert(s.take(f.len() as int) == d.take(f.len() as int));
                assert(s[f.len() as int] == d[f.len() as int]);
            }
        }
    }
}

/// The first piece of a split is empty exactly when the text is empty or
/// begins with the separator.
pub proof fn lemma_split_first_empty(s: Seq<char>, sep: char)
    ensures
        split_seq(s, sep)[0].len() == 0 <==> (s.len() == 0 || s[0] == sep),
{
    lemma_split_first(s, sep);
    let f = split_seq(s, sep)[0];
    if s.len() > 0 && s[0] == sep && f.len() > 0 {
        assert(f[0] == s[0]);
        assert(f.contains(sep));
    }
}

/// Splits `s` at every occurrence of `sep`, as `str::split` does.
pub fn split_str(s: &str, sep: char) -> (parts: Vec<String>)
    ensures
        views(parts@) == split_seq(s@, sep),
{
    let cs = chars_of(s);
    let mut parts: Vec<String> = Vec::new();
    let mut cur: Vec<char> = Vec::new();
    for i in 0..cs.len()
        invariant
            cs@ == s@,
            views(parts@).push(cur@) == split_seq(cs@.take(i as int), sep),
    {
        let c = cs[i];
        proof {
            assert(cs@.take(i + 1).drop_last() == cs@.take(i as int));
            assert(cs@.take(i + 1).last() == c);
            lemma_split_nonempty(cs@.take(i as int), sep);
        }
        if c == sep {
            let piece = string_from_chars(cur.as_slice());
            let ghost prev = parts@;
            parts.push(piece);
            cur = Vec::new();
            assert(views(parts@) =~= views(prev).push(piece@));
        } else {
            cur.push(c);
        }
    }
    assert(cs@.take(cs@.len() as int) == cs@);
    let last = string_from_chars(cur.as_slice());
    let ghost prev = parts@;
    parts.push(last);
    assert(views(parts@) =~= views(prev).push(last@));
    parts
}

// ---------------------------------------------------------------------------
// Substring search
// ---------------------------------------------------------------------------

/// `needle` occurs in `hay` starting at position `i`.
pub open spec fn occurs_at(hay: Seq<char>, needle: Seq<char>, i: int) -> bool {
    0 <= i && i + needle.len() <= hay.len() && hay.subrange(i, i + needle.len()) == needle
}

/// `needle` is a substring of `hay` (as `str::contains` with a `&str` pattern).
pub open spec fn contains_seq(hay: Seq<char>, needle: Seq<char>) -> bool {
    exists|i: int| occurs_at(hay, needle, i)
}

fn matches_at(hay: &Vec<char>, needle: &Vec<char>, i: usize) -> (b: bool)
    requires
        i + needle@.len() <= hay@.len(),
    ensures
        b == occurs_at(hay@, needle@, i as int),
{
    let n = needle.len();
    let hl = hay.len();
    for j in 0..n
        invariant
            n == needle@.len(),
            hl == hay@.len(),
            i + n <= hay@.len(),
            forall|k: int| 0 <= k < j ==> hay@[i + k] == needle@[k],
    {
        assert(i + j < hay@.len());
        if hay[i + j] != needle[j] {
            assert(hay@.subrange(i as int, i + n)[j as int] != needle@[j as int]);
            return false;
        }
    }
    assert(hay@.subrange(i as int, i + n) =~= needle@);
    true
}

/// Whether `needle` is a substring of `hay`.
pub fn str_contains(hay: &str, needle: &str) -> (b: bool)
    ensures
        b == contains_seq(hay@, needle@),
{
    let h = chars_of(hay);
    let n = chars_of(needle);
    if n.len() > h.len() {
        assert forall|i: int| !occurs_at(hay@, needle@, i) by {}
        return false;
    }
    let last = h.len() - n.len();
    let mut i: usize = 0;
    loop
        invariant
            h@ == hay@,
            n@ == needle@,
            last + n@.len() == h@.len(),
            i <= last,
            forall|k: int| 0 <= k < i ==> !occurs_at(hay@, needle@, k),
        decreases last - i,
    {
        if matches_at(&h, &n, i) {
            return true;
        }
        if i == last {
            assert forall|k: int| !occurs_at(hay@, needle@, k) by {
                if 0 <= k <= i {
                }
            }
            return false;
        }
        i = i + 1;
    }
}

// ---------------------------------------------------------------------------
// Decimal numbers
// ---------------------------------------------------------------------------

pub open spec fn is_digit(c: char) -> bool {
    '0' <= c && c <= '9'
}

pub open spec fn digit_value(c: char) -> nat {
    (c as int - '0' as int) as nat
}

pub open spec fn digit_char(d: nat) -> char {
    (('0' as int) + d) as char
}

pub open spec fn all_digits(s: Seq<char>) -> bool {
    forall|i: int| 0 <= i < s.len() ==> is_digit(#[trigger] s[i])
}

/// The number that a string of decimal digits denotes.
pub open spec fn decimal_value(s: Seq<char>) -> nat
    decreases s.len(),
{
    if s.len() == 0 {
        0
    } else {
        decimal_value(s.drop_last()) * 10 + digit_value(s.last())
    }
}

/// The digits part of an unsigned number: an optional leading `+` is dropped.
pub open spec fn unsigned_digits(s: Seq<char>) -> Seq<char> {
    if s.len() > 0 && s[0] == '+' {
        s.drop_first()
    } else {
        s
    }
}

/// What `usize::from_str` gives for `s`: an optional `+`, then one or more
/// ASCII digits whose value fits in a `usize`; anything else is an error.
pub open spec fn parse_usize_spec(s: Seq<char>) -> Option<usize> {
    let d = unsigned_digits(s);
    if d.len() > 0 && all_digits(d) && decimal_value(d) <= usize::MAX {
        Some(decimal_value(d) as usize)
    } else {
        None
    }
}

/// The shortest decimal representation of `n` (as `usize::to_string`).
pub open spec fn decimal_repr(n: nat) -> Seq<char>
    decreases n,
{
    if n < 10 {
        seq![digit_char(n)]
    } else {
        decimal_repr(n / 10).push(digit_char(n % 10))
    }
}

proof fn lemma_decimal_prefix_le(s: Seq<char>, k: int)
    requires
        0 <= k <= s.len(),
    ensures
        decimal_value(s.take(k)) <= decimal_value(s),
    decreases s.len() - k,
{
    if k < s.len() {
        lemma_decimal_prefix_le(s, k + 1);
        assert(s.take(k + 1).drop_last() == s.take(k));
    } else {
        assert(s.take(k) == s);
    }
}

/// Parses `s` as `usize::from_str` does.
pub fn parse_usize(s: &str) -> (r: Option<usize>)
    ensures
        r == parse_usize_spec(s@),
{
    let cs = chars_of(s);
    let n = cs.len();
    let start: usize = if n > 0 && cs[0] == '+' { 1 } else { 0 };
    let ghost d = unsigned_digits(s@);
    assert(d == cs@.subrange(start as int, n as int));
    if start == n {
        return None;
    }
    let mut acc: usize = 0;
    assert(d.take(0) =~= Seq::<char>::empty());
    for i in start..n
        invariant
            cs@ == s@,
            n == cs@.len(),
            d == cs@.subrange(start as int, n as int),
            d == unsigned_digits(s@),
            start < n,
            all_digits(d.take(i - start)),
            acc == decimal_value(d.take(i - start)),
    {
        let c = cs[i];
        let ghost k = i - start;
        proof {
            assert(d[k] == c);
            assert(d.take(k + 1).drop_last() == d.take(k));
            assert(d.take(k + 1).last() == c);
        }
        if !(c >= '0' && c <= '9') {
            assert(!is_digit(c));
            assert(!is_digit(d[k]));
            assert(!all_digits(d));
            assert(parse_usize_spec(s@).is_none());
            return None;
        }
        let dv = (c as u32 - '0' as u32) as usize;
        assert(dv == digit_value(c));
        let next = match acc.checked_mul(10) {
            Some(m) => m.checked_add(dv),
            None => None,
        };
        match next {
            Some(v) => {
                acc = v;
                assert(all_digits(d.take(k + 1))) by {
                    assert forall|j: int| 0 <= j < k + 1 implies is_digit(#[trigger] d.take(k + 1)[j]) by {
                        if j < k {
                            assert(d.take(k + 1)[j] == d.take(k)[j]);
                        }
                    }
                }
            },
            None => {
                proof {
                    assert(decimal_value(d.take(k + 1)) == acc * 10 + dv);
                    lemma_decimal_prefix_le(d, k + 1);
                }
                return None;
            },
        }
    }
    assert(d.take(n - start) == d);
    Some(acc)
}

proof fn lemma_decimal_repr_digits(n: nat)
    ensures
        decimal_repr(n).len() > 0,
        all_digits(decimal_repr(n)),
        decimal_repr(n)[0] != '+',
        decimal_value(decimal_repr(n)) == n,
    decreases n,
{
    if n >= 10 {
        lemma_decimal_repr_digits(n / 10);
        let r = decimal_repr(n / 10);
        assert(decimal_repr(n).drop_last() == r);
        assert(digit_value(digit_char(n % 10)) == n % 10);
        assert(decimal_value(decimal_repr(n)) == (n / 10) * 10 + n % 10);
        assert(n == (n / 10) * 10 + n % 10) by (nonlinear_arith);
        assert forall|i: int| 0 <= i < decimal_repr(n).len() implies is_digit(#[trigger] decimal_repr(n)[i]) by {
            if i < r.len() {
                assert(decimal_repr(n)[i] == r[i]);
            }
        }
    } else {
        assert(seq![digit_char(n)].drop_last() =~= Seq::<char>::empty());
        assert(digit_value(digit_char(n)) == n);
        assert(decimal_value(Seq::<char>::empty()) == 0);
        assert(decimal_repr(n).last() == digit_char(n));
        assert(decimal_value(decimal_repr(n)) == decimal_value(decimal_repr(n).drop_last()) * 10 + digit_value(digit_char(n)));
    }
}

/// Parsing the decimal representation of a number gives the number back.
pub proof fn lemma_parse_decimal_repr(n: usize)
    ensures
        parse_usize_spec(decimal_repr(n as nat)) == Some(n),
{
    lemma_decimal_repr_digits(n as nat);
}

/// The decimal representation of `n` (as `usize::to_string`).
pub fn format_usize(n: usize) -> (s: String)
    ensures
        s@ == decimal_repr(n as nat),
{
    let v = format_usize_chars(n);
    string_from_chars(v.as_slice())
}

fn format_usize_chars(n: usize) -> (v: Vec<char>)
    ensures
        v@ == decimal_repr(n as nat),
    decreases n,
{
    let c = (('0' as u32) + ((n % 10) as u32)) as u8 as char;
    assert(c == digit_char((n % 10) as nat)) by {
        assert((('0' as u32) + ((n % 10) as u32)) < 256);
    }
    if n < 10 {
        vec![c]
    } else {
        let mut v = format_usize_chars(n / 10);
        v.push(c);
        v
    }
}

} // verus!
