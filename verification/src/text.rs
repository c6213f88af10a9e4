//! Text helpers over sequences of characters.

use vstd::prelude::*;
use vstd::string::*;

verus! {

/// `String::push` of the standard library appends the character to the end of
/// the string and changes nothing else.
pub assume_specification[ String::push ](s: &mut String, c: char)
    ensures
        final(s)@ == old(s)@.push(c),
;

/// The characters of `s`, in order.
pub fn chars_of(s: &str) -> (v: Vec<char>)
    ensures
        v@ == s@,
{
    let mut v: Vec<char> = Vec::new();
    for c in it: s.chars()
        invariant
            v@ == s@.take(it.index() as int),
            it.seq() == s@,
    {
        v.push(c);
    }
    v
}

/// The string made of the characters of `v`, in order.
pub fn string_of(v: &[char]) -> (s: String)
    ensures
        s@ == v@,
{
    let mut s = String::new();
    let mut i: usize = 0;
    while i < v.len()
        invariant
            i <= v.len(),
            s@ == v@.take(i as int),
        decreases v.len() - i,
    {
        s.push(v[i]);
        i = i + 1;
    }
    s
}

/// The views of the strings of `parts`, in order.
pub open spec fn views(parts: Seq<String>) -> Seq<Seq<char>> {
    parts.map_values(|s: String| s@)
}

/// The decimal digit that stands for `d`, for `d` below ten.
pub open spec fn digit_char(d: int) -> char {
    if d == 0 {
        '0'
    } else if d == 1 {
        '1'
    } else if d == 2 {
        '2'
    } else if d == 3 {
        '3'
    } else if d == 4 {
        '4'
    } else if d == 5 {
        '5'
    } else if d == 6 {
        '6'
    } else if d == 7 {
        '7'
    } else if d == 8 {
        '8'
    } else {
        '9'
    }
}

/// The decimal digits of `n`, most significant first, without leading zeros.
pub open spec fn decimal_digits(n: nat) -> Seq<char>
    decreases n,
{
    if n < 10 {
        seq![digit_char(n as int)]
    } else {
        decimal_digits(n / 10).push(digit_char((n % 10) as int))
    }
}

/// The decimal text of `n`: a minus sign for a negative number, then its
/// digits.
pub open spec fn decimal(n: int) -> Seq<char> {
    if n < 0 {
        seq!['-'] + decimal_digits((-n) as nat)
    } else {
        decimal_digits(n as nat)
    }
}

/// The decimal text of `n` in at least two places, with a leading zero for a
/// number below ten.
pub open spec fn two_digits(n: nat) -> Seq<char> {
    if n < 10 {
        seq!['0'] + decimal_digits(n)
    } else {
        decimal_digits(n)
    }
}

fn digit(d: u64) -> (c: char)
    requires
        d < 10,
    ensures
        c == digit_char(d as int),
{
    if d == 0 {
        '0'
    } else if d == 1 {
        '1'
    } else if d == 2 {
        '2'
    } else if d == 3 {
        '3'
    } else if d == 4 {
        '4'
    } else if d == 5 {
        '5'
    } else if d == 6 {
        '6'
    } else if d == 7 {
        '7'
    } else if d == 8 {
        '8'
    } else {
        '9'
    }
}

proof fn lemma_reverse_push(s: Seq<char>, c: char)
    ensures
        s.push(c).reverse() == seq![c] + s.reverse(),
{
    assert(s.push(c).reverse() =~= seq![c] + s.reverse());
}

/// Appends the decimal digits of `n` to `out`.
fn push_digits(out: &mut Vec<char>, n: u64)
    ensures
        final(out)@ == old(out)@ + decimal_digits(n as nat),
{
    let mut low: Vec<char> = Vec::new();
    let mut m: u64 = n;
    while m >= 10
        invariant
            decimal_digits(n as nat) == decimal_digits(m as nat) + low@.reverse(),
        decreases m,
    {
        let d = digit(m % 10);
        proof {
            lemma_reverse_push(low@, d);
            assert(decimal_digits(m as nat) == decimal_digits((m / 10) as nat).push(d));
            assert(decimal_digits((m / 10) as nat).push(d) + low@.reverse() =~= decimal_digits(
                (m / 10) as nat,
            ) + (seq![d] + low@.reverse()));
        }
        low.push(d);
        m = m / 10;
    }
    let d = digit(m);
    proof {
        lemma_reverse_push(low@, d);
    }
    low.push(d);
    assert(low@.reverse() == decimal_digits(n as nat));
    let mut i: usize = low.len();
    while i > 0
        invariant
            i <= low.len(),
            out@ == old(out)@ + low@.reverse().take(low.len() - i),
        decreases i,
    {
        i = i - 1;
        out.push(low[i]);
        assert(low@.reverse().take(low.len() - i) =~= low@.reverse().take(low.len() - (i + 1)).push(
            low@[i as int],
        ));
    }
    assert(low@.reverse().take(low.len() as int) =~= low@.reverse());
}

/// The decimal text of a signed number, as `to_string` gives it.
pub fn decimal_string(n: i64) -> (s: String)
    ensures
        s@ == decimal(n as int),
{
    let mut out: Vec<char> = Vec::new();
    if n < 0 {
        out.push('-');
        let m: u64 = if n == i64::MIN {
            9223372036854775808u64
        } else {
            (-n) as u64
        };
        push_digits(&mut out, m);
    } else {
        push_digits(&mut out, n as u64);
    }
    string_of(out.as_slice())
}

/// The text of `n` in at least two places (`7` gives `07`, `123` gives `123`).
pub fn two_digit_string(n: u32) -> (s: String)
    ensures
        s@ == two_digits(n as nat),
{
    let mut out: Vec<char> = Vec::new();
    if n < 10 {
        out.push('0');
    }
    push_digits(&mut out, n as u64);
    string_of(out.as_slice())
}

/// The parts of `parts` in order, with `sep` between each two neighbours.
pub open spec fn join(parts: Seq<Seq<char>>, sep: Seq<char>) -> Seq<char>
    decreases parts.len(),
{
    if parts.len() == 0 {
        Seq::empty()
    } else if parts.len() == 1 {
        parts[0]
    } else {
        join(parts.drop_last(), sep) + sep + parts.last()
    }
}

/// Joins the strings of `parts` with `sep` between them.
pub fn join_strings(parts: &[String], sep: &str) -> (s: String)
    ensures
        s@ == join(views(parts@), sep@),
{
    let mut s = String::new();
    let mut i: usize = 0;
    while i < parts.len()
        invariant
            i <= parts.len(),
            s@ == join(views(parts@).take(i as int), sep@),
        decreases parts.len() - i,
    {
        proof {
            let next = views(parts@).take(i + 1);
            assert(next.drop_last() =~= views(parts@).take(i as int));
            assert(next.last() == parts@[i as int]@);
            if i == 0 {
                assert(s@ + parts@[i as int]@ =~= parts@[i as int]@);
            }
        }
        if i > 0 {
            s.append(sep);
        }
        s.append(parts[i].as_str());
        i = i + 1;
    }
    assert(views(parts@).take(parts.len() as int) =~= views(parts@));
    s
}

/// Whether `pat` stands in `s` at position `i`.
pub open spec fn occurs_at(s: Seq<char>, pat: Seq<char>, i: int) -> bool {
    0 <= i && i + pat.len() <= s.len() && s.subrange(i, i + pat.len()) == pat
}

/// Whether `pat` stands somewhere in `s`.
pub open spec fn contains(s: Seq<char>, pat: Seq<char>) -> bool {
    exists|i: int| occurs_at(s, pat, i)
}

/// Whether `pat` stands in `s` at position `i`.
fn matches_at(s: &[char], pat: &[char], i: usize) -> (b: bool)
    requires
        i <= s.len(),
    ensures
        b == occurs_at(s@, pat@, i as int),
{
    if pat.len() > s.len() - i {
        return false;
    }
    let mut j: usize = 0;
    while j < pat.len()
        invariant
            j <= pat.len(),
            i + pat.len() <= s.len(),
            forall|k: int| 0 <= k < j ==> s@[i + k] == pat@[k],
        decreases pat.len() - j,
    {
        if s[i + j] != pat[j] {
            assert(s@.subrange(i as int, i + pat.len())[j as int] != pat@[j as int]);
            return false;
        }
        j = j + 1;
    }
    assert(s@.subrange(i as int, i + pat.len()) =~= pat@);
    true
}

/// Whether `pat` stands somewhere in `s`.
pub fn contains_text(s: &str, pat: &str) -> (b: bool)
    ensures
        b == contains(s@, pat@),
{
    let hay = chars_of(s);
    let needle = chars_of(pat);
    let mut i: usize = 0;
    while i < hay.len()
        invariant
            i <= hay.len(),
            hay@ == s@,
            needle@ == pat@,
            forall|k: int| 0 <= k < i ==> !occurs_at(s@, pat@, k),
        decreases hay.len() - i,
    {
        if matches_at(hay.as_slice(), needle.as_slice(), i) {
            return true;
        }
        i = i + 1;
    }
    matches_at(hay.as_slice(), needle.as_slice(), i)
}

/// Whether `s` begins with `prefix`.
pub open spec fn has_prefix(s: Seq<char>, prefix: Seq<char>) -> bool {
    prefix.len() <= s.len() && s.take(prefix.len() as int) == prefix
}

/// What follows `prefix` in `s`, where `s` begins with it.
pub fn strip_prefix(s: &str, prefix: &str) -> (rest: Option<String>)
    ensures
        rest is Some <==> has_prefix(s@, prefix@),
        rest matches Some(r) ==> r@ == s@.skip(prefix@.len() as int),
{
    let text = chars_of(s);
    let head = chars_of(prefix);
    if matches_at(text.as_slice(), head.as_slice(), 0) {
        assert(s@.subrange(0, head.len() as int) =~= s@.take(head.len() as int));
        let mut out: Vec<char> = Vec::new();
        let mut i: usize = head.len();
        while i < text.len()
            invariant
                head.len() <= i <= text.len(),
                out@ == text@.subrange(head.len() as int, i as int),
            decreases text.len() - i,
        {
            out.push(text[i]);
            assert(text@.subrange(head.len() as int, i + 1) =~= text@.subrange(
                head.len() as int,
                i as int,
            ).push(text@[i as int]));
            i = i + 1;
        }
        assert(text@.subrange(head.len() as int, text.len() as int) =~= s@.skip(
            prefix@.len() as int,
        ));
        Some(string_of(out.as_slice()))
    } else {
        assert(s@.subrange(0, head.len() as int) =~= s@.take(head.len() as int)) by {
            if head.len() <= text.len() {
            }
        }
        None
    }
}

/// The first `n` characters of `s`, or all of it where it has fewer.
pub open spec fn prefix_of(s: Seq<char>, n: nat) -> Seq<char> {
    if n <= s.len() {
        s.take(n as int)
    } else {
        s
    }
}

/// The first `n` characters of `s`, or all of it where it has fewer.
pub fn first_chars(s: &str, n: usize) -> (p: String)
    ensures
        p@ == prefix_of(s@, n as nat),
{
    let text = chars_of(s);
    let mut out: Vec<char> = Vec::new();
    let mut i: usize = 0;
    while i < text.len() && i < n
        invariant
            i <= text.len(),
            i <= n,
            out@ == text@.take(i as int),
        decreases text.len() - i,
    {
        out.push(text[i]);
        assert(text@.take(i + 1) =~= text@.take(i as int).push(text@[i as int]));
        i = i + 1;
    }
    assert(text@.take(text.len() as int) =~= text@);
    string_of(out.as_slice())
}

/// `s` with each occurrence of the non-empty `pat` replaced by `with`, the
/// occurrences found from the left and not overlapping.
pub open spec fn replace_all(s: Seq<char>, pat: Seq<char>, with: Seq<char>) -> Seq<char>
    decreases s.len(),
{
    if pat.len() == 0 || s.len() < pat.len() {
        s
    } else if occurs_at(s, pat, 0) {
        with + replace_all(s.skip(pat.len() as int), pat, with)
    } else {
        seq![s[0]] + replace_all(s.skip(1), pat, with)
    }
}

/// Replaces each occurrence of `pat` in `s` by `with`, as `str::replace` does
/// for a non-empty pattern.
pub fn replace_text(s: &str, pat: &str, with: &str) -> (r: String)
    requires
        pat@.len() > 0,
    ensures
        r@ == replace_all(s@, pat@, with@),
{
    let text = chars_of(s);
    let needle = chars_of(pat);
    let fill = chars_of(with);
    let mut out: Vec<char> = Vec::new();
    let mut i: usize = 0;
    assert(text@.skip(0) =~= text@);
    assert(out@ + replace_all(text@, needle@, fill@) =~= replace_all(text@, needle@, fill@));
    while i < text.len()
        invariant
            i <= text.len(),
            text@ == s@,
            needle@ == pat@,
            fill@ == with@,
            needle@.len() > 0,
            out@ + replace_all(text@.skip(i as int), needle@, fill@) == replace_all(
                text@,
                needle@,
                fill@,
            ),
        decreases text.len() - i,
    {
        let ghost rest = text@.skip(i as int);
        if matches_at(text.as_slice(), needle.as_slice(), i) {
            proof {
                assert(rest.subrange(0, needle@.len() as int) =~= text@.subrange(
                    i as int,
                    i + needle@.len(),
                ));
                assert(occurs_at(rest, needle@, 0));
                assert(rest.skip(needle@.len() as int) =~= text@.skip(i + needle@.len()));
                assert(out@ + fill@ + replace_all(text@.skip(i + needle@.len()), needle@, fill@)
                    =~= out@ + (fill@ + replace_all(text@.skip(i + needle@.len()), needle@, fill@)));
            }
            let mut k: usize = 0;
            let ghost before = out@;
            while k < fill.len()
                invariant
                    k <= fill.len(),
                    out@ == before + fill@.take(k as int),
                decreases fill.len() - k,
            {
                out.push(fill[k]);
                assert(fill@.take(k + 1) =~= fill@.take(k as int).push(fill@[k as int]));
                k = k + 1;
            }
            assert(fill@.take(fill.len() as int) =~= fill@);
            i = i + needle.len();
        } else {
            proof {
                if rest.len() >= needle@.len() {
                    assert(rest.subrange(0, needle@.len() as int) =~= text@.subrange(
                        i as int,
                        i + needle@.len(),
                    ));
                    assert(!occurs_at(rest, needle@, 0));
                    assert(rest.skip(1) =~= text@.skip(i + 1));
                    assert(out@.push(text@[i as int]) + replace_all(
                        text@.skip(i + 1),
                        needle@,
                        fill@,
                    ) =~= out@ + (seq![rest[0]] + replace_all(rest.skip(1), needle@, fill@)));
                } else {
                    lemma_replace_short(rest, needle@, fill@);
                    lemma_replace_short(rest.skip(1), needle@, fill@);
                    assert(rest.skip(1) =~= text@.skip(i + 1));
                    assert(out@.push(text@[i as int]) + rest.skip(1) =~= out@ + rest);
                }
            }
            out.push(text[i]);
            i = i + 1;
        }
    }
    assert(out@ + Seq::<char>::empty() =~= out@);
    string_of(out.as_slice())
}

proof fn lemma_replace_short(s: Seq<char>, pat: Seq<char>, with: Seq<char>)
    requires
        s.len() < pat.len(),
    ensures
        replace_all(s, pat, with) == s,
{
}

/// Whether `c` is white space: a character with the Unicode property
/// `White_Space`.
pub open spec fn is_space(c: char) -> bool {
    let n = c as u32;
    (0x09 <= n <= 0x0d) || n == 0x20 || n == 0x85 || n == 0xa0 || n == 0x1680 || (0x2000 <= n
        <= 0x200a) || n == 0x2028 || n == 0x2029 || n == 0x202f || n == 0x205f || n == 0x3000
}

/// Whether `c` is white space.
pub fn is_whitespace(c: char) -> (b: bool)
    ensures
        b == is_space(c),
{
    let n: u32 = c as u32;
    (0x09 <= n && n <= 0x0d) || n == 0x20 || n == 0x85 || n == 0xa0 || n == 0x1680 || (0x2000 <= n
        && n <= 0x200a) || n == 0x2028 || n == 0x2029 || n == 0x202f || n == 0x205f || n == 0x3000
}

/// The length of the run of characters other than white space that `s`
/// begins with.
pub open spec fn word_len(s: Seq<char>) -> nat
    decreases s.len(),
{
    if s.len() == 0 || is_space(s[0]) {
        0
    } else {
        1 + word_len(s.skip(1))
    }
}

/// The words of `s`: its maximal runs of characters other than white space,
/// in order.
pub open spec fn words(s: Seq<char>) -> Seq<Seq<char>>
    decreases s.len(),
    via words_decreases
{
    if s.len() == 0 {
        Seq::empty()
    } else if is_space(s[0]) {
        words(s.skip(1))
    } else {
        seq![s.take(word_len(s) as int)] + words(s.skip(word_len(s) as int))
    }
}

#[via_fn]
proof fn words_decreases(s: Seq<char>) {
    if s.len() != 0 && !is_space(s[0]) {
        lemma_word_len_bounds(s);
    }
}

proof fn lemma_word_len_bounds(s: Seq<char>)
    ensures
        word_len(s) <= s.len(),
        s.len() > 0 && !is_space(s[0]) ==> word_len(s) >= 1,
        forall|k: int| 0 <= k < word_len(s) ==> !is_space(#[trigger] s[k]),
        word_len(s) < s.len() ==> is_space(s[word_len(s) as int]),
    decreases s.len(),
{
    if s.len() == 0 || is_space(s[0]) {
    } else {
        lemma_word_len_bounds(s.skip(1));
        assert forall|k: int| 0 <= k < word_len(s) implies !is_space(#[trigger] s[k]) by {
            if k > 0 {
                assert(s[k] == s.skip(1)[k - 1]);
            }
        }
        if word_len(s) < s.len() {
            assert(s[word_len(s) as int] == s.skip(1)[word_len(s.skip(1)) as int]);
        }
    }
}

/// A run of `n` characters other than white space at the head of `s`, ended
/// by white space or by the end of `s`, is the first word of `s`.
proof fn lemma_word_len_is(s: Seq<char>, n: nat)
    requires
        n <= s.len(),
        forall|k: int| 0 <= k < n ==> !is_space(#[trigger] s[k]),
        n < s.len() ==> is_space(s[n as int]),
    ensures
        word_len(s) == n,
    decreases n,
{
    if n == 0 {
    } else {
        assert(!is_space(s[0]));
        assert forall|k: int| 0 <= k < n - 1 implies !is_space(#[trigger] s.skip(1)[k]) by {
            assert(s.skip(1)[k] == s[k + 1]);
        }
        lemma_word_len_is(s.skip(1), (n - 1) as nat);
    }
}

/// Splits `s` at white space, as `str::split_whitespace` does.
pub fn split_words(s: &str) -> (out: Vec<String>)
    ensures
        views(out@) == words(s@),
{
    let text = chars_of(s);
    let mut out: Vec<String> = Vec::new();
    let mut i: usize = 0;
    assert(text@.skip(0) =~= text@);
    assert(views(out@) + words(text@) =~= words(text@));
    while i < text.len()
        invariant
            i <= text.len(),
            text@ == s@,
            views(out@) + words(text@.skip(i as int)) == words(text@),
        decreases text.len() - i,
    {
        let ghost rest = text@.skip(i as int);
        if is_whitespace(text[i]) {
            assert(rest.skip(1) =~= text@.skip(i + 1));
            i = i + 1;
        } else {
            let start = i;
            let mut word: Vec<char> = Vec::new();
            while i < text.len() && !is_whitespace(text[i])
                invariant
                    start <= i <= text.len(),
                    word@ == text@.subrange(start as int, i as int),
                    forall|k: int| start <= k < i ==> !is_space(#[trigger] text@[k]),
                decreases text.len() - i,
            {
                word.push(text[i]);
                assert(text@.subrange(start as int, i + 1) =~= text@.subrange(
                    start as int,
                    i as int,
                ).push(text@[i as int]));
                i = i + 1;
            }
            let w = string_of(word.as_slice());
            proof {
                let n = (i - start) as nat;
                assert forall|k: int| 0 <= k < n implies !is_space(#[trigger] rest[k]) by {
                    assert(rest[k] == text@[start + k]);
                }
                lemma_word_len_is(rest, n);
                assert(rest.take(n as int) =~= word@);
                assert(rest.skip(n as int) =~= text@.skip(i as int));
                assert(views(out@.push(w)) =~= views(out@) + seq![w@]);
                assert((views(out@) + seq![w@]) + words(text@.skip(i as int)) =~= views(out@) + (
                seq![w@] + words(text@.skip(i as int))));
            }
            out.push(w);
        }
    }
    assert(views(out@) + Seq::<Seq<char>>::empty() =~= views(out@));
    out
}

} // verus!
