//! Character-level text handling shared by the parsers and formatters:
//! whitespace splitting, line splitting, decimal rendering and building
//! strings from character sequences.
use vstd::prelude::*;

use crate::search::{first_index, lemma_first_index_is, lemma_first_index_none};

verus! {

/// The Unicode `White_Space` property, which is what `char::is_whitespace`
/// and `str::split_whitespace` go by.
pub open spec fn is_white_space(c: char) -> bool {
    ||| c == ' '
    ||| ('\t' <= c && c <= '\r')
    ||| c == '\u{85}'
    ||| c == '\u{a0}'
    ||| c == '\u{1680}'
    ||| ('\u{2000}' <= c && c <= '\u{200a}')
    ||| c == '\u{2028}'
    ||| c == '\u{2029}'
    ||| c == '\u{202f}'
    ||| c == '\u{205f}'
    ||| c == '\u{3000}'
}

/// Whether `c` has the Unicode `White_Space` property.
pub fn is_whitespace(c: char) -> (r: bool)
    ensures
        r == is_white_space(c),
{
    c == ' ' || ('\t' <= c && c <= '\r') || c == '\u{85}' || c == '\u{a0}' || c == '\u{1680}'
        || ('\u{2000}' <= c && c <= '\u{200a}') || c == '\u{2028}' || c == '\u{2029}' || c
        == '\u{202f}' || c == '\u{205f}' || c == '\u{3000}'
}

/// The maximal runs of non-whitespace characters of `s`, in order
/// (what `str::split_whitespace` yields).
pub open spec fn words(s: Seq<char>) -> Seq<Seq<char>>
    decreases s.len(),
{
    if s.len() == 0 {
        seq![]
    } else {
        let prev = words(s.drop_last());
        let c = s.last();
        if is_white_space(c) {
            prev
        } else if s.len() >= 2 && !is_white_space(s[s.len() - 2]) && prev.len() > 0 {
            prev.update(prev.len() - 1, prev.last().push(c))
        } else {
            prev.push(seq![c])
        }
    }
}

/// The pieces of `s` between newline characters; there is always one more
/// piece than there are newlines.
pub open spec fn newline_pieces(s: Seq<char>) -> Seq<Seq<char>>
    decreases s.len(),
{
    if s.len() == 0 {
        seq![seq![]]
    } else {
        let prev = newline_pieces(s.drop_last());
        if s.last() == '\n' {
            prev.push(seq![])
        } else if prev.len() > 0 {
            prev.update(prev.len() - 1, prev.last().push(s.last()))
        } else {
            seq![seq![s.last()]]
        }
    }
}

/// `line` without one trailing carriage return, if it has one.
pub open spec fn strip_cr(line: Seq<char>) -> Seq<char> {
    if line.len() > 0 && line.last() == '\r' {
        line.drop_last()
    } else {
        line
    }
}

/// The lines of `s` as `str::lines` yields them: split at `\n`, a `\r`
/// right before a `\n` is dropped, and a final empty piece (after a trailing
/// newline, or of the empty text) is not a line.
pub open spec fn lines(s: Seq<char>) -> Seq<Seq<char>> {
    let p = newline_pieces(s);
    let n = if p.last().len() == 0 {
        p.len() - 1
    } else {
        p.len() as int
    };
    Seq::new(n as nat, |i: int| if i < p.len() - 1 { strip_cr(p[i]) } else { p[i] })
}

pub proof fn lemma_newline_pieces_nonempty(s: Seq<char>)
    ensures
        newline_pieces(s).len() >= 1,
    decreases s.len(),
{
    if s.len() > 0 {
        lemma_newline_pieces_nonempty(s.drop_last());
    }
}

/// Every word has at least one character.
pub proof fn lemma_words_nonempty(s: Seq<char>)
    ensures
        forall|i: int| 0 <= i < words(s).len() ==> #[trigger] words(s)[i].len() > 0,
    decreases s.len(),
{
    if s.len() > 0 {
        lemma_words_nonempty(s.drop_last());
        let prev = words(s.drop_last());
        let w = words(s);
        assert forall|i: int| 0 <= i < w.len() implies #[trigger] w[i].len() > 0 by {
            if i < prev.len() {
                assert(w[i] == prev[i] || w[i] == prev[i].push(s.last()));
            }
        }
    }
}

/// A vector of characters is viewed the same deeply and shallowly.
pub proof fn lemma_chars_deep_view(v: &Vec<char>)
    ensures
        v.deep_view() == v@,
{
    assert(v.deep_view() =~= v@);
}

/// The characters of `s`, in order.
pub fn chars_of(s: &str) -> (r: Vec<char>)
    ensures
        r@ == s@,
{
    let mut r: Vec<char> = Vec::new();
    for c in it: s.chars()
        invariant
            r@ == it.seq().take(it.index() as int),
    {
        r.push(c);
    }
    r
}

/// Appends the characters of `s` to `out`.
pub fn push_str(out: &mut Vec<char>, s: &str)
    ensures
        final(out)@ == old(out)@ + s@,
{
    let ghost start = out@;
    for c in it: s.chars()
        invariant
            out@ == start + it.seq().take(it.index() as int),
    {
        out.push(c);
    }
}

/// Appends the characters `src` to `out`.
pub fn push_chars(out: &mut Vec<char>, src: &Vec<char>)
    ensures
        final(out)@ == old(out)@ + src@,
{
    let ghost start = out@;
    let mut i: usize = 0;
    while i < src.len()
        invariant
            i <= src@.len(),
            out@ == start + src@.take(i as int),
        decreases src@.len() - i,
    {
        out.push(src[i]);
        i = i + 1;
        assert(src@.take(i as int) == src@.take(i - 1) + seq![src@[i - 1]]);
    }
    assert(src@.take(src@.len() as int) == src@);
}

/// A `String` holding the characters `v`.
///
/// Trusted: calls `Iterator::collect` of std on the characters, which
/// builds the string of exactly those characters, in order.
#[verifier::external_body]
pub fn string_from_chars(v: &Vec<char>) -> (s: String)
    ensures
        s@ == v@,
{
    v.iter().collect()
}

/// Whether a character is `sep`.
pub open spec fn is_char(sep: char) -> spec_fn(char) -> bool {
    |c: char| c == sep
}

/// The part of `s` before the first `sep` (all of `s` when it has none),
/// as `s.split(sep).next()` gives it.
pub open spec fn prefix_before(s: Seq<char>, sep: char) -> Seq<char> {
    match first_index(s, is_char(sep)) {
        Some(i) => s.take(i),
        None => s,
    }
}

/// The part of `s` before the first `sep`.
pub fn chars_before(s: &Vec<char>, sep: char) -> (r: Vec<char>)
    ensures
        r@ == prefix_before(s@, sep),
{
    let mut r: Vec<char> = Vec::new();
    let mut i: usize = 0;
    while i < s.len()
        invariant
            i <= s@.len(),
            r@ == s@.take(i as int),
            forall|j: int| 0 <= j < i ==> #[trigger] s@[j] != sep,
        decreases s@.len() - i,
    {
        if s[i] == sep {
            proof {
                lemma_first_index_is(s@, is_char(sep), i as int);
            }
            return r;
        }
        r.push(s[i]);
        i = i + 1;
        assert(r@ == s@.take(i as int));
    }
    proof {
        lemma_first_index_none(s@, is_char(sep));
        assert(s@.take(s@.len() as int) == s@);
    }
    r
}

/// `s` without its last character.
pub fn chars_drop_last(s: &Vec<char>) -> (r: Vec<char>)
    requires
        s@.len() > 0,
    ensures
        r@ == s@.drop_last(),
{
    let mut r: Vec<char> = Vec::new();
    let n = s.len() - 1;
    let mut i: usize = 0;
    while i < n
        invariant
            n == s@.len() - 1,
            i <= n,
            r@ == s@.take(i as int),
        decreases n - i,
    {
        r.push(s[i]);
        i = i + 1;
        assert(r@ == s@.take(i as int));
    }
    r
}

/// Whether word `k` of `parts` is `lit`.
pub fn word_is(parts: &Vec<Vec<char>>, k: usize, lit: &str) -> (r: bool)
    requires
        k < parts@.len(),
    ensures
        r == (parts.deep_view()[k as int] == lit@),
{
    proof {
        lemma_chars_deep_view(&parts@[k as int]);
    }
    chars_equal_str(&parts[k], lit)
}

/// Word `k` of `parts`, as a string.
pub fn word_string(parts: &Vec<Vec<char>>, k: usize) -> (r: String)
    requires
        k < parts@.len(),
    ensures
        r@ == parts.deep_view()[k as int],
{
    proof {
        lemma_chars_deep_view(&parts@[k as int]);
    }
    string_from_chars(&parts[k])
}

/// An owned copy of `s`.
pub fn owned(s: &str) -> (r: String)
    ensures
        r@ == s@,
{
    let v = chars_of(s);
    string_from_chars(&v)
}

/// The decimal digit character for `d` (`0 <= d < 10`).
pub open spec fn digit_char(d: nat) -> char {
    ((d + 48) as u8) as char
}

/// The decimal representation of `n` without sign or leading zeros,
/// as `Display` renders an unsigned integer.
pub open spec fn decimal(n: nat) -> Seq<char>
    decreases n,
{
    if n < 10 {
        seq![digit_char(n)]
    } else {
        decimal(n / 10).push(digit_char(n % 10))
    }
}

/// The decimal representation of a signed integer, with a leading `-`
/// for negative values.
pub open spec fn signed_decimal(n: int) -> Seq<char> {
    if n < 0 {
        seq!['-'] + decimal((-n) as nat)
    } else {
        decimal(n as nat)
    }
}

/// Appends the decimal representation of `n` to `out`.
pub fn push_decimal(out: &mut Vec<char>, n: u64)
    ensures
        final(out)@ == old(out)@ + decimal(n as nat),
    decreases n,
{
    if n >= 10 {
        push_decimal(out, n / 10);
    }
    let d: u8 = (n % 10) as u8;
    out.push((d + 48) as char);
}

/// Appends the decimal representation of the signed `n` to `out`.
pub fn push_signed_decimal(out: &mut Vec<char>, n: i64)
    ensures
        final(out)@ == old(out)@ + signed_decimal(n as int),
{
    if n < 0 {
        out.push('-');
        let m: u64 = if n == i64::MIN {
            9223372036854775808u64
        } else {
            (-n) as u64
        };
        let ghost mid = out@;
        push_decimal(out, m);
        assert(out@ == old(out)@ + (seq!['-'] + decimal((-n) as nat)));
    } else {
        push_decimal(out, n as u64);
    }
}

/// The decimal representation of `n`, as `n.to_string()` gives it.
pub fn decimal_string(n: u64) -> (r: String)
    ensures
        r@ == decimal(n as nat),
{
    let mut v: Vec<char> = Vec::new();
    push_decimal(&mut v, n);
    assert(v@ == decimal(n as nat));
    string_from_chars(&v)
}

/// Whether `a` and `b` hold the same characters.
pub fn chars_equal(a: &Vec<char>, b: &Vec<char>) -> (r: bool)
    ensures
        r == (a@ == b@),
{
    if a.len() != b.len() {
        return false;
    }
    let mut i: usize = 0;
    while i < a.len()
        invariant
            a@.len() == b@.len(),
            i <= a@.len(),
            forall|k: int| 0 <= k < i ==> a@[k] == b@[k],
        decreases a@.len() - i,
    {
        if a[i] != b[i] {
            return false;
        }
        i = i + 1;
    }
    assert(a@ =~= b@);
    true
}

/// Whether the characters `a` are those of the string `b`.
pub fn chars_equal_str(a: &Vec<char>, b: &str) -> (r: bool)
    ensures
        r == (a@ == b@),
{
    let bc = chars_of(b);
    chars_equal(a, &bc)
}

/// Splits `s` into its whitespace-separated words.
pub fn split_words(s: &Vec<char>) -> (r: Vec<Vec<char>>)
    ensures
        r.deep_view() == words(s@),
{
    let mut done: Vec<Vec<char>> = Vec::new();
    let mut cur: Vec<char> = Vec::new();
    let mut in_word: bool = false;
    let mut i: usize = 0;
    while i < s.len()
        invariant
            i <= s@.len(),
            in_word == (i > 0 && !is_white_space(s@[i - 1])),
            in_word ==> words(s@.take(i as int)).len() > 0,
            in_word ==> done.deep_view() + seq![cur@] == words(s@.take(i as int)),
            !in_word ==> done.deep_view() == words(s@.take(i as int)),
        decreases s@.len() - i,
    {
        let c = s[i];
        let ghost pre = s@.take(i as int);
        let ghost cur_t = s@.take(i + 1);
        assert(cur_t.drop_last() == pre);
        assert(cur_t.last() == c);
        if is_whitespace(c) {
            if in_word {
                let w = cur;
                cur = Vec::new();
                let ghost old_dv = done.deep_view();
                proof {
                    lemma_chars_deep_view(&w);
                }
                done.push(w);
                assert(done.deep_view() =~= old_dv + seq![w@]);
            }
            in_word = false;
            assert(words(cur_t) == words(pre));
        } else {
            if in_word {
                let ghost prev = words(pre);
                cur.push(c);
                assert(cur_t.len() >= 2 && s@[i - 1] == cur_t[cur_t.len() - 2]);
                assert(words(cur_t) == prev.update(prev.len() - 1, prev.last().push(c)));
                assert(done.deep_view() + seq![cur@] =~= words(cur_t));
            } else {
                cur = Vec::new();
                cur.push(c);
                assert(words(cur_t) == words(pre).push(seq![c]));
                assert(done.deep_view() + seq![cur@] =~= words(cur_t));
            }
            in_word = true;
        }
        i = i + 1;
    }
    assert(s@.take(s@.len() as int) == s@);
    if in_word {
        let ghost old_dv = done.deep_view();
        let ghost w = cur@;
        proof {
            lemma_chars_deep_view(&cur);
        }
        done.push(cur);
        assert(done.deep_view() =~= old_dv + seq![w]);
    }
    done
}

/// Splits `s` into its lines, as `str::lines` does.
pub fn split_lines(s: &Vec<char>) -> (r: Vec<Vec<char>>)
    ensures
        r.deep_view() == lines(s@),
{
    let mut done: Vec<Vec<char>> = Vec::new();
    let mut cur: Vec<char> = Vec::new();
    let mut i: usize = 0;
    proof {
        assert(s@.take(0) == Seq::<char>::empty());
    }
    while i < s.len()
        invariant
            i <= s@.len(),
            newline_pieces(s@.take(i as int)).len() == done@.len() + 1,
            cur@ == newline_pieces(s@.take(i as int)).last(),
            forall|k: int|
                0 <= k < done@.len() ==> #[trigger] done@[k]@ == strip_cr(
                    newline_pieces(s@.take(i as int))[k],
                ),
        decreases s@.len() - i,
    {
        let c = s[i];
        let ghost pre = s@.take(i as int);
        let ghost cur_t = s@.take(i + 1);
        assert(cur_t.drop_last() == pre);
        assert(cur_t.last() == c);
        proof {
            lemma_newline_pieces_nonempty(pre);
        }
        if c == '\n' {
            let mut piece = cur;
            cur = Vec::new();
            let n = piece.len();
            if n > 0 && piece[n - 1] == '\r' {
                piece.pop();
                assert(piece@ == strip_cr(newline_pieces(pre).last()));
            }
            done.push(piece);
        } else {
            cur.push(c);
        }
        i = i + 1;
    }
    assert(s@.take(s@.len() as int) == s@);
    let ghost p = newline_pieces(s@);
    proof {
        lemma_newline_pieces_nonempty(s@);
    }
    if cur.len() > 0 {
        let ghost last = cur@;
        done.push(cur);
        assert(done@[done@.len() - 1]@ == last);
    }
    assert forall|k: int| 0 <= k < done.deep_view().len() implies done.deep_view()[k] == lines(
        s@,
    )[k] by {
        assert(done.deep_view()[k] == done@[k]@);
    }
    assert(done.deep_view() =~= lines(s@));
    done
}

/// The position of the first `c` in `s`.
pub fn find_char(s: &Vec<char>, c: char) -> (r: Option<usize>)
    ensures
        r is None <==> first_index(s@, is_char(c)) is None,
        r matches Some(k) ==> first_index(s@, is_char(c)) == Some(k as int) && k < s@.len(),
{
    let mut i: usize = 0;
    while i < s.len()
        invariant
            i <= s@.len(),
            forall|j: int| 0 <= j < i ==> #[trigger] s@[j] != c,
        decreases s@.len() - i,
    {
        if s[i] == c {
            proof {
                lemma_first_index_is(s@, is_char(c), i as int);
            }
            return Some(i);
        }
        i = i + 1;
    }
    proof {
        lemma_first_index_none(s@, is_char(c));
    }
    None
}

/// The characters of `s` from `start` up to (not including) `end`.
pub fn chars_range(s: &Vec<char>, start: usize, end: usize) -> (r: Vec<char>)
    requires
        start <= end <= s@.len(),
    ensures
        r@ == s@.subrange(start as int, end as int),
{
    let mut r: Vec<char> = Vec::new();
    let mut k: usize = start;
    while k < end
        invariant
            start <= k <= end <= s@.len(),
            r@ == s@.subrange(start as int, k as int),
        decreases end - k,
    {
        r.push(s[k]);
        k = k + 1;
        assert(r@ == s@.subrange(start as int, k as int));
    }
    r
}

/// `s` without leading whitespace.
pub open spec fn trim_start(s: Seq<char>) -> Seq<char>
    decreases s.len(),
{
    if s.len() > 0 && is_white_space(s[0]) {
        trim_start(s.skip(1))
    } else {
        s
    }
}

/// `s` without trailing whitespace.
pub open spec fn trim_end(s: Seq<char>) -> Seq<char>
    decreases s.len(),
{
    if s.len() > 0 && is_white_space(s.last()) {
        trim_end(s.drop_last())
    } else {
        s
    }
}

/// `s` without leading and trailing whitespace, as `str::trim` gives it.
pub open spec fn trim(s: Seq<char>) -> Seq<char> {
    trim_end(trim_start(s))
}

/// `s` without leading and trailing whitespace.
pub fn trim_chars(s: &Vec<char>) -> (r: Vec<char>)
    ensures
        r@ == trim(s@),
{
    let mut a: usize = 0;
    assert(s@.skip(0) == s@);
    while a < s.len() && is_whitespace(s[a])
        invariant
            a <= s@.len(),
            trim_start(s@) == trim_start(s@.skip(a as int)),
        decreases s@.len() - a,
    {
        assert(s@.skip(a as int).skip(1) == s@.skip(a + 1));
        a = a + 1;
    }
    assert(trim_start(s@) == s@.skip(a as int));
    let mut b: usize = s.len();
    while b > a && is_whitespace(s[b - 1])
        invariant
            a <= b <= s@.len(),
            trim(s@) == trim_end(s@.subrange(a as int, b as int)),
        decreases b,
    {
        assert(s@.subrange(a as int, b as int).drop_last() == s@.subrange(a as int, b - 1));
        b = b - 1;
    }
    chars_range(s, a, b)
}

/// How many bytes UTF-8 takes for `c`, as `char::len_utf8` gives it.
pub open spec fn char_utf8_len(c: char) -> nat {
    if (c as u32) < 0x80 {
        1
    } else if (c as u32) < 0x800 {
        2
    } else if (c as u32) < 0x10000 {
        3
    } else {
        4
    }
}

/// How many bytes UTF-8 takes for `s`, as `str::len` gives it.
pub open spec fn utf8_len(s: Seq<char>) -> nat
    decreases s.len(),
{
    if s.len() == 0 {
        0
    } else {
        utf8_len(s.drop_last()) + char_utf8_len(s.last())
    }
}

/// The UTF-8 length of `s` in bytes (wide enough that it never overflows).
pub fn utf8_len_of(s: &str) -> (r: u128)
    ensures
        r == utf8_len(s@),
        r <= 4 * usize::MAX,
{
    let v = chars_of(s);
    let mut n: u128 = 0;
    let mut i: usize = 0;
    while i < v.len()
        invariant
            v@ == s@,
            i <= v@.len(),
            n == utf8_len(v@.take(i as int)),
            n <= 4 * i,
        decreases v@.len() - i,
    {
        proof {
            assert(v@.take(i + 1).drop_last() == v@.take(i as int));
        }
        let c = v[i];
        let w: u128 = if (c as u32) < 0x80 {
            1
        } else if (c as u32) < 0x800 {
            2
        } else if (c as u32) < 0x10000 {
            3
        } else {
            4
        };
        n = n + w;
        i = i + 1;
    }
    assert(v@.take(v@.len() as int) == v@);
    n
}

/// `n` spaces.
pub open spec fn spaces(n: nat) -> Seq<char> {
    Seq::new(n, |i: int| ' ')
}

/// `s` padded on the right with spaces to `width` characters, as a `{:<w$}`
/// format gives it (unchanged when already that long).
pub open spec fn pad_right(s: Seq<char>, width: nat) -> Seq<char> {
    if s.len() < width {
        s + spaces((width - s.len()) as nat)
    } else {
        s
    }
}

/// Appends `s` padded on the right with spaces to `width` characters.
pub fn push_padded(out: &mut Vec<char>, s: &str, width: u128)
    ensures
        final(out)@ == old(out)@ + pad_right(s@, width as nat),
{
    let v = chars_of(s);
    let ghost start = out@;
    push_chars(out, &v);
    let mut k: u128 = v.len() as u128;
    while k < width
        invariant
            v@ == s@,
            v@.len() <= k <= width || (k == v@.len() && k >= width),
            out@ == start + s@ + spaces((k - v@.len()) as nat),
        decreases width - k,
    {
        out.push(' ');
        k = k + 1;
        assert(spaces((k - v@.len()) as nat) == spaces((k - 1 - v@.len()) as nat).push(' '));
    }
    assert(spaces(0) == Seq::<char>::empty());
}

} // verus!
