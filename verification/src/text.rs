//! Operations on text held as characters: blank detection, line splitting,
//! unescaping and decimal numbers.

use vstd::prelude::*;

verus! {

/// Whether `c` is white space in the sense of Unicode's `White_Space` property.
pub open spec fn is_space(c: char) -> bool {
    let n = c as u32;
    ||| 0x09 <= n <= 0x0d
    ||| n == 0x20
    ||| n == 0x85
    ||| n == 0xa0
    ||| n == 0x1680
    ||| 0x2000 <= n <= 0x200a
    ||| n == 0x2028
    ||| n == 0x2029
    ||| n == 0x202f
    ||| n == 0x205f
    ||| n == 0x3000
}

/// A line is blank when nothing but white space stands in it.
pub open spec fn is_blank(line: Seq<char>) -> bool {
    forall|i: int| 0 <= i < line.len() ==> is_space(#[trigger] line[i])
}

/// Tests one character for white space.
pub fn char_is_space(c: char) -> (r: bool)
    ensures
        r == is_space(c),
{
    let n: u32 = c as u32;
    (0x09 <= n && n <= 0x0d) || n == 0x20 || n == 0x85 || n == 0xa0 || n == 0x1680 || (0x2000 <= n
        && n <= 0x200a) || n == 0x2028 || n == 0x2029 || n == 0x202f || n == 0x205f || n == 0x3000
}

/// The characters of a string, in order.
pub fn chars_of(s: &str) -> (r: Vec<char>)
    ensures
        r@ == s@,
{
    let mut out: Vec<char> = Vec::new();
    for c in it: s.chars()
        invariant
            it.seq() == s@,
            out@ =~= it.seq().take(it.index() as int),
    {
        out.push(c);
    }
    assert(out@ =~= s@);
    out
}

/// Tests whether two strings hold the same characters.
pub fn same_text(a: &str, b: &str) -> (r: bool)
    ensures
        r == (a@ == b@),
{
    let x = chars_of(a);
    let y = chars_of(b);
    if x.len() != y.len() {
        return false;
    }
    let mut i: usize = 0;
    while i < x.len()
        invariant
            x@ == a@,
            y@ == b@,
            x.len() == y.len(),
            i <= x.len(),
            forall|j: int| 0 <= j < i ==> x@[j] == y@[j],
        decreases x.len() - i,
    {
        if x[i] != y[i] {
            return false;
        }
        i += 1;
    }
    assert(x@ =~= y@);
    true
}

/// The views of a sequence of strings.
pub open spec fn texts(v: Seq<String>) -> Seq<Seq<char>> {
    v.map_values(|s: String| s@)
}

/// Whether a line ending, a carriage return followed by a line feed, begins
/// at position `i` of `s`.
pub open spec fn line_ends_at(s: Seq<char>, i: int) -> bool {
    0 <= i && i + 1 < s.len() && s[i] == '\r' && s[i + 1] == '\n'
}

/// A piece of text as a list of lines: itself, unless it is blank.
pub open spec fn kept(piece: Seq<char>) -> Seq<Seq<char>> {
    if is_blank(piece) {
        Seq::empty()
    } else {
        seq![piece]
    }
}

/// The lines of `s` that are not blank, from the piece that began at `start`
/// and has been read up to `pos`.
pub open spec fn lines_from(s: Seq<char>, start: int, pos: int) -> Seq<Seq<char>>
    decreases s.len() - pos,
{
    if pos >= s.len() {
        kept(s.subrange(start, s.len() as int))
    } else if line_ends_at(s, pos) {
        kept(s.subrange(start, pos)) + lines_from(s, pos + 2, pos + 2)
    } else {
        lines_from(s, start, pos + 1)
    }
}

/// The lines of a text: the pieces between its line endings, read from the
/// left, without those that are blank.
pub open spec fn log_lines(s: Seq<char>) -> Seq<Seq<char>> {
    lines_from(s, 0, 0)
}

/// Splits a text at its line endings and drops the blank lines.
pub fn split_lines(text: &str) -> (r: Vec<String>)
    ensures
        texts(r@) == log_lines(text@),
{
    let cs = chars_of(text);
    let n: usize = cs.len();
    let mut out: Vec<String> = Vec::new();
    let mut cur = String::new();
    let mut blank: bool = true;
    let ghost mut start: int = 0;
    let mut pos: usize = 0;
    assert(texts(out@) =~= Seq::<Seq<char>>::empty());
    while pos < n
        invariant
            cs@ == text@,
            n == cs.len(),
            0 <= start <= pos <= n,
            cur@ == cs@.subrange(start, pos as int),
            blank == is_blank(cur@),
            log_lines(cs@) == texts(out@) + lines_from(cs@, start, pos as int),
        decreases n - pos,
    {
        if cs[pos] == '\r' && pos + 1 < n && cs[pos + 1] == '\n' {
            assert(line_ends_at(cs@, pos as int));
            if !blank {
                let ghost before = out@;
                out.push(cur);
                assert(texts(out@) =~= texts(before) + kept(cs@.subrange(start, pos as int)));
            }
            cur = String::new();
            blank = true;
            pos += 2;
            proof {
                start = pos as int;
                assert(cs@.subrange(start, pos as int) =~= Seq::<char>::empty());
            }
        } else {
            assert(!line_ends_at(cs@, pos as int));
            let c: char = cs[pos];
            cur.push(c);
            let space: bool = char_is_space(c);
            proof {
                let old_piece = cs@.subrange(start, pos as int);
                let new_piece = cs@.subrange(start, pos + 1);
                assert(new_piece =~= old_piece.push(c));
                if blank && space {
                    assert forall|i: int| 0 <= i < new_piece.len() implies is_space(
                        #[trigger] new_piece[i],
                    ) by {
                        if i < old_piece.len() {
                            assert(new_piece[i] == old_piece[i]);
                        }
                    }
                } else if !blank {
                    let w = choose|i: int| 0 <= i < old_piece.len() && !is_space(old_piece[i]);
                    assert(new_piece[w] == old_piece[w]);
                } else {
                    assert(new_piece[pos - start] == c);
                }
            }
            blank = blank && space;
            pos += 1;
        }
    }
    if !blank {
        let ghost before = out@;
        out.push(cur);
        assert(texts(out@) =~= texts(before) + kept(cs@.subrange(start, n as int)));
    }
    out
}

/// Whether the escape `&nbsp` begins at position `i` of `s`.
pub open spec fn escape_at(s: Seq<char>, i: int) -> bool {
    &&& 0 <= i
    &&& i + 5 <= s.len()
    &&& s[i] == '&'
    &&& s[i + 1] == 'n'
    &&& s[i + 2] == 'b'
    &&& s[i + 3] == 's'
    &&& s[i + 4] == 'p'
}

/// `s` from position `pos` on, each `&nbsp` read from the left replaced by a
/// space.
pub open spec fn unescaped_from(s: Seq<char>, pos: int) -> Seq<char>
    decreases s.len() - pos,
{
    if pos >= s.len() {
        Seq::empty()
    } else if escape_at(s, pos) {
        seq![' '] + unescaped_from(s, pos + 5)
    } else {
        seq![s[pos]] + unescaped_from(s, pos + 1)
    }
}

/// `s` with each `&nbsp` replaced by a space.
pub open spec fn unescaped(s: Seq<char>) -> Seq<char> {
    unescaped_from(s, 0)
}

/// Replaces each `&nbsp` in a text by a space.
pub fn unescape(text: &str) -> (r: String)
    ensures
        r@ == unescaped(text@),
{
    let cs = chars_of(text);
    let n: usize = cs.len();
    let mut out = String::new();
    let mut pos: usize = 0;
    while pos < n
        invariant
            cs@ == text@,
            n == cs.len(),
            pos <= n,
            unescaped(cs@) == out@ + unescaped_from(cs@, pos as int),
        decreases n - pos,
    {
        if n - pos >= 5 && cs[pos] == '&' && cs[pos + 1] == 'n' && cs[pos + 2] == 'b' && cs[pos
            + 3] == 's' && cs[pos + 4] == 'p' {
            assert(escape_at(cs@, pos as int));
            let ghost before = out@;
            out.push(' ');
            assert(out@ + unescaped_from(cs@, pos + 5) =~= before + unescaped_from(
                cs@,
                pos as int,
            ));
            pos += 5;
        } else {
            assert(!escape_at(cs@, pos as int));
            let ghost before = out@;
            out.push(cs[pos]);
            assert(out@ + unescaped_from(cs@, pos + 1) =~= before + unescaped_from(
                cs@,
                pos as int,
            ));
            pos += 1;
        }
    }
    assert(out@ + Seq::<char>::empty() =~= out@);
    out
}

/// Whether `c` is one of the ten decimal digits of ASCII.
pub open spec fn is_digit(c: char) -> bool {
    '0' <= c <= '9'
}

/// The number that a decimal digit stands for.
pub open spec fn digit_value(c: char) -> nat {
    (c as u32 - '0' as u32) as nat
}

/// The number that a sequence of decimal digits writes, the empty one
/// writing 0.
pub open spec fn decimal_value(s: Seq<char>) -> nat
    decreases s.len(),
{
    if s.len() == 0 {
        0
    } else {
        decimal_value(s.drop_last()) * 10 + digit_value(s.last())
    }
}

/// The number that `s` writes in decimal, if `s` is one digit or more and
/// nothing else.
pub open spec fn decimal(s: Seq<char>) -> Option<nat> {
    if s.len() > 0 && (forall|i: int| 0 <= i < s.len() ==> is_digit(#[trigger] s[i])) {
        Some(decimal_value(s))
    } else {
        None
    }
}

/// A number's leading digits write no more than the whole number.
pub proof fn lemma_decimal_prefix(s: Seq<char>, k: int)
    requires
        0 <= k <= s.len(),
    ensures
        decimal_value(s.take(k)) <= decimal_value(s),
    decreases s.len(),
{
    if k == s.len() {
        assert(s.take(k) =~= s);
    } else {
        lemma_decimal_prefix(s.drop_last(), k);
        assert(s.drop_last().take(k) =~= s.take(k));
    }
}

/// Reads a decimal number that fits 64 bits.
pub fn parse_decimal(text: &str) -> (r: Option<u64>)
    ensures
        r == match decimal(text@) {
            Some(v) => if v <= u64::MAX {
                Some(v as u64)
            } else {
                None
            },
            None => None,
        },
{
    let cs = chars_of(text);
    let n: usize = cs.len();
    if n == 0 {
        return None;
    }
    let mut value: u64 = 0;
    let mut pos: usize = 0;
    while pos < n
        invariant
            cs@ == text@,
            n == cs.len(),
            pos <= n,
            forall|i: int| 0 <= i < pos ==> is_digit(#[trigger] cs@[i]),
            value == decimal_value(cs@.take(pos as int)),
        decreases n - pos,
    {
        let c: char = cs[pos];
        if !('0' <= c && c <= '9') {
            return None;
        }
        let d: u64 = (c as u32 - '0' as u32) as u64;
        proof {
            assert(cs@.take(pos + 1).drop_last() =~= cs@.take(pos as int));
            assert(cs@.take(pos + 1).last() == c);
            lemma_decimal_prefix(cs@, pos + 1);
        }
        if value > (u64::MAX - d) / 10 {
            return None;
        }
        value = value * 10 + d;
        pos += 1;
    }
    assert(cs@.take(n as int) =~= cs@);
    Some(value)
}

} // verus!
