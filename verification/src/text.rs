//! Character-level text utilities: codepoint byte widths, byte offsets of
//! codepoint prefixes, and building strings of repeated characters.

use vstd::math::min;
use vstd::prelude::*;
use vstd::utf8::char_is_scalar;
use vstd::utf8::encode_scalar;
use vstd::utf8::encode_utf8;

verus! {

/// Number of bytes in the UTF-8 encoding of a character, determined by its
/// scalar value.
pub open spec fn utf8_len(c: char) -> int {
    if c as u32 <= 0x7F {
        1
    } else if c as u32 <= 0x7FF {
        2
    } else if c as u32 <= 0xFFFF {
        3
    } else {
        4
    }
}

/// The scalar-range definition of `utf8_len` agrees with the length of the
/// actual UTF-8 encoding of the character.
pub proof fn lemma_utf8_len(c: char)
    ensures
        utf8_len(c) == encode_scalar(c as u32).len(),
{
    broadcast use char_is_scalar;

}

/// Encoding a concatenation of two character sequences yields the
/// concatenation of their encodings.
pub proof fn lemma_encode_utf8_concat(a: Seq<char>, b: Seq<char>)
    ensures
        encode_utf8(a + b) == encode_utf8(a) + encode_utf8(b),
    decreases a.len(),
{
    if a.len() == 0 {
        assert(a + b =~= b);
        assert(encode_utf8(a) + encode_utf8(b) =~= encode_utf8(b));
    } else {
        lemma_encode_utf8_concat(a.drop_first(), b);
        assert((a + b).drop_first() =~= a.drop_first() + b);
        assert((a + b)[0] == a[0]);
        assert(encode_scalar(a[0] as u32) + (encode_utf8(a.drop_first()) + encode_utf8(b))
            =~= (encode_scalar(a[0] as u32) + encode_utf8(a.drop_first())) + encode_utf8(b));
    }
}

/// Encoding a one-character sequence yields the encoding of that character.
pub proof fn lemma_encode_utf8_singleton(c: char)
    ensures
        encode_utf8(seq![c]) == encode_scalar(c as u32),
{
    assert(seq![c].drop_first() =~= Seq::<char>::empty());
    assert(encode_scalar(c as u32) + encode_utf8(seq![c].drop_first()) =~= encode_scalar(
        c as u32,
    ));
}

/// Number of bytes taken by the UTF-8 encoding of the given character,
/// computed from its scalar value.
pub fn char_len_utf8(c: char) -> (n: usize)
    ensures
        n == utf8_len(c),
        n == encode_scalar(c as u32).len(),
{
    proof {
        lemma_utf8_len(c);
    }
    let v: u32 = c as u32;
    if v <= 0x7F {
        1
    } else if v <= 0x7FF {
        2
    } else if v <= 0xFFFF {
        3
    } else {
        4
    }
}

/// Byte offset just past the first `char_index` codepoints of `s` (or past
/// the whole string when it has fewer codepoints), always a codepoint
/// boundary of the UTF-8 encoding of `s`.
pub fn byte_index(s: &str, char_index: usize) -> (r: usize)
    ensures
        r == encode_utf8(s@.take(min(char_index as int, s@.len() as int))).len(),
{
    let total_chars: usize = s.unicode_len();
    let total_bytes: usize = s.as_bytes().len();
    let end: usize = if char_index <= total_chars {
        char_index
    } else {
        total_chars
    };
    let mut r: usize = 0;
    let mut i: usize = 0;
    proof {
        assert(s@.take(0) =~= Seq::<char>::empty());
    }
    while i < end
        invariant
            i <= end,
            end == min(char_index as int, s@.len() as int),
            total_bytes == encode_utf8(s@).len(),
            r == encode_utf8(s@.take(i as int)).len(),
        decreases end - i,
    {
        let c = s.get_char(i);
        proof {
            lemma_utf8_len(c);
            lemma_encode_utf8_singleton(c);
            lemma_encode_utf8_concat(s@.take(i as int), seq![c]);
            assert(s@.take(i as int) + seq![c] =~= s@.take(i as int + 1));
            lemma_encode_utf8_concat(s@.take(i as int + 1), s@.skip(i as int + 1));
            assert(s@.take(i as int + 1) + s@.skip(i as int + 1) =~= s@);
        }
        let n = char_len_utf8(c);
        r = r + n;
        i = i + 1;
    }
    r
}

/// A line with a trailing carriage return removed; any other line is kept
/// as it is.
pub open spec fn strip_cr(l: Seq<char>) -> Seq<char> {
    if l.len() > 0 && l.last() == '\r' {
        l.drop_last()
    } else {
        l
    }
}

/// Accumulator form of line splitting: `done` holds the finished lines,
/// `cur` the line being read, and `rest` the text still to read. A newline
/// finishes the current line (dropping a carriage return just before it);
/// a nonempty final line without a terminator is kept as it is.
pub open spec fn lines_acc(done: Seq<Seq<char>>, cur: Seq<char>, rest: Seq<char>) -> Seq<
    Seq<char>,
>
    decreases rest.len(),
{
    if rest.len() == 0 {
        if cur.len() == 0 {
            done
        } else {
            done.push(cur)
        }
    } else if rest[0] == '\n' {
        lines_acc(done.push(strip_cr(cur)), Seq::empty(), rest.drop_first())
    } else {
        lines_acc(done, cur.push(rest[0]), rest.drop_first())
    }
}

/// The lines of a text: maximal runs between line terminators, where a
/// terminator is a newline, optionally preceded by a carriage return that
/// is not part of the line. A trailing terminator does not open an extra
/// empty line, and an empty text has no lines.
pub open spec fn split_lines(s: Seq<char>) -> Seq<Seq<char>> {
    lines_acc(Seq::empty(), Seq::empty(), s)
}

/// Number of occurrences of the character `c` in `s`.
pub open spec fn count_char(s: Seq<char>, c: char) -> int
    decreases s.len(),
{
    if s.len() == 0 {
        0
    } else {
        (if s[0] == c {
            1int
        } else {
            0int
        }) + count_char(s.drop_first(), c)
    }
}

/// The number of lines that splitting produces: one for each newline, plus
/// one for a nonempty tail after the last newline (or, with no text left,
/// for a nonempty current line).
pub proof fn lemma_lines_acc_len(done: Seq<Seq<char>>, cur: Seq<char>, rest: Seq<char>)
    ensures
        lines_acc(done, cur, rest).len() == done.len() + count_char(rest, '\n') + (if rest.len()
            > 0 {
            if rest.last() == '\n' {
                0int
            } else {
                1int
            }
        } else if cur.len() > 0 {
            1int
        } else {
            0int
        }),
    decreases rest.len(),
{
    if rest.len() == 0 {
    } else if rest[0] == '\n' {
        lemma_lines_acc_len(done.push(strip_cr(cur)), Seq::empty(), rest.drop_first());
        if rest.len() > 1 {
            assert(rest.drop_first().last() == rest.last());
        }
    } else {
        lemma_lines_acc_len(done, cur.push(rest[0]), rest.drop_first());
        if rest.len() > 1 {
            assert(rest.drop_first().last() == rest.last());
        }
    }
}

/// A text that ends with a line terminator splits into exactly as many
/// lines as it has newline characters.
pub proof fn lemma_split_lines_terminated(t: Seq<char>)
    requires
        t.len() > 0,
        t.last() == '\n',
    ensures
        split_lines(t).len() == count_char(t, '\n'),
{
    lemma_lines_acc_len(Seq::empty(), Seq::empty(), t);
}

/// Character counts are never negative.
pub proof fn lemma_count_char_nonneg(s: Seq<char>, c: char)
    ensures
        count_char(s, c) >= 0,
    decreases s.len(),
{
    if s.len() > 0 {
        lemma_count_char_nonneg(s.drop_first(), c);
    }
}

/// A sequence whose last element is `c` contains at least one `c`.
pub proof fn lemma_count_char_last(s: Seq<char>, c: char)
    requires
        s.len() > 0,
        s.last() == c,
    ensures
        count_char(s, c) >= 1,
    decreases s.len(),
{
    lemma_count_char_nonneg(s.drop_first(), c);
    if s.len() > 1 {
        assert(s.drop_first().last() == s.last());
        lemma_count_char_last(s.drop_first(), c);
    }
}

/// Splits a string into its lines, as `split_lines` describes them.
pub(crate) fn split_into_lines(s: &str) -> (r: Vec<String>)
    ensures
        r@.map_values(|l: String| l@) == split_lines(s@),
{
    let n = s.unicode_len();
    let mut done: Vec<String> = Vec::new();
    let mut cur: String = String::new();
    let mut i: usize = 0;
    proof {
        assert(done@.map_values(|l: String| l@) =~= Seq::<Seq<char>>::empty());
        assert(s@.skip(0) =~= s@);
    }
    while i < n
        invariant
            i <= n,
            n == s@.len(),
            lines_acc(done@.map_values(|l: String| l@), cur@, s@.skip(i as int)) == split_lines(
                s@,
            ),
        decreases n - i,
    {
        let ghost prev_done = done@.map_values(|l: String| l@);
        let ghost prev_cur = cur@;
        let ghost rest = s@.skip(i as int);
        proof {
            assert(rest[0] == s@[i as int]);
            assert(rest.drop_first() =~= s@.skip(i as int + 1));
        }
        let c = s.get_char(i);
        if c == '\n' {
            let cl = cur.as_str().unicode_len();
            let stripped: String = if cl > 0 && cur.as_str().get_char(cl - 1) == '\r' {
                let st = String::from_str(cur.as_str().substring_char(0, cl - 1));
                proof {
                    assert(st@ =~= strip_cr(prev_cur));
                }
                st
            } else {
                cur
            };
            done.push(stripped);
            cur = String::new();
            proof {
                assert(done@.map_values(|l: String| l@) =~= prev_done.push(strip_cr(prev_cur)));
            }
        } else {
            push_char(&mut cur, c);
        }
        i = i + 1;
    }
    proof {
        assert(s@.skip(n as int) =~= Seq::<char>::empty());
    }
    if !cur.as_str().is_empty() {
        let ghost prev_done = done@.map_values(|l: String| l@);
        let ghost prev_cur = cur@;
        done.push(cur);
        proof {
            assert(done@.map_values(|l: String| l@) =~= prev_done.push(prev_cur));
        }
    }
    done
}

/// The given character repeated `n` times (empty when `n` is negative).
pub open spec fn repeat_char(c: char, n: int) -> Seq<char> {
    if n <= 0 {
        Seq::empty()
    } else {
        Seq::new(n as nat, |i: int| c)
    }
}

/// Relies on String::push: appends the given character to the end of the
/// string.
#[verifier::external_body]
pub(crate) fn push_char(s: &mut String, c: char)
    ensures
        final(s)@ == old(s)@.push(c),
{
    s.push(c);
}

/// Appends `n` copies of the character `c` to `out`.
pub(crate) fn push_repeat(out: &mut String, c: char, n: usize)
    ensures
        final(out)@ == old(out)@ + repeat_char(c, n as int),
{
    let mut i: usize = 0;
    proof {
        assert(out@ + repeat_char(c, 0) =~= out@);
    }
    while i < n
        invariant
            i <= n,
            out@ == old(out)@ + repeat_char(c, i as int),
        decreases n - i,
    {
        push_char(out, c);
        proof {
            assert(old(out)@ + repeat_char(c, i as int + 1) =~= (old(out)@ + repeat_char(
                c,
                i as int,
            )).push(c));
        }
        i = i + 1;
    }
}

} // verus!
