//! Character-level helpers shared by the scanners and heuristics.

use vstd::prelude::*;
use vstd::string::{StringExecFns, StringSliceAdditionalSpecFns};

verus! {

broadcast use vstd::string::group_string_axioms;

/// The decimal value of an ASCII digit character, if it is one.
pub open spec fn ascii_digit_value(c: char) -> Option<int> {
    if '0' <= c && c <= '9' {
        Some(c as int - '0' as int)
    } else {
        None
    }
}

/// The values of the ASCII decimal digits of `s`, in order, other characters dropped.
pub open spec fn decimal_digits(s: Seq<char>) -> Seq<int>
    decreases s.len(),
{
    if s.len() == 0 {
        Seq::empty()
    } else {
        let rest = decimal_digits(s.drop_last());
        match ascii_digit_value(s.last()) {
            Some(d) => rest.push(d),
            None => rest,
        }
    }
}

/// Copies the characters of a string slice into a vector.
pub fn chars_of(s: &str) -> (v: Vec<char>)
    ensures
        v@ == s@,
{
    let mut v: Vec<char> = Vec::new();
    for c in it: s.chars()
        invariant
            v@ == it.seq().take(it.index() as int),
            it.seq() == s@,
    {
        v.push(c);
    }
    v
}

} // verus!

verus! {

use vstd::utf8::{decode_utf8, encode_utf8, is_char_boundary, valid_utf8, is_continuation_byte};

/// The characters encoded by bytes `start..end` of the UTF-8 encoding of `text`.
pub open spec fn byte_slice(text: Seq<char>, start: int, end: int) -> Seq<char> {
    decode_utf8(encode_utf8(text).subrange(start, end))
}

/// A byte range of a text that starts and ends on character boundaries.
pub open spec fn valid_byte_range(text: Seq<char>, start: int, end: int) -> bool {
    let b = encode_utf8(text);
    &&& 0 <= start <= end <= b.len()
    &&& is_char_boundary(b, start)
    &&& is_char_boundary(b, end)
}

/// A boundary of a valid byte string stays a boundary of any prefix that
/// reaches past it, the prefix being cut at a boundary.
pub proof fn lemma_boundary_in_prefix(bytes: Seq<u8>, cut: int, index: int)
    requires
        valid_utf8(bytes),
        is_char_boundary(bytes, cut),
        is_char_boundary(bytes, index),
        0 <= index <= cut <= bytes.len(),
    ensures
        valid_utf8(bytes.subrange(0, cut)),
        is_char_boundary(bytes.subrange(0, cut), index),
{
    broadcast use vstd::utf8::valid_utf8_split, vstd::utf8::is_char_boundary_start_end_of_seq;
    let pre = bytes.subrange(0, cut);
    assert(valid_utf8(pre));
    if index < cut {
        vstd::utf8::is_char_boundary_iff_not_is_continuation_byte(bytes, index);
        vstd::utf8::is_char_boundary_iff_not_is_continuation_byte(pre, index);
        assert(pre[index] == bytes[index]);
    } else {
        assert(is_char_boundary(pre, pre.len() as int));
    }
}

/// The character offsets of two byte boundaries of a text are ordered as the
/// boundaries are, strictly when the boundaries differ, and lie within the text.
pub proof fn lemma_char_offsets(text: Seq<char>, s: int, e: int)
    requires
        valid_byte_range(text, s, e),
    ensures
        byte_slice(text, 0, e).len() <= text.len(),
        byte_slice(text, 0, s).len() <= byte_slice(text, 0, e).len(),
        s < e ==> byte_slice(text, 0, s).len() < byte_slice(text, 0, e).len(),
{
    broadcast use vstd::utf8::encode_utf8_valid_utf8, vstd::utf8::encode_utf8_decode_utf8,
        vstd::utf8::valid_utf8_split;
    let b = encode_utf8(text);
    assert(valid_utf8(b));
    vstd::utf8::decode_utf8_split(b, e);
    let pre = b.subrange(0, e);
    lemma_boundary_in_prefix(b, e, s);
    vstd::utf8::decode_utf8_split(pre, s);
    assert(pre.subrange(0, s) =~= b.subrange(0, s));
    let mid = pre.subrange(s, pre.len() as int);
    assert(mid =~= b.subrange(s, e));
    if s < e {
        assert(valid_utf8(mid));
        assert(mid.len() > 0);
        assert(decode_utf8(mid).len() > 0);
    }
}

/// The number of characters before byte offset `i` of a text.
pub fn char_offset(text: &str, i: usize) -> (c: usize)
    requires
        valid_byte_range(text@, i as int, i as int),
    ensures
        c == byte_slice(text@, 0, i as int).len(),
{
    proof {
        broadcast use vstd::utf8::encode_utf8_valid_utf8;
        assert(is_char_boundary(encode_utf8(text@), 0));
    }
    let head = slice_by_bytes(text, 0, i);
    chars_of(head).len()
}

/// The part of `text` between two byte offsets that lie on character boundaries.
pub fn slice_by_bytes(text: &str, start: usize, end: usize) -> (r: &str)
    requires
        valid_byte_range(text@, start as int, end as int),
    ensures
        r@ == byte_slice(text@, start as int, end as int),
{
    broadcast use vstd::utf8::encode_utf8_valid_utf8, vstd::utf8::encode_utf8_decode_utf8,
        vstd::utf8::decode_utf8_encode_utf8, vstd::utf8::valid_utf8_split;
    let ghost b = encode_utf8(text@);
    assert(text.spec_bytes() == b);
    assert(valid_utf8(b));
    let (head, _) = text.split_at(end);
    proof {
        lemma_boundary_in_prefix(b, end as int, start as int);
        assert(head.spec_bytes() =~= b.subrange(0, end as int));
    }
    let (_, mid) = head.split_at(start);
    proof {
        let hb = b.subrange(0, end as int);
        assert(mid.spec_bytes() =~= hb.subrange(start as int, hb.len() as int));
        assert(hb.subrange(start as int, hb.len() as int) =~= b.subrange(start as int, end as int));
        assert(decode_utf8(encode_utf8(mid@)) == mid@);
    }
    mid
}

} // verus!

verus! {

/// The decimal digit character for `d` (0 to 9).
pub open spec fn digit_char(d: nat) -> char {
    ((d + '0' as nat) as u32) as char
}

/// The decimal representation of `n`, without leading zeros.
pub open spec fn decimal(n: nat) -> Seq<char>
    decreases n,
{
    if n < 10 {
        seq![digit_char(n)]
    } else {
        decimal(n / 10).push(digit_char(n % 10))
    }
}

fn digit_str(d: u64) -> (s: &'static str)
    requires
        d < 10,
    ensures
        s@ == seq![digit_char(d as nat)],
{
    proof {
        reveal_strlit("0");
        reveal_strlit("1");
        reveal_strlit("2");
        reveal_strlit("3");
        reveal_strlit("4");
        reveal_strlit("5");
        reveal_strlit("6");
        reveal_strlit("7");
        reveal_strlit("8");
        reveal_strlit("9");
    }
    let s = match d {
        0 => "0",
        1 => "1",
        2 => "2",
        3 => "3",
        4 => "4",
        5 => "5",
        6 => "6",
        7 => "7",
        8 => "8",
        _ => "9",
    };
    proof {
        assert(s@ =~= seq![digit_char(d as nat)]);
    }
    s
}

/// Appends the decimal representation of `n` to `s`.
pub fn push_decimal(s: &mut String, n: u64)
    ensures
        final(s)@ == old(s)@ + decimal(n as nat),
    decreases n,
{
    if n >= 10 {
        push_decimal(s, n / 10);
    }
    s.append(digit_str(n % 10));
    proof {
        if n >= 10 {
            assert(old(s)@ + decimal(n as nat) =~= old(s)@ + decimal((n / 10) as nat) + seq![digit_char((n % 10) as nat)]);
        } else {
            assert(decimal(n as nat) =~= seq![digit_char((n % 10) as nat)]);
        }
    }
}

} // verus!

verus! {

/// The Unicode White_Space property (PropList.txt): tab to carriage return,
/// space, next line, no-break space, ogham space mark, en quad to hair space,
/// line and paragraph separators, narrow no-break space, medium mathematical
/// space and ideographic space.
pub open spec fn white_space(c: char) -> bool {
    let u = c as u32;
    ||| 0x09 <= u <= 0x0D
    ||| u == 0x20
    ||| u == 0x85
    ||| u == 0xA0
    ||| u == 0x1680
    ||| 0x2000 <= u <= 0x200A
    ||| u == 0x2028
    ||| u == 0x2029
    ||| u == 0x202F
    ||| u == 0x205F
    ||| u == 0x3000
}

/// Whether a character has the Unicode White_Space property, as
/// `char::is_whitespace` tests it.
pub fn is_whitespace(c: char) -> (b: bool)
    ensures
        b == white_space(c),
{
    let u = c as u32;
    (0x09 <= u && u <= 0x0D) || u == 0x20 || u == 0x85 || u == 0xA0 || u == 0x1680
        || (0x2000 <= u && u <= 0x200A) || u == 0x2028 || u == 0x2029 || u == 0x202F
        || u == 0x205F || u == 0x3000
}

/// Splitting state after scanning a text: the words so far, and whether the
/// last character belongs to a word.
pub open spec fn word_scan(s: Seq<char>) -> (Seq<Seq<char>>, bool)
    decreases s.len(),
{
    if s.len() == 0 {
        (Seq::empty(), false)
    } else {
        let (ws, in_word) = word_scan(s.drop_last());
        let c = s.last();
        if white_space(c) {
            (ws, false)
        } else if in_word {
            (ws.update(ws.len() - 1, ws.last().push(c)), true)
        } else {
            (ws.push(seq![c]), true)
        }
    }
}

/// The words of a text: its maximal runs of non-whitespace characters, in
/// order (what `str::split_whitespace` yields).
pub open spec fn words(s: Seq<char>) -> Seq<Seq<char>> {
    word_scan(s).0
}

proof fn lemma_word_scan_shape(s: Seq<char>)
    ensures
        word_scan(s).1 ==> word_scan(s).0.len() > 0,
    decreases s.len(),
{
    if s.len() > 0 {
        lemma_word_scan_shape(s.drop_last());
    }
}

/// Splits a text into its words (maximal runs of non-whitespace characters).
pub fn split_words(s: &str) -> (ws: Vec<String>)
    ensures
        ws@.map_values(|w: String| w@) == words(s@),
{
    let cs = crate::text::chars_of(s);
    let mut ws: Vec<String> = Vec::new();
    let mut cur: Vec<char> = Vec::new();
    let mut in_word = false;
    let mut i: usize = 0;
    while i < cs.len()
        invariant
            i <= cs@.len(),
            cs@ == s@,
            in_word == word_scan(cs@.take(i as int)).1,
            in_word ==> ws@.map_values(|w: String| w@).push(cur@) == words(cs@.take(i as int)),
            !in_word ==> ws@.map_values(|w: String| w@) == words(cs@.take(i as int)),
            !in_word ==> cur@.len() == 0,
        decreases cs@.len() - i,
    {
        let c = cs[i];
        proof {
            assert(cs@.take(i as int + 1).drop_last() =~= cs@.take(i as int));
            assert(cs@.take(i as int + 1).last() == c);
            lemma_word_scan_shape(cs@.take(i as int));
        }
        if is_whitespace(c) {
            if in_word {
                let w = string_of_chars(&cur);
                ws.push(w);
                cur = Vec::new();
                proof {
                    assert(ws@.map_values(|w: String| w@) =~= words(cs@.take(i as int)));
                }
            }
            in_word = false;
        } else {
            let ghost before = cur@;
            cur.push(c);
            proof {
                if in_word {
                    let prev = words(cs@.take(i as int));
                    assert(ws@.map_values(|w: String| w@).push(cur@) =~= prev.update(prev.len() - 1, prev.last().push(c)));
                } else {
                    assert(cur@ =~= seq![c]);
                }
            }
            in_word = true;
        }
        i = i + 1;
    }
    if in_word {
        let w = string_of_chars(&cur);
        ws.push(w);
    }
    proof {
        assert(cs@.take(cs@.len() as int) =~= cs@);
    }
    ws
}

/// Builds a string from its characters.
pub fn string_of_chars(cs: &Vec<char>) -> (s: String)
    ensures
        s@ == cs@,
{
    let mut s = String::new();
    let mut i: usize = 0;
    while i < cs.len()
        invariant
            i <= cs@.len(),
            s@ == cs@.take(i as int),
        decreases cs@.len() - i,
    {
        push_char(&mut s, cs[i]);
        proof {
            assert(cs@.take(i as int + 1) =~= cs@.take(i as int).push(cs@[i as int]));
        }
        i = i + 1;
    }
    proof {
        assert(cs@.take(cs@.len() as int) =~= cs@);
    }
    s
}

/// Calls `String::push`, which appends one character.
#[verifier::external_body]
pub(crate) fn push_char(s: &mut String, c: char)
    ensures
        final(s)@ == old(s)@.push(c),
{
    s.push(c);
}

/// Whether `needle` occurs as a contiguous part of `hay`.
pub open spec fn contains_seq(hay: Seq<char>, needle: Seq<char>) -> bool {
    exists|i: int| 0 <= i && i + needle.len() <= hay.len() && #[trigger] hay.subrange(i, i + needle.len()) == needle
}

/// Whether `needle` occurs in `hay`, as `str::contains` with a string
/// pattern tells.
pub fn str_contains(hay: &str, needle: &str) -> (b: bool)
    ensures
        b == contains_seq(hay@, needle@),
{
    let h = chars_of(hay);
    let n = chars_of(needle);
    if n.len() > h.len() {
        return false;
    }
    let last = h.len() - n.len();
    let mut i: usize = 0;
    loop
        invariant_except_break
            h@ == hay@,
            n@ == needle@,
            n@.len() <= h@.len(),
            h@.len() <= usize::MAX,
            last == h@.len() - n@.len(),
            i <= last,
            forall|k: int| 0 <= k < i ==> #[trigger] hay@.subrange(k, k + needle@.len()) != needle@,
        ensures
            forall|k: int| 0 <= k <= last ==> #[trigger] hay@.subrange(k, k + needle@.len()) != needle@,
        decreases last - i,
    {
        let mut j: usize = 0;
        let mut same = true;
        while same && j < n.len()
            invariant
                h@ == hay@,
                n@ == needle@,
                i + n@.len() <= h@.len(),
                h@.len() <= usize::MAX,
                j <= n@.len(),
                forall|m: int| 0 <= m < j ==> h@[i + m] == n@[m],
                !same ==> j < n@.len() && h@[i + j] != n@[j as int],
            decreases n@.len() - j, if same { 1int } else { 0int },
        {
            if h[i + j] == n[j] {
                j = j + 1;
            } else {
                same = false;
            }
        }
        if same {
            proof {
                assert(hay@.subrange(i as int, i + needle@.len()) =~= needle@);
            }
            return true;
        }
        proof {
            assert(hay@.subrange(i as int, i + needle@.len())[j as int] != needle@[j as int]);
        }
        if i == last {
            break;
        }
        i = i + 1;
    }
    false
}

/// The words of a list, each followed by `sep` except the last.
pub open spec fn join_with(ws: Seq<Seq<char>>, sep: Seq<char>) -> Seq<char>
    decreases ws.len(),
{
    if ws.len() == 0 {
        Seq::empty()
    } else if ws.len() == 1 {
        ws[0]
    } else {
        join_with(ws.drop_last(), sep) + sep + ws.last()
    }
}

/// Joins strings with a separator.
pub fn join_strings(ws: &[String], sep: &str) -> (s: String)
    ensures
        s@ == join_with(ws@.map_values(|w: String| w@), sep@),
{
    let ghost v = ws@.map_values(|w: String| w@);
    let mut s = String::new();
    let mut i: usize = 0;
    while i < ws.len()
        invariant
            i <= ws@.len(),
            v == ws@.map_values(|w: String| w@),
            s@ == join_with(v.take(i as int), sep@),
        decreases ws@.len() - i,
    {
        proof {
            assert(v.take(i as int + 1).drop_last() =~= v.take(i as int));
            assert(v.take(i as int + 1).last() == ws@[i as int]@);
        }
        if i > 0 {
            s.append(sep);
        } else {
            proof {
                assert(v.take(1) =~= seq![ws@[0]@]);
            }
        }
        s.append(ws[i].as_str());
        i = i + 1;
    }
    proof {
        assert(v.take(ws@.len() as int) =~= v);
    }
    s
}

} // verus!

verus! {

/// The number of words in a text (what `str::split_whitespace().count()` gives).
pub fn word_count(s: &str) -> (n: usize)
    ensures
        n == words(s@).len(),
{
    let ws = split_words(s);
    ws.len()
}

} // verus!
