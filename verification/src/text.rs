//! Text as sequences of characters: lines, separated fields, decimal numbers
//! and dotted IPv4 addresses.

use vstd::prelude::*;
use vstd::utf8::{decode_utf8, valid_utf8};

verus! {

/// Calls `core::str::from_utf8`. The claim, as its documentation has it: the
/// call succeeds exactly on well-formed UTF-8 and gives the text that the
/// bytes encode.
#[verifier::external_body]
fn utf8_text(bytes: &[u8]) -> (r: Option<&str>)
    ensures
        r is Some <==> valid_utf8(bytes@),
        r matches Some(text) ==> text@ == decode_utf8(bytes@),
{
    core::str::from_utf8(bytes).ok()
}

/// The text that `bytes` encode in UTF-8, if they are well-formed.
pub fn text_of(bytes: &[u8]) -> (r: Option<&str>)
    ensures
        r is Some <==> valid_utf8(bytes@),
        r matches Some(text) ==> text@ == decode_utf8(bytes@),
{
    utf8_text(bytes)
}

/// The characters of `text`, in order.
pub fn chars_of(text: &str) -> (r: Vec<char>)
    ensures
        r@ == text@,
{
    let mut out: Vec<char> = Vec::new();
    for c in it: text.chars()
        invariant
            it.seq() == text@,
            out@ == it.seq().take(it.index()),
    {
        out.push(c);
        assert(it.seq().take(it.index() + 1) =~= it.seq().take(it.index()).push(c));
    }
    assert(out@ =~= text@);
    out
}

/// Whether `text` holds the character `wanted`.
pub fn contains_char(text: &[char], wanted: char) -> (r: bool)
    ensures
        r == text@.contains(wanted),
{
    let mut i: usize = 0;
    while i < text.len()
        invariant
            i <= text.len(),
            forall|j: int| 0 <= j < i ==> text@[j] != wanted,
        decreases text.len() - i,
    {
        if text[i] == wanted {
            return true;
        }
        i += 1;
    }
    false
}

/// Whether `a` and `b` hold the same characters.
pub fn same_chars(a: &[char], b: &[char]) -> (r: bool)
    ensures
        r == (a@ == b@),
{
    if a.len() != b.len() {
        return false;
    }
    let mut i: usize = 0;
    while i < a.len()
        invariant
            i <= a.len(),
            a.len() == b.len(),
            forall|j: int| 0 <= j < i ==> a@[j] == b@[j],
        decreases a.len() - i,
    {
        if a[i] != b[i] {
            return false;
        }
        i += 1;
    }
    assert(a@ =~= b@);
    true
}

/// The views of a run of character vectors, in the same order.
pub open spec fn chars_views(parts: Seq<Vec<char>>) -> Seq<Seq<char>> {
    parts.map_values(|p: Vec<char>| p@)
}

/// The fields of `text` between occurrences of `sep`: one more than there are
/// separators, none of them holding one, possibly empty.
pub open spec fn split_on(text: Seq<char>, sep: char) -> Seq<Seq<char>>
    decreases text.len(),
{
    if text.len() == 0 {
        seq![Seq::<char>::empty()]
    } else {
        let before = split_on(text.drop_last(), sep);
        if text.last() == sep {
            before.push(Seq::<char>::empty())
        } else {
            before.drop_last().push(before.last().push(text.last()))
        }
    }
}

/// The fields of `parts` written one after another with `sep` between them.
pub open spec fn joined(parts: Seq<Seq<char>>, sep: char) -> Seq<char>
    decreases parts.len(),
{
    if parts.len() == 0 {
        Seq::empty()
    } else if parts.len() == 1 {
        parts.last()
    } else {
        joined(parts.drop_last(), sep).push(sep) + parts.last()
    }
}

/// A split always yields a field, and joining the fields with the separator
/// gives the text back.
pub proof fn lemma_split_on(text: Seq<char>, sep: char)
    ensures
        split_on(text, sep).len() >= 1,
        forall|i: int|
            0 <= i < split_on(text, sep).len() ==> !(#[trigger] split_on(text, sep)[i]).contains(
                sep,
            ),
        joined(split_on(text, sep), sep) == text,
    decreases text.len(),
{
    if text.len() > 0 {
        let shorter = text.drop_last();
        lemma_split_on(shorter, sep);
        let before = split_on(shorter, sep);
        let all = split_on(text, sep);
        if text.last() == sep {
            assert(all.drop_last() =~= before);
            assert(joined(all, sep) =~= text);
        } else {
            let grown = before.last().push(text.last());
            assert(all.drop_last() =~= before.drop_last());
            assert forall|i: int| 0 <= i < all.len() implies !(#[trigger] all[i]).contains(sep) by {
                if i == all.len() - 1 {
                    if grown.contains(sep) {
                        let j = choose|j: int| 0 <= j < grown.len() && grown[j] == sep;
                        assert(before.last()[j] == sep);
                    }
                } else {
                    assert(all[i] == before[i]);
                }
            }
            assert(all.last() == grown);
            if before.len() == 1 {
                assert(joined(before, sep) == before.last());
                assert(joined(all, sep) =~= text);
            } else {
                let head = joined(before.drop_last(), sep).push(sep);
                assert(joined(before, sep) == head + before.last());
                assert(joined(all, sep) == head + grown);
                assert(head + grown =~= (head + before.last()).push(text.last()));
                assert(shorter.push(text.last()) =~= text);
            }
        }
    } else {
        assert(joined(split_on(text, sep), sep) =~= text);
    }
}

/// Splits `text` at every `sep`.
pub fn split(text: &[char], sep: char) -> (r: Vec<Vec<char>>)
    ensures
        chars_views(r@) == split_on(text@, sep),
{
    let mut done: Vec<Vec<char>> = Vec::new();
    let mut current: Vec<char> = Vec::new();
    let mut i: usize = 0;
    assert(text@.take(0) =~= Seq::<char>::empty());
    assert(chars_views(done@).push(current@) =~= split_on(Seq::<char>::empty(), sep));
    while i < text.len()
        invariant
            i <= text.len(),
            chars_views(done@).push(current@) == split_on(text@.take(i as int), sep),
        decreases text.len() - i,
    {
        let c = text[i];
        let ghost before = split_on(text@.take(i as int), sep);
        let ghost old_done = done@;
        let ghost old_current = current@;
        proof {
            assert(text@.take(i + 1).drop_last() =~= text@.take(i as int));
            assert(text@.take(i + 1).last() == c);
            assert(before.last() == old_current);
            assert(before.drop_last() =~= chars_views(old_done));
        }
        if c == sep {
            done.push(current);
            current = Vec::new();
            assert(chars_views(done@) =~= before);
        } else {
            current.push(c);
        }
        i += 1;
        assert(chars_views(done@).push(current@) =~= split_on(text@.take(i as int), sep));
    }
    assert(text@.take(text.len() as int) =~= text@);
    done.push(current);
    assert(chars_views(done@) =~= split_on(text@, sep));
    done
}

/// `line` without the carriage return at its end, if it has one.
pub open spec fn strip_cr(line: Seq<char>) -> Seq<char> {
    if line.len() > 0 && line.last() == '\r' {
        line.drop_last()
    } else {
        line
    }
}

/// Each of `lines` without the carriage return at its end.
pub open spec fn strip_each(lines: Seq<Seq<char>>) -> Seq<Seq<char>> {
    lines.map_values(|p: Seq<char>| strip_cr(p))
}

/// The lines of `text`. A line ends at a line feed; the line feed, and a
/// carriage return just before it, are not part of the line. What follows
/// the last line feed is a line of its own unless it is empty.
pub open spec fn text_lines(text: Seq<char>) -> Seq<Seq<char>> {
    let parts = split_on(text, '\n');
    let ended = strip_each(parts.drop_last());
    if parts.last().len() == 0 {
        ended
    } else {
        ended.push(parts.last())
    }
}

/// No line holds a line feed.
pub proof fn lemma_lines_hold_no_line_feed(text: Seq<char>)
    ensures
        forall|i: int|
            0 <= i < text_lines(text).len() ==> !(#[trigger] text_lines(text)[i]).contains('\n'),
{
    lemma_split_on(text, '\n');
    let parts = split_on(text, '\n');
    assert forall|i: int| 0 <= i < text_lines(text).len() implies !(#[trigger] text_lines(
        text,
    )[i]).contains('\n') by {
        let line = text_lines(text)[i];
        if line.contains('\n') {
            let j = choose|j: int| 0 <= j < line.len() && line[j] == '\n';
            assert(parts[i][j] == '\n');
            assert(parts[i].contains('\n'));
        }
    }
}

/// Splits `text` into its lines.
pub fn lines(text: &[char]) -> (r: Vec<Vec<char>>)
    ensures
        chars_views(r@) == text_lines(text@),
{
    let mut done: Vec<Vec<char>> = Vec::new();
    let mut current: Vec<char> = Vec::new();
    let mut i: usize = 0;
    assert(text@.take(0) =~= Seq::<char>::empty());
    assert(chars_views(done@) =~= strip_each(split_on(Seq::<char>::empty(), '\n').drop_last()));
    while i < text.len()
        invariant
            i <= text.len(),
            chars_views(done@) == strip_each(split_on(text@.take(i as int), '\n').drop_last()),
            current@ == split_on(text@.take(i as int), '\n').last(),
        decreases text.len() - i,
    {
        let c = text[i];
        let ghost before = split_on(text@.take(i as int), '\n');
        let ghost after = split_on(text@.take(i + 1), '\n');
        let ghost old_done = chars_views(done@);
        proof {
            assert(text@.take(i + 1).drop_last() =~= text@.take(i as int));
            assert(text@.take(i + 1).last() == c);
            lemma_split_on(text@.take(i as int), '\n');
        }
        if c == '\n' {
            let n = current.len();
            if n > 0 && current[n - 1] == '\r' {
                current.pop();
            }
            assert(current@ =~= strip_cr(before.last()));
            done.push(current);
            current = Vec::new();
            proof {
                assert(after == before.push(Seq::<char>::empty()));
                assert(after.drop_last() =~= before);
                assert(chars_views(done@) =~= old_done.push(strip_cr(before.last())));
                assert(strip_each(before) =~= strip_each(before.drop_last()).push(
                    strip_cr(before.last()),
                ));
            }
        } else {
            current.push(c);
            proof {
                assert(after == before.drop_last().push(before.last().push(c)));
                assert(after.drop_last() =~= before.drop_last());
            }
        }
        i += 1;
    }
    assert(text@.take(text.len() as int) =~= text@);
    if current.len() > 0 {
        done.push(current);
        assert(chars_views(done@) =~= text_lines(text@));
    }
    done
}

/// Whether `c` is one of the ten ASCII digits.
pub open spec fn is_digit(c: char) -> bool {
    '0' <= c && c <= '9'
}

/// The value of the ASCII digit `c`.
pub open spec fn digit_value(c: char) -> nat {
    (c as u32 - '0' as u32) as nat
}

/// Whether `text` holds ASCII digits only.
pub open spec fn all_digits(text: Seq<char>) -> bool {
    forall|i: int| 0 <= i < text.len() ==> is_digit(#[trigger] text[i])
}

/// The number that the digits of `text` write in base ten.
pub open spec fn decimal_value(text: Seq<char>) -> nat
    decreases text.len(),
{
    if text.len() == 0 {
        0
    } else {
        decimal_value(text.drop_last()) * 10 + digit_value(text.last())
    }
}

/// The `u64` that `text` writes: one or more ASCII digits, nothing else, and
/// a value within range.
pub open spec fn decimal_u64(text: Seq<char>) -> Option<u64> {
    if text.len() > 0 && all_digits(text) && decimal_value(text) <= u64::MAX {
        Some(decimal_value(text) as u64)
    } else {
        None
    }
}

/// A number is at least what any of its leading digits write.
pub proof fn lemma_decimal_prefix(text: Seq<char>, n: int)
    requires
        0 <= n <= text.len(),
    ensures
        decimal_value(text.take(n)) <= decimal_value(text),
    decreases text.len() - n,
{
    if n == text.len() {
        assert(text.take(n) =~= text);
    } else {
        lemma_decimal_prefix(text.drop_last(), n);
        assert(text.drop_last().take(n) =~= text.take(n));
    }
}

/// Reads `text` as a decimal `u64`.
pub fn parse_decimal(text: &[char]) -> (r: Option<u64>)
    ensures
        r == decimal_u64(text@),
{
    if text.len() == 0 {
        return None;
    }
    let mut acc: u64 = 0;
    let mut i: usize = 0;
    assert(text@.take(0) =~= Seq::<char>::empty());
    while i < text.len()
        invariant
            i <= text.len(),
            all_digits(text@.take(i as int)),
            acc == decimal_value(text@.take(i as int)),
        decreases text.len() - i,
    {
        let c = text[i];
        if !('0' <= c && c <= '9') {
            assert(!is_digit(text@[i as int]));
            return None;
        }
        let d: u64 = (c as u32 - '0' as u32) as u64;
        proof {
            assert(text@.take(i + 1).drop_last() =~= text@.take(i as int));
            assert(text@.take(i + 1).last() == c);
            assert(decimal_value(text@.take(i + 1)) == acc * 10 + d);
        }
        if acc > (u64::MAX - d) / 10 {
            proof {
                lemma_decimal_prefix(text@, i + 1);
            }
            return None;
        }
        acc = acc * 10 + d;
        i += 1;
    }
    assert(text@.take(text.len() as int) =~= text@);
    Some(acc)
}

/// Whether `text` writes one octet of a dotted address: one to three ASCII
/// digits, no zero in front of another digit, and a value up to 255.
pub open spec fn is_octet(text: Seq<char>) -> bool {
    &&& 1 <= text.len() <= 3
    &&& all_digits(text)
    &&& text.len() > 1 ==> text[0] != '0'
    &&& decimal_value(text) <= 255
}

/// The address `a.b.c.d` as one number, `a` in the highest byte.
pub open spec fn ipv4_value(a: nat, b: nat, c: nat, d: nat) -> nat {
    a * 16777216 + b * 65536 + c * 256 + d
}

/// The address that `text` writes in dotted decimal: four octets with a dot
/// between them and nothing else.
pub open spec fn dotted_ipv4(text: Seq<char>) -> Option<u32> {
    let parts = split_on(text, '.');
    if parts.len() == 4 && is_octet(parts[0]) && is_octet(parts[1]) && is_octet(parts[2])
        && is_octet(parts[3]) {
        Some(
            ipv4_value(
                decimal_value(parts[0]),
                decimal_value(parts[1]),
                decimal_value(parts[2]),
                decimal_value(parts[3]),
            ) as u32,
        )
    } else {
        None
    }
}

/// The address `a.b.c.d` as one number, `a` in the highest byte.
pub fn ipv4_from_octets(a: u8, b: u8, c: u8, d: u8) -> (r: u32)
    ensures
        r == ipv4_value(a as nat, b as nat, c as nat, d as nat),
{
    (a as u32) * 16777216 + (b as u32) * 65536 + (c as u32) * 256 + (d as u32)
}

/// Reads `text` as one octet of a dotted address.
pub fn parse_octet(text: &[char]) -> (r: Option<u8>)
    ensures
        r is Some <==> is_octet(text@),
        r matches Some(v) ==> v == decimal_value(text@),
{
    let n = text.len();
    if n == 0 || n > 3 {
        return None;
    }
    if n > 1 && text[0] == '0' {
        return None;
    }
    match parse_decimal(text) {
        Some(v) => {
            if v <= 255 {
                Some(v as u8)
            } else {
                None
            }
        },
        None => {
            proof {
                if all_digits(text@) {
                    lemma_three_digits_fit(text@);
                }
            }
            None
        },
    }
}

/// Three digits write a number below a thousand.
pub proof fn lemma_three_digits_fit(text: Seq<char>)
    requires
        text.len() <= 3,
        all_digits(text),
    ensures
        decimal_value(text) < 1000,
{
    reveal_with_fuel(decimal_value, 4);
    if text.len() >= 1 {
        assert(is_digit(text[0]));
        assert(is_digit(text.last()));
    }
    if text.len() >= 2 {
        assert(is_digit(text.drop_last().last()));
    }
    if text.len() >= 3 {
        assert(is_digit(text.drop_last().drop_last().last()));
    }
}

/// Reads `text` as a dotted IPv4 address.
pub fn parse_ipv4(text: &[char]) -> (r: Option<u32>)
    ensures
        r == dotted_ipv4(text@),
{
    let parts = split(text, '.');
    if parts.len() != 4 {
        return None;
    }
    assert(chars_views(parts@)[0] == parts@[0]@);
    assert(chars_views(parts@)[1] == parts@[1]@);
    assert(chars_views(parts@)[2] == parts@[2]@);
    assert(chars_views(parts@)[3] == parts@[3]@);
    let a = match parse_octet(parts[0].as_slice()) {
        Some(v) => v,
        None => {
            return None;
        },
    };
    let b = match parse_octet(parts[1].as_slice()) {
        Some(v) => v,
        None => {
            return None;
        },
    };
    let c = match parse_octet(parts[2].as_slice()) {
        Some(v) => v,
        None => {
            return None;
        },
    };
    let d = match parse_octet(parts[3].as_slice()) {
        Some(v) => v,
        None => {
            return None;
        },
    };
    Some(ipv4_from_octets(a, b, c, d))
}

} // verus!
