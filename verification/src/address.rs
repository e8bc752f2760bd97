//! The address the service listens on, as given on the command line: a host
//! of four decimal numbers between dots, and a port.

use vstd::prelude::*;

verus! {

/// The byte of a dot.
pub const DOT: u8 = 46;

/// The byte of a plus sign.
pub const PLUS: u8 = 43;

/// Whether a byte is a decimal digit.
pub open spec fn is_digit(b: u8) -> bool {
    48 <= b <= 57
}

/// Whether a text holds decimal digits only.
pub open spec fn all_digits(text: Seq<u8>) -> bool {
    forall|i: int| 0 <= i < text.len() ==> is_digit(#[trigger] text[i])
}

/// The number that a run of decimal digits denotes.
pub open spec fn decimal_value(digits: Seq<u8>) -> nat
    decreases digits.len(),
{
    if digits.len() == 0 {
        0
    } else {
        decimal_value(digits.drop_last()) * 10 + (digits.last() - 48) as nat
    }
}

/// A text without the plus sign that may lead it.
pub open spec fn unsigned_part(text: Seq<u8>) -> Seq<u8> {
    if text.len() > 0 && text[0] == 43 {
        text.subrange(1, text.len() as int)
    } else {
        text
    }
}

/// The number that a text denotes, where it is one of at most `max`: one or
/// more decimal digits, which a plus sign may lead. Leading zeros count for
/// nothing.
pub open spec fn number_of(text: Seq<u8>, max: nat) -> Option<nat> {
    let digits = unsigned_part(text);
    if digits.len() > 0 && all_digits(digits) && decimal_value(digits) <= max {
        Some(decimal_value(digits))
    } else {
        None
    }
}

/// Where the part of `text` that starts at `from` ends: at the next dot, or
/// at the end of the text.
pub open spec fn part_end(text: Seq<u8>, from: int) -> int
    decreases text.len() - from,
{
    if from >= text.len() {
        text.len() as int
    } else if text[from] == 46 {
        from
    } else {
        part_end(text, from + 1)
    }
}

/// The parts of `text` from `from` on, as the dots divide it. A text
/// without a dot is one part; a dot at the end is followed by an empty part.
pub open spec fn parts_from(text: Seq<u8>, from: int) -> Seq<Seq<u8>>
    recommends
        0 <= from <= text.len(),
    decreases text.len() - from,
    via parts_from_ends
{
    let end = part_end(text, from);
    if end >= text.len() {
        seq![text.subrange(from, text.len() as int)]
    } else {
        seq![text.subrange(from, end)] + parts_from(text, end + 1)
    }
}

#[via_fn]
proof fn parts_from_ends(text: Seq<u8>, from: int) {
    lemma_part_end_is_behind(text, from);
}

/// A part does not end before it starts.
proof fn lemma_part_end_is_behind(text: Seq<u8>, from: int)
    ensures
        part_end(text, from) < text.len() ==> from <= part_end(text, from),
    decreases text.len() - from,
{
    if from < text.len() && text[from] != 46 {
        lemma_part_end_is_behind(text, from + 1);
    }
}

/// The host that a dotted text denotes: exactly four parts, each a number
/// of at most 255.
pub open spec fn host_of(text: Seq<u8>) -> Option<Seq<u8>> {
    let parts = parts_from(text, 0);
    if parts.len() == 4 && (forall|i: int| 0 <= i < 4 ==> number_of(#[trigger] parts[i], 255) is Some) {
        Some(Seq::new(4, |i: int| number_of(parts[i], 255)->0 as u8))
    } else {
        None
    }
}

/// The port that a text denotes: a number of at most 65535.
pub open spec fn port_of(text: Seq<u8>) -> Option<u16> {
    match number_of(text, 65535) {
        Some(v) => Some(v as u16),
        None => None,
    }
}

/// A run of digits denotes at least what any of its beginnings denotes.
proof fn lemma_value_grows(digits: Seq<u8>, k: int)
    requires
        0 <= k <= digits.len(),
        all_digits(digits),
    ensures
        decimal_value(digits.subrange(0, k)) <= decimal_value(digits),
    decreases digits.len(),
{
    if k == digits.len() {
        assert(digits.subrange(0, k) =~= digits);
    } else {
        let front = digits.drop_last();
        assert(front.subrange(0, k) =~= digits.subrange(0, k));
        assert(all_digits(front));
        lemma_value_grows(front, k);
    }
}

/// The part of a text ends inside the text, at a dot if before its end, and
/// holds no dot.
proof fn lemma_part_end(text: Seq<u8>, from: int)
    requires
        0 <= from <= text.len(),
    ensures
        from <= part_end(text, from) <= text.len(),
        part_end(text, from) < text.len() ==> text[part_end(text, from)] == 46,
        forall|i: int| from <= i < part_end(text, from) ==> text[i] != 46,
    decreases text.len() - from,
{
    if from < text.len() && text[from] != 46 {
        lemma_part_end(text, from + 1);
    }
}

/// Reads a number of at most `max` from a text: one or more decimal digits,
/// which a plus sign may lead.
pub fn parse_decimal(text: &[u8], max: u32) -> (out: Option<u32>)
    ensures
        out == match number_of(text@, max as nat) {
            Some(v) => Some(v as u32),
            None => None,
        },
{
    let n: usize = text.len();
    let start: usize = if n > 0 && text[0] == PLUS {
        1
    } else {
        0
    };
    let ghost digits = unsigned_part(text@);
    if start == n {
        return None;
    }
    let mut acc: u64 = 0;
    let mut i: usize = start;
    while i < n
        invariant
            start <= i <= n,
            n == text@.len(),
            digits == text@.subrange(start as int, n as int),
            digits == unsigned_part(text@),
            all_digits(digits.subrange(0, i - start)),
            acc == decimal_value(digits.subrange(0, i - start)),
            acc <= max,
        decreases n - i,
    {
        let b: u8 = text[i];
        if b < 48 || b > 57 {
            assert(!is_digit(digits[i - start]));
            return None;
        }
        let next: u64 = acc * 10 + (b - 48) as u64;
        let ghost seen = digits.subrange(0, i - start + 1);
        assert(seen.drop_last() =~= digits.subrange(0, i - start));
        assert(all_digits(seen));
        if next > max as u64 {
            proof {
                if all_digits(digits) {
                    lemma_value_grows(digits, i - start + 1);
                }
            }
            return None;
        }
        acc = next;
        i += 1;
    }
    assert(digits.subrange(0, n - start) =~= digits);
    Some(acc as u32)
}

/// Reads a port.
pub fn parse_port(text: &[u8]) -> (out: Option<u16>)
    ensures
        out == port_of(text@),
{
    match parse_decimal(text, 65535) {
        Some(v) => Some(v as u16),
        None => None,
    }
}

/// Finds where the part that starts at `from` ends.
pub fn find_part_end(text: &[u8], from: usize) -> (end: usize)
    ensures
        end == part_end(text@, from as int),
        end <= text@.len(),
        from <= text@.len() ==> from <= end,
{
    if from >= text.len() {
        return text.len();
    }
    let mut end: usize = from;
    while end < text.len() && text[end] != DOT
        invariant
            from <= end <= text@.len(),
            part_end(text@, from as int) == part_end(text@, end as int),
        decreases text@.len() - end,
    {
        end += 1;
    }
    end
}

/// Reads a host: four numbers of at most 255, with a dot between each two.
pub fn parse_host(text: &[u8]) -> (out: Option<[u8; 4]>)
    ensures
        match host_of(text@) {
            Some(host) => out is Some && out->0@ == host,
            None => out is None,
        },
{
    let n: usize = text.len();
    let mut host: [u8; 4] = [0, 0, 0, 0];
    let mut count: usize = 0;
    let mut from: usize = 0;
    let ghost mut done: Seq<Seq<u8>> = Seq::empty();
    loop
        invariant
            n == text@.len(),
            from <= n,
            count <= 4,
            done.len() == count,
            parts_from(text@, 0) == done + parts_from(text@, from as int),
            forall|i: int| 0 <= i < count ==> number_of(#[trigger] done[i], 255) == Some(host@[i] as nat),
        decreases n - from,
    {
        let end: usize = find_part_end(text, from);
        let part = vstd::slice::slice_subrange(text, from, end);
        proof {
            lemma_part_end(text@, from as int);
            assert(parts_from(text@, 0)[count as int] == part@);
        }
        if count == 4 {
            return None;
        }
        match parse_decimal(part, 255) {
            None => {
                return None;
            },
            Some(v) => {
                host[count] = v as u8;
            },
        }
        count += 1;
        if end == n {
            if count == 4 {
                return Some(host);
            }
            return None;
        }
        proof {
            done = done.push(part@);
        }
        from = end + 1;
    }
}

} // verus!
