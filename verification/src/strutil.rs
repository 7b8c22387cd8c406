//! Small verified string helpers: taking the bounded first line of a message
//! and rendering numbers, used by commit formatting and widget titles.

use vstd::prelude::*;

use vstd::string::StringSliceAdditionalSpecFns;
use vstd::utf8::is_char_boundary;
use vstd::utf8::is_continuation_byte;

verus! {

/// Relies on `String::push`: appends exactly the given character.
pub assume_specification[ String::push ](s: &mut String, c: char)
    ensures
        final(s)@ == old(s)@.push(c),
;

/// Length of the leading line of `bs`: the number of bytes before the first
/// line-feed byte, or all of them when none occurs.
pub open spec fn spec_line_len(bs: Seq<u8>) -> int
    decreases bs.len(),
{
    if bs.len() == 0 {
        0
    } else if bs[0] == 10 {
        0
    } else {
        1 + spec_line_len(bs.drop_first())
    }
}

/// The leading line with a carriage return before the line feed dropped,
/// as a byte count.
pub open spec fn spec_line_trimmed(bs: Seq<u8>) -> int {
    let e = spec_line_len(bs);
    if e > 0 && bs[e - 1] == 13 {
        e - 1
    } else {
        e
    }
}

/// The byte count where `limit_str` cuts: the requested limit, but at most
/// the leading line.
pub open spec fn spec_limit_base(bs: Seq<u8>, limit: int) -> int {
    if limit < spec_line_trimmed(bs) {
        limit
    } else {
        spec_line_trimmed(bs)
    }
}

/// `spec_line_len` is the least index holding a line feed (or the length).
pub proof fn lemma_line_len(bs: Seq<u8>)
    ensures
        0 <= spec_line_len(bs) <= bs.len(),
        forall|j: int| 0 <= j < spec_line_len(bs) ==> bs[j] != 10,
        spec_line_len(bs) < bs.len() ==> bs[spec_line_len(bs)] == 10,
    decreases bs.len(),
{
    if bs.len() > 0 && bs[0] != 10 {
        lemma_line_len(bs.drop_first());
        assert forall|j: int| 0 <= j < spec_line_len(bs) implies bs[j] != 10 by {
            if j > 0 {
                assert(bs.drop_first()[j - 1] == bs[j]);
            }
        }
        let e = spec_line_len(bs);
        assert(e < bs.len() ==> bs[e] == bs.drop_first()[e - 1]);
    }
}

/// At most `limit` bytes of the first line of `s`, extended minimally so the
/// cut falls on a character boundary: the result is the prefix of `s` whose
/// length is the least character boundary that is at least the limit (capped
/// at the first line's length, with a carriage return before a line feed not
/// counted).
pub fn limit_str<'a>(s: &'a str, limit: usize) -> (r: &'a str)
    ensures
        ({
            let bs = s.spec_bytes();
            let base = spec_limit_base(bs, limit as int);
            let n = r.spec_bytes().len() as int;
            &&& r.spec_bytes() == bs.take(n)
            &&& base <= n <= spec_line_trimmed(bs)
            &&& is_char_boundary(bs, n)
            &&& forall|j: int| base <= j < n ==> !is_char_boundary(bs, j)
        }),
{
    broadcast use vstd::utf8::encode_utf8_valid_utf8;
    broadcast use vstd::utf8::is_char_boundary_start_end_of_seq;
    broadcast use vstd::utf8::is_char_boundary_iff_not_is_continuation_byte;

    let bytes: &[u8] = s.as_bytes();
    let total: usize = bytes.len();
    proof {
        lemma_line_len(s.spec_bytes());
    }

    // find the end of the first line
    let mut line: usize = 0;
    while line < total && bytes[line] != 10u8
        invariant
            0 <= line <= total,
            total == s.spec_bytes().len(),
            bytes@ == s.spec_bytes(),
            forall|j: int| 0 <= j < line ==> s.spec_bytes()[j] != 10,
        decreases total - line,
    {
        line = line + 1;
    }
    assert(line == spec_line_len(s.spec_bytes()));

    // drop a carriage return that precedes the line feed
    if line > 0 && bytes[line - 1] == 13u8 {
        line = line - 1;
    }
    assert(line == spec_line_trimmed(s.spec_bytes()));

    // the trimmed line ends at a boundary: at the end of the bytes, or at an
    // ASCII line-feed or carriage-return byte
    assert(is_char_boundary(s.spec_bytes(), line as int)) by {
        if (line as int) < s.spec_bytes().len() {
            assert(!is_continuation_byte(s.spec_bytes()[line as int]));
        }
    }

    // cut at the limit, extended to the next character boundary
    let mut k: usize = if limit < line {
        limit
    } else {
        line
    };
    while !s.is_char_boundary(k)
        invariant
            spec_limit_base(s.spec_bytes(), limit as int) <= k <= line,
            line == spec_line_trimmed(s.spec_bytes()),
            is_char_boundary(s.spec_bytes(), line as int),
            forall|j: int|
                spec_limit_base(s.spec_bytes(), limit as int) <= j < k ==> !is_char_boundary(
                    s.spec_bytes(),
                    j,
                ),
        decreases line - k,
    {
        k = k + 1;
    }

    let (head, _) = s.split_at(k);
    proof {
        assert(head.spec_bytes() =~= s.spec_bytes().take(k as int));
    }
    head
}

/// The decimal digit characters of `n`, most significant first.
pub open spec fn spec_decimal(n: nat) -> Seq<char>
    decreases n,
{
    if n < 10 {
        seq![dec_digit(n)]
    } else {
        spec_decimal(n / 10).push(dec_digit(n % 10))
    }
}

/// The character for one decimal digit.
pub open spec fn dec_digit(n: nat) -> char {
    ((n % 10) + 48) as u8 as char
}

/// Renders `n` in decimal.
pub fn u64_to_string(n: u64) -> (r: String)
    ensures
        r@ == spec_decimal(n as nat),
    decreases n,
{
    if n < 10 {
        let mut s = String::new();
        s.push((48 + n as u8) as char);
        s
    } else {
        let mut s = u64_to_string(n / 10);
        s.push((48 + (n % 10) as u8) as char);
        s
    }
}

} // verus!
