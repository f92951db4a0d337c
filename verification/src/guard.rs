//! What a diff text must be like before it is handed to the diff parser.
//!
//! The parser reads three kinds of header, each at the start of a line: the
//! source file (`--- `), the target file (`+++ `) and the hunk (`@@ -`). It
//! gives up in disorder, and does not return, on a target header that no
//! source header precedes, and on a hunk header whose numbers are not plain
//! decimal numbers that fit in a machine word. A text is safe when it holds
//! neither. The test is made on the bytes of the text and errs on the side
//! of refusing.

use vstd::prelude::*;
use vstd::string::StringSliceAdditionalSpecFns;

verus! {

pub const LF: u8 = 10;

pub const TAB: u8 = 9;

pub const CR: u8 = 13;

pub const SPACE: u8 = 32;

pub const PLUS: u8 = 43;

pub const MINUS: u8 = 45;

pub const AT: u8 = 64;

/// The longest run of digits that a hunk header may hold.
pub const MAX_DIGITS: usize = 9;

/// Whether a line starts at position `p` of the text.
pub open spec fn line_start(b: Seq<u8>, p: int) -> bool {
    0 <= p < b.len() && (p == 0 || b[p - 1] == LF)
}

/// Whether the four bytes at `p` are `c0`, `c1`, `c2` and `c3`.
pub open spec fn starts(b: Seq<u8>, p: int, c0: u8, c1: u8, c2: u8, c3: u8) -> bool {
    p + 4 <= b.len() && b[p] == c0 && b[p + 1] == c1 && b[p + 2] == c2 && b[p + 3] == c3
}

/// Whether the line at `p` names a source file: it starts with `--- ` and
/// goes on with a byte that is neither a tab nor the end of the line.
pub open spec fn names_source(b: Seq<u8>, p: int) -> bool {
    &&& line_start(b, p)
    &&& starts(b, p, MINUS, MINUS, MINUS, SPACE)
    &&& p + 4 < b.len()
    &&& b[p + 4] != TAB
    &&& b[p + 4] != LF
    &&& b[p + 4] != CR
}

/// Whether the line at `p` may name a target file: it starts with `+++ `.
pub open spec fn may_name_target(b: Seq<u8>, p: int) -> bool {
    line_start(b, p) && starts(b, p, PLUS, PLUS, PLUS, SPACE)
}

/// Whether the line at `p` may be the header of a hunk: it starts with
/// `@@ -`.
pub open spec fn may_head_hunk(b: Seq<u8>, p: int) -> bool {
    line_start(b, p) && starts(b, p, AT, AT, SPACE, MINUS)
}

/// Whether position `i` lies in the numbers of the hunk header that go from
/// `s` to the next `@` or the end of the line.
pub open spec fn in_numbers(b: Seq<u8>, s: int, i: int) -> bool {
    s <= i < b.len() && forall|k: int| s <= k <= i ==> b[k] != AT && b[k] != LF
}

/// Whether a byte is a decimal digit.
pub open spec fn is_digit(c: u8) -> bool {
    48 <= c <= 57
}

/// The length of the run of digits that ends at `i` and starts no earlier
/// than `s`.
pub open spec fn digit_run(b: Seq<u8>, s: int, i: int) -> nat
    decreases i - s + 1,
{
    if i < s || i >= b.len() || !is_digit(b[i]) {
        0
    } else {
        digit_run(b, s, i - 1) + 1
    }
}

/// Whether the numbers of the hunk header that start at `s` are plain: every
/// byte is ASCII, and no run of digits is longer than `MAX_DIGITS`.
pub open spec fn plain_numbers(b: Seq<u8>, s: int) -> bool {
    forall|i: int| #[trigger]
        in_numbers(b, s, i) ==> b[i] < 128 && digit_run(b, s, i) <= MAX_DIGITS
}

/// Whether the diff parser can take the text: every target header has a
/// source header before it, and every hunk header has plain numbers.
pub open spec fn parser_safe(b: Seq<u8>) -> bool {
    &&& forall|p: int| #[trigger]
        may_name_target(b, p) ==> exists|q: int| q < p && names_source(b, q)
    &&& forall|p: int| #[trigger] may_head_hunk(b, p) ==> plain_numbers(b, p + 4)
}

/// Compares the four bytes at `p` with `c0`, `c1`, `c2` and `c3`.
fn starts_with(bytes: &[u8], p: usize, c0: u8, c1: u8, c2: u8, c3: u8) -> (r: bool)
    ensures
        r == starts(bytes@, p as int, c0, c1, c2, c3),
{
    let len = bytes.len();
    len >= 4 && p <= len - 4 && bytes[p] == c0 && bytes[p + 1] == c1 && bytes[p + 2] == c2
        && bytes[p + 3] == c3
}

/// Tests the numbers of the hunk header that start at `s`.
fn has_plain_numbers(bytes: &[u8], s: usize) -> (r: bool)
    requires
        s <= bytes@.len(),
    ensures
        r == plain_numbers(bytes@, s as int),
{
    let ghost b = bytes@;
    let mut i: usize = s;
    let mut run: usize = 0;
    while i < bytes.len() && bytes[i] != AT && bytes[i] != LF
        invariant
            s <= i <= bytes.len(),
            b == bytes@,
            run <= MAX_DIGITS,
            run == digit_run(b, s as int, i - 1),
            forall|k: int| s <= k < i ==> b[k] != AT && b[k] != LF,
            forall|k: int|
                s <= k < i ==> b[k] < 128 && digit_run(b, s as int, k) <= MAX_DIGITS,
        decreases bytes.len() - i,
    {
        let c = bytes[i];
        assert(in_numbers(b, s as int, i as int));
        if c >= 128 {
            return false;
        }
        if 48 <= c && c <= 57 {
            if run == MAX_DIGITS {
                return false;
            }
            run = run + 1;
        } else {
            run = 0;
        }
        i += 1;
    }
    assert forall|k: int| #[trigger] in_numbers(b, s as int, k) implies b[k] < 128 && digit_run(
        b,
        s as int,
        k,
    ) <= MAX_DIGITS by {
        if k >= i {
            assert(b[i as int] == AT || b[i as int] == LF);
        }
    }
    true
}

/// Tests whether the diff parser can take `text`.
pub fn is_parser_safe(text: &str) -> (r: bool)
    ensures
        r == parser_safe(text.spec_bytes()),
{
    let bytes = text.as_bytes();
    let ghost b = bytes@;
    let len = bytes.len();
    let mut p: usize = 0;
    let mut seen = false;
    while p < len
        invariant
            b == bytes@,
            b == text.spec_bytes(),
            len == b.len(),
            p < len ==> line_start(b, p as int),
            p <= len,
            seen <==> exists|q: int| q < p && names_source(b, q),
            forall|t: int| #[trigger]
                may_name_target(b, t) && t < p ==> exists|q: int| q < t && names_source(b, q),
            forall|h: int| #[trigger] may_head_hunk(b, h) && h < p ==> plain_numbers(b, h + 4),
        decreases len - p,
    {
        assert(line_start(b, p as int));
        if starts_with(bytes, p, PLUS, PLUS, PLUS, SPACE) {
            if !seen {
                assert(may_name_target(b, p as int));
                return false;
            }
        }
        if starts_with(bytes, p, AT, AT, SPACE, MINUS) {
            if !has_plain_numbers(bytes, p + 4) {
                assert(may_head_hunk(b, p as int));
                return false;
            }
        }
        let ghost before = seen;
        if starts_with(bytes, p, MINUS, MINUS, MINUS, SPACE) && p + 4 < len {
            let c = bytes[p + 4];
            if c != TAB && c != LF && c != CR {
                assert(names_source(b, p as int));
                seen = true;
            }
        }
        assert(seen <==> before || names_source(b, p as int));
        let mut e: usize = p;
        while e < len && bytes[e] != LF
            invariant
                p <= e <= len,
                b == bytes@,
                len == b.len(),
                forall|k: int| p <= k < e ==> b[k] != LF,
            decreases len - e,
        {
            e += 1;
        }
        assert forall|k: int| p < k <= e implies !line_start(b, k) by {}
        let next = if e < len {
            e + 1
        } else {
            len
        };
        assert(seen <==> exists|q: int| q < next && names_source(b, q)) by {
            if exists|q: int| q < next && names_source(b, q) {
                let q = choose|q: int| q < next && names_source(b, q);
                if q > p {
                    assert(!line_start(b, q));
                }
            }
        }
        p = next;
    }
    true
}

} // verus!
