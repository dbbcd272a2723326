//! The canonical position key that drives threefold-repetition counting.
//!
//! A serialized position carries six space-separated fields: board, side to
//! move, castling rights, en-passant target, half-move clock and full-move
//! number. Two positions repeat one another exactly when their first four
//! fields agree, so the canonical key is everything before the fourth space,
//! with the move counters excluded.

use vstd::prelude::*;
use vstd::string::StrSliceExecFns;

verus! {

/// Where the canonical key of `s` ends when scanning from index `i`, having
/// already passed `seen` spaces: the index of the fourth space overall, or the
/// end of the string if it has fewer than four spaces.
pub open spec fn key_end_from(s: Seq<char>, i: int, seen: int) -> int
    decreases s.len() - i,
{
    if i < 0 || i >= s.len() {
        s.len() as int
    } else if s[i] == ' ' && seen >= 3 {
        i
    } else if s[i] == ' ' {
        key_end_from(s, i + 1, seen + 1)
    } else {
        key_end_from(s, i + 1, seen)
    }
}

/// The canonical key of a serialized position: its text up to, and excluding,
/// the fourth space.
pub open spec fn canonical_key_spec(s: Seq<char>) -> Seq<char> {
    s.subrange(0, key_end_from(s, 0, 0))
}

/// The scan never cuts outside the string.
pub proof fn lemma_key_end_bounds(s: Seq<char>, i: int, seen: int)
    requires
        0 <= i <= s.len(),
    ensures
        i <= key_end_from(s, i, seen) <= s.len(),
    decreases s.len() - i,
{
    if i < s.len() && !(s[i] == ' ' && seen >= 3) {
        if s[i] == ' ' {
            lemma_key_end_bounds(s, i + 1, seen + 1);
        } else {
            lemma_key_end_bounds(s, i + 1, seen);
        }
    }
}

/// Number of `' '` characters among the first `i` characters of `s`.
pub open spec fn spaces_upto(s: Seq<char>, i: int) -> int
    decreases i,
{
    if i <= 0 {
        0
    } else {
        spaces_upto(s, i - 1) + if s[i - 1] == ' ' {
            1int
        } else {
            0int
        }
    }
}

/// The canonical key ignores whatever follows the fourth space: a string made
/// of four fields (three spaces) and a space-led tail keys to the fields
/// alone, whatever the tail — in particular, whatever the move counters say.
pub proof fn lemma_key_ignores_counters(fields: Seq<char>, tail: Seq<char>)
    requires
        spaces_upto(fields, fields.len() as int) == 3,
    ensures
        canonical_key_spec(fields + seq![' '] + tail) == fields,
{
    let s = fields + seq![' '] + tail;
    lemma_key_scan_stops(fields, tail, 0);
    assert(s.subrange(0, fields.len() as int) =~= fields);
}

/// Helper for the scan: from any index inside the fields, the cut lands on the
/// separating space that follows them.
proof fn lemma_key_scan_stops(fields: Seq<char>, tail: Seq<char>, i: int)
    requires
        0 <= i <= fields.len(),
        spaces_upto(fields, fields.len() as int) == 3,
    ensures
        key_end_from(fields + seq![' '] + tail, i, spaces_upto(fields, i)) == fields.len(),
    decreases fields.len() - i,
{
    let s = fields + seq![' '] + tail;
    lemma_spaces_upto_le(fields, i, fields.len() as int);
    if i == fields.len() {
        assert(s[i] == ' ');
    } else {
        assert(s[i] == fields[i]);
        assert(spaces_upto(fields, i + 1) == spaces_upto(fields, i) + if fields[i] == ' ' {
            1int
        } else {
            0int
        });
        lemma_key_scan_stops(fields, tail, i + 1);
        if fields[i] == ' ' {
            lemma_spaces_upto_le(fields, i + 1, fields.len() as int);
        }
    }
}

/// Counting spaces over a longer prefix never counts fewer.
proof fn lemma_spaces_upto_le(s: Seq<char>, i: int, j: int)
    requires
        0 <= i <= j,
    ensures
        spaces_upto(s, i) <= spaces_upto(s, j),
    decreases j - i,
{
    if i < j {
        lemma_spaces_upto_le(s, i, j - 1);
    }
}

/// Computes the canonical key of a serialized position.
pub fn canonical_key(fen: &str) -> (r: String)
    ensures
        r@ == canonical_key_spec(fen@),
{
    let n = fen.unicode_len();
    let mut i: usize = 0;
    let mut seen: usize = 0;
    while i < n
        invariant
            n == fen@.len(),
            i <= n,
            seen <= 3,
            key_end_from(fen@, i as int, seen as int) == key_end_from(fen@, 0, 0),
        decreases n - i,
    {
        let c = fen.get_char(i);
        if c == ' ' {
            if seen >= 3 {
                let part = fen.substring_char(0, i);
                return part.to_owned();
            }
            seen = seen + 1;
        }
        i = i + 1;
    }
    proof {
        assert(fen@.subrange(0, n as int) =~= fen@);
    }
    fen.to_owned()
}

} // verus!
