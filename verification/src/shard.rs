//! Which anchor texts `hdi`'s `Path::from` can build. A dot-separated part
//! that starts with `width:depth#` is read as a shard strategy, and the path
//! then computes `4 * width` and `4 * width * depth` as `u32`; a text with a
//! part where either exceeds `u32::MAX` makes that arithmetic overflow.

use vstd::prelude::*;

verus! {

/// `c` is an ASCII decimal digit.
pub open spec fn is_digit(c: char) -> bool {
    '0' <= c && c <= '9'
}

/// Every character of `s` is an ASCII decimal digit.
pub open spec fn all_digits(s: Seq<char>) -> bool {
    forall|i: int| 0 <= i < s.len() ==> is_digit(#[trigger] s[i])
}

/// The value of a string of decimal digits.
pub open spec fn decimal(s: Seq<char>) -> nat
    decreases s.len(),
{
    if s.len() == 0 {
        0
    } else {
        decimal(s.drop_last()) * 10 + (s.last() as int - '0' as int) as nat
    }
}

/// What `u32::from_str` reads from `s`: an optional `+`, then at least one
/// digit, of value at most `u32::MAX`.
pub open spec fn u32_text(s: Seq<char>) -> Option<nat> {
    let digits = if s.len() > 0 && s[0] == '+' {
        s.drop_first()
    } else {
        s
    };
    if digits.len() > 0 && all_digits(digits) && decimal(digits) <= u32::MAX {
        Some(decimal(digits))
    } else {
        None
    }
}

/// The position of the first `c` in `s`, or -1 when there is none.
pub open spec fn first_index(s: Seq<char>, c: char) -> int
    decreases s.len(),
{
    if s.len() == 0 {
        -1
    } else if s[0] == c {
        0
    } else {
        let rest = first_index(s.drop_first(), c);
        if rest < 0 {
            -1
        } else {
            rest + 1
        }
    }
}

/// `s` without its leading colons.
pub open spec fn trim_colons(s: Seq<char>) -> Seq<char>
    decreases s.len(),
{
    if s.len() > 0 && s[0] == ':' {
        trim_colons(s.drop_first())
    } else {
        s
    }
}

/// The width and depth that `ShardStrategy::from_str` reads from a path
/// part: it starts with a digit, and before its first `#` comes
/// `width:depth`, each a `u32` (the depth after any further colons).
pub open spec fn shard_strategy(part: Seq<char>) -> Option<(nat, nat)> {
    let end = first_index(part, '#');
    let head = part.subrange(0, end);
    let split = first_index(head, ':');
    if part.len() == 0 || !is_digit(part[0]) || end < 0 || split < 0 {
        None
    } else {
        match (
            u32_text(head.subrange(0, split)),
            u32_text(trim_colons(head.subrange(split, head.len() as int))),
        ) {
            (Some(w), Some(d)) => Some((w, d)),
            _ => None,
        }
    }
}

/// Building the shards of this part overflows `u32`.
pub open spec fn shard_overflows(part: Seq<char>) -> bool {
    match shard_strategy(part) {
        Some((w, d)) => 4 * w > u32::MAX || 4 * w * d > u32::MAX,
        None => false,
    }
}

/// `t[i..j]` is one part of the path: non-empty, without a dot, and bounded
/// by dots or by the ends of the text.
pub open spec fn is_part(t: Seq<char>, i: int, j: int) -> bool {
    &&& 0 <= i < j <= t.len()
    &&& i == 0 || t[i - 1] == '.'
    &&& j == t.len() || t[j] == '.'
    &&& forall|k: int| i <= k < j ==> t[k] != '.'
}

/// `Path::from` builds the path written `t` without overflowing.
pub open spec fn path_fits(t: Seq<char>) -> bool {
    forall|i: int, j: int| is_part(t, i, j) ==> !shard_overflows(#[trigger] t.subrange(i, j))
}

/// A text without `c` has no first `c`.
proof fn lemma_first_index_absent(s: Seq<char>, c: char)
    requires
        forall|k: int| 0 <= k < s.len() ==> s[k] != c,
    ensures
        first_index(s, c) == -1,
    decreases s.len(),
{
    if s.len() > 0 {
        assert forall|k: int| 0 <= k < s.drop_first().len() implies s.drop_first()[k] != c by {
            assert(s.drop_first()[k] == s[k + 1]);
        }
        lemma_first_index_absent(s.drop_first(), c);
    }
}

/// A text without `#` has no shard part, so `Path::from` builds it.
pub proof fn text_without_hash_fits(t: Seq<char>)
    requires
        forall|k: int| 0 <= k < t.len() ==> t[k] != '#',
    ensures
        path_fits(t),
{
    assert forall|i: int, j: int| is_part(t, i, j) implies !shard_overflows(
        #[trigger] t.subrange(i, j),
    ) by {
        let part = t.subrange(i, j);
        assert forall|k: int| 0 <= k < part.len() implies part[k] != '#' by {
            assert(part[k] == t[i + k]);
        }
        lemma_first_index_absent(part, '#');
    }
}

/// Putting a head without dots that does not start with a digit in front
/// of a text that `Path::from` builds gives a text it builds: the head only
/// lengthens the first part, which then reads as no shard.
pub proof fn head_keeps_fit(head: Seq<char>, rest: Seq<char>)
    requires
        head.len() > 0,
        !is_digit(head[0]),
        forall|k: int| 0 <= k < head.len() ==> head[k] != '.',
        path_fits(rest),
    ensures
        path_fits(head + rest),
{
    let t = head + rest;
    let n = head.len() as int;
    assert forall|i: int, j: int| is_part(t, i, j) implies !shard_overflows(
        #[trigger] t.subrange(i, j),
    ) by {
        if i == 0 {
            assert(t.subrange(i, j)[0] == head[0]);
        } else {
            assert(t[i - 1] == '.');
            if i - 1 < n {
                assert(t[i - 1] == head[i - 1]);
            }
            assert(rest[i - 1 - n] == t[i - 1]);
            assert forall|k: int| i - n <= k < j - n implies rest[k] != '.' by {
                assert(t[k + n] == rest[k]);
            }
            if j < t.len() {
                assert(rest[j - n] == t[j]);
            }
            assert(is_part(rest, i - n, j - n));
            assert(t.subrange(i, j) =~= rest.subrange(i - n, j - n));
        }
    }
}

/// The first position of `c` in `t[lo..hi]`, or `hi` when there is none.
fn find_char(t: &str, lo: usize, hi: usize, c: char) -> (res: usize)
    requires
        lo <= hi <= t@.len(),
    ensures
        lo <= res <= hi,
        forall|k: int| lo <= k < res ==> t@[k] != c,
        res < hi ==> t@[res as int] == c,
        first_index(t@.subrange(lo as int, hi as int), c) == (if res == hi {
            -1
        } else {
            res - lo
        }),
{
    let ghost s = t@.subrange(lo as int, hi as int);
    let mut i = lo;
    while i < hi
        invariant
            lo <= i <= hi <= t@.len(),
            s == t@.subrange(lo as int, hi as int),
            forall|k: int| lo <= k < i ==> t@[k] != c,
            first_index(s, c) == (if first_index(t@.subrange(i as int, hi as int), c) < 0 {
                -1
            } else {
                i - lo + first_index(t@.subrange(i as int, hi as int), c)
            }),
        decreases hi - i,
    {
        let ghost rest = t@.subrange(i as int, hi as int);
        if t.get_char(i) == c {
            assert(rest[0] == c);
            return i;
        }
        assert(rest.drop_first() =~= t@.subrange(i + 1, hi as int));
        i = i + 1;
    }
    assert(t@.subrange(hi as int, hi as int).len() == 0);
    hi
}

/// The first position of `t[lo..hi]` that is not a colon.
fn skip_colons(t: &str, lo: usize, hi: usize) -> (res: usize)
    requires
        lo <= hi <= t@.len(),
    ensures
        lo <= res <= hi,
        trim_colons(t@.subrange(lo as int, hi as int)) == t@.subrange(res as int, hi as int),
{
    let mut i = lo;
    while i < hi && t.get_char(i) == ':'
        invariant
            lo <= i <= hi <= t@.len(),
            trim_colons(t@.subrange(lo as int, hi as int)) == trim_colons(
                t@.subrange(i as int, hi as int),
            ),
        decreases hi - i,
    {
        assert(t@.subrange(i as int, hi as int).drop_first() =~= t@.subrange(i + 1, hi as int));
        i = i + 1;
    }
    i
}

/// What `u32::from_str` reads from `t[lo..hi]`.
fn read_u32(t: &str, lo: usize, hi: usize) -> (res: Option<u64>)
    requires
        lo <= hi <= t@.len(),
    ensures
        match u32_text(t@.subrange(lo as int, hi as int)) {
            Some(v) => res == Some(v as u64),
            None => res is None,
        },
{
    let ghost s = t@.subrange(lo as int, hi as int);
    let mut start = lo;
    if lo < hi && t.get_char(lo) == '+' {
        start = lo + 1;
        assert(s.drop_first() =~= t@.subrange(start as int, hi as int));
    } else {
        assert(s =~= t@.subrange(start as int, hi as int));
    }
    let ghost digits = t@.subrange(start as int, hi as int);
    assert(u32_text(s) == (if digits.len() > 0 && all_digits(digits) && decimal(digits) <= u32::MAX {
        Some(decimal(digits))
    } else {
        None::<nat>
    }));
    if start == hi {
        return None;
    }
    let mut value: u64 = 0;
    let mut over = false;
    let mut i = start;
    assert(t@.subrange(start as int, start as int) =~= Seq::<char>::empty());
    while i < hi
        invariant
            lo <= start <= i <= hi <= t@.len(),
            digits == t@.subrange(start as int, hi as int),
            u32_text(t@.subrange(lo as int, hi as int)) == (if digits.len() > 0 && all_digits(digits)
                && decimal(digits) <= u32::MAX {
                Some(decimal(digits))
            } else {
                None::<nat>
            }),
            all_digits(t@.subrange(start as int, i as int)),
            !over ==> value == decimal(t@.subrange(start as int, i as int)),
            !over ==> value <= u32::MAX,
            over ==> decimal(t@.subrange(start as int, i as int)) > u32::MAX,
        decreases hi - i,
    {
        let c = t.get_char(i);
        if !('0' <= c && c <= '9') {
            assert(digits[i - start] == c);
            assert(!all_digits(digits));
            return None;
        }
        let ghost prefix = t@.subrange(start as int, i + 1);
        assert(prefix.drop_last() =~= t@.subrange(start as int, i as int));
        assert(prefix.last() == c);
        if !over {
            value = value * 10 + (c as u64 - '0' as u64);
            if value > 0xffff_ffffu64 {
                over = true;
            }
        }
        i = i + 1;
    }
    assert(t@.subrange(start as int, hi as int) =~= digits);
    if over {
        None
    } else {
        Some(value)
    }
}

/// Whether building the shards of the part `t[lo..hi]` overflows.
fn part_overflows(t: &str, lo: usize, hi: usize) -> (res: bool)
    requires
        lo < hi <= t@.len(),
    ensures
        res == shard_overflows(t@.subrange(lo as int, hi as int)),
{
    let ghost part = t@.subrange(lo as int, hi as int);
    let first = t.get_char(lo);
    assert(part[0] == first);
    if !('0' <= first && first <= '9') {
        return false;
    }
    let end = find_char(t, lo, hi, '#');
    if end == hi {
        return false;
    }
    let ghost head = part.subrange(0, end - lo);
    assert(head =~= t@.subrange(lo as int, end as int));
    let split = find_char(t, lo, end, ':');
    if split == end {
        return false;
    }
    assert(head.subrange(0, split - lo) =~= t@.subrange(lo as int, split as int));
    assert(head.subrange(split - lo, head.len() as int) =~= t@.subrange(split as int, end as int));
    let width = read_u32(t, lo, split);
    let depth_start = skip_colons(t, split, end);
    let depth = read_u32(t, depth_start, end);
    match (width, depth) {
        (Some(w), Some(d)) => {
            let w: u128 = w as u128;
            let d: u128 = d as u128;
            assert(4 * w * d <= 4 * 0xffff_ffffu128 * 0xffff_ffffu128) by (nonlinear_arith)
                requires
                    w <= 0xffff_ffffu128,
                    d <= 0xffff_ffffu128,
            ;
            4 * w > 0xffff_ffffu128 || 4 * w * d > 0xffff_ffffu128
        },
        _ => false,
    }
}

/// Whether `Path::from` builds the path written `t` without overflowing.
pub fn path_text_fits(t: &str) -> (res: bool)
    ensures
        res == path_fits(t@),
{
    let n = t.unicode_len();
    let mut start: usize = 0;
    while start < n
        invariant
            n == t@.len(),
            start <= n,
            start < n ==> (start == 0 || t@[start - 1] == '.'),
            forall|i: int, j: int|
                is_part(t@, i, j) && i < start ==> !shard_overflows(#[trigger] t@.subrange(i, j)),
        decreases n - start,
    {
        let end = find_char(t, start, n, '.');
        assert forall|i: int, j: int| is_part(t@, i, j) && start <= i <= end implies i == start
            && j == end by {
            if i > start {
                assert(t@[i - 1] != '.');
            }
            if j < end {
                assert(t@[j] != '.');
            }
            if j > end {
                assert(t@[end as int] == '.');
            }
        }
        if start < end && part_overflows(t, start, end) {
            assert(is_part(t@, start as int, end as int));
            return false;
        }
        if end == n {
            start = n;
        } else {
            start = end + 1;
        }
    }
    true
}

} // verus!
