use vstd::prelude::*;

verus! {

/// Which way a cursor or the transport moves through the active list.
#[derive(Clone, Copy, PartialEq, Eq, Structural, Debug)]
pub enum Direction {
    Next,
    Previous,
}

/// The song names of a list, as character sequences.
pub open spec fn names(v: Seq<String>) -> Seq<Seq<char>> {
    v.map_values(|s: String| s@)
}

/// The first index at or after `i` where `p` occurs in `s`.
pub open spec fn position_from(s: Seq<Seq<char>>, p: Seq<char>, i: int) -> Option<int>
    decreases s.len() - i,
{
    if i < 0 || i >= s.len() {
        None
    } else if s[i] == p {
        Some(i)
    } else {
        position_from(s, p, i + 1)
    }
}

/// The first index where `p` occurs in `s`, if any.
pub open spec fn position(s: Seq<Seq<char>>, p: Seq<char>) -> Option<int> {
    position_from(s, p, 0)
}

/// One wrapping step from a valid index `i` of a list of length `n`.
pub open spec fn wrap_step(i: int, n: int, dir: Direction) -> int {
    match dir {
        Direction::Next => if i + 1 >= n { 0 } else { i + 1 },
        Direction::Previous => if i <= 0 { n - 1 } else { i - 1 },
    }
}

/// Where the selection cursor lands after one move over a list of length `n`.
/// A cursor that is absent or out of range starts over at the first entry.
pub open spec fn select_target(sel: Option<usize>, n: int, dir: Direction) -> Option<usize> {
    if n == 0 {
        sel
    } else {
        match sel {
            Some(i) if (i as int) < n => Some(wrap_step(i as int, n, dir) as usize),
            _ => Some(0),
        }
    }
}

/// The index that `advance` plays next: one step from where the now-playing song stands
/// in the list, or the first entry when it does not stand there. `None` on an empty list.
pub open spec fn advance_target(s: Seq<Seq<char>>, cur: Option<Seq<char>>, dir: Direction) -> Option<int> {
    if s.len() == 0 {
        None
    } else {
        match cur {
            Some(p) => match position(s, p) {
                Some(i) => Some(wrap_step(i, s.len() as int, dir)),
                None => Some(0),
            },
            None => Some(0),
        }
    }
}

/// The now-playing song after one `advance`; an empty list leaves it as it is.
pub open spec fn advance_song(s: Seq<Seq<char>>, cur: Option<Seq<char>>, dir: Direction) -> Option<Seq<char>> {
    match advance_target(s, cur, dir) {
        Some(i) => Some(s[i]),
        None => cur,
    }
}

/// The now-playing song after `m` advances in the same direction.
pub open spec fn advance_times(s: Seq<Seq<char>>, cur: Option<Seq<char>>, dir: Direction, m: nat) -> Option<Seq<char>>
    decreases m,
{
    if m == 0 {
        cur
    } else {
        advance_song(s, advance_times(s, cur, dir, (m - 1) as nat), dir)
    }
}

/// One wrapping step over a list of `n` entries from index `i`.
pub fn step_index(i: usize, n: usize, dir: Direction) -> (r: usize)
    requires
        i < n,
    ensures
        r == wrap_step(i as int, n as int, dir),
        r < n,
{
    match dir {
        Direction::Next => if i + 1 >= n { 0 } else { i + 1 },
        Direction::Previous => if i == 0 { n - 1 } else { i - 1 },
    }
}

/// The first index where `p` occurs in `list`.
pub fn find_position(list: &Vec<String>, p: &String) -> (r: Option<usize>)
    ensures
        match r {
            Some(i) => position(names(list@), p@) == Some(i as int) && i < list@.len(),
            None => position(names(list@), p@) is None,
        },
{
    let ghost s = names(list@);
    let mut i: usize = 0;
    while i < list.len()
        invariant
            i <= list.len(),
            s == names(list@),
            position(s, p@) == position_from(s, p@, i as int),
        decreases list.len() - i,
    {
        if list[i] == *p {
            return Some(i);
        }
        i = i + 1;
    }
    None
}

pub(crate) proof fn lemma_position_of_distinct(s: Seq<Seq<char>>, k: int, i: int)
    requires
        s.no_duplicates(),
        0 <= i <= k < s.len(),
    ensures
        position_from(s, s[k], i) == Some(k),
    decreases k - i,
{
    if i < k {
        lemma_position_of_distinct(s, k, i + 1);
    }
}

/// Closed form of `m` advances from entry `k`, for `m` up to the list's length.
pub open spec fn index_after(k: int, n: int, dir: Direction, m: int) -> int {
    match dir {
        Direction::Next => if k + m < n { k + m } else { k + m - n },
        Direction::Previous => if m <= k { k - m } else { k - m + n },
    }
}

proof fn lemma_advance_times_closed(s: Seq<Seq<char>>, k: int, dir: Direction, m: nat)
    requires
        s.no_duplicates(),
        0 <= k < s.len(),
        m <= s.len(),
    ensures
        0 <= index_after(k, s.len() as int, dir, m as int) < s.len(),
        advance_times(s, Some(s[k]), dir, m) == Some(s[index_after(k, s.len() as int, dir, m as int)]),
    decreases m,
{
    if m > 0 {
        lemma_advance_times_closed(s, k, dir, (m - 1) as nat);
        let j = index_after(k, s.len() as int, dir, m - 1);
        lemma_position_of_distinct(s, j, 0);
    }
}

/// Advancing through a list without repeated entries as many times as it has entries,
/// in either direction, brings the now-playing song back to where it started.
pub proof fn lemma_advance_wraps_around(s: Seq<Seq<char>>, k: int, dir: Direction)
    requires
        s.no_duplicates(),
        0 <= k < s.len(),
    ensures
        advance_times(s, Some(s[k]), dir, s.len()) == Some(s[k]),
{
    lemma_advance_times_closed(s, k, dir, s.len());
}

} // verus!
