//! The log lines that are kept for the debug window.

use crate::text;
use std::collections::VecDeque;
use vstd::prelude::*;
use vstd::string::*;

verus! {

broadcast use vstd::std_specs::vecdeque::group_vec_dequeue_axioms;

/// The latest log lines, oldest first.
pub struct LogBuffer {
    lines: VecDeque<String>,
    capacity: usize,
}

impl View for LogBuffer {
    type V = Seq<Seq<char>>;

    closed spec fn view(&self) -> Seq<Seq<char>> {
        text::views(self.lines@)
    }
}

/// The lines with one more: a full buffer loses its oldest line first.
pub open spec fn appended(lines: Seq<Seq<char>>, capacity: nat, line: Seq<char>) -> Seq<Seq<char>> {
    if lines.len() >= capacity && lines.len() > 0 {
        lines.skip(1).push(line)
    } else {
        lines.push(line)
    }
}

/// The last `limit` lines.
pub open spec fn recent(lines: Seq<Seq<char>>, limit: nat) -> Seq<Seq<char>> {
    if lines.len() <= limit {
        lines
    } else {
        lines.skip(lines.len() - limit)
    }
}

impl LogBuffer {
    /// How many lines are kept.
    pub closed spec fn room(&self) -> usize {
        self.capacity
    }

    /// No more lines are kept than there is room for, and at least one.
    pub open spec fn wf(&self) -> bool {
        self@.len() <= self.room() || self@.len() <= 1
    }

    /// A buffer for so many lines.
    pub fn new(capacity: usize) -> (b: Self)
        ensures
            b.wf(),
            b.room() == capacity,
            b@ == Seq::<Seq<char>>::empty(),
    {
        let b = LogBuffer { lines: VecDeque::new(), capacity };
        assert(b@ =~= Seq::<Seq<char>>::empty());
        b
    }

    /// Keeps a line.
    pub fn push(&mut self, line: String)
        requires
            old(self).wf(),
        ensures
            final(self).wf(),
            final(self).room() == old(self).room(),
            final(self)@ == appended(old(self)@, old(self).room() as nat, line@),
    {
        let ghost before = self@;
        if self.lines.len() >= self.capacity {
            let _ = self.lines.pop_front();
            assert(before.len() > 0 ==> self@ =~= before.skip(1));
        }
        let ghost kept = self@;
        self.lines.push_back(line);
        assert(self@ =~= kept.push(line@));
    }
}

/// The last `limit` lines; where they cannot be read, a line that says so.
pub fn read_recent_logs(buffer: Option<&LogBuffer>, limit: usize) -> (r: Vec<String>)
    ensures
        text::views(r@) == (match buffer {
            Some(b) => recent(b@, limit as nat),
            None => seq!["[ERROR] Failed to read log buffer"@],
        }),
{
    let mut r: Vec<String> = Vec::new();
    match buffer {
        None => {
            r.push("[ERROR] Failed to read log buffer".to_owned());
            assert(text::views(r@) =~= seq!["[ERROR] Failed to read log buffer"@]);
        },
        Some(b) => {
            let n: usize = b.lines.len();
            let start: usize = n.saturating_sub(limit);
            let mut i: usize = start;
            assert(text::views(r@) =~= b@.subrange(start as int, start as int));
            while i < n
                invariant
                    start <= i <= n,
                    n == b.lines@.len(),
                    text::views(r@) == b@.subrange(start as int, i as int),
                decreases n - i,
            {
                let ghost before = r@;
                r.push(b.lines[i].clone());
                i += 1;
                assert(text::views(r@) =~= text::views(before).push(b@[i - 1]));
                assert(b@.subrange(start as int, i as int) =~= b@.subrange(
                    start as int,
                    i - 1,
                ).push(b@[i - 1]));
            }
            assert(b@.subrange(start as int, n as int) =~= recent(b@, limit as nat));
        },
    }
    r
}

/// What is read is the end of what was logged, in order, and the line logged last is always among
/// it.
pub proof fn law_recent_lines_are_the_latest(
    lines: Seq<Seq<char>>,
    capacity: nat,
    line: Seq<char>,
    limit: nat,
)
    requires
        limit > 0,
    ensures
        recent(lines, limit).is_suffix_of(lines),
        recent(lines, limit).len() <= limit,
        recent(appended(lines, capacity, line), limit).last() == line,
        0 < lines.len() <= capacity ==> appended(lines, capacity, line).len() <= capacity,
{
    let r = recent(lines, limit);
    assert(lines.subrange(lines.len() - r.len(), lines.len() as int) =~= r);
}

/// A line is added behind the others. While there is room they all stay; in a full buffer only the
/// oldest goes.
pub proof fn law_only_the_oldest_line_goes(lines: Seq<Seq<char>>, capacity: nat, line: Seq<char>)
    ensures
        appended(lines, capacity, line).last() == line,
        lines.len() < capacity ==> appended(lines, capacity, line).drop_last() == lines,
        lines.len() == capacity && capacity > 0 ==> appended(lines, capacity, line).drop_last()
            == lines.skip(1),
{
    assert(appended(lines, capacity, line).drop_last() =~= (if lines.len() >= capacity && lines.len()
        > 0 {
        lines.skip(1)
    } else {
        lines
    }));
}

/// As many lines are read as are asked for, or all where there are fewer.
pub proof fn law_asked_for_lines_are_read(lines: Seq<Seq<char>>, limit: nat, i: int)
    ensures
        lines.len() <= limit ==> recent(lines, limit) == lines,
        lines.len() > limit ==> recent(lines, limit).len() == limit,
        lines.len() > limit && 0 <= i < limit ==> recent(lines, limit)[i] == lines[lines.len()
            - limit + i],
{
}

} // verus!
