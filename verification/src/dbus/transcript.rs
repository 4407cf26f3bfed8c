//! Merging successive transcripts of a sliding audio window into one text.

use crate::text::{chars_of, same_text, slice_text, text_at};
use vstd::prelude::*;
use vstd::string::*;

verus! {

/// The number of leading characters that two texts share.
pub open spec fn shared_prefix(a: Seq<char>, b: Seq<char>) -> nat
    decreases a.len(),
{
    if a.len() > 0 && b.len() > 0 && a[0] == b[0] {
        1 + shared_prefix(a.skip(1), b.skip(1))
    } else {
        0
    }
}

/// The last `k` characters of `a` are the first `k` of `b`.
pub open spec fn overlaps(a: Seq<char>, b: Seq<char>, k: int) -> bool {
    0 <= k <= a.len() && k <= b.len() && a.skip(a.len() - k) == b.take(k)
}

/// The greatest overlap of at most `max` characters.
pub open spec fn overlap_upto(a: Seq<char>, b: Seq<char>, max: int) -> int
    decreases max,
{
    if max <= 0 {
        0
    } else if overlaps(a, b, max) {
        max
    } else {
        overlap_upto(a, b, max - 1)
    }
}

/// The greatest number of characters that end `a` and begin `b`.
pub open spec fn longest_overlap(a: Seq<char>, b: Seq<char>) -> int {
    overlap_upto(a, b, if a.len() <= b.len() { a.len() as int } else { b.len() as int })
}

/// The next window corrects the previous one: they share a long enough beginning.
pub open spec fn is_correction(prev: Seq<char>, next: Seq<char>) -> bool {
    let lcp = shared_prefix(prev, next);
    let shorter = if prev.len() <= next.len() { prev.len() } else { next.len() };
    lcp >= 8 || (lcp * 2 >= shorter && lcp >= 3)
}

/// The accumulated text after the next window has been heard.
pub open spec fn merged(acc: Seq<char>, prev: Seq<char>, next: Seq<char>) -> Seq<char> {
    if acc.len() == 0 || prev.len() == 0 {
        next
    } else if next.len() == 0 || next == prev {
        acc
    } else if prev.is_suffix_of(acc) && (prev.is_prefix_of(next) || is_correction(prev, next)) {
        acc.take(acc.len() - prev.len()) + next
    } else if prev.is_suffix_of(acc) && longest_overlap(prev, next) > 0 {
        acc + next.skip(longest_overlap(prev, next))
    } else if next.is_suffix_of(acc) {
        acc
    } else {
        acc + next
    }
}

proof fn lemma_shared_prefix(a: Seq<char>, b: Seq<char>, n: int)
    requires
        0 <= n <= a.len(),
        n <= b.len(),
        forall|k: int| 0 <= k < n ==> #[trigger] a[k] == b[k],
        n == a.len() || n == b.len() || a[n] != b[n],
    ensures
        shared_prefix(a, b) == n,
    decreases n,
{
    if n > 0 {
        assert(a[0] == b[0]);
        assert forall|k: int| 0 <= k < n - 1 implies #[trigger] a.skip(1)[k] == b.skip(1)[k] by {
            assert(a[k + 1] == b[k + 1]);
        }
        lemma_shared_prefix(a.skip(1), b.skip(1), n - 1);
    }
}

fn shared_prefix_len(a: &Vec<char>, b: &Vec<char>) -> (n: usize)
    ensures
        n == shared_prefix(a@, b@),
        n <= a.len(),
        n <= b.len(),
{
    let mut n: usize = 0;
    while n < a.len() && n < b.len() && a[n] == b[n]
        invariant
            n <= a.len(),
            n <= b.len(),
            forall|k: int| 0 <= k < n ==> #[trigger] a@[k] == b@[k],
        decreases a.len() - n,
    {
        n += 1;
    }
    proof {
        lemma_shared_prefix(a@, b@, n as int);
    }
    n
}

/// The number of leading characters that two strings share.
pub fn common_prefix_chars(left: &str, right: &str) -> (n: usize)
    ensures
        n == shared_prefix(left@, right@),
{
    let a = chars_of(left);
    let b = chars_of(right);
    shared_prefix_len(&a, &b)
}

fn overlap_len(a: &Vec<char>, b: &Vec<char>) -> (n: usize)
    ensures
        n == longest_overlap(a@, b@),
        n <= b.len(),
{
    let mut k: usize = if a.len() <= b.len() {
        a.len()
    } else {
        b.len()
    };
    while k > 0
        invariant
            k <= a.len(),
            k <= b.len(),
            longest_overlap(a@, b@) == overlap_upto(a@, b@, k as int),
        decreases k,
    {
        if tail_is_head(a, b, k) {
            return k;
        }
        k -= 1;
    }
    0
}

fn tail_is_head(a: &Vec<char>, b: &Vec<char>, k: usize) -> (r: bool)
    requires
        k <= a.len(),
        k <= b.len(),
    ensures
        r == overlaps(a@, b@, k as int),
{
    let start: usize = a.len() - k;
    let mut i: usize = 0;
    while i < k
        invariant
            i <= k,
            k <= b.len(),
            start + k == a.len(),
            forall|m: int| 0 <= m < i ==> a@[start + m] == #[trigger] b@[m],
        decreases k - i,
    {
        if a[start + i] != b[i] {
            assert(a@.skip(start as int)[i as int] != b@.take(k as int)[i as int]);
            return false;
        }
        i += 1;
    }
    assert(a@.skip(start as int) =~= b@.take(k as int));
    true
}

/// The greatest number of characters that end `left` and begin `right`.
pub fn longest_suffix_prefix_chars(left: &str, right: &str) -> (n: usize)
    ensures
        n == longest_overlap(left@, right@),
{
    let a = chars_of(left);
    let b = chars_of(right);
    overlap_len(&a, &b)
}

fn joined(head: &Vec<char>, head_to: usize, tail: &Vec<char>, tail_from: usize) -> (r: String)
    requires
        head_to <= head.len(),
        tail_from <= tail.len(),
    ensures
        r@ == head@.take(head_to as int) + tail@.skip(tail_from as int),
{
    let mut r = slice_text(head, 0, head_to);
    let t = slice_text(tail, tail_from, tail.len());
    r.append(t.as_str());
    assert(head@.subrange(0, head_to as int) =~= head@.take(head_to as int));
    assert(tail@.subrange(tail_from as int, tail.len() as int) =~= tail@.skip(tail_from as int));
    r
}

/// Merges the transcript of the next window into the accumulated text.
///
/// A window that extends or corrects the previous one replaces it at the end of the text; one that
/// has moved on is appended without the part that overlaps.
pub fn merge_live_transcript(accumulated: &str, prev_window: &str, next_window: &str) -> (r: String)
    ensures
        r@ == merged(accumulated@, prev_window@, next_window@),
{
    if accumulated.is_empty() || prev_window.is_empty() {
        return next_window.to_owned();
    }
    if next_window.is_empty() || same_text(next_window, prev_window) {
        return accumulated.to_owned();
    }
    let acc = chars_of(accumulated);
    let prev = chars_of(prev_window);
    let next = chars_of(next_window);
    let ends: bool = prev.len() <= acc.len() && text_at(&acc, &prev, acc.len() - prev.len());
    if ends {
        let keep: usize = acc.len() - prev.len();
        let extends: bool = text_at(&next, &prev, 0);
        assert(extends == prev@.is_prefix_of(next@));
        let lcp: usize = shared_prefix_len(&prev, &next);
        let shorter: usize = if prev.len() <= next.len() {
            prev.len()
        } else {
            next.len()
        };
        let corrects: bool = lcp >= 8 || (lcp >= 3 && lcp >= shorter - lcp);
        if extends || corrects {
            let r = joined(&acc, keep, &next, 0);
            assert(next@.skip(0) =~= next@);
            return r;
        }
        let overlap: usize = overlap_len(&prev, &next);
        if overlap > 0 {
            let r = joined(&acc, acc.len(), &next, overlap);
            assert(acc@.take(acc.len() as int) =~= acc@);
            return r;
        }
    }
    if next.len() <= acc.len() && text_at(&acc, &next, acc.len() - next.len()) {
        return accumulated.to_owned();
    }
    let r = joined(&acc, acc.len(), &next, 0);
    assert(acc@.take(acc.len() as int) =~= acc@);
    assert(next@.skip(0) =~= next@);
    r
}

proof fn lemma_overlap_holds(a: Seq<char>, b: Seq<char>, max: int)
    requires
        max <= a.len(),
        max <= b.len(),
    ensures
        overlaps(a, b, overlap_upto(a, b, max)),
        forall|k: int| overlap_upto(a, b, max) < k <= max ==> !overlaps(a, b, k),
    decreases max,
{
    if max <= 0 {
        assert(a.skip(a.len() as int) =~= b.take(0));
    } else if !overlaps(a, b, max) {
        lemma_overlap_holds(a, b, max - 1);
    }
}

/// The overlap that the merge removes is an overlap, and no longer one exists.
pub proof fn law_overlap_is_longest(a: Seq<char>, b: Seq<char>)
    ensures
        overlaps(a, b, longest_overlap(a, b)),
        forall|k: int| longest_overlap(a, b) < k ==> !overlaps(a, b, k),
{
    lemma_overlap_holds(a, b, if a.len() <= b.len() { a.len() as int } else { b.len() as int });
}

/// The shared beginning is a common one, and no longer one exists.
pub proof fn law_shared_prefix_is_longest(a: Seq<char>, b: Seq<char>)
    ensures
        shared_prefix(a, b) <= a.len(),
        shared_prefix(a, b) <= b.len(),
        a.take(shared_prefix(a, b) as int) == b.take(shared_prefix(a, b) as int),
        shared_prefix(a, b) < a.len() && shared_prefix(a, b) < b.len() ==> a[shared_prefix(
            a,
            b,
        ) as int] != b[shared_prefix(a, b) as int],
    decreases a.len(),
{
    if a.len() > 0 && b.len() > 0 && a[0] == b[0] {
        law_shared_prefix_is_longest(a.skip(1), b.skip(1));
        let n = shared_prefix(a.skip(1), b.skip(1)) as int;
        assert forall|k: int| 0 <= k < n + 1 implies #[trigger] a.take(n + 1)[k] == b.take(n
            + 1)[k] by {
            if k > 0 {
                assert(a.skip(1).take(n)[k - 1] == b.skip(1).take(n)[k - 1]);
            }
        }
        assert(a.take(n + 1) =~= b.take(n + 1));
    } else {
        assert(a.take(0) =~= b.take(0));
    }
}

/// The merged text ends with the window heard last, whenever the text so far ended with the
/// window before it.
pub proof fn law_merge_ends_with_next(acc: Seq<char>, prev: Seq<char>, next: Seq<char>)
    requires
        next.len() > 0,
        next != prev || prev.is_suffix_of(acc),
    ensures
        next.is_suffix_of(merged(acc, prev, next)),
{
    let r = merged(acc, prev, next);
    if acc.len() == 0 || prev.len() == 0 || next == prev {
    } else if prev.is_suffix_of(acc) && (prev.is_prefix_of(next) || is_correction(prev, next)) {
        assert(r.skip(r.len() - next.len()) =~= next);
    } else if prev.is_suffix_of(acc) && longest_overlap(prev, next) > 0 {
        law_overlap_is_longest(prev, next);
        let k = longest_overlap(prev, next);
        let tail = r.subrange(r.len() - next.len(), r.len() as int);
        assert forall|i: int| 0 <= i < next.len() implies #[trigger] tail[i] == next[i] by {
            if i < k {
                assert(prev.skip(prev.len() - k)[i] == next.take(k)[i]);
                assert(acc.subrange(acc.len() - prev.len(), acc.len() as int)[prev.len() - k + i]
                    == prev[prev.len() - k + i]);
                assert(tail[i] == acc[acc.len() - k + i]);
            } else {
                assert(tail[i] == next.skip(k)[i - k]);
            }
        }
        assert(tail =~= next);
    } else if !next.is_suffix_of(acc) {
        assert(r.subrange(r.len() - next.len(), r.len() as int) =~= next);
    }
}

/// Nothing that was heard before the previous window is lost: the merged text begins with the
/// text so far, less the previous window where the text ended with it.
pub proof fn law_merge_keeps_earlier_text(acc: Seq<char>, prev: Seq<char>, next: Seq<char>)
    requires
        acc.len() > 0,
        prev.len() > 0,
    ensures
        prev.is_suffix_of(acc) ==> acc.take(acc.len() - prev.len()).is_prefix_of(
            merged(acc, prev, next),
        ),
        !prev.is_suffix_of(acc) ==> acc.is_prefix_of(merged(acc, prev, next)),
{
    let r = merged(acc, prev, next);
    if prev.is_suffix_of(acc) {
        let base = acc.take(acc.len() - prev.len());
        assert(r.take(base.len() as int) =~= base);
    } else {
        assert(r.take(acc.len() as int) =~= acc);
    }
}

/// A window that has only moved on keeps the whole text so far as the beginning.
pub proof fn law_shifted_window_keeps_text(acc: Seq<char>, prev: Seq<char>, next: Seq<char>)
    requires
        acc.len() > 0,
        prev.len() > 0,
        !prev.is_prefix_of(next),
        !is_correction(prev, next),
    ensures
        acc.is_prefix_of(merged(acc, prev, next)),
{
    let r = merged(acc, prev, next);
    assert(r.take(acc.len() as int) =~= acc);
}

/// Hearing the same window again changes nothing.
pub proof fn law_merge_same_window_again(acc: Seq<char>, prev: Seq<char>, next: Seq<char>)
    requires
        next.len() > 0,
    ensures
        acc.len() > 0 ==> merged(acc, next, next) == acc,
        merged(merged(acc, prev, next), next, next) == merged(acc, prev, next),
{
}

/// The shared beginning of two texts is the same, whichever comes first.
pub proof fn law_shared_prefix_is_symmetric(a: Seq<char>, b: Seq<char>)
    ensures
        shared_prefix(a, b) == shared_prefix(b, a),
    decreases a.len(),
{
    if a.len() > 0 && b.len() > 0 && a[0] == b[0] {
        law_shared_prefix_is_symmetric(a.skip(1), b.skip(1));
    }
}

/// A window that only grows is heard as a whole: it takes the place of the shorter one, and to hear
/// it grow in two steps is to hear it grow in one.
pub proof fn law_growing_window_is_replaced(
    base: Seq<char>,
    prev: Seq<char>,
    next: Seq<char>,
    third: Seq<char>,
)
    requires
        prev.len() > 0,
        prev.is_prefix_of(next),
        next.is_prefix_of(third),
    ensures
        merged(base + prev, prev, next) == base + next,
        merged(merged(base + prev, prev, next), next, third) == merged(base + prev, prev, third),
{
    assert forall|i: int| 0 <= i < prev.len() implies prev[i] == third[i] by {
        assert(next.subrange(0, prev.len() as int)[i] == next[i]);
        assert(third.subrange(0, next.len() as int)[i] == third[i]);
    }
    assert(third.subrange(0, prev.len() as int) =~= prev);
    lemma_grown(base, prev, next);
    lemma_grown(base, prev, third);
    lemma_grown(base, next, third);
}

proof fn lemma_grown(base: Seq<char>, prev: Seq<char>, next: Seq<char>)
    requires
        prev.len() > 0,
        prev.is_prefix_of(next),
    ensures
        merged(base + prev, prev, next) == base + next,
{
    let acc = base + prev;
    assert(acc.subrange(acc.len() - prev.len(), acc.len() as int) =~= prev);
    assert(acc.take(acc.len() - prev.len()) =~= base);
}

proof fn lemma_agreement(a: Seq<char>, b: Seq<char>, n: int)
    requires
        0 <= n <= a.len(),
        n <= b.len(),
        a.take(n) == b.take(n),
    ensures
        shared_prefix(a, b) >= n,
{
    law_shared_prefix_is_longest(a, b);
    let p = shared_prefix(a, b) as int;
    if p < n {
        assert(a.take(n)[p] == a[p]);
        assert(b.take(n)[p] == b[p]);
        assert(a[p] != b[p]);
    }
}

/// A window that agrees with the one before it on their first eight characters, or on at least three
/// that make up half of the shorter window, corrects it: it takes its place at the end of the text.
pub proof fn law_corrected_window_is_replaced(
    base: Seq<char>,
    prev: Seq<char>,
    next: Seq<char>,
    agreed: int,
)
    requires
        prev.len() > 0,
        0 <= agreed <= prev.len(),
        agreed <= next.len(),
        prev.take(agreed) == next.take(agreed),
        agreed >= 8 || (agreed >= 3 && (2 * agreed >= prev.len() || 2 * agreed >= next.len())),
    ensures
        merged(base + prev, prev, next) == base + next,
{
    let acc = base + prev;
    assert(acc.subrange(acc.len() - prev.len(), acc.len() as int) =~= prev);
    assert(acc.take(acc.len() - prev.len()) =~= base);
    lemma_agreement(prev, next, agreed);
    law_shared_prefix_is_longest(prev, next);
}

/// A window that neither continues nor corrects the one before it has moved on: the part that ends
/// the one and begins the other is written once, however long it is, and all of the text so far
/// stays. Two windows that begin alike for fewer than three characters, or for fewer than eight that
/// are less than half of either, count as different.
pub proof fn law_moved_window_is_joined_at_the_overlap(
    base: Seq<char>,
    prev: Seq<char>,
    next: Seq<char>,
    agreed: int,
    overlap: int,
)
    requires
        0 <= agreed < prev.len(),
        agreed < next.len(),
        prev[agreed] != next[agreed],
        agreed < 3 || (agreed < 8 && 2 * agreed < prev.len() && 2 * agreed < next.len()),
        0 < overlap <= prev.len(),
        overlap <= next.len(),
        prev.skip(prev.len() - overlap) == next.take(overlap),
        forall|k: int|
            overlap < k <= prev.len() && k <= next.len() ==> #[trigger] prev.skip(prev.len() - k)
                != next.take(k),
    ensures
        merged(base + prev, prev, next) == base + prev + next.skip(overlap),
{
    let acc = base + prev;
    assert(acc.subrange(acc.len() - prev.len(), acc.len() as int) =~= prev);
    lemma_windows_differ(prev, next, agreed);
    law_overlap_is_longest(prev, next);
    assert(overlaps(prev, next, overlap));
    let found = longest_overlap(prev, next);
    assert(overlaps(prev, next, found));
    if found > overlap {
        assert(prev.skip(prev.len() - found) == next.take(found));
    }
}

proof fn lemma_windows_differ(prev: Seq<char>, next: Seq<char>, agreed: int)
    requires
        0 <= agreed < prev.len(),
        agreed < next.len(),
        prev[agreed] != next[agreed],
        agreed < 3 || (agreed < 8 && 2 * agreed < prev.len() && 2 * agreed < next.len()),
    ensures
        prev != next,
        !prev.is_prefix_of(next),
        !is_correction(prev, next),
{
    law_shared_prefix_is_longest(prev, next);
    let p = shared_prefix(prev, next) as int;
    if p > agreed {
        assert(prev.take(p)[agreed] == next.take(p)[agreed]);
    }
    if prev.is_prefix_of(next) {
        assert(next.subrange(0, prev.len() as int)[agreed] == next[agreed]);
    }
}

/// A window that shares nothing with the one before it, neither at the beginning nor where the one
/// ends and the other begins, is written behind the text, unless the text already ends with it.
pub proof fn law_unrelated_window_is_appended(
    base: Seq<char>,
    prev: Seq<char>,
    next: Seq<char>,
    agreed: int,
)
    requires
        0 <= agreed < prev.len(),
        agreed < next.len(),
        prev[agreed] != next[agreed],
        agreed < 3 || (agreed < 8 && 2 * agreed < prev.len() && 2 * agreed < next.len()),
        forall|k: int|
            0 < k <= prev.len() && k <= next.len() ==> #[trigger] prev.skip(prev.len() - k)
                != next.take(k),
    ensures
        merged(base + prev, prev, next) == (if next.is_suffix_of(base + prev) {
            base + prev
        } else {
            base + prev + next
        }),
{
    let acc = base + prev;
    assert(acc.subrange(acc.len() - prev.len(), acc.len() as int) =~= prev);
    lemma_windows_differ(prev, next, agreed);
    law_overlap_is_longest(prev, next);
    let found = longest_overlap(prev, next);
    if found > 0 {
        assert(prev.skip(prev.len() - found) == next.take(found));
    }
}

/// Where there is no text yet, or no window before this one, the window is the text. An empty window
/// changes nothing. And where the text does not end with the window before, the next one is written
/// behind it, unless the text ends with it already.
pub proof fn law_window_without_a_place_is_appended(
    acc: Seq<char>,
    prev: Seq<char>,
    next: Seq<char>,
)
    ensures
        acc.len() == 0 || prev.len() == 0 ==> merged(acc, prev, next) == next,
        acc.len() > 0 && prev.len() > 0 && next.len() == 0 ==> merged(acc, prev, next) == acc,
        acc.len() > 0 && prev.len() > 0 && next.len() > 0 && next != prev && !(prev.len()
            <= acc.len() && acc.skip(acc.len() - prev.len()) == prev) ==> merged(acc, prev, next)
            == (if next.len() <= acc.len() && acc.skip(acc.len() - next.len()) == next {
            acc
        } else {
            acc + next
        }),
{
    if prev.len() <= acc.len() {
        assert(acc.subrange(acc.len() - prev.len(), acc.len() as int) =~= acc.skip(
            acc.len() - prev.len(),
        ));
    }
    if next.len() <= acc.len() {
        assert(acc.subrange(acc.len() - next.len(), acc.len() as int) =~= acc.skip(
            acc.len() - next.len(),
        ));
    }
}

/// A shorter window that the one before it begins with is no correction as long as it has fewer than
/// three characters; the overlap at the end of the one before it decides where it goes.
pub proof fn law_short_window_is_no_correction(base: Seq<char>, prev: Seq<char>, next: Seq<char>)
    requires
        0 < next.len() < 3,
        next.len() < prev.len(),
        prev.take(next.len() as int) == next,
        forall|k: int|
            0 < k <= next.len() ==> #[trigger] prev.skip(prev.len() - k) != next.take(k),
    ensures
        merged(base + prev, prev, next) == base + prev + next,
{
    let acc = base + prev;
    assert(acc.subrange(acc.len() - prev.len(), acc.len() as int) =~= prev);
    law_shared_prefix_is_longest(prev, next);
    law_overlap_is_longest(prev, next);
    let found = longest_overlap(prev, next);
    if found > 0 {
        assert(prev.skip(prev.len() - found) == next.take(found));
    }
    if next.is_suffix_of(acc) {
        let n = next.len() as int;
        assert(acc.subrange(acc.len() - n, acc.len() as int) =~= prev.skip(prev.len() - n));
        assert(next.take(n) =~= next);
    }
}

} // verus!
