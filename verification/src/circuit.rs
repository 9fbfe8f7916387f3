use vstd::prelude::*;

verus! {

/// A circuit is well formed when it has at least one turn and every turn
/// ranking is a small positive integer (1 through 6).
pub open spec fn circuit_ok(s: Seq<isize>) -> bool {
    &&& s.len() > 0
    &&& forall|i: int| 0 <= i < s.len() ==> 1 <= #[trigger] s[i] <= 6
}

/// The ranking at index `i`, where `i` may run past the end of the circuit
/// once: indexing is circular, so the lookahead wraps back to the start.
pub open spec fn ranking_at(s: Seq<isize>, i: int) -> isize
    recommends
        0 <= i < 2 * s.len(),
{
    if i < s.len() {
        s[i]
    } else {
        s[i - s.len()]
    }
}

/// The greater of two rankings.
pub open spec fn ranking_max(a: isize, b: isize) -> isize {
    if a >= b {
        a
    } else {
        b
    }
}

/// The highest ranking among the `k` consecutive circuit positions starting
/// at `start`, wrapping past the end of the circuit at most once.
pub open spec fn window_max(s: Seq<isize>, start: int, k: int) -> isize
    recommends
        k >= 1,
    decreases k,
{
    if k <= 1 {
        ranking_at(s, start)
    } else {
        ranking_max(ranking_at(s, start), window_max(s, start + 1, k - 1))
    }
}

/// The highest ranking anywhere in the circuit.
pub open spec fn seq_max(s: Seq<isize>) -> isize
    recommends
        s.len() > 0,
    decreases s.len(),
{
    if s.len() <= 1 {
        s[0]
    } else {
        ranking_max(seq_max(s.drop_last()), s.last())
    }
}

/// `seq_max` is an upper bound of the sequence and is attained by some
/// element.
pub proof fn lemma_seq_max_is_max(s: Seq<isize>)
    requires
        s.len() > 0,
    ensures
        forall|i: int| 0 <= i < s.len() ==> #[trigger] s[i] <= seq_max(s),
        exists|i: int| 0 <= i < s.len() && s[i] == seq_max(s),
    decreases s.len(),
{
    if s.len() > 1 {
        let dl = s.drop_last();
        lemma_seq_max_is_max(dl);
        assert(seq_max(s) == ranking_max(seq_max(dl), s.last()));
        assert forall|i: int| 0 <= i < s.len() implies #[trigger] s[i] <= seq_max(s) by {
            if i < s.len() - 1 {
                assert(s[i] == dl[i]);
                assert(dl[i] <= seq_max(dl));
            }
        }
        if seq_max(s) == s.last() {
            assert(s[s.len() - 1] == seq_max(s));
        } else {
            let j = choose|i: int| 0 <= i < dl.len() && dl[i] == seq_max(dl);
            assert(s[j] == dl[j]);
            assert(s[j] == seq_max(s));
        }
    } else {
        assert(s[0] == seq_max(s));
    }
}

/// Extending a window by one position on the right takes the maximum with the
/// ranking at the new position.
pub proof fn lemma_window_max_snoc(s: Seq<isize>, start: int, k: int)
    requires
        k >= 1,
    ensures
        window_max(s, start, k + 1) == ranking_max(window_max(s, start, k), ranking_at(s, start + k)),
    decreases k,
{
    if k == 1 {
        assert(window_max(s, start, 2) == ranking_max(
            ranking_at(s, start),
            window_max(s, start + 1, 1),
        ));
        assert(window_max(s, start + 1, 1) == ranking_at(s, start + 1));
    } else {
        lemma_window_max_snoc(s, start + 1, k - 1);
        assert(window_max(s, start, k + 1) == ranking_max(
            ranking_at(s, start),
            window_max(s, start + 1, k),
        ));
        assert(window_max(s, start, k) == ranking_max(
            ranking_at(s, start),
            window_max(s, start + 1, k - 1),
        ));
    }
}

/// The consecutive circuit positions a window covers, written out as one
/// sequence: the run up to the circuit end, followed by the wrapped-around
/// run from the start.
pub open spec fn window_seq(s: Seq<isize>, start: int, k: int) -> Seq<isize>
    recommends
        0 <= start <= s.len(),
        0 <= k,
        start + k <= 2 * s.len(),
{
    if start + k <= s.len() {
        s.subrange(start, start + k)
    } else {
        s.subrange(start, s.len() as int) + s.subrange(0, start + k - s.len())
    }
}

/// The maximum over a lookahead window that wraps past the circuit end equals
/// the maximum ranking in the sequence obtained by concatenating the wrapped
/// indices in order.
pub proof fn lemma_window_max_wraps(s: Seq<isize>, start: int, k: int)
    requires
        0 <= start < s.len(),
        1 <= k,
        start + k <= 2 * s.len(),
    ensures
        window_seq(s, start, k).len() == k,
        window_max(s, start, k) == seq_max(window_seq(s, start, k)),
    decreases k,
{
    if k == 1 {
        assert(window_seq(s, start, 1) =~= seq![s[start]]);
    } else {
        lemma_window_max_wraps(s, start, k - 1);
        lemma_window_max_snoc(s, start, k - 1);
        assert(window_seq(s, start, k).drop_last() =~= window_seq(s, start, k - 1));
        assert(window_seq(s, start, k).last() == ranking_at(s, start + k - 1));
    }
}

/// On a well-formed circuit every window maximum is itself a ranking in
/// `[1, 6]`.
pub proof fn lemma_window_max_in_range(s: Seq<isize>, start: int, k: int)
    requires
        circuit_ok(s),
        0 <= start < s.len(),
        1 <= k,
        start + k <= 2 * s.len(),
    ensures
        1 <= window_max(s, start, k) <= 6,
    decreases k,
{
    if k > 1 {
        lemma_window_max_in_range(s, start, k - 1);
        lemma_window_max_snoc(s, start, k - 1);
    }
}

} // verus!
