use vstd::prelude::*;

use crate::racer::polled;
use crate::racer::speed_step_down;
use crate::racer::speed_step_up;
use crate::racer::Racer;

verus! {

/// The speed ranking after a sequence of adjustments, applied in order:
/// `true` for a `speed_up` call, `false` for a `slow_down` call.
pub open spec fn apply_speed_ops(speed: int, ops: Seq<bool>) -> int
    decreases ops.len(),
{
    if ops.len() == 0 {
        speed
    } else {
        apply_speed_ops(
            if ops[0] {
                speed_step_up(speed)
            } else {
                speed_step_down(speed)
            },
            ops.drop_first(),
        )
    }
}

/// After any number of `speed_up` / `slow_down` calls, in any order, the
/// speed ranking stays within `[-2, 3]`.
pub proof fn lemma_speed_stays_clamped(speed: int, ops: Seq<bool>)
    requires
        -2 <= speed <= 3,
    ensures
        -2 <= apply_speed_ops(speed, ops) <= 3,
    decreases ops.len(),
{
    if ops.len() > 0 {
        lemma_speed_stays_clamped(
            if ops[0] {
                speed_step_up(speed)
            } else {
                speed_step_down(speed)
            },
            ops.drop_first(),
        );
    }
}

/// A quiet racer: its log holds buckets but no event strings at all.
pub open spec fn log_quiet(r: Racer) -> bool {
    forall|i: int| 0 <= i < r.log@.len() ==> #[trigger] r.log@[i]@.len() == 0
}

/// One log poll of a quiet racer returns no event strings, advances the
/// turn index by exactly one, and leaves the racer quiet again.
pub proof fn lemma_quiet_poll(pre: Racer, post: Racer, r: Seq<String>)
    requires
        pre.inv(),
        log_quiet(pre),
        polled(pre, post, r),
    ensures
        r.len() == 0,
        post.turn == pre.turn + 1,
        post.inv(),
        log_quiet(post),
{
    assert(pre.log@.len() == pre.turn + 1);
    assert(r == pre.log@[pre.turn as int]@);
    assert forall|i: int| 0 <= i < post.log@.len() implies #[trigger] post.log@[i]@.len()
        == 0 by {
        if i < pre.log@.len() {
            assert(post.log@[i] == pre.log@[i]);
        } else {
            assert(post.log@[i] == post.log@.last());
        }
    }
}

/// Polling the log of a racer that has recorded no events, any number of
/// times, returns only empty event lists and leaves the turn index advanced
/// by exactly the number of polls: `states` is the chain of racer states a
/// run of polls passes through, and `results` what each poll returned.
pub proof fn lemma_quiet_polls(states: Seq<Racer>, results: Seq<Seq<String>>)
    requires
        states.len() == results.len() + 1,
        states[0].inv(),
        log_quiet(states[0]),
        forall|i: int|
            0 <= i < results.len() ==> polled(states[i], states[i + 1], #[trigger] results[i]),
    ensures
        forall|i: int| 0 <= i < results.len() ==> #[trigger] results[i].len() == 0,
        states.last().turn == states[0].turn + results.len(),
        states.last().inv(),
        log_quiet(states.last()),
    decreases results.len(),
{
    if results.len() == 0 {
        assert(states.last() == states[0]);
    } else {
        lemma_quiet_poll(states[0], states[1], results[0]);
        let tail_states = states.drop_first();
        let tail_results = results.drop_first();
        assert forall|i: int|
            0 <= i < tail_results.len() implies polled(
            tail_states[i],
            tail_states[i + 1],
            #[trigger] tail_results[i],
        ) by {
            assert(tail_states[i] == states[i + 1]);
            assert(tail_states[i + 1] == states[i + 2]);
            assert(tail_results[i] == results[i + 1]);
        }
        lemma_quiet_polls(tail_states, tail_results);
        assert(tail_states.last() == states.last());
        assert forall|i: int| 0 <= i < results.len() implies #[trigger] results[i].len()
            == 0 by {
            if i > 0 {
                assert(results[i] == tail_results[i - 1]);
            }
        }
    }
}

} // verus!
