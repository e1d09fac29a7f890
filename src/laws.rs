//! Properties that hold across operations, proved from the operations' contracts.

use vstd::prelude::*;
use crate::state::{AgentReputation, ErrorCode, Identity, ProtocolState, RaterState, MAX_FEEDBACK_AGE};
use crate::feedback::{feedback_error, prior_count, records_match, SubmitFeedback};

verus! {

/// How one operation moves the ledger's agent counter: a registration hands
/// out `assigned` (the counter before it) and raises the counter by one; any
/// other operation leaves the counter as it was.
pub open spec fn counter_step(before: ProtocolState, after: ProtocolState, assigned: Option<u64>) -> bool {
    match assigned {
        Some(id) => id == before.agent_count && after.agent_count == before.agent_count + 1,
        None => after.agent_count == before.agent_count,
    }
}

proof fn counter_never_decreases(ledgers: Seq<ProtocolState>, assigned: Seq<Option<u64>>, i: int, j: int)
    requires
        ledgers.len() == assigned.len() + 1,
        forall|k: int| 0 <= k < assigned.len() ==> counter_step(ledgers[k], ledgers[k + 1], #[trigger] assigned[k]),
        0 <= i <= j < ledgers.len(),
    ensures
        ledgers[i].agent_count <= ledgers[j].agent_count,
    decreases j - i,
{
    if i < j {
        counter_never_decreases(ledgers, assigned, i, j - 1);
        assert(counter_step(ledgers[j - 1], ledgers[j], assigned[j - 1]));
    }
}

/// Agent ids are handed out in strictly increasing order and never twice:
/// over any run of operations, each moving the agent counter as
/// `counter_step` says (closing an agent does not touch it), an id handed
/// out earlier is smaller than every id handed out later.
pub proof fn agent_ids_strictly_increase(
    ledgers: Seq<ProtocolState>,
    assigned: Seq<Option<u64>>,
    i: int,
    j: int,
)
    requires
        ledgers.len() == assigned.len() + 1,
        forall|k: int| 0 <= k < assigned.len() ==> counter_step(ledgers[k], ledgers[k + 1], #[trigger] assigned[k]),
        0 <= i < j < assigned.len(),
        assigned[i] is Some,
        assigned[j] is Some,
    ensures
        assigned[i].unwrap() < assigned[j].unwrap(),
{
    assert(counter_step(ledgers[i], ledgers[i + 1], assigned[i]));
    assert(counter_step(ledgers[j], ledgers[j + 1], assigned[j]));
    counter_never_decreases(ledgers, assigned, i + 1, j);
}

/// Times `r` occurs in `raters`.
pub open spec fn occurrences(raters: Seq<Identity>, r: Identity) -> nat
    decreases raters.len(),
{
    if raters.len() == 0 {
        0
    } else {
        occurrences(raters.drop_last(), r) + if raters.last() == r {
            1nat
        } else {
            0nat
        }
    }
}

/// The `unique_raters` counter after accepting feedbacks from `raters` in
/// order, starting from zero: it grows exactly when the rater had no earlier
/// feedback, as `submit_feedback` does.
pub open spec fn counted_raters(raters: Seq<Identity>) -> nat
    decreases raters.len(),
{
    if raters.len() == 0 {
        0
    } else {
        counted_raters(raters.drop_last()) + if occurrences(raters.drop_last(), raters.last()) == 0 {
            1nat
        } else {
            0nat
        }
    }
}

proof fn occurrences_zero_iff_absent(raters: Seq<Identity>, r: Identity)
    ensures
        occurrences(raters, r) == 0 <==> !raters.contains(r),
    decreases raters.len(),
{
    if raters.len() > 0 {
        let init = raters.drop_last();
        occurrences_zero_iff_absent(init, r);
        if raters.last() == r {
            assert(raters[raters.len() - 1] == r);
        } else {
            assert(raters.contains(r) ==> init.contains(r)) by {
                if raters.contains(r) {
                    let k = choose|k: int| 0 <= k < raters.len() && raters[k] == r;
                    assert(k < raters.len() - 1);
                    assert(init[k] == r);
                }
            }
            assert(init.contains(r) ==> raters.contains(r)) by {
                if init.contains(r) {
                    let k = choose|k: int| 0 <= k < init.len() && init[k] == r;
                    assert(raters[k] == r);
                }
            }
        }
    }
}

/// The unique-rater counter equals the number of distinct raters: for any
/// order of accepted feedbacks on one agent, repeats included, counting a
/// rater on their first feedback only counts each distinct rater once.
pub proof fn unique_raters_count_distinct(raters: Seq<Identity>)
    ensures
        counted_raters(raters) == raters.to_set().len(),
    decreases raters.len(),
{
    if raters.len() == 0 {
        assert(raters.to_set() =~= Set::<Identity>::empty());
    } else {
        let init = raters.drop_last();
        let r = raters.last();
        unique_raters_count_distinct(init);
        occurrences_zero_iff_absent(init, r);
        assert(raters.to_set() =~= init.to_set().insert(r)) by {
            assert forall|x: Identity| raters.to_set().contains(x) implies init.to_set().insert(r).contains(x) by {
                let k = choose|k: int| 0 <= k < raters.len() && raters[k] == x;
                if k < raters.len() - 1 {
                    assert(init[k] == x);
                }
            }
            assert forall|x: Identity| init.to_set().insert(r).contains(x) implies raters.to_set().contains(x) by {
                if x == r {
                    assert(raters[raters.len() - 1] == x);
                } else {
                    let k = choose|k: int| 0 <= k < init.len() && init[k] == x;
                    assert(raters[k] == x);
                }
            }
        }
        vstd::seq_lib::seq_to_set_is_finite(init);
    }
}

proof fn counter_follows_history(reps: Seq<AgentReputation>, raters: Seq<Identity>, n: int)
    requires
        reps.len() == raters.len() + 1,
        reps[0].unique_raters == 0,
        forall|k: int| 0 <= k < raters.len() ==> #[trigger] reps[k + 1].unique_raters == reps[k].unique_raters
            + if occurrences(raters.take(k), raters[k]) == 0 { 1int } else { 0int },
        0 <= n <= raters.len(),
    ensures
        reps[n].unique_raters == counted_raters(raters.take(n)),
    decreases n,
{
    if n > 0 {
        counter_follows_history(reps, raters, n - 1);
        let s = raters.take(n);
        assert(s.drop_last() =~= raters.take(n - 1));
        assert(s.last() == raters[n - 1]);
        assert(reps[(n - 1) + 1].unique_raters == reps[n - 1].unique_raters + if occurrences(
            raters.take(n - 1),
            raters[n - 1],
        ) == 0 {
            1int
        } else {
            0int
        });
    } else {
        assert(raters.take(0) =~= Seq::<Identity>::empty());
    }
}

/// Over a whole history of accepted feedbacks on one agent: starting from the
/// zeroed record of a new registration, when each feedback raises
/// `unique_raters` by one exactly when its rater had no earlier feedback (as
/// `submit_feedback` does, reading the rater's feedback count), the counter
/// ends equal to the number of distinct raters in the history.
pub proof fn unique_raters_over_history(reps: Seq<AgentReputation>, raters: Seq<Identity>)
    requires
        reps.len() == raters.len() + 1,
        reps[0].unique_raters == 0,
        forall|k: int| 0 <= k < raters.len() ==> #[trigger] reps[k + 1].unique_raters == reps[k].unique_raters
            + if occurrences(raters.take(k), raters[k]) == 0 { 1int } else { 0int },
    ensures
        reps.last().unique_raters == raters.to_set().len(),
{
    counter_follows_history(reps, raters, raters.len() as int);
    assert(raters.take(raters.len() as int) =~= raters);
    unique_raters_count_distinct(raters);
}

/// The submission passes every check that comes before the cooldown.
pub open spec fn passes_checks_before_cooldown(
    ctx: SubmitFeedback,
    agent_id: u64,
    rating: u8,
    amount_paid: u64,
    timestamp: i64,
    now: i64,
) -> bool {
    &&& 1 <= rating <= 5
    &&& amount_paid > 0
    &&& timestamp > 0
    &&& records_match(ctx, agent_id, timestamp)
    &&& ctx.agent_identity.active
    &&& ctx.rater != ctx.agent_identity.owner
    &&& now - MAX_FEEDBACK_AGE <= timestamp <= now
}

/// The cooldown: after a rater's feedback on an agent is accepted at host
/// time `first_now`, a second feedback from that rater on that agent that is
/// otherwise valid fails with `FeedbackTooFrequent` while less than an hour
/// of host time has passed, and is not held back by the cooldown after that.
pub proof fn feedback_cooldown(
    first: SubmitFeedback,
    first_rating: u8,
    first_amount: u64,
    first_timestamp: i64,
    first_now: i64,
    second: SubmitFeedback,
    agent_id: u64,
    rating: u8,
    amount_paid: u64,
    timestamp: i64,
    now: i64,
)
    requires
        feedback_error(first, agent_id, first_rating, first_amount, first_timestamp, first_now) is None,
        second.rater == first.rater,
        second.rater_state == Some((RaterState {
            rater: first.rater,
            agent_id,
            last_feedback_at: first_now,
            feedback_count: (prior_count(first) + 1) as u64,
        })),
        passes_checks_before_cooldown(second, agent_id, rating, amount_paid, timestamp, now),
    ensures
        now - first_now < 3600 ==> feedback_error(second, agent_id, rating, amount_paid, timestamp, now)
            == Some(ErrorCode::FeedbackTooFrequent),
        now - first_now >= 3600 ==> feedback_error(second, agent_id, rating, amount_paid, timestamp, now)
            != Some(ErrorCode::FeedbackTooFrequent),
        now - first_now >= 3600 && prior_count(first) + 1 < u64::MAX && second.feedback is None
            && !crate::feedback::aggregates_overflow(
            second,
            rating,
            amount_paid,
        ) ==> feedback_error(second, agent_id, rating, amount_paid, timestamp, now) is None,
{
}

/// An owner cannot rate their own agent: once the rating, amount and
/// timestamp are well formed and the agent resolves, the owner's submission
/// fails with `SelfRating`, whatever the clock, the cooldown or the totals.
pub proof fn owner_cannot_self_rate(
    ctx: SubmitFeedback,
    agent_id: u64,
    rating: u8,
    amount_paid: u64,
    timestamp: i64,
    now: i64,
)
    requires
        ctx.rater == ctx.agent_identity.owner,
        1 <= rating <= 5,
        amount_paid > 0,
        timestamp > 0,
        records_match(ctx, agent_id, timestamp),
        ctx.agent_identity.active,
    ensures
        feedback_error(ctx, agent_id, rating, amount_paid, timestamp, now) == Some(ErrorCode::SelfRating),
{
}

} // verus!
