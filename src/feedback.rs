//! Feedback submission: the anti-abuse checks and the reputation aggregation.

use vstd::prelude::*;
use crate::laws::counter_step;
use crate::state::{
    AgentIdentity, AgentReputation, ErrorCode, Feedback, FeedbackSubmitted, Identity,
    ProtocolState, RaterState, MAX_FEEDBACK_AGE, MIN_FEEDBACK_INTERVAL,
};

verus! {

/// The records one feedback submission reads and writes.
#[derive(Clone, Debug)]
pub struct SubmitFeedback {
    pub protocol_state: ProtocolState,
    pub agent_identity: AgentIdentity,
    pub agent_reputation: AgentReputation,
    /// The cooldown record of (`agent_id`, `rater`); `None` until the rater's first feedback.
    pub rater_state: Option<RaterState>,
    /// The feedback record keyed by (`agent_id`, `rater`, `timestamp`), if one exists.
    pub feedback: Option<Feedback>,
    /// The verified caller.
    pub rater: Identity,
}

/// Accepted feedbacks the rater has given the agent before this one.
pub open spec fn prior_count(ctx: SubmitFeedback) -> int {
    match ctx.rater_state {
        Some(s) => s.feedback_count as int,
        None => 0,
    }
}

/// Host time of the rater's last accepted feedback on the agent, zero if none.
pub open spec fn prior_feedback_at(ctx: SubmitFeedback) -> int {
    match ctx.rater_state {
        Some(s) => s.last_feedback_at as int,
        None => 0,
    }
}

/// The records presented are those of `agent_id` and of the caller.
pub open spec fn records_match(ctx: SubmitFeedback, agent_id: u64, timestamp: i64) -> bool {
    &&& ctx.agent_identity.agent_id == agent_id
    &&& ctx.agent_reputation.agent_id == agent_id
    &&& match ctx.rater_state {
        Some(s) => s.agent_id == agent_id && s.rater == ctx.rater,
        None => true,
    }
    &&& match ctx.feedback {
        Some(f) => f.agent_id == agent_id && f.rater == ctx.rater && f.created_at == timestamp,
        None => true,
    }
}

/// Some aggregate of the agent or of the ledger would pass `u64::MAX`.
pub open spec fn aggregates_overflow(ctx: SubmitFeedback, rating: u8, amount_paid: u64) -> bool {
    let rep = ctx.agent_reputation;
    let ps = ctx.protocol_state;
    ||| rep.total_ratings + 1 > u64::MAX
    ||| rep.rating_sum + rating > u64::MAX
    ||| rep.total_volume + amount_paid > u64::MAX
    ||| rep.rating_distribution@[rating - 1] + 1 > u64::MAX
    ||| (prior_count(ctx) == 0 && rep.unique_raters + 1 > u64::MAX)
    ||| ps.total_transactions + 1 > u64::MAX
    ||| ps.total_volume + amount_paid > u64::MAX
}

/// The first rule a submission breaks, in the order they are checked;
/// `None` when it is accepted.
pub open spec fn feedback_error(
    ctx: SubmitFeedback,
    agent_id: u64,
    rating: u8,
    amount_paid: u64,
    timestamp: i64,
    now: i64,
) -> Option<ErrorCode> {
    if !(1 <= rating <= 5) {
        Some(ErrorCode::InvalidRating)
    } else if amount_paid == 0 {
        Some(ErrorCode::InvalidAmount)
    } else if timestamp <= 0 {
        Some(ErrorCode::InvalidTimestamp)
    } else if !records_match(ctx, agent_id, timestamp) || !ctx.agent_identity.active {
        Some(ErrorCode::InvalidAgent)
    } else if ctx.rater == ctx.agent_identity.owner {
        Some(ErrorCode::SelfRating)
    } else if timestamp > now {
        Some(ErrorCode::FutureTimestamp)
    } else if timestamp < now - MAX_FEEDBACK_AGE {
        Some(ErrorCode::TimestampTooOld)
    } else if prior_feedback_at(ctx) > 0 && now - prior_feedback_at(ctx) < MIN_FEEDBACK_INTERVAL {
        Some(ErrorCode::FeedbackTooFrequent)
    } else if prior_count(ctx) + 1 > u64::MAX {
        Some(ErrorCode::ArithmeticOverflow)
    } else if ctx.feedback is Some {
        Some(ErrorCode::RecordExists)
    } else if aggregates_overflow(ctx, rating, amount_paid) {
        Some(ErrorCode::ArithmeticOverflow)
    } else {
        None
    }
}

/// Adds `b` to `a`, or fails with `ArithmeticOverflow`.
fn add_checked(a: u64, b: u64) -> (r: Result<u64, ErrorCode>)
    ensures
        a + b <= u64::MAX ==> r == Ok::<u64, ErrorCode>((a + b) as u64),
        a + b > u64::MAX ==> r == Err::<u64, ErrorCode>(ErrorCode::ArithmeticOverflow),
{
    match a.checked_add(b) {
        Some(v) => Ok(v),
        None => Err(ErrorCode::ArithmeticOverflow),
    }
}

/// Checks the presented records against the keys of the submission.
fn check_records(ctx: &SubmitFeedback, agent_id: u64, timestamp: i64) -> (r: bool)
    ensures
        r == records_match(*ctx, agent_id, timestamp),
{
    if ctx.agent_identity.agent_id != agent_id || ctx.agent_reputation.agent_id != agent_id {
        return false;
    }
    let rater_ok = match &ctx.rater_state {
        Some(s) => s.agent_id == agent_id && s.rater == ctx.rater,
        None => true,
    };
    let feedback_ok = match &ctx.feedback {
        Some(f) => f.agent_id == agent_id && f.rater == ctx.rater && f.created_at == timestamp,
        None => true,
    };
    rater_ok && feedback_ok
}

/// Records one paid feedback of `ctx.rater` on agent `agent_id`, at host time `now`.
///
/// The submission is accepted exactly when `feedback_error` finds no broken
/// rule. Then the rater's cooldown record is stamped with `now` and counts one
/// more feedback, the feedback record is written, the agent's aggregates and
/// the ledger's totals grow by this feedback, and `unique_raters` grows by one
/// on the rater's first feedback only. A refused submission changes nothing.
pub fn submit_feedback(
    ctx: &mut SubmitFeedback,
    agent_id: u64,
    rating: u8,
    comment_hash: [u8; 32],
    amount_paid: u64,
    timestamp: i64,
    now: i64,
) -> (r: Result<FeedbackSubmitted, ErrorCode>)
    ensures
        r is Ok <==> feedback_error(*old(ctx), agent_id, rating, amount_paid, timestamp, now) is None,
        r matches Err(e) ==> feedback_error(*old(ctx), agent_id, rating, amount_paid, timestamp, now)
            == Some(e) && *final(ctx) == *old(ctx),
        r is Ok ==> {
            let o = *old(ctx);
            let n = *final(ctx);
            let rating_idx = rating - 1;
            &&& r == Ok::<FeedbackSubmitted, ErrorCode>(
                (FeedbackSubmitted { agent_id, rater: o.rater, rating, amount_paid }),
            )
            &&& n.rater == o.rater
            &&& n.agent_identity == o.agent_identity
            &&& n.rater_state == Some((RaterState {
                rater: o.rater,
                agent_id,
                last_feedback_at: now,
                feedback_count: (prior_count(o) + 1) as u64,
            }))
            &&& n.feedback == Some((Feedback {
                agent_id,
                rater: o.rater,
                rating,
                comment_hash,
                amount_paid,
                created_at: timestamp,
            }))
            &&& n.agent_reputation.agent_id == o.agent_reputation.agent_id
            &&& n.agent_reputation.total_ratings == o.agent_reputation.total_ratings + 1
            &&& n.agent_reputation.rating_sum == o.agent_reputation.rating_sum + rating
            &&& n.agent_reputation.total_volume == o.agent_reputation.total_volume + amount_paid
            &&& n.agent_reputation.rating_distribution@ == o.agent_reputation.rating_distribution@.update(
                rating_idx,
                (o.agent_reputation.rating_distribution@[rating_idx] + 1) as u64,
            )
            &&& n.agent_reputation.unique_raters == o.agent_reputation.unique_raters + (if prior_count(o)
                == 0 {
                1int
            } else {
                0int
            })
            &&& n.agent_reputation.last_rated_at == timestamp
            &&& n.protocol_state.total_transactions == o.protocol_state.total_transactions + 1
            &&& n.protocol_state.total_volume == o.protocol_state.total_volume + amount_paid
            &&& n.protocol_state.authority == o.protocol_state.authority
            &&& n.protocol_state.agent_count == o.protocol_state.agent_count
            &&& n.protocol_state.platform_fee_bps == o.protocol_state.platform_fee_bps
            &&& n.protocol_state.fee_vault == o.protocol_state.fee_vault
        },
        old(ctx).agent_reputation.wf() ==> final(ctx).agent_reputation.wf(),
        old(ctx).protocol_state.wf() ==> final(ctx).protocol_state.wf(),
        counter_step(old(ctx).protocol_state, final(ctx).protocol_state, None),
{
    if rating < 1 || rating > 5 {
        return Err(ErrorCode::InvalidRating);
    }
    if amount_paid == 0 {
        return Err(ErrorCode::InvalidAmount);
    }
    if timestamp <= 0 {
        return Err(ErrorCode::InvalidTimestamp);
    }
    if !check_records(ctx, agent_id, timestamp) || !ctx.agent_identity.active {
        return Err(ErrorCode::InvalidAgent);
    }
    if ctx.rater == ctx.agent_identity.owner {
        return Err(ErrorCode::SelfRating);
    }
    if timestamp > now {
        return Err(ErrorCode::FutureTimestamp);
    }
    if (timestamp as i128) < (now as i128) - (MAX_FEEDBACK_AGE as i128) {
        return Err(ErrorCode::TimestampTooOld);
    }
    let (last_at, count) = match &ctx.rater_state {
        Some(s) => (s.last_feedback_at, s.feedback_count),
        None => (0i64, 0u64),
    };
    if last_at > 0 && (now as i128) - (last_at as i128) < (MIN_FEEDBACK_INTERVAL as i128) {
        return Err(ErrorCode::FeedbackTooFrequent);
    }
    let new_count = add_checked(count, 1)?;
    if ctx.feedback.is_some() {
        return Err(ErrorCode::RecordExists);
    }
    // Stage every new aggregate before writing any of them.
    let rep = &ctx.agent_reputation;
    let idx = (rating - 1) as usize;
    let total_ratings = add_checked(rep.total_ratings, 1)?;
    let rating_sum = add_checked(rep.rating_sum, rating as u64)?;
    let rep_volume = add_checked(rep.total_volume, amount_paid)?;
    let bucket = add_checked(rep.rating_distribution[idx], 1)?;
    let unique_raters = if count == 0 {
        add_checked(rep.unique_raters, 1)?
    } else {
        rep.unique_raters
    };
    let total_transactions = add_checked(ctx.protocol_state.total_transactions, 1)?;
    let ledger_volume = add_checked(ctx.protocol_state.total_volume, amount_paid)?;

    let ghost d0 = ctx.agent_reputation.rating_distribution@;
    ctx.rater_state = Some(
        RaterState { rater: ctx.rater, agent_id, last_feedback_at: now, feedback_count: new_count },
    );
    ctx.feedback = Some(
        Feedback {
            agent_id,
            rater: ctx.rater,
            rating,
            comment_hash,
            amount_paid,
            created_at: timestamp,
        },
    );
    ctx.agent_reputation.total_ratings = total_ratings;
    ctx.agent_reputation.rating_sum = rating_sum;
    ctx.agent_reputation.total_volume = rep_volume;
    ctx.agent_reputation.rating_distribution.set(idx, bucket);
    ctx.agent_reputation.unique_raters = unique_raters;
    ctx.agent_reputation.last_rated_at = timestamp;
    ctx.protocol_state.total_transactions = total_transactions;
    ctx.protocol_state.total_volume = ledger_volume;
    proof {
        let d1 = ctx.agent_reputation.rating_distribution@;
        assert(d1 =~= d0.update(idx as int, bucket));
    }
    Ok(FeedbackSubmitted { agent_id, rater: ctx.rater, rating, amount_paid })
}

} // verus!
