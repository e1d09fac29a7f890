use agent_bazaar::feedback::{submit_feedback, SubmitFeedback};
use agent_bazaar::registry::{
    close_agent, deactivate_agent, initialize, reactivate_agent, register_agent, update_agent,
    update_authority, update_fee, CloseAgent, Initialize, RegisterAgent, UpdateAgent,
    UpdateAuthority,
};
use agent_bazaar::state::{
    text_len, AgentIdentity, AgentReputation, ErrorCode, Identity, ProtocolState, RaterState,
};

const NOW: i64 = 1_700_000_000;

fn who(n: u8) -> Identity {
    Identity { bytes: [n; 32] }
}

fn ledger(authority: Identity) -> ProtocolState {
    let mut ctx = Initialize { protocol_state: None, authority };
    initialize(&mut ctx, 250).unwrap();
    ctx.protocol_state.unwrap()
}

fn register(
    ledger: ProtocolState,
    owner: Identity,
    name: &str,
) -> (ProtocolState, AgentIdentity, AgentReputation) {
    let mut ctx = RegisterAgent {
        protocol_state: ledger,
        agent_identity: None,
        agent_reputation: None,
        owner,
    };
    register_agent(
        &mut ctx,
        name.to_string(),
        String::new(),
        "ipfs://x".to_string(),
        vec!["search".to_string()],
        NOW,
    )
    .unwrap();
    (
        ctx.protocol_state,
        ctx.agent_identity.unwrap(),
        ctx.agent_reputation.unwrap(),
    )
}

fn feedback_ctx(rater: Identity) -> SubmitFeedback {
    let (ps, agent, rep) = register(ledger(who(1)), who(2), "Bot");
    SubmitFeedback {
        protocol_state: ps,
        agent_identity: agent,
        agent_reputation: rep,
        rater_state: None,
        feedback: None,
        rater,
    }
}

fn register_err(ps: ProtocolState, name: &str, desc: &str, uri: &str, cats: Vec<String>) -> ErrorCode {
    let mut ctx = RegisterAgent {
        protocol_state: ps,
        agent_identity: None,
        agent_reputation: None,
        owner: who(2),
    };
    let before = ctx.clone();
    let e = register_agent(&mut ctx, name.to_string(), desc.to_string(), uri.to_string(), cats, NOW)
        .unwrap_err();
    assert_eq!(ctx.protocol_state, before.protocol_state);
    assert!(ctx.agent_identity.is_none() && ctx.agent_reputation.is_none());
    e
}

#[test]
fn initialize_sets_authority_and_zeroes_counters() {
    let ps = ledger(who(1));
    assert_eq!(
        ps,
        ProtocolState {
            authority: who(1),
            agent_count: 0,
            platform_fee_bps: 250,
            fee_vault: who(1),
            total_transactions: 0,
            total_volume: 0,
        }
    );
}

#[test]
fn initialize_rejects_fee_and_second_setup() {
    let mut ctx = Initialize { protocol_state: None, authority: who(1) };
    assert_eq!(initialize(&mut ctx, 10001), Err(ErrorCode::InvalidFee));
    assert!(ctx.protocol_state.is_none());
    assert_eq!(initialize(&mut ctx, 10000), Ok(()));
    assert_eq!(initialize(&mut ctx, 0), Err(ErrorCode::RecordExists));
    assert_eq!(ctx.protocol_state.unwrap().platform_fee_bps, 10000);
}

#[test]
fn register_then_rate_example() {
    let (ps, agent, rep) = register(ledger(who(1)), who(2), "Bot");
    assert_eq!(agent.agent_id, 0);
    assert!(agent.active);
    assert_eq!(agent.owner, who(2));
    assert_eq!(agent.agent_wallet, who(2));
    assert_eq!(agent.registered_at, NOW);
    assert_eq!(ps.agent_count, 1);
    let mut ctx = SubmitFeedback {
        protocol_state: ps,
        agent_identity: agent,
        agent_reputation: rep,
        rater_state: None,
        feedback: None,
        rater: who(3),
    };
    let ev = submit_feedback(&mut ctx, 0, 5, [7; 32], 100, NOW, NOW).unwrap();
    assert_eq!(ev.agent_id, 0);
    assert_eq!(ev.rater, who(3));
    assert_eq!(ev.rating, 5);
    assert_eq!(ev.amount_paid, 100);
    let rep = ctx.agent_reputation;
    assert_eq!(rep.total_ratings, 1);
    assert_eq!(rep.rating_sum, 5);
    assert_eq!(rep.total_volume, 100);
    assert_eq!(rep.unique_raters, 1);
    assert_eq!(rep.rating_distribution, [0, 0, 0, 0, 1]);
    assert_eq!(rep.last_rated_at, NOW);
    assert_eq!(ctx.protocol_state.total_transactions, 1);
    assert_eq!(ctx.protocol_state.total_volume, 100);
    assert_eq!(
        ctx.rater_state,
        Some(RaterState { rater: who(3), agent_id: 0, last_feedback_at: NOW, feedback_count: 1 })
    );
    let f = ctx.feedback.unwrap();
    assert_eq!(f.rating, 5);
    assert_eq!(f.comment_hash, [7; 32]);
    assert_eq!(f.created_at, NOW);
}

#[test]
fn register_event_carries_name() {
    let mut ctx = RegisterAgent {
        protocol_state: ledger(who(1)),
        agent_identity: None,
        agent_reputation: None,
        owner: who(4),
    };
    let ev = register_agent(&mut ctx, "Bot".to_string(), String::new(), String::new(), vec![], NOW)
        .unwrap();
    assert_eq!(ev.agent_id, 0);
    assert_eq!(ev.owner, who(4));
    assert_eq!(ev.name, "Bot");
}

#[test]
fn agent_ids_increase_and_survive_close() {
    let ps = ledger(who(1));
    let (ps, a0, r0) = register(ps, who(2), "first");
    let (ps, a1, _) = register(ps, who(2), "second");
    assert_eq!(a0.agent_id, 0);
    assert_eq!(a1.agent_id, 1);
    let mut up = UpdateAgent { agent_identity: a0, owner: who(2) };
    deactivate_agent(&mut up, NOW).unwrap();
    let mut close = CloseAgent {
        agent_identity: Some(up.agent_identity),
        agent_reputation: Some(r0),
        owner: who(2),
    };
    close_agent(&mut close, NOW).unwrap();
    let (ps, a2, _) = register(ps, who(2), "third");
    assert_eq!(a2.agent_id, 2);
    assert_eq!(ps.agent_count, 3);
}

#[test]
fn register_validation_errors() {
    let ps = ledger(who(1));
    assert_eq!(register_err(ps, "ab", "", "", vec![]), ErrorCode::NameTooShort);
    assert_eq!(register_err(ps, &"n".repeat(65), "", "", vec![]), ErrorCode::NameTooLong);
    assert_eq!(register_err(ps, "Bot", &"d".repeat(257), "", vec![]), ErrorCode::DescriptionTooLong);
    assert_eq!(register_err(ps, "Bot", "", &"u".repeat(257), vec![]), ErrorCode::UriTooLong);
    let six: Vec<String> = (0..6).map(|i| format!("c{}", i)).collect();
    assert_eq!(register_err(ps, "Bot", "", "", six), ErrorCode::TooManyCategories);
    assert_eq!(
        register_err(ps, "Bot", "", "", vec!["ok".to_string(), "c".repeat(33)]),
        ErrorCode::CategoryTooLong
    );
}

#[test]
fn register_accepts_boundary_lengths() {
    let mut ctx = RegisterAgent {
        protocol_state: ledger(who(1)),
        agent_identity: None,
        agent_reputation: None,
        owner: who(2),
    };
    let cats: Vec<String> = (0..5).map(|_| "c".repeat(32)).collect();
    let r = register_agent(&mut ctx, "n".repeat(64), "d".repeat(256), "u".repeat(256), cats, NOW);
    assert!(r.is_ok());
    let mut ctx = RegisterAgent {
        protocol_state: ledger(who(1)),
        agent_identity: None,
        agent_reputation: None,
        owner: who(2),
    };
    assert!(register_agent(&mut ctx, "abc".to_string(), String::new(), String::new(), vec![], NOW).is_ok());
}

#[test]
fn name_length_counts_bytes() {
    assert_eq!(text_len(&"héllo".to_string()), 6);
    let ps = ledger(who(1));
    // two characters, four bytes
    let mut ctx = RegisterAgent {
        protocol_state: ps,
        agent_identity: None,
        agent_reputation: None,
        owner: who(2),
    };
    assert!(register_agent(&mut ctx, "éé".to_string(), String::new(), String::new(), vec![], NOW).is_ok());
    assert_eq!(register_err(ps, &"é".repeat(33), "", "", vec![]), ErrorCode::NameTooLong);
}

#[test]
fn register_refuses_full_counter_and_taken_slot() {
    let mut ps = ledger(who(1));
    ps.agent_count = u64::MAX;
    assert_eq!(register_err(ps, "Bot", "", "", vec![]), ErrorCode::TooManyAgents);
    let (ps2, agent, _) = register(ledger(who(1)), who(2), "Bot");
    let mut ctx = RegisterAgent {
        protocol_state: ps2,
        agent_identity: Some(agent),
        agent_reputation: None,
        owner: who(2),
    };
    let r = register_agent(&mut ctx, "Bot".to_string(), String::new(), String::new(), vec![], NOW);
    assert_eq!(r.unwrap_err(), ErrorCode::RecordExists);
    assert_eq!(ctx.protocol_state.agent_count, 1);
}

#[test]
fn update_fee_example() {
    let ps = ledger(who(1));
    let mut ctx = UpdateAuthority { protocol_state: ps, authority: who(1) };
    assert_eq!(update_fee(&mut ctx, 10001), Err(ErrorCode::InvalidFee));
    assert_eq!(ctx.protocol_state.platform_fee_bps, 250);
    let mut other = UpdateAuthority { protocol_state: ps, authority: who(9) };
    assert_eq!(update_fee(&mut other, 500), Err(ErrorCode::Unauthorized));
    assert_eq!(other.protocol_state.platform_fee_bps, 250);
    assert_eq!(update_fee(&mut ctx, 500), Ok(()));
    assert_eq!(ctx.protocol_state.platform_fee_bps, 500);
}

#[test]
fn update_authority_hands_over_in_one_step() {
    let ps = ledger(who(1));
    let mut stranger = UpdateAuthority { protocol_state: ps, authority: who(5) };
    assert_eq!(update_authority(&mut stranger, who(5)), Err(ErrorCode::Unauthorized));
    assert_eq!(stranger.protocol_state.authority, who(1));
    let mut ctx = UpdateAuthority { protocol_state: ps, authority: who(1) };
    assert_eq!(update_authority(&mut ctx, who(6)), Ok(()));
    assert_eq!(ctx.protocol_state.authority, who(6));
    assert_eq!(ctx.protocol_state.fee_vault, who(1));
    assert_eq!(update_fee(&mut ctx, 100), Err(ErrorCode::Unauthorized));
}

#[test]
fn update_agent_replaces_only_given_fields() {
    let (_, agent, _) = register(ledger(who(1)), who(2), "Bot");
    let mut ctx = UpdateAgent { agent_identity: agent, owner: who(2) };
    update_agent(&mut ctx, None, Some("helps".to_string()), None, NOW + 5).unwrap();
    assert_eq!(ctx.agent_identity.name, "Bot");
    assert_eq!(ctx.agent_identity.description, "helps");
    assert_eq!(ctx.agent_identity.agent_uri, "ipfs://x");
    assert_eq!(ctx.agent_identity.updated_at, NOW + 5);
    assert_eq!(ctx.agent_identity.registered_at, NOW);
    update_agent(&mut ctx, Some("Bot2".to_string()), None, Some("ipfs://y".to_string()), NOW + 6)
        .unwrap();
    assert_eq!(ctx.agent_identity.name, "Bot2");
    assert_eq!(ctx.agent_identity.description, "helps");
    assert_eq!(ctx.agent_identity.agent_uri, "ipfs://y");
}

#[test]
fn update_agent_errors_change_nothing() {
    let (_, agent, _) = register(ledger(who(1)), who(2), "Bot");
    let mut ctx = UpdateAgent { agent_identity: agent.clone(), owner: who(2) };
    let long_uri = Some("u".repeat(257));
    assert_eq!(
        update_agent(&mut ctx, Some("Good".to_string()), None, long_uri, NOW + 1),
        Err(ErrorCode::UriTooLong)
    );
    assert_eq!(ctx.agent_identity, agent);
    assert_eq!(update_agent(&mut ctx, Some("ab".to_string()), None, None, NOW), Err(ErrorCode::NameTooShort));
    assert_eq!(update_agent(&mut ctx, Some("n".repeat(65)), None, None, NOW), Err(ErrorCode::NameTooLong));
    assert_eq!(
        update_agent(&mut ctx, None, Some("d".repeat(257)), None, NOW),
        Err(ErrorCode::DescriptionTooLong)
    );
    let mut stranger = UpdateAgent { agent_identity: agent.clone(), owner: who(3) };
    assert_eq!(update_agent(&mut stranger, None, None, None, NOW), Err(ErrorCode::Unauthorized));
    assert_eq!(ctx.agent_identity, agent);
}

#[test]
fn deactivate_and_reactivate() {
    let (_, agent, _) = register(ledger(who(1)), who(2), "Bot");
    let mut stranger = UpdateAgent { agent_identity: agent.clone(), owner: who(3) };
    assert_eq!(deactivate_agent(&mut stranger, NOW), Err(ErrorCode::Unauthorized));
    assert!(stranger.agent_identity.active);
    let mut ctx = UpdateAgent { agent_identity: agent, owner: who(2) };
    assert_eq!(reactivate_agent(&mut ctx, NOW + 1), Err(ErrorCode::AgentAlreadyActive));
    assert_eq!(ctx.agent_identity.updated_at, NOW);
    assert_eq!(deactivate_agent(&mut ctx, NOW + 2), Ok(()));
    assert!(!ctx.agent_identity.active);
    assert_eq!(ctx.agent_identity.updated_at, NOW + 2);
    assert_eq!(reactivate_agent(&mut ctx, NOW + 3), Ok(()));
    assert!(ctx.agent_identity.active);
    assert_eq!(ctx.agent_identity.updated_at, NOW + 3);
}

#[test]
fn close_agent_rules() {
    let (_, agent, mut rep) = register(ledger(who(1)), who(2), "Bot");
    let mut ctx = CloseAgent {
        agent_identity: Some(agent.clone()),
        agent_reputation: Some(rep),
        owner: who(2),
    };
    assert_eq!(close_agent(&mut ctx, NOW), Err(ErrorCode::AgentStillActive));
    assert!(ctx.agent_identity.is_some() && ctx.agent_reputation.is_some());

    let mut inactive = agent.clone();
    inactive.active = false;
    rep.last_rated_at = NOW - 7 * 86400;
    let mut ctx = CloseAgent {
        agent_identity: Some(inactive.clone()),
        agent_reputation: Some(rep),
        owner: who(2),
    };
    assert_eq!(close_agent(&mut ctx, NOW), Err(ErrorCode::RecentActivity));
    assert!(ctx.agent_identity.is_some() && ctx.agent_reputation.is_some());

    let mut stranger = CloseAgent {
        agent_identity: Some(inactive.clone()),
        agent_reputation: Some(rep),
        owner: who(3),
    };
    assert_eq!(close_agent(&mut stranger, NOW + 10), Err(ErrorCode::Unauthorized));

    assert_eq!(close_agent(&mut ctx, NOW + 1), Ok(()));
    assert!(ctx.agent_identity.is_none() && ctx.agent_reputation.is_none());
}

#[test]
fn close_agent_never_rated_and_mismatched() {
    let (_, mut agent, rep) = register(ledger(who(1)), who(2), "Bot");
    agent.active = false;
    let mut other_rep = rep;
    other_rep.agent_id = 7;
    let mut bad = CloseAgent {
        agent_identity: Some(agent.clone()),
        agent_reputation: Some(other_rep),
        owner: who(2),
    };
    assert_eq!(close_agent(&mut bad, NOW), Err(ErrorCode::InvalidAgent));
    let mut missing = CloseAgent { agent_identity: None, agent_reputation: Some(rep), owner: who(2) };
    assert_eq!(close_agent(&mut missing, NOW), Err(ErrorCode::InvalidAgent));
    let mut ctx = CloseAgent { agent_identity: Some(agent), agent_reputation: Some(rep), owner: who(2) };
    assert_eq!(close_agent(&mut ctx, NOW), Ok(()));
}

#[test]
fn cooldown_holds_for_an_hour_of_clock_time() {
    let mut ctx = feedback_ctx(who(3));
    submit_feedback(&mut ctx, 0, 4, [0; 32], 10, NOW, NOW).unwrap();
    ctx.feedback = None;
    let before = ctx.clone();
    let r = submit_feedback(&mut ctx, 0, 4, [0; 32], 10, NOW + 3599, NOW + 3599);
    assert_eq!(r, Err(ErrorCode::FeedbackTooFrequent));
    assert_eq!(ctx.agent_reputation, before.agent_reputation);
    assert_eq!(ctx.rater_state, before.rater_state);
    let r = submit_feedback(&mut ctx, 0, 2, [0; 32], 10, NOW + 3600, NOW + 3600);
    assert!(r.is_ok());
    let rep = ctx.agent_reputation;
    assert_eq!(rep.total_ratings, 2);
    assert_eq!(rep.rating_sum, 6);
    assert_eq!(rep.unique_raters, 1);
    assert_eq!(rep.rating_distribution, [0, 1, 0, 1, 0]);
    assert_eq!(ctx.rater_state.unwrap().feedback_count, 2);
    assert_eq!(ctx.rater_state.unwrap().last_feedback_at, NOW + 3600);
}

#[test]
fn cooldown_uses_clock_not_submitted_timestamp() {
    let mut ctx = feedback_ctx(who(3));
    submit_feedback(&mut ctx, 0, 4, [0; 32], 10, NOW - 100, NOW).unwrap();
    ctx.feedback = None;
    // an old timestamp does not shorten the wait
    let r = submit_feedback(&mut ctx, 0, 4, [0; 32], 10, NOW - 50, NOW + 10);
    assert_eq!(r, Err(ErrorCode::FeedbackTooFrequent));
}

#[test]
fn unique_raters_counts_each_rater_once() {
    let mut ctx = feedback_ctx(who(3));
    let mut states: Vec<Option<RaterState>> = vec![None, None];
    let raters = [3u8, 4, 3, 4, 3];
    let mut now = NOW;
    for r in raters {
        let slot = if r == 3 { 0 } else { 1 };
        ctx.rater = who(r);
        ctx.rater_state = states[slot];
        ctx.feedback = None;
        submit_feedback(&mut ctx, 0, 3, [1; 32], 5, now, now).unwrap();
        states[slot] = ctx.rater_state;
        now += 3600;
    }
    let rep = ctx.agent_reputation;
    assert_eq!(rep.unique_raters, 2);
    assert_eq!(rep.total_ratings, 5);
    assert_eq!(rep.rating_sum, 15);
    assert_eq!(rep.total_volume, 25);
    assert_eq!(rep.rating_distribution, [0, 0, 5, 0, 0]);
    assert_eq!(ctx.protocol_state.total_transactions, 5);
    assert_eq!(states[0].unwrap().feedback_count, 3);
    assert_eq!(states[1].unwrap().feedback_count, 2);
}

#[test]
fn distribution_tracks_each_rating() {
    let mut ctx = feedback_ctx(who(3));
    let mut now = NOW;
    for rating in 1u8..=5 {
        ctx.feedback = None;
        submit_feedback(&mut ctx, 0, rating, [0; 32], 1, now, now).unwrap();
        now += 3600;
    }
    let rep = ctx.agent_reputation;
    assert_eq!(rep.rating_distribution, [1, 1, 1, 1, 1]);
    assert_eq!(rep.total_ratings, 5);
    assert_eq!(rep.rating_sum, 15);
    assert_eq!(rep.unique_raters, 1);
}

#[test]
fn owner_cannot_rate_own_agent() {
    let mut ctx = feedback_ctx(who(2));
    let before = ctx.clone();
    assert_eq!(submit_feedback(&mut ctx, 0, 5, [0; 32], 100, NOW, NOW), Err(ErrorCode::SelfRating));
    // a future timestamp or a spent cooldown does not change the answer
    assert_eq!(
        submit_feedback(&mut ctx, 0, 5, [0; 32], 100, NOW + 999, NOW),
        Err(ErrorCode::SelfRating)
    );
    assert_eq!(ctx.agent_reputation, before.agent_reputation);
    assert!(ctx.rater_state.is_none() && ctx.feedback.is_none());
}

#[test]
fn feedback_argument_errors() {
    let mut ctx = feedback_ctx(who(3));
    assert_eq!(submit_feedback(&mut ctx, 0, 0, [0; 32], 1, NOW, NOW), Err(ErrorCode::InvalidRating));
    assert_eq!(submit_feedback(&mut ctx, 0, 6, [0; 32], 1, NOW, NOW), Err(ErrorCode::InvalidRating));
    assert_eq!(submit_feedback(&mut ctx, 0, 3, [0; 32], 0, NOW, NOW), Err(ErrorCode::InvalidAmount));
    assert_eq!(submit_feedback(&mut ctx, 0, 3, [0; 32], 1, 0, NOW), Err(ErrorCode::InvalidTimestamp));
    assert_eq!(submit_feedback(&mut ctx, 0, 3, [0; 32], 1, NOW + 1, NOW), Err(ErrorCode::FutureTimestamp));
    assert_eq!(
        submit_feedback(&mut ctx, 0, 3, [0; 32], 1, NOW - 86401, NOW),
        Err(ErrorCode::TimestampTooOld)
    );
    assert!(submit_feedback(&mut ctx, 0, 3, [0; 32], 1, NOW - 86400, NOW).is_ok());
}

#[test]
fn feedback_on_inactive_or_wrong_agent() {
    let mut ctx = feedback_ctx(who(3));
    assert_eq!(submit_feedback(&mut ctx, 1, 3, [0; 32], 1, NOW, NOW), Err(ErrorCode::InvalidAgent));
    ctx.agent_identity.active = false;
    assert_eq!(submit_feedback(&mut ctx, 0, 3, [0; 32], 1, NOW, NOW), Err(ErrorCode::InvalidAgent));
}

#[test]
fn duplicate_feedback_key_is_refused() {
    let mut ctx = feedback_ctx(who(3));
    submit_feedback(&mut ctx, 0, 3, [0; 32], 1, NOW, NOW).unwrap();
    // same rater, same timestamp, after the cooldown: the record exists
    let before = ctx.clone();
    let r = submit_feedback(&mut ctx, 0, 3, [0; 32], 1, NOW, NOW + 3600);
    assert_eq!(r, Err(ErrorCode::RecordExists));
    assert_eq!(ctx.agent_reputation, before.agent_reputation);
    assert_eq!(ctx.rater_state, before.rater_state);
}

#[test]
fn overflow_on_ledger_volume_changes_nothing() {
    let mut ctx = feedback_ctx(who(3));
    ctx.protocol_state.total_volume = u64::MAX - 50;
    let before = ctx.clone();
    let r = submit_feedback(&mut ctx, 0, 5, [0; 32], 100, NOW, NOW);
    assert_eq!(r, Err(ErrorCode::ArithmeticOverflow));
    assert_eq!(ctx.protocol_state, before.protocol_state);
    assert_eq!(ctx.agent_reputation, before.agent_reputation);
    assert_eq!(ctx.rater_state, before.rater_state);
    assert_eq!(ctx.feedback, before.feedback);
}

#[test]
fn overflow_on_agent_volume_changes_nothing() {
    let mut ctx = feedback_ctx(who(3));
    ctx.agent_reputation.total_volume = u64::MAX;
    let before = ctx.clone();
    assert_eq!(submit_feedback(&mut ctx, 0, 5, [0; 32], 1, NOW, NOW), Err(ErrorCode::ArithmeticOverflow));
    assert_eq!(ctx.agent_reputation, before.agent_reputation);
    assert_eq!(ctx.protocol_state, before.protocol_state);
    assert!(ctx.rater_state.is_none());
    let mut ctx = feedback_ctx(who(3));
    ctx.protocol_state.total_volume = u64::MAX - 100;
    assert!(submit_feedback(&mut ctx, 0, 5, [0; 32], 100, NOW, NOW).is_ok());
    assert_eq!(ctx.protocol_state.total_volume, u64::MAX);
}

#[test]
fn error_messages() {
    assert_eq!(ErrorCode::InvalidFee.message(), "Invalid fee: must be <= 10000 bps");
    assert_eq!(ErrorCode::SelfRating.message(), "Cannot rate your own agent");
}
