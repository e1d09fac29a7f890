//! The protocol ledger's governance and the agent registry's lifecycle.

use vstd::prelude::*;
use crate::laws::counter_step;
use crate::state::{
    byte_len, text_len, AgentIdentity, AgentRegistered, AgentReputation, ErrorCode, Identity,
    ProtocolState, CLOSE_QUIET_PERIOD, MAX_CATEGORIES, MAX_CATEGORY_LEN, MAX_DESC_LEN,
    MAX_FEE_BPS, MAX_NAME_LEN, MAX_URI_LEN, MIN_NAME_LEN,
};

verus! {

/// The records the one-time setup of the ledger touches.
#[derive(Clone, Debug)]
pub struct Initialize {
    /// The singleton ledger, once it exists.
    pub protocol_state: Option<ProtocolState>,
    /// The verified caller, who becomes the authority.
    pub authority: Identity,
}

/// The records a registration touches.
#[derive(Clone, Debug)]
pub struct RegisterAgent {
    pub protocol_state: ProtocolState,
    /// The identity record at the next agent id, if one exists.
    pub agent_identity: Option<AgentIdentity>,
    /// The reputation record at the next agent id, if one exists.
    pub agent_reputation: Option<AgentReputation>,
    /// The verified caller, who becomes the owner.
    pub owner: Identity,
}

/// The records a governance operation touches.
#[derive(Clone, Debug)]
pub struct UpdateAuthority {
    pub protocol_state: ProtocolState,
    /// The verified caller.
    pub authority: Identity,
}

/// The records an owner's update of an agent touches.
#[derive(Clone, Debug)]
pub struct UpdateAgent {
    pub agent_identity: AgentIdentity,
    /// The verified caller.
    pub owner: Identity,
}

/// The records closing an agent touches; both are gone after a close.
#[derive(Clone, Debug)]
pub struct CloseAgent {
    pub agent_identity: Option<AgentIdentity>,
    pub agent_reputation: Option<AgentReputation>,
    /// The verified caller.
    pub owner: Identity,
}

/// The first rule that setting up the ledger breaks, if any.
pub open spec fn initialize_error(ctx: Initialize, platform_fee_bps: u16) -> Option<ErrorCode> {
    if platform_fee_bps > MAX_FEE_BPS {
        Some(ErrorCode::InvalidFee)
    } else if ctx.protocol_state is Some {
        Some(ErrorCode::RecordExists)
    } else {
        None
    }
}

/// Creates the ledger with the caller as authority and fee vault, and zeroed counters.
pub fn initialize(ctx: &mut Initialize, platform_fee_bps: u16) -> (r: Result<(), ErrorCode>)
    ensures
        r is Ok <==> initialize_error(*old(ctx), platform_fee_bps) is None,
        r matches Err(e) ==> initialize_error(*old(ctx), platform_fee_bps) == Some(e)
            && *final(ctx) == *old(ctx),
        r is Ok ==> final(ctx).authority == old(ctx).authority && final(ctx).protocol_state
            == Some((ProtocolState {
                authority: old(ctx).authority,
                agent_count: 0,
                platform_fee_bps,
                fee_vault: old(ctx).authority,
                total_transactions: 0,
                total_volume: 0,
            })),
        r is Ok ==> final(ctx).protocol_state.unwrap().wf(),
{
    if platform_fee_bps > MAX_FEE_BPS {
        return Err(ErrorCode::InvalidFee);
    }
    if ctx.protocol_state.is_some() {
        return Err(ErrorCode::RecordExists);
    }
    ctx.protocol_state = Some(
        ProtocolState {
            authority: ctx.authority,
            agent_count: 0,
            platform_fee_bps,
            fee_vault: ctx.authority,
            total_transactions: 0,
            total_volume: 0,
        },
    );
    Ok(())
}

/// Some category is longer than allowed.
pub open spec fn has_long_category(categories: Seq<String>) -> bool {
    exists|i: int| 0 <= i < categories.len() && byte_len(#[trigger] categories[i]@) > MAX_CATEGORY_LEN
}

/// The first rule that a registration breaks, if any.
pub open spec fn register_error(
    ctx: RegisterAgent,
    name: Seq<char>,
    description: Seq<char>,
    agent_uri: Seq<char>,
    categories: Seq<String>,
) -> Option<ErrorCode> {
    if byte_len(name) < MIN_NAME_LEN {
        Some(ErrorCode::NameTooShort)
    } else if byte_len(name) > MAX_NAME_LEN {
        Some(ErrorCode::NameTooLong)
    } else if byte_len(description) > MAX_DESC_LEN {
        Some(ErrorCode::DescriptionTooLong)
    } else if byte_len(agent_uri) > MAX_URI_LEN {
        Some(ErrorCode::UriTooLong)
    } else if categories.len() > MAX_CATEGORIES {
        Some(ErrorCode::TooManyCategories)
    } else if has_long_category(categories) {
        Some(ErrorCode::CategoryTooLong)
    } else if ctx.protocol_state.agent_count == u64::MAX {
        Some(ErrorCode::TooManyAgents)
    } else if ctx.agent_identity is Some || ctx.agent_reputation is Some {
        Some(ErrorCode::RecordExists)
    } else {
        None
    }
}

/// Checks every category's length; true when one is too long.
fn any_long_category(categories: &Vec<String>) -> (r: bool)
    ensures
        r == has_long_category(categories@),
{
    let mut i: usize = 0;
    while i < categories.len()
        invariant
            0 <= i <= categories@.len(),
            forall|j: int| 0 <= j < i ==> byte_len(#[trigger] categories@[j]@) <= MAX_CATEGORY_LEN,
        decreases categories@.len() - i,
    {
        if text_len(&categories[i]) > MAX_CATEGORY_LEN {
            return true;
        }
        i = i + 1;
    }
    false
}

/// Registers an agent owned by the caller under the next agent id.
///
/// On success the id is the ledger's `agent_count` before the call, the
/// counter grows by one, and an active identity record (timestamps `now`)
/// and a zeroed reputation record are created together. Categories are
/// checked but not kept. A refused registration changes nothing.
pub fn register_agent(
    ctx: &mut RegisterAgent,
    name: String,
    description: String,
    agent_uri: String,
    categories: Vec<String>,
    now: i64,
) -> (r: Result<AgentRegistered, ErrorCode>)
    ensures
        r is Ok <==> register_error(*old(ctx), name@, description@, agent_uri@, categories@) is None,
        r matches Err(e) ==> register_error(
            *old(ctx),
            name@,
            description@,
            agent_uri@,
            categories@,
        ) == Some(e) && *final(ctx) == *old(ctx),
        r matches Ok(ev) ==> {
            let id = old(ctx).protocol_state.agent_count;
            &&& ev.agent_id == id
            &&& ev.owner == old(ctx).owner
            &&& ev.name@ == name@
            &&& final(ctx).owner == old(ctx).owner
            &&& final(ctx).protocol_state == (ProtocolState {
                agent_count: (id + 1) as u64,
                ..old(ctx).protocol_state
            })
            &&& final(ctx).agent_identity matches Some(a) && a.agent_id == id && a.owner == old(
                ctx,
            ).owner && a.agent_wallet == old(ctx).owner && a.name@ == name@ && a.description@
                == description@ && a.agent_uri@ == agent_uri@ && a.active && a.registered_at == now
                && a.updated_at == now && a.wf()
            &&& final(ctx).agent_reputation matches Some(rep) && rep.agent_id == id
                && rep.total_ratings == 0 && rep.rating_sum == 0 && rep.total_volume == 0
                && rep.unique_raters == 0 && rep.rating_distribution@ == seq![0u64, 0u64, 0u64, 0u64, 0u64]
                && rep.last_rated_at == 0 && rep.wf()
        },
        r matches Ok(ev) ==> counter_step(
            old(ctx).protocol_state,
            final(ctx).protocol_state,
            Some(ev.agent_id),
        ),
        r is Err ==> counter_step(old(ctx).protocol_state, final(ctx).protocol_state, None),
{
    let name_len = text_len(&name);
    if name_len < MIN_NAME_LEN {
        return Err(ErrorCode::NameTooShort);
    }
    if name_len > MAX_NAME_LEN {
        return Err(ErrorCode::NameTooLong);
    }
    if text_len(&description) > MAX_DESC_LEN {
        return Err(ErrorCode::DescriptionTooLong);
    }
    if text_len(&agent_uri) > MAX_URI_LEN {
        return Err(ErrorCode::UriTooLong);
    }
    if categories.len() > MAX_CATEGORIES {
        return Err(ErrorCode::TooManyCategories);
    }
    if any_long_category(&categories) {
        return Err(ErrorCode::CategoryTooLong);
    }
    if ctx.protocol_state.agent_count == u64::MAX {
        return Err(ErrorCode::TooManyAgents);
    }
    if ctx.agent_identity.is_some() || ctx.agent_reputation.is_some() {
        return Err(ErrorCode::RecordExists);
    }
    let agent_id = ctx.protocol_state.agent_count;
    ctx.protocol_state.agent_count = agent_id + 1;
    let event_name = name.clone();
    ctx.agent_identity = Some(
        AgentIdentity {
            agent_id,
            owner: ctx.owner,
            agent_wallet: ctx.owner,
            name,
            description,
            agent_uri,
            active: true,
            registered_at: now,
            updated_at: now,
        },
    );
    ctx.agent_reputation = Some(AgentReputation::new(agent_id));
    Ok(AgentRegistered { agent_id, owner: ctx.owner, name: event_name })
}

/// The first rule that an update of an agent's profile breaks, if any.
pub open spec fn update_error(
    ctx: UpdateAgent,
    name: Option<String>,
    description: Option<String>,
    agent_uri: Option<String>,
) -> Option<ErrorCode> {
    if ctx.owner != ctx.agent_identity.owner {
        Some(ErrorCode::Unauthorized)
    } else if name matches Some(n) && byte_len(n@) < MIN_NAME_LEN {
        Some(ErrorCode::NameTooShort)
    } else if name matches Some(n) && byte_len(n@) > MAX_NAME_LEN {
        Some(ErrorCode::NameTooLong)
    } else if description matches Some(d) && byte_len(d@) > MAX_DESC_LEN {
        Some(ErrorCode::DescriptionTooLong)
    } else if agent_uri matches Some(u) && byte_len(u@) > MAX_URI_LEN {
        Some(ErrorCode::UriTooLong)
    } else {
        None
    }
}

/// The text a partial update leaves in a field.
pub open spec fn updated_text(old_text: String, given: Option<String>) -> Seq<char> {
    match given {
        Some(t) => t@,
        None => old_text@,
    }
}

/// Replaces each given profile field of the caller's agent; the others stay.
///
/// Only the owner may update, and every given field must have an accepted
/// length. `updated_at` becomes `now`. A refused update changes nothing.
pub fn update_agent(
    ctx: &mut UpdateAgent,
    name: Option<String>,
    description: Option<String>,
    agent_uri: Option<String>,
    now: i64,
) -> (r: Result<(), ErrorCode>)
    ensures
        r is Ok <==> update_error(*old(ctx), name, description, agent_uri) is None,
        r matches Err(e) ==> update_error(*old(ctx), name, description, agent_uri) == Some(e)
            && *final(ctx) == *old(ctx),
        r is Ok ==> {
            let a = old(ctx).agent_identity;
            let b = final(ctx).agent_identity;
            &&& final(ctx).owner == old(ctx).owner
            &&& b.name@ == updated_text(a.name, name)
            &&& b.description@ == updated_text(a.description, description)
            &&& b.agent_uri@ == updated_text(a.agent_uri, agent_uri)
            &&& b.updated_at == now
            &&& b.agent_id == a.agent_id && b.owner == a.owner && b.agent_wallet == a.agent_wallet
            &&& b.active == a.active && b.registered_at == a.registered_at
        },
        old(ctx).agent_identity.wf() ==> final(ctx).agent_identity.wf(),
{
    if ctx.owner != ctx.agent_identity.owner {
        return Err(ErrorCode::Unauthorized);
    }
    if let Some(n) = &name {
        let n_len = text_len(n);
        if n_len < MIN_NAME_LEN {
            return Err(ErrorCode::NameTooShort);
        }
        if n_len > MAX_NAME_LEN {
            return Err(ErrorCode::NameTooLong);
        }
    }
    if let Some(d) = &description {
        if text_len(d) > MAX_DESC_LEN {
            return Err(ErrorCode::DescriptionTooLong);
        }
    }
    if let Some(u) = &agent_uri {
        if text_len(u) > MAX_URI_LEN {
            return Err(ErrorCode::UriTooLong);
        }
    }
    if let Some(n) = name {
        ctx.agent_identity.name = n;
    }
    if let Some(d) = description {
        ctx.agent_identity.description = d;
    }
    if let Some(u) = agent_uri {
        ctx.agent_identity.agent_uri = u;
    }
    ctx.agent_identity.updated_at = now;
    Ok(())
}

/// The agent record after its activity flag is set to `active` at time `now`.
pub open spec fn with_activity(a: AgentIdentity, active: bool, now: i64) -> AgentIdentity {
    AgentIdentity { active, updated_at: now, ..a }
}

/// Marks the caller's agent inactive; only the owner may.
pub fn deactivate_agent(ctx: &mut UpdateAgent, now: i64) -> (r: Result<(), ErrorCode>)
    ensures
        r is Ok <==> old(ctx).owner == old(ctx).agent_identity.owner,
        r is Err ==> r == Err::<(), ErrorCode>(ErrorCode::Unauthorized) && *final(ctx) == *old(ctx),
        r is Ok ==> final(ctx).owner == old(ctx).owner && final(ctx).agent_identity
            == with_activity(old(ctx).agent_identity, false, now),
{
    if ctx.owner != ctx.agent_identity.owner {
        return Err(ErrorCode::Unauthorized);
    }
    ctx.agent_identity.active = false;
    ctx.agent_identity.updated_at = now;
    Ok(())
}

/// The first rule that reactivating an agent breaks, if any.
pub open spec fn reactivate_error(ctx: UpdateAgent) -> Option<ErrorCode> {
    if ctx.owner != ctx.agent_identity.owner {
        Some(ErrorCode::Unauthorized)
    } else if ctx.agent_identity.active {
        Some(ErrorCode::AgentAlreadyActive)
    } else {
        None
    }
}

/// Marks the caller's inactive agent active again; an active one is refused.
pub fn reactivate_agent(ctx: &mut UpdateAgent, now: i64) -> (r: Result<(), ErrorCode>)
    ensures
        r is Ok <==> reactivate_error(*old(ctx)) is None,
        r matches Err(e) ==> reactivate_error(*old(ctx)) == Some(e) && *final(ctx) == *old(ctx),
        r is Ok ==> final(ctx).owner == old(ctx).owner && final(ctx).agent_identity
            == with_activity(old(ctx).agent_identity, true, now),
{
    if ctx.owner != ctx.agent_identity.owner {
        return Err(ErrorCode::Unauthorized);
    }
    if ctx.agent_identity.active {
        return Err(ErrorCode::AgentAlreadyActive);
    }
    ctx.agent_identity.active = true;
    ctx.agent_identity.updated_at = now;
    Ok(())
}

/// The agent was rated within the quiet period before `now`.
pub open spec fn recently_rated(last_rated_at: i64, now: i64) -> bool {
    last_rated_at != 0 && last_rated_at >= now - CLOSE_QUIET_PERIOD
}

/// The first rule that closing an agent breaks, if any.
pub open spec fn close_error(ctx: CloseAgent, now: i64) -> Option<ErrorCode> {
    match (ctx.agent_identity, ctx.agent_reputation) {
        (Some(a), Some(rep)) => {
            if rep.agent_id != a.agent_id {
                Some(ErrorCode::InvalidAgent)
            } else if ctx.owner != a.owner {
                Some(ErrorCode::Unauthorized)
            } else if a.active {
                Some(ErrorCode::AgentStillActive)
            } else if recently_rated(rep.last_rated_at, now) {
                Some(ErrorCode::RecentActivity)
            } else {
                None
            }
        },
        _ => Some(ErrorCode::InvalidAgent),
    }
}

/// Removes the caller's inactive, quiet agent: its identity and reputation
/// records go together. A refused close changes nothing.
pub fn close_agent(ctx: &mut CloseAgent, now: i64) -> (r: Result<(), ErrorCode>)
    ensures
        r is Ok <==> close_error(*old(ctx), now) is None,
        r matches Err(e) ==> close_error(*old(ctx), now) == Some(e) && *final(ctx) == *old(ctx),
        r is Ok ==> final(ctx).agent_identity is None && final(ctx).agent_reputation is None
            && final(ctx).owner == old(ctx).owner,
{
    let (active, owner_ok, last_rated_at) = match (&ctx.agent_identity, &ctx.agent_reputation) {
        (Some(a), Some(rep)) => {
            if rep.agent_id != a.agent_id {
                return Err(ErrorCode::InvalidAgent);
            }
            (a.active, ctx.owner == a.owner, rep.last_rated_at)
        },
        _ => {
            return Err(ErrorCode::InvalidAgent);
        },
    };
    if !owner_ok {
        return Err(ErrorCode::Unauthorized);
    }
    if active {
        return Err(ErrorCode::AgentStillActive);
    }
    if last_rated_at != 0 && (last_rated_at as i128) >= (now as i128) - (CLOSE_QUIET_PERIOD as i128) {
        return Err(ErrorCode::RecentActivity);
    }
    ctx.agent_identity = None;
    ctx.agent_reputation = None;
    Ok(())
}

/// Hands the authority to `new_authority` in one step; only the current authority may.
pub fn update_authority(ctx: &mut UpdateAuthority, new_authority: Identity) -> (r: Result<
    (),
    ErrorCode,
>)
    ensures
        r is Ok <==> old(ctx).authority == old(ctx).protocol_state.authority,
        r is Err ==> r == Err::<(), ErrorCode>(ErrorCode::Unauthorized) && *final(ctx) == *old(ctx),
        r is Ok ==> final(ctx).authority == old(ctx).authority && final(ctx).protocol_state == (
        ProtocolState { authority: new_authority, ..old(ctx).protocol_state }),
        counter_step(old(ctx).protocol_state, final(ctx).protocol_state, None),
{
    if ctx.authority != ctx.protocol_state.authority {
        return Err(ErrorCode::Unauthorized);
    }
    ctx.protocol_state.authority = new_authority;
    Ok(())
}

/// The first rule that a fee change breaks, if any.
pub open spec fn fee_error(ctx: UpdateAuthority, new_fee_bps: u16) -> Option<ErrorCode> {
    if ctx.authority != ctx.protocol_state.authority {
        Some(ErrorCode::Unauthorized)
    } else if new_fee_bps > MAX_FEE_BPS {
        Some(ErrorCode::InvalidFee)
    } else {
        None
    }
}

/// Sets the platform fee; only the authority may, and only within range.
pub fn update_fee(ctx: &mut UpdateAuthority, new_fee_bps: u16) -> (r: Result<(), ErrorCode>)
    ensures
        r is Ok <==> fee_error(*old(ctx), new_fee_bps) is None,
        r matches Err(e) ==> fee_error(*old(ctx), new_fee_bps) == Some(e) && *final(ctx) == *old(ctx),
        r is Ok ==> final(ctx).authority == old(ctx).authority && final(ctx).protocol_state == (
        ProtocolState { platform_fee_bps: new_fee_bps, ..old(ctx).protocol_state }),
        old(ctx).protocol_state.wf() ==> final(ctx).protocol_state.wf(),
        counter_step(old(ctx).protocol_state, final(ctx).protocol_state, None),
{
    if ctx.authority != ctx.protocol_state.authority {
        return Err(ErrorCode::Unauthorized);
    }
    if new_fee_bps > MAX_FEE_BPS {
        return Err(ErrorCode::InvalidFee);
    }
    ctx.protocol_state.platform_fee_bps = new_fee_bps;
    Ok(())
}

} // verus!
