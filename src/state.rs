//! Record schemas, notifications and the error taxonomy.

use vstd::prelude::*;

verus! {

/// Longest accepted agent name, in bytes.
pub const MAX_NAME_LEN: usize = 64;
/// Longest accepted description, in bytes.
pub const MAX_DESC_LEN: usize = 256;
/// Longest accepted agent URI, in bytes.
pub const MAX_URI_LEN: usize = 256;
/// Most categories a registration may list.
pub const MAX_CATEGORIES: usize = 5;
/// Longest accepted category, in bytes.
pub const MAX_CATEGORY_LEN: usize = 32;
/// Shortest accepted agent name, in bytes.
pub const MIN_NAME_LEN: usize = 3;
/// Seconds of host clock that must pass between two feedbacks of one rater on one agent.
pub const MIN_FEEDBACK_INTERVAL: i64 = 3600;
/// Oldest accepted feedback timestamp, in seconds before the host clock.
pub const MAX_FEEDBACK_AGE: i64 = 86400;
/// Seconds without feedback before an inactive agent may be closed.
pub const CLOSE_QUIET_PERIOD: i64 = 604800;
/// Largest platform fee, in basis points.
pub const MAX_FEE_BPS: u16 = 10000;

/// An identity verified by the host's signature layer (a 32-byte public key).
#[derive(Clone, Copy, Debug)]
pub struct Identity {
    pub bytes: [u8; 32],
}

impl PartialEq for Identity {
    fn eq(&self, o: &Identity) -> (r: bool) {
        let mut i: usize = 0;
        while i < 32
            invariant
                0 <= i <= 32,
                self.bytes@.len() == 32,
                o.bytes@.len() == 32,
                forall|j: int| 0 <= j < i ==> self.bytes@[j] == o.bytes@[j],
            decreases 32 - i,
        {
            if self.bytes[i] != o.bytes[i] {
                assert(self.bytes@[i as int] != o.bytes@[i as int]);
                return false;
            }
            i = i + 1;
        }
        proof {
            broadcast use vstd::array::axiom_array_ext_equal;

            assert(self.bytes =~= o.bytes);
        }
        true
    }
}

impl vstd::std_specs::cmp::PartialEqSpecImpl for Identity {
    open spec fn obeys_eq_spec() -> bool {
        true
    }

    open spec fn eq_spec(&self, o: &Identity) -> bool {
        *self == *o
    }
}

impl Eq for Identity {
}

/// The singleton protocol ledger: configuration and running totals.
#[derive(Clone, Copy, Debug, PartialEq, Eq)]
pub struct ProtocolState {
    pub authority: Identity,
    pub agent_count: u64,
    pub platform_fee_bps: u16,
    pub fee_vault: Identity,
    pub total_transactions: u64,
    pub total_volume: u64,
}

impl ProtocolState {
    /// The fee stays within range.
    pub open spec fn wf(&self) -> bool {
        self.platform_fee_bps <= MAX_FEE_BPS
    }
}

/// The registry record of one agent.
#[derive(Clone, Debug, PartialEq, Eq)]
pub struct AgentIdentity {
    pub agent_id: u64,
    pub owner: Identity,
    pub agent_wallet: Identity,
    pub name: String,
    pub description: String,
    pub agent_uri: String,
    pub active: bool,
    pub registered_at: i64,
    pub updated_at: i64,
}

impl AgentIdentity {
    /// The profile fields have accepted lengths.
    pub open spec fn wf(&self) -> bool {
        &&& MIN_NAME_LEN <= byte_len(self.name@) <= MAX_NAME_LEN
        &&& byte_len(self.description@) <= MAX_DESC_LEN
        &&& byte_len(self.agent_uri@) <= MAX_URI_LEN
    }
}

/// Number of bytes of the UTF-8 encoding of `s`, as `str::len` reports it.
pub open spec fn byte_len(s: Seq<char>) -> usize {
    vstd::utf8::encode_utf8(s).len() as usize
}

/// Bytes in `s`, as `str::len` counts them.
pub fn text_len(s: &String) -> (r: usize)
    ensures
        r == byte_len(s@),
{
    s.as_str().len()
}

/// Accumulated rating statistics of one agent.
#[derive(Clone, Copy, Debug, PartialEq, Eq)]
pub struct AgentReputation {
    pub agent_id: u64,
    pub total_ratings: u64,
    pub rating_sum: u64,
    pub total_volume: u64,
    pub unique_raters: u64,
    pub rating_distribution: [u64; 5],
    pub last_rated_at: i64,
}

/// Sum of the five counters of a rating distribution.
pub open spec fn distribution_count(d: Seq<u64>) -> int {
    d[0] + d[1] + d[2] + d[3] + d[4]
}

/// Sum of rating times count over a rating distribution (index `i` counts rating `i + 1`).
pub open spec fn distribution_weight(d: Seq<u64>) -> int {
    d[0] + 2 * d[1] + 3 * d[2] + 4 * d[3] + 5 * d[4]
}

impl AgentReputation {
    /// The aggregates agree with the distribution: it counts every rating,
    /// and the rating sum is the weighted sum of its counters.
    pub open spec fn wf(&self) -> bool {
        &&& self.rating_distribution@.len() == 5
        &&& distribution_count(self.rating_distribution@) == self.total_ratings
        &&& distribution_weight(self.rating_distribution@) == self.rating_sum
        &&& self.unique_raters <= self.total_ratings
    }

    /// A zeroed reputation record for `agent_id`.
    pub fn new(agent_id: u64) -> (r: AgentReputation)
        ensures
            r.agent_id == agent_id,
            r.total_ratings == 0,
            r.rating_sum == 0,
            r.total_volume == 0,
            r.unique_raters == 0,
            r.rating_distribution@ == seq![0u64, 0u64, 0u64, 0u64, 0u64],
            r.last_rated_at == 0,
            r.wf(),
    {
        let r = AgentReputation {
            agent_id,
            total_ratings: 0,
            rating_sum: 0,
            total_volume: 0,
            unique_raters: 0,
            rating_distribution: [0u64, 0u64, 0u64, 0u64, 0u64],
            last_rated_at: 0,
        };
        assert(r.rating_distribution@ =~= seq![0u64, 0u64, 0u64, 0u64, 0u64]);
        r
    }
}

/// The cooldown record of one rater on one agent.
#[derive(Clone, Copy, Debug, PartialEq, Eq)]
pub struct RaterState {
    pub rater: Identity,
    pub agent_id: u64,
    pub last_feedback_at: i64,
    pub feedback_count: u64,
}

/// One accepted feedback; never changed once written.
#[derive(Clone, Copy, Debug, PartialEq, Eq)]
pub struct Feedback {
    pub agent_id: u64,
    pub rater: Identity,
    pub rating: u8,
    pub comment_hash: [u8; 32],
    pub amount_paid: u64,
    pub created_at: i64,
}

/// Notification of a new registration.
#[derive(Clone, Debug, PartialEq, Eq)]
pub struct AgentRegistered {
    pub agent_id: u64,
    pub owner: Identity,
    pub name: String,
}

/// Notification of an accepted feedback.
#[derive(Clone, Copy, Debug, PartialEq, Eq)]
pub struct FeedbackSubmitted {
    pub agent_id: u64,
    pub rater: Identity,
    pub rating: u8,
    pub amount_paid: u64,
}

/// Why an operation was refused. A refused operation writes nothing.
#[derive(Clone, Copy, Debug, PartialEq, Eq, Structural)]
pub enum ErrorCode {
    InvalidFee,
    NameTooLong,
    DescriptionTooLong,
    UriTooLong,
    TooManyCategories,
    CategoryTooLong,
    InvalidRating,
    InvalidAmount,
    InvalidTimestamp,
    FutureTimestamp,
    TimestampTooOld,
    ArithmeticOverflow,
    InvalidAgent,
    TooManyAgents,
    AgentStillActive,
    RecentActivity,
    AgentAlreadyActive,
    SelfRating,
    NameTooShort,
    FeedbackTooFrequent,
    /// The caller is not the owner or authority that the record names.
    Unauthorized,
    /// The record to be created exists already.
    RecordExists,
}

impl ErrorCode {
    /// A human-readable message for the error.
    pub fn message(&self) -> (r: String) {
        let s = match self {
            ErrorCode::InvalidFee => "Invalid fee: must be <= 10000 bps",
            ErrorCode::NameTooLong => "Name too long: max 64 chars",
            ErrorCode::DescriptionTooLong => "Description too long: max 256 chars",
            ErrorCode::UriTooLong => "URI too long: max 256 chars",
            ErrorCode::TooManyCategories => "Too many categories: max 5",
            ErrorCode::CategoryTooLong => "Category too long: max 32 chars",
            ErrorCode::InvalidRating => "Invalid rating: must be 1-5",
            ErrorCode::InvalidAmount => "Invalid amount: must be > 0",
            ErrorCode::InvalidTimestamp => "Invalid timestamp: must be > 0",
            ErrorCode::FutureTimestamp => "Timestamp cannot be in the future",
            ErrorCode::TimestampTooOld => "Timestamp too old: max 24h",
            ErrorCode::ArithmeticOverflow => "Arithmetic overflow",
            ErrorCode::InvalidAgent => "Invalid agent: agent not found or inactive",
            ErrorCode::TooManyAgents => "Too many agents: registration limit reached",
            ErrorCode::AgentStillActive => "Agent still active: cannot close",
            ErrorCode::RecentActivity => "Recent activity: cannot close within 7 days of last feedback",
            ErrorCode::AgentAlreadyActive => "Agent is already active",
            ErrorCode::SelfRating => "Cannot rate your own agent",
            ErrorCode::NameTooShort => "Name too short: min 3 chars",
            ErrorCode::FeedbackTooFrequent => "Feedback too frequent: wait at least 1 hour between reviews for the same agent",
            ErrorCode::Unauthorized => "Caller does not hold the required role",
            ErrorCode::RecordExists => "Record already exists",
        };
        String::from_str(s)
    }
}

} // verus!
