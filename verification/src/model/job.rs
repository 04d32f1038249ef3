//! Queued jobs and their retry schedule.

use vstd::prelude::*;

verus! {

#[verifier::external_type_specification]
#[verifier::external_body]
pub struct ExJsonValue(serde_json::Value);

#[derive(Debug, Clone, Copy, PartialEq, Eq, Structural)]
pub enum JobType {
    Inbound,
    Outbound,
    Delivery,
}

/// A queued job; times are in milliseconds since the Unix epoch.
#[derive(Debug, Clone)]
pub struct Model {
    pub internal: i64,
    pub job_type: JobType,
    pub actor: String,
    pub target: Option<String>,
    pub activity: String,
    pub payload: Option<serde_json::Value>,
    pub published: i64,
    pub not_before: i64,
    pub attempt: i16,
    pub error: Option<String>,
}

/// A job to be inserted (its internal id is assigned on insertion).
#[derive(Debug, Clone)]
pub struct ActiveModel {
    pub job_type: JobType,
    pub actor: String,
    pub target: Option<String>,
    pub activity: String,
    pub payload: Option<serde_json::Value>,
    pub published: i64,
    pub not_before: i64,
    pub attempt: i16,
    pub error: Option<String>,
}

/// How long to wait before the next try after `attempt` tries, in seconds.
pub open spec fn retry_delay_secs(attempt: int) -> int {
    if attempt == 0 {
        10
    } else if attempt == 1 {
        60
    } else if attempt == 2 {
        300
    } else if attempt == 3 {
        1200
    } else if attempt == 4 {
        3600
    } else if attempt == 5 {
        43200
    } else {
        86400
    }
}

/// The longest wait between tries, in milliseconds.
pub const MAX_RETRY_DELAY_MS: i64 = 86_400_000;

impl Model {
    /// When to try again: `now` plus a delay that grows with the attempts made
    /// (10 s, 1 min, 5 min, 20 min, 1 h, 12 h, then a day).
    pub fn next_attempt(&self, now: i64) -> (r: i64)
        requires
            now <= i64::MAX - MAX_RETRY_DELAY_MS,
        ensures
            r == now + 1000 * retry_delay_secs(self.attempt as int),
    {
        let secs: i64 = match self.attempt {
            0 => 10,
            1 => 60,
            2 => 5 * 60,
            3 => 20 * 60,
            4 => 60 * 60,
            5 => 12 * 60 * 60,
            _ => 24 * 60 * 60,
        };
        now + secs * 1000
    }

    /// The same job queued again after a failure: one more attempt, the error
    /// recorded, not before the next attempt time.
    pub fn repeat(self, error: Option<String>, now: i64) -> (r: ActiveModel)
        requires
            self.attempt < i16::MAX,
            now <= i64::MAX - MAX_RETRY_DELAY_MS,
        ensures
            r.job_type == self.job_type,
            r.actor == self.actor,
            r.target == self.target,
            r.activity == self.activity,
            r.payload == self.payload,
            r.published == self.published,
            r.not_before == now + 1000 * retry_delay_secs(self.attempt as int),
            r.attempt == self.attempt + 1,
            r.error == error,
    {
        let not_before = self.next_attempt(now);
        ActiveModel {
            job_type: self.job_type,
            not_before,
            actor: self.actor,
            target: self.target,
            payload: self.payload,
            activity: self.activity,
            published: self.published,
            attempt: self.attempt + 1,
            error,
        }
    }
}

/// Law: the wait before the next try never shrinks as attempts accumulate,
/// and never exceeds a day.
pub proof fn lemma_retry_delay_monotone(a: int, b: int)
    requires
        0 <= a <= b,
    ensures
        retry_delay_secs(a) <= retry_delay_secs(b),
        10 <= retry_delay_secs(b) <= 86400,
{
}

} // verus!
