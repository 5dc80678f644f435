use vstd::prelude::*;

verus! {

/// An event for the usage-statistics store.
#[derive(PartialEq, Eq, Structural, Clone, Copy, Debug)]
pub enum StatsOp {
    /// A product was viewed, by a known user or anonymously.
    Viewed { user_id: Option<i32>, product_id: i32 },
    Purchased { user_id: i32, product_id: i32 },
    LoggedIn { user_id: i32 },
    AccountCreated { user_id: i32 },
}

/// A one-way call to a sibling service; its outcome is discarded.
#[derive(PartialEq, Eq, Structural, Clone, Copy, Debug)]
pub enum Notification {
    ProductViewed { user_id: i32, product_id: i32 },
    ProductPurchased { user_id: i32, product_id: i32 },
    OrderCreated { user_id: i32, product_id: i32, total_price_cents: i64 },
}

/// Work that runs detached from the response: record `record` with the
/// retry-once policy, then send each notification once.
pub struct FollowUp {
    pub record: StatsOp,
    pub notifications: Vec<Notification>,
}

/// What to do after an attempt of a best-effort call.
#[derive(PartialEq, Eq, Structural, Clone, Copy, Debug)]
pub enum RetryStep {
    /// Try the same call once more.
    Retry,
    /// Stop; a failure is logged and forgotten.
    Finish,
}

pub open spec fn retry_spec(attempt: u8, succeeded: bool) -> RetryStep {
    if !succeeded && attempt == 1 {
        RetryStep::Retry
    } else {
        RetryStep::Finish
    }
}

/// The retry-once policy of best-effort calls: after the first attempt
/// fails, try once more; after that, or after a success, stop.
/// `attempt` counts from 1.
pub fn retry_once(attempt: u8, succeeded: bool) -> (r: RetryStep)
    ensures
        r == retry_spec(attempt, succeeded),
{
    if !succeeded && attempt == 1 {
        RetryStep::Retry
    } else {
        RetryStep::Finish
    }
}

/// Under the retry-once policy a call is made at most twice.
pub proof fn lemma_at_most_two_attempts(succeeded: bool)
    ensures
        retry_spec(2, succeeded) == RetryStep::Finish,
{
}

/// The stages of an update-by-filter with create on miss.
#[derive(PartialEq, Eq, Structural, Clone, Copy, Debug)]
pub enum UpsertStage {
    /// The first update by filter.
    FirstUpdate,
    /// The update made again after the record was created.
    SecondUpdate,
}

/// What the statistics store is asked next.
#[derive(PartialEq, Eq, Structural, Clone, Copy, Debug)]
pub enum UpsertStep {
    /// Create the missing record, then run the update again.
    CreateAndUpdate,
    Finished,
}

/// Upsert by miss: when the first update matches no record, the record is
/// created once and the update made again; the second update's outcome is
/// final, whatever it matched.
pub fn upsert_next(stage: UpsertStage, matched: u64) -> (r: UpsertStep)
    ensures
        r == (if stage == UpsertStage::FirstUpdate && matched == 0 {
            UpsertStep::CreateAndUpdate
        } else {
            UpsertStep::Finished
        }),
{
    match stage {
        UpsertStage::FirstUpdate => if matched == 0 {
            UpsertStep::CreateAndUpdate
        } else {
            UpsertStep::Finished
        },
        UpsertStage::SecondUpdate => UpsertStep::Finished,
    }
}

} // verus!
