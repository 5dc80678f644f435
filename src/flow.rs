//! The request flows of the service, each a state machine: the caller
//! performs the actions that a step returns and feeds back what came of
//! them as the next event.
use vstd::prelude::*;
use crate::decimal::{i32_literal, parse_i32};
use crate::error::{is_server_error, spec_local_error, to_local_error, LocalError, RecordType, StoreFailure};
use crate::ledger::{purchase, purchase_spec, row_view, NewOrder, Purchased};
use crate::params::{get_id_from_params, id_param, lookup, QueryParams};
use crate::product::{apply_fields, apply_update, new_product_spec, parse_new_product, FieldValue, Product};
use crate::stats::{retry_once, FollowUp, Notification, RetryStep, StatsOp};

verus! {

/// The user that a purchase is booked to when the request names none.
pub const ANONYMOUS_USER: i32 = 1;

/// A purchase as the request asks for it.
#[derive(PartialEq, Eq, Structural, Clone, Copy, Debug)]
pub struct PurchaseRequest {
    pub product_id: i32,
    pub quantity: i32,
    pub user_id: i32,
}

/// An integer parameter that is present and well formed.
pub open spec fn opt_i32_param(ps: Seq<(Seq<char>, Seq<char>)>, name: Seq<char>) -> Option<i32> {
    match lookup(ps, name) {
        Some(v) => i32_literal(v),
        None => None,
    }
}

/// The product identifier is required; the quantity defaults to 1 and the
/// user to the anonymous user when absent or malformed.
pub open spec fn purchase_request_spec(ps: Seq<(Seq<char>, Seq<char>)>) -> Result<PurchaseRequest, LocalError> {
    match id_param(ps, "id"@) {
        Err(e) => Err(e),
        Ok(id) => Ok(
            PurchaseRequest {
                product_id: id,
                quantity: match opt_i32_param(ps, "count"@) {
                    Some(c) => c,
                    None => 1,
                },
                user_id: match opt_i32_param(ps, "user_id"@) {
                    Some(u) => u,
                    None => ANONYMOUS_USER,
                },
            },
        ),
    }
}

fn opt_i32(params: &QueryParams, name: &str) -> (r: Option<i32>)
    ensures
        r == opt_i32_param(params@, name@),
{
    match params.get(name) {
        Some(v) => parse_i32(v.as_str()),
        None => None,
    }
}

/// Reads the parameters of a purchase request.
pub fn parse_purchase_request(params: &QueryParams) -> (r: Result<PurchaseRequest, LocalError>)
    ensures
        r == purchase_request_spec(params@),
{
    let id = get_id_from_params(params, "id");
    match id {
        Err(e) => Err(e),
        Ok(id) => {
            let quantity = match opt_i32(params, "count") {
                Some(c) => c,
                None => 1,
            };
            let user_id = match opt_i32(params, "user_id") {
                Some(u) => u,
                None => ANONYMOUS_USER,
            };
            Ok(PurchaseRequest { product_id: id, quantity, user_id })
        },
    }
}

/// The answer to a request.
pub enum Reply {
    Product(Product),
    Purchase(Purchased),
    Created(i32),
    Empty,
    Error(LocalError),
}

pub open spec fn reply_status(r: Reply) -> u16 {
    match r {
        Reply::Error(e) => if is_server_error(e) {
            500u16
        } else {
            400u16
        },
        _ => 200u16,
    }
}

impl Reply {
    /// The HTTP-equivalent status: 200 on success, else the error's status.
    pub fn status_code(&self) -> (r: u16)
        ensures
            r == reply_status(*self),
    {
        match self {
            Reply::Error(e) => e.status_code(),
            _ => 200,
        }
    }
}

/// The answer of the user-statistics service to a request to record an
/// event: empty when it was recorded (within the retry-once policy),
/// `OperationFailed` when it was not.
pub fn recording_reply(recorded: bool) -> (r: Reply)
    ensures
        r == (if recorded {
            Reply::Empty
        } else {
            Reply::Error(LocalError::OperationFailed)
        }),
{
    if recorded {
        Reply::Empty
    } else {
        Reply::Error(LocalError::OperationFailed)
    }
}

/// What the caller is asked to do.
pub enum Action {
    /// Open a ledger transaction and read the product row under its lock.
    LockProduct(i32),
    /// Read the product row, without a lock.
    ReadProduct(i32),
    /// Insert a new product row.
    InsertProduct(Product),
    /// Insert the order, write the decremented product, and commit.
    WritePurchase(Purchased),
    /// Write the product row and commit.
    WriteProduct(Product),
    /// Delete the product row.
    DeleteProduct(i32),
    /// Roll back the open ledger transaction.
    Rollback,
    /// Read the cached snapshot of a product.
    CacheGet(i32),
    /// Store a product snapshot in the cache, overwriting.
    CachePut(Product),
    /// Remove a product's cache entry.
    CacheDelete(i32),
    /// Answer the request.
    Reply(Reply),
    /// Start detached work; the flow does not wait for it.
    FollowUp(FollowUp),
}

/// What came of the last action, or the request that starts a flow.
pub enum Event {
    Request { params: QueryParams, body: Option<Vec<(String, FieldValue)>> },
    /// The product row that was read (none when absent), and the time of
    /// the read in milliseconds since the Unix epoch.
    Row { product: Option<Product>, now: i64 },
    /// The ledger write or delete was committed.
    Written,
    /// A product row was inserted under this identifier.
    Inserted(i32),
    StoreFailed(StoreFailure),
    /// The cached snapshot, if any.
    CacheEntry(Option<Product>),
    CacheDone,
    CacheFailed,
}

/// The next state and the actions to perform.
pub struct Step<S> {
    pub state: S,
    pub actions: Vec<Action>,
}

pub open spec fn is_error_reply(a: Action, e: LocalError) -> bool {
    a == Action::Reply(Reply::Error(e))
}

// ---------------------------------------------------------------------------
// Purchase
// ---------------------------------------------------------------------------

/// A purchase: Start, then Validated (the request is read and the product
/// row is being locked), then Checked (the order and the decrement are
/// being written), then Done. Rejected and Failed end it early.
pub enum PurchaseState {
    Start,
    Validated { request: PurchaseRequest },
    Checked { request: PurchaseRequest, purchased: Purchased },
    Done,
    Rejected { error: LocalError },
    Failed { error: LocalError },
}

/// The follow-up of a purchase: record it, then tell the user-statistics
/// service and the order service.
pub open spec fn purchase_follow_up(f: FollowUp, user_id: i32, order: NewOrder) -> bool {
    &&& f.record == StatsOp::Purchased { user_id, product_id: order.product_id }
    &&& f.notifications@.len() == 2
    &&& f.notifications@[0] == Notification::ProductPurchased {
        user_id,
        product_id: order.product_id,
    }
    &&& f.notifications@[1] == Notification::OrderCreated {
        user_id,
        product_id: order.product_id,
        total_price_cents: order.total_price_cents,
    }
}

/// One step of a purchase. Events that do not fit the state leave it as it
/// is and ask for nothing.
pub open spec fn purchase_transition(s: PurchaseState, e: Event, r: Step<PurchaseState>) -> bool {
    match (s, e) {
        (PurchaseState::Start, Event::Request { params, .. }) => match purchase_request_spec(
            params@,
        ) {
            Ok(req) => r.state == PurchaseState::Validated { request: req } && r.actions@.len() == 1
                && r.actions@[0] == Action::LockProduct(req.product_id),
            Err(err) => r.state == PurchaseState::Rejected { error: err } && r.actions@.len() == 1
                && is_error_reply(r.actions@[0], err),
        },
        (PurchaseState::Validated { request }, Event::Row { product, now }) => match purchase_spec(
            row_view(product),
            request.quantity,
            request.user_id,
            now,
        ) {
            Ok(b) => r.actions@.len() == 1 && (r.state matches PurchaseState::Checked {
                request: rq,
                purchased,
            } && rq == request && purchased@ == b) && (r.actions@[0] matches Action::WritePurchase(
                w,
            ) && w@ == b),
            Err(err) => r.state == PurchaseState::Rejected { error: err } && r.actions@.len() == 2
                && r.actions@[0] == Action::Rollback && is_error_reply(r.actions@[1], err),
        },
        (PurchaseState::Validated { .. }, Event::StoreFailed(f)) => {
            let err = spec_local_error(f, RecordType::Product);
            r.state == PurchaseState::Failed { error: err } && r.actions@.len() == 2
                && r.actions@[0] == Action::Rollback && is_error_reply(r.actions@[1], err)
        },
        (PurchaseState::Checked { .. }, Event::StoreFailed(f)) => {
            let err = spec_local_error(f, RecordType::Order);
            r.state == PurchaseState::Failed { error: err } && r.actions@.len() == 2
                && r.actions@[0] == Action::Rollback && is_error_reply(r.actions@[1], err)
        },
        (PurchaseState::Checked { request, purchased }, Event::Written) => {
            &&& r.state == PurchaseState::Done
            &&& r.actions@.len() == 2
            &&& r.actions@[0] matches Action::Reply(Reply::Purchase(b)) && b@ == purchased@
            &&& r.actions@[1] matches Action::FollowUp(f) && purchase_follow_up(
                f,
                request.user_id,
                purchased.order,
            )
        },
        (s, _) => r.state == s && r.actions@.len() == 0,
    }
}

pub fn purchase_step(s: PurchaseState, e: Event) -> (r: Step<PurchaseState>)
    ensures
        purchase_transition(s, e, r),
{
    match (s, e) {
        (PurchaseState::Start, Event::Request { params, .. }) => match parse_purchase_request(
            &params,
        ) {
            Ok(req) => Step {
                state: PurchaseState::Validated { request: req },
                actions: vec![Action::LockProduct(req.product_id)],
            },
            Err(err) => Step {
                state: PurchaseState::Rejected { error: err },
                actions: vec![Action::Reply(Reply::Error(err))],
            },
        },
        (PurchaseState::Validated { request }, Event::Row { product, now }) => {
            match purchase(product.as_ref(), request.quantity, request.user_id, now) {
                Ok(b) => {
                    let w = Purchased { product: b.product.duplicate(), order: b.order };
                    Step {
                        state: PurchaseState::Checked { request, purchased: b },
                        actions: vec![Action::WritePurchase(w)],
                    }
                },
                Err(err) => Step {
                    state: PurchaseState::Rejected { error: err },
                    actions: vec![Action::Rollback, Action::Reply(Reply::Error(err))],
                },
            }
        },
        (PurchaseState::Validated { .. }, Event::StoreFailed(f)) => {
            let err = to_local_error(f, RecordType::Product);
            Step {
                state: PurchaseState::Failed { error: err },
                actions: vec![Action::Rollback, Action::Reply(Reply::Error(err))],
            }
        },
        (PurchaseState::Checked { .. }, Event::StoreFailed(f)) => {
            let err = to_local_error(f, RecordType::Order);
            Step {
                state: PurchaseState::Failed { error: err },
                actions: vec![Action::Rollback, Action::Reply(Reply::Error(err))],
            }
        },
        (PurchaseState::Checked { request, purchased }, Event::Written) => {
            let order = purchased.order;
            let follow_up = FollowUp {
                record: StatsOp::Purchased { user_id: request.user_id, product_id: order.product_id },
                notifications: vec![
                    Notification::ProductPurchased {
                        user_id: request.user_id,
                        product_id: order.product_id,
                    },
                    Notification::OrderCreated {
                        user_id: request.user_id,
                        product_id: order.product_id,
                        total_price_cents: order.total_price_cents,
                    },
                ],
            };
            Step {
                state: PurchaseState::Done,
                actions: vec![Action::Reply(Reply::Purchase(purchased)), Action::FollowUp(follow_up)],
            }
        },
        (s, _) => Step { state: s, actions: Vec::new() },
    }
}

/// A purchase of a sold-out product writes nothing: the locked row is
/// released and the answer is `ItemNotAvailable`.
pub proof fn lemma_sold_out_purchase_writes_nothing(
    request: PurchaseRequest,
    p: Product,
    now: i64,
    r: Step<PurchaseState>,
)
    requires
        p.count == 0,
        request.quantity >= 1,
        purchase_transition(
            (PurchaseState::Validated { request }),
            (Event::Row { product: Some(p), now }),
            r,
        ),
    ensures
        r.state == (PurchaseState::Rejected { error: LocalError::ItemNotAvailable }),
        r.actions@.len() == 2,
        r.actions@[0] == Action::Rollback,
        r.actions@[1] == Action::Reply(Reply::Error(LocalError::ItemNotAvailable)),
{
}

/// Once a purchase has been written and answered, the flow is over: no
/// later event (a failed statistics call, say) changes or adds to the
/// answer.
pub proof fn lemma_purchase_answer_is_final(e: Event, r: Step<PurchaseState>)
    requires
        purchase_transition(PurchaseState::Done, e, r),
    ensures
        r.state == PurchaseState::Done,
        r.actions@.len() == 0,
{
}

// ---------------------------------------------------------------------------
// Read a product
// ---------------------------------------------------------------------------

/// A product read: the cache first, then the ledger. A read from the ledger
/// fills the cache and records the view.
pub enum ReadState {
    Start,
    Looking { id: i32, user_id: Option<i32> },
    Reading { id: i32, user_id: Option<i32> },
    Done,
    Rejected { error: LocalError },
}

/// The follow-up of a ledger read: record the view, then tell the
/// user-statistics service when the reader is known.
pub open spec fn view_follow_up(f: FollowUp, user_id: Option<i32>, id: i32) -> bool {
    &&& f.record == StatsOp::Viewed { user_id, product_id: id }
    &&& match user_id {
        Some(u) => f.notifications@.len() == 1 && f.notifications@[0]
            == Notification::ProductViewed { user_id: u, product_id: id },
        None => f.notifications@.len() == 0,
    }
}

pub open spec fn read_transition(s: ReadState, e: Event, r: Step<ReadState>) -> bool {
    match (s, e) {
        (ReadState::Start, Event::Request { params, .. }) => match id_param(params@, "id"@) {
            Ok(id) => r.state == ReadState::Looking {
                id,
                user_id: opt_i32_param(params@, "user_id"@),
            } && r.actions@.len() == 1 && r.actions@[0] == Action::CacheGet(id),
            Err(err) => r.state == ReadState::Rejected { error: err } && r.actions@.len() == 1
                && is_error_reply(r.actions@[0], err),
        },
        (ReadState::Looking { id, user_id }, Event::CacheEntry(entry)) => match entry {
            Some(p) => r.state == ReadState::Done && r.actions@.len() == 1 && (
            r.actions@[0] matches Action::Reply(Reply::Product(q)) && q@ == p@),
            None => r.state == ReadState::Reading { id, user_id } && r.actions@.len() == 1
                && r.actions@[0] == Action::ReadProduct(id),
        },
        (ReadState::Looking { id, user_id }, Event::CacheFailed) => r.state == ReadState::Reading {
            id,
            user_id,
        } && r.actions@.len() == 1 && r.actions@[0] == Action::ReadProduct(id),
        (ReadState::Reading { id, user_id }, Event::Row { product, .. }) => match product {
            Some(p) => {
                &&& r.state == ReadState::Done
                &&& r.actions@.len() == 3
                &&& r.actions@[0] matches Action::CachePut(c) && c@ == p@
                &&& r.actions@[1] matches Action::Reply(Reply::Product(q)) && q@ == p@
                &&& r.actions@[2] matches Action::FollowUp(f) && view_follow_up(f, user_id, id)
            },
            None => r.state == ReadState::Rejected { error: LocalError::IdNotFound }
                && r.actions@.len() == 1 && is_error_reply(r.actions@[0], LocalError::IdNotFound),
        },
        (ReadState::Reading { .. }, Event::StoreFailed(f)) => {
            let err = spec_local_error(f, RecordType::Product);
            r.state == ReadState::Rejected { error: err } && r.actions@.len() == 1
                && is_error_reply(r.actions@[0], err)
        },
        (s, _) => r.state == s && r.actions@.len() == 0,
    }
}

/// A read that misses the cache stores in the cache exactly the product
/// that it answers, so the next read, from the cache, answers the same.
pub proof fn lemma_read_caches_what_it_answers(
    id: i32,
    user_id: Option<i32>,
    p: Product,
    now: i64,
    r: Step<ReadState>,
)
    requires
        read_transition(
            (ReadState::Reading { id, user_id }),
            (Event::Row { product: Some(p), now }),
            r,
        ),
    ensures
        r.actions@[0] matches Action::CachePut(c) && r.actions@[1] matches Action::Reply(
            Reply::Product(q),
        ) && c@ == q@,
{
}

pub fn read_step(s: ReadState, e: Event) -> (r: Step<ReadState>)
    ensures
        read_transition(s, e, r),
{
    match (s, e) {
        (ReadState::Start, Event::Request { params, .. }) => match get_id_from_params(&params, "id") {
            Ok(id) => {
                let user_id = opt_i32(&params, "user_id");
                Step { state: ReadState::Looking { id, user_id }, actions: vec![Action::CacheGet(id)] }
            },
            Err(err) => Step {
                state: ReadState::Rejected { error: err },
                actions: vec![Action::Reply(Reply::Error(err))],
            },
        },
        (ReadState::Looking { id, user_id }, Event::CacheEntry(entry)) => match entry {
            Some(p) => Step {
                state: ReadState::Done,
                actions: vec![Action::Reply(Reply::Product(p))],
            },
            None => Step {
                state: ReadState::Reading { id, user_id },
                actions: vec![Action::ReadProduct(id)],
            },
        },
        (ReadState::Looking { id, user_id }, Event::CacheFailed) => Step {
            state: ReadState::Reading { id, user_id },
            actions: vec![Action::ReadProduct(id)],
        },
        (ReadState::Reading { id, user_id }, Event::Row { product, .. }) => match product {
            Some(p) => {
                let notifications = match user_id {
                    Some(u) => vec![Notification::ProductViewed { user_id: u, product_id: id }],
                    None => Vec::new(),
                };
                let follow_up = FollowUp {
                    record: StatsOp::Viewed { user_id, product_id: id },
                    notifications,
                };
                let c = p.duplicate();
                Step {
                    state: ReadState::Done,
                    actions: vec![
                        Action::CachePut(c),
                        Action::Reply(Reply::Product(p)),
                        Action::FollowUp(follow_up),
                    ],
                }
            },
            None => Step {
                state: ReadState::Rejected { error: LocalError::IdNotFound },
                actions: vec![Action::Reply(Reply::Error(LocalError::IdNotFound))],
            },
        },
        (ReadState::Reading { .. }, Event::StoreFailed(f)) => {
            let err = to_local_error(f, RecordType::Product);
            Step {
                state: ReadState::Rejected { error: err },
                actions: vec![Action::Reply(Reply::Error(err))],
            }
        },
        (s, _) => Step { state: s, actions: Vec::new() },
    }
}

// ---------------------------------------------------------------------------
// Update a product
// ---------------------------------------------------------------------------

/// A product update. The ledger's answer decides the reply; the cache is
/// then brought along on a best-effort basis: merge the update into the
/// cached snapshot, else delete the entry, and retry the delete once.
pub enum UpdateState {
    Start,
    Locked { id: i32, fields: Vec<(String, FieldValue)> },
    Writing { id: i32, fields: Vec<(String, FieldValue)>, product: Product },
    CacheMerging { id: i32, fields: Vec<(String, FieldValue)> },
    CacheWriting { id: i32 },
    CacheDeleting { id: i32, attempt: u8 },
    /// A deletion waits for the ledger to delete the row.
    Deleting { id: i32 },
    Done,
    Rejected { error: LocalError },
    Failed { error: LocalError },
}

/// The cache-deletion stage shared by updates and deletions: a failed
/// delete is tried once more, then given up.
pub open spec fn cache_delete_transition(id: i32, attempt: u8, e: Event, r: Step<UpdateState>) -> bool {
    match e {
        Event::CacheDone => r.state == UpdateState::Done && r.actions@.len() == 0,
        Event::CacheFailed => if attempt == 1 {
            r.state == UpdateState::CacheDeleting { id, attempt: 2 } && r.actions@.len() == 1
                && r.actions@[0] == Action::CacheDelete(id)
        } else {
            r.state == UpdateState::Done && r.actions@.len() == 0
        },
        _ => r.state == UpdateState::CacheDeleting { id, attempt } && r.actions@.len() == 0,
    }
}

pub open spec fn delete_entry(id: i32, r: Step<UpdateState>) -> bool {
    r.state == UpdateState::CacheDeleting { id, attempt: 1 } && r.actions@.len() == 1
        && r.actions@[0] == Action::CacheDelete(id)
}

pub open spec fn update_transition(s: UpdateState, e: Event, r: Step<UpdateState>) -> bool {
    match (s, e) {
        (UpdateState::Start, Event::Request { params, body }) => match id_param(params@, "id"@) {
            Err(err) => r.state == UpdateState::Rejected { error: err } && r.actions@.len() == 1
                && is_error_reply(r.actions@[0], err),
            Ok(id) => match body {
                None => r.state == UpdateState::Rejected { error: LocalError::WrongParameters }
                    && r.actions@.len() == 1 && is_error_reply(
                    r.actions@[0],
                    LocalError::WrongParameters,
                ),
                Some(fields) => r.state == UpdateState::Locked { id, fields } && r.actions@.len()
                    == 1 && r.actions@[0] == Action::LockProduct(id),
            },
        },
        (UpdateState::Locked { id, fields }, Event::Row { product, .. }) => match product {
            None => r.state == UpdateState::Rejected { error: LocalError::IdNotFound }
                && r.actions@.len() == 2 && r.actions@[0] == Action::Rollback && is_error_reply(
                r.actions@[1],
                LocalError::IdNotFound,
            ),
            Some(p) => match apply_fields(p@, fields@) {
                Ok(q) => r.actions@.len() == 1 && (r.state matches UpdateState::Writing {
                    id: i,
                    fields: fs,
                    product: w,
                } && i == id && fs == fields && w@ == q) && (r.actions@[0] matches Action::WriteProduct(
                    w,
                ) && w@ == q),
                Err(err) => r.state == UpdateState::Rejected { error: err } && r.actions@.len() == 2
                    && r.actions@[0] == Action::Rollback && is_error_reply(r.actions@[1], err),
            },
        },
        (UpdateState::Locked { .. }, Event::StoreFailed(f)) | (
            UpdateState::Writing { .. },
            Event::StoreFailed(f),
        ) => {
            let err = spec_local_error(f, RecordType::Product);
            r.state == UpdateState::Failed { error: err } && r.actions@.len() == 2
                && r.actions@[0] == Action::Rollback && is_error_reply(r.actions@[1], err)
        },
        (UpdateState::Writing { id, fields, product }, Event::Written) => {
            &&& r.state == UpdateState::CacheMerging { id, fields }
            &&& r.actions@.len() == 2
            &&& r.actions@[0] matches Action::Reply(Reply::Product(q)) && q@ == product@
            &&& r.actions@[1] == Action::CacheGet(id)
        },
        (UpdateState::CacheMerging { id, fields }, Event::CacheEntry(entry)) => match entry {
            None => r.state == UpdateState::Done && r.actions@.len() == 0,
            Some(c) => match apply_fields(c@, fields@) {
                Ok(m) => r.state == UpdateState::CacheWriting { id } && r.actions@.len() == 1 && (
                r.actions@[0] matches Action::CachePut(w) && w@ == m),
                Err(_) => delete_entry(id, r),
            },
        },
        (UpdateState::CacheMerging { id, .. }, Event::CacheFailed) => delete_entry(id, r),
        (UpdateState::CacheWriting { .. }, Event::CacheDone) => r.state == UpdateState::Done
            && r.actions@.len() == 0,
        (UpdateState::CacheWriting { id }, Event::CacheFailed) => delete_entry(id, r),
        (UpdateState::CacheDeleting { id, attempt }, e) => cache_delete_transition(id, attempt, e, r),
        (s, _) => r.state == s && r.actions@.len() == 0,
    }
}

fn cache_delete_step(id: i32, attempt: u8, e: Event) -> (r: Step<UpdateState>)
    ensures
        cache_delete_transition(id, attempt, e, r),
{
    match e {
        Event::CacheDone => Step { state: UpdateState::Done, actions: Vec::new() },
        Event::CacheFailed => match retry_once(attempt, false) {
            RetryStep::Retry => Step {
                state: UpdateState::CacheDeleting { id, attempt: 2 },
                actions: vec![Action::CacheDelete(id)],
            },
            RetryStep::Finish => Step { state: UpdateState::Done, actions: Vec::new() },
        },
        _ => Step { state: UpdateState::CacheDeleting { id, attempt }, actions: Vec::new() },
    }
}

fn start_cache_delete(id: i32) -> (r: Step<UpdateState>)
    ensures
        delete_entry(id, r),
{
    Step { state: UpdateState::CacheDeleting { id, attempt: 1 }, actions: vec![Action::CacheDelete(id)] }
}

pub fn update_step(s: UpdateState, e: Event) -> (r: Step<UpdateState>)
    ensures
        update_transition(s, e, r),
{
    match (s, e) {
        (UpdateState::Start, Event::Request { params, body }) => match get_id_from_params(
            &params,
            "id",
        ) {
            Err(err) => Step {
                state: UpdateState::Rejected { error: err },
                actions: vec![Action::Reply(Reply::Error(err))],
            },
            Ok(id) => match body {
                None => Step {
                    state: UpdateState::Rejected { error: LocalError::WrongParameters },
                    actions: vec![Action::Reply(Reply::Error(LocalError::WrongParameters))],
                },
                Some(fields) => Step {
                    state: UpdateState::Locked { id, fields },
                    actions: vec![Action::LockProduct(id)],
                },
            },
        },
        (UpdateState::Locked { id, fields }, Event::Row { product, .. }) => match product {
            None => Step {
                state: UpdateState::Rejected { error: LocalError::IdNotFound },
                actions: vec![Action::Rollback, Action::Reply(Reply::Error(LocalError::IdNotFound))],
            },
            Some(p) => match apply_update(&p, &fields) {
                Ok(q) => {
                    let w = q.duplicate();
                    Step {
                        state: UpdateState::Writing { id, fields, product: q },
                        actions: vec![Action::WriteProduct(w)],
                    }
                },
                Err(err) => Step {
                    state: UpdateState::Rejected { error: err },
                    actions: vec![Action::Rollback, Action::Reply(Reply::Error(err))],
                },
            },
        },
        (UpdateState::Locked { .. }, Event::StoreFailed(f)) | (
            UpdateState::Writing { .. },
            Event::StoreFailed(f),
        ) => {
            let err = to_local_error(f, RecordType::Product);
            Step {
                state: UpdateState::Failed { error: err },
                actions: vec![Action::Rollback, Action::Reply(Reply::Error(err))],
            }
        },
        (UpdateState::Writing { id, fields, product }, Event::Written) => Step {
            state: UpdateState::CacheMerging { id, fields },
            actions: vec![Action::Reply(Reply::Product(product)), Action::CacheGet(id)],
        },
        (UpdateState::CacheMerging { id, fields }, Event::CacheEntry(entry)) => match entry {
            None => Step { state: UpdateState::Done, actions: Vec::new() },
            Some(c) => match apply_update(&c, &fields) {
                Ok(m) => Step {
                    state: UpdateState::CacheWriting { id },
                    actions: vec![Action::CachePut(m)],
                },
                Err(_) => start_cache_delete(id),
            },
        },
        (UpdateState::CacheMerging { id, .. }, Event::CacheFailed) => start_cache_delete(id),
        (UpdateState::CacheWriting { .. }, Event::CacheDone) => Step {
            state: UpdateState::Done,
            actions: Vec::new(),
        },
        (UpdateState::CacheWriting { id }, Event::CacheFailed) => start_cache_delete(id),
        (UpdateState::CacheDeleting { id, attempt }, e) => cache_delete_step(id, attempt, e),
        (s, _) => Step { state: s, actions: Vec::new() },
    }
}

// ---------------------------------------------------------------------------
// Delete a product
// ---------------------------------------------------------------------------

/// A product deletion: the ledger row, then the cache entry (retried once).
/// The cache stage uses the same states as an update's.
pub open spec fn delete_transition(s: UpdateState, e: Event, r: Step<UpdateState>) -> bool {
    match (s, e) {
        (UpdateState::Start, Event::Request { params, .. }) => match id_param(params@, "id"@) {
            Err(err) => r.state == UpdateState::Rejected { error: err } && r.actions@.len() == 1
                && is_error_reply(r.actions@[0], err),
            Ok(id) => r.state == UpdateState::Deleting { id } && r.actions@.len() == 1
                && r.actions@[0] == Action::DeleteProduct(id),
        },
        (UpdateState::Deleting { id }, Event::Written) => r.state == UpdateState::CacheDeleting {
            id,
            attempt: 1,
        } && r.actions@.len() == 2 && r.actions@[0] == Action::Reply(Reply::Empty)
            && r.actions@[1] == Action::CacheDelete(id),
        (UpdateState::Deleting { .. }, Event::StoreFailed(f)) => {
            let err = spec_local_error(f, RecordType::Product);
            r.state == UpdateState::Failed { error: err } && r.actions@.len() == 1
                && is_error_reply(r.actions@[0], err)
        },
        (UpdateState::CacheDeleting { id, attempt }, e) => cache_delete_transition(id, attempt, e, r),
        (s, _) => r.state == s && r.actions@.len() == 0,
    }
}

/// One step of a deletion.
pub fn delete_step(s: UpdateState, e: Event) -> (r: Step<UpdateState>)
    ensures
        delete_transition(s, e, r),
{
    match (s, e) {
        (UpdateState::Start, Event::Request { params, .. }) => match get_id_from_params(&params, "id") {
            Err(err) => Step {
                state: UpdateState::Rejected { error: err },
                actions: vec![Action::Reply(Reply::Error(err))],
            },
            Ok(id) => Step {
                state: UpdateState::Deleting { id },
                actions: vec![Action::DeleteProduct(id)],
            },
        },
        (UpdateState::Deleting { id }, Event::Written) => Step {
            state: UpdateState::CacheDeleting { id, attempt: 1 },
            actions: vec![Action::Reply(Reply::Empty), Action::CacheDelete(id)],
        },
        (UpdateState::Deleting { .. }, Event::StoreFailed(f)) => {
            let err = to_local_error(f, RecordType::Product);
            Step {
                state: UpdateState::Failed { error: err },
                actions: vec![Action::Reply(Reply::Error(err))],
            }
        },
        (UpdateState::CacheDeleting { id, attempt }, e) => cache_delete_step(id, attempt, e),
        (s, _) => Step { state: s, actions: Vec::new() },
    }
}

// ---------------------------------------------------------------------------
// Create a product
// ---------------------------------------------------------------------------

pub enum CreateState {
    Start,
    Inserting,
    Done,
    Rejected { error: LocalError },
    Failed { error: LocalError },
}

pub open spec fn create_transition(s: CreateState, e: Event, r: Step<CreateState>) -> bool {
    match (s, e) {
        (CreateState::Start, Event::Request { body, .. }) => match body {
            None => r.state == CreateState::Rejected { error: LocalError::WrongParameters }
                && r.actions@.len() == 1 && is_error_reply(
                r.actions@[0],
                LocalError::WrongParameters,
            ),
            Some(fields) => match new_product_spec(fields@) {
                Ok(p) => r.state == CreateState::Inserting && r.actions@.len() == 1 && (
                r.actions@[0] matches Action::InsertProduct(q) && q@ == p),
                Err(err) => r.state == CreateState::Rejected { error: err } && r.actions@.len() == 1
                    && is_error_reply(r.actions@[0], err),
            },
        },
        (CreateState::Inserting, Event::Inserted(id)) => r.state == CreateState::Done
            && r.actions@.len() == 1 && r.actions@[0] == Action::Reply(Reply::Created(id)),
        (CreateState::Inserting, Event::StoreFailed(f)) => {
            let err = spec_local_error(f, RecordType::Product);
            r.state == CreateState::Failed { error: err } && r.actions@.len() == 1
                && is_error_reply(r.actions@[0], err)
        },
        (s, _) => r.state == s && r.actions@.len() == 0,
    }
}

pub fn create_step(s: CreateState, e: Event) -> (r: Step<CreateState>)
    ensures
        create_transition(s, e, r),
{
    match (s, e) {
        (CreateState::Start, Event::Request { body, .. }) => match body {
            None => Step {
                state: CreateState::Rejected { error: LocalError::WrongParameters },
                actions: vec![Action::Reply(Reply::Error(LocalError::WrongParameters))],
            },
            Some(fields) => match parse_new_product(&fields) {
                Ok(p) => Step { state: CreateState::Inserting, actions: vec![Action::InsertProduct(p)] },
                Err(err) => Step {
                    state: CreateState::Rejected { error: err },
                    actions: vec![Action::Reply(Reply::Error(err))],
                },
            },
        },
        (CreateState::Inserting, Event::Inserted(id)) => Step {
            state: CreateState::Done,
            actions: vec![Action::Reply(Reply::Created(id))],
        },
        (CreateState::Inserting, Event::StoreFailed(f)) => {
            let err = to_local_error(f, RecordType::Product);
            Step {
                state: CreateState::Failed { error: err },
                actions: vec![Action::Reply(Reply::Error(err))],
            }
        },
        (s, _) => Step { state: s, actions: Vec::new() },
    }
}

} // verus!
