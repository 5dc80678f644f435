use std::collections::HashMap;

use product_manager::account::{
    check_account_fields, check_login, login_credentials, parse_order, user_event, StoredAccount,
};
use product_manager::context::{sibling_call, OrderManagerContext, UserManagerContext};
use product_manager::error::{LocalError, StoreFailure};
use product_manager::flow::{
    create_step, delete_step, parse_purchase_request, recording_reply, purchase_step, read_step, update_step, Action,
    CreateState, Event, PurchaseRequest, PurchaseState, ReadState, Reply, UpdateState, ANONYMOUS_USER,
};
use product_manager::ledger::{purchase, NewOrder};
use product_manager::params::get_params;
use product_manager::product::{apply_update, list_products, parse_new_product, FieldValue, Product};
use product_manager::stats::{retry_once, upsert_next, Notification, RetryStep, StatsOp, UpsertStage, UpsertStep};

fn product(id: i32, name: &str, price_cents: i64, count: i32) -> Product {
    Product {
        id,
        name: name.to_string(),
        image: None,
        category: "tools".to_string(),
        price_cents,
        count,
    }
}

fn text(k: &str, v: &str) -> (String, FieldValue) {
    (k.to_string(), FieldValue::Text(v.to_string()))
}

fn number(k: &str, v: &str) -> (String, FieldValue) {
    (k.to_string(), FieldValue::Number(v.to_string()))
}

fn request(query: &str, body: Option<Vec<(String, FieldValue)>>) -> Event {
    Event::Request { params: get_params(query), body }
}

fn same(a: &Product, b: &Product) -> bool {
    a.id == b.id
        && a.name == b.name
        && a.image == b.image
        && a.category == b.category
        && a.price_cents == b.price_cents
        && a.count == b.count
}

/// The stores as the tests see them: a ledger and a cache of products.
struct Stores {
    ledger: HashMap<i32, Product>,
    cache: HashMap<i32, Product>,
    cache_up: bool,
}

impl Stores {
    fn new() -> Stores {
        Stores { ledger: HashMap::new(), cache: HashMap::new(), cache_up: true }
    }

    fn cache_event(&self) -> Event {
        if self.cache_up {
            Event::CacheDone
        } else {
            Event::CacheFailed
        }
    }

    /// Performs the store actions of a step; returns the event they give,
    /// and collects the replies.
    fn perform(&mut self, actions: Vec<Action>, replies: &mut Vec<Reply>) -> Option<Event> {
        let mut next = None;
        for a in actions {
            match a {
                Action::LockProduct(id) | Action::ReadProduct(id) => {
                    let p = self.ledger.get(&id).map(|p| p.duplicate());
                    next = Some(Event::Row { product: p, now: 1_700_000_000_000 });
                }
                Action::WritePurchase(b) => {
                    self.ledger.insert(b.product.id, b.product);
                    next = Some(Event::Written);
                }
                Action::WriteProduct(p) => {
                    self.ledger.insert(p.id, p);
                    next = Some(Event::Written);
                }
                Action::InsertProduct(p) => {
                    let id = self.ledger.len() as i32 + 1;
                    let mut p = p;
                    p.id = id;
                    self.ledger.insert(id, p);
                    next = Some(Event::Inserted(id));
                }
                Action::DeleteProduct(id) => {
                    self.ledger.remove(&id);
                    next = Some(Event::Written);
                }
                Action::Rollback => {}
                Action::CacheGet(id) => {
                    next = Some(if self.cache_up {
                        Event::CacheEntry(self.cache.get(&id).map(|p| p.duplicate()))
                    } else {
                        Event::CacheFailed
                    });
                }
                Action::CachePut(p) => {
                    if self.cache_up {
                        self.cache.insert(p.id, p);
                    }
                    if next.is_none() {
                        next = Some(self.cache_event());
                    }
                }
                Action::CacheDelete(id) => {
                    if self.cache_up {
                        self.cache.remove(&id);
                    }
                    next = Some(self.cache_event());
                }
                Action::Reply(r) => replies.push(r),
                Action::FollowUp(_) => {}
            }
        }
        next
    }
}

fn run_read(stores: &mut Stores, query: &str) -> Vec<Reply> {
    let mut replies = Vec::new();
    let mut state = ReadState::Start;
    let mut event = Some(request(query, None));
    while let Some(e) = event {
        let step = read_step(state, e);
        state = step.state;
        if matches!(state, ReadState::Done | ReadState::Rejected { .. }) {
            // A populate of the cache is performed, its outcome not awaited.
            stores.perform(step.actions, &mut replies);
            break;
        }
        event = stores.perform(step.actions, &mut replies);
    }
    replies
}

fn run_update(stores: &mut Stores, query: &str, fields: Vec<(String, FieldValue)>) -> Vec<Reply> {
    let mut replies = Vec::new();
    let mut state = UpdateState::Start;
    let mut event = Some(request(query, Some(fields)));
    while let Some(e) = event {
        let step = update_step(state, e);
        state = step.state;
        event = stores.perform(step.actions, &mut replies);
    }
    replies
}

fn run_purchase(stores: &mut Stores, query: &str) -> (Vec<Reply>, Vec<Action>) {
    let mut replies = Vec::new();
    let mut follow_ups = Vec::new();
    let mut state = PurchaseState::Start;
    let mut event = Some(request(query, None));
    while let Some(e) = event {
        let step = purchase_step(state, e);
        state = step.state;
        let mut store_actions = Vec::new();
        for a in step.actions {
            match a {
                Action::FollowUp(f) => follow_ups.push(Action::FollowUp(f)),
                other => store_actions.push(other),
            }
        }
        event = stores.perform(store_actions, &mut replies);
    }
    (replies, follow_ups)
}

#[test]
fn update_applies_recognized_fields() {
    let p = product(1, "Widget", 999, 3);
    let fields = vec![text("name", "Gadget"), number("price", "4.456"), number("count", "8"), text("color", "red")];
    let q = apply_update(&p, &fields).unwrap();
    assert_eq!(q.name, "Gadget");
    assert_eq!(q.price_cents, 446);
    assert_eq!(q.count, 8);
    assert_eq!(q.category, "tools");
    assert_eq!(q.id, 1);
}

#[test]
fn update_with_bad_field_changes_nothing() {
    let p = product(1, "Widget", 999, 3);
    let fields = vec![text("name", "Gadget"), text("count", "many")];
    assert!(matches!(apply_update(&p, &fields), Err(LocalError::WrongParameters)));
    let fields = vec![number("count", "2.5")];
    assert!(matches!(apply_update(&p, &fields), Err(LocalError::WrongParameters)));
    let fields = vec![(String::from("image"), FieldValue::Null)];
    assert!(matches!(apply_update(&p, &fields), Err(LocalError::WrongParameters)));
}

#[test]
fn create_rounds_price_and_defaults_count() {
    let fields = vec![text("name", "Widget"), number("price", "9.995"), text("category", "tools")];
    let p = parse_new_product(&fields).unwrap();
    assert_eq!(p.name, "Widget");
    assert_eq!(p.price_cents, 1000);
    assert_eq!(p.count, 0);
    assert_eq!(p.image, None);
    assert!(!p.is_available());
}

#[test]
fn create_needs_name_price_and_category() {
    let fields = vec![text("name", "Widget"), number("price", "9.995")];
    assert!(matches!(parse_new_product(&fields), Err(LocalError::WrongParameters)));
    let fields = vec![text("name", "Widget"), text("price", "cheap"), text("category", "tools")];
    assert!(matches!(parse_new_product(&fields), Err(LocalError::WrongParameters)));
}

#[test]
fn listing_computes_availability() {
    let l = list_products(vec![product(1, "a", 100, 0), product(2, "b", 100, 4)]);
    assert_eq!(l.len(), 2);
    assert!(!l[0].available);
    assert!(l[1].available);
    assert_eq!(l[1].product.name, "b");
}

#[test]
fn purchase_decrements_and_writes_order() {
    let p = product(1, "Widget", 250, 5);
    let b = purchase(Some(&p), 3, 7, 42).unwrap();
    assert_eq!(b.product.count, 2);
    assert_eq!(b.order.user_id, 7);
    assert_eq!(b.order.product_id, 1);
    assert_eq!(b.order.total_price_cents, 250);
    assert_eq!(b.order.timestamp, 42);
    assert_eq!(b.product.price_cents, 250);
}

#[test]
fn sold_out_product_is_not_available() {
    let p = product(1, "Widget", 250, 0);
    for q in [1, 2, 100] {
        assert!(matches!(purchase(Some(&p), q, 7, 0), Err(LocalError::ItemNotAvailable)));
    }
    assert_eq!(p.count, 0);
}

#[test]
fn purchase_of_missing_or_nonpositive() {
    let p = product(1, "Widget", 250, 5);
    assert!(matches!(purchase(None, 1, 7, 0), Err(LocalError::IdNotFound)));
    assert!(matches!(purchase(Some(&p), 0, 7, 0), Err(LocalError::WrongParameters)));
    assert!(matches!(purchase(Some(&p), -2, 7, 0), Err(LocalError::WrongParameters)));
    assert!(matches!(purchase(Some(&p), 6, 7, 0), Err(LocalError::ItemNotAvailable)));
}

#[test]
fn two_purchases_of_the_whole_stock() {
    let p = product(1, "Widget", 250, 5);
    let first = purchase(Some(&p), 5, 11, 0).unwrap();
    assert_eq!(first.product.count, 0);
    assert!(matches!(purchase(Some(&first.product), 5, 12, 0), Err(LocalError::ItemNotAvailable)));
}

#[test]
fn purchase_request_defaults() {
    let r = parse_purchase_request(&get_params("id=4")).unwrap();
    assert_eq!(r, PurchaseRequest { product_id: 4, quantity: 1, user_id: ANONYMOUS_USER });
    let r = parse_purchase_request(&get_params("id=4&count=x&user_id=9")).unwrap();
    assert_eq!(r, PurchaseRequest { product_id: 4, quantity: 1, user_id: 9 });
    let r = parse_purchase_request(&get_params("id=4&count=3")).unwrap();
    assert_eq!(r.quantity, 3);
    assert_eq!(parse_purchase_request(&get_params("count=3")), Err(LocalError::IdNotSent));
    assert_eq!(parse_purchase_request(&get_params("id=z")), Err(LocalError::IdNotFound));
}

#[test]
fn purchase_flow_succeeds() {
    let mut stores = Stores::new();
    stores.ledger.insert(1, product(1, "Widget", 250, 5));
    let (replies, follow_ups) = run_purchase(&mut stores, "id=1&count=3&user_id=7");
    assert_eq!(replies.len(), 1);
    assert_eq!(replies[0].status_code(), 200);
    match &replies[0] {
        Reply::Purchase(b) => {
            assert_eq!(b.product.count, 2);
            assert_eq!(b.order.user_id, 7);
            assert_eq!(b.order.product_id, 1);
            assert_eq!(b.order.total_price_cents, 250);
        }
        _ => panic!("expected a purchase reply"),
    }
    assert_eq!(stores.ledger[&1].count, 2);
    assert_eq!(follow_ups.len(), 1);
    match &follow_ups[0] {
        Action::FollowUp(f) => {
            assert_eq!(f.record, StatsOp::Purchased { user_id: 7, product_id: 1 });
            assert_eq!(
                f.notifications,
                vec![
                    Notification::ProductPurchased { user_id: 7, product_id: 1 },
                    Notification::OrderCreated { user_id: 7, product_id: 1, total_price_cents: 250 },
                ]
            );
        }
        _ => panic!("expected a follow-up"),
    }
}

#[test]
fn purchase_flow_refuses_oversell() {
    let mut stores = Stores::new();
    stores.ledger.insert(1, product(1, "Widget", 250, 5));
    let (first, _) = run_purchase(&mut stores, "id=1&count=5&user_id=21");
    let (second, _) = run_purchase(&mut stores, "id=1&count=5&user_id=22");
    assert_eq!(first[0].status_code(), 200);
    assert!(matches!(second[0], Reply::Error(LocalError::ItemNotAvailable)));
    assert_eq!(second[0].status_code(), 400);
    assert_eq!(stores.ledger[&1].count, 0);
}

#[test]
fn purchase_flow_missing_product_and_store_failure() {
    let mut stores = Stores::new();
    let (replies, follow_ups) = run_purchase(&mut stores, "id=9");
    assert!(matches!(replies[0], Reply::Error(LocalError::IdNotFound)));
    assert!(follow_ups.is_empty());

    let s = purchase_step(PurchaseState::Start, request("id=1", None));
    let s = purchase_step(s.state, Event::StoreFailed(StoreFailure::Other));
    assert!(matches!(s.state, PurchaseState::Failed { error: LocalError::OperationFailed }));
    assert!(matches!(s.actions[0], Action::Rollback));
    assert_eq!(match &s.actions[1] { Action::Reply(r) => r.status_code(), _ => 0 }, 500);
}

#[test]
fn purchase_answer_stands_when_stats_are_down() {
    let mut stores = Stores::new();
    stores.ledger.insert(1, product(1, "Widget", 250, 5));
    let s = purchase_step(PurchaseState::Start, request("id=1&count=3&user_id=7", None));
    let mut replies = Vec::new();
    let e = stores.perform(s.actions, &mut replies).unwrap();
    let s = purchase_step(s.state, e);
    let e = stores.perform(s.actions, &mut replies).unwrap();
    let s = purchase_step(s.state, e);
    assert!(matches!(s.state, PurchaseState::Done));
    match &s.actions[0] {
        Action::Reply(Reply::Purchase(b)) => {
            assert_eq!(b.order.total_price_cents, 250);
            assert_eq!(b.order.user_id, 7);
        }
        _ => panic!("expected the purchase reply"),
    }
    // The statistics store is unreachable: its failures reach nothing.
    for e in [Event::StoreFailed(StoreFailure::Other), Event::CacheFailed, Event::Written] {
        let after = purchase_step(PurchaseState::Done, e);
        assert!(matches!(after.state, PurchaseState::Done));
        assert!(after.actions.is_empty());
    }
}

#[test]
fn read_fills_cache_and_repeats() {
    let mut stores = Stores::new();
    stores.ledger.insert(3, product(3, "Lamp", 1999, 2));
    let first = run_read(&mut stores, "id=3&user_id=5");
    assert!(stores.cache.contains_key(&3));
    let second = run_read(&mut stores, "id=3");
    match (&first[0], &second[0]) {
        (Reply::Product(a), Reply::Product(b)) => {
            assert!(same(a, b));
            assert_eq!(a.name, "Lamp");
        }
        _ => panic!("expected two product replies"),
    }
}

#[test]
fn read_with_cache_down_repeats() {
    let mut stores = Stores::new();
    stores.cache_up = false;
    stores.ledger.insert(3, product(3, "Lamp", 1999, 2));
    let first = run_read(&mut stores, "id=3");
    let second = run_read(&mut stores, "id=3");
    match (&first[0], &second[0]) {
        (Reply::Product(a), Reply::Product(b)) => assert!(same(a, b)),
        _ => panic!("expected two product replies"),
    }
}

#[test]
fn read_of_missing_product() {
    let mut stores = Stores::new();
    let r = run_read(&mut stores, "id=3");
    assert!(matches!(r[0], Reply::Error(LocalError::IdNotFound)));
    let r = run_read(&mut stores, "user_id=3");
    assert!(matches!(r[0], Reply::Error(LocalError::IdNotSent)));
}

#[test]
fn read_follow_up_names_the_viewer() {
    let s = read_step(ReadState::Start, request("id=3&user_id=5", None));
    let s = read_step(s.state, Event::CacheEntry(None));
    let s = read_step(s.state, Event::Row { product: Some(product(3, "Lamp", 1999, 2)), now: 0 });
    assert_eq!(s.actions.len(), 3);
    match &s.actions[2] {
        Action::FollowUp(f) => {
            assert_eq!(f.record, StatsOp::Viewed { user_id: Some(5), product_id: 3 });
            assert_eq!(f.notifications, vec![Notification::ProductViewed { user_id: 5, product_id: 3 }]);
        }
        _ => panic!("expected a follow-up"),
    }
}

#[test]
fn rename_is_seen_by_the_next_read() {
    let mut stores = Stores::new();
    stores.ledger.insert(1, product(1, "Widget", 250, 5));
    run_read(&mut stores, "id=1");
    assert!(stores.cache.contains_key(&1));
    let r = run_update(&mut stores, "id=1", vec![text("name", "X")]);
    assert_eq!(r[0].status_code(), 200);
    let got = run_read(&mut stores, "id=1");
    match &got[0] {
        Reply::Product(p) => assert_eq!(p.name, "X"),
        _ => panic!("expected a product"),
    }
}

#[test]
fn price_update_is_read_back_rounded() {
    let mut stores = Stores::new();
    stores.ledger.insert(1, product(1, "Widget", 250, 5));
    run_read(&mut stores, "id=1");
    run_update(&mut stores, "id=1", vec![number("price", "19.999")]);
    assert_eq!(stores.ledger[&1].price_cents, 2000);
    let got = run_read(&mut stores, "id=1");
    match &got[0] {
        Reply::Product(p) => assert_eq!(p.price_cents, 2000),
        _ => panic!("expected a product"),
    }
}

#[test]
fn update_falls_back_to_deleting_twice() {
    let s = update_step(UpdateState::CacheMerging { id: 4, fields: vec![] }, Event::CacheFailed);
    assert!(matches!(s.state, UpdateState::CacheDeleting { id: 4, attempt: 1 }));
    assert!(matches!(s.actions[0], Action::CacheDelete(4)));
    let s = update_step(s.state, Event::CacheFailed);
    assert!(matches!(s.state, UpdateState::CacheDeleting { id: 4, attempt: 2 }));
    assert!(matches!(s.actions[0], Action::CacheDelete(4)));
    let s = update_step(s.state, Event::CacheFailed);
    assert!(matches!(s.state, UpdateState::Done));
    assert!(s.actions.is_empty());
}

#[test]
fn update_rejections() {
    let mut stores = Stores::new();
    stores.ledger.insert(1, product(1, "Widget", 250, 5));
    let r = run_update(&mut stores, "id=2", vec![text("name", "X")]);
    assert!(matches!(r[0], Reply::Error(LocalError::IdNotFound)));
    let r = run_update(&mut stores, "id=1", vec![text("name", "X"), text("price", "free")]);
    assert!(matches!(r[0], Reply::Error(LocalError::WrongParameters)));
    assert_eq!(stores.ledger[&1].name, "Widget");
    let s = update_step(UpdateState::Start, request("id=1", None));
    assert!(matches!(s.state, UpdateState::Rejected { error: LocalError::WrongParameters }));
}

#[test]
fn delete_removes_row_and_cache_entry() {
    let mut stores = Stores::new();
    stores.ledger.insert(1, product(1, "Widget", 250, 5));
    stores.cache.insert(1, product(1, "Widget", 250, 5));
    let mut replies = Vec::new();
    let mut state = UpdateState::Start;
    let mut event = Some(request("id=1", None));
    while let Some(e) = event {
        let step = delete_step(state, e);
        state = step.state;
        event = stores.perform(step.actions, &mut replies);
    }
    assert!(matches!(replies[0], Reply::Empty));
    assert!(stores.ledger.is_empty());
    assert!(stores.cache.is_empty());
}

#[test]
fn create_flow_inserts() {
    let fields = vec![text("name", "Widget"), number("price", "9.995"), text("category", "tools")];
    let s = create_step(CreateState::Start, request("", Some(fields)));
    match &s.actions[0] {
        Action::InsertProduct(p) => assert_eq!(p.price_cents, 1000),
        _ => panic!("expected an insert"),
    }
    let s = create_step(s.state, Event::Inserted(17));
    assert!(matches!(s.actions[0], Action::Reply(Reply::Created(17))));
    let s = create_step(CreateState::Start, request("", None));
    assert!(matches!(s.state, CreateState::Rejected { error: LocalError::WrongParameters }));
}

#[test]
fn retry_once_policy() {
    assert_eq!(retry_once(1, false), RetryStep::Retry);
    assert_eq!(retry_once(1, true), RetryStep::Finish);
    assert_eq!(retry_once(2, false), RetryStep::Finish);
}

#[test]
fn upsert_by_miss() {
    assert_eq!(upsert_next(UpsertStage::FirstUpdate, 0), UpsertStep::CreateAndUpdate);
    assert_eq!(upsert_next(UpsertStage::FirstUpdate, 1), UpsertStep::Finished);
    assert_eq!(upsert_next(UpsertStage::SecondUpdate, 0), UpsertStep::Finished);
}

#[test]
fn sibling_calls() {
    let users = UserManagerContext::new("http://users:8081".to_string());
    let orders = OrderManagerContext::new("http://orders:8082".to_string());
    let c = sibling_call(Notification::ProductViewed { user_id: 7, product_id: -1 }, &users, &orders);
    assert_eq!(c.address, "http://users:8081/account/add_product_view");
    assert_eq!(
        c.query,
        vec![("user_id".to_string(), "7".to_string()), ("product_id".to_string(), "-1".to_string())]
    );
    let c = sibling_call(
        Notification::OrderCreated { user_id: 7, product_id: 1, total_price_cents: 250 },
        &users,
        &orders,
    );
    assert_eq!(c.address, "http://orders:8082/order/add");
    assert_eq!(c.body[0], ("user_id".to_string(), "7".to_string()));
    assert_eq!(c.body[2], ("total_price".to_string(), "2.50".to_string()));
    assert!(c.query.is_empty());
}

#[test]
fn account_and_order_fields() {
    let full = vec![
        text("username", "ann"),
        text("full_name", "Ann Lee"),
        text("password", "pw"),
        text("email", "a@b.c"),
        text("phone", "123"),
    ];
    assert_eq!(check_account_fields(&full), Ok(()));
    assert_eq!(check_account_fields(&full[..4].to_vec()), Err(LocalError::WrongParameters));
    let order = vec![number("user_id", "1"), number("product_id", "2"), number("total_price", "2.505")];
    let o = parse_order(&order, 99).unwrap();
    assert_eq!(o, NewOrder { user_id: 1, product_id: 2, timestamp: 99, total_price_cents: 251 });
    assert_eq!(parse_order(&order[1..].to_vec(), 99), Err(LocalError::WrongParameters));
    let bad = vec![number("user_id", "1"), text("product_id", "2"), number("total_price", "2.5")];
    assert_eq!(parse_order(&bad, 99), Err(LocalError::WrongParameters));
}

#[test]
fn login_checks() {
    let c = login_credentials(&vec![text("username", "ann"), number("password", "5")]).unwrap();
    assert_eq!(c.username, "ann");
    assert_eq!(c.password, "");
    assert!(login_credentials(&vec![text("username", "ann")]).is_err());
    let stored = || Some(StoredAccount { user_id: 3, password: "pw".to_string() });
    assert_eq!(check_login(stored(), &"pw".to_string()), Ok(3));
    assert_eq!(check_login(stored(), &"no".to_string()), Err(LocalError::WrongUserOrPassword));
    assert_eq!(check_login(None, &"pw".to_string()), Err(LocalError::WrongUserOrPassword));
}

#[test]
fn user_events() {
    assert_eq!(
        user_event(&get_params("user_id=2&product_id=5"), true),
        Ok(StatsOp::Purchased { user_id: 2, product_id: 5 })
    );
    assert_eq!(
        user_event(&get_params("user_id=2&product_id=5"), false),
        Ok(StatsOp::Viewed { user_id: Some(2), product_id: 5 })
    );
    assert_eq!(user_event(&get_params("product_id=5"), true), Err(LocalError::IdNotSent));
    assert_eq!(user_event(&get_params("user_id=2&product_id=q"), true), Err(LocalError::IdNotFound));
}

#[test]
fn recording_replies() {
    assert!(matches!(recording_reply(true), Reply::Empty));
    assert_eq!(recording_reply(true).status_code(), 200);
    assert!(matches!(recording_reply(false), Reply::Error(LocalError::OperationFailed)));
    assert_eq!(recording_reply(false).status_code(), 500);
}
