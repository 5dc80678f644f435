use vstd::prelude::*;
use crate::decimal::{append_cents, append_int, cents_text, int_text};
use crate::stats::Notification;

verus! {

/// Where the user-statistics service is reached.
pub struct UserManagerContext {
    pub uri: String,
    pub product_viewed_endpoint: String,
    pub product_purchased_endpoint: String,
}

/// Where the order service is reached.
pub struct OrderManagerContext {
    pub uri: String,
    pub add_order_endpoint: String,
}

impl UserManagerContext {
    /// The service at `uri`, with its standard endpoints.
    pub fn new(uri: String) -> (r: UserManagerContext)
        ensures
            r.uri@ == uri@,
            r.product_viewed_endpoint@ == "/account/add_product_view"@,
            r.product_purchased_endpoint@ == "/account/add_product_purchase"@,
    {
        UserManagerContext {
            uri,
            product_viewed_endpoint: String::from_str("/account/add_product_view"),
            product_purchased_endpoint: String::from_str("/account/add_product_purchase"),
        }
    }
}

impl OrderManagerContext {
    /// The service at `uri`, with its standard endpoint.
    pub fn new(uri: String) -> (r: OrderManagerContext)
        ensures
            r.uri@ == uri@,
            r.add_order_endpoint@ == "/order/add"@,
    {
        OrderManagerContext { uri, add_order_endpoint: String::from_str("/order/add") }
    }
}

/// One outbound call: the address (service URI and endpoint), its query
/// pairs, and the members of its JSON body, each value a JSON number
/// literal.
pub struct SiblingCall {
    pub address: String,
    pub query: Vec<(String, String)>,
    pub body: Vec<(String, String)>,
}

fn join(a: &String, b: &String) -> (r: String)
    ensures
        r@ == a@ + b@,
{
    let mut r = a.clone();
    r.append(b.as_str());
    r
}

fn cents_pair(name: &str, v: i64) -> (r: (String, String))
    ensures
        r.0@ == name@,
        r.1@ == cents_text(v as int),
{
    let mut t = String::new();
    append_cents(&mut t, v);
    proof {
        assert(t@ =~= cents_text(v as int));
    }
    (String::from_str(name), t)
}

fn int_pair(name: &str, v: i64) -> (r: (String, String))
    ensures
        r.0@ == name@,
        r.1@ == int_text(v as int),
{
    let mut t = String::new();
    append_int(&mut t, v);
    proof {
        assert(t@ =~= int_text(v as int));
    }
    (String::from_str(name), t)
}

pub open spec fn user_product_query(q: Seq<(String, String)>, user_id: i32, product_id: i32) -> bool {
    &&& q.len() == 2
    &&& q[0].0@ == "user_id"@ && q[0].1@ == int_text(user_id as int)
    &&& q[1].0@ == "product_id"@ && q[1].1@ == int_text(product_id as int)
}

/// The call that carries a notification to its sibling service: a
/// product view or purchase goes to the user-statistics service with the
/// user and product in the query; a new order goes to the order service
/// with user, product and total price (in cents) in the body.
pub fn sibling_call(n: Notification, users: &UserManagerContext, orders: &OrderManagerContext) -> (r:
    SiblingCall)
    ensures
        match n {
            Notification::ProductViewed { user_id, product_id } => r.address@ == users.uri@
                + users.product_viewed_endpoint@ && user_product_query(r.query@, user_id, product_id)
                && r.body@.len() == 0,
            Notification::ProductPurchased { user_id, product_id } => r.address@ == users.uri@
                + users.product_purchased_endpoint@ && user_product_query(
                r.query@,
                user_id,
                product_id,
            ) && r.body@.len() == 0,
            Notification::OrderCreated { user_id, product_id, total_price_cents } => r.address@
                == orders.uri@ + orders.add_order_endpoint@ && r.query@.len() == 0 && r.body@.len()
                == 3 && r.body@[0].0@ == "user_id"@ && r.body@[0].1@ == int_text(user_id as int)
                && r.body@[1].0@ == "product_id"@ && r.body@[1].1@ == int_text(product_id as int)
                && r.body@[2].0@ == "total_price"@ && r.body@[2].1@ == cents_text(
                total_price_cents as int,
            ),
        },
{
    match n {
        Notification::ProductViewed { user_id, product_id } => SiblingCall {
            address: join(&users.uri, &users.product_viewed_endpoint),
            query: vec![int_pair("user_id", user_id as i64), int_pair("product_id", product_id as i64)],
            body: Vec::new(),
        },
        Notification::ProductPurchased { user_id, product_id } => SiblingCall {
            address: join(&users.uri, &users.product_purchased_endpoint),
            query: vec![int_pair("user_id", user_id as i64), int_pair("product_id", product_id as i64)],
            body: Vec::new(),
        },
        Notification::OrderCreated { user_id, product_id, total_price_cents } => SiblingCall {
            address: join(&orders.uri, &orders.add_order_endpoint),
            query: Vec::new(),
            body: vec![
                int_pair("user_id", user_id as i64),
                int_pair("product_id", product_id as i64),
                cents_pair("total_price", total_price_cents),
            ],
        },
    }
}

} // verus!
