use vstd::prelude::*;
use crate::error::LocalError;
use crate::params::{get_id_from_params, id_param, QueryParams};
use crate::product::{contains_key, has_key, FieldValue};
use crate::decimal::{i32_literal, parse_i32, parse_price_cents, price_cents};
use crate::ledger::NewOrder;
use crate::stats::StatsOp;

verus! {

pub open spec fn account_fields_ok(fs: Seq<(String, FieldValue)>) -> bool {
    &&& has_key(fs, "username"@)
    &&& has_key(fs, "full_name"@)
    &&& has_key(fs, "password"@)
    &&& has_key(fs, "email"@)
    &&& has_key(fs, "phone"@)
}

/// A new account needs a username, full name, password, email and phone.
pub fn check_account_fields(fields: &Vec<(String, FieldValue)>) -> (r: Result<(), LocalError>)
    ensures
        r is Ok <==> account_fields_ok(fields@),
        r is Err ==> r == Err::<(), LocalError>(LocalError::WrongParameters),
{
    if contains_key(fields, "username") && contains_key(fields, "full_name") && contains_key(
        fields,
        "password",
    ) && contains_key(fields, "email") && contains_key(fields, "phone") {
        Ok(())
    } else {
        Err(LocalError::WrongParameters)
    }
}

/// The text of the last field named `k`: `None` when there is none, the
/// empty text when its value is not a text.
pub open spec fn text_field(fs: Seq<(String, FieldValue)>, k: Seq<char>) -> Option<Seq<char>>
    decreases fs.len(),
{
    if fs.len() == 0 {
        None
    } else if fs.last().0@ == k {
        match fs.last().1 {
            FieldValue::Text(s) => Some(s@),
            _ => Some(Seq::empty()),
        }
    } else {
        text_field(fs.drop_last(), k)
    }
}

fn get_text(fields: &Vec<(String, FieldValue)>, k: &str) -> (r: Option<String>)
    ensures
        match r {
            Some(v) => text_field(fields@, k@) == Some(v@),
            None => text_field(fields@, k@) is None,
        },
{
    let key = String::from_str(k);
    let mut i: usize = fields.len();
    assert(fields@.take(i as int) =~= fields@);
    while i > 0
        invariant
            i <= fields@.len(),
            key@ == k@,
            text_field(fields@, k@) == text_field(fields@.take(i as int), k@),
        decreases i,
    {
        assert(fields@.take(i as int).drop_last() =~= fields@.take(i - 1));
        if fields[i - 1].0 == key {
            return match &fields[i - 1].1 {
                FieldValue::Text(s) => Some(s.clone()),
                _ => Some(String::new()),
            };
        }
        i = i - 1;
    }
    None
}

/// A login's username and password.
pub struct Credentials {
    pub username: String,
    pub password: String,
}

/// Reads a login request: both fields are required; a value that is not a
/// text counts as empty.
pub fn login_credentials(fields: &Vec<(String, FieldValue)>) -> (r: Result<Credentials, LocalError>)
    ensures
        match r {
            Ok(c) => text_field(fields@, "username"@) == Some(c.username@) && text_field(
                fields@,
                "password"@,
            ) == Some(c.password@),
            Err(e) => e == LocalError::WrongParameters && (text_field(fields@, "username"@) is None
                || text_field(fields@, "password"@) is None),
        },
{
    match (get_text(fields, "username"), get_text(fields, "password")) {
        (Some(username), Some(password)) => Ok(Credentials { username, password }),
        _ => Err(LocalError::WrongParameters),
    }
}

/// The account found under the username, if any: its identifier and its
/// stored password.
pub struct StoredAccount {
    pub user_id: i32,
    pub password: String,
}

/// A login succeeds with the account's identifier when the account exists
/// and the password matches; otherwise `WrongUserOrPassword`.
pub fn check_login(stored: Option<StoredAccount>, password: &String) -> (r: Result<i32, LocalError>)
    ensures
        match stored {
            Some(a) => if a.password@ == password@ {
                r == Ok::<i32, LocalError>(a.user_id)
            } else {
                r == Err::<i32, LocalError>(LocalError::WrongUserOrPassword)
            },
            None => r == Err::<i32, LocalError>(LocalError::WrongUserOrPassword),
        },
{
    match stored {
        Some(a) => if a.password == *password {
            Ok(a.user_id)
        } else {
            Err(LocalError::WrongUserOrPassword)
        },
        None => Err(LocalError::WrongUserOrPassword),
    }
}

/// The value of the last field named `k`.
pub open spec fn field_of(fs: Seq<(String, FieldValue)>, k: Seq<char>) -> Option<FieldValue>
    decreases fs.len(),
{
    if fs.len() == 0 {
        None
    } else if fs.last().0@ == k {
        Some(fs.last().1)
    } else {
        field_of(fs.drop_last(), k)
    }
}

fn get_field<'a>(fields: &'a Vec<(String, FieldValue)>, k: &str) -> (r: Option<&'a FieldValue>)
    ensures
        match r {
            Some(v) => field_of(fields@, k@) == Some(*v),
            None => field_of(fields@, k@) is None,
        },
{
    let key = String::from_str(k);
    let mut i: usize = fields.len();
    assert(fields@.take(i as int) =~= fields@);
    while i > 0
        invariant
            i <= fields@.len(),
            key@ == k@,
            field_of(fields@, k@) == field_of(fields@.take(i as int), k@),
        decreases i,
    {
        assert(fields@.take(i as int).drop_last() =~= fields@.take(i - 1));
        if fields[i - 1].0 == key {
            return Some(&fields[i - 1].1);
        }
        i = i - 1;
    }
    None
}

pub open spec fn int_field(fs: Seq<(String, FieldValue)>, k: Seq<char>) -> Option<i32> {
    match field_of(fs, k) {
        Some(FieldValue::Number(t)) => i32_literal(t@),
        _ => None,
    }
}

pub open spec fn price_field(fs: Seq<(String, FieldValue)>, k: Seq<char>) -> Option<i64> {
    match field_of(fs, k) {
        Some(FieldValue::Number(t)) => price_cents(t@),
        _ => None,
    }
}

/// An order sent by a sibling: user and product identifiers and the total
/// price, all numbers; the price is rounded half up to cents. The order
/// takes the time `now` of its arrival.
pub open spec fn order_spec(fs: Seq<(String, FieldValue)>, now: i64) -> Result<NewOrder, LocalError> {
    match (int_field(fs, "user_id"@), int_field(fs, "product_id"@), price_field(fs, "total_price"@)) {
        (Some(u), Some(p), Some(t)) => Ok(
            NewOrder { user_id: u, product_id: p, timestamp: now, total_price_cents: t },
        ),
        _ => Err(LocalError::WrongParameters),
    }
}

fn int_of(fields: &Vec<(String, FieldValue)>, k: &str) -> (r: Option<i32>)
    ensures
        r == int_field(fields@, k@),
{
    match get_field(fields, k) {
        Some(FieldValue::Number(t)) => parse_i32(t.as_str()),
        _ => None,
    }
}

/// Reads an order sent to the order service.
pub fn parse_order(fields: &Vec<(String, FieldValue)>, now: i64) -> (r: Result<NewOrder, LocalError>)
    ensures
        r == order_spec(fields@, now),
{
    let total = match get_field(fields, "total_price") {
        Some(FieldValue::Number(t)) => parse_price_cents(t.as_str()),
        _ => None,
    };
    match (int_of(fields, "user_id"), int_of(fields, "product_id"), total) {
        (Some(u), Some(p), Some(t)) => Ok(
            NewOrder { user_id: u, product_id: p, timestamp: now, total_price_cents: t },
        ),
        _ => Err(LocalError::WrongParameters),
    }
}

pub open spec fn user_event_spec(ps: Seq<(Seq<char>, Seq<char>)>, purchased: bool) -> Result<
    StatsOp,
    LocalError,
> {
    match id_param(ps, "user_id"@) {
        Err(e) => Err(e),
        Ok(u) => match id_param(ps, "product_id"@) {
            Err(e) => Err(e),
            Ok(p) => Ok(
                if purchased {
                    StatsOp::Purchased { user_id: u, product_id: p }
                } else {
                    StatsOp::Viewed { user_id: Some(u), product_id: p }
                },
            ),
        },
    }
}

/// Reads a request of the user-statistics service to record that a user
/// viewed (or purchased) a product; both identifiers are required.
pub fn user_event(params: &QueryParams, purchased: bool) -> (r: Result<StatsOp, LocalError>)
    ensures
        r == user_event_spec(params@, purchased),
{
    let u = get_id_from_params(params, "user_id")?;
    let p = get_id_from_params(params, "product_id")?;
    Ok(
        if purchased {
            StatsOp::Purchased { user_id: u, product_id: p }
        } else {
            StatsOp::Viewed { user_id: Some(u), product_id: p }
        },
    )
}

} // verus!
