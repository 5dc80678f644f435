use product_manager::cache::get_product_key;
use product_manager::decimal::{append_cents, append_int, parse_i32, parse_price_cents};
use product_manager::error::{to_local_error, LocalError, RecordType, StoreFailure};
use product_manager::params::{get_id_from_uri, get_params};
use product_manager::settings::Settings;

#[test]
fn error_messages() {
    assert_eq!(LocalError::IdNotSent.to_string(), "Wrong request");
    assert_eq!(LocalError::IdNotFound.to_string(), "Wrong ID");
    assert_eq!(LocalError::ItemNotAvailable.to_string(), "Item is not available");
    assert_eq!(LocalError::WrongParameters.to_string(), "Wrong parameters");
    assert_eq!(LocalError::OperationFailed.to_string(), "Operation has not been executed");
    assert_eq!(LocalError::UnauthenticatedUser.to_string(), "User is not authenticated");
    assert_eq!(LocalError::WrongUserOrPassword.to_string(), "Wrong user or password");
}

#[test]
fn error_status_codes() {
    assert_eq!(LocalError::OperationFailed.status_code(), 500);
    assert_eq!(LocalError::ItemNotAvailable.status_code(), 400);
    assert_eq!(LocalError::IdNotSent.status_code(), 400);
}

#[test]
fn store_failures_are_classified() {
    assert_eq!(to_local_error(StoreFailure::RecordNotFound, RecordType::Product), LocalError::IdNotFound);
    assert_eq!(to_local_error(StoreFailure::RecordNotFound, RecordType::Order), LocalError::IdNotFound);
    assert_eq!(
        to_local_error(StoreFailure::RecordNotFound, RecordType::User),
        LocalError::WrongUserOrPassword
    );
    assert_eq!(to_local_error(StoreFailure::BadData, RecordType::User), LocalError::WrongParameters);
    assert_eq!(to_local_error(StoreFailure::Other, RecordType::Product), LocalError::OperationFailed);
}

#[test]
fn integers_are_read() {
    assert_eq!(parse_i32("42"), Some(42));
    assert_eq!(parse_i32("-7"), Some(-7));
    assert_eq!(parse_i32("+5"), Some(5));
    assert_eq!(parse_i32("007"), Some(7));
    assert_eq!(parse_i32("2147483647"), Some(i32::MAX));
    assert_eq!(parse_i32("-2147483648"), Some(i32::MIN));
    assert_eq!(parse_i32("2147483648"), None);
    assert_eq!(parse_i32("99999999999999999999"), None);
    assert_eq!(parse_i32(""), None);
    assert_eq!(parse_i32("-"), None);
    assert_eq!(parse_i32("12a"), None);
    assert_eq!(parse_i32("1.0"), None);
}

#[test]
fn integers_are_written() {
    let mut s = String::from("n=");
    append_int(&mut s, -1205);
    assert_eq!(s, "n=-1205");
    let mut t = String::new();
    append_int(&mut t, i64::MIN);
    assert_eq!(t, "-9223372036854775808");
    let mut u = String::new();
    append_int(&mut u, 0);
    assert_eq!(u, "0");
}

#[test]
fn prices_round_half_up_to_cents() {
    assert_eq!(parse_price_cents("9.995"), Some(1000));
    assert_eq!(parse_price_cents("19.999"), Some(2000));
    assert_eq!(parse_price_cents("19.994"), Some(1999));
    assert_eq!(parse_price_cents("2.5"), Some(250));
    assert_eq!(parse_price_cents("2.50"), Some(250));
    assert_eq!(parse_price_cents("10"), Some(1000));
    assert_eq!(parse_price_cents("0.005"), Some(1));
    assert_eq!(parse_price_cents("0.0049"), Some(0));
    assert_eq!(parse_price_cents("-1.005"), Some(-101));
}

#[test]
fn malformed_prices_are_refused() {
    assert_eq!(parse_price_cents(""), None);
    assert_eq!(parse_price_cents("abc"), None);
    assert_eq!(parse_price_cents("1."), None);
    assert_eq!(parse_price_cents(".5"), None);
    assert_eq!(parse_price_cents("1e3"), None);
    assert_eq!(parse_price_cents("1.2.3"), None);
    assert_eq!(parse_price_cents("-"), None);
    assert_eq!(parse_price_cents("100000000000000000"), None);
}

#[test]
fn product_cache_key() {
    assert_eq!(get_product_key(5), "product_5");
    assert_eq!(get_product_key(-3), "product_-3");
    assert_eq!(get_product_key(1234567), "product_1234567");
}

#[test]
fn query_parameters_are_read() {
    let p = get_params("id=3&user_id=7");
    assert_eq!(p.get("id"), Some("3".to_string()));
    assert_eq!(p.get("user_id"), Some("7".to_string()));
    assert_eq!(p.get("count"), None);
}

#[test]
fn query_is_percent_decoded_first() {
    let p = get_params("id%3D5%26count%3D2");
    assert_eq!(p.get("id"), Some("5".to_string()));
    assert_eq!(p.get("count"), Some("2".to_string()));
}

#[test]
fn query_plus_is_a_space_and_last_value_wins() {
    let p = get_params("name=a+b&id=1&id=2");
    assert_eq!(p.get("name"), Some("a b".to_string()));
    assert_eq!(p.get("id"), Some("2".to_string()));
}

#[test]
fn identifier_parameters() {
    assert_eq!(get_id_from_uri("id=12", "id"), Ok(12));
    assert_eq!(get_id_from_uri("user_id=4", "id"), Err(LocalError::IdNotSent));
    assert_eq!(get_id_from_uri("", "id"), Err(LocalError::IdNotSent));
    assert_eq!(get_id_from_uri("id=abc", "id"), Err(LocalError::IdNotFound));
    assert_eq!(get_id_from_uri("id=1&user_id=9", "user_id"), Ok(9));
}

#[test]
fn settings_lookup() {
    let mut s = Settings::empty();
    s.insert("network".to_string(), "listen_on".to_string(), "0.0.0.0:8080".to_string());
    s.insert("redis".to_string(), "uri".to_string(), "redis://localhost".to_string());
    assert_eq!(s.get("network", "listen_on"), "0.0.0.0:8080");
    assert_eq!(s.lookup("redis", "uri"), Some("redis://localhost".to_string()));
    assert_eq!(s.lookup("redis", "name"), None);
    assert_eq!(s.lookup("network", "uri"), None);
    s.insert("redis".to_string(), "uri".to_string(), "redis://cache".to_string());
    assert_eq!(s.get("redis", "uri"), "redis://cache");
}

#[test]
fn cents_are_written_with_two_decimals() {
    let mut s = String::new();
    append_cents(&mut s, 250);
    assert_eq!(s, "2.50");
    let mut s = String::new();
    append_cents(&mut s, -5);
    assert_eq!(s, "-0.05");
    let mut s = String::new();
    append_cents(&mut s, 100000);
    assert_eq!(s, "1000.00");
}
