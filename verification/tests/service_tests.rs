use service_demos::cors;
use service_demos::greeting::hello;
use service_demos::services::{
    get_order, get_user, index, list_orders, list_users, order_url, proxy_get_order,
    proxy_get_user, user_url, GatewayData,
};
use service_demos::text::{decimal_string, number_between, push_decimal};

#[test]
fn decimal_string_of_small_numbers() {
    assert_eq!(decimal_string(0), "0");
    assert_eq!(decimal_string(7), "7");
    assert_eq!(decimal_string(9), "9");
    assert_eq!(decimal_string(10), "10");
    assert_eq!(decimal_string(407), "407");
    assert_eq!(decimal_string(1000), "1000");
}

#[test]
fn decimal_string_of_the_largest_number() {
    assert_eq!(decimal_string(u64::MAX), "18446744073709551615");
    assert_eq!(decimal_string(u64::MAX), u64::MAX.to_string());
}

#[test]
fn decimal_string_agrees_with_std() {
    let mut n: u64 = 1;
    for _ in 0..19 {
        assert_eq!(decimal_string(n), n.to_string());
        assert_eq!(decimal_string(n - 1), (n - 1).to_string());
        assert_eq!(decimal_string(n + 1), (n + 1).to_string());
        n *= 10;
    }
}

#[test]
fn different_numbers_have_different_numerals() {
    assert_ne!(decimal_string(1), decimal_string(10));
    assert_ne!(decimal_string(12), decimal_string(21));
    assert_ne!(decimal_string(100), decimal_string(1000));
}

#[test]
fn push_decimal_appends() {
    let mut s = String::from("id=");
    push_decimal(&mut s, 42);
    assert_eq!(s, "id=42");
    push_decimal(&mut s, 0);
    assert_eq!(s, "id=420");
}

#[test]
fn number_between_joins_three_pieces() {
    assert_eq!(number_between("<", 5, ">"), "<5>");
    assert_eq!(number_between("", 15, ""), "15");
    assert_eq!(number_between("a", 0, ""), "a0");
}

#[test]
fn hello_greets_by_name() {
    assert_eq!(hello("World").greeting, "Hello, World!");
    assert_eq!(hello("").greeting, "Hello, !");
    assert_eq!(hello("Ada Lovelace").greeting, "Hello, Ada Lovelace!");
}

#[test]
fn cors_greeting_and_limits() {
    assert_eq!(cors::hello(), "Hello from CORS-enabled API!");
    assert_eq!(cors::RATE_LIMIT_REQUESTS, 100);
    assert_eq!(cors::RATE_LIMIT_WINDOW_SECS, 60);
}

#[test]
fn get_user_builds_name_and_email_from_id() {
    let u = get_user(7);
    assert_eq!(u.id, 7);
    assert_eq!(u.name, "User 7");
    assert_eq!(u.email, "user7@example.com");
    let v = get_user(1234);
    assert_eq!(v.name, "User 1234");
    assert_eq!(v.email, "user1234@example.com");
    let z = get_user(0);
    assert_eq!(z.name, "User 0");
    assert_eq!(z.email, "user0@example.com");
}

#[test]
fn get_order_builds_product_from_id() {
    let o = get_order(3);
    assert_eq!(o.id, 3);
    assert_eq!(o.user_id, 1);
    assert_eq!(o.product, "Product 3");
    assert_eq!(o.amount_cents, 9999);
    let amount: f64 = o.amount_cents as f64 / 100.0;
    assert_eq!(amount, 99.99);
}

#[test]
fn lists_are_fixed_json_texts() {
    assert_eq!(
        list_users(),
        r#"[{"id":1,"name":"Alice","email":"alice@example.com"},{"id":2,"name":"Bob","email":"bob@example.com"}]"#
    );
    assert_eq!(
        list_orders(),
        r#"[{"id":1,"user_id":1,"product":"Laptop","amount":999.99},{"id":2,"user_id":2,"product":"Mouse","amount":29.99}]"#
    );
    assert_eq!(
        index(),
        r#"{"message":"API Gateway","services":{"users":"http://127.0.0.1:8080/api/users/{id}","orders":"http://127.0.0.1:8080/api/orders/{id}"}}"#
    );
}

#[test]
fn gateway_addresses_name_the_two_services() {
    assert_eq!(user_url(1), "http://127.0.0.1:8081/users/1");
    assert_eq!(user_url(250), "http://127.0.0.1:8081/users/250");
    assert_eq!(order_url(1), "http://127.0.0.1:8082/orders/1");
    assert_eq!(order_url(u64::MAX), "http://127.0.0.1:8082/orders/18446744073709551615");
}

#[test]
fn gateway_envelopes_name_the_service_and_keep_the_record() {
    let r = proxy_get_user(get_user(5));
    assert_eq!(r.service, "user-service");
    match r.data {
        GatewayData::User(u) => {
            assert_eq!(u.id, 5);
            assert_eq!(u.name, "User 5");
            assert_eq!(u.email, "user5@example.com");
        }
        GatewayData::Order(_) => panic!("a user was wrapped"),
    }
    let r = proxy_get_order(get_order(6));
    assert_eq!(r.service, "order-service");
    match r.data {
        GatewayData::Order(o) => {
            assert_eq!(o.id, 6);
            assert_eq!(o.product, "Product 6");
        }
        GatewayData::User(_) => panic!("an order was wrapped"),
    }
}

#[test]
fn cloned_records_keep_their_fields() {
    let u = get_user(8).clone();
    assert_eq!(u.id, 8);
    assert_eq!(u.name, "User 8");
    let o = get_order(8).clone();
    assert_eq!(o.product, "Product 8");
    assert_eq!(o.amount_cents, 9999);
}
