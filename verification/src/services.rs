//! The user service, the order service, and the gateway that stands in
//! front of both: the records they answer with, the addresses the gateway
//! asks, and the envelope it relays an answer in.

use crate::text::{around_number, number_between};
use vstd::prelude::*;

verus! {

/// A user as the user service reports it.
#[derive(Debug)]
pub struct User {
    pub id: u64,
    pub name: String,
    pub email: String,
}

/// What a [`User`] holds, with its texts as character sequences.
pub ghost struct UserView {
    pub id: u64,
    pub name: Seq<char>,
    pub email: Seq<char>,
}

impl View for User {
    type V = UserView;

    open spec fn view(&self) -> UserView {
        UserView { id: self.id, name: self.name@, email: self.email@ }
    }
}

impl Clone for User {
    fn clone(&self) -> (r: User)
        ensures
            r@ == self@,
    {
        User { id: self.id, name: self.name.clone(), email: self.email.clone() }
    }
}

/// An order as the order service reports it. The amount is held in
/// hundredths of the currency unit.
#[derive(Debug)]
pub struct Order {
    pub id: u64,
    pub user_id: u64,
    pub product: String,
    pub amount_cents: u64,
}

/// What an [`Order`] holds, with its text as a character sequence.
pub ghost struct OrderView {
    pub id: u64,
    pub user_id: u64,
    pub product: Seq<char>,
    pub amount_cents: u64,
}

impl View for Order {
    type V = OrderView;

    open spec fn view(&self) -> OrderView {
        OrderView {
            id: self.id,
            user_id: self.user_id,
            product: self.product@,
            amount_cents: self.amount_cents,
        }
    }
}

impl Clone for Order {
    fn clone(&self) -> (r: Order)
        ensures
            r@ == self@,
    {
        Order {
            id: self.id,
            user_id: self.user_id,
            product: self.product.clone(),
            amount_cents: self.amount_cents,
        }
    }
}

/// The user that the user service reports for `id`.
pub open spec fn user_of(id: u64) -> UserView {
    UserView {
        id,
        name: around_number("User "@, id as nat, ""@),
        email: around_number("user"@, id as nat, "@example.com"@),
    }
}

/// The order that the order service reports for `id`: one of user 1, for
/// 99 units and 99 hundredths.
pub open spec fn order_of(id: u64) -> OrderView {
    OrderView {
        id,
        user_id: 1,
        product: around_number("Product "@, id as nat, ""@),
        amount_cents: 9999,
    }
}

/// The user service's answer for one user.
pub fn get_user(id: u64) -> (r: User)
    ensures
        r@ == user_of(id),
{
    User {
        id,
        name: number_between("User ", id, ""),
        email: number_between("user", id, "@example.com"),
    }
}

/// The order service's answer for one order.
pub fn get_order(id: u64) -> (r: Order)
    ensures
        r@ == order_of(id),
{
    Order { id, user_id: 1, product: number_between("Product ", id, ""), amount_cents: 9999 }
}

/// The user service's answer for all users, as JSON text.
pub fn list_users() -> (r: &'static str)
    ensures
        r@ == "[{\"id\":1,\"name\":\"Alice\",\"email\":\"alice@example.com\"},{\"id\":2,\"name\":\"Bob\",\"email\":\"bob@example.com\"}]"@,
{
    "[{\"id\":1,\"name\":\"Alice\",\"email\":\"alice@example.com\"},{\"id\":2,\"name\":\"Bob\",\"email\":\"bob@example.com\"}]"
}

/// The order service's answer for all orders, as JSON text.
pub fn list_orders() -> (r: &'static str)
    ensures
        r@ == "[{\"id\":1,\"user_id\":1,\"product\":\"Laptop\",\"amount\":999.99},{\"id\":2,\"user_id\":2,\"product\":\"Mouse\",\"amount\":29.99}]"@,
{
    "[{\"id\":1,\"user_id\":1,\"product\":\"Laptop\",\"amount\":999.99},{\"id\":2,\"user_id\":2,\"product\":\"Mouse\",\"amount\":29.99}]"
}

/// The gateway's answer at its root, as JSON text.
pub fn index() -> (r: &'static str)
    ensures
        r@ == "{\"message\":\"API Gateway\",\"services\":{\"users\":\"http://127.0.0.1:8080/api/users/{id}\",\"orders\":\"http://127.0.0.1:8080/api/orders/{id}\"}}"@,
{
    "{\"message\":\"API Gateway\",\"services\":{\"users\":\"http://127.0.0.1:8080/api/users/{id}\",\"orders\":\"http://127.0.0.1:8080/api/orders/{id}\"}}"
}

/// The address at which the gateway asks the user service for user `id`.
pub fn user_url(id: u64) -> (r: String)
    ensures
        r@ == around_number("http://127.0.0.1:8081/users/"@, id as nat, ""@),
{
    number_between("http://127.0.0.1:8081/users/", id, "")
}

/// The address at which the gateway asks the order service for order `id`.
pub fn order_url(id: u64) -> (r: String)
    ensures
        r@ == around_number("http://127.0.0.1:8082/orders/"@, id as nat, ""@),
{
    number_between("http://127.0.0.1:8082/orders/", id, "")
}

/// What the gateway relays: a record of one of the two services.
#[derive(Debug)]
pub enum GatewayData {
    User(User),
    Order(Order),
}

/// The gateway's envelope: the name of the service that answered, and its
/// answer.
#[derive(Debug)]
pub struct GatewayResponse {
    pub service: String,
    pub data: GatewayData,
}

/// The envelope for an answer of the user service.
pub fn proxy_get_user(user: User) -> (r: GatewayResponse)
    ensures
        r.service@ == "user-service"@,
        r.data == GatewayData::User(user),
{
    GatewayResponse { service: String::from_str("user-service"), data: GatewayData::User(user) }
}

/// The envelope for an answer of the order service.
pub fn proxy_get_order(order: Order) -> (r: GatewayResponse)
    ensures
        r.service@ == "order-service"@,
        r.data == GatewayData::Order(order),
{
    GatewayResponse {
        service: String::from_str("order-service"),
        data: GatewayData::Order(order),
    }
}

} // verus!
