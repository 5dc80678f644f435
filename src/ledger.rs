use vstd::prelude::*;
use crate::error::LocalError;
use crate::product::{Product, ProductV};

verus! {

/// An order to be appended to the ledger. The ledger assigns its
/// identifier; the total is the product's price when it was bought.
#[derive(PartialEq, Eq, Structural, Clone, Copy, Debug)]
pub struct NewOrder {
    pub user_id: i32,
    pub product_id: i32,
    /// Milliseconds since the Unix epoch, taken by the service.
    pub timestamp: i64,
    pub total_price_cents: i64,
}

/// What a purchase writes: the product after the decrement, and its order.
pub struct Purchased {
    pub product: Product,
    pub order: NewOrder,
}

pub struct PurchasedV {
    pub product: ProductV,
    pub order: NewOrder,
}

impl View for Purchased {
    type V = PurchasedV;

    open spec fn view(&self) -> PurchasedV {
        PurchasedV { product: self.product@, order: self.order }
    }
}

/// The purchase rule, applied to the product row as read under the row's
/// lock: no row gives `IdNotFound`, a quantity below one
/// `WrongParameters`, a count below the quantity `ItemNotAvailable`;
/// otherwise the count drops by the quantity and one order is written with
/// the price that the product had.
pub open spec fn purchase_spec(p: Option<ProductV>, quantity: i32, user_id: i32, now: i64) -> Result<
    PurchasedV,
    LocalError,
> {
    match p {
        None => Err(LocalError::IdNotFound),
        Some(p) => if quantity < 1 {
            Err(LocalError::WrongParameters)
        } else if p.count < quantity {
            Err(LocalError::ItemNotAvailable)
        } else {
            Ok(
                PurchasedV {
                    product: ProductV { count: (p.count - quantity) as i32, ..p },
                    order: NewOrder {
                        user_id,
                        product_id: p.id,
                        timestamp: now,
                        total_price_cents: p.price_cents,
                    },
                },
            )
        },
    }
}

pub open spec fn opt_product_view(p: Option<&Product>) -> Option<ProductV> {
    match p {
        Some(q) => Some(q@),
        None => None,
    }
}

pub open spec fn row_view(p: Option<Product>) -> Option<ProductV> {
    match p {
        Some(q) => Some(q@),
        None => None,
    }
}

/// Decides a purchase of `quantity` items of the product row `p` (read
/// under its lock) for `user_id` at time `now`.
pub fn purchase(p: Option<&Product>, quantity: i32, user_id: i32, now: i64) -> (r: Result<
    Purchased,
    LocalError,
>)
    ensures
        match r {
            Ok(b) => purchase_spec(opt_product_view(p), quantity, user_id, now) == Ok::<
                PurchasedV,
                LocalError,
            >(b@),
            Err(e) => purchase_spec(opt_product_view(p), quantity, user_id, now) == Err::<
                PurchasedV,
                LocalError,
            >(e),
        },
{
    match p {
        None => Err(LocalError::IdNotFound),
        Some(p) => {
            if quantity < 1 {
                return Err(LocalError::WrongParameters);
            }
            if p.count < quantity {
                return Err(LocalError::ItemNotAvailable);
            }
            let order = NewOrder {
                user_id,
                product_id: p.id,
                timestamp: now,
                total_price_cents: p.price_cents,
            };
            let mut after = p.duplicate();
            after.count = p.count - quantity;
            Ok(Purchased { product: after, order })
        },
    }
}

/// A product that is sold out refuses every purchase, and nothing is
/// written for it.
pub proof fn lemma_sold_out_refuses(p: ProductV, quantity: i32, user_id: i32, now: i64)
    requires
        p.count == 0,
        quantity >= 1,
    ensures
        purchase_spec(Some(p), quantity, user_id, now) == Err::<PurchasedV, LocalError>(
            LocalError::ItemNotAvailable,
        ),
{
}

/// A successful purchase writes one order whose total is the price before
/// the purchase, and lowers the count by exactly the quantity; nothing else
/// of the product changes.
pub proof fn lemma_purchase_effect(p: ProductV, quantity: i32, user_id: i32, now: i64)
    requires
        purchase_spec(Some(p), quantity, user_id, now) is Ok,
    ensures
        ({
            let b = purchase_spec(Some(p), quantity, user_id, now)->Ok_0;
            &&& b.order.total_price_cents == p.price_cents
            &&& b.order.product_id == p.id
            &&& b.order.user_id == user_id
            &&& b.product.count == p.count - quantity
            &&& b.product == ProductV { count: b.product.count, ..p }
        }),
{
}

/// Purchases of one product are decided one after the other under the
/// row's lock, so two purchases that together ask for more than the stock
/// cannot both succeed: the second one is refused as unavailable.
pub proof fn lemma_no_oversell(
    p: ProductV,
    q1: i32,
    u1: i32,
    t1: i64,
    q2: i32,
    u2: i32,
    t2: i64,
)
    requires
        q1 >= 1,
        q2 >= 1,
        q1 + q2 > p.count,
        purchase_spec(Some(p), q1, u1, t1) is Ok,
    ensures
        purchase_spec(Some(purchase_spec(Some(p), q1, u1, t1)->Ok_0.product), q2, u2, t2) == Err::<
            PurchasedV,
            LocalError,
        >(LocalError::ItemNotAvailable),
{
}

/// A purchase never drives the count below zero.
pub proof fn lemma_count_stays_nonnegative(p: ProductV, quantity: i32, user_id: i32, now: i64)
    requires
        p.count >= 0,
        purchase_spec(Some(p), quantity, user_id, now) is Ok,
    ensures
        purchase_spec(Some(p), quantity, user_id, now)->Ok_0.product.count >= 0,
{
}

} // verus!
