//! Sequences of operations, and what holds of the shop after any of them.
use candid::Principal;
use vstd::prelude::*;

use crate::catalog::ShopView;
use crate::product::ProductView;
use crate::transaction::TransactionView;

verus! {

/// One call on the shop.
pub enum Operation {
    AddProduct {
        name: Seq<char>,
        description: Seq<char>,
        price: nat,
        quantity: nat,
        is_handcrafted: bool,
    },
    ListProducts,
    BuyProduct { buyer: Principal, product_id: nat, quantity: nat },
}

impl ShopView {
    /// The shop after one operation.
    pub open spec fn apply(self, op: Operation) -> ShopView {
        match op {
            Operation::AddProduct { name, description, price, quantity, is_handcrafted } => {
                self.add_product(name, description, price, quantity, is_handcrafted)
            },
            Operation::ListProducts => self,
            Operation::BuyProduct { buyer, product_id, quantity } => {
                self.buy_product(buyer, product_id, quantity)
            },
        }
    }
}

/// The shop after the operations `ops`, carried out in order on an empty
/// shop.
pub open spec fn replay(ops: Seq<Operation>) -> ShopView
    decreases ops.len(),
{
    if ops.len() == 0 {
        ShopView::empty()
    } else {
        replay(ops.drop_last()).apply(ops.last())
    }
}

/// How many of `ops` enter a new product.
pub open spec fn products_added(ops: Seq<Operation>) -> nat
    decreases ops.len(),
{
    if ops.len() == 0 {
        0
    } else if ops.last() is AddProduct {
        products_added(ops.drop_last()) + 1
    } else {
        products_added(ops.drop_last())
    }
}

/// The number of units that product `id` was entered with in `ops`, or 0
/// if `ops` does not enter it.
pub open spec fn units_stocked(ops: Seq<Operation>, id: nat) -> int
    decreases ops.len(),
{
    if ops.len() == 0 {
        0
    } else {
        match ops.last() {
            Operation::AddProduct { quantity, .. } => {
                if replay(ops.drop_last()).next_product_id == id {
                    quantity as int
                } else {
                    units_stocked(ops.drop_last(), id)
                }
            },
            _ => units_stocked(ops.drop_last(), id),
        }
    }
}

/// The number of units of product `id` sold according to the ledger
/// `log`.
pub open spec fn units_sold(log: Seq<TransactionView>, id: nat) -> int
    decreases log.len(),
{
    if log.len() == 0 {
        0
    } else if log.last().product_id == id {
        units_sold(log.drop_last(), id) + log.last().quantity
    } else {
        units_sold(log.drop_last(), id)
    }
}

/// Entering a product keeps a valid shop valid.
pub proof fn law_add_product_keeps_shop_valid(
    shop: ShopView,
    name: Seq<char>,
    description: Seq<char>,
    price: nat,
    quantity: nat,
    is_handcrafted: bool,
)
    requires
        shop.inv(),
    ensures
        shop.add_product(name, description, price, quantity, is_handcrafted).inv(),
{
}

/// A purchase, accepted or refused, keeps a valid shop valid. In
/// particular no stock goes below zero.
pub proof fn law_buy_product_keeps_shop_valid(
    shop: ShopView,
    buyer: Principal,
    product_id: nat,
    quantity: nat,
)
    requires
        shop.inv(),
    ensures
        shop.buy_product(buyer, product_id, quantity).inv(),
{
}

/// A refused purchase leaves the catalogue, the ledger and the counter
/// as they were.
pub proof fn law_refused_purchase_changes_nothing(
    shop: ShopView,
    buyer: Principal,
    product_id: nat,
    quantity: nat,
)
    requires
        shop.check_purchase(product_id, quantity) is Err,
    ensures
        shop.buy_product(buyer, product_id, quantity) == shop,
{
}

/// No operation takes a product out of the catalogue, and none changes
/// anything of a product but its stock.
pub proof fn law_only_stock_changes(shop: ShopView, op: Operation, id: nat)
    requires
        shop.inv(),
        shop.products.contains_key(id),
    ensures
        shop.apply(op).products.contains_key(id),
        shop.apply(op).products[id] == (ProductView {
            quantity: shop.apply(op).products[id].quantity,
            ..shop.products[id]
        }),
{
}

/// No operation takes a record off the ledger or changes one: the
/// ledger before is a prefix of the ledger after.
pub proof fn law_ledger_is_append_only(shop: ShopView, op: Operation)
    ensures
        shop.transactions.is_prefix_of(shop.apply(op).transactions),
{
}

/// After any sequence of operations the shop is valid: the identifiers
/// in use are exactly `1 .. next_product_id`, and no stock is negative.
pub proof fn law_shop_is_always_valid(ops: Seq<Operation>)
    ensures
        replay(ops).inv(),
    decreases ops.len(),
{
    if ops.len() > 0 {
        law_shop_is_always_valid(ops.drop_last());
        let before = replay(ops.drop_last());
        match ops.last() {
            Operation::AddProduct { name, description, price, quantity, is_handcrafted } => {
                law_add_product_keeps_shop_valid(
                    before,
                    name,
                    description,
                    price,
                    quantity,
                    is_handcrafted,
                );
            },
            Operation::ListProducts => {},
            Operation::BuyProduct { buyer, product_id, quantity } => {
                law_buy_product_keeps_shop_valid(before, buyer, product_id, quantity);
            },
        }
    }
}

/// Identifiers are handed out as 1, 2, 3, ...: a new product gets the
/// shop's `next_product_id`, and after any sequence of operations that
/// is one more than the number of products entered so far, whatever
/// else was done in between.
pub proof fn law_identifiers_count_up(ops: Seq<Operation>)
    ensures
        replay(ops).next_product_id == 1 + products_added(ops),
    decreases ops.len(),
{
    if ops.len() > 0 {
        law_identifiers_count_up(ops.drop_last());
    }
}

/// A product that no record of the ledger names has sold nothing.
proof fn lemma_unsold(log: Seq<TransactionView>, id: nat)
    requires
        forall|i: int| 0 <= i < log.len() ==> (#[trigger] log[i]).product_id != id,
    ensures
        units_sold(log, id) == 0,
    decreases log.len(),
{
    if log.len() > 0 {
        lemma_unsold(log.drop_last(), id);
    }
}

/// Nothing is lost and nothing is made up: for every product of the
/// catalogue, the units sold according to the ledger plus the units in
/// stock are the units it was entered with.
pub proof fn law_stock_is_conserved(ops: Seq<Operation>, id: nat)
    requires
        replay(ops).products.contains_key(id),
    ensures
        units_sold(replay(ops).transactions, id) + replay(ops).products[id].quantity
            == units_stocked(ops, id),
    decreases ops.len(),
{
    if ops.len() > 0 {
        let before = replay(ops.drop_last());
        law_shop_is_always_valid(ops.drop_last());
        match ops.last() {
            Operation::AddProduct { .. } => {
                if before.next_product_id == id {
                    lemma_unsold(before.transactions, id);
                } else {
                    law_stock_is_conserved(ops.drop_last(), id);
                }
            },
            Operation::ListProducts => {
                law_stock_is_conserved(ops.drop_last(), id);
            },
            Operation::BuyProduct { buyer, product_id, quantity } => {
                law_stock_is_conserved(ops.drop_last(), id);
                if before.check_purchase(product_id, quantity) is Ok {
                    let after = before.buy_product(buyer, product_id, quantity);
                    assert(after.transactions.drop_last() =~= before.transactions);
                }
            },
        }
    }
}

} // verus!
