//! The shop as a mathematical state machine: what the catalogue and the
//! ledger hold, and how each operation changes them.
use candid::Principal;
use vstd::prelude::*;

use crate::product::ProductView;
use crate::transaction::TransactionView;

verus! {

/// Why a purchase was refused.
#[derive(Debug, Clone, Copy, PartialEq, Eq, Structural)]
pub enum PurchaseError {
    /// No product has the requested identifier.
    NotFound,
    /// Fewer units are in stock than were asked for.
    InsufficientStock,
}

impl PurchaseError {
    /// The text shown to the buyer.
    pub open spec fn message_text(self) -> Seq<char> {
        match self {
            PurchaseError::NotFound => "Produk tidak ditemukan"@,
            PurchaseError::InsufficientStock => "Stok tidak cukup"@,
        }
    }

    pub fn message(&self) -> (text: String)
        ensures
            text@ == self.message_text(),
    {
        match self {
            PurchaseError::NotFound => "Produk tidak ditemukan".to_owned(),
            PurchaseError::InsufficientStock => "Stok tidak cukup".to_owned(),
        }
    }
}

/// The whole state of a shop.
pub struct ShopView {
    /// The catalogue, by identifier.
    pub products: Map<nat, ProductView>,
    /// Completed sales, oldest first.
    pub transactions: Seq<TransactionView>,
    /// The identifier that the next new product gets.
    pub next_product_id: nat,
}

impl ShopView {
    /// A shop with nothing in it. Identifiers start at 1.
    pub open spec fn empty() -> ShopView {
        ShopView { products: Map::empty(), transactions: Seq::empty(), next_product_id: 1 }
    }

    /// What holds of every shop: the identifiers handed out so far are
    /// exactly `1 .. next_product_id`, each product is filed under its own
    /// identifier, no stock is negative, and every sale names a product of
    /// the catalogue.
    pub open spec fn inv(self) -> bool {
        &&& self.next_product_id >= 1
        &&& forall|id: nat|
            self.products.contains_key(id) <==> 1 <= id < self.next_product_id
        &&& forall|id: nat|
            self.products.contains_key(id) ==> {
                &&& (#[trigger] self.products[id]).id == id
                &&& self.products[id].quantity >= 0
            }
        &&& forall|i: int|
            0 <= i < self.transactions.len() ==> self.products.contains_key(
                (#[trigger] self.transactions[i]).product_id,
            )
    }

    /// The shop after a new product was entered. The product gets
    /// `self.next_product_id`; no sale is recorded.
    pub open spec fn add_product(
        self,
        name: Seq<char>,
        description: Seq<char>,
        price: nat,
        quantity: nat,
        is_handcrafted: bool,
    ) -> ShopView {
        ShopView {
            products: self.products.insert(
                self.next_product_id,
                ProductView {
                    id: self.next_product_id,
                    name,
                    description,
                    price,
                    quantity: quantity as int,
                    is_handcrafted,
                },
            ),
            transactions: self.transactions,
            next_product_id: self.next_product_id + 1,
        }
    }

    /// Whether a purchase goes through. The product is looked up first,
    /// the stock is compared second.
    pub open spec fn check_purchase(self, product_id: nat, quantity: nat) -> Result<
        (),
        PurchaseError,
    > {
        if !self.products.contains_key(product_id) {
            Err(PurchaseError::NotFound)
        } else if self.products[product_id].quantity < quantity {
            Err(PurchaseError::InsufficientStock)
        } else {
            Ok(())
        }
    }

    /// The price of `quantity` units of a product, at its current unit
    /// price.
    pub open spec fn total_price(self, product_id: nat, quantity: nat) -> nat {
        self.products[product_id].price * quantity
    }

    /// The shop after a purchase was asked for. A refused purchase leaves
    /// it as it was. An accepted one takes `quantity` units off the
    /// product's stock and appends one record to the ledger. A purchase
    /// of zero units of an existing product is accepted.
    pub open spec fn buy_product(self, buyer: Principal, product_id: nat, quantity: nat) -> ShopView {
        if self.check_purchase(product_id, quantity) is Ok {
            let product = self.products[product_id];
            ShopView {
                products: self.products.insert(
                    product_id,
                    ProductView { quantity: product.quantity - quantity, ..product },
                ),
                transactions: self.transactions.push(
                    TransactionView {
                        buyer,
                        product_id,
                        quantity,
                        total_price: self.total_price(product_id, quantity),
                    },
                ),
                next_product_id: self.next_product_id,
            }
        } else {
            self
        }
    }

    /// The catalogue as a list, by ascending identifier.
    pub open spec fn list_products(self) -> Seq<ProductView> {
        Seq::new((self.next_product_id - 1) as nat, |i: int| self.products[(i + 1) as nat])
    }
}

} // verus!
