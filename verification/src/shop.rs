//! The shop itself: the catalogue and the ledger in memory.
use std::collections::HashMap;

use candid::Principal;
use vstd::prelude::*;

use crate::catalog::{PurchaseError, ShopView};
use crate::product::{product_views, Product};
use crate::transaction::{transaction_views, Transaction};

verus! {

/// A catalogue of products, the ledger of completed sales, and the
/// counter that numbers new products.
pub struct Shop {
    products: HashMap<u64, Product>,
    transactions: Vec<Transaction>,
    next_product_id: u64,
}

impl View for Shop {
    type V = ShopView;

    closed spec fn view(&self) -> ShopView {
        ShopView {
            products: Map::new(
                |id: nat| id <= u64::MAX && self.products@.contains_key(id as u64),
                |id: nat| self.products@[id as u64]@,
            ),
            transactions: transaction_views(self.transactions@),
            next_product_id: self.next_product_id as nat,
        }
    }
}

impl Shop {
    /// Whether the shop is in a state that its operations can work on.
    /// `new` gives such a shop and every operation keeps it so.
    pub open spec fn wf(&self) -> bool {
        self@.inv()
    }

    /// Whether the counter can still number one more product.
    pub open spec fn has_free_id(&self) -> bool {
        self@.next_product_id < u64::MAX
    }

    /// Whether the total of a purchase can be written into the ledger:
    /// where the purchase goes through, unit price times quantity is at
    /// most `u64::MAX`.
    pub open spec fn total_fits(&self, product_id: u64, quantity: u64) -> bool {
        self@.check_purchase(product_id as nat, quantity as nat) is Ok ==> self@.total_price(
            product_id as nat,
            quantity as nat,
        ) <= u64::MAX
    }

    /// An empty shop.
    pub fn new() -> (shop: Shop)
        ensures
            shop.wf(),
            shop@ == ShopView::empty(),
    {
        let shop = Shop { products: HashMap::new(), transactions: Vec::new(), next_product_id: 1 };
        assert(shop@.products =~= Map::empty());
        assert(shop@.transactions =~= Seq::empty());
        shop
    }

    /// Enters a new product and returns its identifier.
    pub fn add_product(
        &mut self,
        name: String,
        description: String,
        price: u64,
        quantity: u64,
        is_handcrafted: bool,
    ) -> (id: u64)
        requires
            old(self).wf(),
            old(self).has_free_id(),
        ensures
            final(self).wf(),
            id == old(self)@.next_product_id,
            final(self)@ == old(self)@.add_product(
                name@,
                description@,
                price as nat,
                quantity as nat,
                is_handcrafted,
            ),
    {
        let id = self.next_product_id;
        let product = Product { id, name, description, price, quantity, is_handcrafted };
        self.products.insert(id, product);
        self.next_product_id = id + 1;
        proof {
            let after = old(self)@.add_product(
                name@,
                description@,
                price as nat,
                quantity as nat,
                is_handcrafted,
            );
            assert(self@.products =~= after.products);
            assert(self@.transactions =~= after.transactions);
        }
        id
    }

    /// Sells `quantity` units of a product to `buyer`.
    ///
    /// The product is looked up first and the stock compared second; a
    /// refused purchase changes nothing. A purchase of zero units of an
    /// existing product is accepted and recorded with a total of zero.
    pub fn buy_product(&mut self, buyer: Principal, product_id: u64, quantity: u64) -> (result:
        Result<(), PurchaseError>)
        requires
            old(self).wf(),
            old(self).total_fits(product_id, quantity),
        ensures
            final(self).wf(),
            result == old(self)@.check_purchase(product_id as nat, quantity as nat),
            result is Err ==> final(self)@ == old(self)@,
            final(self)@ == old(self)@.buy_product(buyer, product_id as nat, quantity as nat),
    {
        let (price, stock) = match self.products.get(&product_id) {
            Some(product) => (product.price, product.quantity),
            None => {
                return Err(PurchaseError::NotFound);
            },
        };
        if stock < quantity {
            return Err(PurchaseError::InsufficientStock);
        }
        let total_price = price * quantity;
        let mut product = self.products.remove(&product_id).unwrap();
        product.quantity = stock - quantity;
        self.products.insert(product_id, product);
        self.transactions.push(Transaction { buyer, product_id, quantity, total_price });
        proof {
            let after = old(self)@.buy_product(buyer, product_id as nat, quantity as nat);
            assert(self@.products =~= after.products);
            assert(self@.transactions =~= after.transactions);
        }
        Ok(())
    }

    /// The catalogue, by ascending identifier.
    pub fn list_products(&self) -> (list: Vec<Product>)
        requires
            self.wf(),
        ensures
            product_views(list@) == self@.list_products(),
    {
        let mut list: Vec<Product> = Vec::new();
        let mut id: u64 = 1;
        while id < self.next_product_id
            invariant
                self.wf(),
                1 <= id <= self.next_product_id,
                list@.len() == id - 1,
                forall|i: int|
                    0 <= i < list@.len() ==> (#[trigger] list@[i])@ == self@.products[(i + 1) as nat],
            decreases self.next_product_id - id,
        {
            assert(self@.products.contains_key(id as nat));
            let product = self.products.get(&id).unwrap();
            list.push(product.clone());
            id = id + 1;
        }
        assert(product_views(list@) =~= self@.list_products());
        list
    }

    /// Enters a new product if the counter can still number it. Returns
    /// `None`, and changes nothing, if it cannot.
    pub fn try_add_product(
        &mut self,
        name: String,
        description: String,
        price: u64,
        quantity: u64,
        is_handcrafted: bool,
    ) -> (id: Option<u64>)
        requires
            old(self).wf(),
        ensures
            final(self).wf(),
            id is Some <==> old(self).has_free_id(),
            id matches Some(n) ==> n == old(self)@.next_product_id && final(self)@ == old(
                self,
            )@.add_product(name@, description@, price as nat, quantity as nat, is_handcrafted),
            id is None ==> final(self)@ == old(self)@,
    {
        if self.next_product_id < u64::MAX {
            Some(self.add_product(name, description, price, quantity, is_handcrafted))
        } else {
            None
        }
    }

    /// Sells `quantity` units of a product to `buyer` if the total can be
    /// written into the ledger. Returns `None`, and changes nothing, if
    /// the purchase would go through but its total is above `u64::MAX`.
    pub fn try_buy_product(&mut self, buyer: Principal, product_id: u64, quantity: u64) -> (result:
        Option<Result<(), PurchaseError>>)
        requires
            old(self).wf(),
        ensures
            final(self).wf(),
            result is Some <==> old(self).total_fits(product_id, quantity),
            result matches Some(outcome) ==> outcome == old(self)@.check_purchase(
                product_id as nat,
                quantity as nat,
            ) && final(self)@ == old(self)@.buy_product(buyer, product_id as nat, quantity as nat),
            result is None ==> final(self)@ == old(self)@,
    {
        let fits = match self.products.get(&product_id) {
            Some(product) => product.quantity < quantity || product.price.checked_mul(
                quantity,
            ).is_some(),
            None => true,
        };
        if fits {
            Some(self.buy_product(buyer, product_id, quantity))
        } else {
            None
        }
    }

    /// Puts a shop together from its parts: the catalogue, numbered 1, 2,
    /// 3, ... in the order given, the ledger and the counter.
    pub(crate) fn from_parts(
        products: Vec<Product>,
        transactions: Vec<Transaction>,
        next_product_id: u64,
    ) -> (shop: Shop)
        requires
            next_product_id == products@.len() + 1,
            forall|i: int| 0 <= i < products@.len() ==> (#[trigger] products@[i]).id == i + 1,
        ensures
            shop@.products == Map::new(
                |id: nat| 1 <= id < next_product_id,
                |id: nat| products@[id - 1]@,
            ),
            shop@.transactions == transaction_views(transactions@),
            shop@.next_product_id == next_product_id,
    {
        let mut rest = products;
        let mut catalogue: HashMap<u64, Product> = HashMap::new();
        while rest.len() > 0
            invariant
                rest@ == products@.take(rest@.len() as int),
                rest@.len() <= products@.len(),
                next_product_id == products@.len() + 1,
                forall|i: int| 0 <= i < products@.len() ==> (#[trigger] products@[i]).id == i + 1,
                forall|id: u64|
                    catalogue@.contains_key(id) <==> rest@.len() < id <= products@.len(),
                forall|id: u64|
                    catalogue@.contains_key(id) ==> #[trigger] catalogue@[id] == products@[id - 1],
            decreases rest@.len(),
        {
            let product = rest.pop().unwrap();
            catalogue.insert(product.id, product);
        }
        let shop = Shop { products: catalogue, transactions, next_product_id };
        assert(shop@.products =~= Map::new(
            |id: nat| 1 <= id < next_product_id,
            |id: nat| products@[id - 1]@,
        ));
        shop
    }

    /// The ledger, oldest sale first.
    pub fn transactions(&self) -> (log: &Vec<Transaction>)
        ensures
            transaction_views(log@) == self@.transactions,
    {
        &self.transactions
    }

    /// The identifier that the next new product gets.
    pub fn next_product_id(&self) -> (id: u64)
        ensures
            id == self@.next_product_id,
    {
        self.next_product_id
    }
}

} // verus!
