//! The whole shop as plain values, to be written out before the process
//! stops and read back when it starts again.
use vstd::prelude::*;

use crate::catalog::ShopView;
use crate::product::{product_views, Product, ProductView};
use crate::shop::Shop;
use crate::transaction::{transaction_views, Transaction, TransactionView};

verus! {

/// Everything a shop holds.
#[derive(Debug, PartialEq, Eq)]
pub struct Snapshot {
    /// The catalogue, by ascending identifier.
    pub products: Vec<Product>,
    /// The ledger, oldest sale first.
    pub transactions: Vec<Transaction>,
    pub next_product_id: u64,
}

/// The mathematical value of a [`Snapshot`].
pub struct SnapshotView {
    pub products: Seq<ProductView>,
    pub transactions: Seq<TransactionView>,
    pub next_product_id: nat,
}

impl View for Snapshot {
    type V = SnapshotView;

    open spec fn view(&self) -> SnapshotView {
        SnapshotView {
            products: product_views(self.products@),
            transactions: transaction_views(self.transactions@),
            next_product_id: self.next_product_id as nat,
        }
    }
}

impl ShopView {
    /// Everything the shop holds, the catalogue by ascending identifier.
    pub open spec fn snapshot(self) -> SnapshotView {
        SnapshotView {
            products: self.list_products(),
            transactions: self.transactions,
            next_product_id: self.next_product_id,
        }
    }
}

impl SnapshotView {
    /// Whether these values are a shop: the products are numbered 1, 2,
    /// 3, ... in the order in which they are listed, the counter is one
    /// past the last of them, no stock is negative, and every sale names
    /// one of the products.
    pub open spec fn valid(self) -> bool {
        &&& self.next_product_id == self.products.len() + 1
        &&& forall|i: int|
            0 <= i < self.products.len() ==> {
                &&& (#[trigger] self.products[i]).id == i + 1
                &&& self.products[i].quantity >= 0
            }
        &&& forall|i: int|
            0 <= i < self.transactions.len() ==> 1 <= (
            #[trigger] self.transactions[i]).product_id < self.next_product_id
    }

    /// The shop that these values describe.
    pub open spec fn restore(self) -> ShopView {
        ShopView {
            products: Map::new(
                |id: nat| 1 <= id < self.next_product_id,
                |id: nat| self.products[id - 1],
            ),
            transactions: self.transactions,
            next_product_id: self.next_product_id,
        }
    }
}

/// Taking a snapshot of a valid shop and restoring it gives the same
/// shop: the same catalogue, the same ledger in the same order, the same
/// counter.
pub proof fn law_snapshot_then_restore(shop: ShopView)
    requires
        shop.inv(),
    ensures
        shop.snapshot().valid(),
        shop.snapshot().restore() == shop,
{
    let snapshot = shop.snapshot();
    assert(snapshot.restore().products =~= shop.products);
}

/// Restoring valid values gives a valid shop whose snapshot is those
/// values.
pub proof fn law_restore_then_snapshot(snapshot: SnapshotView)
    requires
        snapshot.valid(),
    ensures
        snapshot.restore().inv(),
        snapshot.restore().snapshot() == snapshot,
{
    let shop = snapshot.restore();
    assert(shop.snapshot().products =~= snapshot.products);
}

impl Shop {
    /// Everything the shop holds, as plain values.
    pub fn snapshot(&self) -> (snapshot: Snapshot)
        requires
            self.wf(),
        ensures
            snapshot@ == self@.snapshot(),
    {
        let log = self.transactions();
        let mut transactions: Vec<Transaction> = Vec::new();
        let mut i: usize = 0;
        while i < log.len()
            invariant
                i <= log.len(),
                transactions@ == log@.take(i as int),
            decreases log.len() - i,
        {
            transactions.push(log[i].clone());
            i = i + 1;
        }
        assert(transactions@ =~= log@);
        Snapshot {
            products: self.list_products(),
            transactions,
            next_product_id: self.next_product_id(),
        }
    }

    /// The shop that a snapshot describes, or `None` if the values are
    /// not a shop.
    pub fn restore(snapshot: Snapshot) -> (shop: Option<Shop>)
        ensures
            shop is Some <==> snapshot@.valid(),
            shop matches Some(restored) ==> restored.wf() && restored@ == snapshot@.restore(),
    {
        let count = snapshot.products.len() as u64;
        if count == u64::MAX || snapshot.next_product_id != count + 1 {
            return None;
        }
        let mut i: usize = 0;
        while i < snapshot.products.len()
            invariant
                i <= snapshot.products.len(),
                forall|k: int| 0 <= k < i ==> (#[trigger] snapshot.products@[k]).id == k + 1,
            decreases snapshot.products.len() - i,
        {
            if snapshot.products[i].id != i as u64 + 1 {
                assert(snapshot@.products[i as int] == snapshot.products@[i as int]@);
                return None;
            }
            i = i + 1;
        }
        let mut j: usize = 0;
        while j < snapshot.transactions.len()
            invariant
                j <= snapshot.transactions.len(),
                forall|k: int|
                    0 <= k < j ==> 1 <= (#[trigger] snapshot.transactions@[k]).product_id
                        < snapshot.next_product_id,
            decreases snapshot.transactions.len() - j,
        {
            let product_id = snapshot.transactions[j].product_id;
            if product_id < 1 || product_id >= snapshot.next_product_id {
                assert(snapshot@.transactions[j as int] == snapshot.transactions@[j as int]@);
                return None;
            }
            j = j + 1;
        }
        proof {
            assert forall|k: int| 0 <= k < snapshot@.products.len() implies {
                &&& (#[trigger] snapshot@.products[k]).id == k + 1
                &&& snapshot@.products[k].quantity >= 0
            } by {
                assert(snapshot@.products[k] == snapshot.products@[k]@);
            }
            assert forall|k: int| 0 <= k < snapshot@.transactions.len() implies 1 <= (
            #[trigger] snapshot@.transactions[k]).product_id < snapshot@.next_product_id by {
                assert(snapshot@.transactions[k] == snapshot.transactions@[k]@);
            }
            assert(snapshot@.valid());
            law_restore_then_snapshot(snapshot@);
        }
        let Snapshot { products, transactions, next_product_id } = snapshot;
        let shop = Shop::from_parts(products, transactions, next_product_id);
        assert(shop@.products =~= snapshot@.restore().products);
        Some(shop)
    }
}

} // verus!
