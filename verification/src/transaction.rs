//! Purchase records.
use candid::Principal;
use vstd::prelude::*;

verus! {

/// `candid::Principal`, the identity of a caller. Its contents are never
/// read here: a value is stored as it came and handed out again.
#[verifier::external_type_specification]
#[verifier::external_body]
pub struct ExPrincipal(Principal);

/// One completed sale.
#[derive(Debug, PartialEq, Eq)]
pub struct Transaction {
    pub buyer: Principal,
    pub product_id: u64,
    pub quantity: u64,
    /// Unit price at the time of the sale times `quantity`.
    pub total_price: u64,
}

/// The mathematical value of a [`Transaction`].
pub struct TransactionView {
    pub buyer: Principal,
    pub product_id: nat,
    pub quantity: nat,
    pub total_price: nat,
}

impl View for Transaction {
    type V = TransactionView;

    open spec fn view(&self) -> TransactionView {
        TransactionView {
            buyer: self.buyer,
            product_id: self.product_id as nat,
            quantity: self.quantity as nat,
            total_price: self.total_price as nat,
        }
    }
}

impl Clone for Transaction {
    fn clone(&self) -> (res: Self)
        ensures
            res == *self,
    {
        Transaction {
            buyer: self.buyer,
            product_id: self.product_id,
            quantity: self.quantity,
            total_price: self.total_price,
        }
    }
}

/// The values of a list of purchase records, in the same order.
pub open spec fn transaction_views(transactions: Seq<Transaction>) -> Seq<TransactionView> {
    transactions.map_values(|t: Transaction| t@)
}

} // verus!
