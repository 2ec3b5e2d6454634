//! Catalogue entries.
use vstd::prelude::*;

verus! {

/// One sellable item and the number of units still in stock.
#[derive(Debug, PartialEq, Eq)]
pub struct Product {
    pub id: u64,
    pub name: String,
    pub description: String,
    /// Unit price in the smallest currency unit.
    pub price: u64,
    /// Units still available.
    pub quantity: u64,
    /// Whether the watch is handmade. Stored and shown, nothing more.
    pub is_handcrafted: bool,
}

/// The mathematical value of a [`Product`].
///
/// The stock is an `int` so that selling is plain subtraction: that it
/// never drops below zero is a property of the shop's rules, not of the
/// type.
pub struct ProductView {
    pub id: nat,
    pub name: Seq<char>,
    pub description: Seq<char>,
    pub price: nat,
    pub quantity: int,
    pub is_handcrafted: bool,
}

impl View for Product {
    type V = ProductView;

    open spec fn view(&self) -> ProductView {
        ProductView {
            id: self.id as nat,
            name: self.name@,
            description: self.description@,
            price: self.price as nat,
            quantity: self.quantity as int,
            is_handcrafted: self.is_handcrafted,
        }
    }
}

impl Clone for Product {
    fn clone(&self) -> (res: Self)
        ensures
            res == *self,
    {
        Product {
            id: self.id,
            name: self.name.clone(),
            description: self.description.clone(),
            price: self.price,
            quantity: self.quantity,
            is_handcrafted: self.is_handcrafted,
        }
    }
}

/// The values of a list of products, in the same order.
pub open spec fn product_views(products: Seq<Product>) -> Seq<ProductView> {
    products.map_values(|p: Product| p@)
}

} // verus!
