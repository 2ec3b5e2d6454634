//! The state of the shop's front end: the catalogue last received, the
//! fields of the two forms, and what each message does to them.
use vstd::prelude::*;

use crate::product::Product;

verus! {

/// The product that the purchase form buys.
pub const PURCHASE_PRODUCT_ID: u64 = 1;

/// What the page shows and what its forms hold.
#[derive(Debug, PartialEq, Eq)]
pub struct Model {
    pub products: Vec<Product>,
    pub new_name: String,
    pub new_description: String,
    pub new_price: u64,
    pub new_quantity: u64,
    pub new_quantity_to_buy: u64,
    pub buy_product_result: Option<String>,
}

/// What can happen on the page.
#[derive(Debug, PartialEq, Eq)]
pub enum Msg {
    AddProduct,
    BuyProduct,
    FetchProducts,
    ReceiveProducts(Vec<Product>),
    SetNewName(String),
    SetNewDescription(String),
    SetNewPrice(u64),
    SetNewQuantity(u64),
    SetNewQuantityToBuy(u64),
}

/// A call to the shop that the page asks for.
#[derive(Debug, PartialEq, Eq)]
pub enum Request {
    AddProduct { name: String, description: String, price: u64, quantity: u64, is_handcrafted: bool },
    BuyProduct { product_id: u64, quantity: u64 },
    FetchProducts,
}

/// What follows from a message, besides the new state.
#[derive(Debug, PartialEq, Eq)]
pub struct Update {
    /// Whether the page is drawn again.
    pub should_render: bool,
    /// The call to send to the shop, if any.
    pub request: Option<Request>,
}

impl Model {
    /// The state after `msg`. The three messages that ask for a call
    /// leave it as it is.
    pub open spec fn after(self, msg: Msg) -> Model {
        match msg {
            Msg::AddProduct | Msg::BuyProduct | Msg::FetchProducts => self,
            Msg::ReceiveProducts(products) => Model { products, ..self },
            Msg::SetNewName(new_name) => Model { new_name, ..self },
            Msg::SetNewDescription(new_description) => Model { new_description, ..self },
            Msg::SetNewPrice(new_price) => Model { new_price, ..self },
            Msg::SetNewQuantity(new_quantity) => Model { new_quantity, ..self },
            Msg::SetNewQuantityToBuy(new_quantity_to_buy) => Model { new_quantity_to_buy, ..self },
        }
    }

    /// The call that `msg` asks for. A new product is entered with the
    /// fields of the first form, never as handmade; a purchase is of
    /// [`PURCHASE_PRODUCT_ID`], in the quantity of the second form.
    pub open spec fn request(self, msg: Msg) -> Option<Request> {
        match msg {
            Msg::AddProduct => Some(
                Request::AddProduct {
                    name: self.new_name,
                    description: self.new_description,
                    price: self.new_price,
                    quantity: self.new_quantity,
                    is_handcrafted: false,
                },
            ),
            Msg::BuyProduct => Some(
                Request::BuyProduct {
                    product_id: PURCHASE_PRODUCT_ID,
                    quantity: self.new_quantity_to_buy,
                },
            ),
            Msg::FetchProducts => Some(Request::FetchProducts),
            _ => None,
        }
    }

    /// Whether the page is drawn again on `msg`: on every message but the
    /// two that submit a form.
    pub open spec fn should_render(msg: Msg) -> bool {
        !(msg is AddProduct || msg is BuyProduct)
    }

    /// The state of a page just opened: no products, empty forms, no
    /// purchase made.
    pub fn create() -> (model: Model)
        ensures
            model.products@ == Seq::<Product>::empty(),
            model.new_name@ == Seq::<char>::empty(),
            model.new_description@ == Seq::<char>::empty(),
            model.new_price == 0,
            model.new_quantity == 0,
            model.new_quantity_to_buy == 0,
            model.buy_product_result is None,
    {
        Model {
            products: Vec::new(),
            new_name: String::new(),
            new_description: String::new(),
            new_price: 0,
            new_quantity: 0,
            new_quantity_to_buy: 0,
            buy_product_result: None,
        }
    }

    /// Takes in one message.
    pub fn update(&mut self, msg: Msg) -> (update: Update)
        ensures
            *final(self) == old(self).after(msg),
            update.should_render == Model::should_render(msg),
            update.request == old(self).request(msg),
    {
        match msg {
            Msg::AddProduct => {
                let request = Request::AddProduct {
                    name: self.new_name.clone(),
                    description: self.new_description.clone(),
                    price: self.new_price,
                    quantity: self.new_quantity,
                    is_handcrafted: false,
                };
                Update { should_render: false, request: Some(request) }
            },
            Msg::BuyProduct => {
                let request = Request::BuyProduct {
                    product_id: PURCHASE_PRODUCT_ID,
                    quantity: self.new_quantity_to_buy,
                };
                Update { should_render: false, request: Some(request) }
            },
            Msg::FetchProducts => {
                Update { should_render: true, request: Some(Request::FetchProducts) }
            },
            Msg::ReceiveProducts(products) => {
                self.products = products;
                Update { should_render: true, request: None }
            },
            Msg::SetNewName(name) => {
                self.new_name = name;
                Update { should_render: true, request: None }
            },
            Msg::SetNewDescription(description) => {
                self.new_description = description;
                Update { should_render: true, request: None }
            },
            Msg::SetNewPrice(price) => {
                self.new_price = price;
                Update { should_render: true, request: None }
            },
            Msg::SetNewQuantity(quantity) => {
                self.new_quantity = quantity;
                Update { should_render: true, request: None }
            },
            Msg::SetNewQuantityToBuy(quantity) => {
                self.new_quantity_to_buy = quantity;
                Update { should_render: true, request: None }
            },
        }
    }

    /// Keeps the shop's answer to a purchase.
    pub fn set_buy_product_result(&mut self, result: String)
        ensures
            *final(self) == (Model { buy_product_result: Some(result), ..*old(self) }),
    {
        self.buy_product_result = Some(result);
    }
}

} // verus!
