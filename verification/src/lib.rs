//! A small watch shop.
//!
//! [`shop::Shop`] keeps a catalogue of products and a ledger of completed
//! sales. What its operations do is defined on [`catalog::ShopView`], the
//! shop as a mathematical value; [`history`] states what holds after any
//! sequence of operations, and [`snapshot`] how the whole shop is taken
//! apart into plain values and put together again. [`form`] and
//! [`amount`] are the state of the page through which the shop is used.
pub mod amount;
pub mod catalog;
pub mod form;
pub mod history;
pub mod product;
pub mod shop;
pub mod snapshot;
pub mod transaction;
