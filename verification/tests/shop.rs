use candid::Principal;
use jual_beli_jam::catalog::PurchaseError;
use jual_beli_jam::product::Product;
use jual_beli_jam::shop::Shop;
use jual_beli_jam::transaction::Transaction;

fn buyer() -> Principal {
    Principal::from_slice(&[7, 7, 7])
}

fn watch_a() -> Product {
    Product {
        id: 1,
        name: "Watch A".to_string(),
        description: "desc".to_string(),
        price: 1000,
        quantity: 5,
        is_handcrafted: true,
    }
}

fn shop_with_watch_a() -> Shop {
    let mut shop = Shop::new();
    shop.add_product("Watch A".to_string(), "desc".to_string(), 1000, 5, true);
    shop
}

#[test]
fn new_shop_is_empty() {
    let shop = Shop::new();
    assert!(shop.list_products().is_empty());
    assert!(shop.transactions().is_empty());
    assert_eq!(shop.next_product_id(), 1);
}

#[test]
fn scenario_a_first_product_gets_identifier_one() {
    let mut shop = Shop::new();
    let id = shop.add_product("Watch A".to_string(), "desc".to_string(), 1000, 5, true);
    assert_eq!(id, 1);
    assert_eq!(shop.list_products(), vec![watch_a()]);
    assert!(shop.transactions().is_empty());
}

#[test]
fn scenario_b_purchase_takes_units_off_and_is_recorded() {
    let mut shop = shop_with_watch_a();
    assert_eq!(shop.buy_product(buyer(), 1, 3), Ok(()));
    assert_eq!(shop.list_products(), vec![Product { quantity: 2, ..watch_a() }]);
    assert_eq!(
        shop.transactions(),
        &vec![Transaction { buyer: buyer(), product_id: 1, quantity: 3, total_price: 3000 }]
    );
}

#[test]
fn scenario_c_purchase_beyond_stock_is_refused() {
    let mut shop = shop_with_watch_a();
    assert_eq!(shop.buy_product(buyer(), 1, 3), Ok(()));
    let before = shop.snapshot();
    assert_eq!(shop.buy_product(buyer(), 1, 10), Err(PurchaseError::InsufficientStock));
    assert_eq!(shop.snapshot(), before);
    assert_eq!(shop.list_products()[0].quantity, 2);
    assert_eq!(shop.transactions().len(), 1);
}

#[test]
fn scenario_d_purchase_on_empty_shop_is_not_found() {
    let mut shop = Shop::new();
    assert_eq!(shop.buy_product(buyer(), 999, 1), Err(PurchaseError::NotFound));
    assert!(shop.list_products().is_empty());
    assert!(shop.transactions().is_empty());
    assert_eq!(shop.next_product_id(), 1);
}

#[test]
fn scenario_e_two_products_get_one_and_two() {
    let mut shop = Shop::new();
    assert!(shop.list_products().is_empty());
    let first = shop.add_product("Watch A".to_string(), "desc".to_string(), 1000, 5, true);
    assert_eq!(shop.list_products().len(), 1);
    assert_eq!(shop.list_products().len(), 1);
    let second = shop.add_product("Watch B".to_string(), "other".to_string(), 250, 1, false);
    assert_eq!(first, 1);
    assert_eq!(second, 2);
    assert_eq!(shop.list_products().len(), 2);
}

#[test]
fn identifiers_count_up_by_one_whatever_happens_in_between() {
    let mut shop = Shop::new();
    let mut expected: u64 = 1;
    while expected <= 40 {
        let id = shop.add_product(format!("Watch {}", expected), String::new(), expected, 3, false);
        assert_eq!(id, expected);
        assert_eq!(shop.next_product_id(), expected + 1);
        let _ = shop.list_products();
        let _ = shop.buy_product(buyer(), expected, 1);
        let _ = shop.buy_product(buyer(), expected + 1, 1);
        let _ = shop.buy_product(buyer(), 1, 100);
        expected += 1;
    }
}

#[test]
fn list_products_is_by_ascending_identifier() {
    let mut shop = Shop::new();
    let mut n: u64 = 0;
    while n < 100 {
        shop.add_product(format!("w{}", n), format!("d{}", n), n * 10, n, n % 2 == 0);
        n += 1;
    }
    let list = shop.list_products();
    assert_eq!(list.len(), 100);
    for (i, product) in list.iter().enumerate() {
        let n = i as u64;
        assert_eq!(product.id, n + 1);
        assert_eq!(product.name, format!("w{}", n));
        assert_eq!(product.description, format!("d{}", n));
        assert_eq!(product.price, n * 10);
        assert_eq!(product.quantity, n);
        assert_eq!(product.is_handcrafted, n % 2 == 0);
    }
    assert_eq!(shop.list_products(), list);
}

#[test]
fn stock_can_be_sold_out_but_not_oversold() {
    let mut shop = shop_with_watch_a();
    assert_eq!(shop.buy_product(buyer(), 1, 5), Ok(()));
    assert_eq!(shop.list_products()[0].quantity, 0);
    assert_eq!(shop.buy_product(buyer(), 1, 1), Err(PurchaseError::InsufficientStock));
    assert_eq!(shop.list_products()[0].quantity, 0);
    assert_eq!(shop.buy_product(buyer(), 1, u64::MAX), Err(PurchaseError::InsufficientStock));
    assert_eq!(shop.list_products()[0].quantity, 0);
}

#[test]
fn refused_purchase_changes_nothing() {
    let mut shop = shop_with_watch_a();
    shop.add_product("Watch B".to_string(), "b".to_string(), 20, 2, false);
    assert_eq!(shop.buy_product(buyer(), 2, 1), Ok(()));
    let before = shop.snapshot();
    assert_eq!(shop.buy_product(buyer(), 3, 1), Err(PurchaseError::NotFound));
    assert_eq!(shop.snapshot(), before);
    assert_eq!(shop.buy_product(buyer(), 0, 0), Err(PurchaseError::NotFound));
    assert_eq!(shop.snapshot(), before);
    assert_eq!(shop.buy_product(buyer(), 2, 2), Err(PurchaseError::InsufficientStock));
    assert_eq!(shop.snapshot(), before);
    assert_eq!(shop.buy_product(buyer(), 1, 6), Err(PurchaseError::InsufficientStock));
    assert_eq!(shop.snapshot(), before);
}

#[test]
fn missing_product_is_reported_before_stock() {
    let mut shop = shop_with_watch_a();
    assert_eq!(shop.buy_product(buyer(), 2, u64::MAX), Err(PurchaseError::NotFound));
    assert_eq!(shop.buy_product(buyer(), 2, 0), Err(PurchaseError::NotFound));
}

#[test]
fn units_sold_plus_units_in_stock_are_units_entered() {
    let mut shop = Shop::new();
    let entered: [u64; 3] = [10, 0, 7];
    for quantity in entered {
        shop.add_product(String::new(), String::new(), 3, quantity, false);
    }
    let orders: [(u64, u64); 9] =
        [(1, 4), (3, 7), (2, 1), (1, 7), (1, 6), (3, 1), (4, 1), (1, 0), (2, 0)];
    for (product_id, quantity) in orders {
        let _ = shop.buy_product(buyer(), product_id, quantity);
        for product in shop.list_products() {
            let sold: u64 = shop
                .transactions()
                .iter()
                .filter(|t| t.product_id == product.id)
                .map(|t| t.quantity)
                .sum();
            assert_eq!(sold + product.quantity, entered[(product.id - 1) as usize]);
        }
    }
    let quantities: Vec<u64> = shop.list_products().iter().map(|p| p.quantity).collect();
    assert_eq!(quantities, vec![0, 0, 0]);
    assert_eq!(shop.transactions().len(), 5);
}

#[test]
fn purchase_of_zero_units_is_accepted_and_recorded() {
    let mut shop = shop_with_watch_a();
    assert_eq!(shop.buy_product(buyer(), 1, 0), Ok(()));
    assert_eq!(shop.list_products(), vec![watch_a()]);
    assert_eq!(
        shop.transactions(),
        &vec![Transaction { buyer: buyer(), product_id: 1, quantity: 0, total_price: 0 }]
    );
}

#[test]
fn total_price_is_unit_price_times_quantity() {
    let mut shop = Shop::new();
    shop.add_product("a".to_string(), "b".to_string(), 1234, 9, false);
    assert_eq!(shop.buy_product(buyer(), 1, 7), Ok(()));
    assert_eq!(shop.transactions()[0].total_price, 8638);
    assert_eq!(shop.buy_product(buyer(), 1, 2), Ok(()));
    assert_eq!(shop.transactions()[1].total_price, 2468);
}

#[test]
fn ledger_keeps_sales_in_the_order_made() {
    let mut shop = shop_with_watch_a();
    shop.add_product("Watch B".to_string(), "b".to_string(), 20, 2, false);
    let alice = Principal::from_slice(&[1]);
    let bob = Principal::anonymous();
    assert_eq!(shop.buy_product(alice, 2, 1), Ok(()));
    assert_eq!(shop.buy_product(bob, 1, 2), Ok(()));
    assert_eq!(shop.buy_product(bob, 1, 9), Err(PurchaseError::InsufficientStock));
    assert_eq!(shop.buy_product(alice, 1, 1), Ok(()));
    assert_eq!(
        shop.transactions(),
        &vec![
            Transaction { buyer: alice, product_id: 2, quantity: 1, total_price: 20 },
            Transaction { buyer: bob, product_id: 1, quantity: 2, total_price: 2000 },
            Transaction { buyer: alice, product_id: 1, quantity: 1, total_price: 1000 },
        ]
    );
}

#[test]
fn error_messages() {
    assert_eq!(PurchaseError::NotFound.message(), "Produk tidak ditemukan");
    assert_eq!(PurchaseError::InsufficientStock.message(), "Stok tidak cukup");
}

#[test]
fn try_add_product_numbers_like_add_product() {
    let mut shop = Shop::new();
    assert_eq!(shop.try_add_product("Watch A".to_string(), "desc".to_string(), 1000, 5, true), Some(1));
    assert_eq!(shop.add_product("Watch B".to_string(), String::new(), 1, 1, false), 2);
    assert_eq!(shop.try_add_product("Watch C".to_string(), String::new(), 1, 1, false), Some(3));
    assert_eq!(shop.list_products()[0], watch_a());
    assert_eq!(shop.list_products().len(), 3);
}

#[test]
fn try_buy_product_refuses_a_total_above_u64() {
    let mut shop = Shop::new();
    shop.add_product("dear".to_string(), String::new(), u64::MAX, 5, false);
    shop.add_product("half".to_string(), String::new(), 1 << 63, 5, false);
    let before = shop.snapshot();
    assert_eq!(shop.try_buy_product(buyer(), 1, 2), None);
    assert_eq!(shop.try_buy_product(buyer(), 2, 2), None);
    assert_eq!(shop.try_buy_product(buyer(), 2, 5), None);
    assert_eq!(shop.snapshot(), before);
    assert_eq!(shop.try_buy_product(buyer(), 1, 1), Some(Ok(())));
    assert_eq!(
        shop.transactions(),
        &vec![Transaction { buyer: buyer(), product_id: 1, quantity: 1, total_price: u64::MAX }]
    );
    assert_eq!(shop.list_products()[0].quantity, 4);
}

#[test]
fn try_buy_product_reports_refusals_like_buy_product() {
    let mut shop = Shop::new();
    shop.add_product("dear".to_string(), String::new(), u64::MAX, 5, false);
    let before = shop.snapshot();
    assert_eq!(shop.try_buy_product(buyer(), 2, 3), Some(Err(PurchaseError::NotFound)));
    assert_eq!(shop.try_buy_product(buyer(), 1, 6), Some(Err(PurchaseError::InsufficientStock)));
    assert_eq!(shop.snapshot(), before);
    assert_eq!(shop.try_buy_product(buyer(), 1, 0), Some(Ok(())));
    assert_eq!(shop.transactions()[0].total_price, 0);
}
