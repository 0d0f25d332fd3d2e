use public_sale_mint::{PublicSaleMint, SaleContract, TokenId};

fn setup() -> SaleContract {
    SaleContract::init(
        5,
        vec![10u128, 9, 8, 7, 6],
        vec![5u128, 4, 3, 2, 1],
        120,
        20,
        40,
        TokenId::from_bytes(b"EGG".to_vec()),
        1,
        140,
    )
    .unwrap()
}

#[test]
fn is_price_valid_tests_buy_one_from_zero() {
    let sale = setup();
    let price = sale.price_per_egg[0];
    let is_valid = sale.is_price_valid(price, 0, &sale.price_per_egg, 1);
    assert_eq!(is_valid, true);
}

#[test]
fn is_price_valid_tests_buy_two_from_zero() {
    let sale = setup();
    let p2 = sale.price_per_egg[1];
    let is_valid = sale.is_price_valid(p2 + p2, 0, &sale.price_per_egg, 2);
    assert_eq!(is_valid, true);
}

#[test]
fn is_price_valid_tests_buy_two_from_one() {
    let sale = setup();
    let p3 = sale.price_per_egg[2];
    let is_valid = sale.is_price_valid(p3 + p3, 1, &sale.price_per_egg, 2);
    assert_eq!(is_valid, true);
}

#[test]
fn is_price_valid_tests_buy_bad_price_from_one() {
    let sale = setup();
    let p1 = sale.price_per_egg[0];
    let is_valid = sale.is_price_valid(p1 + p1, 1, &sale.price_per_egg, 2);
    assert_eq!(is_valid, false);
}

#[test]
fn is_price_valid_tests_buy_with_price_not_listed() {
    let sale = setup();
    let p1 = sale.price_per_egg[1];
    let delta: u128 = 1;
    let is_valid = sale.is_price_valid(p1 + delta, 1, &sale.price_per_egg, 1);
    assert_eq!(is_valid, false);
}

#[test]
fn is_price_valid_tests_send_too_much() {
    let sale = setup();
    let p1: u128 = 999999;
    let is_valid = sale.is_price_valid(p1, 1, &sale.price_per_egg, 1);
    assert_eq!(is_valid, false);
}

#[test]
fn is_price_valid_tests_buy_to_max_wallet_from_zero() {
    let sale = setup();
    let price = sale.price_per_egg[4];
    let is_valid =
        sale.is_price_valid(price + price + price + price + price, 0, &sale.price_per_egg, 5);
    assert_eq!(is_valid, true);
}

#[test]
fn is_price_valid_tests_buy_to_max_wallet_from_max_wallet() {
    let sale = setup();
    let mut price_sum: u128 = 0;
    for price in sale.price_per_egg.iter() {
        price_sum += price;
    }
    let is_valid = sale.is_price_valid(price_sum, sale.max_per_wallet, &sale.price_per_egg, 5);
    assert_eq!(is_valid, false);
}

#[test]
fn is_price_valid_tests_buy_one_from_max_wallet() {
    let sale = setup();
    let price = sale.price_per_egg[0];
    let is_valid = sale.is_price_valid(price, sale.max_per_wallet, &sale.price_per_egg, 1);
    assert_eq!(is_valid, false);
}
