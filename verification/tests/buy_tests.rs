use public_sale_mint::{PublicSaleMint, SaleContract, SaleError, TokenId, WhitelistModule};

const OWNER: u64 = 1;
const USER: u64 = 10;
const PUBLIC_TIMESTAMP: u64 = 120;
const CLOSED_TIMESTAMP: u64 = 260;

fn setup() -> SaleContract {
    SaleContract::init(
        5,
        vec![10u128, 9, 8, 7, 6],
        vec![5u128, 4, 3, 2, 1],
        PUBLIC_TIMESTAMP,
        20,
        40,
        TokenId::from_bytes(b"EGG".to_vec()),
        1,
        140,
    )
    .unwrap()
}

#[test]
fn buy_two_then_one() {
    let mut sale = setup();
    let egld = TokenId::native();
    let mut inventory: u128 = 10;
    let mut user_eggs: u64 = 0;

    user_eggs += sale.buy(PUBLIC_TIMESTAMP, USER, OWNER, &egld, 9 + 9, inventory, 2).unwrap();
    inventory -= 2;
    user_eggs += sale.buy(PUBLIC_TIMESTAMP, USER, OWNER, &egld, 8, inventory, 1).unwrap();

    assert_eq!(user_eggs, 3u64);
    assert_eq!(sale.get_bought_amount(USER), 3u64);
}

#[test]
fn buy_two_then_one_reduced_price() {
    let mut sale = setup();
    sale.whitelist.add_to_second_whitelist(OWNER, OWNER, USER).unwrap();
    let egld = TokenId::native();
    let mut inventory: u128 = 10;
    let mut user_eggs: u64 = 0;

    user_eggs += sale.buy(PUBLIC_TIMESTAMP, USER, OWNER, &egld, 4 + 4, inventory, 2).unwrap();
    inventory -= 2;
    user_eggs += sale.buy(PUBLIC_TIMESTAMP, USER, OWNER, &egld, 3, inventory, 1).unwrap();

    assert_eq!(user_eggs, 3u64);
    assert_eq!(sale.get_bought_amount(USER), 3u64);
}

#[test]
fn buy_with_not_egld() {
    let mut sale = setup();
    let some_token = TokenId::from_bytes(b"SOME TOKEN".to_vec());

    let r = sale.buy(PUBLIC_TIMESTAMP, USER, OWNER, &some_token, 1, 10, 1);
    assert_eq!(r.unwrap_err(), SaleError::WrongPaymentAsset);
    assert_eq!(sale.get_bought_amount(USER), 0);
}

#[test]
fn buy_exceed_price() {
    let mut sale = setup();
    let egld = TokenId::native();

    let r = sale.buy(PUBLIC_TIMESTAMP, USER, OWNER, &egld, 150, 10, 1);
    assert_eq!(r.unwrap_err(), SaleError::AmountMismatch);
    assert_eq!(sale.get_bought_amount(USER), 0);
}

#[test]
fn buy_exceed_price_while_reduced_price() {
    let mut sale = setup();
    sale.whitelist.add_to_second_whitelist(OWNER, OWNER, USER).unwrap();
    let egld = TokenId::native();

    let r = sale.buy(PUBLIC_TIMESTAMP, USER, OWNER, &egld, 150, 10, 1);
    assert_eq!(r.unwrap_err(), SaleError::AmountMismatch);
    assert_eq!(sale.get_bought_amount(USER), 0);
}

#[test]
fn buy_dont_fit_price() {
    let mut sale = setup();
    let egld = TokenId::native();

    let r = sale.buy(PUBLIC_TIMESTAMP, USER, OWNER, &egld, 10 + 5, 10, 1);
    assert_eq!(r.unwrap_err(), SaleError::AmountMismatch);
    assert_eq!(sale.get_bought_amount(USER), 0);
}

#[test]
fn buy_dont_fit_price_while_reduced_price() {
    let mut sale = setup();
    sale.whitelist.add_to_second_whitelist(OWNER, OWNER, USER).unwrap();
    let egld = TokenId::native();

    let r = sale.buy(PUBLIC_TIMESTAMP, USER, OWNER, &egld, 5 + 1, 10, 1);
    assert_eq!(r.unwrap_err(), SaleError::AmountMismatch);
    assert_eq!(sale.get_bought_amount(USER), 0);
}

#[test]
fn buy_with_zero() {
    let mut sale = setup();
    let egld = TokenId::native();

    let r = sale.buy(PUBLIC_TIMESTAMP, USER, OWNER, &egld, 0, 10, 1);
    assert_eq!(r.unwrap_err(), SaleError::AmountMismatch);
    assert_eq!(sale.get_bought_amount(USER), 0);
}

#[test]
fn buy_with_zero_reduced_price() {
    let mut sale = setup();
    sale.whitelist.add_to_second_whitelist(OWNER, OWNER, USER).unwrap();
    let egld = TokenId::native();

    let r = sale.buy(PUBLIC_TIMESTAMP, USER, OWNER, &egld, 0, 10, 1);
    assert_eq!(r.unwrap_err(), SaleError::AmountMismatch);
    assert_eq!(sale.get_bought_amount(USER), 0);
}

#[test]
fn buy_while_no_remaining_sft() {
    let mut sale = setup();
    let egld = TokenId::native();
    let mut inventory: u128 = 1;

    let bought = sale.buy(PUBLIC_TIMESTAMP, USER, OWNER, &egld, 10, inventory, 1).unwrap();
    inventory -= bought as u128;

    let r = sale.buy(PUBLIC_TIMESTAMP, USER, OWNER, &egld, 9, inventory, 1);
    assert_eq!(r.unwrap_err(), SaleError::SoldOut);
    assert_eq!(sale.get_bought_amount(USER), 1);
}

#[test]
fn buy_while_no_remaining_sft_while_reduced() {
    let mut sale = setup();
    sale.whitelist.add_to_second_whitelist(OWNER, OWNER, USER).unwrap();
    let egld = TokenId::native();
    let mut inventory: u128 = 1;

    let bought = sale.buy(PUBLIC_TIMESTAMP, USER, OWNER, &egld, 5, inventory, 1).unwrap();
    inventory -= bought as u128;

    let r = sale.buy(PUBLIC_TIMESTAMP, USER, OWNER, &egld, 4, inventory, 1);
    assert_eq!(r.unwrap_err(), SaleError::SoldOut);
    assert_eq!(sale.get_bought_amount(USER), 1);
}

#[test]
fn buy_with_full_price_while_reduced() {
    let mut sale = setup();
    sale.whitelist.add_to_second_whitelist(OWNER, OWNER, USER).unwrap();
    let egld = TokenId::native();

    let r = sale.buy(PUBLIC_TIMESTAMP, USER, OWNER, &egld, 10, 10, 1);
    assert_eq!(r.unwrap_err(), SaleError::AmountMismatch);
    assert_eq!(sale.get_bought_amount(USER), 0);
}

#[test]
fn buy_with_reduced_price_while_full() {
    let mut sale = setup();
    let egld = TokenId::native();

    let r = sale.buy(PUBLIC_TIMESTAMP, USER, OWNER, &egld, 5, 10, 1);
    assert_eq!(r.unwrap_err(), SaleError::AmountMismatch);
    assert_eq!(sale.get_bought_amount(USER), 0);
}

#[test]
fn buy_while_closed() {
    let mut sale = setup();
    let egld = TokenId::native();

    let r = sale.buy(CLOSED_TIMESTAMP, USER, OWNER, &egld, 10, 10, 1);
    assert_eq!(r.unwrap_err(), SaleError::SaleClosed);
    assert_eq!(sale.get_bought_amount(USER), 0);
}
