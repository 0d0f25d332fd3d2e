use public_sale_mint::{PublicSaleMint, SaleContract, SaleError, TokenId};

const OWNER: u64 = 1;
const USER: u64 = 10;

fn setup() -> SaleContract {
    SaleContract::init(
        5,
        vec![10u128, 9, 8, 7, 6],
        vec![5u128, 4, 3, 2, 1],
        120,
        20,
        40,
        TokenId::from_bytes(b"EGG".to_vec()),
        1,
        140,
    )
    .unwrap()
}

#[test]
fn claim_eggs_tests_claim_balance_while_not_owner() {
    let sale = setup();
    let r = sale.claim_eggs(USER, OWNER, 0);
    assert_eq!(r.unwrap_err(), SaleError::Unauthorized);
}

#[test]
fn claim_eggs_tests_claim_balance_while_owner() {
    let sale = setup();
    let egg = TokenId::from_bytes(b"EGG".to_vec());
    let mut contract_eggs: u128 = 0;
    let mut owner_eggs: u128 = 0;

    sale.fill_egg(OWNER, OWNER, &egg, 1).unwrap();
    contract_eggs += 10;

    let claimed = sale.claim_eggs(OWNER, OWNER, contract_eggs).unwrap();
    contract_eggs -= claimed;
    owner_eggs += claimed;

    assert_eq!(owner_eggs, 10u128);
    assert_eq!(contract_eggs, 0u128);
}
