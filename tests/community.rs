use energy_grid::auth::Principal;
use energy_grid::community::{
    initialize_community, mint_energy_tokens, purchase_energy, register_resident, EnergyGridError, EnergyMinted,
    EnergyPurchased, ResidentType, KWH_TO_TOKEN_RATIO,
};

#[test]
fn minting_ten_kwh_gives_a_million_units() {
    let owner = Principal::new(1);
    let c = initialize_community(Principal::new(100), owner, Principal::new(200), "Solar Street".to_string());
    let me = Principal::new(7);
    let mut r = register_resident(&c, me, ResidentType::Producer, "Ada".to_string());
    assert_eq!(r.community, Principal::new(100));
    assert_eq!(KWH_TO_TOKEN_RATIO, 100_000);
    let ev = mint_energy_tokens(&mut r, me, 10).unwrap();
    assert_eq!(ev, EnergyMinted { resident: me, amount: 1_000_000, kwh: 10 });
    assert_eq!(r.energy_balance, 1_000_000);
}

#[test]
fn mint_energy_errors() {
    let c = initialize_community(Principal::new(100), Principal::new(1), Principal::new(200), "g".to_string());
    let me = Principal::new(7);
    let mut consumer = register_resident(&c, me, ResidentType::Consumer, "Bo".to_string());
    assert_eq!(mint_energy_tokens(&mut consumer, me, 1), Err(EnergyGridError::NotAProducer));
    let mut producer = register_resident(&c, me, ResidentType::Producer, "Cy".to_string());
    assert_eq!(mint_energy_tokens(&mut producer, Principal::new(8), 1), Err(EnergyGridError::Unauthorized));
    assert_eq!(mint_energy_tokens(&mut producer, me, 0), Err(EnergyGridError::InvalidAmount));
    assert_eq!(mint_energy_tokens(&mut producer, me, u64::MAX), Err(EnergyGridError::Overflow));
    assert_eq!(producer.energy_balance, 0);
}

#[test]
fn purchase_spends_tokens() {
    let c = initialize_community(Principal::new(100), Principal::new(1), Principal::new(200), "g".to_string());
    let me = Principal::new(7);
    let mut r = register_resident(&c, me, ResidentType::Consumer, "Di".to_string());
    assert_eq!(purchase_energy(&mut r, me, 1), Err(EnergyGridError::InsufficientBalance));
    r.energy_balance = 500;
    assert_eq!(purchase_energy(&mut r, me, 200), Ok(EnergyPurchased { resident: me, amount: 200 }));
    assert_eq!(r.energy_balance, 300);
    assert_eq!(purchase_energy(&mut r, Principal::new(8), 1), Err(EnergyGridError::Unauthorized));
    let mut p = register_resident(&c, me, ResidentType::Producer, "Ed".to_string());
    assert_eq!(purchase_energy(&mut p, me, 0), Err(EnergyGridError::NotAConsumer));
}
