use std::str::FromStr;

use anchor_lang::prelude::Pubkey;
use fraction_presale::account::{id, system_id};
use fraction_presale::address::Address;
use fraction_presale::authority::{
    presale_authority, presale_signer_seeds, vesting_authority, vesting_location,
    vesting_signer_seeds,
};
use fraction_presale::transfer::Authorizer;

fn ledger_key(a: &Address) -> Pubkey {
    Pubkey::new_from_array(a.bytes)
}

#[test]
fn protocol_address_is_the_published_one() {
    let published = Pubkey::from_str("EmcETFRC5ftDYwNn6cHB3zQioNH1z8cRSwx5MZC1BMBU").unwrap();
    assert_eq!(id().bytes, published.to_bytes());
}

#[test]
fn system_address_is_all_zero() {
    let system = Pubkey::from_str("11111111111111111111111111111111").unwrap();
    assert_eq!(system_id().bytes, system.to_bytes());
    assert_ne!(system_id(), id());
}

#[test]
fn addresses_compare_by_their_bytes() {
    let mut bytes = [9u8; 32];
    assert_eq!(Address::new(bytes), Address::new([9u8; 32]));
    bytes[31] = 8;
    assert_ne!(Address::new(bytes), Address::new([9u8; 32]));
    assert_eq!(Address::new(bytes).to_vec(), bytes.to_vec());
}

#[test]
fn presale_seeds_are_label_presale_program_bump() {
    let presale = Address::new([7u8; 32]);
    let seeds = presale_signer_seeds(&presale, &id(), 254);
    assert_eq!(seeds.len(), 4);
    assert_eq!(seeds[0], b"presale".to_vec());
    assert_eq!(seeds[1], vec![7u8; 32]);
    assert_eq!(seeds[2], id().bytes.to_vec());
    assert_eq!(seeds[3], vec![254u8]);
}

#[test]
fn vesting_seeds_are_label_buyer_presale_program_bump() {
    let buyer = Address::new([3u8; 32]);
    let presale = Address::new([7u8; 32]);
    let seeds = vesting_signer_seeds(&buyer, &presale, &id(), 9);
    assert_eq!(seeds.len(), 5);
    assert_eq!(seeds[0], b"vesting".to_vec());
    assert_eq!(seeds[1], vec![3u8; 32]);
    assert_eq!(seeds[2], vec![7u8; 32]);
    assert_eq!(seeds[3], id().bytes.to_vec());
    assert_eq!(seeds[4], vec![9u8]);
}

#[test]
fn authorizer_hands_out_the_seeds_of_its_authority() {
    let buyer = Address::new([3u8; 32]);
    let presale = Address::new([7u8; 32]);
    assert_eq!(Authorizer::Owner.signer_seeds(&id()), None);
    assert_eq!(
        Authorizer::Presale { presale, bump: 254 }.signer_seeds(&id()),
        Some(presale_signer_seeds(&presale, &id(), 254))
    );
    assert_eq!(
        Authorizer::Vesting { buyer, presale, bump: 9 }.signer_seeds(&id()),
        Some(vesting_signer_seeds(&buyer, &presale, &id(), 9))
    );
}

#[test]
fn presale_authority_is_the_ledgers_derivation() {
    let presale = Address::new([7u8; 32]);
    let program = ledger_key(&id());
    let (expected, bump) =
        Pubkey::find_program_address(&[b"presale", &[7u8; 32], program.as_ref()], &program);
    let got = presale_authority(&presale, &id(), bump);
    assert_eq!(got.map(|a| a.bytes), Some(expected.to_bytes()));
    assert_ne!(expected.to_bytes(), id().bytes);
    assert_ne!(expected.to_bytes(), presale.bytes);
}

#[test]
fn presale_authority_depends_on_the_presale() {
    let program = ledger_key(&id());
    let (_, bump) =
        Pubkey::find_program_address(&[b"presale", &[7u8; 32], program.as_ref()], &program);
    let one = presale_authority(&Address::new([7u8; 32]), &id(), bump);
    let other = presale_authority(&Address::new([8u8; 32]), &id(), bump);
    assert!(one.is_some());
    assert_ne!(one, other);
}

#[test]
fn vesting_authority_is_the_ledgers_derivation() {
    let buyer = Address::new([3u8; 32]);
    let presale = Address::new([7u8; 32]);
    let program = ledger_key(&id());
    let (expected, bump) = Pubkey::find_program_address(
        &[b"vesting", &[3u8; 32], &[7u8; 32], program.as_ref()],
        &program,
    );
    let got = vesting_authority(&buyer, &presale, &id(), bump);
    assert_eq!(got.map(|a| a.bytes), Some(expected.to_bytes()));
}

#[test]
fn a_bump_that_derives_nothing_gives_none() {
    let presale = Address::new([7u8; 32]);
    let program = ledger_key(&id());
    let mut found = false;
    for bump in 0..=255u8 {
        let ledger = Pubkey::create_program_address(
            &[b"presale", &[7u8; 32], program.as_ref(), &[bump]],
            &program,
        )
        .ok()
        .map(|k| k.to_bytes());
        let got = presale_authority(&presale, &id(), bump).map(|a| a.bytes);
        assert_eq!(got, ledger);
        found = found || ledger.is_none();
    }
    assert!(found);
}

#[test]
fn vesting_location_is_the_ledgers_search() {
    let buyer = Address::new([3u8; 32]);
    let presale = Address::new([7u8; 32]);
    let program = ledger_key(&id());
    let (expected, bump) = Pubkey::find_program_address(
        &[b"vesting", &[3u8; 32], &[7u8; 32], program.as_ref()],
        &program,
    );
    let got = vesting_location(&buyer, &presale, &id());
    assert_eq!(got.map(|(a, b)| (a.bytes, b)), Some((expected.to_bytes(), bump)));
    assert_eq!(vesting_authority(&buyer, &presale, &id(), bump), got.map(|(a, _)| a));
}

#[test]
fn vesting_location_is_one_per_buyer_and_presale() {
    let buyer = Address::new([3u8; 32]);
    let presale = Address::new([7u8; 32]);
    let here = vesting_location(&buyer, &presale, &id());
    assert_eq!(here, vesting_location(&buyer, &presale, &id()));
    assert_ne!(here, vesting_location(&presale, &buyer, &id()));
    assert_ne!(here, vesting_location(&buyer, &Address::new([8u8; 32]), &id()));
}
