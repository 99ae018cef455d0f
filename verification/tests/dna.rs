use parity_scale_codec::Encode;

use pallet_kitties::{
    dna_from_seed, gender_from_random, mix_dna, Error, Gender, GenesisConfig, Pallet,
};

#[test]
fn dna_is_blake2_of_scale_encoded_seed_and_block() {
    let seed = [7u8; 32];
    let dna = dna_from_seed(&seed, 41, 42);
    let mut payload = seed.to_vec();
    payload.extend_from_slice(&41u64.to_le_bytes());
    payload.extend_from_slice(&42u64.to_le_bytes());
    assert_eq!(payload.len(), 48);
    assert_eq!(payload, ((sp_core::H256(seed), 41u64), 42u64).encode());
    assert_eq!(dna, sp_crypto_hashing::blake2_128(&payload));
    assert_ne!(dna_from_seed(&seed, 41, 43), dna);
    assert_ne!(dna_from_seed(&seed, 40, 42), dna);
    assert_ne!(dna[..], seed[..16]);
}

#[test]
fn gender_is_male_for_even_first_byte() {
    let mut r = [0u8; 32];
    assert_eq!(gender_from_random(&r), Gender::Male);
    r[0] = 3;
    assert_eq!(gender_from_random(&r), Gender::Female);
    r[0] = 254;
    assert_eq!(gender_from_random(&r), Gender::Male);
}

#[test]
fn mix_takes_bits_from_each_parent() {
    let g = [0b1111_0000u8; 16];
    let a = [0b1010_1010u8; 16];
    let b = [0b0101_0101u8; 16];
    assert_eq!(mix_dna(&g, &a, &b), [0b1010_0101u8; 16]);
    assert_eq!(mix_dna(&[0xff; 16], &a, &b), a);
    assert_eq!(mix_dna(&[0; 16], &a, &b), b);
}

#[test]
fn same_parents_give_same_dna() {
    let a = [0x3cu8; 16];
    assert_eq!(mix_dna(&[0x5a; 16], &a, &a), a);
}

#[test]
fn genesis_mints_given_kitties_in_order() {
    let config = GenesisConfig {
        kitties: vec![
            (1, [1u8; 16], Gender::Male),
            (2, [2u8; 16], Gender::Female),
            (1, [3u8; 16], Gender::Female),
        ],
    };
    let p = config.build();
    assert_eq!(p.kitty_cnt(), 3);
    let k3 = p.kitties(3).unwrap();
    assert_eq!(k3.owner, 1);
    assert_eq!(k3.dna, [3u8; 16]);
    assert_eq!(k3.gender, Gender::Female);
    assert_eq!(k3.price, None);
    assert_eq!(p.kittles_owned(1).len(), 2);
    assert_eq!(p.kittles_owned(2).get(0), Some(&2u64));
}

#[test]
fn genesis_skips_kitties_beyond_the_limit() {
    let config = GenesisConfig { kitties: vec![(9, [0u8; 16], Gender::Male); 5] };
    let p = config.build();
    assert_eq!(p.kitty_cnt(), 3);
    assert_eq!(p.kittles_owned(9).len(), 3);
    assert_eq!(p.kitties(4), None);
}

#[test]
fn default_genesis_is_empty() {
    let p = GenesisConfig::default().build();
    assert_eq!(p.kitty_cnt(), 0);
    assert_eq!(p.kitties(1), None);
}

#[test]
fn pure_calls_match_dispatched_ones() {
    let mut p = Pallet::new();
    assert_eq!(p.do_create_kitty(1, 9, [1; 16], Gender::Male), Err(Error::NotEnoughBalanceForStake));
    assert!(p.do_create_kitty(1, 10, [1; 16], Gender::Male).is_ok());
    assert_eq!(p.do_transfer(1, 2, 1, 0), Err(Error::NotEnoughBalanceForStake));
    assert_eq!(p.kitties(1).unwrap().owner, 2);
    assert_eq!(p.check_buy_kitty(3, 1, 5, 100), Err(Error::KittyNotForSale));
    assert!(p.do_set_price(2, 1, Some(5)).is_ok());
    assert_eq!(p.check_buy_kitty(3, 1, 5, 100), Ok(2));
    assert_eq!(p.check_buy_kitty(3, 1, 5, 4), Err(Error::NotEnoughBalance));
    assert_eq!(p.do_mint(2, [2; 16], Gender::Female), Ok(2));
    assert_eq!(p.do_breed_kitty(2, 1, 2, [0xff; 16], Gender::Male), Ok(3));
    assert_eq!(p.kitties(3).unwrap().dna, [1u8; 16]);
    assert_eq!(p.do_breed_dna(&1, &2, &[0; 16]), Ok([2u8; 16]));
    assert_eq!(p.is_kitty_owner(&1, &2), Ok(true));
    assert_eq!(p.is_kitty_owner(&1, &1), Ok(false));
    assert_eq!(p.is_kitty_owner(&7, &1), Err(Error::KittyNotExist));
}
