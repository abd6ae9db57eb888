//! Address derivation, held against the ledger's own.
use fundraiser::authority::{
    contributor_tag_bytes, derive_contributor, derive_fundraiser, fundraiser_tag_bytes,
};
use fundraiser::outcome::SignerSeeds;
use solana_program::pubkey::Pubkey;

#[test]
fn namespace_tags_are_ascii_words() {
    assert_eq!(&fundraiser_tag_bytes(), b"fundraiser");
    assert_eq!(&contributor_tag_bytes(), b"contributor");
}

#[test]
fn fundraiser_address_is_the_program_address_of_tag_and_maker() {
    let cases = [([1u8; 32], [2u8; 32]), ([0u8; 32], [0xffu8; 32]), ([7u8; 32], [7u8; 32])];
    for (maker, program) in cases {
        let found = derive_fundraiser(&maker, &program).expect("an address exists");
        let (address, bump) = Pubkey::find_program_address(
            &[b"fundraiser", &maker],
            &Pubkey::new_from_array(program),
        );
        assert_eq!(found.address, address.to_bytes());
        assert_eq!(found.bump, bump);
        assert_ne!(found.address, maker);
        assert_ne!(found.address, program);
        assert!(!address.is_on_curve());
    }
}

#[test]
fn fundraiser_address_depends_on_maker_and_program() {
    let a = derive_fundraiser(&[1; 32], &[2; 32]).unwrap();
    let b = derive_fundraiser(&[3; 32], &[2; 32]).unwrap();
    let c = derive_fundraiser(&[1; 32], &[4; 32]).unwrap();
    assert_ne!(a.address, b.address);
    assert_ne!(a.address, c.address);
    assert_eq!(a, derive_fundraiser(&[1; 32], &[2; 32]).unwrap());
}

#[test]
fn contributor_record_address_is_the_program_address_of_tag_fundraiser_and_contributor() {
    let program = [2u8; 32];
    let fundraiser = derive_fundraiser(&[1; 32], &program).unwrap().address;
    let contributor = [6u8; 32];
    let found = derive_contributor(&fundraiser, &contributor, &program).unwrap();
    let (address, bump) = Pubkey::find_program_address(
        &[b"contributor", &fundraiser, &contributor],
        &Pubkey::new_from_array(program),
    );
    assert_eq!(found.address, address.to_bytes());
    assert_eq!(found.bump, bump);
    assert_ne!(found.address, derive_contributor(&fundraiser, &[7; 32], &program).unwrap().address);
}

#[test]
fn signer_seeds_recreate_the_derived_address() {
    let maker = [1u8; 32];
    let program = [2u8; 32];
    let found = derive_fundraiser(&maker, &program).unwrap();
    let seeds = SignerSeeds { maker, bump: found.bump }.to_vec();
    assert_eq!(seeds, vec![b"fundraiser".to_vec(), maker.to_vec(), vec![found.bump]]);
    let slices: Vec<&[u8]> = seeds.iter().map(|seed| seed.as_slice()).collect();
    let address =
        Pubkey::create_program_address(&slices, &Pubkey::new_from_array(program)).unwrap();
    assert_eq!(address.to_bytes(), found.address);
}
