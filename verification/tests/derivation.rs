use blueshift_escrow::pda::{check_escrow_address, derive_escrow_address, derive_vault_address};

const PROGRAM: [u8; 32] = [7u8; 32];

#[test]
fn escrow_derivation_is_deterministic() {
    let maker = [1u8; 32];
    let first = derive_escrow_address(&PROGRAM, &maker, 42).expect("a bump must be found");
    let second = derive_escrow_address(&PROGRAM, &maker, 42).expect("a bump must be found");
    assert_eq!(first.0, second.0);
    assert_eq!(first.1, second.1);
}

#[test]
fn escrow_derivation_depends_on_seed_material() {
    let maker = [1u8; 32];
    let other_maker = [2u8; 32];
    let (a, _) = derive_escrow_address(&PROGRAM, &maker, 42).unwrap();
    let (b, _) = derive_escrow_address(&PROGRAM, &maker, 43).unwrap();
    let (c, _) = derive_escrow_address(&PROGRAM, &other_maker, 42).unwrap();
    let (d, _) = derive_escrow_address(&[8u8; 32], &maker, 42).unwrap();
    assert_ne!(a, b);
    assert_ne!(a, c);
    assert_ne!(a, d);
    assert_ne!(a, maker);
    assert_ne!(a, PROGRAM);
}

#[test]
fn escrow_derivation_round_trips_through_stored_bump() {
    let maker = [9u8; 32];
    let (address, bump) = derive_escrow_address(&PROGRAM, &maker, 1).unwrap();
    assert!(check_escrow_address(&PROGRAM, &maker, 1, bump, &address));
    assert!(!check_escrow_address(&PROGRAM, &maker, 1, bump, &maker));
    assert!(!check_escrow_address(&PROGRAM, &maker, 2, bump, &address));
}

#[test]
fn escrow_derivation_matches_the_host_search() {
    let maker = [5u8; 32];
    let (address, bump) = derive_escrow_address(&PROGRAM, &maker, 77).unwrap();
    let seeds: [&[u8]; 3] = [b"escrow", &maker, &77u64.to_le_bytes()];
    let (expected, expected_bump) = pinocchio::Address::try_find_program_address(
        &seeds,
        &pinocchio::Address::new_from_array(PROGRAM),
    )
    .unwrap();
    assert_eq!(address, expected.to_bytes());
    assert_eq!(bump, expected_bump);
}

#[test]
fn vault_derivation_matches_the_host_search() {
    let owner = [6u8; 32];
    let (address, bump) = derive_vault_address(&PROGRAM, &owner).unwrap();
    let seeds: [&[u8]; 2] = [b"vault", &owner];
    let (expected, expected_bump) = pinocchio::Address::try_find_program_address(
        &seeds,
        &pinocchio::Address::new_from_array(PROGRAM),
    )
    .unwrap();
    assert_eq!(address, expected.to_bytes());
    assert_eq!(bump, expected_bump);
    assert_ne!(address, owner);
}
