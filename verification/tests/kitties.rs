use kitties::{combine_dna, combine_payloads, random_value, Error, Event, IdAllocator, Kitty, KittyGender, Registry};

#[test]
fn gender_follows_first_byte_parity() {
    assert_eq!(Kitty([0u8; 16]).gender(), KittyGender::Male);
    let mut dna = [0u8; 16];
    dna[0] = 1;
    assert_eq!(Kitty(dna).gender(), KittyGender::Female);
    dna[0] = 2;
    assert_eq!(Kitty(dna).gender(), KittyGender::Male);
    dna[0] = 0xff;
    assert_eq!(Kitty(dna).gender(), KittyGender::Female);
}

#[test]
fn gender_ignores_all_but_the_low_bit() {
    let mut a = [0u8; 16];
    let mut b = [0xffu8; 16];
    a[0] = 0x80;
    b[0] = 0x42;
    assert_eq!(Kitty(a).gender(), Kitty(b).gender());
}

#[test]
fn combine_dna_matches_the_selection_formula() {
    assert_eq!(combine_dna(0xcc, 0xaa, 0x0f), 0xca);
    assert_eq!(combine_dna(0b1111_0000, 0b0000_1111, 0b0101_0101), 0b1010_0101);
    for a in [0x00u8, 0x5a, 0xa5, 0xff] {
        for b in [0x00u8, 0x3c, 0xc3, 0xff] {
            for s in [0x00u8, 0x0f, 0xf0, 0xff] {
                assert_eq!(combine_dna(a, b, s), (!s & a) | (s & b));
            }
        }
    }
}

#[test]
fn combine_dna_extreme_selectors_reproduce_one_parent() {
    for a in [0x00u8, 0x11, 0x77, 0xfe, 0xff] {
        for b in [0x00u8, 0x22, 0x88, 0xfd, 0xff] {
            assert_eq!(combine_dna(a, b, 0x00), a);
            assert_eq!(combine_dna(a, b, 0xff), b);
        }
    }
}

#[test]
fn combine_payloads_applies_the_rule_at_every_position() {
    let mut dna1 = [0u8; 16];
    let mut dna2 = [0u8; 16];
    let mut selector = [0u8; 16];
    for i in 0..16usize {
        dna1[i] = i as u8;
        dna2[i] = 0xf0 | i as u8;
        selector[i] = (i as u8).wrapping_mul(37);
    }
    let combined = combine_payloads(&dna1, &dna2, &selector);
    for i in 0..16usize {
        assert_eq!(combined[i], combine_dna(dna1[i], dna2[i], selector[i]));
    }
}

#[test]
fn allocator_issues_consecutive_identifiers() {
    let mut allocator = IdAllocator::new();
    for expected in 0..5u32 {
        assert_eq!(allocator.allocate_next_id(), Ok(expected));
    }
    assert_eq!(allocator.next_kitty_id(), 5);
}

#[test]
fn allocator_at_maximum_fails_and_keeps_the_counter() {
    let mut allocator = IdAllocator::starting_at(u32::MAX);
    assert_eq!(allocator.allocate_next_id(), Err(Error::IdOverflow));
    assert_eq!(allocator.next_kitty_id(), u32::MAX);
    let mut near = IdAllocator::starting_at(u32::MAX - 1);
    assert_eq!(near.allocate_next_id(), Ok(u32::MAX - 1));
    assert_eq!(near.allocate_next_id(), Err(Error::IdOverflow));
    assert_eq!(near.next_kitty_id(), u32::MAX);
}

#[test]
fn random_value_is_deterministic_in_its_inputs() {
    let seed = [9u8; 32];
    assert_eq!(random_value(1, &seed, Some(0)), random_value(1, &seed, Some(0)));
    assert_ne!(random_value(1, &seed, Some(0)), random_value(1, &seed, Some(1)));
    assert_ne!(random_value(1, &seed, Some(0)), random_value(1, &seed, None));
    assert_ne!(random_value(1, &seed, Some(0)), random_value(2, &seed, Some(0)));
    assert_ne!(random_value(1, &seed, Some(0)), random_value(1, &[8u8; 32], Some(0)));
}

#[test]
fn random_value_actually_hashes() {
    let zero_seed = [0u8; 32];
    let value = random_value(0, &zero_seed, None);
    assert_ne!(value, [0u8; 16]);
    let seed = [0x5au8; 32];
    let mut seed_prefix = [0u8; 16];
    seed_prefix.copy_from_slice(&seed[..16]);
    assert_ne!(random_value(0, &seed, None), seed_prefix);
}

#[test]
fn create_assigns_consecutive_identifiers() {
    let mut registry = Registry::new();
    let owner: u64 = 42;
    assert_eq!(registry.next_kitty_id(), 0);
    assert_eq!(registry.create(owner, &[1u8; 32], Some(0)), Ok(0));
    assert_eq!(registry.create(owner, &[2u8; 32], Some(1)), Ok(1));
    assert_eq!(registry.create(owner, &[3u8; 32], Some(2)), Ok(2));
    assert_eq!(registry.next_kitty_id(), 3);
}

#[test]
fn create_then_lookup_returns_the_new_entity() {
    let mut registry = Registry::new();
    let owner: u64 = 7;
    let seed = [0x11u8; 32];
    let id = registry.create(owner, &seed, Some(4)).unwrap();
    let stored = registry.kitties(owner, id).unwrap();
    assert_eq!(stored.0, random_value(owner, &seed, Some(4)));
    assert_eq!(registry.kitties(owner + 1, id), None);
    assert_eq!(registry.kitties(owner, id + 1), None);
    assert_eq!(registry.events().len(), 1);
    assert_eq!(registry.events()[0], Event::KittyCreated(owner, id, stored));
}

#[test]
fn breed_same_gender_fails_without_state_change() {
    let mut registry = Registry::new();
    let owner: u64 = 3;
    let id = registry.create(owner, &[5u8; 32], None).unwrap();
    let events_before = registry.events().len();
    // An entity always shares its own gender.
    assert_eq!(registry.breed(owner, id, id, &[6u8; 32], None), Err(Error::SameGender));
    assert_eq!(registry.next_kitty_id(), 1);
    assert_eq!(registry.kitties(owner, 1), None);
    assert_eq!(registry.events().len(), events_before);
}

#[test]
fn breed_nonexistent_parent_fails_without_state_change() {
    let mut registry = Registry::new();
    let owner: u64 = 3;
    let id = registry.create(owner, &[5u8; 32], None).unwrap();
    let events_before = registry.events().len();
    assert_eq!(registry.breed(owner, 77, id, &[6u8; 32], None), Err(Error::InvalidId));
    assert_eq!(registry.breed(owner, id, 77, &[6u8; 32], None), Err(Error::InvalidId));
    // A record owned by someone else is invalid for this caller.
    assert_eq!(registry.breed(owner + 1, id, id, &[6u8; 32], None), Err(Error::InvalidId));
    assert_eq!(registry.next_kitty_id(), 1);
    assert_eq!(registry.kitties(owner, 1), None);
    assert_eq!(registry.events().len(), events_before);
}

#[test]
fn breed_combines_the_parents_under_the_call_selector() {
    let mut registry = Registry::new();
    let owner: u64 = 11;
    // Create entities until two of opposite gender exist.
    let mut found: Option<(u32, u32)> = None;
    for k in 0..20u32 {
        let seed = [k as u8; 32];
        let id = registry.create(owner, &seed, Some(k)).unwrap();
        assert_eq!(id, k);
        let first = registry.kitties(owner, 0).unwrap();
        let this = registry.kitties(owner, id).unwrap();
        if first.gender() != this.gender() {
            found = Some((0, id));
            break;
        }
    }
    let (id_a, id_b) = found.expect("twenty creations without both genders");
    let parent_a = registry.kitties(owner, id_a).unwrap();
    let parent_b = registry.kitties(owner, id_b).unwrap();
    let next = registry.next_kitty_id();
    let breed_seed = [0xabu8; 32];
    let child_id = registry.breed(owner, id_a, id_b, &breed_seed, Some(99)).unwrap();
    assert_eq!(child_id, next);
    assert_eq!(registry.next_kitty_id(), next + 1);
    let child = registry.kitties(owner, child_id).unwrap();
    let selector = random_value(owner, &breed_seed, Some(99));
    let mut expected = [0u8; 16];
    for i in 0..16usize {
        expected[i] = combine_dna(parent_a.0[i], parent_b.0[i], selector[i]);
    }
    assert_eq!(child.0, expected);
    assert_eq!(
        registry.events().last(),
        Some(&Event::KittyBred(owner, child_id, child))
    );
}

#[test]
fn creation_scenario_two_owners_then_breeding() {
    let mut registry = Registry::new();
    let owner: u64 = 1;
    let s1 = [0x01u8; 32];
    let s2 = [0x02u8; 32];
    let s3 = [0x03u8; 32];
    assert_eq!(registry.create(owner, &s1, Some(0)), Ok(0));
    let a = registry.kitties(owner, 0).unwrap();
    assert_eq!(a.0, random_value(owner, &s1, Some(0)));
    assert_eq!(registry.create(owner, &s2, Some(1)), Ok(1));
    let b = registry.kitties(owner, 1).unwrap();
    assert_eq!(b.0, random_value(owner, &s2, Some(1)));
    if a.gender() != b.gender() {
        assert_eq!(registry.breed(owner, 0, 1, &s3, Some(2)), Ok(2));
        let selector = random_value(owner, &s3, Some(2));
        let stored = registry.kitties(owner, 2).unwrap();
        let mut expected = [0u8; 16];
        for i in 0..16usize {
            expected[i] = combine_dna(a.0[i], b.0[i], selector[i]);
        }
        assert_eq!(stored.0, expected);
    } else {
        assert_eq!(registry.breed(owner, 0, 1, &s3, Some(2)), Err(Error::SameGender));
        assert_eq!(registry.next_kitty_id(), 2);
    }
}
