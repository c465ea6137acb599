use donation_registry::{Address, Error, Event, EvidenceContract, ImpactEscrow, NFTMinting, NGOVerification, TokenManager};

#[test]
fn test_submit_and_verify_evidence() {
    let mut contract = EvidenceContract::new();
    let issuer = Address { key: 3 };
    let project_id = 1001;

    let mock_hash: [u8; 32] = [
        0x6d, 0x79, 0x68, 0x61, 0x73, 0x68, 0x31, 0x32,
        0x33, 0x34, 0x35, 0x36, 0x37, 0x38, 0x39, 0x30,
        0x61, 0x62, 0x63, 0x64, 0x65, 0x66, 0x67, 0x68,
        0x69, 0x6a, 0x6b, 0x6c, 0x6d, 0x6e, 0x6f, 0x70,
    ];

    let evidence_index = contract.submit_evidence(project_id, mock_hash, issuer, 0);
    assert_eq!(evidence_index, 0);

    let evidence = contract.get_evidence(project_id, evidence_index).unwrap();
    assert_eq!(evidence.project_id, project_id);
    assert_eq!(evidence.evidence_hash, mock_hash);
    assert_eq!(evidence.issuer, issuer);

    let is_valid = contract.verify_evidence(project_id, evidence_index, mock_hash);
    assert!(is_valid);

    let wrong_hash = [0u8; 32];
    let is_invalid = contract.verify_evidence(project_id, evidence_index, wrong_hash);
    assert!(!is_invalid);

    let count = contract.get_evidence_count(project_id);
    assert_eq!(count, 1);
}

#[test]
fn test_multiple_evidence_submissions() {
    let mut contract = EvidenceContract::new();
    let issuer = Address { key: 3 };
    let project_id = 2002;

    for i in 0..3u8 {
        let hash = [i; 32];
        let index = contract.submit_evidence(project_id, hash, issuer, 0);
        assert_eq!(index, i as u64);
    }

    let count = contract.get_evidence_count(project_id);
    assert_eq!(count, 3);

    let all_evidence = contract.get_project_evidence(project_id, 0);
    assert_eq!(all_evidence.len(), 3);
}

#[test]
fn evidence_listing_respects_limit_and_projects() {
    let mut contract = EvidenceContract::new();
    let issuer = Address { key: 3 };
    for i in 0..4u8 {
        contract.submit_evidence(5, [i; 32], issuer, 100 + i as u64);
    }
    contract.submit_evidence(6, [9; 32], issuer, 0);
    let two = contract.get_project_evidence(5, 2);
    assert_eq!(two.len(), 2);
    assert_eq!(two[1].evidence_hash, [1u8; 32]);
    assert_eq!(two[1].timestamp, 101);
    assert_eq!(contract.get_project_evidence(5, 10).len(), 4);
    assert_eq!(contract.get_project_evidence(5, 4).len(), 4);
    assert_eq!(contract.get_project_evidence(7, 0).len(), 0);
    assert_eq!(contract.get_evidence_count(6), 1);
    assert!(contract.get_evidence(5, 4).is_none());
    assert!(!contract.verify_evidence(5, 4, [0; 32]));
}

#[test]
fn mint_and_get() {
    let mut minting = NFTMinting::new();
    minting.initialize().unwrap();
    let owner = Address { key: 4 };
    let id = minting.mint(owner, String::from("ipfs://xyz"));
    let nft = minting.get(id).unwrap();
    assert_eq!(nft.id, id);
    assert_eq!(minting.tokens_of(owner), 1);
}

#[test]
fn minting_counts_per_owner() {
    let mut minting = NFTMinting::new();
    assert_eq!(minting.initialize(), Ok(()));
    assert_eq!(minting.initialize(), Err(Error::AlreadyInitialized));
    let a = Address { key: 4 };
    let b = Address { key: 5 };
    assert_eq!(minting.mint(a, String::from("u1")), 1);
    assert_eq!(minting.mint(b, String::from("u2")), 2);
    assert_eq!(minting.mint(a, String::from("u3")), 3);
    assert_eq!(minting.tokens_of(a), 2);
    assert_eq!(minting.tokens_of(b), 1);
    assert_eq!(minting.tokens_of(Address { key: 6 }), 0);
    assert_eq!(minting.minted_count(), 3);
    assert_eq!(minting.get(3).unwrap().uri, "u3");
    assert!(matches!(minting.get(4), Err(Error::NotFound)));
    assert_eq!(minting.events()[1], Event::NftMinted { id: 2, owner: b });
}

#[test]
fn directory_admin_gate() {
    let admin = Address { key: 1 };
    let mut directory = NGOVerification::new();
    assert_eq!(directory.register(admin, String::from("x"), admin), Err(Error::NotInitialized));
    assert_eq!(directory.is_verified(1), Err(Error::NotInitialized));
    directory.initialize(admin).unwrap();
    assert_eq!(directory.initialize(admin), Err(Error::AlreadyInitialized));
    let wallet = Address { key: 2 };
    assert_eq!(directory.register(wallet, String::from("x"), wallet), Ok(1));
    assert_eq!(directory.is_verified(1), Ok(false));
    assert_eq!(directory.set_verified(wallet, 1, true), Err(Error::NotAdmin));
    assert_eq!(directory.set_verified(admin, 2, true), Err(Error::NotFound));
    assert_eq!(directory.set_verified(admin, 1, true), Ok(()));
    assert_eq!(directory.is_verified(1), Ok(true));
    assert_eq!(directory.is_verified(2), Err(Error::NotFound));
    let ngo = directory.get(1).unwrap();
    assert_eq!((ngo.id, ngo.name.as_str(), ngo.wallet, ngo.verified), (1, "x", wallet, true));
    assert_eq!(directory.ngo_count(), 1);
    assert_eq!(
        directory.events().to_vec(),
        vec![Event::NgoRegistered { id: 1, wallet }, Event::NgoVerified { ngo_id: 1, verified: true }]
    );
}

#[test]
fn escrow_release_gate() {
    let admin = Address { key: 1 };
    let mut escrow = ImpactEscrow::new();
    assert_eq!(escrow.release(admin, 1), Err(Error::NotInitialized));
    escrow.initialize(admin).unwrap();
    assert_eq!(escrow.initialize(admin), Err(Error::AlreadyInitialized));
    assert_eq!(escrow.release(Address { key: 2 }, 1), Err(Error::NotAdmin));
    assert_eq!(escrow.release(admin, 1), Ok(()));
    assert_eq!(escrow.events().to_vec(), vec![Event::EscrowReleased { donation_id: 1, admin }]);
}

#[test]
fn token_manager_checks() {
    let mut tokens = TokenManager::new();
    assert_eq!(tokens.initialize(), Ok(()));
    assert_eq!(tokens.initialize(), Err(Error::AlreadyInitialized));
    assert_eq!(tokens.deposit(Address { key: 1 }, 0), Err(Error::InvalidAmount));
    assert_eq!(tokens.deposit(Address { key: 1 }, 5), Ok(()));
    tokens.withdraw(Address { key: 1 }, 5);
}
