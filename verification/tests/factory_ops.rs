use hedge_protocol::factory::HedgeCreatorContract;
use hedge_protocol::Error;

fn initialized_factory() -> (HedgeCreatorContract, Vec<u8>) {
    let admin: Vec<u8> = vec![0x11, 0x22];
    let mut f = HedgeCreatorContract::new();
    assert!(f.initialize(admin.clone()).is_ok());
    (f, admin)
}

#[test]
fn initialize_twice_fails_and_keeps_admin() {
    let (mut f, admin) = initialized_factory();
    assert_eq!(f.initialize(vec![0x99]), Err(Error::AlreadyInitialized));
    assert_eq!(f.read_administrator(), &admin);
}

#[test]
fn create_and_look_up_hedge_pair() {
    let (mut f, admin) = initialized_factory();
    let hedge_id: Vec<u8> = b"h1".to_vec();
    let token: Vec<u8> = vec![0x77; 32];
    let info = f
        .create_hedge_pair(&admin, 500, &hedge_id, &token, 1000)
        .unwrap();
    assert_eq!(info.maturity_date, 1000);
    assert_eq!(info.token_id, token);
    assert_eq!(info.hedge_vault.len(), 32);
    assert_eq!(info.risk_vault.len(), 32);
    assert_eq!(info.controller.len(), 32);
    // the three units of one hedge all have distinct addresses
    assert_ne!(info.hedge_vault, info.risk_vault);
    assert_ne!(info.hedge_vault, info.controller);
    assert_ne!(info.risk_vault, info.controller);
    // the directory returns the same record
    let looked_up = f.get_hedge_info(&hedge_id).unwrap();
    assert_eq!(looked_up.hedge_vault, info.hedge_vault);
    assert_eq!(looked_up.risk_vault, info.risk_vault);
    assert_eq!(looked_up.controller, info.controller);
    assert_eq!(looked_up.maturity_date, info.maturity_date);
    assert_eq!(looked_up.token_id, info.token_id);
}

#[test]
fn create_by_non_admin_fails() {
    let (mut f, _admin) = initialized_factory();
    let stranger: Vec<u8> = vec![0xEE];
    let r = f.create_hedge_pair(&stranger, 500, &b"h1".to_vec(), &vec![1u8], 1000);
    assert!(matches!(r, Err(Error::Unauthorized)));
    assert!(matches!(
        f.get_hedge_info(&b"h1".to_vec()),
        Err(Error::NotFound)
    ));
}

#[test]
fn create_with_past_maturity_fails() {
    let (mut f, admin) = initialized_factory();
    let r = f.create_hedge_pair(&admin, 1000, &b"h1".to_vec(), &vec![1u8], 1000);
    assert!(matches!(r, Err(Error::InvalidMaturity)));
}

#[test]
fn duplicate_hedge_id_is_rejected_with_identical_addresses() {
    let (mut f, admin) = initialized_factory();
    let hedge_id: Vec<u8> = b"h1".to_vec();
    let first = f
        .create_hedge_pair(&admin, 500, &hedge_id, &vec![1u8], 1000)
        .unwrap();
    // a second creation under the same identifier is rejected ...
    let second = f.create_hedge_pair(&admin, 600, &hedge_id, &vec![2u8], 2000);
    assert!(matches!(second, Err(Error::DuplicateHedge)));
    // ... and a separate run over the same identifier derives the same
    // addresses before its own duplicate would be rejected
    let (mut g, other_admin) = {
        let admin2: Vec<u8> = vec![0x55];
        let mut g = HedgeCreatorContract::new();
        assert!(g.initialize(admin2.clone()).is_ok());
        (g, admin2)
    };
    let again = g
        .create_hedge_pair(&other_admin, 700, &hedge_id, &vec![3u8], 3000)
        .unwrap();
    assert_eq!(again.hedge_vault, first.hedge_vault);
    assert_eq!(again.risk_vault, first.risk_vault);
    assert_eq!(again.controller, first.controller);
}

#[test]
fn creating_one_hedge_leaves_others_alone() {
    let (mut f, admin) = initialized_factory();
    let first = f
        .create_hedge_pair(&admin, 500, &b"h1".to_vec(), &vec![1u8], 1000)
        .unwrap();
    let _ = f
        .create_hedge_pair(&admin, 500, &b"h2".to_vec(), &vec![2u8], 2000)
        .unwrap();
    let looked_up = f.get_hedge_info(&b"h1".to_vec()).unwrap();
    assert_eq!(looked_up.hedge_vault, first.hedge_vault);
    assert_eq!(looked_up.maturity_date, 1000);
    let other = f.get_hedge_info(&b"h2".to_vec()).unwrap();
    assert_eq!(other.maturity_date, 2000);
    assert_ne!(other.hedge_vault, first.hedge_vault);
}

#[test]
fn make_controller_binds_the_record() {
    let (mut f, admin) = initialized_factory();
    let info = f
        .create_hedge_pair(&admin, 500, &b"h1".to_vec(), &vec![0x77], 1000)
        .unwrap();
    let c = info.make_controller(&admin, 500).unwrap();
    assert!(c.has_administrator());
    assert_eq!(c.read_administrator(), &admin);
    assert_eq!(c.get_hedge_vault(), &info.hedge_vault);
    assert_eq!(c.get_risk_vault(), &info.risk_vault);
    assert_eq!(c.get_maturity_date(), 1000);
    assert!(!c.is_liquidated());
    assert!(!c.is_matured());
    // a record whose maturity has already passed cannot be bound
    let late = info.make_controller(&admin, 1000);
    assert!(matches!(late, Err(Error::InvalidMaturity)));
}

#[test]
fn created_hedge_settles_between_its_own_vaults() {
    let (mut f, admin) = initialized_factory();
    let info = f
        .create_hedge_pair(&admin, 500, &b"h1".to_vec(), &vec![0x77], 1000)
        .unwrap();
    let mut c = info.make_controller(&admin, 500).unwrap();
    assert!(c.set_matured(&admin, 1000).is_ok());
    let s = c.mature().unwrap();
    assert_eq!(s.vault, info.hedge_vault);
    assert_eq!(s.destination, info.risk_vault);
}

#[test]
fn lookup_of_unknown_hedge_fails() {
    let (f, _admin) = initialized_factory();
    assert!(matches!(
        f.get_hedge_info(&b"missing".to_vec()),
        Err(Error::NotFound)
    ));
}
