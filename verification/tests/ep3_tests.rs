use ax_exchange_sdk::ep3::{Ep3Account, Ep3Firm, Ep3FirmError, Ep3Username};

#[test]
fn test_extract_firm_from_ep3_username() {
    let ep3_username = Ep3Username::from_full_path("firms/CHI/users/ADX.DEMO.01K6B0ANZY2W4ZBMM4RFJTFTCF").unwrap();
    let firm = ep3_username.extract_firm("CHI");
    let firm_chi = Ep3Firm::new("CHI".to_string());
    assert_eq!(firm, firm_chi);
}

#[test]
fn ep3_username_paths_round_trip() {
    let path = "firms/ABC/users/ADX.USER.971";
    let u = Ep3Username::from_full_path(path).unwrap();
    assert!(u.has_firm());
    assert_eq!(u.firm_id(), Some("ABC"));
    assert_eq!(u.user_id(), "ADX.USER.971");
    assert_eq!(u.to_path(), path);

    let admin = Ep3Username::from_full_path("admin").unwrap();
    assert!(admin.is_simple());
    assert_eq!(admin.firm_id(), None);
    assert_eq!(admin.user_id(), "admin");
    assert_eq!(admin.extract_firm("CHI"), Ep3Firm::new("CHI".to_string()));
    assert_eq!(admin.to_path(), "admin");

    let e = Ep3Username::from_full_path("firms/ABC/people/x").unwrap_err();
    assert_eq!(e, "Invalid EP3 username format: firms/ABC/people/x");
    assert!(Ep3Username::from_full_path("a/b").is_err());
}

#[test]
fn ep3_firm_paths() {
    let f = Ep3Firm::from_path("firms/CHI").unwrap();
    assert_eq!(f.firm_id, "CHI");
    assert_eq!(f.to_path(), "firms/CHI");
    assert_eq!(Ep3Firm::from_path("CHI").unwrap().firm_id, "CHI");
    assert_eq!(Ep3Firm::from_path("firms/firms/X").unwrap().firm_id, "X");
    assert_eq!(Ep3Firm::from_path("firms/").unwrap_err(), Ep3FirmError::InvalidFirmId);
    assert_eq!(Ep3FirmError::InvalidFirmId.message(), "invalid firm ID");
    let a = Ep3Account::new("ACC-1".to_string());
    assert_eq!(a.as_str(), "ACC-1");
}
