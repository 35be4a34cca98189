use wine_sandbox::user::{parse_id, UserMapping, UserMappingError, MAX_ID, MIN_ID};

#[test]
fn test_random_user_mapping() {
    let mapping = UserMapping::Random;
    let (uid, gid) = mapping.get_uid_gid();
    assert!(uid >= MIN_ID && uid <= MAX_ID);
    assert!(gid >= MIN_ID && gid <= MAX_ID);
}

#[test]
fn test_custom_user_mapping() {
    let mapping = UserMapping::Custom(500_000, 600_000);
    let (uid, gid) = mapping.get_uid_gid();
    assert_eq!(uid, 500_000);
    assert_eq!(gid, 600_000);
}

#[test]
fn test_user_mapping_from_str_random() {
    let mapping = UserMapping::from_str("random").unwrap();
    assert!(matches!(mapping, UserMapping::Random));
}

#[test]
fn test_user_mapping_from_str_custom() {
    let mapping = UserMapping::from_str("500000:600000").unwrap();
    if let UserMapping::Custom(uid, gid) = mapping {
        assert_eq!(uid, 500_000);
        assert_eq!(gid, 600_000);
    } else {
        panic!("Expected custom mapping");
    }
}

#[test]
fn test_user_mapping_random_case_insensitive() {
    assert!(matches!(
        UserMapping::from_str("RANDOM").unwrap(),
        UserMapping::Random
    ));
    assert!(matches!(
        UserMapping::from_str("Random").unwrap(),
        UserMapping::Random
    ));
}

#[test]
fn test_user_mapping_error_kinds_are_distinct() {
    assert!(matches!(
        UserMapping::from_str("abc:300000"),
        Err(UserMappingError::InvalidId(_))
    ));
    assert!(matches!(
        UserMapping::from_str("100:300000"),
        Err(UserMappingError::OutOfRangeId(100))
    ));
    assert!(matches!(
        UserMapping::from_str("300000"),
        Err(UserMappingError::InvalidFormat(_))
    ));
    assert!(matches!(
        UserMapping::from_str("1:2:3"),
        Err(UserMappingError::InvalidFormat(_))
    ));
}

#[test]
fn test_parse_id_bounds() {
    assert_eq!(parse_id("300000"), Ok(300_000));
    assert_eq!(parse_id("2147483647"), Ok(2_147_483_647));
    assert_eq!(
        parse_id("299999"),
        Err(UserMappingError::OutOfRangeId(299_999))
    );
    assert_eq!(
        parse_id("2147483648"),
        Err(UserMappingError::OutOfRangeId(2_147_483_648))
    );
    assert!(matches!(
        parse_id("99999999999999"),
        Err(UserMappingError::InvalidId(_))
    ));
    assert!(matches!(parse_id(""), Err(UserMappingError::InvalidId(_))));
}

#[test]
fn test_user_mapping_error_messages() {
    assert_eq!(
        UserMappingError::InvalidId("abc".to_string()).message(),
        "Input is not a valid ID: abc"
    );
    assert_eq!(
        UserMappingError::OutOfRangeId(100).message(),
        "Value must be between 300000 and 2147483647, but got: 100"
    );
}

#[test]
fn test_get_uid_gid_string_renders_decimal() {
    let (uid, gid) = UserMapping::Custom(500_000, 600_000).get_uid_gid_string();
    assert_eq!(uid, "500000");
    assert_eq!(gid, "600000");
}
