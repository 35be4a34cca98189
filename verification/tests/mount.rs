use wine_sandbox::mount::{
    normalize_path, parse_mappings, resolve_mount_path, MountConfig, MountError, MountMapping,
};

#[test]
fn test_mount_config_parsing() {
    let test_cases = vec![
        ("", Err(MountError::EmptyPath)),
        (":", Err(MountError::EmptyPath)),
        (
            "/usr/bin",
            Ok(MountConfig {
                path: "/usr/bin".to_string(),
                writable: false,
            }),
        ),
        (
            "/usr/bin:",
            Ok(MountConfig {
                path: "/usr/bin".to_string(),
                writable: false,
            }),
        ),
        (
            "/usr/bin:rw",
            Ok(MountConfig {
                path: "/usr/bin".to_string(),
                writable: true,
            }),
        ),
        (
            "/usr/bin:noexec,rw",
            Ok(MountConfig {
                path: "/usr/bin".to_string(),
                writable: true,
            }),
        ),
        (
            "/does/not/exist",
            Ok(MountConfig {
                path: "/does/not/exist".to_string(),
                writable: false,
            }),
        ),
        ("/", Err(MountError::DisallowedPath("/".to_string()))),
        ("/./", Err(MountError::DisallowedPath("/./".to_string()))),
    ];
    for (input, expected) in test_cases {
        let result = MountConfig::from_str(input);
        assert_eq!(result, expected);
    }
}

#[test]
fn test_mount_mapping_parsing() {
    let test_cases = vec![
        ("", Err(MountError::EmptyPath)),
        (":", Err(MountError::EmptyPath)),
        (":rw", Err(MountError::EmptyPath)),
        ("::rw", Err(MountError::EmptyPath)),
        ("/test:", Err(MountError::EmptyPath)),
        (":/test", Err(MountError::EmptyPath)),
        ("/:/test", Err(MountError::DisallowedPath("/".to_string()))),
        ("/./:/test", Err(MountError::DisallowedPath("/./".to_string()))),
        ("/data/:/", Err(MountError::DisallowedPath("/".to_string()))),
        ("/data/:/./", Err(MountError::DisallowedPath("/./".to_string()))),
        ("/data/:/./:", Err(MountError::DisallowedPath("/./".to_string()))),
        ("/data/:/./:rw", Err(MountError::DisallowedPath("/./".to_string()))),
        ("data", Err(MountError::InvalidFormat("data".to_string()))),
        (
            "./:/test",
            Ok(MountMapping {
                source_path: "./".to_string(),
                target_config: MountConfig {
                    path: "/test".to_string(),
                    writable: false,
                },
            }),
        ),
        (
            "/data:/test/.:rw",
            Ok(MountMapping {
                source_path: "/data".to_string(),
                target_config: MountConfig {
                    path: "/test".to_string(),
                    writable: true,
                },
            }),
        ),
    ];
    for (input, expected) in test_cases {
        let result = MountMapping::from_str(input);
        assert_eq!(result, expected);
    }
}

#[test]
fn test_normalize_path_resolves_dots_lexically() {
    assert_eq!(normalize_path("/usr/bin"), "/usr/bin");
    assert_eq!(normalize_path("/test/."), "/test");
    assert_eq!(normalize_path("/./"), "/");
    assert_eq!(normalize_path("/"), "/");
    assert_eq!(normalize_path("/a/b/.."), "/a");
    assert_eq!(normalize_path("/a/../.."), "/");
    assert_eq!(normalize_path("a/../b"), "b");
    assert_eq!(normalize_path("../a"), "../a");
    assert_eq!(normalize_path("./"), "");
    assert_eq!(normalize_path("//x///y/"), "/x/y");
}

#[test]
fn test_resolve_mount_path_keeps_raw_path() {
    assert_eq!(resolve_mount_path("/a/./b"), Ok("/a/./b".to_string()));
    assert_eq!(
        resolve_mount_path("/x/.."),
        Err(MountError::DisallowedPath("/x/..".to_string()))
    );
}

#[test]
fn test_mount_mapping_source_checked_before_format() {
    // A separator-less input whose path normalizes to the root fails as a
    // disallowed path, not as a malformed mapping: the source is validated
    // before the shape.
    assert_eq!(
        MountMapping::from_str("/"),
        Err(MountError::DisallowedPath("/".to_string()))
    );
    assert_eq!(
        MountMapping::from_str("/./"),
        Err(MountError::DisallowedPath("/./".to_string()))
    );
    assert_eq!(
        MountMapping::from_str("/x/.."),
        Err(MountError::DisallowedPath("/x/..".to_string()))
    );
}

#[test]
fn test_parse_mappings_first_error_wins() {
    let volumes = vec!["/a:/b".to_string(), "bad".to_string(), ":".to_string()];
    assert_eq!(
        parse_mappings(&volumes),
        Err(MountError::InvalidFormat("bad".to_string()))
    );
    let good = vec!["/a:/b:rw".to_string(), "./:/c".to_string()];
    let parsed = parse_mappings(&good).unwrap();
    assert_eq!(parsed.len(), 2);
    assert_eq!(parsed[0].source_path, "/a");
    assert!(parsed[0].target_config.writable);
    assert_eq!(parsed[1].target_config.path, "/c");
}

#[test]
fn test_mount_error_messages() {
    assert_eq!(MountError::EmptyPath.message(), "path must not be empty");
    assert_eq!(
        MountError::DisallowedPath("/".to_string()).message(),
        "path is not allowed: /"
    );
    assert_eq!(
        MountError::DisallowedPath("/x/..".to_string()).message(),
        "path is not allowed: /x/.."
    );
    assert_eq!(
        MountError::InvalidFormat("data".to_string()).message(),
        "invalid format: data"
    );
}
