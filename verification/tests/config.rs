use wine_sandbox::bottles::{get_data_root, list_prefixes, list_runners};
use wine_sandbox::invoker::parse_env_overrides;
use wine_sandbox::modes::SyncMode;
use wine_sandbox::sandbox::{
    current_timestamp_hex, DeviceAccess, LaunchConfig, LaunchParams, NetworkMode, RuntimeEnv,
    SandboxConfig,
};
use wine_sandbox::strings::{parse_u32, u32_to_string, u64_to_hex_string};
use wine_sandbox::user::UserMapping;

#[test]
fn test_runtime_env_from_env_collects_values() {
    let env = RuntimeEnv::from_env(
        Some("/home/u".to_string()),
        Some("unix:path=/bus".to_string()),
        Some("/run/user/1000".to_string()),
        Some("/usr/bin:/bin".to_string()),
        Some(":0".to_string()),
        Some("/home/u/.Xauthority".to_string()),
    )
    .unwrap();
    assert_eq!(env.home_dir, "/home/u");
    assert_eq!(env.original_path, "/usr/bin:/bin");
    assert_eq!(env.display_address, ":0");
    assert!(env.overrides.is_empty());
}

#[test]
fn test_runtime_env_from_env_names_first_missing() {
    let err = RuntimeEnv::from_env(None, None, None, None, None, None).unwrap_err();
    assert_eq!(err.missing_variable, "HOME");
    let err = RuntimeEnv::from_env(
        Some("/home/u".to_string()),
        Some("b".to_string()),
        Some("x".to_string()),
        Some("p".to_string()),
        None,
        None,
    )
    .unwrap_err();
    assert_eq!(err.missing_variable, "DISPLAY");
    assert_eq!(
        err.message(),
        "Failed to read environment variable: DISPLAY"
    );
}

#[test]
fn test_launch_config_resolves_relative_paths() {
    let lc = LaunchConfig::new(
        "kron4ek".to_string(),
        "/abs/prefix".to_string(),
        Some("/data/bottles".to_string()),
        None,
        None,
        Some(SyncMode::Fsync),
    )
    .unwrap();
    assert_eq!(lc.wine_root, "/data/bottles/runners/kron4ek");
    assert_eq!(lc.wine_prefix, "/abs/prefix");
    assert!(matches!(lc.launch_params, LaunchParams::Unconfigured));
}

#[test]
fn test_launch_config_relative_without_data_root_fails() {
    let err = LaunchConfig::new(
        "kron4ek".to_string(),
        "soda".to_string(),
        None,
        None,
        None,
        None,
    )
    .unwrap_err();
    assert_eq!(err.missing_variable, "HOME");
    let ok = LaunchConfig::new(
        "/abs/root".to_string(),
        "/abs/prefix".to_string(),
        None,
        None,
        None,
        None,
    )
    .unwrap();
    assert_eq!(ok.wine_root, "/abs/root");
}

#[test]
fn test_sandbox_config_default_is_restrictive() {
    let c = SandboxConfig::default();
    assert!(c.namespace_isolation);
    assert!(matches!(c.user_mapping, UserMapping::Random));
    assert!(matches!(c.network_mode, NetworkMode::NoAccess));
    assert!(matches!(c.device_access, DeviceAccess::Minimal));
    assert!(!c.verbose);
}

#[test]
fn test_launch_params_configured_defaults() {
    let lp = LaunchParams::configured(true, "/games/x".to_string(), None, None);
    match lp {
        LaunchParams::Configured {
            read_only,
            app_dir,
            app_bin,
            app_args,
        } => {
            assert!(read_only);
            assert_eq!(app_dir, "/games/x");
            assert_eq!(app_bin, None);
            assert!(app_args.is_empty());
        }
        _ => panic!("expected a configured launch"),
    }
}

#[test]
fn test_is_windows_binary() {
    let lp = LaunchParams::configured(
        true,
        "/games/x".to_string(),
        Some("game.exe".to_string()),
        None,
    );
    assert!(lp.is_windows_binary());
    let lp = LaunchParams::configured(
        true,
        "/games/x".to_string(),
        Some("game.sh".to_string()),
        None,
    );
    assert!(!lp.is_windows_binary());
    assert!(!LaunchParams::Unconfigured.is_windows_binary());
}

#[test]
fn test_bottles_paths() {
    let root = get_data_root("/home/u");
    assert_eq!(root, "/home/u/.var/app/com.usebottles.bottles/data/bottles");
    assert_eq!(
        list_prefixes(&root),
        "/home/u/.var/app/com.usebottles.bottles/data/bottles/bottles"
    );
    assert_eq!(
        list_runners(&root),
        "/home/u/.var/app/com.usebottles.bottles/data/bottles/runners"
    );
}

#[test]
fn test_parse_env_overrides_keeps_order_and_splits_once() {
    let items = vec![
        "A=1".to_string(),
        "B".to_string(),
        "C=x=y".to_string(),
        "=v".to_string(),
    ];
    let parsed = parse_env_overrides(&items);
    assert_eq!(
        parsed,
        vec![
            ("A".to_string(), "1".to_string()),
            ("B".to_string(), "".to_string()),
            ("C".to_string(), "x=y".to_string()),
            ("".to_string(), "v".to_string()),
        ]
    );
}

#[test]
fn test_current_timestamp_hex_is_lowercase_hex() {
    let t = current_timestamp_hex();
    assert!(!t.is_empty());
    for c in t.chars() {
        assert!(c.is_ascii_hexdigit() && !c.is_ascii_uppercase());
    }
}

#[test]
fn test_numeral_helpers() {
    assert_eq!(parse_u32("0"), Some(0));
    assert_eq!(parse_u32("4294967295"), Some(4294967295));
    assert_eq!(parse_u32("4294967296"), None);
    assert_eq!(parse_u32(""), None);
    assert_eq!(parse_u32("12a"), None);
    assert_eq!(parse_u32("+7"), None);
    assert_eq!(u32_to_string(0), "0");
    assert_eq!(u32_to_string(1048576), "1048576");
    assert_eq!(u64_to_hex_string(0), "0");
    assert_eq!(u64_to_hex_string(3735928559), "deadbeef");
}
