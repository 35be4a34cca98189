use wine_sandbox::bottles::Category;
use wine_sandbox::modes::{FsrMode, SyncMode, UpscaleMode, UpscaleModeError};
use wine_sandbox::sandbox::{DeviceAccess, NetworkMode};

#[test]
fn test_upscale_mode_fsr_parsing() {
    let parsed = UpscaleMode::from_str("fsr:quality:3").unwrap();
    assert_eq!(
        parsed,
        UpscaleMode::Fsr {
            mode: FsrMode::Quality,
            strength: 3
        }
    );
    let parsed = UpscaleMode::from_str("fsr:u:0").unwrap();
    assert_eq!(
        parsed,
        UpscaleMode::Fsr {
            mode: FsrMode::UltraPerformance,
            strength: 0
        }
    );
}

#[test]
fn test_upscale_mode_fsr_strength_range() {
    assert_eq!(
        UpscaleMode::from_str("fsr:quality:6"),
        Err(UpscaleModeError::OutOfRangeFsrStrength(6))
    );
    assert_eq!(
        UpscaleMode::from_str("fsr:quality:5"),
        Ok(UpscaleMode::Fsr {
            mode: FsrMode::Quality,
            strength: 5
        })
    );
    assert!(matches!(
        UpscaleMode::from_str("fsr:quality:abc"),
        Err(UpscaleModeError::InvalidFsrStrength(_))
    ));
    assert!(matches!(
        UpscaleMode::from_str("fsr:quality:300"),
        Err(UpscaleModeError::InvalidFsrStrength(_))
    ));
}

#[test]
fn test_upscale_mode_dlss_and_none() {
    assert_eq!(UpscaleMode::from_str("dlss"), Ok(UpscaleMode::Dlss));
    assert_eq!(UpscaleMode::from_str("d"), Ok(UpscaleMode::Dlss));
    assert_eq!(UpscaleMode::from_str("DLSS"), Ok(UpscaleMode::Dlss));
    assert_eq!(UpscaleMode::from_str("none"), Ok(UpscaleMode::Off));
    assert_eq!(UpscaleMode::from_str("n"), Ok(UpscaleMode::Off));
}

#[test]
fn test_upscale_mode_rejects_unknown() {
    assert!(matches!(
        UpscaleMode::from_str("unknown"),
        Err(UpscaleModeError::InvalidUpscaleMode(_))
    ));
    assert!(matches!(
        UpscaleMode::from_str("fsr:quality"),
        Err(UpscaleModeError::InvalidUpscaleMode(_))
    ));
    assert!(matches!(
        UpscaleMode::from_str("fsr:weird:3"),
        Err(UpscaleModeError::InvalidFsrMode(_))
    ));
}

#[test]
fn test_fsr_mode_parsing_and_text() {
    assert_eq!(FsrMode::from_str("quality"), Ok(FsrMode::Quality));
    assert_eq!(FsrMode::from_str("Q"), Ok(FsrMode::Quality));
    assert_eq!(FsrMode::from_str("balanced"), Ok(FsrMode::Balanced));
    assert_eq!(FsrMode::from_str("p"), Ok(FsrMode::Performance));
    assert_eq!(FsrMode::from_str("ULTRA"), Ok(FsrMode::UltraPerformance));
    assert_eq!(FsrMode::from_str("none"), Ok(FsrMode::Off));
    assert!(FsrMode::from_str("fast").is_err());
    assert_eq!(FsrMode::Quality.text(), "quality");
    assert_eq!(FsrMode::UltraPerformance.text(), "ultra");
    assert_eq!(FsrMode::Off.text(), "none");
}

#[test]
fn test_upscale_error_messages() {
    assert_eq!(
        UpscaleModeError::OutOfRangeFsrStrength(6).message(),
        "FSR strength must be between 0 and 5, but got: 6"
    );
    assert_eq!(
        UpscaleModeError::InvalidUpscaleMode("x".to_string()).message(),
        "Invalid upscale mode: x"
    );
}

#[test]
fn test_sync_mode_parsing() {
    assert_eq!(SyncMode::from_str("none"), Ok(SyncMode::Off));
    assert_eq!(SyncMode::from_str("fsync"), Ok(SyncMode::Fsync));
    assert_eq!(SyncMode::from_str("ESYNC"), Ok(SyncMode::Esync));
    assert_eq!(
        SyncMode::from_str("bad"),
        Err("Invalid sync mode: bad".to_string())
    );
}

#[test]
fn test_network_mode_parsing() {
    assert!(matches!(
        NetworkMode::from_str("full_access"),
        Ok(NetworkMode::FullAccess)
    ));
    assert!(matches!(NetworkMode::from_str("F"), Ok(NetworkMode::FullAccess)));
    assert!(matches!(
        NetworkMode::from_str("restricted"),
        Ok(NetworkMode::RestrictedAccess)
    ));
    assert!(matches!(NetworkMode::from_str("no"), Ok(NetworkMode::NoAccess)));
    assert_eq!(
        NetworkMode::from_str("open"),
        Err("Invalid network mode: open".to_string())
    );
}

#[test]
fn test_device_access_parsing() {
    assert!(matches!(DeviceAccess::from_str("all"), Ok(DeviceAccess::All)));
    assert!(matches!(DeviceAccess::from_str("A"), Ok(DeviceAccess::All)));
    assert!(matches!(
        DeviceAccess::from_str("minimal"),
        Ok(DeviceAccess::Minimal)
    ));
    assert_eq!(
        DeviceAccess::from_str("some"),
        Err("Invalid device access mode: some".to_string())
    );
}

#[test]
fn test_category_parsing() {
    assert!(matches!(Category::from_str("all"), Ok(Category::All)));
    assert!(matches!(
        Category::from_str("prefixes"),
        Ok(Category::PrefixesOnly)
    ));
    assert!(matches!(Category::from_str("R"), Ok(Category::RunnersOnly)));
    assert_eq!(
        Category::from_str("zzz"),
        Err("invalid category: zzz".to_string())
    );
}
