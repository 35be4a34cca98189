use wine_sandbox::bwrap::{compile_directives, get_device_args};
use wine_sandbox::directive::{render_tokens, Directive};
use wine_sandbox::invoker::{run, SandboxError};
use wine_sandbox::modes::{FsrMode, SyncMode, UpscaleMode};
use wine_sandbox::mount::MountError;
use wine_sandbox::sandbox::{
    DeviceAccess, LaunchConfig, LaunchParams, NetworkMode, RuntimeEnv, SandboxConfig,
};
use wine_sandbox::user::UserMapping;

fn sample_env(overrides: Vec<(String, String)>) -> RuntimeEnv {
    RuntimeEnv {
        home_dir: "/home/u".to_string(),
        dbus_session_bus_address: "unix:path=/run/user/1000/bus".to_string(),
        xdg_runtime_dir: "/run/user/1000".to_string(),
        original_path: "/usr/bin".to_string(),
        display_address: ":0".to_string(),
        xauthority_file: "/home/u/.Xauthority".to_string(),
        overrides,
    }
}

fn sample_launch() -> LaunchConfig {
    LaunchConfig {
        wine_root: "/wine/root".to_string(),
        wine_prefix: "/wine/prefix".to_string(),
        launch_params: LaunchParams::Configured {
            read_only: true,
            app_dir: "/games/doom".to_string(),
            app_bin: Some("doom.exe".to_string()),
            app_args: vec!["-nomusic".to_string()],
        },
        upscale_mode: Some(UpscaleMode::Fsr {
            mode: FsrMode::Quality,
            strength: 3,
        }),
        sync_mode: Some(SyncMode::Fsync),
    }
}

fn strings(v: Vec<&str>) -> Vec<String> {
    v.iter().map(|s| s.to_string()).collect()
}

#[test]
fn test_get_device_args_all() {
    let dirs = get_device_args(&DeviceAccess::All, &Vec::new());
    assert_eq!(
        dirs,
        vec![Directive::DevBind {
            source: "/dev".to_string(),
            target: "/dev".to_string()
        }]
    );
}

#[test]
fn test_get_device_args_minimal_appends_vendor_devices() {
    let vendor = vec!["/dev/nvidia0".to_string(), "/dev/nvidiactl".to_string()];
    let dirs = get_device_args(&DeviceAccess::Minimal, &vendor);
    let expected_paths = vec![
        "/dev/input",
        "/dev/uinput",
        "/dev/dri",
        "/dev/nvidia0",
        "/dev/nvidiactl",
    ];
    assert_eq!(dirs.len(), expected_paths.len());
    for (d, p) in dirs.iter().zip(expected_paths.iter()) {
        assert_eq!(
            d,
            &Directive::DevBind {
                source: p.to_string(),
                target: p.to_string()
            }
        );
    }
    // Zero discovered vendor devices is valid, not an error.
    let none = get_device_args(&DeviceAccess::Minimal, &Vec::new());
    assert_eq!(none.len(), 3);
}

#[test]
fn test_render_tokens_spells_each_directive() {
    let dirs = vec![
        Directive::DieWithParent,
        Directive::UnshareUser {
            uid: 333333,
            gid: 444444,
        },
        Directive::RoBind {
            source: "/a".to_string(),
            target: "/b".to_string(),
        },
        Directive::SetEnv {
            key: "K".to_string(),
            value: "V".to_string(),
        },
        Directive::RunCommand(strings(vec!["wine", "/app/x.exe", "-y"])),
    ];
    let tokens = render_tokens(&dirs);
    assert_eq!(
        tokens,
        strings(vec![
            "--die-with-parent",
            "--unshare-user",
            "--uid",
            "333333",
            "--gid",
            "444444",
            "--ro-bind",
            "/a",
            "/b",
            "--setenv",
            "K",
            "V",
            "wine",
            "/app/x.exe",
            "-y",
        ])
    );
}

#[test]
fn test_compile_full_directive_list() {
    let sc = SandboxConfig {
        namespace_isolation: true,
        user_mapping: UserMapping::Custom(333333, 444444),
        network_mode: NetworkMode::NoAccess,
        device_access: DeviceAccess::All,
        verbose: false,
    };
    let lc = sample_launch();
    let re = sample_env(vec![("DISPLAY".to_string(), ":9".to_string())]);
    let dirs = compile_directives(
        &sc,
        &lc,
        &re,
        "/tmp/scratch",
        &Vec::new(),
        333333,
        444444,
        "abc123",
        &Some("xterm".to_string()),
        &Some("zsh".to_string()),
    )
    .unwrap();
    let tokens = render_tokens(&dirs);
    let expected = strings(vec![
        "--die-with-parent",
        "--unshare-pid",
        "--unshare-cgroup",
        "--unshare-user",
        "--uid",
        "333333",
        "--gid",
        "444444",
        "--unshare-uts",
        "--hostname",
        "abc123",
        "--dev-bind",
        "/dev",
        "/dev",
        "--ro-bind",
        "/bin",
        "/bin",
        "--ro-bind",
        "/lib64",
        "/lib64",
        "--ro-bind",
        "/sbin",
        "/sbin",
        "--ro-bind",
        "/usr",
        "/usr",
        "--symlink",
        "/usr/lib",
        "/lib",
        "--ro-bind",
        "/run/dbus",
        "/run/dbus",
        "--ro-bind",
        "/run/user",
        "/run/user",
        "--ro-bind",
        "/sys",
        "/sys",
        "--bind",
        "/etc",
        "/etc",
        "--ro-bind",
        "/tmp/scratch",
        "/etc/hostname",
        "--unshare-net",
        "--tmpfs",
        "/var",
        "--proc",
        "proc",
        "--tmpfs",
        "/home/u",
        "--tmpfs",
        "/opt",
        "--ro-bind",
        "/wine/root",
        "/opt/wine",
        "--bind",
        "/wine/prefix",
        "/var/lib/wine",
        "--tmpfs",
        "/tmp",
        "--bind",
        "/tmp/.X11-unix/X0",
        "/tmp/.X11-unix/X0",
        "--ro-bind",
        "/home/u/.Xauthority",
        "/home/u/.Xauthority",
        "--clearenv",
        "--setenv",
        "HOME",
        "/home/u",
        "--setenv",
        "XAUTHORITY",
        "/home/u/.Xauthority",
        "--setenv",
        "DBUS_SESSION_BUS_ADDRESS",
        "unix:path=/run/user/1000/bus",
        "--setenv",
        "XDG_RUNTIME_DIR",
        "/run/user/1000",
        "--setenv",
        "DISPLAY",
        ":0",
        "--setenv",
        "WINEPREFIX",
        "/var/lib/wine",
        "--setenv",
        "WINEDLLOVERRIDES",
        "winemenubuilder=''",
        "--setenv",
        "WINE_LARGE_ADDRESS_AWARE",
        "1",
        "--setenv",
        "SDL_JOYSTICK_DISABLE_UDEV",
        "1",
        "--setenv",
        "PATH",
        "/opt/wine/bin:/usr/bin",
        "--setenv",
        "__GL_SHADER_DISK_CACHE",
        "1",
        "--setenv",
        "__GL_SHADER_DISK_CACHE_PATH",
        "/var/lib/wine/cache/gl_shader",
        "--setenv",
        "DXVK_STATE_CACHE_PATH",
        "/var/lib/wine/cache/dxvk_state",
        "--setenv",
        "MESA_SHADER_CACHE_DIR",
        "/var/lib/wine/cache/mesa_shader",
        "--setenv",
        "VKD3D_SHADER_CACHE_PATH",
        "/var/lib/wine/cache/vkd3d_shader",
        "--setenv",
        "WINE_FULLSCREEN_FSR",
        "1",
        "--setenv",
        "WINE_FULLSCREEN_FSR_MODE",
        "quality",
        "--setenv",
        "WINE_FULLSCREEN_FSR_STRENGTH",
        "3",
        "--setenv",
        "WINEFSYNC",
        "1",
        "--setenv",
        "WINEDEBUG",
        "fixme-all",
        "--setenv",
        "DXVK_LOG_LEVEL",
        "warn",
        "--setenv",
        "DISPLAY",
        ":9",
        "--ro-bind",
        "/games/doom",
        "/app",
        "--chdir",
        "/app",
        "wine",
        "/app/doom.exe",
        "-nomusic",
    ]);
    assert_eq!(tokens, expected);
}

fn network_tokens(mode: NetworkMode) -> Vec<String> {
    let sc = SandboxConfig {
        namespace_isolation: false,
        user_mapping: UserMapping::Custom(333333, 444444),
        network_mode: mode,
        device_access: DeviceAccess::All,
        verbose: true,
    };
    let mut lc = sample_launch();
    lc.launch_params = LaunchParams::Unconfigured;
    let re = sample_env(Vec::new());
    let dirs = compile_directives(
        &sc,
        &lc,
        &re,
        "/tmp/scratch",
        &Vec::new(),
        333333,
        444444,
        "abc123",
        &None,
        &None,
    )
    .unwrap();
    render_tokens(&dirs)
}

#[test]
fn test_network_no_access_isolates_without_masking() {
    let tokens = network_tokens(NetworkMode::NoAccess);
    assert!(tokens.contains(&"--unshare-net".to_string()));
    assert!(!tokens.contains(&"/etc/resolv.conf".to_string()));
    assert!(!tokens.contains(&"/etc/ca-certificates".to_string()));
    assert!(!tokens.contains(&"/etc/ssl".to_string()));
    assert!(!tokens.contains(&"/etc/NetworkManager".to_string()));
    assert!(!tokens.contains(&"/etc/hosts".to_string()));
    assert!(!tokens.contains(&"/etc/nsswitch.conf".to_string()));
}

#[test]
fn test_network_restricted_masks_without_isolating() {
    let tokens = network_tokens(NetworkMode::RestrictedAccess);
    assert!(!tokens.contains(&"--unshare-net".to_string()));
    assert!(tokens.contains(&"/etc/resolv.conf".to_string()));
    assert!(tokens.contains(&"/etc/ca-certificates".to_string()));
    assert!(tokens.contains(&"/etc/ssl".to_string()));
    assert!(tokens.contains(&"/etc/NetworkManager".to_string()));
    assert!(tokens.contains(&"/etc/hosts".to_string()));
    assert!(tokens.contains(&"/etc/nsswitch.conf".to_string()));
}

#[test]
fn test_network_full_access_neither_isolates_nor_masks() {
    let tokens = network_tokens(NetworkMode::FullAccess);
    assert!(!tokens.contains(&"--unshare-net".to_string()));
    assert!(!tokens.contains(&"/etc/resolv.conf".to_string()));
    assert!(!tokens.contains(&"/etc/ssl".to_string()));
}

#[test]
fn test_env_override_comes_after_internal_assignment() {
    let sc = SandboxConfig {
        namespace_isolation: false,
        user_mapping: UserMapping::Custom(333333, 444444),
        network_mode: NetworkMode::FullAccess,
        device_access: DeviceAccess::All,
        verbose: true,
    };
    let lc = sample_launch();
    let re = sample_env(vec![("DISPLAY".to_string(), ":9".to_string())]);
    let dirs = compile_directives(
        &sc,
        &lc,
        &re,
        "/tmp/scratch",
        &Vec::new(),
        333333,
        444444,
        "abc123",
        &None,
        &None,
    )
    .unwrap();
    let mut display_positions: Vec<(usize, String)> = Vec::new();
    for (i, d) in dirs.iter().enumerate() {
        if let Directive::SetEnv { key, value } = d {
            if key == "DISPLAY" {
                display_positions.push((i, value.clone()));
            }
        }
    }
    assert_eq!(display_positions.len(), 2);
    assert_eq!(display_positions[0].1, ":0");
    assert_eq!(display_positions[1].1, ":9");
    assert!(display_positions[0].0 < display_positions[1].0);
}

#[test]
fn test_compile_rejects_bad_display() {
    let sc = SandboxConfig {
        namespace_isolation: true,
        user_mapping: UserMapping::Custom(333333, 444444),
        network_mode: NetworkMode::NoAccess,
        device_access: DeviceAccess::All,
        verbose: false,
    };
    let lc = sample_launch();
    let mut re = sample_env(Vec::new());
    re.display_address = "nonsense".to_string();
    let r = compile_directives(
        &sc,
        &lc,
        &re,
        "/tmp/scratch",
        &Vec::new(),
        333333,
        444444,
        "abc123",
        &None,
        &None,
    );
    assert!(r.is_err());
}

fn run_with(
    home: Option<&str>,
    display: Option<&str>,
    volumes: Vec<&str>,
    app_dir: Option<&str>,
) -> Result<Vec<String>, SandboxError> {
    run(
        &vec!["WINEDEBUG=+all".to_string()],
        &volumes.iter().map(|s| s.to_string()).collect(),
        false,
        UserMapping::Custom(500_000, 600_000),
        NetworkMode::NoAccess,
        DeviceAccess::Minimal,
        false,
        UpscaleMode::Off,
        SyncMode::Off,
        "/wine/root".to_string(),
        "soda".to_string(),
        app_dir.map(|s| s.to_string()),
        Some("game.exe".to_string()),
        None,
        home.map(|s| s.to_string()),
        Some("unix:path=/bus".to_string()),
        Some("/run/user/1000".to_string()),
        Some("/usr/bin".to_string()),
        display.map(|s| s.to_string()),
        Some("/home/u/.Xauthority".to_string()),
        Some("xterm".to_string()),
        Some("zsh".to_string()),
        "/tmp/scratch",
        &vec!["/dev/nvidia0".to_string()],
    )
}

#[test]
fn test_run_produces_tokens_end_to_end() {
    let tokens = run_with(Some("/home/u"), Some(":1"), vec!["/data:/mnt:rw"], Some("/games/doom"))
        .unwrap();
    assert_eq!(tokens[0], "--die-with-parent");
    // The relative prefix path resolved under the bundle data root.
    let idx = tokens.iter().position(|t| t == "--bind").unwrap();
    assert!(tokens.contains(
        &"/home/u/.var/app/com.usebottles.bottles/data/bottles/bottles/soda".to_string()
    ));
    assert!(idx > 0);
    // The discovered vendor device is bound.
    assert!(tokens.contains(&"/dev/nvidia0".to_string()));
    // The display socket follows the parsed display number.
    assert!(tokens.contains(&"/tmp/.X11-unix/X1".to_string()));
    // The user override lands after the compiler's own assignments.
    let winedebug_values: Vec<&String> = tokens
        .iter()
        .enumerate()
        .filter(|(i, t)| *i > 0 && tokens[i - 1] == "WINEDEBUG")
        .map(|(_, t)| t)
        .collect();
    assert_eq!(winedebug_values, vec!["fixme-all", "+all"]);
    // The command invokes the runtime's launcher on the configured binary.
    let n = tokens.len();
    assert_eq!(tokens[n - 2], "wine");
    assert_eq!(tokens[n - 1], "/app/game.exe");
}

#[test]
fn test_run_missing_home_names_variable() {
    let err = run_with(None, Some(":0"), vec![], None).unwrap_err();
    match err {
        SandboxError::Config(c) => assert_eq!(c.missing_variable, "HOME"),
        other => panic!("unexpected error: {:?}", other),
    }
}

#[test]
fn test_run_rejects_bad_volume() {
    let err = run_with(Some("/home/u"), Some(":0"), vec!["nocolon"], None).unwrap_err();
    assert_eq!(
        err,
        SandboxError::Volume(MountError::InvalidFormat("nocolon".to_string()))
    );
    assert_eq!(err.message(), "volume error: invalid format: nocolon");
}

#[test]
fn test_run_rejects_root_app_dir() {
    let err = run_with(Some("/home/u"), Some(":0"), vec![], Some("/./")).unwrap_err();
    assert_eq!(
        err,
        SandboxError::AppDir(MountError::DisallowedPath("/./".to_string()))
    );
}

#[test]
fn test_run_rejects_bad_display() {
    let err = run_with(Some("/home/u"), Some("bad"), vec![], None).unwrap_err();
    assert!(matches!(err, SandboxError::Display(_)));
}
