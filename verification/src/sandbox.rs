//! The configuration a launch is compiled from: network and device policy,
//! user mapping, the host environment snapshot, and what to start inside
//! the sandbox.

use vstd::prelude::*;

use crate::modes::{SyncMode, UpscaleMode};
use crate::strings::{
    ends_with, hex_str, lower_seq, str_eq, to_ascii_lower, u64_to_hex_string,
};
use crate::user::UserMapping;

verus! {

/// Network configuration options.
#[derive(Debug, Clone, Copy, PartialEq, Eq, Structural)]
pub enum NetworkMode {
    /// Complete network access.
    FullAccess,
    /// Raw network access without name resolution, certificate trust or
    /// network-manager state; keeps LAN-only functionality working.
    RestrictedAccess,
    /// No network access: a fresh, disconnected network namespace.
    NoAccess,
}

/// What parsing a network mode means: one of the mode names, a short name
/// or a single letter, compared without regard to ASCII case.
pub open spec fn spec_parse_network_mode(s: Seq<char>) -> Result<NetworkMode, Seq<char>> {
    let l = lower_seq(s);
    if l == "full_access"@ || l == "full"@ || l == "f"@ {
        Ok(NetworkMode::FullAccess)
    } else if l == "restricted_access"@ || l == "restricted"@ || l == "r"@ {
        Ok(NetworkMode::RestrictedAccess)
    } else if l == "no_access"@ || l == "no"@ || l == "n"@ {
        Ok(NetworkMode::NoAccess)
    } else {
        Err("Invalid network mode: "@ + s)
    }
}

impl NetworkMode {
    /// Parses a network mode name.
    pub fn from_str(s: &str) -> (r: Result<Self, String>)
        ensures
            match r {
                Ok(m) => spec_parse_network_mode(s@) == Ok::<NetworkMode, Seq<char>>(m),
                Err(e) => spec_parse_network_mode(s@) == Err::<NetworkMode, Seq<char>>(e@),
            },
    {
        let l = to_ascii_lower(s);
        if str_eq(l.as_str(), "full_access") || str_eq(l.as_str(), "full") || str_eq(
            l.as_str(),
            "f",
        ) {
            Ok(NetworkMode::FullAccess)
        } else if str_eq(l.as_str(), "restricted_access") || str_eq(l.as_str(), "restricted")
            || str_eq(l.as_str(), "r") {
            Ok(NetworkMode::RestrictedAccess)
        } else if str_eq(l.as_str(), "no_access") || str_eq(l.as_str(), "no") || str_eq(
            l.as_str(),
            "n",
        ) {
            Ok(NetworkMode::NoAccess)
        } else {
            let mut m = String::from_str("Invalid network mode: ");
            m.append(s);
            Err(m)
        }
    }
}

/// Device exposure options.
#[derive(Debug, Clone, Copy, PartialEq, Eq, Structural)]
pub enum DeviceAccess {
    /// Expose the whole host device tree.
    All,
    /// A minimal set of input and GPU devices.
    Minimal,
}

/// What parsing a device access mode means.
pub open spec fn spec_parse_device_access(s: Seq<char>) -> Result<DeviceAccess, Seq<char>> {
    let l = lower_seq(s);
    if l == "all"@ || l == "a"@ {
        Ok(DeviceAccess::All)
    } else if l == "minimal"@ || l == "m"@ {
        Ok(DeviceAccess::Minimal)
    } else {
        Err("Invalid device access mode: "@ + s)
    }
}

impl DeviceAccess {
    /// Parses a device access mode name.
    pub fn from_str(s: &str) -> (r: Result<Self, String>)
        ensures
            match r {
                Ok(m) => spec_parse_device_access(s@) == Ok::<DeviceAccess, Seq<char>>(m),
                Err(e) => spec_parse_device_access(s@) == Err::<DeviceAccess, Seq<char>>(e@),
            },
    {
        let l = to_ascii_lower(s);
        if str_eq(l.as_str(), "all") || str_eq(l.as_str(), "a") {
            Ok(DeviceAccess::All)
        } else if str_eq(l.as_str(), "minimal") || str_eq(l.as_str(), "m") {
            Ok(DeviceAccess::Minimal)
        } else {
            let mut m = String::from_str("Invalid device access mode: ");
            m.append(s);
            Err(m)
        }
    }
}

/// The host environment snapshot a launch needs, read once at the process
/// boundary and threaded through as a value; the compiler never reads
/// ambient environment state itself.
#[derive(Debug)]
pub struct RuntimeEnv {
    pub home_dir: String,
    pub dbus_session_bus_address: String,
    pub xdg_runtime_dir: String,
    /// The unmodified value of the PATH variable.
    pub original_path: String,
    /// X display address, e.g. `:0`, `:1` or `localhost:0.0`.
    pub display_address: String,
    /// The X authority credential file.
    pub xauthority_file: String,
    /// Additional environment variables to set, in the order they were
    /// given; later entries win over earlier ones and over the compiler.
    pub overrides: Vec<(String, String)>,
}

/// Model of the environment snapshot.
pub struct RuntimeEnvModel {
    pub home_dir: Seq<char>,
    pub dbus_session_bus_address: Seq<char>,
    pub xdg_runtime_dir: Seq<char>,
    pub original_path: Seq<char>,
    pub display_address: Seq<char>,
    pub xauthority_file: Seq<char>,
    pub overrides: Seq<(Seq<char>, Seq<char>)>,
}

impl View for RuntimeEnv {
    type V = RuntimeEnvModel;

    open spec fn view(&self) -> RuntimeEnvModel {
        RuntimeEnvModel {
            home_dir: self.home_dir@,
            dbus_session_bus_address: self.dbus_session_bus_address@,
            xdg_runtime_dir: self.xdg_runtime_dir@,
            original_path: self.original_path@,
            display_address: self.display_address@,
            xauthority_file: self.xauthority_file@,
            overrides: self.overrides@.map_values(|p: (String, String)| (p.0@, p.1@)),
        }
    }
}

/// A missing required environment variable, named.
#[derive(Debug, PartialEq)]
pub struct ConfigError {
    pub missing_variable: String,
}

impl ConfigError {
    /// Human-readable description, naming the missing variable.
    pub fn message(&self) -> (r: String)
        ensures
            r@ == "Failed to read environment variable: "@ + self.missing_variable@,
    {
        let mut m = String::from_str("Failed to read environment variable: ");
        m.append(self.missing_variable.as_str());
        m
    }
}

/// The first of the six required variables that is absent, if any, in the
/// fixed order they are read.
pub open spec fn spec_first_missing_var(
    home: Option<String>,
    dbus: Option<String>,
    xdg: Option<String>,
    path: Option<String>,
    display: Option<String>,
    xauthority: Option<String>,
) -> Option<Seq<char>> {
    if home is None {
        Some("HOME"@)
    } else if dbus is None {
        Some("DBUS_SESSION_BUS_ADDRESS"@)
    } else if xdg is None {
        Some("XDG_RUNTIME_DIR"@)
    } else if path is None {
        Some("PATH"@)
    } else if display is None {
        Some("DISPLAY"@)
    } else if xauthority is None {
        Some("XAUTHORITY"@)
    } else {
        None
    }
}

impl RuntimeEnv {
    /// Builds the snapshot from the six required environment variables as
    /// the process boundary read them; the absence of any is a fatal
    /// configuration error naming the variable. Overrides start empty.
    pub fn from_env(
        home: Option<String>,
        dbus: Option<String>,
        xdg: Option<String>,
        path: Option<String>,
        display: Option<String>,
        xauthority: Option<String>,
    ) -> (r: Result<Self, ConfigError>)
        ensures
            match r {
                Ok(env) => {
                    &&& spec_first_missing_var(home, dbus, xdg, path, display, xauthority)
                        is None
                    &&& env@.home_dir == home->0@
                    &&& env@.dbus_session_bus_address == dbus->0@
                    &&& env@.xdg_runtime_dir == xdg->0@
                    &&& env@.original_path == path->0@
                    &&& env@.display_address == display->0@
                    &&& env@.xauthority_file == xauthority->0@
                    &&& env@.overrides.len() == 0
                },
                Err(e) => spec_first_missing_var(home, dbus, xdg, path, display, xauthority)
                    == Some(e.missing_variable@),
            },
    {
        let home_dir = match home {
            Some(v) => v,
            None => {
                return Err(ConfigError { missing_variable: String::from_str("HOME") });
            },
        };
        let dbus_session_bus_address = match dbus {
            Some(v) => v,
            None => {
                return Err(
                    ConfigError { missing_variable: String::from_str("DBUS_SESSION_BUS_ADDRESS") },
                );
            },
        };
        let xdg_runtime_dir = match xdg {
            Some(v) => v,
            None => {
                return Err(ConfigError { missing_variable: String::from_str("XDG_RUNTIME_DIR") });
            },
        };
        let original_path = match path {
            Some(v) => v,
            None => {
                return Err(ConfigError { missing_variable: String::from_str("PATH") });
            },
        };
        let display_address = match display {
            Some(v) => v,
            None => {
                return Err(ConfigError { missing_variable: String::from_str("DISPLAY") });
            },
        };
        let xauthority_file = match xauthority {
            Some(v) => v,
            None => {
                return Err(ConfigError { missing_variable: String::from_str("XAUTHORITY") });
            },
        };
        let r = RuntimeEnv {
            home_dir,
            dbus_session_bus_address,
            xdg_runtime_dir,
            original_path,
            display_address,
            xauthority_file,
            overrides: Vec::new(),
        };
        assert(r@.overrides =~= Seq::<(Seq<char>, Seq<char>)>::empty());
        Ok(r)
    }
}

/// The sandbox policy of a launch.
#[derive(Debug)]
pub struct SandboxConfig {
    /// Whether new PID, cgroup and user namespaces are requested.
    pub namespace_isolation: bool,
    /// The user and group id inside the sandbox.
    pub user_mapping: UserMapping,
    /// Network access for sandboxed programs; the safe default is to deny
    /// connections by using a separate network namespace.
    pub network_mode: NetworkMode,
    /// What devices are accessible from within the sandbox.
    pub device_access: DeviceAccess,
    /// Whether diagnostic logging of the compatibility layer is kept on.
    pub verbose: bool,
}

impl Default for SandboxConfig {
    /// The restrictive default policy: isolated namespaces, random ids,
    /// no network, minimal devices, quiet logging.
    fn default() -> (r: Self)
        ensures
            r == (SandboxConfig {
                namespace_isolation: true,
                user_mapping: UserMapping::Random,
                network_mode: NetworkMode::NoAccess,
                device_access: DeviceAccess::Minimal,
                verbose: false,
            }),
    {
        SandboxConfig {
            namespace_isolation: true,
            user_mapping: UserMapping::Random,
            network_mode: NetworkMode::NoAccess,
            device_access: DeviceAccess::Minimal,
            verbose: false,
        }
    }
}

/// What to start inside the sandbox.
#[derive(Debug)]
pub enum LaunchParams {
    /// No application configured: a login shell is started instead.
    Unconfigured,
    /// An application directory, and optionally a binary with arguments.
    Configured {
        read_only: bool,
        app_dir: String,
        app_bin: Option<String>,
        app_args: Vec<String>,
    },
}

/// Model of the launch parameters.
pub enum LaunchParamsModel {
    Unconfigured,
    Configured {
        read_only: bool,
        app_dir: Seq<char>,
        app_bin: Option<Seq<char>>,
        app_args: Seq<Seq<char>>,
    },
}

impl View for LaunchParams {
    type V = LaunchParamsModel;

    open spec fn view(&self) -> LaunchParamsModel {
        match self {
            LaunchParams::Unconfigured => LaunchParamsModel::Unconfigured,
            LaunchParams::Configured { read_only, app_dir, app_bin, app_args } => {
                LaunchParamsModel::Configured {
                    read_only: *read_only,
                    app_dir: app_dir@,
                    app_bin: match app_bin {
                        Some(b) => Some(b@),
                        None => None,
                    },
                    app_args: app_args.deep_view(),
                }
            },
        }
    }
}

/// Whether the configured binary is a Windows binary by its extension.
pub open spec fn spec_is_windows_binary(lp: LaunchParamsModel) -> bool {
    match lp {
        LaunchParamsModel::Configured { app_bin: Some(b), .. } => b.len() >= 4 && b.skip(
            b.len() - 4,
        ) == ".exe"@,
        _ => false,
    }
}

impl LaunchParams {
    /// A configured launch; absent arguments mean an empty argument list.
    pub fn configured(
        read_only: bool,
        app_dir: String,
        app_bin: Option<String>,
        app_args: Option<Vec<String>>,
    ) -> (r: Self)
        ensures
            r@ == (LaunchParamsModel::Configured {
                read_only,
                app_dir: app_dir@,
                app_bin: match app_bin {
                    Some(b) => Some(b@),
                    None => None,
                },
                app_args: match app_args {
                    Some(a) => a.deep_view(),
                    None => Seq::empty(),
                },
            }),
    {
        let args = match app_args {
            Some(a) => a,
            None => Vec::new(),
        };
        assert(args.deep_view() =~= (match app_args {
            Some(a) => a.deep_view(),
            None => Seq::<Seq<char>>::empty(),
        }));
        LaunchParams::Configured { read_only, app_dir, app_bin, app_args: args }
    }

    /// Whether the configured binary names a Windows executable.
    pub fn is_windows_binary(&self) -> (r: bool)
        ensures
            r == spec_is_windows_binary(self@),
    {
        proof {
            reveal_strlit(".exe");
        }
        match self {
            LaunchParams::Configured { app_bin: Some(app_bin), .. } => ends_with(
                app_bin.as_str(),
                ".exe",
            ),
            _ => false,
        }
    }
}

/// Everything about the compatibility runtime a launch uses: where its
/// binaries and its mutable prefix live, what to start, and the tuning.
#[derive(Debug)]
pub struct LaunchConfig {
    /// The tree that holds the runtime's binaries and libraries, bound
    /// read-only into the sandbox.
    pub wine_root: String,
    /// The mutable state tree of the runtime, bound read-write.
    pub wine_prefix: String,
    /// What to execute inside the sandbox; a shell if unconfigured.
    pub launch_params: LaunchParams,
    /// Optional upscale tuning (must be supported by the runtime).
    pub upscale_mode: Option<UpscaleMode>,
    /// Optional synchronization-primitive tuning.
    pub sync_mode: Option<SyncMode>,
}

/// Model of the launch configuration.
pub struct LaunchConfigModel {
    pub wine_root: Seq<char>,
    pub wine_prefix: Seq<char>,
    pub launch_params: LaunchParamsModel,
    pub upscale_mode: Option<UpscaleMode>,
    pub sync_mode: Option<SyncMode>,
}

impl View for LaunchConfig {
    type V = LaunchConfigModel;

    open spec fn view(&self) -> LaunchConfigModel {
        LaunchConfigModel {
            wine_root: self.wine_root@,
            wine_prefix: self.wine_prefix@,
            launch_params: self.launch_params@,
            upscale_mode: self.upscale_mode,
            sync_mode: self.sync_mode,
        }
    }
}

impl LaunchConfig {
    /// Assembles a launch configuration; absent launch parameters mean the
    /// unconfigured launch (a shell). A runtime or prefix path given
    /// relative is resolved under the bundle manager's data root, whose
    /// absence (no home directory) is then a configuration error.
    pub fn new(
        runner_path: String,
        prefix_path: String,
        data_root: Option<String>,
        launch_params: Option<LaunchParams>,
        upscale_mode: Option<UpscaleMode>,
        sync_mode: Option<SyncMode>,
    ) -> (r: Result<Self, ConfigError>)
        ensures
            match r {
                Ok(lc) => {
                    &&& (spec_is_absolute(runner_path@) && spec_is_absolute(prefix_path@))
                        || data_root is Some
                    &&& lc@ == (LaunchConfigModel {
                        wine_root: spec_resolve_asset_path(runner_path@, data_root, "/runners/"@),
                        wine_prefix: spec_resolve_asset_path(prefix_path@, data_root, "/bottles/"@),
                        launch_params: match launch_params {
                            Some(lp) => lp@,
                            None => LaunchParamsModel::Unconfigured,
                        },
                        upscale_mode,
                        sync_mode,
                    })
                },
                Err(e) => {
                    &&& !(spec_is_absolute(runner_path@) && spec_is_absolute(prefix_path@))
                    &&& data_root is None
                    &&& e.missing_variable@ == "HOME"@
                },
            },
    {
        let runner_abs = is_absolute_path(runner_path.as_str());
        let prefix_abs = is_absolute_path(prefix_path.as_str());
        if !(runner_abs && prefix_abs) && data_root.is_none() {
            return Err(ConfigError { missing_variable: String::from_str("HOME") });
        }
        let wine_root = if runner_abs {
            runner_path
        } else {
            let root = match &data_root {
                Some(d) => d.clone(),
                None => String::new(),
            };
            let mut s = root;
            s.append("/runners/");
            s.append(runner_path.as_str());
            s
        };
        let wine_prefix = if prefix_abs {
            prefix_path
        } else {
            let root = match &data_root {
                Some(d) => d.clone(),
                None => String::new(),
            };
            let mut s = root;
            s.append("/bottles/");
            s.append(prefix_path.as_str());
            s
        };
        Ok(
            LaunchConfig {
                wine_root,
                wine_prefix,
                launch_params: match launch_params {
                    Some(lp) => lp,
                    None => LaunchParams::Unconfigured,
                },
                upscale_mode,
                sync_mode,
            },
        )
    }
}

/// Whether a path is absolute, judged lexically.
pub open spec fn spec_is_absolute(p: Seq<char>) -> bool {
    p.len() > 0 && p[0] == '/'
}

/// Where a runtime-bundle asset path resolves: an absolute path stands as
/// it is; a relative one lives under the data root behind the given
/// subdirectory infix.
pub open spec fn spec_resolve_asset_path(
    p: Seq<char>,
    data_root: Option<String>,
    infix: Seq<char>,
) -> Seq<char> {
    if spec_is_absolute(p) {
        p
    } else {
        (match data_root {
            Some(d) => d@,
            None => Seq::<char>::empty(),
        }) + infix + p
    }
}

/// Where a path resolves against a known data root: absolute paths stand
/// as they are; relative ones live under the root behind the infix.
pub open spec fn spec_resolve_root(p: Seq<char>, root: Seq<char>, infix: Seq<char>) -> Seq<char> {
    if spec_is_absolute(p) {
        p
    } else {
        root + infix + p
    }
}

/// Whether a path string starts with the root separator.
pub fn is_absolute_path(p: &str) -> (r: bool)
    ensures
        r == spec_is_absolute(p@),
{
    p.unicode_len() > 0 && p.get_char(0) == '/'
}

/// Relies on std::time::SystemTime::now, duration_since and as_secs: the
/// whole seconds of Unix time now, or zero if the clock reads before the
/// epoch. Nothing is assumed about the value.
#[verifier::external_body]
fn unix_now_seconds() -> u64 {
    match std::time::SystemTime::now().duration_since(std::time::UNIX_EPOCH) {
        Ok(d) => d.as_secs(),
        Err(_) => 0,
    }
}

/// The current Unix timestamp in seconds, rendered in lowercase
/// hexadecimal; used as a throwaway hostname so the sandbox never sees the
/// host's. No stability across runs is promised.
pub fn current_timestamp_hex() -> (r: String)
    ensures
        exists|n: nat| r@ == hex_str(n),
{
    let n = unix_now_seconds();
    let r = u64_to_hex_string(n);
    assert(r@ == hex_str(n as nat));
    r
}

} // verus!
