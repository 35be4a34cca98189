//! The launch pipeline: validates every sub-field of a launch request,
//! assembles the configuration, and compiles the ordered front-end token
//! list. Nothing is emitted unless every validation succeeded; executing
//! the front-end is the caller's job.

use vstd::prelude::*;

use crate::bottles::get_data_root;
use crate::bwrap::{compile_directives, or_default, spec_render_tokens_of};
use crate::directive::render_tokens;
use crate::display::{spec_parse_display, DisplayError};
use crate::modes::{SyncMode, UpscaleMode};
use crate::mount::{
    parse_mappings, spec_parse_mappings, spec_parse_mount_config, MountConfig, MountError,
};
use crate::sandbox::{
    spec_first_missing_var, spec_resolve_root, ConfigError, DeviceAccess,
    LaunchConfig, LaunchConfigModel, LaunchParams, LaunchParamsModel, NetworkMode, RuntimeEnv,
    RuntimeEnvModel, SandboxConfig,
};
use crate::strings::{spec_join, spec_split, split_char, join_range, hex_str};
use crate::user::{UserMapping, MAX_ID, MIN_ID};

verus! {

/// Everything that can stop a launch before the front-end is spawned.
#[derive(Debug, PartialEq)]
pub enum SandboxError {
    /// A required environment variable is missing.
    Config(ConfigError),
    /// The display address is malformed.
    Display(DisplayError),
    /// A volume specification is malformed or disallowed.
    Volume(MountError),
    /// The application directory specification is malformed or disallowed.
    AppDir(MountError),
}

impl SandboxError {
    /// Human-readable description of the failure.
    pub fn message(&self) -> (r: String)
        ensures
            r@ == spec_sandbox_error_message(*self),
    {
        match self {
            SandboxError::Config(e) => e.message(),
            SandboxError::Display(e) => e.message(),
            SandboxError::Volume(e) => {
                let mut m = String::from_str("volume error: ");
                m.append(e.message().as_str());
                m
            },
            SandboxError::AppDir(e) => e.message(),
        }
    }
}

pub open spec fn spec_sandbox_error_message(e: SandboxError) -> Seq<char> {
    match e {
        SandboxError::Config(c) => "Failed to read environment variable: "@ + c.missing_variable@,
        SandboxError::Display(d) => crate::display::spec_display_error_message(d@),
        SandboxError::Volume(m) => "volume error: "@ + crate::mount::spec_mount_error_message(m@),
        SandboxError::AppDir(m) => crate::mount::spec_mount_error_message(m@),
    }
}

/// What parsing the override list means: each entry splits at its first
/// `=` into a key and a value; an entry without `=` is a key with an
/// empty value. Order is kept.
pub open spec fn spec_parse_env_overrides(items: Seq<Seq<char>>) -> Seq<(Seq<char>, Seq<char>)> {
    items.map_values(
        |s: Seq<char>|
            (spec_split(s, '=')[0], spec_join(spec_split(s, '=').skip(1), '=')),
    )
}

/// Parses `KEY=VALUE` override entries, keeping their order.
pub fn parse_env_overrides(items: &Vec<String>) -> (r: Vec<(String, String)>)
    ensures
        r@.map_values(|p: (String, String)| (p.0@, p.1@)) == spec_parse_env_overrides(
            items.deep_view(),
        ),
{
    let ghost ideep = items.deep_view();
    let mut out: Vec<(String, String)> = Vec::new();
    let mut i: usize = 0;
    assert(out@.map_values(|p: (String, String)| (p.0@, p.1@)) =~= spec_parse_env_overrides(
        ideep.take(0),
    ));
    while i < items.len()
        invariant
            i <= items.len(),
            ideep == items.deep_view(),
            out@.map_values(|p: (String, String)| (p.0@, p.1@)) == spec_parse_env_overrides(
                ideep.take(i as int),
            ),
        decreases items.len() - i,
    {
        let parts = split_char(items[i].as_str(), '=');
        proof {
            crate::strings::lemma_split_len(ideep[i as int], '=');
        }
        let key = parts[0].clone();
        let value = join_range(&parts, '=', 1, parts.len());
        proof {
            assert(parts.deep_view().subrange(1, parts@.len() as int) =~= parts.deep_view().skip(
                1,
            ));
        }
        let ghost prev = out@.map_values(|p: (String, String)| (p.0@, p.1@));
        out.push((key, value));
        i += 1;
        proof {
            assert(out@.map_values(|p: (String, String)| (p.0@, p.1@)) =~= prev.push(
                (spec_split(ideep[i - 1], '=')[0], spec_join(
                    spec_split(ideep[i - 1], '=').skip(1),
                    '=',
                )),
            ));
            assert(ideep.take(i as int) =~= ideep.take(i as int - 1).push(ideep[i - 1]));
            assert(out@.map_values(|p: (String, String)| (p.0@, p.1@))
                =~= spec_parse_env_overrides(ideep.take(i as int)));
        }
    }
    assert(ideep.take(items@.len() as int) =~= ideep);
    out
}

/// The launch parameters a request resolves to: nothing configured, or the
/// validated application directory (read-only unless its flags made it
/// writable) with the optional binary and arguments.
pub open spec fn spec_launch_params_of(
    app_dir: Option<String>,
    app_bin: Option<String>,
    app_args: Option<Vec<String>>,
) -> LaunchParamsModel {
    match app_dir {
        None => LaunchParamsModel::Unconfigured,
        Some(d) => LaunchParamsModel::Configured {
            read_only: !spec_parse_mount_config(d@)->Ok_0.writable,
            app_dir: spec_parse_mount_config(d@)->Ok_0.path,
            app_bin: match app_bin {
                Some(b) => Some(b@),
                None => None,
            },
            app_args: match app_args {
                Some(a) => a.deep_view(),
                None => Seq::empty(),
            },
        },
    }
}

/// The token list a successful run produces, as a function of the plain
/// request values and of the three values resolved at launch time: the
/// user and group id and the throwaway hostname.
pub open spec fn spec_run_tokens(
    environment: Seq<Seq<char>>,
    no_namespace_isolation: bool,
    user_mapping: UserMapping,
    network_mode: NetworkMode,
    device_access: DeviceAccess,
    verbose: bool,
    upscale_mode: UpscaleMode,
    sync_mode: SyncMode,
    runner_path: Seq<char>,
    prefix_path: Seq<char>,
    app_dir: Option<String>,
    app_bin: Option<String>,
    app_args: Option<Vec<String>>,
    home: Option<String>,
    dbus: Option<String>,
    xdg: Option<String>,
    path_var: Option<String>,
    display_var: Option<String>,
    xauthority: Option<String>,
    term: Option<String>,
    shell: Option<String>,
    scratch: Seq<char>,
    vendor: Seq<Seq<char>>,
    uid: u32,
    gid: u32,
    host: Seq<char>,
) -> Seq<Seq<char>> {
    spec_render_tokens_of(
        SandboxConfig {
            namespace_isolation: !no_namespace_isolation,
            user_mapping,
            network_mode,
            device_access,
            verbose,
        },
        LaunchConfigModel {
            wine_root: spec_resolve_root(
                runner_path,
                home->0@ + "/.var/app/com.usebottles.bottles/data/bottles"@,
                "/runners/"@,
            ),
            wine_prefix: spec_resolve_root(
                prefix_path,
                home->0@ + "/.var/app/com.usebottles.bottles/data/bottles"@,
                "/bottles/"@,
            ),
            launch_params: spec_launch_params_of(app_dir, app_bin, app_args),
            upscale_mode: Some(upscale_mode),
            sync_mode: Some(sync_mode),
        },
        RuntimeEnvModel {
            home_dir: home->0@,
            dbus_session_bus_address: dbus->0@,
            xdg_runtime_dir: xdg->0@,
            original_path: path_var->0@,
            display_address: display_var->0@,
            xauthority_file: xauthority->0@,
            overrides: spec_parse_env_overrides(environment),
        },
        scratch,
        uid,
        gid,
        vendor,
        host,
        spec_parse_display(display_var->0@)->Ok_0.display_number,
        or_default(term, "xterm-256color"@),
        or_default(shell, "bash"@),
    )
}

/// Validates a whole launch request and compiles it to the flat ordered
/// token list for the sandboxing front-end. All parsing and validation
/// happens before any token is produced; the caller reads the host
/// environment, creates the scratch placeholder file, scans for vendor
/// devices, and finally spawns the front-end on the returned tokens.
#[verifier::rlimit(50)]
pub fn run(
    environment: &Vec<String>,
    volumes: &Vec<String>,
    no_namespace_isolation: bool,
    user_mapping: UserMapping,
    network_mode: NetworkMode,
    device_access: DeviceAccess,
    verbose: bool,
    upscale_mode: UpscaleMode,
    sync_mode: SyncMode,
    runner_path: String,
    prefix_path: String,
    app_dir: Option<String>,
    app_bin: Option<String>,
    app_args: Option<Vec<String>>,
    home: Option<String>,
    dbus: Option<String>,
    xdg: Option<String>,
    path_var: Option<String>,
    display_var: Option<String>,
    xauthority: Option<String>,
    term: Option<String>,
    shell: Option<String>,
    empty_file_path: &str,
    vendor_devices: &Vec<String>,
) -> (r: Result<Vec<String>, SandboxError>)
    ensures
        ({
            let appdir_ok = match app_dir {
                None => true,
                Some(ref d) => spec_parse_mount_config(d@) is Ok,
            };
            let missing = spec_first_missing_var(home, dbus, xdg, path_var, display_var,
            xauthority);
            let vols = spec_parse_mappings(volumes.deep_view());
            match r {
                Err(SandboxError::AppDir(m)) => (app_dir matches Some(d) && spec_parse_mount_config(
                    d@,
                ) == Err::<crate::mount::MountConfigModel, crate::mount::MountErrorModel>(m@)),
                Err(SandboxError::Config(c)) => appdir_ok && missing == Some(c.missing_variable@),
                Err(SandboxError::Volume(m)) => appdir_ok && missing is None && vols == Err::<
                    Seq<crate::mount::MountMappingModel>,
                    crate::mount::MountErrorModel,
                >(m@),
                Err(SandboxError::Display(de)) => appdir_ok && missing is None && vols is Ok
                    && (spec_parse_display(display_var->0@) matches Err(em) && em == de@),
                Ok(tokens) => {
                    &&& appdir_ok
                    &&& missing is None
                    &&& vols is Ok
                    &&& spec_parse_display(display_var->0@) is Ok
                    &&& exists|uid: u32, gid: u32, host: Seq<char>|
                        #![trigger spec_run_tokens(
                            environment.deep_view(),
                            no_namespace_isolation,
                            user_mapping,
                            network_mode,
                            device_access,
                            verbose,
                            upscale_mode,
                            sync_mode,
                            runner_path@,
                            prefix_path@,
                            app_dir,
                            app_bin,
                            app_args,
                            home,
                            dbus,
                            xdg,
                            path_var,
                            display_var,
                            xauthority,
                            term,
                            shell,
                            empty_file_path@,
                            vendor_devices.deep_view(),
                            uid,
                            gid,
                            host,
                        )]
                        {
                            &&& (exists|n: nat| host == hex_str(n))
                            &&& match user_mapping {
                                UserMapping::Random => MIN_ID <= uid <= MAX_ID && MIN_ID <= gid
                                    <= MAX_ID,
                                UserMapping::Custom(u, g) => uid == u && gid == g,
                            }
                            &&& tokens.deep_view() == spec_run_tokens(
                                environment.deep_view(),
                                no_namespace_isolation,
                                user_mapping,
                                network_mode,
                                device_access,
                                verbose,
                                upscale_mode,
                                sync_mode,
                                runner_path@,
                                prefix_path@,
                                app_dir,
                                app_bin,
                                app_args,
                                home,
                                dbus,
                                xdg,
                                path_var,
                                display_var,
                                xauthority,
                                term,
                                shell,
                                empty_file_path@,
                                vendor_devices.deep_view(),
                                uid,
                                gid,
                                host,
                            )
                        }
                },
            }
        }),
{
    // Resolve the launch parameters first: a malformed application
    // directory fails before anything else is looked at.
    let launch_params: LaunchParams = match app_dir {
        Some(ref d) => {
            let mount_config = match MountConfig::from_str(d.as_str()) {
                Ok(c) => c,
                Err(e) => {
                    return Err(SandboxError::AppDir(e));
                },
            };
            LaunchParams::configured(
                !mount_config.writable,
                mount_config.path,
                app_bin,
                app_args,
            )
        },
        None => LaunchParams::Unconfigured,
    };
    // The bundle manager's data root needs the home directory; without it,
    // a relative runtime or prefix path cannot be resolved.
    let data_root: Option<String> = match &home {
        Some(h) => Some(get_data_root(h.as_str())),
        None => None,
    };
    let ghost g_data_root = data_root;
    let launch_config = match LaunchConfig::new(
        runner_path,
        prefix_path,
        data_root,
        Some(launch_params),
        Some(upscale_mode),
        Some(sync_mode),
    ) {
        Ok(lc) => lc,
        Err(e) => {
            assert(home is None);
            return Err(SandboxError::Config(e));
        },
    };
    let env_base = match RuntimeEnv::from_env(home, dbus, xdg, path_var, display_var, xauthority) {
        Ok(env) => env,
        Err(e) => {
            return Err(SandboxError::Config(e));
        },
    };
    let mut runtime_env = env_base;
    runtime_env.overrides = parse_env_overrides(environment);
    // Volume specifications are validated before anything is emitted, so
    // that no partially validated configuration ever reaches execution.
    match parse_mappings(volumes) {
        Ok(_) => {},
        Err(e) => {
            return Err(SandboxError::Volume(e));
        },
    }
    let sandbox_config = SandboxConfig {
        namespace_isolation: !no_namespace_isolation,
        user_mapping,
        network_mode,
        device_access,
        verbose,
    };
    // The resolved identity inside the user namespace.
    let (uid, gid) = user_mapping.get_uid_gid();
    // The throwaway hostname.
    let hostname = crate::sandbox::current_timestamp_hex();
    let dirs = match compile_directives(
        &sandbox_config,
        &launch_config,
        &runtime_env,
        empty_file_path,
        vendor_devices,
        uid,
        gid,
        hostname.as_str(),
        &term,
        &shell,
    ) {
        Ok(ds) => ds,
        Err(e) => {
            return Err(SandboxError::Display(e));
        },
    };
    let tokens = render_tokens(&dirs);
    proof {
        let root = home->0@ + "/.var/app/com.usebottles.bottles/data/bottles"@;
        assert(g_data_root matches Some(d) && d@ == root);
        assert(runtime_env@ == RuntimeEnvModel {
            home_dir: home->0@,
            dbus_session_bus_address: dbus->0@,
            xdg_runtime_dir: xdg->0@,
            original_path: path_var->0@,
            display_address: display_var->0@,
            xauthority_file: xauthority->0@,
            overrides: spec_parse_env_overrides(environment.deep_view()),
        });
        assert(launch_config@.wine_root == spec_resolve_root(runner_path@, root, "/runners/"@));
        assert(launch_config@.wine_prefix == spec_resolve_root(prefix_path@, root, "/bottles/"@));
        assert(launch_config@.launch_params == spec_launch_params_of(app_dir, app_bin, app_args));
        assert(launch_config@ == LaunchConfigModel {
            wine_root: spec_resolve_root(runner_path@, root, "/runners/"@),
            wine_prefix: spec_resolve_root(prefix_path@, root, "/bottles/"@),
            launch_params: spec_launch_params_of(app_dir, app_bin, app_args),
            upscale_mode: Some(upscale_mode),
            sync_mode: Some(sync_mode),
        });
        assert(tokens.deep_view() == spec_run_tokens(
            environment.deep_view(),
            no_namespace_isolation,
            user_mapping,
            network_mode,
            device_access,
            verbose,
            upscale_mode,
            sync_mode,
            runner_path@,
            prefix_path@,
            app_dir,
            app_bin,
            app_args,
            home,
            dbus,
            xdg,
            path_var,
            display_var,
            xauthority,
            term,
            shell,
            empty_file_path@,
            vendor_devices.deep_view(),
            uid,
            gid,
            hostname@,
        ));
        assert(exists|n: nat| hostname@ == hex_str(n));
    }
    Ok(tokens)
}

} // verus!
