//! The directive compiler: turns the validated launch intentions into the
//! ordered directive sequence for the sandboxing front-end. Order is
//! semantically load-bearing; among environment assignments for one key
//! the last directive wins, and caller-supplied overrides come last.

use vstd::prelude::*;

use crate::directive::{dirs_view, spec_render_tokens, Directive, DirectiveModel};
use crate::display::{spec_parse_display, spec_socket_path, Display, DisplayError};
use crate::modes::{spec_fsr_mode_text, SyncMode, UpscaleMode};
use crate::sandbox::{
    DeviceAccess, LaunchConfig, LaunchConfigModel, LaunchParams, LaunchParamsModel, NetworkMode,
    RuntimeEnv, RuntimeEnvModel, SandboxConfig,
};
use crate::strings::dec_str;

verus! {

/// The fixed inner path of the read-only runtime tree.
pub open spec fn inner_wine_root() -> Seq<char> {
    "/opt/wine"@
}

/// The fixed inner path of the read-write runtime prefix.
pub open spec fn inner_wine_prefix() -> Seq<char> {
    "/var/lib/wine"@
}

/// The fixed inner path the application directory is bound at.
pub open spec fn inner_app_dir() -> Seq<char> {
    "/app"@
}

/// The namespace directives of the isolation policy: new PID and cgroup
/// namespaces, and a user namespace remapped to the resolved ids.
pub open spec fn isolation_dirs(namespace_isolation: bool, uid: u32, gid: u32) -> Seq<
    DirectiveModel,
> {
    if namespace_isolation {
        seq![
            DirectiveModel::UnsharePid,
            DirectiveModel::UnshareCgroup,
            DirectiveModel::UnshareUser { uid, gid },
        ]
    } else {
        Seq::empty()
    }
}

/// The device policy: everything, or a fixed allow-list of input and GPU
/// devices followed by the discovered vendor devices in discovery order.
pub open spec fn device_dirs(da: DeviceAccess, vendor: Seq<Seq<char>>) -> Seq<DirectiveModel> {
    match da {
        DeviceAccess::All => seq![DirectiveModel::DevBind { source: "/dev"@, target: "/dev"@ }],
        DeviceAccess::Minimal => seq![
            DirectiveModel::DevBind { source: "/dev/input"@, target: "/dev/input"@ },
            DirectiveModel::DevBind { source: "/dev/uinput"@, target: "/dev/uinput"@ },
            DirectiveModel::DevBind { source: "/dev/dri"@, target: "/dev/dri"@ },
        ] + vendor.map_values(|d: Seq<char>| DirectiveModel::DevBind { source: d, target: d }),
    }
}

/// Core OS trees read-only, a library-path symlink, the narrow session and
/// hardware allow-list, the whole host configuration tree read-write, and
/// the hostname file masked with the scratch placeholder.
pub open spec fn system_bind_dirs(scratch: Seq<char>) -> Seq<DirectiveModel> {
    seq![
        DirectiveModel::RoBind { source: "/bin"@, target: "/bin"@ },
        DirectiveModel::RoBind { source: "/lib64"@, target: "/lib64"@ },
        DirectiveModel::RoBind { source: "/sbin"@, target: "/sbin"@ },
        DirectiveModel::RoBind { source: "/usr"@, target: "/usr"@ },
        DirectiveModel::DirSymlink { source: "/usr/lib"@, target: "/lib"@ },
        DirectiveModel::RoBind { source: "/run/dbus"@, target: "/run/dbus"@ },
        DirectiveModel::RoBind { source: "/run/user"@, target: "/run/user"@ },
        DirectiveModel::RoBind { source: "/sys"@, target: "/sys"@ },
        DirectiveModel::BindRw { source: "/etc"@, target: "/etc"@ },
        DirectiveModel::RoBind { source: scratch, target: "/etc/hostname"@ },
    ]
}

/// The network policy: nothing extra for full access; masked trust stores,
/// resolver and hosts files for restricted access, leaving raw sockets
/// available; a fresh disconnected network namespace for no access.
pub open spec fn net_dirs(mode: NetworkMode, scratch: Seq<char>) -> Seq<DirectiveModel> {
    match mode {
        NetworkMode::FullAccess => Seq::empty(),
        NetworkMode::RestrictedAccess => seq![
            DirectiveModel::Tmpfs("/etc/ca-certificates"@),
            DirectiveModel::Tmpfs("/etc/ssl"@),
            DirectiveModel::Tmpfs("/etc/NetworkManager"@),
            DirectiveModel::RoBind { source: scratch, target: "/etc/resolv.conf"@ },
            DirectiveModel::RoBind { source: scratch, target: "/etc/nsswitch.conf"@ },
            DirectiveModel::RoBind { source: scratch, target: "/etc/hosts"@ },
        ],
        NetworkMode::NoAccess => seq![DirectiveModel::UnshareNet],
    }
}

/// Ephemeral storage for variable host state, an ephemeral isolated home,
/// the runtime trees at their fixed inner paths, and the X socket and
/// authority file at identical inner and outer paths.
pub open spec fn storage_session_dirs(
    re: RuntimeEnvModel,
    lc: LaunchConfigModel,
    display_number: u32,
) -> Seq<DirectiveModel> {
    seq![
        DirectiveModel::Tmpfs("/var"@),
        DirectiveModel::ProcFs("proc"@),
        DirectiveModel::Tmpfs(re.home_dir),
        DirectiveModel::Tmpfs("/opt"@),
        DirectiveModel::RoBind { source: lc.wine_root, target: inner_wine_root() },
        DirectiveModel::BindRw { source: lc.wine_prefix, target: inner_wine_prefix() },
        DirectiveModel::Tmpfs("/tmp"@),
        DirectiveModel::BindRw {
            source: spec_socket_path(display_number),
            target: spec_socket_path(display_number),
        },
        DirectiveModel::RoBind { source: re.xauthority_file, target: re.xauthority_file },
    ]
}

/// Clears the environment and sets the explicit allow-list the runtime
/// needs: identity, session, display, runtime paths and tuning, an
/// extended PATH, and the shader and state caches redirected under the
/// mutable prefix.
pub open spec fn env_dirs(re: RuntimeEnvModel) -> Seq<DirectiveModel> {
    seq![
        DirectiveModel::ClearEnv,
        DirectiveModel::SetEnv { key: "HOME"@, value: re.home_dir },
        DirectiveModel::SetEnv { key: "XAUTHORITY"@, value: re.xauthority_file },
        DirectiveModel::SetEnv {
            key: "DBUS_SESSION_BUS_ADDRESS"@,
            value: re.dbus_session_bus_address,
        },
        DirectiveModel::SetEnv { key: "XDG_RUNTIME_DIR"@, value: re.xdg_runtime_dir },
        DirectiveModel::SetEnv { key: "DISPLAY"@, value: re.display_address },
        DirectiveModel::SetEnv { key: "WINEPREFIX"@, value: inner_wine_prefix() },
        DirectiveModel::SetEnv { key: "WINEDLLOVERRIDES"@, value: "winemenubuilder=''"@ },
        DirectiveModel::SetEnv { key: "WINE_LARGE_ADDRESS_AWARE"@, value: "1"@ },
        DirectiveModel::SetEnv { key: "SDL_JOYSTICK_DISABLE_UDEV"@, value: "1"@ },
        DirectiveModel::SetEnv { key: "PATH"@, value: "/opt/wine/bin:"@ + re.original_path },
        DirectiveModel::SetEnv { key: "__GL_SHADER_DISK_CACHE"@, value: "1"@ },
        DirectiveModel::SetEnv {
            key: "__GL_SHADER_DISK_CACHE_PATH"@,
            value: "/var/lib/wine/cache/gl_shader"@,
        },
        DirectiveModel::SetEnv {
            key: "DXVK_STATE_CACHE_PATH"@,
            value: "/var/lib/wine/cache/dxvk_state"@,
        },
        DirectiveModel::SetEnv {
            key: "MESA_SHADER_CACHE_DIR"@,
            value: "/var/lib/wine/cache/mesa_shader"@,
        },
        DirectiveModel::SetEnv {
            key: "VKD3D_SHADER_CACHE_PATH"@,
            value: "/var/lib/wine/cache/vkd3d_shader"@,
        },
    ]
}

/// Upscale tuning: nothing, the fullscreen scaler's mode and strength, or
/// the vendor-API pair for learned upscaling. At most one is active.
pub open spec fn upscale_dirs(m: Option<UpscaleMode>) -> Seq<DirectiveModel> {
    match m {
        None | Some(UpscaleMode::Off) => Seq::empty(),
        Some(UpscaleMode::Fsr { mode, strength }) => seq![
            DirectiveModel::SetEnv { key: "WINE_FULLSCREEN_FSR"@, value: "1"@ },
            DirectiveModel::SetEnv {
                key: "WINE_FULLSCREEN_FSR_MODE"@,
                value: spec_fsr_mode_text(mode),
            },
            DirectiveModel::SetEnv {
                key: "WINE_FULLSCREEN_FSR_STRENGTH"@,
                value: dec_str(strength as nat),
            },
        ],
        Some(UpscaleMode::Dlss) => seq![
            DirectiveModel::SetEnv { key: "DXVK_NVAPIHACK"@, value: "0"@ },
            DirectiveModel::SetEnv { key: "DXVK_ENABLE_NVAPI"@, value: "1"@ },
        ],
    }
}

/// Synchronization tuning: at most one of the two primitives.
pub open spec fn sync_dirs(m: Option<SyncMode>) -> Seq<DirectiveModel> {
    match m {
        None | Some(SyncMode::Off) => Seq::empty(),
        Some(SyncMode::Fsync) => seq![
            DirectiveModel::SetEnv { key: "WINEFSYNC"@, value: "1"@ },
        ],
        Some(SyncMode::Esync) => seq![
            DirectiveModel::SetEnv { key: "WINEESYNC"@, value: "1"@ },
        ],
    }
}

/// Unless verbose output was asked for, quiet the compatibility layer and
/// its graphics shim.
pub open spec fn verbosity_dirs(verbose: bool) -> Seq<DirectiveModel> {
    if verbose {
        Seq::empty()
    } else {
        seq![
            DirectiveModel::SetEnv { key: "WINEDEBUG"@, value: "fixme-all"@ },
            DirectiveModel::SetEnv { key: "DXVK_LOG_LEVEL"@, value: "warn"@ },
        ]
    }
}

/// The caller-supplied environment overrides, one directive each, in the
/// order given; because later directives win per key, they take precedence
/// over everything the compiler set.
pub open spec fn override_dirs(ovs: Seq<(Seq<char>, Seq<char>)>) -> Seq<DirectiveModel> {
    ovs.map_values(|p: (Seq<char>, Seq<char>)| DirectiveModel::SetEnv { key: p.0, value: p.1 })
}

/// Where the configured binary ends up inside the sandbox: under the fixed
/// inner application path, unless it was given absolute.
pub open spec fn joined_bin(b: Seq<char>) -> Seq<char> {
    if b.len() > 0 && b[0] == '/' {
        b
    } else {
        "/app/"@ + b
    }
}

/// The trailing launch directives: without an application directory, a
/// login shell at the sandbox root with the terminal type passed through;
/// with one, the directory bound at the fixed inner path and entered, then
/// either the runtime's launcher on the configured binary, or the shell
/// for maintenance when only the directory was given.
pub open spec fn launch_dirs(
    lp: LaunchParamsModel,
    term: Seq<char>,
    shell: Seq<char>,
) -> Seq<DirectiveModel> {
    match lp {
        LaunchParamsModel::Unconfigured => seq![
            DirectiveModel::Chdir("/"@),
            DirectiveModel::SetEnv { key: "TERM"@, value: term },
            DirectiveModel::RunCommand(seq![shell]),
        ],
        LaunchParamsModel::Configured { read_only, app_dir, app_bin, app_args } => {
            (if read_only {
                seq![DirectiveModel::RoBind { source: app_dir, target: inner_app_dir() }]
            } else {
                seq![DirectiveModel::BindRw { source: app_dir, target: inner_app_dir() }]
            }) + seq![DirectiveModel::Chdir(inner_app_dir())] + (match app_bin {
                Some(b) => seq![
                    DirectiveModel::RunCommand(seq!["wine"@, joined_bin(b)] + app_args),
                ],
                None => seq![
                    DirectiveModel::SetEnv { key: "TERM"@, value: term },
                    DirectiveModel::RunCommand(seq![shell]),
                ],
            })
        },
    }
}

/// The whole compilation: the ordered directive sequence for a launch,
/// given the policy, the launch configuration, the environment snapshot,
/// the scratch placeholder path, the resolved user mapping, the discovered
/// vendor devices, the throwaway hostname, the parsed display number, and
/// the resolved terminal type and shell.
pub open spec fn spec_compile(
    sc: SandboxConfig,
    lc: LaunchConfigModel,
    re: RuntimeEnvModel,
    scratch: Seq<char>,
    uid: u32,
    gid: u32,
    vendor: Seq<Seq<char>>,
    host: Seq<char>,
    display_number: u32,
    term: Seq<char>,
    shell: Seq<char>,
) -> Seq<DirectiveModel> {
    seq![DirectiveModel::DieWithParent] + isolation_dirs(sc.namespace_isolation, uid, gid)
        + seq![DirectiveModel::UnshareUts, DirectiveModel::SetHostname(host)] + device_dirs(
        sc.device_access,
        vendor,
    ) + system_bind_dirs(scratch) + net_dirs(sc.network_mode, scratch) + storage_session_dirs(
        re,
        lc,
        display_number,
    ) + env_dirs(re) + upscale_dirs(lc.upscale_mode) + sync_dirs(lc.sync_mode) + verbosity_dirs(
        sc.verbose,
    ) + override_dirs(re.overrides) + launch_dirs(lc.launch_params, term, shell)
}

/// The device-bind directives for the selected device policy; the vendor
/// devices are whatever the caller's scan of the host device directory
/// discovered, appended after the static allow-list in discovery order.
pub fn get_device_args(device_access: &DeviceAccess, vendor_devices: &Vec<String>) -> (r: Vec<
    Directive,
>)
    ensures
        dirs_view(r@) == device_dirs(*device_access, vendor_devices.deep_view()),
{
    let mut out: Vec<Directive> = Vec::new();
    match device_access {
        DeviceAccess::All => {
            out.push(
                Directive::DevBind {
                    source: String::from_str("/dev"),
                    target: String::from_str("/dev"),
                },
            );
            assert(dirs_view(out@) =~= device_dirs(*device_access, vendor_devices.deep_view()));
        },
        DeviceAccess::Minimal => {
            out.push(
                Directive::DevBind {
                    source: String::from_str("/dev/input"),
                    target: String::from_str("/dev/input"),
                },
            );
            out.push(
                Directive::DevBind {
                    source: String::from_str("/dev/uinput"),
                    target: String::from_str("/dev/uinput"),
                },
            );
            out.push(
                Directive::DevBind {
                    source: String::from_str("/dev/dri"),
                    target: String::from_str("/dev/dri"),
                },
            );
            let ghost vdeep = vendor_devices.deep_view();
            let ghost fixed = dirs_view(out@);
            let mut i: usize = 0;
            while i < vendor_devices.len()
                invariant
                    i <= vendor_devices.len(),
                    vdeep == vendor_devices.deep_view(),
                    dirs_view(out@) =~= fixed + vdeep.take(i as int).map_values(
                        |d: Seq<char>| DirectiveModel::DevBind { source: d, target: d },
                    ),
                decreases vendor_devices.len() - i,
            {
                let d1 = vendor_devices[i].clone();
                let d2 = vendor_devices[i].clone();
                proof {
                    assert(d1@ == vdeep[i as int]);
                    assert(d2@ == vdeep[i as int]);
                }
                let ghost prev = dirs_view(out@);
                out.push(Directive::DevBind { source: d1, target: d2 });
                i += 1;
                proof {
                    assert(dirs_view(out@) =~= prev.push(
                        DirectiveModel::DevBind {
                            source: vdeep[i as int - 1],
                            target: vdeep[i as int - 1],
                        },
                    ));
                    assert(vdeep.take(i as int) =~= vdeep.take(i as int - 1).push(
                        vdeep[i as int - 1],
                    ));
                    assert(dirs_view(out@) =~= fixed + vdeep.take(i as int).map_values(
                        |d: Seq<char>| DirectiveModel::DevBind { source: d, target: d },
                    ));
                }
            }
            assert(vdeep.take(vendor_devices.len() as int) =~= vdeep);
            assert(dirs_view(out@) =~= device_dirs(*device_access, vdeep));
        },
    }
    out
}

} // verus!


verus! {

/// The flat token list of a whole compilation: the directive sequence of
/// `spec_compile`, serialized.
pub open spec fn spec_render_tokens_of(
    sc: SandboxConfig,
    lc: LaunchConfigModel,
    re: RuntimeEnvModel,
    scratch: Seq<char>,
    uid: u32,
    gid: u32,
    vendor: Seq<Seq<char>>,
    host: Seq<char>,
    display_number: u32,
    term: Seq<char>,
    shell: Seq<char>,
) -> Seq<Seq<char>> {
    spec_render_tokens(
        spec_compile(sc, lc, re, scratch, uid, gid, vendor, host, display_number, term, shell),
    )
}

/// The value of an optional setting, or its default.
pub open spec fn or_default(o: Option<String>, d: Seq<char>) -> Seq<char> {
    match o {
        Some(v) => v@,
        None => d,
    }
}

/// The opening directives: die with the controlling process, the
/// namespace isolation if enabled, and a fresh UTS namespace with the
/// throwaway hostname.
fn seg_head(namespace_isolation: bool, uid: u32, gid: u32, hostname: &str) -> (r: Vec<Directive>)
    ensures
        dirs_view(r@) == seq![DirectiveModel::DieWithParent] + isolation_dirs(
            namespace_isolation,
            uid,
            gid,
        ) + seq![DirectiveModel::UnshareUts, DirectiveModel::SetHostname(hostname@)],
{
    let mut dirs: Vec<Directive> = Vec::new();
    dirs.push(Directive::DieWithParent);
    if namespace_isolation {
        dirs.push(Directive::UnsharePid);
        dirs.push(Directive::UnshareCgroup);
        dirs.push(Directive::UnshareUser { uid, gid });
    }
    dirs.push(Directive::UnshareUts);
    dirs.push(Directive::SetHostname(String::from_str(hostname)));
    assert(dirs_view(dirs@) =~= seq![DirectiveModel::DieWithParent] + isolation_dirs(
        namespace_isolation,
        uid,
        gid,
    ) + seq![DirectiveModel::UnshareUts, DirectiveModel::SetHostname(hostname@)]);
    dirs
}

/// The fixed system binds, the session and hardware allow-list, the host
/// configuration tree, and the masked hostname file.
fn seg_system_binds(empty_file_path: &str) -> (r: Vec<Directive>)
    ensures
        dirs_view(r@) == system_bind_dirs(empty_file_path@),
{
    let mut dirs: Vec<Directive> = Vec::new();
    dirs.push(
        Directive::RoBind { source: String::from_str("/bin"), target: String::from_str("/bin") },
    );
    dirs.push(
        Directive::RoBind {
            source: String::from_str("/lib64"),
            target: String::from_str("/lib64"),
        },
    );
    dirs.push(
        Directive::RoBind { source: String::from_str("/sbin"), target: String::from_str("/sbin") },
    );
    dirs.push(
        Directive::RoBind { source: String::from_str("/usr"), target: String::from_str("/usr") },
    );
    dirs.push(
        Directive::DirSymlink {
            source: String::from_str("/usr/lib"),
            target: String::from_str("/lib"),
        },
    );
    dirs.push(
        Directive::RoBind {
            source: String::from_str("/run/dbus"),
            target: String::from_str("/run/dbus"),
        },
    );
    dirs.push(
        Directive::RoBind {
            source: String::from_str("/run/user"),
            target: String::from_str("/run/user"),
        },
    );
    dirs.push(
        Directive::RoBind { source: String::from_str("/sys"), target: String::from_str("/sys") },
    );
    dirs.push(
        Directive::BindRw { source: String::from_str("/etc"), target: String::from_str("/etc") },
    );
    dirs.push(
        Directive::RoBind {
            source: String::from_str(empty_file_path),
            target: String::from_str("/etc/hostname"),
        },
    );
    assert(dirs_view(dirs@) =~= system_bind_dirs(empty_file_path@));
    dirs
}

/// The directives of the network policy.
fn seg_net(mode: &NetworkMode, empty_file_path: &str) -> (r: Vec<Directive>)
    ensures
        dirs_view(r@) == net_dirs(*mode, empty_file_path@),
{
    let mut dirs: Vec<Directive> = Vec::new();
    match mode {
        NetworkMode::FullAccess => {},
        NetworkMode::RestrictedAccess => {
            dirs.push(Directive::Tmpfs(String::from_str("/etc/ca-certificates")));
            dirs.push(Directive::Tmpfs(String::from_str("/etc/ssl")));
            dirs.push(Directive::Tmpfs(String::from_str("/etc/NetworkManager")));
            dirs.push(
                Directive::RoBind {
                    source: String::from_str(empty_file_path),
                    target: String::from_str("/etc/resolv.conf"),
                },
            );
            dirs.push(
                Directive::RoBind {
                    source: String::from_str(empty_file_path),
                    target: String::from_str("/etc/nsswitch.conf"),
                },
            );
            dirs.push(
                Directive::RoBind {
                    source: String::from_str(empty_file_path),
                    target: String::from_str("/etc/hosts"),
                },
            );
        },
        NetworkMode::NoAccess => {
            dirs.push(Directive::UnshareNet);
        },
    }
    assert(dirs_view(dirs@) =~= net_dirs(*mode, empty_file_path@));
    dirs
}

/// Ephemeral storage, the runtime trees, and the X session paths.
fn seg_storage_session(
    runtime_env: &RuntimeEnv,
    launch_config: &LaunchConfig,
    display: &Display,
) -> (r: Vec<Directive>)
    ensures
        dirs_view(r@) == storage_session_dirs(
            runtime_env@,
            launch_config@,
            display.display_number,
        ),
{
    let x11_socket = display.get_socket_path();
    let mut dirs: Vec<Directive> = Vec::new();
    dirs.push(Directive::Tmpfs(String::from_str("/var")));
    dirs.push(Directive::ProcFs(String::from_str("proc")));
    dirs.push(Directive::Tmpfs(runtime_env.home_dir.clone()));
    dirs.push(Directive::Tmpfs(String::from_str("/opt")));
    dirs.push(
        Directive::RoBind {
            source: launch_config.wine_root.clone(),
            target: String::from_str("/opt/wine"),
        },
    );
    dirs.push(
        Directive::BindRw {
            source: launch_config.wine_prefix.clone(),
            target: String::from_str("/var/lib/wine"),
        },
    );
    dirs.push(Directive::Tmpfs(String::from_str("/tmp")));
    dirs.push(Directive::BindRw { source: x11_socket.clone(), target: x11_socket });
    dirs.push(
        Directive::RoBind {
            source: runtime_env.xauthority_file.clone(),
            target: runtime_env.xauthority_file.clone(),
        },
    );
    assert(dirs_view(dirs@) =~= storage_session_dirs(
        runtime_env@,
        launch_config@,
        display.display_number,
    ));
    dirs
}

/// Clears the environment and sets the explicit allow-list.
fn seg_env(runtime_env: &RuntimeEnv) -> (r: Vec<Directive>)
    ensures
        dirs_view(r@) == env_dirs(runtime_env@),
{
    let mut dirs: Vec<Directive> = Vec::new();
    dirs.push(Directive::ClearEnv);
    dirs.push(
        Directive::SetEnv { key: String::from_str("HOME"), value: runtime_env.home_dir.clone() },
    );
    dirs.push(
        Directive::SetEnv {
            key: String::from_str("XAUTHORITY"),
            value: runtime_env.xauthority_file.clone(),
        },
    );
    dirs.push(
        Directive::SetEnv {
            key: String::from_str("DBUS_SESSION_BUS_ADDRESS"),
            value: runtime_env.dbus_session_bus_address.clone(),
        },
    );
    dirs.push(
        Directive::SetEnv {
            key: String::from_str("XDG_RUNTIME_DIR"),
            value: runtime_env.xdg_runtime_dir.clone(),
        },
    );
    dirs.push(
        Directive::SetEnv {
            key: String::from_str("DISPLAY"),
            value: runtime_env.display_address.clone(),
        },
    );
    dirs.push(
        Directive::SetEnv {
            key: String::from_str("WINEPREFIX"),
            value: String::from_str("/var/lib/wine"),
        },
    );
    dirs.push(
        Directive::SetEnv {
            key: String::from_str("WINEDLLOVERRIDES"),
            value: String::from_str("winemenubuilder=''"),
        },
    );
    dirs.push(
        Directive::SetEnv {
            key: String::from_str("WINE_LARGE_ADDRESS_AWARE"),
            value: String::from_str("1"),
        },
    );
    // Gamepad hotplugging without udev needing network access.
    dirs.push(
        Directive::SetEnv {
            key: String::from_str("SDL_JOYSTICK_DISABLE_UDEV"),
            value: String::from_str("1"),
        },
    );
    // Extend the PATH with the runtime's binaries.
    let mut new_path = String::from_str("/opt/wine/bin:");
    new_path.append(runtime_env.original_path.as_str());
    dirs.push(Directive::SetEnv { key: String::from_str("PATH"), value: new_path });
    // Shader and state caches live under the mutable prefix, never in the
    // possibly read-only application directory.
    dirs.push(
        Directive::SetEnv {
            key: String::from_str("__GL_SHADER_DISK_CACHE"),
            value: String::from_str("1"),
        },
    );
    dirs.push(
        Directive::SetEnv {
            key: String::from_str("__GL_SHADER_DISK_CACHE_PATH"),
            value: String::from_str("/var/lib/wine/cache/gl_shader"),
        },
    );
    dirs.push(
        Directive::SetEnv {
            key: String::from_str("DXVK_STATE_CACHE_PATH"),
            value: String::from_str("/var/lib/wine/cache/dxvk_state"),
        },
    );
    dirs.push(
        Directive::SetEnv {
            key: String::from_str("MESA_SHADER_CACHE_DIR"),
            value: String::from_str("/var/lib/wine/cache/mesa_shader"),
        },
    );
    dirs.push(
        Directive::SetEnv {
            key: String::from_str("VKD3D_SHADER_CACHE_PATH"),
            value: String::from_str("/var/lib/wine/cache/vkd3d_shader"),
        },
    );
    assert(dirs_view(dirs@) =~= env_dirs(runtime_env@));
    dirs
}

/// The upscale tuning directives.
fn seg_upscale(m: &Option<UpscaleMode>) -> (r: Vec<Directive>)
    ensures
        dirs_view(r@) == upscale_dirs(*m),
{
    let mut dirs: Vec<Directive> = Vec::new();
    match m {
        None | Some(UpscaleMode::Off) => {},
        Some(UpscaleMode::Fsr { mode, strength }) => {
            dirs.push(
                Directive::SetEnv {
                    key: String::from_str("WINE_FULLSCREEN_FSR"),
                    value: String::from_str("1"),
                },
            );
            dirs.push(
                Directive::SetEnv {
                    key: String::from_str("WINE_FULLSCREEN_FSR_MODE"),
                    value: mode.text(),
                },
            );
            dirs.push(
                Directive::SetEnv {
                    key: String::from_str("WINE_FULLSCREEN_FSR_STRENGTH"),
                    value: crate::strings::u32_to_string(*strength as u32),
                },
            );
        },
        Some(UpscaleMode::Dlss) => {
            dirs.push(
                Directive::SetEnv {
                    key: String::from_str("DXVK_NVAPIHACK"),
                    value: String::from_str("0"),
                },
            );
            dirs.push(
                Directive::SetEnv {
                    key: String::from_str("DXVK_ENABLE_NVAPI"),
                    value: String::from_str("1"),
                },
            );
        },
    }
    assert(dirs_view(dirs@) =~= upscale_dirs(*m));
    dirs
}

/// The synchronization tuning directives.
fn seg_sync(m: &Option<SyncMode>) -> (r: Vec<Directive>)
    ensures
        dirs_view(r@) == sync_dirs(*m),
{
    let mut dirs: Vec<Directive> = Vec::new();
    match m {
        None | Some(SyncMode::Off) => {},
        Some(SyncMode::Fsync) => {
            dirs.push(
                Directive::SetEnv {
                    key: String::from_str("WINEFSYNC"),
                    value: String::from_str("1"),
                },
            );
        },
        Some(SyncMode::Esync) => {
            dirs.push(
                Directive::SetEnv {
                    key: String::from_str("WINEESYNC"),
                    value: String::from_str("1"),
                },
            );
        },
    }
    assert(dirs_view(dirs@) =~= sync_dirs(*m));
    dirs
}

/// The logging directives: quiet unless verbose was asked for.
fn seg_verbosity(verbose: bool) -> (r: Vec<Directive>)
    ensures
        dirs_view(r@) == verbosity_dirs(verbose),
{
    let mut dirs: Vec<Directive> = Vec::new();
    if !verbose {
        dirs.push(
            Directive::SetEnv {
                key: String::from_str("WINEDEBUG"),
                value: String::from_str("fixme-all"),
            },
        );
        dirs.push(
            Directive::SetEnv {
                key: String::from_str("DXVK_LOG_LEVEL"),
                value: String::from_str("warn"),
            },
        );
    }
    assert(dirs_view(dirs@) =~= verbosity_dirs(verbose));
    dirs
}

/// The caller-supplied overrides, one directive each, in the order given.
fn seg_overrides(runtime_env: &RuntimeEnv) -> (r: Vec<Directive>)
    ensures
        dirs_view(r@) == override_dirs(runtime_env@.overrides),
{
    let ghost ovs = runtime_env@.overrides;
    let mut dirs: Vec<Directive> = Vec::new();
    let mut i: usize = 0;
    assert(dirs_view(dirs@) =~= override_dirs(ovs.take(0)));
    while i < runtime_env.overrides.len()
        invariant
            i <= runtime_env.overrides.len(),
            ovs == runtime_env@.overrides,
            ovs.len() == runtime_env.overrides@.len(),
            dirs_view(dirs@) == override_dirs(ovs.take(i as int)),
        decreases runtime_env.overrides.len() - i,
    {
        let key = runtime_env.overrides[i].0.clone();
        let value = runtime_env.overrides[i].1.clone();
        proof {
            assert(ovs[i as int] == (runtime_env.overrides@[i as int].0@, runtime_env.overrides@[
                i as int
            ].1@));
        }
        let ghost prev = dirs_view(dirs@);
        dirs.push(Directive::SetEnv { key, value });
        i += 1;
        proof {
            assert(dirs_view(dirs@) =~= prev.push(
                DirectiveModel::SetEnv { key: ovs[i as int - 1].0, value: ovs[i as int - 1].1 },
            ));
            assert(ovs.take(i as int) =~= ovs.take(i as int - 1).push(ovs[i as int - 1]));
            assert(dirs_view(dirs@) =~= override_dirs(ovs.take(i as int)));
        }
    }
    assert(ovs.take(runtime_env.overrides@.len() as int) =~= ovs);
    dirs
}

/// The trailing launch directives: terminal identity for the interactive
/// fallback, the application directory bind, and the command.
fn seg_launch(launch_params: &LaunchParams, term_s: String, shell_s: String) -> (r: Vec<
    Directive,
>)
    ensures
        dirs_view(r@) == launch_dirs(launch_params@, term_s@, shell_s@),
{
    let ghost termv = term_s@;
    let ghost shellv = shell_s@;
    let mut dirs: Vec<Directive> = Vec::new();
    match launch_params {
        LaunchParams::Unconfigured => {
            dirs.push(Directive::Chdir(String::from_str("/")));
            dirs.push(Directive::SetEnv { key: String::from_str("TERM"), value: term_s });
            let mut argv: Vec<String> = Vec::new();
            argv.push(shell_s);
            assert(argv.deep_view() =~= seq![shellv]);
            dirs.push(Directive::RunCommand(argv));
            assert(dirs_view(dirs@) =~= launch_dirs(launch_params@, termv, shellv));
        },
        LaunchParams::Configured { read_only, app_dir, app_bin, app_args } => {
            // Bind the application directory, read-only unless asked
            // otherwise, and work from it.
            if *read_only {
                dirs.push(
                    Directive::RoBind {
                        source: app_dir.clone(),
                        target: String::from_str("/app"),
                    },
                );
            } else {
                dirs.push(
                    Directive::BindRw {
                        source: app_dir.clone(),
                        target: String::from_str("/app"),
                    },
                );
            }
            dirs.push(Directive::Chdir(String::from_str("/app")));
            match app_bin {
                Some(app_bin) => {
                    // The binary resolves under the fixed inner path
                    // unless it was given absolute.
                    let bin_path: String = if app_bin.as_str().unicode_len() > 0
                        && app_bin.as_str().get_char(0) == '/' {
                        app_bin.clone()
                    } else {
                        let mut p = String::from_str("/app/");
                        p.append(app_bin.as_str());
                        p
                    };
                    assert(bin_path@ == joined_bin(app_bin@));
                    let mut argv: Vec<String> = Vec::new();
                    argv.push(String::from_str("wine"));
                    argv.push(bin_path);
                    let ghost argv_base = argv.deep_view();
                    assert(argv_base =~= seq!["wine"@, joined_bin(app_bin@)]);
                    let mut k: usize = 0;
                    while k < app_args.len()
                        invariant
                            k <= app_args.len(),
                            argv.deep_view() == argv_base + app_args.deep_view().take(k as int),
                        decreases app_args.len() - k,
                    {
                        let a = app_args[k].clone();
                        let ghost prev = argv.deep_view();
                        argv.push(a);
                        k += 1;
                        proof {
                            assert(argv.deep_view() =~= prev.push(
                                app_args.deep_view()[k as int - 1],
                            ));
                            assert(app_args.deep_view().take(k as int) =~= app_args.deep_view()
                                .take(k as int - 1).push(app_args.deep_view()[k as int - 1]));
                            assert(argv.deep_view() =~= argv_base + app_args.deep_view().take(
                                k as int,
                            ));
                        }
                    }
                    assert(app_args.deep_view().take(app_args@.len() as int) =~= app_args
                        .deep_view());
                    dirs.push(Directive::RunCommand(argv));
                    assert(dirs_view(dirs@) =~= launch_dirs(launch_params@, termv, shellv));
                },
                None => {
                    // Only the directory was configured: a maintenance
                    // shell inside it.
                    dirs.push(Directive::SetEnv { key: String::from_str("TERM"), value: term_s });
                    let mut argv: Vec<String> = Vec::new();
                    argv.push(shell_s);
                    assert(argv.deep_view() =~= seq![shellv]);
                    dirs.push(Directive::RunCommand(argv));
                    assert(dirs_view(dirs@) =~= launch_dirs(launch_params@, termv, shellv));
                },
            }
        },
    }
    dirs
}

/// Compiles a launch into the ordered directive sequence. The one fallible
/// step is parsing the display address; on failure nothing is emitted.
/// The caller supplies the scratch placeholder path, the vendor devices
/// its device scan discovered, the resolved user mapping, the throwaway
/// hostname, and the terminal type and shell if the host had them.
#[verifier::rlimit(50)]
pub fn compile_directives(
    sandbox_config: &SandboxConfig,
    launch_config: &LaunchConfig,
    runtime_env: &RuntimeEnv,
    empty_file_path: &str,
    vendor_devices: &Vec<String>,
    uid: u32,
    gid: u32,
    hostname: &str,
    term: &Option<String>,
    shell: &Option<String>,
) -> (r: Result<Vec<Directive>, DisplayError>)
    ensures
        match r {
            Ok(ds) => {
                &&& spec_parse_display(runtime_env@.display_address) is Ok
                &&& dirs_view(ds@) == spec_compile(
                    *sandbox_config,
                    launch_config@,
                    runtime_env@,
                    empty_file_path@,
                    uid,
                    gid,
                    vendor_devices.deep_view(),
                    hostname@,
                    spec_parse_display(runtime_env@.display_address)->Ok_0.display_number,
                    or_default(*term, "xterm-256color"@),
                    or_default(*shell, "bash"@),
                )
            },
            Err(e) => spec_parse_display(runtime_env@.display_address) matches Err(em) && em
                == e@,
        },
{
    let display = match Display::from_str(runtime_env.display_address.as_str()) {
        Ok(d) => d,
        Err(e) => {
            return Err(e);
        },
    };
    let term_s: String = match term {
        Some(t) => t.clone(),
        None => String::from_str("xterm-256color"),
    };
    let shell_s: String = match shell {
        Some(t) => t.clone(),
        None => String::from_str("bash"),
    };
    assert(term_s@ == or_default(*term, "xterm-256color"@));
    assert(shell_s@ == or_default(*shell, "bash"@));

    let mut dirs = seg_head(sandbox_config.namespace_isolation, uid, gid, hostname);
    let ghost mut acc = dirs_view(dirs@);

    let mut seg = get_device_args(&sandbox_config.device_access, vendor_devices);
    let ghost segv = dirs_view(seg@);
    dirs.append(&mut seg);
    proof {
        assert(dirs_view(dirs@) =~= acc + segv);
        acc = acc + segv;
    }

    let mut seg = seg_system_binds(empty_file_path);
    let ghost segv = dirs_view(seg@);
    dirs.append(&mut seg);
    proof {
        assert(dirs_view(dirs@) =~= acc + segv);
        acc = acc + segv;
    }

    let mut seg = seg_net(&sandbox_config.network_mode, empty_file_path);
    let ghost segv = dirs_view(seg@);
    dirs.append(&mut seg);
    proof {
        assert(dirs_view(dirs@) =~= acc + segv);
        acc = acc + segv;
    }

    let mut seg = seg_storage_session(runtime_env, launch_config, &display);
    let ghost segv = dirs_view(seg@);
    dirs.append(&mut seg);
    proof {
        assert(dirs_view(dirs@) =~= acc + segv);
        acc = acc + segv;
    }

    let mut seg = seg_env(runtime_env);
    let ghost segv = dirs_view(seg@);
    dirs.append(&mut seg);
    proof {
        assert(dirs_view(dirs@) =~= acc + segv);
        acc = acc + segv;
    }

    let mut seg = seg_upscale(&launch_config.upscale_mode);
    let ghost segv = dirs_view(seg@);
    dirs.append(&mut seg);
    proof {
        assert(dirs_view(dirs@) =~= acc + segv);
        acc = acc + segv;
    }

    let mut seg = seg_sync(&launch_config.sync_mode);
    let ghost segv = dirs_view(seg@);
    dirs.append(&mut seg);
    proof {
        assert(dirs_view(dirs@) =~= acc + segv);
        acc = acc + segv;
    }

    let mut seg = seg_verbosity(sandbox_config.verbose);
    let ghost segv = dirs_view(seg@);
    dirs.append(&mut seg);
    proof {
        assert(dirs_view(dirs@) =~= acc + segv);
        acc = acc + segv;
    }

    let mut seg = seg_overrides(runtime_env);
    let ghost segv = dirs_view(seg@);
    dirs.append(&mut seg);
    proof {
        assert(dirs_view(dirs@) =~= acc + segv);
        acc = acc + segv;
    }

    let mut seg = seg_launch(&launch_config.launch_params, term_s, shell_s);
    let ghost segv = dirs_view(seg@);
    dirs.append(&mut seg);
    proof {
        assert(dirs_view(dirs@) =~= acc + segv);
        acc = acc + segv;
        assert(acc == spec_compile(
            *sandbox_config,
            launch_config@,
            runtime_env@,
            empty_file_path@,
            uid,
            gid,
            vendor_devices.deep_view(),
            hostname@,
            display.display_number,
            or_default(*term, "xterm-256color"@),
            or_default(*shell, "bash"@),
        ));
    }
    Ok(dirs)
}

} // verus!

verus! {

/// The six directives that mask name resolution, certificate trust and
/// network-manager state under the restricted network policy.
pub open spec fn is_net_mask_directive(d: DirectiveModel, scratch: Seq<char>) -> bool {
    ||| d == DirectiveModel::Tmpfs("/etc/ca-certificates"@)
    ||| d == DirectiveModel::Tmpfs("/etc/ssl"@)
    ||| d == DirectiveModel::Tmpfs("/etc/NetworkManager"@)
    ||| d == (DirectiveModel::RoBind { source: scratch, target: "/etc/resolv.conf"@ })
    ||| d == (DirectiveModel::RoBind { source: scratch, target: "/etc/nsswitch.conf"@ })
    ||| d == (DirectiveModel::RoBind { source: scratch, target: "/etc/hosts"@ })
}

/// No directive of the sequence is one of the network masks.
pub open spec fn no_net_masks(s: Seq<DirectiveModel>, scratch: Seq<char>) -> bool {
    forall|i: int| 0 <= i < s.len() ==> !is_net_mask_directive(#[trigger] s[i], scratch)
}

/// Whether the sequence holds the network-namespace-isolation directive.
pub open spec fn has_unshare_net(s: Seq<DirectiveModel>) -> bool {
    exists|i: int| 0 <= i < s.len() && #[trigger] s[i] == DirectiveModel::UnshareNet
}

/// The network policy maps one-to-one onto the compiled output: no access
/// gives the network-namespace-isolation directive and none of the
/// masking directives; restricted access gives exactly the masking
/// directives and no namespace isolation; full access gives neither.
/// The preconditions only rule out an environment whose home or X
/// authority path happens to spell one of the masked system paths.
#[verifier::rlimit(100)]
pub proof fn lemma_network_policy(
    sc: SandboxConfig,
    lc: LaunchConfigModel,
    re: RuntimeEnvModel,
    scratch: Seq<char>,
    uid: u32,
    gid: u32,
    vendor: Seq<Seq<char>>,
    host: Seq<char>,
    display_number: u32,
    term: Seq<char>,
    shell: Seq<char>,
)
    requires
        re.home_dir != "/etc/ca-certificates"@,
        re.home_dir != "/etc/ssl"@,
        re.home_dir != "/etc/NetworkManager"@,
        re.xauthority_file != "/etc/resolv.conf"@,
        re.xauthority_file != "/etc/nsswitch.conf"@,
        re.xauthority_file != "/etc/hosts"@,
    ensures
        ({
            let out = spec_compile(
                sc,
                lc,
                re,
                scratch,
                uid,
                gid,
                vendor,
                host,
                display_number,
                term,
                shell,
            );
            &&& sc.network_mode == NetworkMode::NoAccess ==> has_unshare_net(out) && no_net_masks(
                out,
                scratch,
            )
            &&& sc.network_mode == NetworkMode::RestrictedAccess ==> !has_unshare_net(out)
                && forall|d: DirectiveModel|
                    is_net_mask_directive(d, scratch) ==> #[trigger] out.contains(d)
            &&& sc.network_mode == NetworkMode::FullAccess ==> !has_unshare_net(out)
                && no_net_masks(out, scratch)
        }),
{
    let out = spec_compile(sc, lc, re, scratch, uid, gid, vendor, host, display_number, term,
    shell);
    let pre = seq![DirectiveModel::DieWithParent] + isolation_dirs(
        sc.namespace_isolation,
        uid,
        gid,
    ) + seq![DirectiveModel::UnshareUts, DirectiveModel::SetHostname(host)] + device_dirs(
        sc.device_access,
        vendor,
    ) + system_bind_dirs(scratch);
    let nets = net_dirs(sc.network_mode, scratch);
    let post = storage_session_dirs(re, lc, display_number) + env_dirs(re) + upscale_dirs(
        lc.upscale_mode,
    ) + sync_dirs(lc.sync_mode) + verbosity_dirs(sc.verbose) + override_dirs(re.overrides)
        + launch_dirs(lc.launch_params, term, shell);
    assert(out =~= pre + nets + post);
    reveal_strlit("/etc/ca-certificates");
    reveal_strlit("/etc/ssl");
    reveal_strlit("/etc/NetworkManager");
    reveal_strlit("/etc/resolv.conf");
    reveal_strlit("/etc/nsswitch.conf");
    reveal_strlit("/etc/hosts");
    reveal_strlit("/bin");
    reveal_strlit("/lib64");
    reveal_strlit("/sbin");
    reveal_strlit("/usr");
    reveal_strlit("/run/dbus");
    reveal_strlit("/run/user");
    reveal_strlit("/sys");
    reveal_strlit("/etc");
    reveal_strlit("/etc/hostname");
    reveal_strlit("/var");
    reveal_strlit("/opt");
    reveal_strlit("/tmp");
    reveal_strlit("/opt/wine");
    reveal_strlit("/var/lib/wine");
    reveal_strlit("/app");
    assert("/etc/ca-certificates"@.len() == 20);
    assert("/etc/ssl"@.len() == 8);
    assert("/etc/NetworkManager"@.len() == 19);
    assert("/etc/resolv.conf"@.len() == 16);
    assert("/etc/nsswitch.conf"@.len() == 18);
    assert("/etc/hosts"@.len() == 10);
    assert("/bin"@.len() == 4);
    assert("/lib64"@.len() == 6);
    assert("/sbin"@.len() == 5);
    assert("/usr"@.len() == 4);
    assert("/run/dbus"@.len() == 9);
    assert("/run/user"@.len() == 9);
    assert("/sys"@.len() == 4);
    assert("/etc"@.len() == 4);
    assert("/etc/hostname"@.len() == 13);
    assert("/var"@.len() == 4);
    assert("/opt"@.len() == 4);
    assert("/tmp"@.len() == 4);
    assert("/opt/wine"@.len() == 9);
    assert("/var/lib/wine"@.len() == 13);
    assert("/app"@.len() == 4);
    let s_die = seq![DirectiveModel::DieWithParent];
    let iso = isolation_dirs(sc.namespace_isolation, uid, gid);
    let s_uts = seq![DirectiveModel::UnshareUts, DirectiveModel::SetHostname(host)];
    let dev = device_dirs(sc.device_access, vendor);
    let sysb = system_bind_dirs(scratch);
    let sto = storage_session_dirs(re, lc, display_number);
    let env = env_dirs(re);
    let ups = upscale_dirs(lc.upscale_mode);
    let syn = sync_dirs(lc.sync_mode);
    let verb = verbosity_dirs(sc.verbose);
    let ovr = override_dirs(re.overrides);
    let lau = launch_dirs(lc.launch_params, term, shell);
    assert(no_net_masks(s_die, scratch));
    assert(no_net_masks(iso, scratch));
    assert(no_net_masks(s_uts, scratch));
    assert(no_net_masks(dev, scratch)) by {
        assert forall|i: int| 0 <= i < dev.len() implies !is_net_mask_directive(
            #[trigger] dev[i],
            scratch,
        ) by {
            assert(dev[i] matches DirectiveModel::DevBind { .. });
        }
    }
    assert(no_net_masks(sysb, scratch)) by {
        assert(sysb.len() == 10);
        assert(!is_net_mask_directive(sysb[0], scratch));
        assert(!is_net_mask_directive(sysb[1], scratch));
        assert(!is_net_mask_directive(sysb[2], scratch));
        assert(!is_net_mask_directive(sysb[3], scratch));
        assert(!is_net_mask_directive(sysb[4], scratch));
        assert(!is_net_mask_directive(sysb[5], scratch));
        assert(!is_net_mask_directive(sysb[6], scratch));
        assert(!is_net_mask_directive(sysb[7], scratch));
        assert(!is_net_mask_directive(sysb[8], scratch));
        assert(!is_net_mask_directive(sysb[9], scratch));
    }
    assert(no_net_masks(sto, scratch)) by {
        assert(sto.len() == 9);
        assert(!is_net_mask_directive(sto[0], scratch));
        assert(!is_net_mask_directive(sto[1], scratch));
        assert(!is_net_mask_directive(sto[2], scratch));
        assert(!is_net_mask_directive(sto[3], scratch));
        assert(!is_net_mask_directive(sto[4], scratch));
        assert(!is_net_mask_directive(sto[5], scratch));
        assert(!is_net_mask_directive(sto[6], scratch));
        assert(!is_net_mask_directive(sto[7], scratch));
        assert(!is_net_mask_directive(sto[8], scratch));
    }
    assert(no_net_masks(env, scratch));
    assert(no_net_masks(ups, scratch));
    assert(no_net_masks(syn, scratch));
    assert(no_net_masks(verb, scratch));
    assert(no_net_masks(ovr, scratch)) by {
        assert forall|i: int| 0 <= i < ovr.len() implies !is_net_mask_directive(
            #[trigger] ovr[i],
            scratch,
        ) by {
            assert(ovr[i] matches DirectiveModel::SetEnv { .. });
        }
    }
    assert(no_net_masks(lau, scratch));
    lemma_no_masks_concat(s_die, iso, scratch);
    lemma_no_masks_concat(s_die + iso, s_uts, scratch);
    lemma_no_masks_concat(s_die + iso + s_uts, dev, scratch);
    lemma_no_masks_concat(s_die + iso + s_uts + dev, sysb, scratch);
    assert(pre =~= s_die + iso + s_uts + dev + sysb);
    assert(no_net_masks(pre, scratch));
    lemma_no_masks_concat(sto, env, scratch);
    lemma_no_masks_concat(sto + env, ups, scratch);
    lemma_no_masks_concat(sto + env + ups, syn, scratch);
    lemma_no_masks_concat(sto + env + ups + syn, verb, scratch);
    lemma_no_masks_concat(sto + env + ups + syn + verb, ovr, scratch);
    lemma_no_masks_concat(sto + env + ups + syn + verb + ovr, lau, scratch);
    assert(post =~= sto + env + ups + syn + verb + ovr + lau);
    assert(no_net_masks(post, scratch));
    match sc.network_mode {
        NetworkMode::NoAccess => {
            assert(out[pre.len() as int] == DirectiveModel::UnshareNet);
            assert(has_unshare_net(out));
            assert forall|i: int| 0 <= i < out.len() implies !is_net_mask_directive(
                #[trigger] out[i],
                scratch,
            ) by {
                if i < pre.len() {
                    assert(!is_net_mask_directive(pre[i], scratch));
                } else if i == pre.len() {
                } else {
                    assert(out[i] == post[i - pre.len() - 1]);
                }
            }
        },
        NetworkMode::RestrictedAccess => {
            assert forall|d: DirectiveModel| is_net_mask_directive(d, scratch) implies
                #[trigger] out.contains(d) by {
                let n = pre.len() as int;
                assert(out[n] == nets[0] && out[n + 1] == nets[1] && out[n + 2] == nets[2]
                    && out[n + 3] == nets[3] && out[n + 4] == nets[4] && out[n + 5] == nets[5]);
            }
            assert(!has_unshare_net(out)) by {
                assert forall|i: int| 0 <= i < out.len() implies #[trigger] out[i]
                    != DirectiveModel::UnshareNet by {
                    if i < pre.len() {
                    } else if i < pre.len() + nets.len() {
                        assert(out[i] == nets[i - pre.len()]);
                    } else {
                        assert(out[i] == post[i - pre.len() - nets.len()]);
                        let ovr = override_dirs(re.overrides);
                        assert(forall|k: int| 0 <= k < ovr.len() ==> #[trigger] ovr[k] matches
                            DirectiveModel::SetEnv { .. });
                    }
                }
            }
        },
        NetworkMode::FullAccess => {
            assert(nets.len() == 0);
            assert forall|i: int| 0 <= i < out.len() implies !is_net_mask_directive(
                #[trigger] out[i],
                scratch,
            ) && out[i] != DirectiveModel::UnshareNet by {
                if i < pre.len() {
                } else {
                    assert(out[i] == post[i - pre.len()]);
                    let ovr = override_dirs(re.overrides);
                    assert(forall|k: int| 0 <= k < ovr.len() ==> #[trigger] ovr[k] matches
                        DirectiveModel::SetEnv { .. });
                }
            }
            assert(!has_unshare_net(out));
        },
    }
}

/// Mask-freedom is preserved by concatenation.
proof fn lemma_no_masks_concat(a: Seq<DirectiveModel>, b: Seq<DirectiveModel>, scratch: Seq<char>)
    requires
        no_net_masks(a, scratch),
        no_net_masks(b, scratch),
    ensures
        no_net_masks(a + b, scratch),
{
    assert forall|i: int| 0 <= i < (a + b).len() implies !is_net_mask_directive(
        #[trigger] (a + b)[i],
        scratch,
    ) by {
        if i < a.len() {
            assert((a + b)[i] == a[i]);
        } else {
            assert((a + b)[i] == b[i - a.len()]);
        }
    }
}

} // verus!

verus! {

/// Where the caller-supplied override directives begin in the compiled
/// output: everything the compiler emits on its own initiative, except
/// the trailing launch directives, comes before this point.
pub open spec fn override_onset(
    sc: SandboxConfig,
    lc: LaunchConfigModel,
    re: RuntimeEnvModel,
    scratch: Seq<char>,
    uid: u32,
    gid: u32,
    vendor: Seq<Seq<char>>,
    host: Seq<char>,
    display_number: u32,
) -> int {
    (seq![DirectiveModel::DieWithParent] + isolation_dirs(sc.namespace_isolation, uid, gid)
        + seq![DirectiveModel::UnshareUts, DirectiveModel::SetHostname(host)] + device_dirs(
        sc.device_access,
        vendor,
    ) + system_bind_dirs(scratch) + net_dirs(sc.network_mode, scratch) + storage_session_dirs(
        re,
        lc,
        display_number,
    ) + env_dirs(re) + upscale_dirs(lc.upscale_mode) + sync_dirs(lc.sync_mode) + verbosity_dirs(
        sc.verbose,
    )).len() as int
}

/// Caller-supplied environment overrides always win: every override
/// appears in the compiled output as its own assignment directive, in the
/// order given, and every assignment the compiler itself generated for
/// the same key stands strictly before it, so the front-end's
/// last-assignment-wins rule gives the override precedence. The one key
/// the compiler assigns after the overrides is the terminal type of the
/// interactive fallback, which the law therefore leaves out.
pub proof fn lemma_overrides_win(
    sc: SandboxConfig,
    lc: LaunchConfigModel,
    re: RuntimeEnvModel,
    scratch: Seq<char>,
    uid: u32,
    gid: u32,
    vendor: Seq<Seq<char>>,
    host: Seq<char>,
    display_number: u32,
    term: Seq<char>,
    shell: Seq<char>,
)
    ensures
        ({
            let out = spec_compile(
                sc,
                lc,
                re,
                scratch,
                uid,
                gid,
                vendor,
                host,
                display_number,
                term,
                shell,
            );
            let onset = override_onset(
                sc,
                lc,
                re,
                scratch,
                uid,
                gid,
                vendor,
                host,
                display_number,
            );
            let ovs = re.overrides;
            &&& onset + ovs.len() <= out.len()
            &&& forall|j: int|
                0 <= j < ovs.len() ==> out[onset + j] == (DirectiveModel::SetEnv {
                    key: (#[trigger] ovs[j]).0,
                    value: ovs[j].1,
                })
            &&& forall|i: int, j: int|
                #![trigger out[i], ovs[j]]
                0 <= i < out.len() && 0 <= j < ovs.len() && !(onset <= i < onset + ovs.len())
                    && (out[i] matches DirectiveModel::SetEnv { key, .. } && key == ovs[j].0)
                    && ovs[j].0 != "TERM"@ ==> i < onset + j
        }),
{
    let out = spec_compile(sc, lc, re, scratch, uid, gid, vendor, host, display_number, term,
    shell);
    let onset = override_onset(sc, lc, re, scratch, uid, gid, vendor, host, display_number);
    let ovs = re.overrides;
    let ovr = override_dirs(ovs);
    let lau = launch_dirs(lc.launch_params, term, shell);
    let pre = seq![DirectiveModel::DieWithParent] + isolation_dirs(
        sc.namespace_isolation,
        uid,
        gid,
    ) + seq![DirectiveModel::UnshareUts, DirectiveModel::SetHostname(host)] + device_dirs(
        sc.device_access,
        vendor,
    ) + system_bind_dirs(scratch) + net_dirs(sc.network_mode, scratch) + storage_session_dirs(
        re,
        lc,
        display_number,
    ) + env_dirs(re) + upscale_dirs(lc.upscale_mode) + sync_dirs(lc.sync_mode) + verbosity_dirs(
        sc.verbose,
    );
    assert(out =~= pre + ovr + lau);
    assert(onset == pre.len());
    assert forall|j: int| 0 <= j < ovs.len() implies out[onset + j] == (DirectiveModel::SetEnv {
        key: (#[trigger] ovs[j]).0,
        value: ovs[j].1,
    }) by {
        assert(out[onset + j] == ovr[j]);
    }
    // Every assignment after the override block belongs to the launch
    // tail, whose only assignment is the terminal type.
    assert forall|i: int| onset + ovs.len() <= i < out.len() implies ((#[trigger] out[i]) matches
        DirectiveModel::SetEnv { key, .. } ==> key == "TERM"@) by {
        let k = i - onset - ovs.len();
        assert(out[i] == lau[k]);
        match lc.launch_params {
            LaunchParamsModel::Unconfigured => {
                assert(lau.len() == 3);
            },
            LaunchParamsModel::Configured { read_only, app_dir, app_bin, app_args } => {
                match app_bin {
                    Some(b) => {
                        assert(lau.len() == 3);
                    },
                    None => {
                        assert(lau.len() == 4);
                    },
                }
            },
        }
    }
}

} // verus!
