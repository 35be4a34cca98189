//! The instruction set of the namespace-sandboxing front-end, as a strongly
//! typed ordered sequence; the flat token form the front-end is invoked
//! with is produced only here, at the serialization boundary.

use vstd::prelude::*;

use crate::strings::{dec_str, u32_to_string};

verus! {

/// One instruction for the sandboxing front-end. The front-end applies
/// directives in order; among environment assignments for the same key the
/// last one wins.
#[derive(Debug, PartialEq)]
pub enum Directive {
    /// Terminate the sandboxed process tree if the controlling process dies.
    DieWithParent,
    /// New PID namespace.
    UnsharePid,
    /// New cgroup namespace.
    UnshareCgroup,
    /// New user namespace remapped to the given ids; inside the sandbox the
    /// identity diverges from the invoking user's.
    UnshareUser { uid: u32, gid: u32 },
    /// New UTS namespace.
    UnshareUts,
    /// Hostname inside the new UTS namespace.
    SetHostname(String),
    /// Device bind mount, read-write.
    DevBind { source: String, target: String },
    /// Read-only bind mount.
    RoBind { source: String, target: String },
    /// Read-write bind mount.
    BindRw { source: String, target: String },
    /// Symbolic link inside the sandbox.
    DirSymlink { source: String, target: String },
    /// Fresh tmpfs at the given path: nothing persists, nothing leaks.
    Tmpfs(String),
    /// Fresh procfs at the given path.
    ProcFs(String),
    /// New, disconnected network namespace.
    UnshareNet,
    /// Clear the whole environment.
    ClearEnv,
    /// Set one environment variable.
    SetEnv { key: String, value: String },
    /// Change the working directory inside the sandbox.
    Chdir(String),
    /// The command to execute, with its arguments, as trailing tokens.
    RunCommand(Vec<String>),
}

/// Model of a directive.
pub enum DirectiveModel {
    DieWithParent,
    UnsharePid,
    UnshareCgroup,
    UnshareUser { uid: u32, gid: u32 },
    UnshareUts,
    SetHostname(Seq<char>),
    DevBind { source: Seq<char>, target: Seq<char> },
    RoBind { source: Seq<char>, target: Seq<char> },
    BindRw { source: Seq<char>, target: Seq<char> },
    DirSymlink { source: Seq<char>, target: Seq<char> },
    Tmpfs(Seq<char>),
    ProcFs(Seq<char>),
    UnshareNet,
    ClearEnv,
    SetEnv { key: Seq<char>, value: Seq<char> },
    Chdir(Seq<char>),
    RunCommand(Seq<Seq<char>>),
}

impl View for Directive {
    type V = DirectiveModel;

    open spec fn view(&self) -> DirectiveModel {
        match self {
            Directive::DieWithParent => DirectiveModel::DieWithParent,
            Directive::UnsharePid => DirectiveModel::UnsharePid,
            Directive::UnshareCgroup => DirectiveModel::UnshareCgroup,
            Directive::UnshareUser { uid, gid } => DirectiveModel::UnshareUser {
                uid: *uid,
                gid: *gid,
            },
            Directive::UnshareUts => DirectiveModel::UnshareUts,
            Directive::SetHostname(h) => DirectiveModel::SetHostname(h@),
            Directive::DevBind { source, target } => DirectiveModel::DevBind {
                source: source@,
                target: target@,
            },
            Directive::RoBind { source, target } => DirectiveModel::RoBind {
                source: source@,
                target: target@,
            },
            Directive::BindRw { source, target } => DirectiveModel::BindRw {
                source: source@,
                target: target@,
            },
            Directive::DirSymlink { source, target } => DirectiveModel::DirSymlink {
                source: source@,
                target: target@,
            },
            Directive::Tmpfs(p) => DirectiveModel::Tmpfs(p@),
            Directive::ProcFs(p) => DirectiveModel::ProcFs(p@),
            Directive::UnshareNet => DirectiveModel::UnshareNet,
            Directive::ClearEnv => DirectiveModel::ClearEnv,
            Directive::SetEnv { key, value } => DirectiveModel::SetEnv {
                key: key@,
                value: value@,
            },
            Directive::Chdir(p) => DirectiveModel::Chdir(p@),
            Directive::RunCommand(argv) => DirectiveModel::RunCommand(argv.deep_view()),
        }
    }
}

/// The view of a directive sequence.
pub open spec fn dirs_view(ds: Seq<Directive>) -> Seq<DirectiveModel> {
    ds.map_values(|d: Directive| d@)
}

/// The flat tokens one directive is spelled with on the front-end's
/// command line.
pub open spec fn spec_directive_tokens(d: DirectiveModel) -> Seq<Seq<char>> {
    match d {
        DirectiveModel::DieWithParent => seq!["--die-with-parent"@],
        DirectiveModel::UnsharePid => seq!["--unshare-pid"@],
        DirectiveModel::UnshareCgroup => seq!["--unshare-cgroup"@],
        DirectiveModel::UnshareUser { uid, gid } => seq![
            "--unshare-user"@,
            "--uid"@,
            dec_str(uid as nat),
            "--gid"@,
            dec_str(gid as nat),
        ],
        DirectiveModel::UnshareUts => seq!["--unshare-uts"@],
        DirectiveModel::SetHostname(h) => seq!["--hostname"@, h],
        DirectiveModel::DevBind { source, target } => seq!["--dev-bind"@, source, target],
        DirectiveModel::RoBind { source, target } => seq!["--ro-bind"@, source, target],
        DirectiveModel::BindRw { source, target } => seq!["--bind"@, source, target],
        DirectiveModel::DirSymlink { source, target } => seq!["--symlink"@, source, target],
        DirectiveModel::Tmpfs(p) => seq!["--tmpfs"@, p],
        DirectiveModel::ProcFs(p) => seq!["--proc"@, p],
        DirectiveModel::UnshareNet => seq!["--unshare-net"@],
        DirectiveModel::ClearEnv => seq!["--clearenv"@],
        DirectiveModel::SetEnv { key, value } => seq!["--setenv"@, key, value],
        DirectiveModel::Chdir(p) => seq!["--chdir"@, p],
        DirectiveModel::RunCommand(argv) => argv,
    }
}

/// The flat tokens of a whole directive sequence, in order.
pub open spec fn spec_render_tokens(ds: Seq<DirectiveModel>) -> Seq<Seq<char>>
    decreases ds.len(),
{
    if ds.len() == 0 {
        Seq::empty()
    } else {
        spec_render_tokens(ds.drop_last()) + spec_directive_tokens(ds.last())
    }
}

/// Appends the tokens of one directive.
fn push_directive_tokens(out: &mut Vec<String>, d: &Directive)
    ensures
        final(out).deep_view() == old(out).deep_view() + spec_directive_tokens(d@),
{
    let ghost base = old(out).deep_view();
    match d {
        Directive::DieWithParent => {
            out.push(String::from_str("--die-with-parent"));
        },
        Directive::UnsharePid => {
            out.push(String::from_str("--unshare-pid"));
        },
        Directive::UnshareCgroup => {
            out.push(String::from_str("--unshare-cgroup"));
        },
        Directive::UnshareUser { uid, gid } => {
            out.push(String::from_str("--unshare-user"));
            out.push(String::from_str("--uid"));
            out.push(u32_to_string(*uid));
            out.push(String::from_str("--gid"));
            out.push(u32_to_string(*gid));
        },
        Directive::UnshareUts => {
            out.push(String::from_str("--unshare-uts"));
        },
        Directive::SetHostname(h) => {
            out.push(String::from_str("--hostname"));
            out.push(h.clone());
        },
        Directive::DevBind { source, target } => {
            out.push(String::from_str("--dev-bind"));
            out.push(source.clone());
            out.push(target.clone());
        },
        Directive::RoBind { source, target } => {
            out.push(String::from_str("--ro-bind"));
            out.push(source.clone());
            out.push(target.clone());
        },
        Directive::BindRw { source, target } => {
            out.push(String::from_str("--bind"));
            out.push(source.clone());
            out.push(target.clone());
        },
        Directive::DirSymlink { source, target } => {
            out.push(String::from_str("--symlink"));
            out.push(source.clone());
            out.push(target.clone());
        },
        Directive::Tmpfs(p) => {
            out.push(String::from_str("--tmpfs"));
            out.push(p.clone());
        },
        Directive::ProcFs(p) => {
            out.push(String::from_str("--proc"));
            out.push(p.clone());
        },
        Directive::UnshareNet => {
            out.push(String::from_str("--unshare-net"));
        },
        Directive::ClearEnv => {
            out.push(String::from_str("--clearenv"));
        },
        Directive::SetEnv { key, value } => {
            out.push(String::from_str("--setenv"));
            out.push(key.clone());
            out.push(value.clone());
        },
        Directive::Chdir(p) => {
            out.push(String::from_str("--chdir"));
            out.push(p.clone());
        },
        Directive::RunCommand(argv) => {
            let mut i: usize = 0;
            while i < argv.len()
                invariant
                    i <= argv.len(),
                    d@ == DirectiveModel::RunCommand(argv.deep_view()),
                    out.deep_view() =~= base + argv.deep_view().take(i as int),
                decreases argv.len() - i,
            {
                let a = argv[i].clone();
                let ghost prev = out.deep_view();
                out.push(a);
                i += 1;
                proof {
                    assert(out.deep_view() =~= prev.push(argv.deep_view()[i - 1]));
                    assert(argv.deep_view().take(i as int) =~= argv.deep_view().take(
                        i as int - 1,
                    ).push(argv.deep_view()[i - 1]));
                    assert(out.deep_view() =~= base + argv.deep_view().take(i as int));
                }
            }
            assert(argv.deep_view().take(argv.len() as int) =~= argv.deep_view());
        },
    }
    assert(out.deep_view() =~= base + spec_directive_tokens(d@));
}

/// Serializes a directive sequence to the flat ordered token list the
/// front-end is invoked with.
pub fn render_tokens(dirs: &Vec<Directive>) -> (r: Vec<String>)
    ensures
        r.deep_view() == spec_render_tokens(dirs_view(dirs@)),
{
    let mut out: Vec<String> = Vec::new();
    let mut i: usize = 0;
    assert(out.deep_view() =~= spec_render_tokens(dirs_view(dirs@.take(0))));
    while i < dirs.len()
        invariant
            i <= dirs.len(),
            out.deep_view() == spec_render_tokens(dirs_view(dirs@.take(i as int))),
        decreases dirs.len() - i,
    {
        push_directive_tokens(&mut out, &dirs[i]);
        i += 1;
        proof {
            let pre = dirs_view(dirs@.take(i as int));
            assert(pre.drop_last() =~= dirs_view(dirs@.take(i as int - 1)));
            assert(pre.last() == dirs@[i - 1]@);
            assert(out.deep_view() =~= spec_render_tokens(pre));
        }
    }
    assert(dirs@.take(dirs.len() as int) =~= dirs@);
    out
}

} // verus!
