//! Parses mount specification strings (`path[:flags]` and
//! `source:target[:flags]`) into validated descriptors, rejecting any path
//! that lexically normalizes to the filesystem root.

use vstd::prelude::*;

use crate::strings::{push_char, spec_join, spec_split, split_char, str_eq};

verus! {

/// `..` as a path segment.
pub open spec fn parent_seg() -> Seq<char> {
    seq!['.', '.']
}

/// Whether a path string is absolute.
pub open spec fn spec_has_root(s: Seq<char>) -> bool {
    s.len() > 0 && s[0] == '/'
}

/// Whether a `/`-separated segment survives normalization as a component:
/// empty segments and `.` segments are dropped.
pub open spec fn keep_seg(p: Seq<char>) -> bool {
    p.len() > 0 && p != seq!['.']
}

/// The segments of a path that remain once empty and `.` segments are gone.
pub open spec fn filter_segs(parts: Seq<Seq<char>>) -> Seq<Seq<char>>
    decreases parts.len(),
{
    if parts.len() == 0 {
        Seq::empty()
    } else {
        let prev = filter_segs(parts.drop_last());
        if keep_seg(parts.last()) {
            prev.push(parts.last())
        } else {
            prev
        }
    }
}

/// Resolves `..` segments against the components gathered so far: a `..`
/// pops the previous component, accumulates after another `..`, is kept at
/// the start of a relative path, and vanishes at the root.
pub open spec fn norm_stack(toks: Seq<Seq<char>>, rooted: bool) -> Seq<Seq<char>>
    decreases toks.len(),
{
    if toks.len() == 0 {
        Seq::empty()
    } else {
        let prev = norm_stack(toks.drop_last(), rooted);
        let t = toks.last();
        if t == parent_seg() {
            if prev.len() > 0 && prev.last() == parent_seg() {
                prev.push(t)
            } else if prev.len() > 0 {
                prev.drop_last()
            } else if !rooted {
                prev.push(t)
            } else {
                prev
            }
        } else {
            prev.push(t)
        }
    }
}

/// Purely lexical normalization of a path: split on `/`, drop empty and `.`
/// segments, resolve `..` segments, and render the components back with a
/// leading `/` when the input was absolute. No filesystem access.
pub open spec fn spec_normalize(s: Seq<char>) -> Seq<char> {
    let stack = norm_stack(filter_segs(spec_split(s, '/')), spec_has_root(s));
    if spec_has_root(s) {
        seq!['/'] + spec_join(stack, '/')
    } else {
        spec_join(stack, '/')
    }
}

/// Lexically normalizes a path string, resolving `.` and `..` segments
/// syntactically without touching the filesystem.
pub fn normalize_path(path: &str) -> (r: String)
    ensures
        r@ == spec_normalize(path@),
{
    let rooted = path.unicode_len() > 0 && path.get_char(0) == '/';
    assert(rooted == spec_has_root(path@));
    let parts = split_char(path, '/');
    let ghost pdeep = parts.deep_view();
    let mut toks: Vec<String> = Vec::new();
    let mut i: usize = 0;
    while i < parts.len()
        invariant
            i <= parts.len(),
            pdeep == parts.deep_view(),
            toks.deep_view() == filter_segs(pdeep.take(i as int)),
        decreases parts.len() - i,
    {
        let ghost old_toks = toks.deep_view();
        let keep = parts[i].as_str().unicode_len() > 0 && !str_eq(parts[i].as_str(), ".");
        proof {
            reveal_strlit(".");
            assert("."@ =~= seq!['.']);
            assert(keep == keep_seg(pdeep[i as int]));
        }
        if keep {
            let p = parts[i].clone();
            toks.push(p);
            assert(toks.deep_view() =~= old_toks.push(pdeep[i as int]));
        }
        i += 1;
        proof {
            assert(pdeep.take(i as int).drop_last() =~= pdeep.take(i as int - 1));
            assert(toks.deep_view() =~= filter_segs(pdeep.take(i as int)));
        }
    }
    assert(pdeep.take(parts.len() as int) =~= pdeep);
    let ghost tdeep = toks.deep_view();
    let mut stack: Vec<String> = Vec::new();
    let mut j: usize = 0;
    while j < toks.len()
        invariant
            j <= toks.len(),
            tdeep == toks.deep_view(),
            rooted == spec_has_root(path@),
            stack.deep_view() == norm_stack(tdeep.take(j as int), rooted),
        decreases toks.len() - j,
    {
        let ghost old_stack = stack.deep_view();
        proof {
            reveal_strlit("..");
            assert(".."@ =~= parent_seg());
        }
        if str_eq(toks[j].as_str(), "..") {
            if stack.len() > 0 && str_eq(stack[stack.len() - 1].as_str(), "..") {
                let t = toks[j].clone();
                stack.push(t);
                assert(stack.deep_view() =~= old_stack.push(tdeep[j as int]));
            } else if stack.len() > 0 {
                stack.pop();
                assert(stack.deep_view() =~= old_stack.drop_last());
            } else if !rooted {
                let t = toks[j].clone();
                stack.push(t);
                assert(stack.deep_view() =~= old_stack.push(tdeep[j as int]));
            }
        } else {
            let t = toks[j].clone();
            stack.push(t);
            assert(stack.deep_view() =~= old_stack.push(tdeep[j as int]));
        }
        j += 1;
        proof {
            assert(tdeep.take(j as int).drop_last() =~= tdeep.take(j as int - 1));
            assert(stack.deep_view() =~= norm_stack(tdeep.take(j as int), rooted));
        }
    }
    assert(tdeep.take(toks.len() as int) =~= tdeep);
    let ghost sdeep = stack.deep_view();
    let mut out = String::new();
    if rooted {
        push_char(&mut out, '/');
    }
    let ghost prefix: Seq<char> = if rooted {
        seq!['/']
    } else {
        Seq::<char>::empty()
    };
    assert(out@ =~= prefix);
    let mut k: usize = 0;
    while k < stack.len()
        invariant
            k <= stack.len(),
            sdeep == stack.deep_view(),
            out@ == prefix + spec_join(sdeep.take(k as int), '/'),
        decreases stack.len() - k,
    {
        if k > 0 {
            push_char(&mut out, '/');
        }
        out.append(stack[k].as_str());
        k += 1;
        proof {
            assert(sdeep.take(k as int).drop_last() =~= sdeep.take(k as int - 1));
            if k == 1 {
                assert(spec_join(sdeep.take(1), '/') == sdeep[0]);
                assert(out@ =~= prefix + spec_join(sdeep.take(k as int), '/'));
            } else {
                assert(spec_join(sdeep.take(k as int), '/') == spec_join(
                    sdeep.take(k as int - 1),
                    '/',
                ).push('/') + sdeep[k - 1]);
                assert(out@ =~= prefix + spec_join(sdeep.take(k as int), '/'));
            }
        }
    }
    assert(sdeep.take(stack.len() as int) =~= sdeep);
    assert(out@ =~= spec_normalize(path@));
    out
}

/// How a mount specification can be rejected.
#[derive(Debug, PartialEq)]
pub enum MountError {
    /// A path component of the specification is empty.
    EmptyPath,
    /// The path normalizes to the filesystem root, which would expose the
    /// whole host; carries the offending path as it was given.
    DisallowedPath(String),
    /// The specification does not have the expected shape.
    InvalidFormat(String),
}

/// Model of a mount rejection.
pub enum MountErrorModel {
    EmptyPath,
    DisallowedPath(Seq<char>),
    InvalidFormat(Seq<char>),
}

impl View for MountError {
    type V = MountErrorModel;

    open spec fn view(&self) -> MountErrorModel {
        match self {
            MountError::EmptyPath => MountErrorModel::EmptyPath,
            MountError::DisallowedPath(p) => MountErrorModel::DisallowedPath(p@),
            MountError::InvalidFormat(v) => MountErrorModel::InvalidFormat(v@),
        }
    }
}

impl MountError {
    /// Human-readable description, naming the offending input.
    pub fn message(&self) -> (r: String)
        ensures
            r@ == spec_mount_error_message(self@),
    {
        match self {
            MountError::EmptyPath => String::from_str("path must not be empty"),
            MountError::DisallowedPath(p) => {
                let mut s = String::from_str("path is not allowed: ");
                s.append(p.as_str());
                s
            },
            MountError::InvalidFormat(v) => {
                let mut s = String::from_str("invalid format: ");
                s.append(v.as_str());
                s
            },
        }
    }
}

pub open spec fn spec_mount_error_message(e: MountErrorModel) -> Seq<char> {
    match e {
        MountErrorModel::EmptyPath => "path must not be empty"@,
        MountErrorModel::DisallowedPath(p) => "path is not allowed: "@ + p,
        MountErrorModel::InvalidFormat(v) => "invalid format: "@ + v,
    }
}

/// Checks that a path does not normalize to the filesystem root; the path
/// itself is handed back untouched, and a rejection names the path as it
/// was given. The front-end is the one that checks that the path is
/// otherwise valid.
pub fn resolve_mount_path(mount_path: &str) -> (r: Result<String, MountError>)
    ensures
        match r {
            Ok(p) => spec_normalize(mount_path@) != "/"@ && p@ == mount_path@,
            Err(e) => spec_normalize(mount_path@) == "/"@ && e@
                == MountErrorModel::DisallowedPath(mount_path@),
        },
{
    let norm = normalize_path(mount_path);
    if str_eq(norm.as_str(), "/") {
        Err(MountError::DisallowedPath(String::from_str(mount_path)))
    } else {
        Ok(String::from_str(mount_path))
    }
}

/// Configuration for a single path with flags, in the `path[:flags]`
/// syntax. For a source and a target see `MountMapping`.
#[derive(Debug, PartialEq)]
pub struct MountConfig {
    /// The lexically normalized path.
    pub path: String,
    /// Whether the `rw` flag was given; read-only is the default.
    pub writable: bool,
}

/// Model of a parsed single-path mount configuration.
pub struct MountConfigModel {
    pub path: Seq<char>,
    pub writable: bool,
}

impl View for MountConfig {
    type V = MountConfigModel;

    open spec fn view(&self) -> MountConfigModel {
        MountConfigModel { path: self.path@, writable: self.writable }
    }
}

/// What parsing `path[:flags]` means: the flags are everything after the
/// last `:`, the path is everything before it (and so may itself contain
/// `:`); the path must be non-empty and must not normalize to the root
/// (a rejection names it as given); it is stored normalized; `rw` among
/// the comma-separated flags makes the mount writable.
pub open spec fn spec_parse_mount_config(s: Seq<char>) -> Result<
    MountConfigModel,
    MountErrorModel,
> {
    let parts = spec_split(s, ':');
    let path_part = if parts.len() == 1 {
        s
    } else {
        spec_join(parts.drop_last(), ':')
    };
    if path_part.len() == 0 {
        Err(MountErrorModel::EmptyPath)
    } else if spec_normalize(path_part) == "/"@ {
        Err(MountErrorModel::DisallowedPath(path_part))
    } else {
        Ok(
            MountConfigModel {
                path: spec_normalize(path_part),
                writable: parts.len() > 1 && spec_split(parts.last(), ',').contains("rw"@),
            },
        )
    }
}

impl MountConfig {
    /// Parses a `path[:flags]` specification.
    pub fn from_str(s: &str) -> (r: Result<Self, MountError>)
        ensures
            match r {
                Ok(c) => spec_parse_mount_config(s@) == Ok::<MountConfigModel, MountErrorModel>(
                    c@,
                ),
                Err(e) => spec_parse_mount_config(s@) == Err::<MountConfigModel, MountErrorModel>(
                    e@,
                ),
            },
    {
        let parts = split_char(s, ':');
        let ghost pdeep = parts.deep_view();
        proof {
            crate::strings::lemma_split_len(s@, ':');
            assert(parts.len() >= 1);
        }
        let path_part: String = if parts.len() == 1 {
            String::from_str(s)
        } else {
            let mut acc = parts[0].clone();
            assert(acc@ == spec_join(pdeep.take(1), ':'));
            let mut i: usize = 1;
            while i < parts.len() - 1
                invariant
                    1 <= i <= parts.len() - 1,
                    parts.len() >= 2,
                    pdeep == parts.deep_view(),
                    acc@ == spec_join(pdeep.take(i as int), ':'),
                decreases parts.len() - i,
            {
                push_char(&mut acc, ':');
                acc.append(parts[i].as_str());
                i += 1;
                proof {
                    assert(pdeep.take(i as int).drop_last() =~= pdeep.take(i as int - 1));
                    assert(acc@ =~= spec_join(pdeep.take(i as int), ':'));
                }
            }
            assert(pdeep.take(parts.len() - 1) =~= pdeep.drop_last());
            acc
        };
        if path_part.as_str().unicode_len() == 0 {
            return Err(MountError::EmptyPath);
        }
        match resolve_mount_path(path_part.as_str()) {
            Ok(_) => {},
            Err(e) => {
                return Err(e);
            },
        }
        let path = normalize_path(path_part.as_str());
        let writable = if parts.len() > 1 {
            let flags = split_char(parts[parts.len() - 1].as_str(), ',');
            let ghost fdeep = flags.deep_view();
            assert(fdeep == spec_split(pdeep.last(), ','));
            let mut found = false;
            let mut i: usize = 0;
            while i < flags.len()
                invariant
                    i <= flags.len(),
                    fdeep == flags.deep_view(),
                    found == exists|k: int| 0 <= k < i && fdeep[k] == "rw"@,
                decreases flags.len() - i,
            {
                let ghost old_found = found;
                let hit = str_eq(flags[i].as_str(), "rw");
                if hit {
                    found = true;
                }
                i += 1;
                proof {
                    if hit {
                        assert(fdeep[i - 1] == "rw"@);
                    } else if !old_found {
                        assert forall|k: int| 0 <= k < i implies fdeep[k] != "rw"@ by {
                            if k < i - 1 {
                                assert(!(exists|j: int| 0 <= j < i - 1 && fdeep[j] == "rw"@));
                            }
                        }
                    }
                }
            }
            assert(found == fdeep.contains("rw"@));
            found
        } else {
            false
        };
        Ok(MountConfig { path, writable })
    }
}

/// A source path, target path and mount flags, in the
/// `source:target[:flags]` syntax.
#[derive(Debug, PartialEq)]
pub struct MountMapping {
    /// The source path as given, not normalized.
    pub source_path: String,
    /// The parsed target path and flags.
    pub target_config: MountConfig,
}

/// Model of a parsed source-to-target mount mapping.
pub struct MountMappingModel {
    pub source_path: Seq<char>,
    pub target_config: MountConfigModel,
}

impl View for MountMapping {
    type V = MountMappingModel;

    open spec fn view(&self) -> MountMappingModel {
        MountMappingModel { source_path: self.source_path@, target_config: self.target_config@ }
    }
}

/// What parsing `source:target[:flags]` means: the source is everything
/// before the first `:` and is validated first — it must be non-empty and
/// must not normalize to the root (a rejection names it as given) — and
/// only then must a `:` separator exist at all; the remainder is parsed
/// as a `path[:flags]` target. The source is kept as written.
pub open spec fn spec_parse_mount_mapping(s: Seq<char>) -> Result<
    MountMappingModel,
    MountErrorModel,
> {
    let parts = spec_split(s, ':');
    if parts[0].len() == 0 {
        Err(MountErrorModel::EmptyPath)
    } else if spec_normalize(parts[0]) == "/"@ {
        Err(MountErrorModel::DisallowedPath(parts[0]))
    } else if parts.len() == 1 {
        Err(MountErrorModel::InvalidFormat(s))
    } else {
        match spec_parse_mount_config(spec_join(parts.skip(1), ':')) {
            Ok(tc) => Ok(MountMappingModel { source_path: parts[0], target_config: tc }),
            Err(e) => Err(e),
        }
    }
}

impl MountMapping {
    /// Parses a `source:target[:flags]` specification.
    pub fn from_str(s: &str) -> (r: Result<Self, MountError>)
        ensures
            match r {
                Ok(m) => spec_parse_mount_mapping(s@) == Ok::<MountMappingModel, MountErrorModel>(
                    m@,
                ),
                Err(e) => spec_parse_mount_mapping(s@) == Err::<
                    MountMappingModel,
                    MountErrorModel,
                >(e@),
            },
    {
        let parts = split_char(s, ':');
        let ghost pdeep = parts.deep_view();
        proof {
            crate::strings::lemma_split_len(s@, ':');
            assert(parts.len() >= 1);
        }
        if parts[0].as_str().unicode_len() == 0 {
            return Err(MountError::EmptyPath);
        }
        let source_path = match resolve_mount_path(parts[0].as_str()) {
            Ok(p) => p,
            Err(e) => {
                return Err(e);
            },
        };
        if parts.len() == 1 {
            return Err(MountError::InvalidFormat(String::from_str(s)));
        }
        let mut rest = parts[1].clone();
        assert(rest@ == spec_join(pdeep.subrange(1, 2), ':'));
        let mut i: usize = 2;
        while i < parts.len()
            invariant
                2 <= i <= parts.len(),
                parts.len() >= 2,
                pdeep == parts.deep_view(),
                rest@ == spec_join(pdeep.subrange(1, i as int), ':'),
            decreases parts.len() - i,
        {
            push_char(&mut rest, ':');
            rest.append(parts[i].as_str());
            i += 1;
            proof {
                assert(pdeep.subrange(1, i as int).drop_last() =~= pdeep.subrange(
                    1,
                    i as int - 1,
                ));
                assert(rest@ =~= spec_join(pdeep.subrange(1, i as int), ':'));
            }
        }
        assert(pdeep.subrange(1, parts.len() as int) =~= pdeep.skip(1));
        match MountConfig::from_str(rest.as_str()) {
            Ok(target_config) => Ok(MountMapping { source_path, target_config }),
            Err(e) => Err(e),
        }
    }
}

/// What parsing a list of volume specifications means: every entry must
/// parse as a mount mapping, and the first failure is the overall failure.
pub open spec fn spec_parse_mappings(vols: Seq<Seq<char>>) -> Result<
    Seq<MountMappingModel>,
    MountErrorModel,
> {
    spec_parse_mappings_rec(vols)
}

pub open spec fn spec_parse_mappings_rec(vols: Seq<Seq<char>>) -> Result<
    Seq<MountMappingModel>,
    MountErrorModel,
>
    decreases vols.len(),
{
    if vols.len() == 0 {
        Ok(Seq::empty())
    } else {
        match spec_parse_mappings_rec(vols.drop_last()) {
            Err(e) => Err(e),
            Ok(ms) => match spec_parse_mount_mapping(vols.last()) {
                Ok(m) => Ok(ms.push(m)),
                Err(e) => Err(e),
            },
        }
    }
}

/// Model of a sequence of parsed mappings.
pub open spec fn mappings_view(ms: Seq<MountMapping>) -> Seq<MountMappingModel> {
    ms.map_values(|m: MountMapping| m@)
}

/// Parses every volume specification in the list, stopping at the first
/// failure.
pub fn parse_mappings(volumes: &Vec<String>) -> (r: Result<Vec<MountMapping>, MountError>)
    ensures
        match r {
            Ok(ms) => spec_parse_mappings(volumes.deep_view()) == Ok::<
                Seq<MountMappingModel>,
                MountErrorModel,
            >(mappings_view(ms@)),
            Err(e) => spec_parse_mappings(volumes.deep_view()) == Err::<
                Seq<MountMappingModel>,
                MountErrorModel,
            >(e@),
        },
{
    let ghost vdeep = volumes.deep_view();
    let mut mappings: Vec<MountMapping> = Vec::new();
    proof {
        assert(vdeep.take(0) =~= Seq::<Seq<char>>::empty());
        assert(mappings_view(mappings@) =~= Seq::<MountMappingModel>::empty());
    }
    let mut i: usize = 0;
    while i < volumes.len()
        invariant
            i <= volumes.len(),
            vdeep == volumes.deep_view(),
            spec_parse_mappings_rec(vdeep.take(i as int)) == Ok::<
                Seq<MountMappingModel>,
                MountErrorModel,
            >(mappings_view(mappings@)),
        decreases volumes.len() - i,
    {
        let ghost old_ms = mappings_view(mappings@);
        let m = match MountMapping::from_str(volumes[i].as_str()) {
            Ok(m) => m,
            Err(e) => {
                proof {
                    let pre = vdeep.take(i as int + 1);
                    assert(pre.drop_last() =~= vdeep.take(i as int));
                    lemma_parse_mappings_prefix_err(vdeep, i as int + 1);
                }
                return Err(e);
            },
        };
        mappings.push(m);
        i += 1;
        proof {
            assert(vdeep.take(i as int).drop_last() =~= vdeep.take(i as int - 1));
            assert(mappings_view(mappings@) =~= old_ms.push(mappings@.last()@));
        }
    }
    assert(vdeep.take(volumes.len() as int) =~= vdeep);
    Ok(mappings)
}

/// Once a prefix of the volume list fails to parse, the whole list fails
/// with the same error.
proof fn lemma_parse_mappings_prefix_err(vols: Seq<Seq<char>>, i: int)
    requires
        0 < i <= vols.len(),
        spec_parse_mappings_rec(vols.take(i)) is Err,
    ensures
        spec_parse_mappings_rec(vols) == spec_parse_mappings_rec(vols.take(i)),
    decreases vols.len() - i,
{
    if i < vols.len() {
        assert(vols.take(i + 1).drop_last() =~= vols.take(i));
        lemma_parse_mappings_prefix_err(vols, i + 1);
    } else {
        assert(vols.take(i) =~= vols);
    }
}

} // verus!
