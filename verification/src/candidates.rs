//! The ordered candidate list: for a given environment snapshot, the exact
//! paths a resolution probes, in priority order.
//!
//! Tiers, highest priority first:
//! 1. per-user install under the home directory, then under the
//!    Windows-style profile directory;
//! 2. application-bundle-relative locations, probed only on macOS and only
//!    when the executable path shows the bundle pattern;
//! 3. the development-tree path relative to the working directory;
//! 4. the directory holding the executable, then three of its ancestors;
//! 5. fixed system-wide locations, one list for Windows and one for the rest.

use vstd::prelude::*;
use vstd::string::StrSliceExecFns;
use vstd::string::StringExecFns;

use crate::context::OsFamily;
use crate::context::PlatformContext;
use crate::pathstr::ancestor_dir;
use crate::pathstr::contains_seq;
use crate::pathstr::contains_str;
use crate::pathstr::join_path;
use crate::pathstr::parent_dir;
use crate::pathstr::spec_ancestor;
use crate::pathstr::spec_join;
use crate::pathstr::spec_parent;

verus! {

/// The file name of the tool being located.
pub open spec fn spec_tool_file() -> Seq<char> {
    "demostools_file.ts"@
}

/// The tool file name, as text.
pub fn tool_file_name() -> (r: &'static str)
    ensures
        r@ == spec_tool_file(),
{
    "demostools_file.ts"
}

/// The per-user install location relative to the home directory.
pub open spec fn spec_home_rel() -> Seq<char> {
    "/.demos-toolkit/demostools_file.ts"@
}

/// The per-user install location relative to the profile directory,
/// with Windows separators.
pub open spec fn spec_profile_rel() -> Seq<char> {
    "\\.demos-toolkit\\demostools_file.ts"@
}

/// The text that marks an executable path as lying inside an application
/// bundle.
pub open spec fn spec_bundle_marker() -> Seq<char> {
    ".app/Contents/MacOS/"@
}

/// The bundle marker, as text.
pub fn bundle_marker() -> (r: &'static str)
    ensures
        r@ == spec_bundle_marker(),
{
    ".app/Contents/MacOS/"
}

/// The internal-tools subdirectory of a bundle's installation root.
pub open spec fn spec_internal_tools_dir() -> Seq<char> {
    "internal_tools"@
}

/// The development-tree offset applied to a bundle's installation root.
pub open spec fn spec_bundle_dev_rel() -> Seq<char> {
    "/../../demostools_file.ts"@
}

/// The development-tree path relative to the working directory.
pub open spec fn spec_dev_rel() -> Seq<char> {
    "../../demostools_file.ts"@
}

/// The development-tree path, as text.
pub fn dev_rel_path() -> (r: &'static str)
    ensures
        r@ == spec_dev_rel(),
{
    "../../demostools_file.ts"
}

/// Tier 1: the per-user install locations, home-directory variant first,
/// then the profile-directory variant; a variant whose variable is unset
/// contributes nothing.
pub open spec fn spec_user_tier(ctx: PlatformContext) -> Seq<Seq<char>> {
    (match ctx.home {
        Some(h) => seq![h@ + spec_home_rel()],
        None => Seq::<Seq<char>>::empty(),
    }) + (match ctx.user_profile {
        Some(u) => seq![u@ + spec_profile_rel()],
        None => Seq::<Seq<char>>::empty(),
    })
}

/// Tier 2: the bundle-relative locations. Empty unless the family is macOS
/// and the executable path shows the bundle marker and has four ancestors:
/// then, from the directory holding the bundle, the internal-tools
/// subdirectory, the directory itself, and the development-tree offset.
pub open spec fn spec_bundle_tier(ctx: PlatformContext) -> Seq<Seq<char>> {
    if ctx.os == OsFamily::MacOs && contains_seq(ctx.exe_path@, spec_bundle_marker()) {
        match spec_ancestor(ctx.exe_path@, 4) {
            Some(root) => seq![
                spec_join(spec_join(root, spec_internal_tools_dir()), spec_tool_file()),
                spec_join(root, spec_tool_file()),
                root + spec_bundle_dev_rel(),
            ],
            None => Seq::<Seq<char>>::empty(),
        }
    } else {
        Seq::<Seq<char>>::empty()
    }
}

/// Tier 3: the development-tree path.
pub open spec fn spec_dev_tier() -> Seq<Seq<char>> {
    seq![spec_dev_rel()]
}

/// One ancestor's contribution to tier 4: the tool file in the `n`-th
/// ancestor of the executable path, nothing when the chain ends first.
pub open spec fn spec_exe_ancestor(ctx: PlatformContext, n: nat) -> Seq<Seq<char>> {
    match spec_ancestor(ctx.exe_path@, n) {
        Some(a) => seq![spec_join(a, spec_tool_file())],
        None => Seq::<Seq<char>>::empty(),
    }
}

/// Tier 4: the tool file beside the executable, then in up to three
/// ancestors of the executable's directory. Empty when the executable path
/// has no parent.
pub open spec fn spec_exe_tier(ctx: PlatformContext) -> Seq<Seq<char>> {
    match spec_parent(ctx.exe_path@) {
        Some(d) => seq![spec_join(d, spec_tool_file())] + spec_exe_ancestor(ctx, 2)
            + spec_exe_ancestor(ctx, 3) + spec_exe_ancestor(ctx, 4),
        None => Seq::<Seq<char>>::empty(),
    }
}

/// Tier 5: the fixed system-wide locations.
pub open spec fn spec_system_tier(os: OsFamily) -> Seq<Seq<char>> {
    if os == OsFamily::Windows {
        seq![
            "C:\\demos-toolkit\\demostools_file.ts"@,
            "C:\\Program Files\\demos-toolkit\\demostools_file.ts"@,
        ]
    } else {
        seq!["/usr/local/demos-toolkit/demostools_file.ts"@, "/opt/demos-toolkit/demostools_file.ts"@]
    }
}

/// The full ordered candidate list for one environment snapshot.
pub open spec fn spec_candidates(ctx: PlatformContext) -> Seq<Seq<char>> {
    spec_user_tier(ctx) + spec_bundle_tier(ctx) + spec_dev_tier() + spec_exe_tier(ctx)
        + spec_system_tier(ctx.os)
}

/// The views of a sequence of path strings.
pub open spec fn path_views(v: Seq<String>) -> Seq<Seq<char>> {
    v.map_values(|s: String| s@)
}

/// Taking views commutes with concatenation.
pub proof fn lemma_path_views_concat(a: Seq<String>, b: Seq<String>)
    ensures
        path_views(a + b) == path_views(a) + path_views(b),
{
    assert(path_views(a + b) =~= path_views(a) + path_views(b));
}

/// The tier-1 candidate paths.
pub fn user_tier_paths(ctx: &PlatformContext) -> (r: Vec<String>)
    ensures
        path_views(r@) == spec_user_tier(*ctx),
{
    let mut out: Vec<String> = Vec::new();
    match &ctx.home {
        Some(h) => {
            let mut p = String::from_str(h.as_str());
            p.append("/.demos-toolkit/demostools_file.ts");
            out.push(p);
        },
        None => {},
    }
    match &ctx.user_profile {
        Some(u) => {
            let mut p = String::from_str(u.as_str());
            p.append("\\.demos-toolkit\\demostools_file.ts");
            out.push(p);
        },
        None => {},
    }
    proof {
        assert(path_views(out@) =~= spec_user_tier(*ctx));
    }
    out
}

/// The tier-2 candidate paths.
pub fn bundle_tier_paths(ctx: &PlatformContext) -> (r: Vec<String>)
    ensures
        path_views(r@) == spec_bundle_tier(*ctx),
{
    let mut out: Vec<String> = Vec::new();
    if ctx.os == OsFamily::MacOs && contains_str(ctx.exe_path.as_str(), bundle_marker()) {
        match ancestor_dir(ctx.exe_path.as_str(), 4) {
            Some(root) => {
                let internal = join_path(root.as_str(), "internal_tools");
                out.push(join_path(internal.as_str(), tool_file_name()));
                out.push(join_path(root.as_str(), tool_file_name()));
                let mut offset = String::from_str(root.as_str());
                offset.append("/../../demostools_file.ts");
                out.push(offset);
            },
            None => {},
        }
    }
    proof {
        assert(path_views(out@) =~= spec_bundle_tier(*ctx));
    }
    out
}

/// The tier-3 candidate paths.
pub fn dev_tier_paths() -> (r: Vec<String>)
    ensures
        path_views(r@) == spec_dev_tier(),
{
    let mut out: Vec<String> = Vec::new();
    out.push(String::from_str(dev_rel_path()));
    proof {
        assert(path_views(out@) =~= spec_dev_tier());
    }
    out
}

/// Pushes the `n`-th-ancestor candidate of tier 4, if that ancestor exists.
fn push_exe_ancestor(ctx: &PlatformContext, n: usize, out: &mut Vec<String>)
    ensures
        path_views(final (out)@) == path_views(old(out)@) + spec_exe_ancestor(*ctx, n as nat),
{
    match ancestor_dir(ctx.exe_path.as_str(), n) {
        Some(a) => {
            out.push(join_path(a.as_str(), tool_file_name()));
        },
        None => {},
    }
    proof {
        assert(path_views(out@) =~= path_views(old(out)@) + spec_exe_ancestor(*ctx, n as nat));
    }
}

/// The tier-4 candidate paths.
pub fn exe_tier_paths(ctx: &PlatformContext) -> (r: Vec<String>)
    ensures
        path_views(r@) == spec_exe_tier(*ctx),
{
    let mut out: Vec<String> = Vec::new();
    match parent_dir(ctx.exe_path.as_str()) {
        Some(d) => {
            out.push(join_path(d.as_str(), tool_file_name()));
            proof {
                assert(path_views(out@) =~= seq![
                    spec_join(spec_parent(ctx.exe_path@)->Some_0, spec_tool_file()),
                ]);
            }
            push_exe_ancestor(ctx, 2, &mut out);
            push_exe_ancestor(ctx, 3, &mut out);
            push_exe_ancestor(ctx, 4, &mut out);
        },
        None => {},
    }
    proof {
        assert(path_views(out@) =~= spec_exe_tier(*ctx));
    }
    out
}

/// The tier-5 candidate paths.
pub fn system_tier_paths(os: OsFamily) -> (r: Vec<String>)
    ensures
        path_views(r@) == spec_system_tier(os),
{
    let mut out: Vec<String> = Vec::new();
    if os == OsFamily::Windows {
        out.push(String::from_str("C:\\demos-toolkit\\demostools_file.ts"));
        out.push(String::from_str("C:\\Program Files\\demos-toolkit\\demostools_file.ts"));
    } else {
        out.push(String::from_str("/usr/local/demos-toolkit/demostools_file.ts"));
        out.push(String::from_str("/opt/demos-toolkit/demostools_file.ts"));
    }
    proof {
        assert(path_views(out@) =~= spec_system_tier(os));
    }
    out
}

/// The full ordered candidate list for one environment snapshot, highest
/// priority first.
pub fn candidate_paths(ctx: &PlatformContext) -> (r: Vec<String>)
    ensures
        path_views(r@) == spec_candidates(*ctx),
{
    let mut out = user_tier_paths(ctx);
    let mut rest = bundle_tier_paths(ctx);
    proof {
        lemma_path_views_concat(out@, rest@);
    }
    out.append(&mut rest);
    let mut rest = dev_tier_paths();
    proof {
        lemma_path_views_concat(out@, rest@);
    }
    out.append(&mut rest);
    let mut rest = exe_tier_paths(ctx);
    proof {
        lemma_path_views_concat(out@, rest@);
    }
    out.append(&mut rest);
    let mut rest = system_tier_paths(ctx.os);
    proof {
        lemma_path_views_concat(out@, rest@);
    }
    out.append(&mut rest);
    out
}

/// On a platform other than macOS the bundle tier contributes no candidate:
/// a resolution there probes only the user, development, executable-relative
/// and system locations.
pub proof fn lemma_platform_gating(ctx: PlatformContext)
    requires
        ctx.os != OsFamily::MacOs,
    ensures
        spec_bundle_tier(ctx) == Seq::<Seq<char>>::empty(),
        spec_candidates(ctx) == spec_user_tier(ctx) + spec_dev_tier() + spec_exe_tier(ctx)
            + spec_system_tier(ctx.os),
{
    assert(spec_candidates(ctx) =~= spec_user_tier(ctx) + spec_dev_tier() + spec_exe_tier(ctx)
        + spec_system_tier(ctx.os));
}

} // verus!
