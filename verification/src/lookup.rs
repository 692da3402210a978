//! The last tier of a resolution: the executable-search-path lookup. The
//! caller asks the platform for a launcher on the search path; from the
//! launcher's location the tool file is derived two directory levels up,
//! undoing a `bin/`-style layout, and the launcher itself is the fallback
//! when nothing lies at the derived path.

use vstd::prelude::*;

use crate::candidates::spec_tool_file;
use crate::candidates::tool_file_name;
use crate::pathstr::ancestor_dir;
use crate::pathstr::join_path;
use crate::pathstr::spec_ancestor;
use crate::pathstr::spec_join;

verus! {

/// The tool path derived from a launcher found on the search path: the tool
/// file in the directory two levels above the launcher, or `None` when the
/// launcher path is too shallow for that.
pub open spec fn spec_derived_tool(launcher: Seq<char>) -> Option<Seq<char>> {
    match spec_ancestor(launcher, 2) {
        Some(d) => Some(spec_join(d, spec_tool_file())),
        None => None,
    }
}

/// The tool path derived from a launcher's location, as text.
pub fn derived_tool_path(launcher: &str) -> (r: Option<String>)
    ensures
        r is Some <==> spec_derived_tool(launcher@) is Some,
        r matches Some(p) ==> spec_derived_tool(launcher@) == Some(p@),
{
    match ancestor_dir(launcher, 2) {
        Some(d) => Some(join_path(d.as_str(), tool_file_name())),
        None => None,
    }
}

/// Settles the lookup tier: the derived tool path when the caller found a
/// file there, else the launcher itself.
pub fn settle_lookup(launcher: String, derived: Option<String>, derived_exists: bool) -> (r: String)
    ensures
        derived matches Some(d) ==> derived_exists ==> r@ == d@,
        derived is None || !derived_exists ==> r@ == launcher@,
{
    match derived {
        Some(d) => {
            if derived_exists {
                d
            } else {
                launcher
            }
        },
        None => launcher,
    }
}

} // verus!
