//! Text the native OpenGL ES 2.0 backend reports about itself.

use vstd::prelude::*;

verus! {

/// The backend's description.
pub fn description() -> (s: &'static str)
    ensures
        s@ == "Native OpenGL ES 2.0"@,
{
    "Native OpenGL ES 2.0"
}

/// The driver description: the GL version, vendor and renderer strings,
/// separated by " / ".
pub fn driver_description(version: &str, vendor: &str, renderer: &str) -> (s: String)
    ensures
        s@ == version@ + " / "@ + vendor@ + " / "@ + renderer@,
{
    let mut s = String::from_str(version);
    s.append(" / ");
    s.append(vendor);
    s.append(" / ");
    s.append(renderer);
    s
}

} // verus!
