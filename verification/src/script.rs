//! The bootstrap script a worker is spawned from.
//!
//! The main context builds the worker from a small generated script that
//! imports a named build artifact and its binary payload from the page's
//! own origin, under a fixed naming convention: `<name>.js` for the script
//! and `<name>_bg.wasm` for the payload.

use vstd::prelude::*;
use vstd::string::StringExecFns;

verus! {

/// The logical name of the worker's build artifact.
pub fn worker_artifact_name() -> (r: &'static str)
    ensures
        r@ == "bevy_worker"@,
{
    "bevy_worker"
}

/// The bootstrap script for an artifact of the given name served from the
/// given origin: it imports `<origin>/<name>.js`, then loads
/// `<origin>/<name>_bg.wasm`.
pub open spec fn spec_worker_script(origin: Seq<char>, name: Seq<char>) -> Seq<char> {
    "importScripts(\""@ + origin + "/"@ + name + ".js\");wasm_bindgen(\""@ + origin + "/"@ + name
        + "_bg.wasm\");"@
}

/// Renders the worker bootstrap script for the given origin and artifact
/// name.
pub fn worker_script(origin: &str, name: &str) -> (r: String)
    ensures
        r@ == spec_worker_script(origin@, name@),
{
    let mut s = String::new();
    s.append("importScripts(\"");
    s.append(origin);
    s.append("/");
    s.append(name);
    s.append(".js\");wasm_bindgen(\"");
    s.append(origin);
    s.append("/");
    s.append(name);
    s.append("_bg.wasm\");");
    proof {
        assert(s@ =~= spec_worker_script(origin@, name@));
    }
    s
}

} // verus!
