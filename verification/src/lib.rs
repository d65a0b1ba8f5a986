//! A two-pane reconciliation engine for a local directory of game add-ons.
//!
//! The library holds the verified core of the tool: the ordered panels of
//! catalog entries, the persisted manifest with its verification pass, the
//! controller that maps decoded user intents to panel operations, and the
//! per-backend logic that picks a release to download.  All network, file
//! and terminal work is performed by the surrounding application, which
//! feeds plain values into these functions and carries their results out.

pub mod curseforge;
pub mod display;
pub mod download;
pub mod mc_mod;
pub mod modrinth;
pub mod panel;
pub mod panel_entry;
pub mod query;
pub mod search_field;
pub mod text;

use vstd::prelude::*;
use vstd::string::StringExecFns;

verus! {

/// Builds the user-agent value sent with every catalog request:
/// the tool's account name, package name and package version,
/// separated by slashes.
pub fn init(name: &str, version: &str) -> (r: String)
    ensures
        r@ == "OwczarekGit/"@ + name@ + "/"@ + version@,
{
    let mut agent = String::from_str("OwczarekGit/");
    agent.append(name);
    agent.append("/");
    agent.append(version);
    agent
}

} // verus!
