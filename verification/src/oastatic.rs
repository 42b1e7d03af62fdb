//! Static information for the client.
//!
//! Build-environment values (package name, version numbers) are only known
//! to the binary that embeds them; the library holds the display name.

use vstd::prelude::*;

verus! {

/// Game client meta information: the public display name of the client.
pub const GAME_CLIENT_NAME: &'static str = "Open Arena Fortress";

} // verus!
