//! Fixed endpoints and format-version constants of the launcher.

use vstd::prelude::*;

verus! {

/// Base URL of the remote package catalog queried for Java builds.
pub const AZUL_API_BASE_URL: &'static str = "https://api.azul.com/metadata/v1/zulu/packages/";

/// Modrinth web front page.
pub const MODRINTH_URL: &'static str = "https://modrinth.com/";

/// Modrinth API, second revision.
pub const MODRINTH_API_URL: &'static str = "https://api.modrinth.com/v2/";

/// Modrinth API, third revision.
pub const MODRINTH_API_URL_V3: &'static str = "https://api.modrinth.com/v3/";

/// Modrinth websocket endpoint.
pub const MODRINTH_SOCKET_URL: &'static str = "wss://api.modrinth.com/";

/// Modrinth launcher metadata endpoint.
pub const META_URL: &'static str = "https://launcher-meta.modrinth.com/";

/// Newest understood Fabric manifest format revision.
pub const CURRENT_FABRIC_FORMAT_VERSION: u32 = 0;

/// Newest understood Forge manifest format revision.
pub const CURRENT_FORGE_FORMAT_VERSION: u32 = 0;

/// Newest understood Quilt manifest format revision.
pub const CURRENT_QUILT_FORMAT_VERSION: u32 = 0;

/// Newest understood NeoForge manifest format revision.
pub const CURRENT_NEOFORGE_FORMAT_VERSION: u32 = 0;

/// Newest understood generic manifest format revision.
pub const CURRENT_FORMAT_VERSION: usize = 0;

} // verus!
