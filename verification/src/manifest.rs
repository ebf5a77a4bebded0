//! The launch-manifest data model: everything a launchable game version
//! declares (arguments, libraries, asset index, downloads, logging, main
//! class). Map-shaped fields are held as key/value pair lists; instants are
//! held as plain seconds/nanoseconds pairs, converted at the boundary.

use vstd::prelude::*;

verus! {

/// An instant in civil time (UTC): whole seconds since the epoch and a
/// nanosecond remainder.
#[derive(Debug, Clone, Copy, PartialEq, Eq, Structural)]
pub struct UtcTime {
    pub seconds: i64,
    pub nanos: u32,
}

impl UtcTime {
    /// A nanosecond remainder names less than a whole second.
    pub open spec fn wf(self) -> bool {
        self.nanos < 1_000_000_000
    }
}

/// Release lifecycle class of a game version.
#[derive(Debug, Clone, Copy, PartialEq, Eq, Structural)]
pub enum VersionType {
    /// Main, stable version available to all players.
    Release,
    /// Experimental version for feature previews and testing.
    Snapshot,
    /// The earliest pre-release versions of the game.
    OldAlpha,
    /// Early versions of the game.
    OldBeta,
}

/// The identifier of each version type.
pub open spec fn version_type_chars(t: VersionType) -> Seq<char> {
    match t {
        VersionType::Release => "release"@,
        VersionType::Snapshot => "snapshot"@,
        VersionType::OldAlpha => "old_alpha"@,
        VersionType::OldBeta => "old_beta"@,
    }
}

impl VersionType {
    /// The version type's identifier string.
    pub fn as_str(&self) -> (r: &'static str)
        ensures
            r@ == version_type_chars(*self),
    {
        match self {
            VersionType::Release => "release",
            VersionType::Snapshot => "snapshot",
            VersionType::OldAlpha => "old_alpha",
            VersionType::OldBeta => "old_beta",
        }
    }
}

/// One version entry of the game's version manifest.
#[derive(Debug, Clone, PartialEq, Eq)]
pub struct Version {
    /// Unique identifier of the version.
    pub id: String,
    /// Release lifecycle class.
    pub type_: VersionType,
    /// Link to further information on the version.
    pub url: String,
    /// When the version was last updated.
    pub time: UtcTime,
    /// When the version was released.
    pub release_time: UtcTime,
    /// Digest of the linked further information.
    pub sha1: String,
    /// Whether the version supports the latest player safety features.
    pub compliance_level: u32,
    /// Digest of the original, unmodified version description.
    pub original_sha1: Option<String>,
}

/// The newest available versions.
#[derive(Debug, Clone, PartialEq, Eq)]
pub struct LatestVersion {
    /// Identifier of the latest release.
    pub release: String,
    /// Identifiers of the available versions.
    pub versions: Vec<String>,
}

/// The game's version manifest.
#[derive(Debug, Clone, PartialEq, Eq)]
pub struct VersionManifest {
    /// The newest available versions.
    pub latest: LatestVersion,
    /// All available versions.
    pub versions: Vec<Version>,
}

/// The downloadable artifacts of a version.
#[derive(Debug, Clone, Copy, PartialEq, Eq, Structural, Hash)]
pub enum DownloadType {
    /// The game client.
    Client,
    /// Obfuscation mappings of the client.
    ClientMappings,
    /// The game server.
    Server,
    /// Obfuscation mappings of the server.
    ServerMappings,
    /// The Windows server build.
    WindowsServer,
}

/// The two argument categories of a launch manifest.
#[derive(Debug, Clone, Copy, PartialEq, Eq, Structural, Hash)]
pub enum ArgumentType {
    /// Arguments handed to the game.
    Game,
    /// Arguments handed to the JVM.
    Jvm,
}

/// One or several argument strings.
#[derive(Debug, Clone, PartialEq, Eq)]
pub enum ArgumentValue {
    /// A single argument.
    Single(String),
    /// Several arguments.
    Many(Vec<String>),
}

/// An argument of a launch command.
#[derive(Debug, Clone, PartialEq, Eq)]
pub enum Argument {
    /// An argument applied unconditionally.
    Normal(String),
    /// An argument applied when its rules allow it.
    Ruled {
        /// The rules deciding whether the argument applies.
        rules: Vec<Rule>,
        /// The argument value.
        value: ArgumentValue,
    },
}

/// The asset index of a version.
#[derive(Debug, Clone, PartialEq, Eq)]
pub struct AssetIndex {
    /// Game version the assets belong to.
    pub id: String,
    /// Digest of the asset index.
    pub sha1: String,
    /// Size of the asset index file.
    pub size: u32,
    /// Total size of the version's assets.
    pub total_size: u32,
    /// Where to fetch the asset index.
    pub url: String,
}

/// One downloadable file.
#[derive(Debug, Clone, PartialEq, Eq)]
pub struct Download {
    /// Digest of the file.
    pub sha1: String,
    /// Size of the file.
    pub size: u32,
    /// Where to fetch the file.
    pub url: String,
}

/// A downloadable library file.
#[derive(Debug, Clone, PartialEq, Eq)]
pub struct LibraryDownload {
    /// Where to store the file.
    pub path: Option<String>,
    /// Digest of the file.
    pub sha1: String,
    /// Size of the file.
    pub size: u32,
    /// Where to fetch the file.
    pub url: String,
}

/// How a library is unpacked.
#[derive(Debug, Clone, PartialEq, Eq)]
pub struct LibraryExtract {
    /// Files and directories left out when unpacking.
    pub exclude: Option<Vec<String>>,
}

/// The download set of a library.
#[derive(Debug, Clone, PartialEq, Eq)]
pub struct LibraryDownloads {
    /// The main library file.
    pub artifact: Option<LibraryDownload>,
    /// Additional conditional files, keyed by classifier.
    pub classifiers: Option<Vec<(String, LibraryDownload)>>,
}

/// What a rule decides.
#[derive(Debug, Clone, Copy, PartialEq, Eq, Structural)]
pub enum RuleAction {
    Allow,
    Disallow,
}

/// Operating systems a rule or native classifier can name.
#[derive(Debug, Clone, Copy, PartialEq, Eq, Structural, Hash)]
pub enum Os {
    /// MacOS on x86.
    Osx,
    /// MacOS on 64-bit ARM.
    OsxArm64,
    /// Windows on x86.
    Windows,
    /// Windows on 64-bit ARM.
    WindowsArm64,
    /// Linux on x86 and derivatives.
    Linux,
    /// Linux on 64-bit ARM.
    LinuxArm64,
    /// Linux on 32-bit ARM.
    LinuxArm32,
    /// An operating system outside the known set.
    Unknown,
}

/// A rule condition on the operating system.
#[derive(Debug, Clone, PartialEq, Eq)]
pub struct OsRule {
    /// Operating system name.
    pub name: Option<Os>,
    /// Operating system version, usually as a pattern.
    pub version: Option<String>,
    /// Operating system architecture.
    pub arch: Option<String>,
}

/// A rule condition on launcher features.
#[derive(Debug, Clone, Copy, PartialEq, Eq, Structural)]
pub struct FeatureRule {
    /// Whether the player is a demo user.
    pub is_demo_user: Option<bool>,
    /// Whether a custom resolution is used.
    pub has_custom_resolution: Option<bool>,
    /// Whether the launcher supports quick play.
    pub has_quick_plays_support: Option<bool>,
    /// Whether a singleplayer world is launched directly.
    pub is_quick_play_singleplayer: Option<bool>,
    /// Whether a multiplayer world is launched directly.
    pub is_quick_play_multiplayer: Option<bool>,
    /// Whether a realms world is launched directly.
    pub is_quick_play_realms: Option<bool>,
}

/// A rule deciding downloads, argument use and the like.
#[derive(Debug, Clone, PartialEq, Eq)]
pub struct Rule {
    /// What the rule decides.
    pub action: RuleAction,
    /// Condition on the operating system.
    pub os: Option<OsRule>,
    /// Condition on launcher features.
    pub features: Option<FeatureRule>,
}

/// A library the game depends on.
#[derive(Debug, Clone, PartialEq, Eq)]
pub struct Library {
    /// Download set of the library.
    pub downloads: Option<LibraryDownloads>,
    /// How the library is unpacked.
    pub extract: Option<LibraryExtract>,
    /// Maven name, `groupId:artifactId:version`.
    pub name: String,
    /// Repository the library is fetched from.
    pub url: Option<String>,
    /// Native classifiers, keyed by operating system.
    pub natives: Option<Vec<(Os, String)>>,
    /// Rules deciding whether the library is fetched.
    pub rules: Option<Vec<Rule>>,
    /// Digests of the library files.
    pub checksums: Option<Vec<String>>,
    /// Whether the library joins the classpath at launch.
    pub include_in_classpath: bool,
    /// Whether the library is to be downloaded.
    pub downloadable: bool,
}

/// The Java runtime a version asks for.
#[derive(Debug, Clone, PartialEq, Eq)]
pub struct JavaVersion {
    /// The runtime component to install.
    pub component: String,
    /// The major Java version.
    pub major_version: u32,
}

/// The sides a logging configuration can apply to.
#[derive(Debug, Clone, Copy, PartialEq, Eq, Structural, Hash)]
pub enum LoggingSide {
    /// Client-side logging.
    Client,
}

/// A logging configuration of a version.
#[derive(Debug, Clone, PartialEq, Eq)]
pub enum LoggingConfiguration {
    /// Logging through a log4j2 XML configuration file.
    Log4j2Xml {
        /// The JVM argument handing over the configuration file.
        argument: String,
        /// The configuration file to download.
        file: LogConfigDownload,
    },
}

/// A downloadable logging configuration file.
#[derive(Debug, Clone, PartialEq, Eq)]
pub struct LogConfigDownload {
    /// Where to store the file.
    pub id: String,
    /// Digest of the file.
    pub sha1: String,
    /// Size of the file.
    pub size: u32,
    /// Where to fetch the file.
    pub url: String,
}

/// A full launch manifest.
#[derive(Debug, Clone, PartialEq, Eq)]
pub struct VersionInfo {
    /// Arguments handed to the game or the JVM, by category.
    pub arguments: Option<Vec<(ArgumentType, Vec<Argument>)>>,
    /// The asset index.
    pub asset_index: AssetIndex,
    /// Identifier of the assets.
    pub assets: String,
    /// The downloadable artifacts, by kind.
    pub downloads: Vec<(DownloadType, Download)>,
    /// Identifier of the version.
    pub id: String,
    /// The Java runtime the version asks for.
    pub java_version: Option<JavaVersion>,
    /// The libraries the version depends on.
    pub libraries: Vec<Library>,
    /// Logging configurations, by side.
    pub logging: Option<Vec<(LoggingSide, LoggingConfiguration)>>,
    /// The main class launched.
    pub main_class: String,
    /// Arguments handed to the game, in the legacy single-string form.
    pub minecraft_arguments: Option<String>,
    /// The oldest launcher version able to run this version.
    pub minimum_launcher_version: u32,
    /// When the version was released.
    pub release_time: UtcTime,
    /// When the version's files were last updated.
    pub time: UtcTime,
    /// Release lifecycle class.
    pub type_: VersionType,
    /// Loader data variables.
    pub data: Option<Vec<(String, crate::modded::SidedDataEntry)>>,
    /// Loader post-install processors.
    pub processors: Option<Vec<crate::modded::Processor>>,
}

} // verus!
