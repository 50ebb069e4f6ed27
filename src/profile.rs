//! Records of a version profile: what a launch needs and how to launch it.
use vstd::prelude::*;

verus! {

/// An array of rules deciding whether a value is used: all of them must hold.
#[derive(Clone, Debug)]
pub struct Rule {
    pub rules: Vec<RuleItem>,
    pub value: RuleValue,
}

/// One rule: an action together with optional predicates on the launch features
/// and on the host. With `Disallow` the item holds when the predicates do not.
#[derive(Clone, Debug)]
pub struct RuleItem {
    pub action: RuleAction,
    pub features: Option<RuleItemFeatures>,
    pub os: Option<RuleItemOs>,
}

#[derive(Clone, Copy, Debug, PartialEq, Eq, Structural)]
pub enum RuleAction {
    Allow,
    Disallow,
}

/// `is_demo_user`: whether the game runs in demo mode.
/// `has_custom_resolution`: whether a custom resolution is passed to the game.
#[derive(Clone, Copy, Debug, PartialEq, Eq, Structural)]
pub struct RuleItemFeatures {
    pub is_demo_user: Option<bool>,
    pub has_custom_resolution: Option<bool>,
}

/// `arch`: the processor architecture (`x86`, `x32`).
/// `name`: the system's name (`osx`, `windows`, `linux`).
/// `version`: the system's version; accepted and not evaluated.
#[derive(Clone, Debug)]
pub struct RuleItemOs {
    pub arch: Option<String>,
    pub name: Option<String>,
    pub version: Option<String>,
}

/// The value a rule selects: one string or several.
#[derive(Clone, Debug)]
pub enum RuleValue {
    String(String),
    Vec(Vec<String>),
}

/// A download of a jar, a library, an index and so on.
#[derive(Clone, Debug)]
pub struct Download {
    pub id: Option<String>,
    pub path: Option<String>,
    pub sha1: String,
    pub size: i32,
    pub total_size: Option<i32>,
    pub url: String,
}

/// The arguments to pass to the game and to Java: the structured format, or
/// the legacy format of one string whose elements are separated by spaces.
#[derive(Clone, Debug)]
pub enum Arguments {
    NewArguments(NewArguments),
    OldArguments(String),
}

/// Arguments to pass to the game and to Java.
#[derive(Clone, Debug)]
pub struct NewArguments {
    pub game: Vec<Argument>,
    pub jvm: Vec<Argument>,
}

/// One argument: a literal that always applies, or a rule that selects values.
#[derive(Clone, Debug)]
pub enum Argument {
    String(String),
    Rule(Rule),
}

/// Downloads of the client and the server of one version, and their mappings.
#[derive(Clone, Debug)]
pub struct Downloads {
    pub client: Download,
    pub client_mappings: Option<Download>,
    pub server: Option<Download>,
    pub server_mappings: Option<Download>,
}

/// The Java runtime to launch with: only its major version is given.
#[derive(Clone, Debug)]
pub struct JavaVersion {
    pub component: String,
    pub major_version: i32,
}

impl Default for JavaVersion {
    fn default() -> (r: Self)
        ensures
            r.component@ == "java-runtime-beta"@,
            r.major_version == 17,
    {
        JavaVersion { component: "java-runtime-beta".to_owned(), major_version: 17 }
    }
}

/// A library to download and to put on the classpath.
#[derive(Clone, Debug)]
pub struct Library {
    pub downloads: LibraryDownloads,
    pub name: String,
    pub rules: Option<Vec<RuleItem>>,
}

/// Downloads of a library's jar and of its classifiers (native components).
#[derive(Clone, Debug)]
pub struct LibraryDownloads {
    pub artifact: Option<Download>,
    pub classifiers: Option<Classifiers>,
}

/// Downloads of a library's classifiers, one per platform.
#[derive(Clone, Debug)]
pub struct Classifiers {
    pub natives_linux: Option<Download>,
    pub natives_macos: Option<Download>,
    pub natives_windows: Option<Download>,
    pub sources: Option<Download>,
}

/// Which logging client a version uses.
#[derive(Clone, Debug)]
pub struct Logging {
    pub client: LoggingClient,
}

/// The logging client of a version, and the argument to pass to Java for it.
#[derive(Clone, Debug)]
pub struct LoggingClient {
    pub argument: String,
    pub file: Download,
    pub logging_type: String,
}

/// A profile for one version of the game: arguments, libraries, downloads.
#[derive(Clone, Debug)]
pub struct Profile {
    pub arguments: Arguments,
    pub asset_index: Download,
    pub assets: String,
    pub compliance_level: i32,
    pub downloads: Downloads,
    pub id: String,
    pub java_version: JavaVersion,
    pub libraries: Vec<Library>,
    pub logging: Option<Logging>,
    pub main_class: String,
    pub minimum_launcher_version: i32,
    pub release_time: String,
    pub time: String,
    pub version_type: String,
}

} // verus!
