use vstd::prelude::*;

verus! {

/// Shape of the registry's raw `maintainers` field, as far as the
/// maintainer-count rule needs to see it: either a list with some number of
/// entries, or a value of any other shape. An absent field is represented by
/// `None` at the use site.
#[derive(Clone, Copy, Debug, PartialEq, Eq, Structural)]
pub enum MaintainersValue {
    /// The raw field was a list with the given number of entries.
    List(usize),
    /// The raw field was present but was not a list.
    Other,
}

/// Registry metadata for one package, reduced to the plain values the
/// classification logic reads. The surrounding program assembles this from
/// the registry's package-metadata response: `total_versions` is the number
/// of entries in the published-versions map, and `repository_url` is the
/// `url` entry of the raw repository value, when present.
#[derive(Clone, Debug, PartialEq)]
pub struct NpmPackageInfo {
    pub name: String,
    pub description: Option<String>,
    pub total_versions: usize,
    pub maintainers: Option<MaintainersValue>,
    pub keywords: Option<Vec<String>>,
    pub homepage: Option<String>,
    pub repository_url: Option<String>,
    pub license: Option<String>,
}

/// One point-in-time response of the download-statistics service.
#[derive(Clone, Debug, PartialEq)]
pub struct NpmDownloadStats {
    pub downloads: u64,
    pub start: String,
    pub end: String,
    pub package: String,
}

/// One fully populated, immutable record of a package's state at fetch time.
/// `last_publish_date` is a UTC timestamp in whole seconds since the epoch;
/// the surrounding program converts calendar dates to and from this form.
/// The two derived flags are always computed from the other fields together
/// with the thresholds in force, never set independently.
#[derive(Clone, Debug, PartialEq)]
pub struct PackageReport {
    pub name: String,
    pub latest_version: String,
    pub total_versions: usize,
    pub last_publish_date: i64,
    pub downloads_last_week: u64,
    pub downloads_last_month: u64,
    pub maintainers_count: usize,
    pub has_recent_activity: bool,
    pub package_alive: bool,
    pub description: Option<String>,
    pub homepage: Option<String>,
    pub repository_url: Option<String>,
    pub license: Option<String>,
    pub keywords: Option<Vec<String>>,
}

} // verus!
