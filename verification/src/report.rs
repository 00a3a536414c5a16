use vstd::prelude::*;

use crate::config::Config;
use crate::history::known_field;
use crate::scoring::PackageScorer;
use crate::scoring::package_alive;
use crate::scoring::recent_activity;
use crate::text::str_eq;
use crate::types::MaintainersValue;
use crate::types::NpmPackageInfo;
use crate::types::PackageReport;

verus! {

/// A single field of a snapshot, projected out for single-field output.
/// Timestamps stay in seconds; the surrounding program renders them.
#[derive(Clone, Debug, PartialEq)]
pub enum FieldValue {
    Text(String),
    Count(u64),
    Flag(bool),
    Timestamp(i64),
    OptionalText(Option<String>),
    TextList(Option<Vec<String>>),
}

/// The maintainer count a raw registry field yields: the length of a list,
/// one for any other present value, zero for an absent field.
pub open spec fn maintainers_count_spec(m: Option<MaintainersValue>) -> usize {
    match m {
        None => 0,
        Some(MaintainersValue::Other) => 1,
        Some(MaintainersValue::List(n)) => n,
    }
}

/// Derives the maintainer count from the registry's raw maintainers field.
pub fn maintainers_count(maintainers: &Option<MaintainersValue>) -> (r: usize)
    ensures
        r == maintainers_count_spec(*maintainers),
{
    match maintainers {
        None => 0,
        Some(MaintainersValue::Other) => 1,
        Some(MaintainersValue::List(n)) => *n,
    }
}

fn clone_string(s: &String) -> (r: String)
    ensures
        r@ == s@,
{
    s.clone()
}

fn clone_opt_string(s: &Option<String>) -> (r: Option<String>)
    ensures
        r.deep_view() == s.deep_view(),
{
    match s {
        None => None,
        Some(x) => Some(x.clone()),
    }
}

fn clone_vec_string(v: &Vec<String>) -> (r: Vec<String>)
    ensures
        r.deep_view() == v.deep_view(),
{
    let n = v.len();
    let mut out: Vec<String> = Vec::new();
    let mut i: usize = 0;
    while i < n
        invariant
            i <= n,
            n == v@.len(),
            out@.len() == i,
            v.deep_view().len() == n,
            out.deep_view().len() == i,
            forall|j: int| 0 <= j < i ==> out.deep_view()[j] == v.deep_view()[j],
        decreases n - i,
    {
        out.push(v[i].clone());
        i += 1;
    }
    proof {
        assert(out.deep_view() =~= v.deep_view());
    }
    out
}

fn clone_opt_vec_string(v: &Option<Vec<String>>) -> (r: Option<Vec<String>>)
    ensures
        r.deep_view() == v.deep_view(),
{
    match v {
        None => None,
        Some(x) => Some(clone_vec_string(x)),
    }
}

/// Assembles the snapshot of one run from the fetched metadata, the download
/// counters, and the moment of the run. The two derived flags are computed
/// here, from the other fields and the thresholds in force, and from nothing
/// else.
pub fn create_package_report(
    config: &Config,
    package_info: &NpmPackageInfo,
    latest_version: &str,
    last_publish_date: i64,
    weekly_downloads: u64,
    monthly_downloads: u64,
    now: i64,
) -> (r: PackageReport)
    ensures
        r.name@ == package_info.name@,
        r.latest_version@ == latest_version@,
        r.total_versions == package_info.total_versions,
        r.last_publish_date == last_publish_date,
        r.downloads_last_week == weekly_downloads,
        r.downloads_last_month == monthly_downloads,
        r.maintainers_count == maintainers_count_spec(package_info.maintainers),
        r.has_recent_activity == recent_activity(last_publish_date, config.max_days, now),
        r.package_alive == package_alive(
            last_publish_date,
            package_info.total_versions,
            maintainers_count_spec(package_info.maintainers),
            weekly_downloads,
            monthly_downloads,
            *config,
            now,
        ),
        r.description.deep_view() == package_info.description.deep_view(),
        r.homepage.deep_view() == package_info.homepage.deep_view(),
        r.repository_url.deep_view() == package_info.repository_url.deep_view(),
        r.license.deep_view() == package_info.license.deep_view(),
        r.keywords.deep_view() == package_info.keywords.deep_view(),
{
    let total_versions = package_info.total_versions;
    let maintainers = maintainers_count(&package_info.maintainers);
    let scorer = PackageScorer::new();
    let has_recent_activity = scorer.has_recent_activity(last_publish_date, config.max_days, now);
    let is_alive = scorer.is_package_alive(
        last_publish_date,
        total_versions,
        maintainers,
        weekly_downloads,
        monthly_downloads,
        config,
        now,
    );
    PackageReport {
        name: clone_string(&package_info.name),
        latest_version: latest_version.to_owned(),
        total_versions,
        last_publish_date,
        downloads_last_week: weekly_downloads,
        downloads_last_month: monthly_downloads,
        maintainers_count: maintainers,
        has_recent_activity,
        package_alive: is_alive,
        description: clone_opt_string(&package_info.description),
        homepage: clone_opt_string(&package_info.homepage),
        repository_url: clone_opt_string(&package_info.repository_url),
        license: clone_opt_string(&package_info.license),
        keywords: clone_opt_vec_string(&package_info.keywords),
    }
}

/// Projects the named field out of a snapshot, or `None` for a field name
/// outside the recognized set; the recognized names are exactly those of
/// change detection.
pub fn get_field_value(report: &PackageReport, field_name: &str) -> (r: Option<FieldValue>)
    ensures
        r is Some <==> known_field(field_name@),
        field_name@ == "name"@ ==> (r matches Some(FieldValue::Text(s)) && s@ == report.name@),
        field_name@ == "latest_version"@ ==> (r matches Some(FieldValue::Text(s)) && s@
            == report.latest_version@),
        field_name@ == "total_versions"@ ==> (r matches Some(FieldValue::Count(n)) && n as int
            == report.total_versions as int),
        field_name@ == "last_publish_date"@ ==> (r matches Some(FieldValue::Timestamp(t)) && t
            == report.last_publish_date),
        field_name@ == "downloads_last_week"@ ==> (r matches Some(FieldValue::Count(n)) && n
            == report.downloads_last_week),
        field_name@ == "downloads_last_month"@ ==> (r matches Some(FieldValue::Count(n)) && n
            == report.downloads_last_month),
        field_name@ == "maintainers_count"@ ==> (r matches Some(FieldValue::Count(n)) && n as int
            == report.maintainers_count as int),
        field_name@ == "has_recent_activity"@ ==> (r matches Some(FieldValue::Flag(b)) && b
            == report.has_recent_activity),
        field_name@ == "package_alive"@ ==> (r matches Some(FieldValue::Flag(b)) && b
            == report.package_alive),
        field_name@ == "description"@ ==> (r matches Some(FieldValue::OptionalText(o))
            && o.deep_view() == report.description.deep_view()),
        field_name@ == "homepage"@ ==> (r matches Some(FieldValue::OptionalText(o))
            && o.deep_view() == report.homepage.deep_view()),
        field_name@ == "repository_url"@ ==> (r matches Some(FieldValue::OptionalText(o))
            && o.deep_view() == report.repository_url.deep_view()),
        field_name@ == "license"@ ==> (r matches Some(FieldValue::OptionalText(o))
            && o.deep_view() == report.license.deep_view()),
        field_name@ == "keywords"@ ==> (r matches Some(FieldValue::TextList(k)) && k.deep_view()
            == report.keywords.deep_view()),
{
    proof {
        reveal_strlit("name");
        reveal_strlit("latest_version");
        reveal_strlit("total_versions");
        reveal_strlit("last_publish_date");
        reveal_strlit("downloads_last_week");
        reveal_strlit("downloads_last_month");
        reveal_strlit("maintainers_count");
        reveal_strlit("has_recent_activity");
        reveal_strlit("package_alive");
        reveal_strlit("description");
        reveal_strlit("homepage");
        reveal_strlit("repository_url");
        reveal_strlit("license");
        reveal_strlit("keywords");
        assert("name"@.len() == 4 && "latest_version"@.len() == 14 && "total_versions"@.len()
            == 14 && "last_publish_date"@.len() == 17 && "downloads_last_week"@.len() == 19
            && "downloads_last_month"@.len() == 20 && "maintainers_count"@.len() == 17
            && "has_recent_activity"@.len() == 19 && "package_alive"@.len() == 13
            && "description"@.len() == 11 && "homepage"@.len() == 8 && "repository_url"@.len()
            == 14 && "license"@.len() == 7 && "keywords"@.len() == 8);
        assert("latest_version"@[0] == 'l' && "total_versions"@[0] == 't'
            && "repository_url"@[0] == 'r' && "last_publish_date"@[0] == 'l'
            && "maintainers_count"@[0] == 'm' && "downloads_last_week"@[0] == 'd'
            && "has_recent_activity"@[0] == 'h' && "homepage"@[0] == 'h' && "keywords"@[0]
            == 'k');
        assert("latest_version"@ != "total_versions"@);
        assert("latest_version"@ != "repository_url"@);
        assert("total_versions"@ != "repository_url"@);
        assert("last_publish_date"@ != "maintainers_count"@);
        assert("downloads_last_week"@ != "has_recent_activity"@);
        assert("homepage"@ != "keywords"@);
    }
    if str_eq(field_name, "name") {
        Some(FieldValue::Text(clone_string(&report.name)))
    } else if str_eq(field_name, "latest_version") {
        Some(FieldValue::Text(clone_string(&report.latest_version)))
    } else if str_eq(field_name, "total_versions") {
        Some(FieldValue::Count(report.total_versions as u64))
    } else if str_eq(field_name, "last_publish_date") {
        Some(FieldValue::Timestamp(report.last_publish_date))
    } else if str_eq(field_name, "downloads_last_week") {
        Some(FieldValue::Count(report.downloads_last_week))
    } else if str_eq(field_name, "downloads_last_month") {
        Some(FieldValue::Count(report.downloads_last_month))
    } else if str_eq(field_name, "maintainers_count") {
        Some(FieldValue::Count(report.maintainers_count as u64))
    } else if str_eq(field_name, "has_recent_activity") {
        Some(FieldValue::Flag(report.has_recent_activity))
    } else if str_eq(field_name, "package_alive") {
        Some(FieldValue::Flag(report.package_alive))
    } else if str_eq(field_name, "description") {
        Some(FieldValue::OptionalText(clone_opt_string(&report.description)))
    } else if str_eq(field_name, "homepage") {
        Some(FieldValue::OptionalText(clone_opt_string(&report.homepage)))
    } else if str_eq(field_name, "repository_url") {
        Some(FieldValue::OptionalText(clone_opt_string(&report.repository_url)))
    } else if str_eq(field_name, "license") {
        Some(FieldValue::OptionalText(clone_opt_string(&report.license)))
    } else if str_eq(field_name, "keywords") {
        Some(FieldValue::TextList(clone_opt_vec_string(&report.keywords)))
    } else {
        None
    }
}

} // verus!
