use vstd::prelude::*;

use crate::scoring::SECONDS_PER_DAY;
use crate::text::opt_string_eq;
use crate::text::opt_vec_string_eq;
use crate::text::str_eq;
use crate::types::PackageReport;

verus! {

/// The one failure of change detection: a field name outside the recognized
/// set.
#[derive(Clone, Copy, Debug, PartialEq, Eq, Structural)]
pub enum ChangeError {
    UnknownField,
}

/// The last snapshot known from an earlier run, as restored from the
/// history file.
#[derive(Clone, Debug)]
pub struct HistoryData {
    pub last_data: PackageReport,
}

/// The field names change detection recognizes.
pub open spec fn known_field(f: Seq<char>) -> bool {
    ||| f == "total_versions"@
    ||| f == "downloads_last_week"@
    ||| f == "downloads_last_month"@
    ||| f == "maintainers_count"@
    ||| f == "latest_version"@
    ||| f == "package_alive"@
    ||| f == "has_recent_activity"@
    ||| f == "last_publish_date"@
    ||| f == "name"@
    ||| f == "description"@
    ||| f == "homepage"@
    ||| f == "repository_url"@
    ||| f == "license"@
    ||| f == "keywords"@
}

/// Absolute difference of two counters.
pub open spec fn abs_diff(a: u64, b: u64) -> int {
    if a >= b {
        a - b
    } else {
        b - a
    }
}

/// Whole days between two timestamps given in seconds, in either direction.
pub open spec fn days_apart(a: i64, b: i64) -> int {
    (if b >= a {
        b - a
    } else {
        a - b
    }) / (SECONDS_PER_DAY as int)
}

/// The change magnitude of one recognized field between two snapshots.
/// Counters that can only grow clamp a decrease to zero; download counters
/// use the absolute difference; timestamps count whole days apart; every
/// other field collapses to one when changed and zero when not.
pub open spec fn change_magnitude(prev: PackageReport, cur: PackageReport, field: Seq<char>) -> int
    recommends
        known_field(field),
{
    if field == "total_versions"@ {
        if cur.total_versions > prev.total_versions {
            cur.total_versions - prev.total_versions
        } else {
            0
        }
    } else if field == "downloads_last_week"@ {
        abs_diff(prev.downloads_last_week, cur.downloads_last_week)
    } else if field == "downloads_last_month"@ {
        abs_diff(prev.downloads_last_month, cur.downloads_last_month)
    } else if field == "maintainers_count"@ {
        if cur.maintainers_count != prev.maintainers_count {
            1
        } else {
            0
        }
    } else if field == "latest_version"@ {
        if prev.latest_version@ != cur.latest_version@ {
            1
        } else {
            0
        }
    } else if field == "package_alive"@ {
        if prev.package_alive != cur.package_alive {
            1
        } else {
            0
        }
    } else if field == "has_recent_activity"@ {
        if prev.has_recent_activity != cur.has_recent_activity {
            1
        } else {
            0
        }
    } else if field == "last_publish_date"@ {
        days_apart(prev.last_publish_date, cur.last_publish_date)
    } else if field == "name"@ {
        if prev.name@ != cur.name@ {
            1
        } else {
            0
        }
    } else if field == "description"@ {
        if prev.description.deep_view() != cur.description.deep_view() {
            1
        } else {
            0
        }
    } else if field == "homepage"@ {
        if prev.homepage.deep_view() != cur.homepage.deep_view() {
            1
        } else {
            0
        }
    } else if field == "repository_url"@ {
        if prev.repository_url.deep_view() != cur.repository_url.deep_view() {
            1
        } else {
            0
        }
    } else if field == "license"@ {
        if prev.license.deep_view() != cur.license.deep_view() {
            1
        } else {
            0
        }
    } else if field == "keywords"@ {
        if prev.keywords.deep_view() != cur.keywords.deep_view() {
            1
        } else {
            0
        }
    } else {
        0
    }
}

/// Every recognized field yields a non-negative change magnitude; in
/// particular a shrinking version count reports zero rather than a negative
/// value.
pub proof fn lemma_change_nonnegative(prev: PackageReport, cur: PackageReport, field: Seq<char>)
    requires
        known_field(field),
    ensures
        change_magnitude(prev, cur, field) >= 0,
{
}

/// Version counts only grow for change purposes: when the current count does
/// not exceed the previous one, the magnitude is zero.
pub proof fn lemma_version_decrease_reports_zero(prev: PackageReport, cur: PackageReport)
    requires
        cur.total_versions <= prev.total_versions,
    ensures
        change_magnitude(prev, cur, "total_versions"@) == 0,
{
}

/// The maintainer count collapses to a binary signal: its magnitude is zero
/// or one however far apart the two counts lie.
pub proof fn lemma_maintainers_change_binary(prev: PackageReport, cur: PackageReport)
    ensures
        change_magnitude(prev, cur, "maintainers_count"@) == 0 || change_magnitude(
            prev,
            cur,
            "maintainers_count"@,
        ) == 1,
{
    reveal_strlit("total_versions");
    reveal_strlit("downloads_last_week");
    reveal_strlit("downloads_last_month");
    reveal_strlit("maintainers_count");
    assert("maintainers_count"@.len() == 17);
    assert("total_versions"@.len() == 14);
    assert("maintainers_count"@ != "total_versions"@);
    assert("maintainers_count"@ != "downloads_last_week"@);
    assert("maintainers_count"@ != "downloads_last_month"@);
}

/// Two snapshots that agree on every stored field, a faithfully restored
/// copy against its original among them, show a change magnitude of zero on
/// every recognized field.
pub proof fn lemma_no_change_between_matching(
    prev: PackageReport,
    cur: PackageReport,
    field: Seq<char>,
)
    requires
        known_field(field),
        reports_match(prev, cur),
    ensures
        change_magnitude(prev, cur, field) == 0,
{
}

/// Field-for-field agreement of two snapshots, compared by contents: the
/// relation a restored snapshot bears to the one that was persisted.
pub open spec fn reports_match(a: PackageReport, b: PackageReport) -> bool {
    &&& a.name@ == b.name@
    &&& a.latest_version@ == b.latest_version@
    &&& a.total_versions == b.total_versions
    &&& a.last_publish_date == b.last_publish_date
    &&& a.downloads_last_week == b.downloads_last_week
    &&& a.downloads_last_month == b.downloads_last_month
    &&& a.maintainers_count == b.maintainers_count
    &&& a.has_recent_activity == b.has_recent_activity
    &&& a.package_alive == b.package_alive
    &&& a.description.deep_view() == b.description.deep_view()
    &&& a.homepage.deep_view() == b.homepage.deep_view()
    &&& a.repository_url.deep_view() == b.repository_url.deep_view()
    &&& a.license.deep_view() == b.license.deep_view()
    &&& a.keywords.deep_view() == b.keywords.deep_view()
}

impl HistoryData {
    /// The change magnitude of the named field between the stored snapshot
    /// and the current one: exactly `change_magnitude` on every recognized
    /// field name, and `UnknownField` on every other.
    pub fn calculate_change(&self, current_report: &PackageReport, field_name: &str) -> (r: Result<
        u64,
        ChangeError,
    >)
        ensures
            known_field(field_name@) ==> (r matches Ok(v) && v as int == change_magnitude(
                self.last_data,
                *current_report,
                field_name@,
            )),
            !known_field(field_name@) ==> (r matches Err(e) && e == ChangeError::UnknownField),
    {
        let prev = &self.last_data;
        let cur = current_report;
        if str_eq(field_name, "total_versions") {
            let old_count = prev.total_versions;
            let new_count = cur.total_versions;
            Ok(
                if new_count > old_count {
                    (new_count - old_count) as u64
                } else {
                    0
                },
            )
        } else if str_eq(field_name, "downloads_last_week") {
            let old_downloads = prev.downloads_last_week;
            let new_downloads = cur.downloads_last_week;
            Ok(
                if new_downloads > old_downloads {
                    new_downloads - old_downloads
                } else if old_downloads > new_downloads {
                    old_downloads - new_downloads
                } else {
                    0
                },
            )
        } else if str_eq(field_name, "downloads_last_month") {
            let old_downloads = prev.downloads_last_month;
            let new_downloads = cur.downloads_last_month;
            Ok(
                if new_downloads > old_downloads {
                    new_downloads - old_downloads
                } else if old_downloads > new_downloads {
                    old_downloads - new_downloads
                } else {
                    0
                },
            )
        } else if str_eq(field_name, "maintainers_count") {
            Ok(
                if cur.maintainers_count != prev.maintainers_count {
                    1
                } else {
                    0
                },
            )
        } else if str_eq(field_name, "latest_version") {
            Ok(
                if str_eq(prev.latest_version.as_str(), cur.latest_version.as_str()) {
                    0
                } else {
                    1
                },
            )
        } else if str_eq(field_name, "package_alive") {
            Ok(
                if prev.package_alive != cur.package_alive {
                    1
                } else {
                    0
                },
            )
        } else if str_eq(field_name, "has_recent_activity") {
            Ok(
                if prev.has_recent_activity != cur.has_recent_activity {
                    1
                } else {
                    0
                },
            )
        } else if str_eq(field_name, "last_publish_date") {
            let a: i128 = prev.last_publish_date as i128;
            let b: i128 = cur.last_publish_date as i128;
            let gap: u128 = if b >= a {
                (b - a) as u128
            } else {
                (a - b) as u128
            };
            let days: u128 = gap / (SECONDS_PER_DAY as u128);
            proof {
                assert(gap / 86400 <= gap) by (nonlinear_arith)
                    requires
                        gap >= 0,
                ;
            }
            Ok(days as u64)
        } else if str_eq(field_name, "name") {
            Ok(
                if str_eq(prev.name.as_str(), cur.name.as_str()) {
                    0
                } else {
                    1
                },
            )
        } else if str_eq(field_name, "description") {
            Ok(
                if opt_string_eq(&prev.description, &cur.description) {
                    0
                } else {
                    1
                },
            )
        } else if str_eq(field_name, "homepage") {
            Ok(
                if opt_string_eq(&prev.homepage, &cur.homepage) {
                    0
                } else {
                    1
                },
            )
        } else if str_eq(field_name, "repository_url") {
            Ok(
                if opt_string_eq(&prev.repository_url, &cur.repository_url) {
                    0
                } else {
                    1
                },
            )
        } else if str_eq(field_name, "license") {
            Ok(
                if opt_string_eq(&prev.license, &cur.license) {
                    0
                } else {
                    1
                },
            )
        } else if str_eq(field_name, "keywords") {
            Ok(
                if opt_vec_string_eq(&prev.keywords, &cur.keywords) {
                    0
                } else {
                    1
                },
            )
        } else {
            Err(ChangeError::UnknownField)
        }
    }
}

} // verus!
