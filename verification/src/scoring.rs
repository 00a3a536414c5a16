use vstd::prelude::*;

use crate::config::Config;

verus! {

/// Seconds in one day; the recency window is given in whole days.
pub const SECONDS_PER_DAY: i64 = 86400;

/// A publish time counts as recent when it lies strictly after the moment
/// `max_days` whole days before `now`. All three values are UTC timestamps
/// or day counts; the subtraction is exact, with no overflow or clamping.
pub open spec fn recent_activity(last_publish_date: i64, max_days: i64, now: i64) -> bool {
    last_publish_date > now - max_days * SECONDS_PER_DAY
}

/// The download floor is met on either axis alone: weekly or monthly.
pub open spec fn sufficient_downloads(
    weekly_downloads: u64,
    monthly_downloads: u64,
    config: Config,
) -> bool {
    weekly_downloads >= config.min_weekly_downloads
        || monthly_downloads >= config.min_monthly_downloads
}

/// The classification of a package as alive: a recent publish is enough by
/// itself; without one, the download floor, the version floor and the
/// maintainer floor must all be met at once.
pub open spec fn package_alive(
    last_publish_date: i64,
    total_versions: usize,
    maintainers_count: usize,
    weekly_downloads: u64,
    monthly_downloads: u64,
    config: Config,
    now: i64,
) -> bool {
    recent_activity(last_publish_date, config.max_days, now) || (sufficient_downloads(
        weekly_downloads,
        monthly_downloads,
        config,
    ) && total_versions >= config.min_versions && maintainers_count >= config.min_maintainers)
}

/// Classifies a package as alive or inactive from a snapshot's raw counters
/// and the thresholds in force. Every operation is a pure function of its
/// arguments; the caller supplies the current time.
pub struct PackageScorer;

impl PackageScorer {
    pub fn new() -> (s: Self) {
        PackageScorer
    }

    /// True exactly when the publish time lies strictly inside the recency
    /// window ending at `now`.
    pub fn has_recent_activity(&self, last_publish_date: i64, max_days: i64, now: i64) -> (r:
        bool)
        ensures
            r == recent_activity(last_publish_date, max_days, now),
    {
        let md: i128 = max_days as i128;
        proof {
            assert((i64::MIN as i128) * 86400 <= md * 86400 <= (i64::MAX as i128) * 86400)
                by (nonlinear_arith)
                requires
                    i64::MIN as i128 <= md <= i64::MAX as i128,
            ;
        }
        let threshold: i128 = (now as i128) - md * (SECONDS_PER_DAY as i128);
        (last_publish_date as i128) > threshold
    }

    /// True exactly when the weekly or the monthly count clears its floor.
    pub fn has_sufficient_downloads(
        &self,
        weekly_downloads: u64,
        monthly_downloads: u64,
        config: &Config,
    ) -> (r: bool)
        ensures
            r == sufficient_downloads(weekly_downloads, monthly_downloads, *config),
    {
        weekly_downloads >= config.min_weekly_downloads
            || monthly_downloads >= config.min_monthly_downloads
    }

    /// The liveness verdict of the heuristic, exactly as `package_alive`
    /// states it.
    pub fn is_package_alive(
        &self,
        last_publish_date: i64,
        total_versions: usize,
        maintainers_count: usize,
        weekly_downloads: u64,
        monthly_downloads: u64,
        config: &Config,
        now: i64,
    ) -> (r: bool)
        ensures
            r == package_alive(
                last_publish_date,
                total_versions,
                maintainers_count,
                weekly_downloads,
                monthly_downloads,
                *config,
                now,
            ),
    {
        let has_recent = self.has_recent_activity(last_publish_date, config.max_days, now);
        let has_downloads = self.has_sufficient_downloads(
            weekly_downloads,
            monthly_downloads,
            config,
        );
        let has_versions = total_versions >= config.min_versions;
        let has_maintainers = maintainers_count >= config.min_maintainers;
        has_recent || (has_downloads && has_versions && has_maintainers)
    }
}

/// Recency is a sufficient signal on its own: whenever the publish time is
/// recent, the verdict is alive, whatever the counters hold.
pub proof fn lemma_alive_when_recent(
    last_publish_date: i64,
    total_versions: usize,
    maintainers_count: usize,
    weekly_downloads: u64,
    monthly_downloads: u64,
    config: Config,
    now: i64,
)
    requires
        recent_activity(last_publish_date, config.max_days, now),
    ensures
        package_alive(
            last_publish_date,
            total_versions,
            maintainers_count,
            weekly_downloads,
            monthly_downloads,
            config,
            now,
        ),
{
}

/// Absent recency, one unmet floor — downloads on both axes, versions, or
/// maintainers — already forces the verdict to inactive.
pub proof fn lemma_inactive_when_floor_unmet(
    last_publish_date: i64,
    total_versions: usize,
    maintainers_count: usize,
    weekly_downloads: u64,
    monthly_downloads: u64,
    config: Config,
    now: i64,
)
    requires
        !recent_activity(last_publish_date, config.max_days, now),
        !sufficient_downloads(weekly_downloads, monthly_downloads, config)
            || total_versions < config.min_versions
            || maintainers_count < config.min_maintainers,
    ensures
        !package_alive(
            last_publish_date,
            total_versions,
            maintainers_count,
            weekly_downloads,
            monthly_downloads,
            config,
            now,
        ),
{
}

} // verus!
