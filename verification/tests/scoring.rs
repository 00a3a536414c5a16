use npm_activity_check::config::Config;
use npm_activity_check::scoring::PackageScorer;
use npm_activity_check::scoring::SECONDS_PER_DAY;

fn thresholds(package: &str) -> Config {
    Config {
        package: package.to_string(),
        format: None,
        config_file: None,
        history: None,
        check: None,
        max_days: 90,
        min_weekly_downloads: 1000,
        min_monthly_downloads: 5000,
        min_versions: 10,
        min_maintainers: 1,
        verbose: false,
    }
}

const NOW: i64 = 1_700_000_000;

fn days_ago(days: i64) -> i64 {
    NOW - days * SECONDS_PER_DAY
}

#[test]
fn recent_activity_strictly_inside_window() {
    let scorer = PackageScorer::new();
    assert!(scorer.has_recent_activity(days_ago(30), 90, NOW));
    assert!(scorer.has_recent_activity(days_ago(89), 90, NOW));
    // One second inside the window still counts.
    assert!(scorer.has_recent_activity(days_ago(90) + 1, 90, NOW));
}

#[test]
fn recent_activity_false_at_and_beyond_threshold() {
    let scorer = PackageScorer::new();
    // The comparison is strict: exactly at the window edge is not recent.
    assert!(!scorer.has_recent_activity(days_ago(90), 90, NOW));
    assert!(!scorer.has_recent_activity(days_ago(91), 90, NOW));
    assert!(!scorer.has_recent_activity(days_ago(2000), 90, NOW));
}

#[test]
fn downloads_qualify_on_either_axis() {
    let scorer = PackageScorer::new();
    let config = thresholds("demo");
    assert!(scorer.has_sufficient_downloads(1000, 0, &config));
    assert!(scorer.has_sufficient_downloads(0, 5000, &config));
    assert!(scorer.has_sufficient_downloads(1200, 4000, &config));
    assert!(!scorer.has_sufficient_downloads(999, 4999, &config));
}

#[test]
fn recency_alone_makes_a_package_alive() {
    let scorer = PackageScorer::new();
    let config = thresholds("demo");
    // Published yesterday, zero downloads, two versions, no maintainers.
    assert!(scorer.is_package_alive(days_ago(1), 2, 0, 0, 0, &config, NOW));
}

#[test]
fn one_unmet_floor_without_recency_means_inactive() {
    let scorer = PackageScorer::new();
    let config = thresholds("demo");
    let old = days_ago(400);
    // Massive downloads but too few versions.
    assert!(!scorer.is_package_alive(old, 2, 5, 1_000_000, 9_000_000, &config, NOW));
    // Everything fine except the maintainer floor.
    assert!(!scorer.is_package_alive(old, 50, 0, 1_000_000, 9_000_000, &config, NOW));
    // Everything fine except both download axes.
    assert!(!scorer.is_package_alive(old, 50, 5, 999, 4999, &config, NOW));
}

#[test]
fn scenario_weekly_floor_cleared_without_recency() {
    let scorer = PackageScorer::new();
    let config = thresholds("demo");
    let published = days_ago(200);
    assert!(!scorer.has_recent_activity(published, config.max_days, NOW));
    assert!(scorer.has_sufficient_downloads(1200, 4000, &config));
    assert!(scorer.is_package_alive(published, 15, 2, 1200, 4000, &config, NOW));
}

#[test]
fn scenario_downloads_insufficient_on_both_axes() {
    let scorer = PackageScorer::new();
    let config = thresholds("demo");
    let published = days_ago(200);
    assert!(!scorer.is_package_alive(published, 15, 2, 500, 4000, &config, NOW));
}

#[test]
fn zero_day_window_leaves_only_future_publishes_recent() {
    let scorer = PackageScorer::new();
    assert!(!scorer.has_recent_activity(NOW, 0, NOW));
    assert!(scorer.has_recent_activity(NOW + 1, 0, NOW));
}

#[test]
fn extreme_windows_neither_overflow_nor_misclassify() {
    let scorer = PackageScorer::new();
    // A window reaching back past the origin of time admits everything.
    assert!(scorer.has_recent_activity(i64::MIN, i64::MAX, NOW));
    // A negative window pushes the threshold into the future.
    assert!(!scorer.has_recent_activity(NOW, -1, NOW));
    assert!(scorer.has_recent_activity(NOW + SECONDS_PER_DAY + 1, -1, NOW));
}
