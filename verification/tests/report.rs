use npm_activity_check::config::Config;
use npm_activity_check::report::FieldValue;
use npm_activity_check::report::create_package_report;
use npm_activity_check::report::get_field_value;
use npm_activity_check::report::maintainers_count;
use npm_activity_check::scoring::SECONDS_PER_DAY;
use npm_activity_check::types::MaintainersValue;
use npm_activity_check::types::NpmDownloadStats;
use npm_activity_check::types::NpmPackageInfo;

const NOW: i64 = 1_700_000_000;

fn thresholds() -> Config {
    Config {
        package: "express".to_string(),
        format: None,
        config_file: None,
        history: None,
        check: None,
        max_days: 90,
        min_weekly_downloads: 1000,
        min_monthly_downloads: 5000,
        min_versions: 10,
        min_maintainers: 1,
        verbose: false,
    }
}

fn info() -> NpmPackageInfo {
    NpmPackageInfo {
        name: "express".to_string(),
        description: Some("web framework".to_string()),
        total_versions: 15,
        maintainers: Some(MaintainersValue::List(2)),
        keywords: Some(vec!["http".to_string(), "web".to_string()]),
        homepage: Some("https://example.test".to_string()),
        repository_url: Some("https://example.test/repo.git".to_string()),
        license: Some("MIT".to_string()),
    }
}

#[test]
fn maintainers_count_follows_the_derivation_rule() {
    assert_eq!(maintainers_count(&None), 0);
    assert_eq!(maintainers_count(&Some(MaintainersValue::Other)), 1);
    assert_eq!(maintainers_count(&Some(MaintainersValue::List(0))), 0);
    assert_eq!(maintainers_count(&Some(MaintainersValue::List(7))), 7);
}

#[test]
fn report_copies_fields_and_computes_flags() {
    let config = thresholds();
    let published = NOW - 200 * SECONDS_PER_DAY;
    let report = create_package_report(&config, &info(), "4.18.2", published, 1200, 4000, NOW);
    assert_eq!(report.name, "express");
    assert_eq!(report.latest_version, "4.18.2");
    assert_eq!(report.total_versions, 15);
    assert_eq!(report.last_publish_date, published);
    assert_eq!(report.downloads_last_week, 1200);
    assert_eq!(report.downloads_last_month, 4000);
    assert_eq!(report.maintainers_count, 2);
    // 200 days old: not recent, but weekly downloads clear the floor.
    assert!(!report.has_recent_activity);
    assert!(report.package_alive);
    assert_eq!(report.description, Some("web framework".to_string()));
    assert_eq!(report.keywords, Some(vec!["http".to_string(), "web".to_string()]));
}

#[test]
fn report_flags_turn_with_the_inputs() {
    let config = thresholds();
    let fresh = create_package_report(&config, &info(), "4.18.2", NOW - SECONDS_PER_DAY, 0, 0, NOW);
    assert!(fresh.has_recent_activity);
    assert!(fresh.package_alive);
    let stale = create_package_report(
        &config,
        &info(),
        "4.18.2",
        NOW - 200 * SECONDS_PER_DAY,
        500,
        4000,
        NOW,
    );
    assert!(!stale.has_recent_activity);
    assert!(!stale.package_alive);
}

#[test]
fn field_projection_returns_each_kind() {
    let config = thresholds();
    let published = NOW - 200 * SECONDS_PER_DAY;
    let report = create_package_report(&config, &info(), "4.18.2", published, 1200, 4000, NOW);
    assert_eq!(
        get_field_value(&report, "name"),
        Some(FieldValue::Text("express".to_string()))
    );
    assert_eq!(
        get_field_value(&report, "latest_version"),
        Some(FieldValue::Text("4.18.2".to_string()))
    );
    assert_eq!(get_field_value(&report, "total_versions"), Some(FieldValue::Count(15)));
    assert_eq!(
        get_field_value(&report, "last_publish_date"),
        Some(FieldValue::Timestamp(published))
    );
    assert_eq!(get_field_value(&report, "downloads_last_week"), Some(FieldValue::Count(1200)));
    assert_eq!(get_field_value(&report, "downloads_last_month"), Some(FieldValue::Count(4000)));
    assert_eq!(get_field_value(&report, "maintainers_count"), Some(FieldValue::Count(2)));
    assert_eq!(get_field_value(&report, "has_recent_activity"), Some(FieldValue::Flag(false)));
    assert_eq!(get_field_value(&report, "package_alive"), Some(FieldValue::Flag(true)));
    assert_eq!(
        get_field_value(&report, "description"),
        Some(FieldValue::OptionalText(Some("web framework".to_string())))
    );
    assert_eq!(
        get_field_value(&report, "license"),
        Some(FieldValue::OptionalText(Some("MIT".to_string())))
    );
    assert_eq!(
        get_field_value(&report, "keywords"),
        Some(FieldValue::TextList(Some(vec!["http".to_string(), "web".to_string()])))
    );
    assert_eq!(get_field_value(&report, "not_a_field"), None);
}

#[test]
fn download_stats_hold_plain_values() {
    let stats = NpmDownloadStats {
        downloads: 1200,
        start: "2024-01-01".to_string(),
        end: "2024-01-07".to_string(),
        package: "express".to_string(),
    };
    assert_eq!(stats.downloads, 1200);
    assert_eq!(stats.package, "express");
}
