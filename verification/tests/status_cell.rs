use solar_grabber::{Reading, StatusCell, VersionInfo};

#[test]
fn cell_is_empty_before_the_first_reading() {
    let cell = StatusCell::new();
    assert_eq!(cell.read(), None);
}

#[test]
fn cell_returns_exactly_what_was_published_last() {
    let mut cell = StatusCell::new();
    let first = Reading::new(245_300, 950, 1_000);
    cell.publish(first);
    assert_eq!(cell.read(), Some(first));
    assert_eq!(cell.read(), Some(first));
    let second = Reading::new(0, 960, 1_300);
    cell.publish(second);
    assert_eq!(cell.read(), Some(second));
}

#[test]
fn reading_holds_what_it_was_made_of() {
    let reading = Reading::new(245_300, 950, 1_000);
    assert_eq!(reading.current_power_mw, 245_300);
    assert_eq!(reading.total_energy_wh, 950);
    assert_eq!(reading.observed_at, 1_000);
    assert_eq!(reading.total_energy_wh as f64 / 1000.0, 0.95);
}

#[test]
fn version_info_abbreviates_the_git_sha() {
    let info = VersionInfo::new(
        "0.3.1",
        "2023-01-15T10:00:00.000000000Z",
        "0123456789abcdef0123456789abcdef01234567",
        "2023-01-14T09:00:00.000000000Z",
    );
    assert_eq!(info.version, "0.3.1");
    assert_eq!(info.timestamp, "2023-01-15T10:00:00.000000000Z");
    assert_eq!(info.git_sha, "0123456");
    assert_eq!(info.git_timestamp, "2023-01-14T09:00:00.000000000Z");
}

#[test]
fn version_info_keeps_a_git_sha_of_seven_characters() {
    let info = VersionInfo::new("1.0.0", "", "abcdef0", "");
    assert_eq!(info.git_sha, "abcdef0");
}
