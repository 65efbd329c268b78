use photofence::geo::{Coordinate, PrivacyZone};
use photofence::outcome::{ErrorKind, FileStatus};
use photofence::pipeline::{advance, initial_phase, timestamp_value, Event, Phase, ProcessingOptions};

fn options(zones: Vec<PrivacyZone>, use_gps_timestamps: bool) -> ProcessingOptions {
    ProcessingOptions {
        privacy_zones: zones,
        use_gps_timestamps,
        input_directory: "input".to_string(),
        failed_directory: "failed".to_string(),
    }
}

fn home_zone() -> PrivacyZone {
    PrivacyZone {
        name: "home".to_string(),
        center: Coordinate {
            lat_udeg: 51_500_000,
            lon_udeg: -100_000,
        },
        radius_mm: 100_000_000,
    }
}

#[test]
fn timestamp_concatenation_is_exact() {
    let written = timestamp_value("2023:05:01", "12:30:00");
    assert_eq!(written, "2023:05:01 12:30:00");
    assert_eq!(written.len(), 19);
}

#[test]
fn nothing_to_do_only_when_both_features_disabled() {
    assert!(options(Vec::new(), false).nothing_to_do());
    assert!(!options(Vec::new(), true).nothing_to_do());
    assert!(!options(vec![home_zone()], false).nothing_to_do());
    assert!(!options(vec![home_zone()], true).nothing_to_do());
}

#[test]
fn well_formed_file_without_geofencing_succeeds() {
    // GPS date and time present, geofencing disabled: the corrected
    // timestamp is written and the file is persisted.
    let opts = options(Vec::new(), true);
    let phase = initial_phase();
    let phase = advance(&opts, phase, Event::Opened { ok: true });
    assert!(matches!(phase, Phase::ReadingDate));
    let phase = advance(
        &opts,
        phase,
        Event::GpsDate {
            value: Some("2023:05:01".to_string()),
        },
    );
    assert!(matches!(phase, Phase::ReadingTime { ref date } if date == "2023:05:01"));
    let phase = advance(
        &opts,
        phase,
        Event::GpsTime {
            value: Some("12:30:00".to_string()),
        },
    );
    match &phase {
        Phase::WritingTimestamp { value } => assert_eq!(value, "2023:05:01 12:30:00"),
        _ => panic!("expected a timestamp write"),
    }
    let phase = advance(&opts, phase, Event::TimestampWritten { ok: true });
    // With no zones configured the pipeline goes straight to persisting:
    // coordinates are never requested.
    assert!(matches!(phase, Phase::Persisting));
    let phase = advance(&opts, phase, Event::Persisted { ok: true });
    assert!(matches!(
        phase,
        Phase::Done {
            status: FileStatus::Success
        }
    ));
}

#[test]
fn coordinates_inside_a_zone_reject_the_file_before_persisting() {
    let opts = options(vec![home_zone()], false);
    let phase = advance(&opts, initial_phase(), Event::Opened { ok: true });
    assert!(matches!(phase, Phase::ReadingCoordinates));
    let phase = advance(&opts, phase, Event::CoordinatesFound { found: true });
    assert!(matches!(phase, Phase::Measuring));
    // 12.3 m from the zone center, well inside the radius: the file is
    // decided without ever reaching the persist step.
    let phase = advance(
        &opts,
        phase,
        Event::DistancesMeasured {
            distances_mm: vec![12_300],
        },
    );
    match phase {
        Phase::Done {
            status: FileStatus::Failure(ErrorKind::InsidePrivacyZone { zone }),
        } => assert_eq!(zone, "home"),
        _ => panic!("expected a privacy-zone rejection"),
    }
}

#[test]
fn coordinates_outside_every_zone_continue_to_persist() {
    let opts = options(vec![home_zone()], false);
    let phase = advance(&opts, initial_phase(), Event::Opened { ok: true });
    let phase = advance(&opts, phase, Event::CoordinatesFound { found: true });
    let phase = advance(
        &opts,
        phase,
        Event::DistancesMeasured {
            distances_mm: vec![100_000_001],
        },
    );
    assert!(matches!(phase, Phase::Persisting));
}

#[test]
fn missing_gps_date_fails_before_any_write() {
    let opts = options(Vec::new(), true);
    let phase = advance(&opts, initial_phase(), Event::Opened { ok: true });
    assert!(matches!(phase, Phase::ReadingDate));
    // The date tag is absent: the file is decided at once, so no tag write
    // and no persist is ever requested.
    let phase = advance(&opts, phase, Event::GpsDate { value: None });
    assert!(matches!(
        phase,
        Phase::Done {
            status: FileStatus::Failure(ErrorKind::MissingGpsDate)
        }
    ));
}

#[test]
fn missing_gps_time_fails_before_any_write() {
    let opts = options(Vec::new(), true);
    let phase = advance(&opts, initial_phase(), Event::Opened { ok: true });
    let phase = advance(
        &opts,
        phase,
        Event::GpsDate {
            value: Some("2023:05:01".to_string()),
        },
    );
    let phase = advance(&opts, phase, Event::GpsTime { value: None });
    assert!(matches!(
        phase,
        Phase::Done {
            status: FileStatus::Failure(ErrorKind::MissingGpsTime)
        }
    ));
}

#[test]
fn unreadable_metadata_fails_immediately() {
    let opts = options(vec![home_zone()], true);
    let phase = advance(&opts, initial_phase(), Event::Opened { ok: false });
    assert!(matches!(
        phase,
        Phase::Done {
            status: FileStatus::Failure(ErrorKind::MetadataUnreadable)
        }
    ));
}

#[test]
fn rejected_timestamp_write_fails_the_file() {
    let opts = options(Vec::new(), true);
    let phase = advance(&opts, initial_phase(), Event::Opened { ok: true });
    let phase = advance(
        &opts,
        phase,
        Event::GpsDate {
            value: Some("2023:05:01".to_string()),
        },
    );
    let phase = advance(
        &opts,
        phase,
        Event::GpsTime {
            value: Some("12:30:00".to_string()),
        },
    );
    let phase = advance(&opts, phase, Event::TimestampWritten { ok: false });
    assert!(matches!(
        phase,
        Phase::Done {
            status: FileStatus::Failure(ErrorKind::TimestampWriteFailed)
        }
    ));
}

#[test]
fn missing_coordinates_fail_when_geofencing_is_enabled() {
    let opts = options(vec![home_zone()], false);
    let phase = advance(&opts, initial_phase(), Event::Opened { ok: true });
    let phase = advance(&opts, phase, Event::CoordinatesFound { found: false });
    assert!(matches!(
        phase,
        Phase::Done {
            status: FileStatus::Failure(ErrorKind::MissingCoordinates)
        }
    ));
}

#[test]
fn failed_persist_fails_the_file() {
    let opts = options(Vec::new(), true);
    let phase = advance(&opts, initial_phase(), Event::Opened { ok: true });
    let phase = advance(
        &opts,
        phase,
        Event::GpsDate {
            value: Some("2023:05:01".to_string()),
        },
    );
    let phase = advance(
        &opts,
        phase,
        Event::GpsTime {
            value: Some("12:30:00".to_string()),
        },
    );
    let phase = advance(&opts, phase, Event::TimestampWritten { ok: true });
    let phase = advance(&opts, phase, Event::Persisted { ok: false });
    assert!(matches!(
        phase,
        Phase::Done {
            status: FileStatus::Failure(ErrorKind::PersistFailed)
        }
    ));
}

#[test]
fn geofencing_alone_skips_timestamp_steps() {
    // Timestamp correction disabled: after opening, the pipeline asks for
    // coordinates at once, never for the GPS date or time tags.
    let opts = options(vec![home_zone()], false);
    let phase = advance(&opts, initial_phase(), Event::Opened { ok: true });
    assert!(matches!(phase, Phase::ReadingCoordinates));
}
