//! The per-file decision pipeline.
//!
//! Processing one file alternates between metadata work that only the
//! surrounding program can perform (opening the container, reading and
//! writing tags, persisting, measuring distances) and decisions that are
//! fixed by the configured options. The decisions live here as a state
//! machine: each `Phase` names the piece of outside work to perform next,
//! and `advance` consumes that work's result as an `Event` and decides the
//! next phase. The driver starts at `Phase::Opening` and steps until it
//! reaches `Phase::Done`.

use vstd::prelude::*;

use crate::geo::{first_zone_match, is_inside_any_zone, PrivacyZone};
use crate::outcome::{ErrorKind, FileStatus};

verus! {

/// The configuration of one run, shared read-only across all files.
pub struct ProcessingOptions {
    /// Exclusion regions, in configured order; empty disables geofencing.
    pub privacy_zones: Vec<PrivacyZone>,
    /// Whether to rewrite the primary timestamp from the GPS date/time tags.
    pub use_gps_timestamps: bool,
    /// Directory whose entries are the candidate files.
    pub input_directory: String,
    /// Directory that failed files are moved into.
    pub failed_directory: String,
}

impl ProcessingOptions {
    /// A run with geofencing and timestamp correction both disabled has no
    /// recognized work.
    pub open spec fn spec_nothing_to_do(self) -> bool {
        !self.use_gps_timestamps && self.privacy_zones@.len() == 0
    }

    /// Whether this run requests no recognized work at all, in which case
    /// the program refuses to start.
    pub fn nothing_to_do(&self) -> (r: bool)
        ensures
            r == self.spec_nothing_to_do(),
    {
        !self.use_gps_timestamps && self.privacy_zones.len() == 0
    }
}

/// Where the pipeline stands for one file; every phase but `Done` names the
/// piece of outside work whose result the pipeline waits for.
pub enum Phase {
    /// Waiting for the file's metadata container to be opened.
    Opening,
    /// Waiting for the GPS date tag, read as a literal string.
    ReadingDate,
    /// Waiting for the GPS time tag, read in interpreted form.
    ReadingTime { date: String },
    /// Waiting for `value` to be written to the primary timestamp tag.
    WritingTimestamp { value: String },
    /// Waiting to learn whether the file carries GPS coordinates.
    ReadingCoordinates,
    /// Waiting for the distances from the file's coordinates to every
    /// configured zone center, rounded to millimeters.
    Measuring,
    /// Waiting for the metadata to be persisted back to the file.
    Persisting,
    /// The file's outcome is decided.
    Done { status: FileStatus },
}

/// The result of the piece of outside work a phase asked for.
pub enum Event {
    /// Whether the metadata container could be opened.
    Opened { ok: bool },
    /// The GPS date tag, or `None` when the tag is absent.
    GpsDate { value: Option<String> },
    /// The GPS time tag, or `None` when the tag is absent.
    GpsTime { value: Option<String> },
    /// Whether the timestamp tag write was accepted.
    TimestampWritten { ok: bool },
    /// Whether the file carries GPS coordinates.
    CoordinatesFound { found: bool },
    /// Distance from the file's coordinates to each configured zone's
    /// center, in configured order, rounded to millimeters.
    DistancesMeasured { distances_mm: Vec<u64> },
    /// Whether the metadata was persisted back to the file.
    Persisted { ok: bool },
}

/// The phase that decides the given failure.
pub open spec fn failed(kind: ErrorKind) -> Phase {
    Phase::Done { status: FileStatus::Failure(kind) }
}

/// After the geofence question is settled (or skipped), the file is
/// persisted.
pub open spec fn geofence_entry(opts: ProcessingOptions) -> Phase {
    if opts.privacy_zones@.len() > 0 {
        Phase::ReadingCoordinates
    } else {
        Phase::Persisting
    }
}

/// The phase after the metadata is open: timestamp correction first when
/// enabled, then the geofence check when zones are configured, else persist.
pub open spec fn post_open(opts: ProcessingOptions) -> Phase {
    if opts.use_gps_timestamps {
        Phase::ReadingDate
    } else {
        geofence_entry(opts)
    }
}

/// Whether `event` answers the piece of work that `phase` asked for. A
/// distance report must carry one distance per configured zone, and a
/// decided file takes no further event.
pub open spec fn event_fits(opts: ProcessingOptions, phase: Phase, event: Event) -> bool {
    match (phase, event) {
        (Phase::Opening, Event::Opened { .. }) => true,
        (Phase::ReadingDate, Event::GpsDate { .. }) => true,
        (Phase::ReadingTime { .. }, Event::GpsTime { .. }) => true,
        (Phase::WritingTimestamp { .. }, Event::TimestampWritten { .. }) => true,
        (Phase::ReadingCoordinates, Event::CoordinatesFound { .. }) => true,
        (Phase::Measuring, Event::DistancesMeasured { distances_mm }) => distances_mm@.len()
            == opts.privacy_zones@.len(),
        (Phase::Persisting, Event::Persisted { .. }) => true,
        _ => false,
    }
}

/// The transition relation of the pipeline: `r` is the phase that follows
/// `phase` once `event` has answered it, under the options `opts`.
pub open spec fn advance_spec(
    opts: ProcessingOptions,
    phase: Phase,
    event: Event,
    r: Phase,
) -> bool {
    match (phase, event) {
        (Phase::Opening, Event::Opened { ok }) => if ok {
            r == post_open(opts)
        } else {
            r == failed(ErrorKind::MetadataUnreadable)
        },
        (Phase::ReadingDate, Event::GpsDate { value }) => match value {
            Some(date) => r == (Phase::ReadingTime { date }),
            None => r == failed(ErrorKind::MissingGpsDate),
        },
        (Phase::ReadingTime { date }, Event::GpsTime { value }) => match value {
            Some(time) => r matches Phase::WritingTimestamp { value: v } && v@ == date@ + " "@
                + time@,
            None => r == failed(ErrorKind::MissingGpsTime),
        },
        (Phase::WritingTimestamp { .. }, Event::TimestampWritten { ok }) => if ok {
            r == geofence_entry(opts)
        } else {
            r == failed(ErrorKind::TimestampWriteFailed)
        },
        (Phase::ReadingCoordinates, Event::CoordinatesFound { found }) => if found {
            r == Phase::Measuring
        } else {
            r == failed(ErrorKind::MissingCoordinates)
        },
        (Phase::Measuring, Event::DistancesMeasured { distances_mm }) => match first_zone_match(
            opts.privacy_zones@,
            distances_mm@,
            0,
        ) {
            Some(name) => r matches Phase::Done {
                status: FileStatus::Failure(ErrorKind::InsidePrivacyZone { zone }),
            } && zone@ == name,
            None => r == Phase::Persisting,
        },
        (Phase::Persisting, Event::Persisted { ok }) => if ok {
            r == (Phase::Done { status: FileStatus::Success })
        } else {
            r == failed(ErrorKind::PersistFailed)
        },
        _ => false,
    }
}

/// The phase every file starts in: its metadata container must be opened.
pub fn initial_phase() -> (r: Phase)
    ensures
        r == Phase::Opening,
{
    Phase::Opening
}

/// The corrected capture timestamp: the GPS date and the GPS time joined by
/// a single space — 19 characters for a well-formed ten-character date and
/// eight-character time.
pub fn timestamp_value(date: &str, time: &str) -> (r: String)
    ensures
        r@ == date@ + " "@ + time@,
        r@.len() == date@.len() + 1 + time@.len(),
{
    let mut r = String::from_str(date);
    r.append(" ");
    r.append(time);
    proof {
        reveal_strlit(" ");
        assert(r@ =~= date@ + " "@ + time@);
    }
    r
}

/// One decision step of the pipeline: consumes the answer to the work the
/// current phase asked for and decides the next phase. The pipeline order
/// is fixed: open, then timestamp correction when enabled (date, time,
/// write), then the geofence check when zones are configured (coordinates,
/// distances), then persist. A zone match decides the file before the
/// persist step is ever reached, so the unpersisted in-memory changes are
/// discarded.
pub fn advance(opts: &ProcessingOptions, phase: Phase, event: Event) -> (r: Phase)
    requires
        event_fits(*opts, phase, event),
    ensures
        advance_spec(*opts, phase, event, r),
{
    match (phase, event) {
        (Phase::Opening, Event::Opened { ok }) => {
            if ok {
                if opts.use_gps_timestamps {
                    Phase::ReadingDate
                } else if opts.privacy_zones.len() > 0 {
                    Phase::ReadingCoordinates
                } else {
                    Phase::Persisting
                }
            } else {
                Phase::Done { status: FileStatus::Failure(ErrorKind::MetadataUnreadable) }
            }
        },
        (Phase::ReadingDate, Event::GpsDate { value }) => {
            match value {
                Some(date) => Phase::ReadingTime { date },
                None => Phase::Done { status: FileStatus::Failure(ErrorKind::MissingGpsDate) },
            }
        },
        (Phase::ReadingTime { date }, Event::GpsTime { value }) => {
            match value {
                Some(time) => Phase::WritingTimestamp {
                    value: timestamp_value(date.as_str(), time.as_str()),
                },
                None => Phase::Done { status: FileStatus::Failure(ErrorKind::MissingGpsTime) },
            }
        },
        (Phase::WritingTimestamp { .. }, Event::TimestampWritten { ok }) => {
            if ok {
                if opts.privacy_zones.len() > 0 {
                    Phase::ReadingCoordinates
                } else {
                    Phase::Persisting
                }
            } else {
                Phase::Done { status: FileStatus::Failure(ErrorKind::TimestampWriteFailed) }
            }
        },
        (Phase::ReadingCoordinates, Event::CoordinatesFound { found }) => {
            if found {
                Phase::Measuring
            } else {
                Phase::Done { status: FileStatus::Failure(ErrorKind::MissingCoordinates) }
            }
        },
        (Phase::Measuring, Event::DistancesMeasured { distances_mm }) => {
            match is_inside_any_zone(&opts.privacy_zones, &distances_mm) {
                Some(zone) => Phase::Done {
                    status: FileStatus::Failure(ErrorKind::InsidePrivacyZone { zone }),
                },
                None => Phase::Persisting,
            }
        },
        (Phase::Persisting, Event::Persisted { ok }) => {
            if ok {
                Phase::Done { status: FileStatus::Success }
            } else {
                Phase::Done { status: FileStatus::Failure(ErrorKind::PersistFailed) }
            }
        },
        _ => vstd::pervasive::unreached(),
    }
}

/// With no zones configured the pipeline never asks for coordinates or
/// distances: no transition from a phase outside the geofence check leads
/// into it. Since every file starts at `Phase::Opening`, no run of a
/// zone-free configuration ever requests coordinates.
pub proof fn lemma_no_zones_no_coordinate_request(
    opts: ProcessingOptions,
    phase: Phase,
    event: Event,
    r: Phase,
)
    requires
        opts.privacy_zones@.len() == 0,
        !(phase is ReadingCoordinates),
        !(phase is Measuring),
        advance_spec(opts, phase, event, r),
    ensures
        !(r is ReadingCoordinates),
        !(r is Measuring),
{
}

} // verus!
