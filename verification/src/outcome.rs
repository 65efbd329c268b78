//! The per-file error taxonomy and the tagged per-file outcome.

use vstd::prelude::*;

verus! {

/// Why processing of one file failed. Each variant is caught at the file
/// boundary; none aborts the batch.
pub enum ErrorKind {
    /// The file is not a readable or recognized image container.
    MetadataUnreadable,
    /// The GPS date tag is absent while timestamp correction is enabled.
    MissingGpsDate,
    /// The GPS time tag is absent while timestamp correction is enabled.
    MissingGpsTime,
    /// The in-memory write of the corrected timestamp tag was rejected.
    TimestampWriteFailed,
    /// GPS latitude or longitude is absent while geofencing is enabled.
    MissingCoordinates,
    /// Deliberate policy rejection: the image lies inside the named zone.
    InsidePrivacyZone { zone: String },
    /// The final save of the metadata back to the file failed.
    PersistFailed,
}

impl ErrorKind {
    /// The human-readable reason for this failure.
    pub open spec fn message_spec(self) -> Seq<char> {
        match self {
            ErrorKind::MetadataUnreadable => "Could not read metadata"@,
            ErrorKind::MissingGpsDate => "Image is missing GPSDateStamp value"@,
            ErrorKind::MissingGpsTime => "Image is missing GPSTimeStamp value"@,
            ErrorKind::TimestampWriteFailed => "Failed to save DateTimeOriginal value"@,
            ErrorKind::MissingCoordinates => "Image is missing GPSLatitude and/or GPSLongitude"@,
            ErrorKind::InsidePrivacyZone { zone } => "Image is inside privacy zone "@ + zone@,
            ErrorKind::PersistFailed => "Failed to save file"@,
        }
    }

    /// Renders the human-readable reason for this failure.
    pub fn message(&self) -> (r: String)
        ensures
            r@ == self.message_spec(),
    {
        match self {
            ErrorKind::MetadataUnreadable => String::from_str("Could not read metadata"),
            ErrorKind::MissingGpsDate => String::from_str("Image is missing GPSDateStamp value"),
            ErrorKind::MissingGpsTime => String::from_str("Image is missing GPSTimeStamp value"),
            ErrorKind::TimestampWriteFailed => String::from_str(
                "Failed to save DateTimeOriginal value",
            ),
            ErrorKind::MissingCoordinates => String::from_str(
                "Image is missing GPSLatitude and/or GPSLongitude",
            ),
            ErrorKind::InsidePrivacyZone { zone } => {
                let mut r = String::from_str("Image is inside privacy zone ");
                r.append(zone.as_str());
                r
            },
            ErrorKind::PersistFailed => String::from_str("Failed to save file"),
        }
    }
}

/// The tagged result of processing one file.
pub enum FileStatus {
    /// The file was processed and persisted.
    Success,
    /// Processing stopped for the given reason; the file was not persisted
    /// by the step that failed.
    Failure(ErrorKind),
}

/// One record per input file: the file's path and what became of it.
pub struct FileOutcome {
    pub path: String,
    pub status: FileStatus,
}

} // verus!
