//! The ways in which showing a comic can fail.

use vstd::prelude::*;

verus! {

/// Why a navigation, a fetch or the session record could not be completed.
#[derive(Debug, Clone, Copy, PartialEq, Eq)]
pub enum Failure {
    /// The archive's latest comic number could not be determined.
    LookupFailed,
    /// The archive sent no response.
    TransportFailure,
    /// A response came, without the fields of a comic record or with fields that
    /// cannot be read.
    MalformedResponse,
    /// The artwork came, and is no image.
    ArtworkDecodeFailure,
    /// The session record could not be read; the session starts from the defaults.
    PersistenceReadFailure,
    /// The session record could not be written.
    PersistenceWriteFailure,
}

impl Failure {
    /// The text of [`Failure::message`].
    pub open spec fn text(self) -> Seq<char> {
        match self {
            Failure::LookupFailed => "Failed to determine latest comic number"@,
            Failure::TransportFailure => "Failed to reach the comic archive"@,
            Failure::MalformedResponse => "The comic archive sent an invalid comic record"@,
            Failure::ArtworkDecodeFailure => "Failed to decode the comic's image"@,
            Failure::PersistenceReadFailure =>
                "Failed to read the saved state. Using default values"@,
            Failure::PersistenceWriteFailure => "Failed to save the state"@,
        }
    }

    /// The line shown to the user for this failure.
    pub fn message(&self) -> (message: String)
        ensures
            message@ == self.text(),
    {
        match self {
            Failure::LookupFailed => "Failed to determine latest comic number".to_owned(),
            Failure::TransportFailure => "Failed to reach the comic archive".to_owned(),
            Failure::MalformedResponse => {
                "The comic archive sent an invalid comic record".to_owned()
            },
            Failure::ArtworkDecodeFailure => "Failed to decode the comic's image".to_owned(),
            Failure::PersistenceReadFailure => {
                "Failed to read the saved state. Using default values".to_owned()
            },
            Failure::PersistenceWriteFailure => "Failed to save the state".to_owned(),
        }
    }

    /// Whether the session goes on after this failure. Only a session record that
    /// cannot be written ends it.
    pub fn is_recoverable(&self) -> (recoverable: bool)
        ensures
            recoverable == !(self is PersistenceWriteFailure),
    {
        match self {
            Failure::PersistenceWriteFailure => false,
            _ => true,
        }
    }
}

} // verus!
