//! What can go wrong, and how it is reported.

use vstd::prelude::*;
use crate::lines::{ChipNumber, LineGroup};

verus! {

/// The three classes of failure. None of them is recoverable: each ends the
/// controller, and the owning program decides what happens next.
#[derive(Clone, Copy, Debug, PartialEq, Eq, Structural)]
pub enum ErrorKind {
    /// A chip or a line could not be set up.
    Setup,
    /// Waiting for an edge or reading the keys failed.
    Read,
    /// Writing a colour to an LED group failed.
    Write,
}

/// A fatal failure of the board, with the place where it happened.
#[derive(Clone, Copy, Debug, PartialEq, Eq, Structural)]
pub enum Error {
    /// The chip could not be opened.
    ChipError { chip: ChipNumber },
    /// A single line could not be set up as an edge input.
    LineGetError { line: u32 },
    /// The lines of a group could not be obtained from the chip.
    LinesGetError { lines: LineGroup },
    /// The chip refused to hand the lines of a group over.
    LinesReqError { lines: LineGroup },
    /// Writing levels to the lines of a group failed.
    LinesSetError { lines: LineGroup },
    /// Reading the levels of the lines of a group failed.
    LinesReadError { lines: LineGroup },
    /// Waiting for an edge on the interrupt line failed.
    LineEventError { line: u32 },
    /// The race among the candidate interrupt lines ended without a winner.
    DiscoveryError,
}

impl Error {
    /// The class of this failure.
    pub open spec fn kind_spec(self) -> ErrorKind {
        match self {
            Error::ChipError { .. } => ErrorKind::Setup,
            Error::LineGetError { .. } => ErrorKind::Setup,
            Error::LinesGetError { .. } => ErrorKind::Setup,
            Error::LinesReqError { .. } => ErrorKind::Setup,
            Error::DiscoveryError => ErrorKind::Setup,
            Error::LinesReadError { .. } => ErrorKind::Read,
            Error::LineEventError { .. } => ErrorKind::Read,
            Error::LinesSetError { .. } => ErrorKind::Write,
        }
    }

    /// The text shown for this failure.
    pub open spec fn message_spec(self) -> Seq<char> {
        match self {
            Error::ChipError { chip: ChipNumber::Chip2 } => "Failed to get chip Chip2"@,
            Error::ChipError { chip: ChipNumber::Chip4 } => "Failed to get chip Chip4"@,
            Error::LineGetError { .. } => "Failed to get line"@,
            Error::LinesGetError { .. } => "Failed to get lines"@,
            Error::LinesReqError { .. } => "Failed to request lines"@,
            Error::LinesSetError { .. } => "Failed to set lines"@,
            Error::LinesReadError { .. } => "Failed to read lines"@,
            Error::LineEventError { .. } => "Failed to wait for an edge"@,
            Error::DiscoveryError => "Failed to find the interrupt line"@,
        }
    }

    /// The class of this failure.
    pub fn kind(&self) -> (kind: ErrorKind)
        ensures
            kind == self.kind_spec(),
    {
        match self {
            Error::ChipError { .. } => ErrorKind::Setup,
            Error::LineGetError { .. } => ErrorKind::Setup,
            Error::LinesGetError { .. } => ErrorKind::Setup,
            Error::LinesReqError { .. } => ErrorKind::Setup,
            Error::DiscoveryError => ErrorKind::Setup,
            Error::LinesReadError { .. } => ErrorKind::Read,
            Error::LineEventError { .. } => ErrorKind::Read,
            Error::LinesSetError { .. } => ErrorKind::Write,
        }
    }

    /// The text shown for this failure.
    pub fn message(&self) -> (text: String)
        ensures
            text@ == self.message_spec(),
    {
        match self {
            Error::ChipError { chip: ChipNumber::Chip2 } => "Failed to get chip Chip2".to_owned(),
            Error::ChipError { chip: ChipNumber::Chip4 } => "Failed to get chip Chip4".to_owned(),
            Error::LineGetError { .. } => "Failed to get line".to_owned(),
            Error::LinesGetError { .. } => "Failed to get lines".to_owned(),
            Error::LinesReqError { .. } => "Failed to request lines".to_owned(),
            Error::LinesSetError { .. } => "Failed to set lines".to_owned(),
            Error::LinesReadError { .. } => "Failed to read lines".to_owned(),
            Error::LineEventError { .. } => "Failed to wait for an edge".to_owned(),
            Error::DiscoveryError => "Failed to find the interrupt line".to_owned(),
        }
    }
}

} // verus!
