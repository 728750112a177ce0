//! The operations a user can ask of the library, as parsed from a command
//! line.

use vstd::prelude::*;

verus! {

/// One operation on the library, with its arguments.
#[derive(Clone, Debug)]
pub enum CliCommand {
    Add { fic_id: u64 },
    Check { fic_id: u64 },
    Delete { fic_id: u64 },
    Get { fic_id: u64 },
    List,
    Wipe,
    UpdateChapter { fic_id: u64, chapter: u32 },
    UpdateStatus { fic_id: u64, status: String },
    UpdateReadCount { fic_id: u64, read_count: u32 },
    UpdateRating { fic_id: u64, rating: String },
    UpdateNote { fic_id: u64, note: Option<String> },
}

} // verus!
