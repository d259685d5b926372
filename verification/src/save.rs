//! Save slots as the save browser lists them.
use vstd::prelude::*;

verus! {

#[derive(Clone, Copy, Debug, PartialEq, Eq, Structural)]
pub enum SaveSlotCategory {
    Autosave,
    Manual,
    Imported,
    Empty,
}

/// What a save file records about itself.
#[derive(Clone, Debug, PartialEq, Eq)]
pub struct SaveSlotMetadata {
    pub save_name: String,
    pub saved_turn: i32,
    pub recovery_note_count: usize,
    pub last_updated_unix: Option<u64>,
    pub notes: String,
    pub category: Option<SaveSlotCategory>,
    pub auto_recovery_base_ids: Vec<usize>,
    pub auto_defense_base_ids: Vec<usize>,
    pub auto_economy_base_ids: Vec<usize>,
}

/// A save slot found on disk: its identifier, its two file paths, and its metadata if readable.
#[derive(Clone, Debug, PartialEq, Eq)]
pub struct SaveSlotListing {
    pub id: String,
    pub snapshot_path: String,
    pub metadata_path: String,
    pub metadata: Option<SaveSlotMetadata>,
    pub category: SaveSlotCategory,
}

} // verus!
