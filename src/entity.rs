use vstd::prelude::*;

verus! {

/// The body of a write request: the key and the value to store under it.
#[derive(Debug)]
pub struct SaveCacheEntryRequest {
    pub key: String,
    pub value: String,
}

/// One stored entry, as the store hands it back.
#[derive(Debug)]
pub struct CacheEntry {
    pub key: String,
    pub value: String,
    /// Write time, as `YYYY-MM-DD HH:MM:SS` in UTC.
    pub created_at: String,
}

/// What a `CacheEntry` holds, as text.
pub struct EntryView {
    pub key: Seq<char>,
    pub value: Seq<char>,
    pub created_at: Seq<char>,
}

impl View for CacheEntry {
    type V = EntryView;

    open spec fn view(&self) -> EntryView {
        EntryView { key: self.key@, value: self.value@, created_at: self.created_at@ }
    }
}

impl CacheEntry {
    pub fn new(key: String, value: String, created_at: String) -> (r: CacheEntry)
        ensures
            r.key@ == key@,
            r.value@ == value@,
            r.created_at@ == created_at@,
    {
        CacheEntry { key, value, created_at }
    }
}

impl SaveCacheEntryRequest {
    pub fn new(key: String, value: String) -> (r: SaveCacheEntryRequest)
        ensures
            r.key@ == key@,
            r.value@ == value@,
    {
        SaveCacheEntryRequest { key, value }
    }
}

} // verus!
