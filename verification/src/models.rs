//! The records of the table: what is handed in for insertion and what is
//! stored.

use vstd::prelude::*;

verus! {

/// A record that has not been stored yet: the long URL and the short code
/// chosen for it.
#[derive(Debug, PartialEq, Eq)]
pub struct NewUrl {
    pub original_url: String,
    pub short_code: String,
}

/// The mathematical content of a [`NewUrl`].
pub ghost struct NewUrlView {
    pub original_url: Seq<char>,
    pub short_code: Seq<char>,
}

impl View for NewUrl {
    type V = NewUrlView;

    open spec fn view(&self) -> NewUrlView {
        NewUrlView { original_url: self.original_url@, short_code: self.short_code@ }
    }
}

impl Clone for NewUrl {
    fn clone(&self) -> (copy: Self)
        ensures
            copy@ == self@,
    {
        NewUrl { original_url: self.original_url.clone(), short_code: self.short_code.clone() }
    }
}

/// A stored record. The table assigns `id` and `created_at` when the record
/// is inserted; nothing changes afterwards.
#[derive(Debug, PartialEq, Eq)]
pub struct Url {
    /// Surrogate key, counted from 1 in insertion order.
    pub id: i32,
    pub original_url: String,
    pub short_code: String,
    /// Seconds since the epoch at which the record was inserted.
    pub created_at: u64,
}

/// The mathematical content of a [`Url`].
pub ghost struct UrlView {
    pub id: int,
    pub original_url: Seq<char>,
    pub short_code: Seq<char>,
    pub created_at: nat,
}

impl View for Url {
    type V = UrlView;

    open spec fn view(&self) -> UrlView {
        UrlView {
            id: self.id as int,
            original_url: self.original_url@,
            short_code: self.short_code@,
            created_at: self.created_at as nat,
        }
    }
}

impl Clone for Url {
    fn clone(&self) -> (copy: Self)
        ensures
            copy@ == self@,
    {
        Url {
            id: self.id,
            original_url: self.original_url.clone(),
            short_code: self.short_code.clone(),
            created_at: self.created_at,
        }
    }
}

/// The contents of a list of records, one view per record, in order.
pub open spec fn views(records: Seq<Url>) -> Seq<UrlView> {
    records.map_values(|record: Url| record@)
}

} // verus!
