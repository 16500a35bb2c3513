//! The record table: insertion, lookup by short code, and the listing by
//! recency.
//!
//! The table is modelled as the sequence of its rows in insertion order.
//! Rows are only ever appended: none is changed or removed.

use vstd::prelude::*;
use vstd::string::*;

use crate::error::AppError;
use crate::models::{views, NewUrl, NewUrlView, Url, UrlView};

verus! {

/// Whether some row of the table carries the short code.
pub open spec fn holds_code(rows: Seq<UrlView>, code: Seq<char>) -> bool {
    exists|i: int| 0 <= i < rows.len() && (#[trigger] rows[i]).short_code == code
}

/// The invariant of the table: ids count from 1 in insertion order, no
/// short code occurs twice, and timestamps never decrease from one row to
/// the next.
pub open spec fn table_wf(rows: Seq<UrlView>) -> bool {
    &&& rows.len() <= i32::MAX
    &&& forall|i: int| 0 <= i < rows.len() ==> (#[trigger] rows[i]).id == i + 1
    &&& forall|i: int, j: int|
        0 <= i < j < rows.len() ==> (#[trigger] rows[i]).short_code != (
        #[trigger] rows[j]).short_code
    &&& forall|i: int, j: int|
        0 <= i < j < rows.len() ==> (#[trigger] rows[i]).created_at <= (
        #[trigger] rows[j]).created_at
}

/// The timestamp that a row inserted at clock reading `now` receives. The
/// table's clock never runs backwards: a reading earlier than the latest
/// row's timestamp is raised to that timestamp.
pub open spec fn stamp(rows: Seq<UrlView>, now: nat) -> nat {
    if rows.len() > 0 && rows.last().created_at > now {
        rows.last().created_at
    } else {
        now
    }
}

/// The row that inserting `new_url` at clock reading `now` appends.
pub open spec fn next_row(rows: Seq<UrlView>, new_url: NewUrlView, now: nat) -> UrlView {
    UrlView {
        id: rows.len() as int + 1,
        original_url: new_url.original_url,
        short_code: new_url.short_code,
        created_at: stamp(rows, now),
    }
}

/// Whether the table has an id left for one more row.
pub open spec fn has_room(rows: Seq<UrlView>) -> bool {
    rows.len() < i32::MAX
}

/// Whether the table takes a row with this short code: the code is not in
/// use and an id is left.
pub open spec fn accepts(rows: Seq<UrlView>, code: Seq<char>) -> bool {
    !holds_code(rows, code) && has_room(rows)
}

/// The table after an attempt to insert `new_url`: one row longer where the
/// table accepts the code, unchanged where it does not.
pub open spec fn after_insert(rows: Seq<UrlView>, new_url: NewUrlView, now: nat) -> Seq<UrlView> {
    if accepts(rows, new_url.short_code) {
        rows.push(next_row(rows, new_url, now))
    } else {
        rows
    }
}

/// The message of the storage error with which an insertion is refused.
pub open spec fn rejection_message(rows: Seq<UrlView>, code: Seq<char>) -> Seq<char> {
    if holds_code(rows, code) {
        "UNIQUE constraint failed: urls.short_code"@
    } else {
        "urls table is full"@
    }
}

/// The row that carries the short code, if there is one.
pub open spec fn row_with_code(rows: Seq<UrlView>, code: Seq<char>) -> Option<UrlView> {
    if holds_code(rows, code) {
        Some(rows[choose|i: int| 0 <= i < rows.len() && (#[trigger] rows[i]).short_code == code])
    } else {
        None
    }
}

/// The rows from the latest insertion back to the first.
pub open spec fn most_recent_first(rows: Seq<UrlView>) -> Seq<UrlView> {
    Seq::new(rows.len(), |i: int| rows[rows.len() - 1 - i])
}

/// The message of the error for a short code that no row carries.
pub open spec fn not_found_message() -> Seq<char> {
    "URL not found"@
}

/// The record table.
pub struct UrlStore {
    rows: Vec<Url>,
}

impl View for UrlStore {
    type V = Seq<UrlView>;

    closed spec fn view(&self) -> Seq<UrlView> {
        views(self.rows@)
    }
}

impl UrlStore {
    #[verifier::type_invariant]
    spec fn wf(self) -> bool {
        table_wf(views(self.rows@))
    }

    /// An empty table.
    pub fn new() -> (store: UrlStore)
        ensures
            store@ == Seq::<UrlView>::empty(),
            table_wf(store@),
    {
        UrlStore { rows: Vec::new() }
    }

    /// Makes the table invariant known where the table is used. Nothing
    /// happens at run time.
    pub fn table_invariant(&self)
        ensures
            table_wf(self@),
    {
        proof {
            use_type_invariant(self);
        }
    }

    /// The number of rows.
    pub fn len(&self) -> (n: usize)
        ensures
            n == self@.len(),
    {
        self.rows.len()
    }

    /// Whether the table has no rows.
    pub fn is_empty(&self) -> (empty: bool)
        ensures
            empty == (self@.len() == 0),
    {
        self.rows.len() == 0
    }

    /// Whether some row carries the short code.
    pub fn contains_code(&self, code: &str) -> (held: bool)
        ensures
            held == holds_code(self@, code@),
    {
        let needle = String::from_str(code);
        let mut i: usize = 0;
        while i < self.rows.len()
            invariant
                i <= self.rows@.len(),
                needle@ == code@,
                forall|k: int| 0 <= k < i ==> (#[trigger] views(self.rows@)[k]).short_code != code@,
            decreases self.rows@.len() - i,
        {
            if self.rows[i].short_code == needle {
                assert(views(self.rows@)[i as int].short_code == code@);
                return true;
            }
            i += 1;
        }
        false
    }

    /// Appends a row for `new_url`, stamped with the clock reading `now`.
    ///
    /// The table accepts the row exactly when its short code is not in use
    /// and an id is left. It then assigns the next id and the timestamp and
    /// returns the stored row. Otherwise it reports a storage error and
    /// stays as it was.
    pub fn insert(&mut self, new_url: NewUrl, now: u64) -> (result: Result<Url, AppError>)
        ensures
            table_wf(final(self)@),
            final(self)@ == after_insert(old(self)@, new_url@, now as nat),
            accepts(old(self)@, new_url@.short_code) ==> (result matches Ok(row) && row@
                == next_row(old(self)@, new_url@, now as nat)),
            !accepts(old(self)@, new_url@.short_code) ==> (result matches Err(
                AppError::DbError(msg),
            ) && msg@ == rejection_message(old(self)@, new_url@.short_code)),
    {
        proof {
            use_type_invariant(&*self);
        }
        if self.contains_code(new_url.short_code.as_str()) {
            return Err(
                AppError::DbError(String::from_str("UNIQUE constraint failed: urls.short_code")),
            );
        }
        let n: usize = self.rows.len();
        if n >= 0x7fff_ffff {
            return Err(AppError::DbError(String::from_str("urls table is full")));
        }
        let created_at: u64 = if n > 0 && self.rows[n - 1].created_at > now {
            self.rows[n - 1].created_at
        } else {
            now
        };
        let row = Url {
            id: (n + 1) as i32,
            original_url: new_url.original_url,
            short_code: new_url.short_code,
            created_at,
        };
        let stored = row.clone();
        let ghost before = views(self.rows@);
        let mut taken = UrlStore::new();
        core::mem::swap(self, &mut taken);
        let mut rows: Vec<Url> = taken.rows;
        rows.push(row);
        proof {
            assert(views(rows@) =~= before.push(row@));
            lemma_insert_keeps_wf(before, new_url@, now as nat);
        }
        *self = UrlStore { rows };
        Ok(stored)
    }

    /// Looks up the row that carries the short code.
    ///
    /// Returns the row where there is one, and a `NotFound` error where no
    /// row matches.
    pub fn find_by_code(&self, code: &str) -> (result: Result<Url, AppError>)
        ensures
            table_wf(self@),
            match row_with_code(self@, code@) {
                Some(found) => result matches Ok(row) && row@ == found,
                None => result matches Err(AppError::NotFound(msg)) && msg@
                    == not_found_message(),
            },
    {
        proof {
            use_type_invariant(self);
        }
        let needle = String::from_str(code);
        let mut i: usize = 0;
        while i < self.rows.len()
            invariant
                i <= self.rows@.len(),
                needle@ == code@,
                table_wf(views(self.rows@)),
                forall|k: int| 0 <= k < i ==> (#[trigger] views(self.rows@)[k]).short_code != code@,
            decreases self.rows@.len() - i,
        {
            if self.rows[i].short_code == needle {
                proof {
                    lemma_row_with_code(views(self.rows@), i as int);
                }
                return Ok(self.rows[i].clone());
            }
            i += 1;
        }
        Err(AppError::NotFound(String::from_str("URL not found")))
    }

    /// All rows, the most recently inserted first.
    pub fn list_all(&self) -> (listing: Vec<Url>)
        ensures
            table_wf(self@),
            views(listing@) == most_recent_first(self@),
    {
        proof {
            use_type_invariant(self);
        }
        let n: usize = self.rows.len();
        let mut listing: Vec<Url> = Vec::new();
        let mut i: usize = 0;
        while i < n
            invariant
                n == self.rows@.len(),
                i <= n,
                listing@.len() == i,
                forall|k: int| 0 <= k < i ==> (#[trigger] listing@[k])@ == self.rows@[n - 1 - k]@,
            decreases n - i,
        {
            listing.push(self.rows[n - 1 - i].clone());
            i += 1;
        }
        listing
    }
}

/// In a well-formed table the row found at position `i` is the one row
/// that carries its short code.
pub proof fn lemma_row_with_code(rows: Seq<UrlView>, i: int)
    requires
        table_wf(rows),
        0 <= i < rows.len(),
    ensures
        row_with_code(rows, rows[i].short_code) == Some(rows[i]),
{
}

/// An insertion attempt leaves a well-formed table well-formed.
pub proof fn lemma_insert_keeps_wf(rows: Seq<UrlView>, new_url: NewUrlView, now: nat)
    requires
        table_wf(rows),
    ensures
        table_wf(after_insert(rows, new_url, now)),
{
}

/// The listing of a well-formed table holds every row exactly once and is
/// ordered by timestamp, latest first; among rows with the same timestamp
/// the one inserted later comes first.
pub proof fn lemma_listing_by_recency(rows: Seq<UrlView>)
    requires
        table_wf(rows),
    ensures
        most_recent_first(rows).len() == rows.len(),
        forall|i: int|
            0 <= i < rows.len() ==> #[trigger] most_recent_first(rows)[i] == rows[rows.len() - 1
                - i],
        forall|i: int, j: int|
            0 <= i < j < rows.len() ==> {
                &&& (#[trigger] most_recent_first(rows)[i]).created_at >= (
                #[trigger] most_recent_first(rows)[j]).created_at
                &&& most_recent_first(rows)[i].id > most_recent_first(rows)[j].id
            },
{
}

} // verus!
