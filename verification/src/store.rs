//! The subscription record, and the table that keeps it.
//!
//! The service builds the row; the program around it hands the row to the
//! relational store. What the service relies on from that store is written
//! down here as a model: a table that keeps ids unique by refusing a row
//! whose id is taken.

use crate::routes::subscriptions::SubscribeForm;
use vstd::prelude::*;

verus! {

/// A point in time: seconds since the Unix epoch, and the nanoseconds into
/// that second.
#[derive(Clone, Copy, Debug, PartialEq, Eq, Structural)]
pub struct Timestamp {
    pub seconds: i64,
    pub nanoseconds: u32,
}

/// One subscription, as it is persisted.
#[derive(Debug, PartialEq, Eq)]
pub struct Subscription {
    /// A UUID, as its 128-bit number.
    pub id: u128,
    pub name: String,
    pub email: String,
    pub subscribed_at: Timestamp,
}

/// A subscription as contracts see it.
pub struct SubscriptionView {
    pub id: u128,
    pub name: Seq<char>,
    pub email: Seq<char>,
    pub subscribed_at: Timestamp,
}

impl View for Subscription {
    type V = SubscriptionView;

    open spec fn view(&self) -> SubscriptionView {
        SubscriptionView {
            id: self.id,
            name: self.name@,
            email: self.email@,
            subscribed_at: self.subscribed_at,
        }
    }
}

/// Whether `id` is a random UUID: version 4, in the RFC variant.
pub open spec fn is_random_id(id: u128) -> bool {
    (id & 0x0000_0000_0000_f000_c000_0000_0000_0000) == 0x0000_0000_0000_4000_8000_0000_0000_0000
}

/// Draws an id with `uuid::Uuid::new_v4`.
///
/// Trusted: the version and variant bits are set as for every random UUID;
/// the other 122 bits come from the operating system's generator and nothing
/// is said of them. Should that generator fail, the call panics.
#[verifier::external_body]
fn random_id() -> (id: u128)
    ensures
        is_random_id(id),
{
    uuid::Uuid::new_v4().as_u128()
}

/// Reads the wall clock with `chrono::Utc::now`.
///
/// Trusted, and nothing is claimed: two readings need not even be in order.
/// A clock set before 1970 makes the call panic.
#[verifier::external_body]
fn current_time() -> (now: Timestamp) {
    let now = sqlx::types::chrono::Utc::now();
    Timestamp { seconds: now.timestamp(), nanoseconds: now.timestamp_subsec_nanos() }
}

impl Subscription {
    /// The row for `form`, identified by `id` and dated `subscribed_at`.
    pub fn new(id: u128, form: SubscribeForm, subscribed_at: Timestamp) -> (row: Subscription)
        ensures
            row@ == (SubscriptionView {
                id,
                name: form@.name,
                email: form@.email,
                subscribed_at,
            }),
    {
        Subscription { id, name: form.name, email: form.email, subscribed_at }
    }

    /// The row for `form`, with an id drawn for it and the time read now.
    /// Neither comes from the caller.
    pub fn create(form: SubscribeForm) -> (row: Subscription)
        ensures
            row@.name == form@.name,
            row@.email == form@.email,
            is_random_id(row@.id),
    {
        let id = random_id();
        let subscribed_at = current_time();
        Subscription::new(id, form, subscribed_at)
    }
}

/// The rows of the table, oldest first.
pub type Table = Seq<SubscriptionView>;

/// Whether some row of the table has this id.
pub open spec fn holds_id(table: Table, id: u128) -> bool {
    exists|i: int| 0 <= i < table.len() && (#[trigger] table[i]).id == id
}

/// Whether no two rows of the table share an id.
pub open spec fn ids_are_unique(table: Table) -> bool {
    forall|i: int, j: int|
        0 <= i < j < table.len() ==> (#[trigger] table[i]).id != (#[trigger] table[j]).id
}

/// The table after the store was asked to insert `row`: the row is appended,
/// unless its id is taken, in which case the store refuses it and nothing
/// changes. A store that fails for another reason changes nothing either,
/// as if it had not been asked.
pub open spec fn inserted(table: Table, row: SubscriptionView) -> Table {
    if holds_id(table, row.id) {
        table
    } else {
        table.push(row)
    }
}

/// The table after the store was asked to insert `rows`, one at a time in
/// this order.
pub open spec fn inserted_all(table: Table, rows: Seq<SubscriptionView>) -> Table
    decreases rows.len(),
{
    if rows.len() == 0 {
        table
    } else {
        inserted(inserted_all(table, rows.drop_last()), rows.last())
    }
}

/// An insert keeps every row that was there, adds at most the new one, and
/// keeps ids unique.
pub proof fn lemma_insert_keeps_ids_unique(table: Table, row: SubscriptionView)
    requires
        ids_are_unique(table),
    ensures
        ids_are_unique(inserted(table, row)),
        table.is_prefix_of(inserted(table, row)),
        inserted(table, row).len() <= table.len() + 1,
{
}

/// Whatever rows the store is asked to insert, and in whatever order, no two
/// rows of the table ever share an id.
pub proof fn lemma_inserts_keep_ids_unique(table: Table, rows: Seq<SubscriptionView>)
    requires
        ids_are_unique(table),
    ensures
        ids_are_unique(inserted_all(table, rows)),
    decreases rows.len(),
{
    if rows.len() > 0 {
        lemma_inserts_keep_ids_unique(table, rows.drop_last());
        lemma_insert_keeps_ids_unique(inserted_all(table, rows.drop_last()), rows.last());
    }
}

/// Rows whose ids differ from one another and from those in the table are
/// all stored: the table grows by exactly as many rows as were inserted, and
/// holds each of them.
pub proof fn lemma_distinct_rows_are_all_stored(table: Table, rows: Seq<SubscriptionView>)
    requires
        ids_are_unique(table + rows),
    ensures
        inserted_all(table, rows) == table + rows,
        inserted_all(table, rows).len() == table.len() + rows.len(),
    decreases rows.len(),
{
    if rows.len() > 0 {
        let earlier = rows.drop_last();
        assert forall|i: int, j: int| 0 <= i < j < (table + earlier).len() implies (#[trigger] (table
            + earlier)[i]).id != (#[trigger] (table + earlier)[j]).id by {
            assert((table + earlier)[i] == (table + rows)[i]);
            assert((table + earlier)[j] == (table + rows)[j]);
        }
        lemma_distinct_rows_are_all_stored(table, earlier);
        let before = table + earlier;
        assert(!holds_id(before, rows.last().id)) by {
            assert forall|i: int| 0 <= i < before.len() implies (#[trigger] before[i]).id
                != rows.last().id by {
                assert(before[i] == (table + rows)[i]);
                assert(rows.last() == (table + rows)[table.len() + rows.len() - 1]);
            }
        }
        assert(before.push(rows.last()) =~= table + rows);
    } else {
        assert(table + rows =~= table);
    }
}

} // verus!
