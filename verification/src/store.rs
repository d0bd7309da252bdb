//! What re-running an extraction comes to.
//!
//! A table of the unified store admits no identity key twice. Seen from the
//! extraction, a table is the set of the keys it holds: a record whose key is
//! not in the set is stored and its key joins the set; a record whose key is
//! in the set is a duplicate. The laws here are stated over this model and
//! over the counting that the collectors do; the last two say that the
//! collectors count the replies of an engine that enforces the uniqueness of
//! keys as the model counts.

use vstd::prelude::*;
use crate::collectors::base::{counted, insert_outcome, InsertOutcome};
use crate::sqlite::SqlFailure;

verus! {

/// What a table that holds the keys `table` answers to a record with the key
/// `key`.
pub open spec fn answer(table: Set<Seq<char>>, key: Seq<char>) -> InsertOutcome {
    if table.contains(key) {
        InsertOutcome::Duplicate
    } else {
        InsertOutcome::Inserted
    }
}

/// The keys that a table holds after the records with the keys `keys` were
/// stored one after another.
pub open spec fn stored(table: Set<Seq<char>>, keys: Seq<Seq<char>>) -> Set<Seq<char>>
    decreases keys.len(),
{
    if keys.len() == 0 {
        table
    } else {
        stored(table, keys.drop_last()).insert(keys.last())
    }
}

/// The counts `(added, skipped)` after the records with the keys `keys`
/// were stored one after another in a table that held `table`, the counts
/// having been `counts` before.
pub open spec fn tally(table: Set<Seq<char>>, counts: (usize, usize), keys: Seq<Seq<char>>) -> (
    usize,
    usize,
)
    decreases keys.len(),
{
    if keys.len() == 0 {
        counts
    } else {
        counted(
            tally(table, counts, keys.drop_last()),
            answer(stored(table, keys.drop_last()), keys.last()),
        )
    }
}

/// The keys of the records of rows: a row without a record has none.
pub open spec fn keys_of(records: Seq<Option<Seq<char>>>) -> Seq<Seq<char>>
    decreases records.len(),
{
    if records.len() == 0 {
        Seq::empty()
    } else {
        match records.last() {
            Some(key) => keys_of(records.drop_last()).push(key),
            None => keys_of(records.drop_last()),
        }
    }
}

/// Storing loses no key and holds every key that was stored.
pub proof fn lemma_stored_holds(table: Set<Seq<char>>, keys: Seq<Seq<char>>)
    ensures
        table.subset_of(stored(table, keys)),
        forall|i: int| 0 <= i < keys.len() ==> stored(table, keys).contains(#[trigger] keys[i]),
    decreases keys.len(),
{
    if keys.len() > 0 {
        lemma_stored_holds(table, keys.drop_last());
        assert forall|i: int| 0 <= i < keys.len() implies stored(table, keys).contains(
            #[trigger] keys[i],
        ) by {
            if i < keys.len() - 1 {
                assert(keys.drop_last()[i] == keys[i]);
            }
        }
    }
}

/// Storing records whose keys the table holds already leaves the table as
/// it is and counts every one of them as skipped.
pub proof fn lemma_all_present(table: Set<Seq<char>>, counts: (usize, usize), keys: Seq<Seq<char>>)
    requires
        forall|i: int| 0 <= i < keys.len() ==> table.contains(#[trigger] keys[i]),
        counts.1 + keys.len() <= usize::MAX,
    ensures
        stored(table, keys) == table,
        tally(table, counts, keys) == (counts.0, (counts.1 + keys.len()) as usize),
    decreases keys.len(),
{
    if keys.len() > 0 {
        assert forall|i: int| 0 <= i < keys.drop_last().len() implies table.contains(
            #[trigger] keys.drop_last()[i],
        ) by {
            assert(keys.drop_last()[i] == keys[i]);
        }
        lemma_all_present(table, counts, keys.drop_last());
        assert(table.contains(keys[keys.len() - 1]));
        assert(stored(table, keys) =~= table);
    }
}

/// Storing records whose keys differ from one another and of which the
/// table holds none counts every one of them as added.
pub proof fn lemma_all_new(table: Set<Seq<char>>, counts: (usize, usize), keys: Seq<Seq<char>>)
    requires
        forall|i: int| 0 <= i < keys.len() ==> !table.contains(#[trigger] keys[i]),
        forall|i: int, j: int| 0 <= i < j < keys.len() ==> keys[i] != keys[j],
        counts.0 + keys.len() <= usize::MAX,
    ensures
        tally(table, counts, keys) == ((counts.0 + keys.len()) as usize, counts.1),
        forall|key: Seq<char>|
            stored(table, keys).contains(key) <==> table.contains(key) || keys.contains(key),
    decreases keys.len(),
{
    if keys.len() > 0 {
        let front = keys.drop_last();
        assert forall|i: int| 0 <= i < front.len() implies !table.contains(#[trigger] front[i]) by {
            assert(front[i] == keys[i]);
        }
        assert forall|i: int, j: int| 0 <= i < j < front.len() implies front[i] != front[j] by {
            assert(front[i] == keys[i] && front[j] == keys[j]);
        }
        lemma_all_new(table, counts, front);
        let last = keys.last();
        assert(!stored(table, front).contains(last)) by {
            assert(!table.contains(keys[keys.len() - 1]));
            if front.contains(last) {
                let i = choose|i: int| 0 <= i < front.len() && front[i] == last;
                assert(keys[i] == front[i]);
            }
        }
        assert forall|key: Seq<char>|
            stored(table, keys).contains(key) <==> table.contains(key) || keys.contains(
                key,
            ) by {
            if keys.contains(key) {
                let i = choose|i: int| 0 <= i < keys.len() && keys[i] == key;
                if i < front.len() {
                    assert(front[i] == key);
                }
            }
            if front.contains(key) {
                let i = choose|i: int| 0 <= i < front.len() && front[i] == key;
                assert(keys[i] == key);
            }
            if key == last {
                assert(keys[keys.len() - 1] == key);
            }
        }
    } else {
        assert forall|key: Seq<char>|
            stored(table, keys).contains(key) <==> table.contains(key) || keys.contains(
                key,
            ) by {}
    }
}

/// Re-running an extraction of an unchanged source adds nothing: whatever
/// the table held before the first run, a second run over the same records
/// leaves the table as the first run left it, adds no record, and skips
/// every one.
pub proof fn law_rerun_adds_nothing(table: Set<Seq<char>>, keys: Seq<Seq<char>>)
    requires
        keys.len() <= usize::MAX,
    ensures
        stored(stored(table, keys), keys) == stored(table, keys),
        tally(stored(table, keys), (0usize, 0usize), keys) == (0usize, keys.len() as usize),
{
    lemma_stored_holds(table, keys);
    lemma_all_present(stored(table, keys), (0usize, 0usize), keys);
}

/// The first extraction of a source whose records differ in their keys,
/// into a table that holds none of them, adds every record and skips none;
/// the second adds none and skips every one.
pub proof fn law_extraction_is_idempotent(table: Set<Seq<char>>, keys: Seq<Seq<char>>)
    requires
        forall|i: int| 0 <= i < keys.len() ==> !table.contains(#[trigger] keys[i]),
        forall|i: int, j: int| 0 <= i < j < keys.len() ==> keys[i] != keys[j],
        keys.len() <= usize::MAX,
    ensures
        tally(table, (0usize, 0usize), keys) == (keys.len() as usize, 0usize),
        tally(stored(table, keys), (0usize, 0usize), keys) == (0usize, keys.len() as usize),
{
    lemma_all_new(table, (0usize, 0usize), keys);
    law_rerun_adds_nothing(table, keys);
}

/// A source none of whose rows has a record adds nothing and skips
/// nothing, and leaves the table as it is.
pub proof fn law_no_valid_rows(
    table: Set<Seq<char>>,
    counts: (usize, usize),
    records: Seq<Option<Seq<char>>>,
)
    requires
        forall|i: int| 0 <= i < records.len() ==> (#[trigger] records[i]) is None,
    ensures
        keys_of(records).len() == 0,
        tally(table, counts, keys_of(records)) == counts,
        stored(table, keys_of(records)) == table,
    decreases records.len(),
{
    if records.len() > 0 {
        assert forall|i: int| 0 <= i < records.drop_last().len() implies (
        #[trigger] records.drop_last()[i]) is None by {
            assert(records.drop_last()[i] == records[i]);
        }
        law_no_valid_rows(table, counts, records.drop_last());
        assert(records[records.len() - 1] is None);
    }
}

/// Every record is counted once: as long as no count is full, the counts
/// grow by the number of records, whatever the table held.
pub proof fn law_every_record_counted(
    table: Set<Seq<char>>,
    counts: (usize, usize),
    keys: Seq<Seq<char>>,
)
    requires
        counts.0 + keys.len() <= usize::MAX,
        counts.1 + keys.len() <= usize::MAX,
    ensures
        tally(table, counts, keys).0 + tally(table, counts, keys).1 == counts.0 + counts.1
            + keys.len(),
        counts.0 <= tally(table, counts, keys).0,
        counts.1 <= tally(table, counts, keys).1,
    decreases keys.len(),
{
    if keys.len() > 0 {
        law_every_record_counted(table, counts, keys.drop_last());
    }
}

/// Whether `reply` is what a storage engine that enforces the uniqueness of
/// keys replies to the insert of a record with the key `key` into a table
/// that holds `table`: it stores a new key, and refuses one that the table
/// holds with a violation of uniqueness.
pub open spec fn is_reply_of(
    table: Set<Seq<char>>,
    key: Seq<char>,
    reply: Result<usize, SqlFailure>,
) -> bool {
    if table.contains(key) {
        reply is Err && reply->Err_0.is_uniqueness_violation()
    } else {
        reply is Ok
    }
}

/// Whether `replies` are what such an engine replies to the inserts of the
/// records with the keys `keys`, one after another, into a table that held
/// `table`.
pub open spec fn are_replies_of(
    table: Set<Seq<char>>,
    keys: Seq<Seq<char>>,
    replies: Seq<Result<usize, SqlFailure>>,
) -> bool {
    &&& replies.len() == keys.len()
    &&& forall|i: int|
        0 <= i < keys.len() ==> is_reply_of(stored(table, keys.take(i)), keys[i], #[trigger] replies[i])
}

/// The counts `(added, skipped)` that the collectors come to when they read
/// the replies `replies` one after another, the counts having been `counts`
/// before.
pub open spec fn counted_replies(counts: (usize, usize), replies: Seq<Result<usize, SqlFailure>>) -> (
    usize,
    usize,
)
    decreases replies.len(),
{
    if replies.len() == 0 {
        counts
    } else {
        counted(counted_replies(counts, replies.drop_last()), insert_outcome(replies.last()))
    }
}

/// The collectors read the reply of an engine that enforces the uniqueness
/// of keys as the table answers: a stored record for a new key, a duplicate
/// for one that the table holds.
pub proof fn law_reply_is_read_as_the_table_answers(
    table: Set<Seq<char>>,
    key: Seq<char>,
    reply: Result<usize, SqlFailure>,
)
    requires
        is_reply_of(table, key, reply),
    ensures
        insert_outcome(reply) == answer(table, key),
{
}

/// What the collectors count from the replies of an engine that enforces
/// the uniqueness of keys is what the table's tally is; so what is proved
/// of the tally holds of the counts of an extraction into such an engine.
pub proof fn law_counts_are_the_tally(
    table: Set<Seq<char>>,
    counts: (usize, usize),
    keys: Seq<Seq<char>>,
    replies: Seq<Result<usize, SqlFailure>>,
)
    requires
        are_replies_of(table, keys, replies),
    ensures
        counted_replies(counts, replies) == tally(table, counts, keys),
    decreases keys.len(),
{
    if keys.len() > 0 {
        let front = keys.drop_last();
        let heard = replies.drop_last();
        assert forall|i: int| 0 <= i < front.len() implies is_reply_of(
            stored(table, front.take(i)),
            front[i],
            #[trigger] heard[i],
        ) by {
            assert(front.take(i) =~= keys.take(i));
            assert(heard[i] == replies[i]);
        }
        law_counts_are_the_tally(table, counts, front, heard);
        let last = keys.len() - 1;
        assert(keys.take(last) =~= front);
        assert(is_reply_of(stored(table, keys.take(last)), keys[last], replies[last]));
        assert(replies.last() == replies[last]);
        assert(keys.last() == keys[last]);
    }
}

} // verus!
