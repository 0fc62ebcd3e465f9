//! What sequences of requests and sweeps do to the cache, proved over the
//! meaning of the store's statements.
use vstd::prelude::*;
use crate::clock::{in_text_range, timestamp_text, MAX_TEXT_SECONDS, MIN_TEXT_SECONDS};
use crate::entity::EntryView;
use crate::service::{fetch_outcome, upsert_view, ServiceError};
use crate::store::{
    apply, kept_by, lemma_text_less_asymmetric, lemma_text_less_irreflexive, lookup, run, text_less,
    StatementView, Table,
};
use crate::sweeper::{sweep_cutoff, sweep_delete, tick_decision, SweepAction};

verus! {

/// The entry that the most recent upsert of `key` in `stmts` wrote, if any.
pub open spec fn last_write(stmts: Seq<StatementView>, key: Seq<char>) -> Option<EntryView>
    decreases stmts.len(),
{
    if stmts.len() == 0 {
        None
    } else {
        match stmts.last() {
            StatementView::Upsert { key: k, value, created_at } if k == key => Some(
                EntryView { key, value, created_at },
            ),
            _ => last_write(stmts.drop_last(), key),
        }
    }
}

/// Whether `stmts` holds an upsert of `key`.
pub open spec fn writes_key(stmts: Seq<StatementView>, key: Seq<char>) -> bool {
    exists|i: int|
        0 <= i < stmts.len() && (#[trigger] stmts[i] matches StatementView::Upsert { key: k, .. }
            && k == key)
}

/// Starting from an empty table, whatever sequence of statements runs, an
/// entry that a select can see is the one that the most recent upsert of its
/// key wrote, whole; and a key that a select cannot see has no entry.
pub proof fn lemma_visible_entry_is_last_write(stmts: Seq<StatementView>, key: Seq<char>)
    ensures
        lookup(run(Map::empty(), stmts), key) matches Some(e) ==> last_write(stmts, key) == Some(e),
        last_write(stmts, key) is None ==> lookup(run(Map::empty(), stmts), key) is None,
    decreases stmts.len(),
{
    if stmts.len() > 0 {
        lemma_visible_entry_is_last_write(stmts.drop_last(), key);
    }
}

proof fn lemma_no_write_no_last_write(stmts: Seq<StatementView>, key: Seq<char>)
    requires
        !writes_key(stmts, key),
    ensures
        last_write(stmts, key) is None,
    decreases stmts.len(),
{
    if stmts.len() > 0 {
        let s = stmts.drop_last();
        if writes_key(s, key) {
            let i = choose|i: int|
                0 <= i < s.len() && (#[trigger] s[i] matches StatementView::Upsert {
                    key: k,
                    ..
                } && k == key);
            assert(stmts[i] == s[i]);
        }
        assert(!(stmts[stmts.len() - 1] matches StatementView::Upsert { key: k, .. } && k == key));
        lemma_no_write_no_last_write(s, key);
    }
}

/// A key that no upsert ever wrote is not found, whatever else ran.
pub proof fn lemma_unwritten_key_not_found(stmts: Seq<StatementView>, key: Seq<char>)
    requires
        !writes_key(stmts, key),
    ensures
        fetch_outcome(lookup(run(Map::empty(), stmts), key)) == Err::<EntryView, ServiceError>(
            ServiceError::NotFound,
        ),
{
    lemma_no_write_no_last_write(stmts, key);
    lemma_visible_entry_is_last_write(stmts, key);
}

/// A fetch right after an upsert returns the key, exactly the value written
/// (the empty one too) and the upsert's timestamp.
pub proof fn lemma_fetch_after_upsert(t: Table, key: Seq<char>, value: Seq<char>, now: int)
    ensures
        fetch_outcome(lookup(apply(t, upsert_view(key, value, now)), key)) == Ok::<
            EntryView,
            ServiceError,
        >(EntryView { key, value, created_at: timestamp_text(now) }),
{
}

/// After two upserts of one key, a fetch returns the second value and
/// timestamp, and the key still has a single entry: the table holds no key
/// that it did not hold before, but for `key`.
pub proof fn lemma_second_upsert_replaces(
    t: Table,
    key: Seq<char>,
    first: Seq<char>,
    second: Seq<char>,
    first_now: int,
    second_now: int,
)
    ensures
        ({
            let after = apply(apply(t, upsert_view(key, first, first_now)), upsert_view(key, second, second_now));
            &&& fetch_outcome(lookup(after, key)) == Ok::<EntryView, ServiceError>(
                EntryView { key, value: second, created_at: timestamp_text(second_now) },
            )
            &&& after.dom() == t.dom().insert(key)
        }),
{
    let after = apply(apply(t, upsert_view(key, first, first_now)), upsert_view(key, second, second_now));
    assert(after.dom() =~= t.dom().insert(key));
}

/// An entry written at an instant before a sweep tick's cutoff (the tick's
/// time less the time-to-live) is removed by that tick: a fetch of it is then
/// not found. `action` is what the sweeper decided on the tick.
pub proof fn lemma_sweep_removes_expired(
    t: Table,
    key: Seq<char>,
    written: int,
    now: int,
    ttl: int,
    action: SweepAction,
)
    requires
        tick_decision(action, now, ttl),
        t.contains_key(key),
        t[key].created_at == timestamp_text(written),
        MIN_TEXT_SECONDS <= written < sweep_cutoff(now, ttl) <= MAX_TEXT_SECONDS,
    ensures
        action matches SweepAction::Delete(s) && fetch_outcome(lookup(apply(t, s@), key)) == Err::<
            EntryView,
            ServiceError,
        >(ServiceError::NotFound),
{
    let cutoff = sweep_cutoff(now, ttl);
    assert(in_text_range(written));
    assert(text_less(timestamp_text(written), timestamp_text(cutoff)));
}

/// An entry written at or after the instant a sweep tick began is kept,
/// unchanged, by that tick, even where the write lands before the tick's
/// delete runs. `action` is what the sweeper decided on the tick.
pub proof fn lemma_sweep_keeps_later_writes(
    t: Table,
    key: Seq<char>,
    written: int,
    now: int,
    ttl: int,
    action: SweepAction,
)
    requires
        tick_decision(action, now, ttl),
        0 <= ttl,
        t.contains_key(key),
        t[key].created_at == timestamp_text(written),
        now <= written <= MAX_TEXT_SECONDS,
        MIN_TEXT_SECONDS <= sweep_cutoff(now, ttl),
    ensures
        action matches SweepAction::Delete(s) && lookup(apply(t, s@), key) == Some(t[key]),
{
    let cutoff = sweep_cutoff(now, ttl);
    let c = timestamp_text(cutoff);
    let w = timestamp_text(written);
    if written == cutoff {
        lemma_text_less_irreflexive(w);
    } else {
        assert(in_text_range(written));
        assert(text_less(c, w));
        lemma_text_less_asymmetric(c, w);
    }
    assert(kept_by(t[key], c));
}

/// A write that lands after a tick's delete has run is not lost by that
/// tick: a fetch returns it.
pub proof fn lemma_write_after_sweep_kept(
    t: Table,
    tick: int,
    ttl: int,
    key: Seq<char>,
    value: Seq<char>,
    now: int,
)
    ensures
        fetch_outcome(
            lookup(apply(apply(t, sweep_delete(tick, ttl)), upsert_view(key, value, now)), key),
        ) == Ok::<EntryView, ServiceError>(
            EntryView { key, value, created_at: timestamp_text(now) },
        ),
{
}

} // verus!
