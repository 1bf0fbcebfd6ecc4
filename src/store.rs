use vstd::prelude::*;

use crate::document::{ObjectId, Record};
use crate::normalize::{email_of, normalizes_to, well_shaped};
use crate::record::User;

verus! {

/// How the backfill writes a normalized record.
#[derive(Clone, Copy, Debug, PartialEq, Eq)]
pub enum WriteMode {
    /// Insert; a record whose identity is already present is left alone.
    InsertOnly,
    /// Upsert by identity, writing only when no record with it exists.
    UpsertSetOnInsert,
}

/// One write of a normalized record, keyed by its identity.
#[derive(Debug)]
pub enum WriteOp {
    Insert(User),
    /// Overwrites the stored record with this one, or creates it.
    UpsertSet(User),
    /// Creates the record when no record with its identity exists.
    UpsertSetOnInsert(User),
}

impl WriteOp {
    pub open spec fn user(self) -> User {
        match self {
            WriteOp::Insert(u) => u,
            WriteOp::UpsertSet(u) => u,
            WriteOp::UpsertSetOnInsert(u) => u,
        }
    }

    pub open spec fn key(self) -> ObjectId {
        self.user().id
    }

    /// The write leaves a record that is already stored as it is.
    pub open spec fn keeps_existing(self) -> bool {
        !(self is UpsertSet)
    }
}

/// The write that the backfill makes of `u` in `mode`.
pub open spec fn backfill_op(mode: WriteMode, u: User) -> WriteOp {
    match mode {
        WriteMode::InsertOnly => WriteOp::Insert(u),
        WriteMode::UpsertSetOnInsert => WriteOp::UpsertSetOnInsert(u),
    }
}

pub fn make_backfill_op(mode: WriteMode, u: User) -> (r: WriteOp)
    ensures
        r == backfill_op(mode, u),
{
    match mode {
        WriteMode::InsertOnly => WriteOp::Insert(u),
        WriteMode::UpsertSetOnInsert => WriteOp::UpsertSetOnInsert(u),
    }
}

/// The destination collection: normalized records by identity.
pub type Destination = Map<ObjectId, User>;

/// The destination after one write.
pub open spec fn apply_op(dest: Destination, op: WriteOp) -> Destination {
    if op.keeps_existing() && dest.contains_key(op.key()) {
        dest
    } else {
        dest.insert(op.key(), op.user())
    }
}

/// The destination after writes made in order.
pub open spec fn apply_all(dest: Destination, ops: Seq<WriteOp>) -> Destination
    decreases ops.len(),
{
    if ops.len() == 0 {
        dest
    } else {
        apply_op(apply_all(dest, ops.drop_last()), ops.last())
    }
}

/// A record that normalization accepts.
pub open spec fn normalizable(doc: Record) -> bool {
    doc.identity_spec() is Some && email_of(doc) is Some && well_shaped(doc)
}

/// `ops` are the writes that a backfill in `mode` makes over `source`: one for
/// each record that normalizes, in scan order, each stamped at some time.
pub open spec fn backfill_output(source: Seq<Record>, mode: WriteMode, ops: Seq<WriteOp>) -> bool
    decreases source.len(),
{
    if source.len() == 0 {
        ops.len() == 0
    } else if normalizable(source.last()) {
        &&& ops.len() > 0
        &&& ops.last() == backfill_op(mode, ops.last().user())
        &&& normalizes_to(source.last(), ops.last().user().last_updated_at_in_ms, ops.last().user())
        &&& backfill_output(source.drop_last(), mode, ops.drop_last())
    } else {
        backfill_output(source.drop_last(), mode, ops)
    }
}

/// The identities that a sequence of writes touches, in order.
pub open spec fn op_keys(ops: Seq<WriteOp>) -> Seq<ObjectId> {
    ops.map_values(|op: WriteOp| op.key())
}

proof fn lemma_apply_all_grows(dest: Destination, ops: Seq<WriteOp>)
    ensures
        forall|k: ObjectId| dest.contains_key(k) ==> #[trigger] apply_all(dest, ops).contains_key(k),
        forall|i: int| 0 <= i < ops.len() ==> apply_all(dest, ops).contains_key(#[trigger] ops[i].key()),
        forall|k: ObjectId| #[trigger] apply_all(dest, ops).contains_key(k) ==> dest.contains_key(k) || exists|i: int| 0 <= i < ops.len() && ops[i].key() == k,
    decreases ops.len(),
{
    if ops.len() > 0 {
        let p = ops.drop_last();
        lemma_apply_all_grows(dest, p);
        assert forall|k: ObjectId| dest.contains_key(k) implies #[trigger] apply_all(dest, ops).contains_key(k) by {
            assert(apply_all(dest, p).contains_key(k));
        }
        assert forall|i: int| 0 <= i < ops.len() implies apply_all(dest, ops).contains_key(#[trigger] ops[i].key()) by {
            if i < ops.len() - 1 {
                assert(p[i] == ops[i]);
            }
        }
        assert forall|k: ObjectId| #[trigger] apply_all(dest, ops).contains_key(k) implies dest.contains_key(k) || exists|i: int| 0 <= i < ops.len() && ops[i].key() == k by {
            if k != ops.last().key() {
                assert(apply_all(dest, p).contains_key(k));
                if !dest.contains_key(k) {
                    let i = choose|i: int| 0 <= i < p.len() && p[i].key() == k;
                    assert(ops[i] == p[i]);
                }
            }
        }
    }
}

proof fn lemma_apply_all_present(dest: Destination, ops: Seq<WriteOp>)
    requires
        forall|i: int| 0 <= i < ops.len() ==> (#[trigger] ops[i]).keeps_existing() && dest.contains_key(ops[i].key()),
    ensures
        apply_all(dest, ops) == dest,
    decreases ops.len(),
{
    if ops.len() > 0 {
        let p = ops.drop_last();
        assert forall|i: int| 0 <= i < p.len() implies (#[trigger] p[i]).keeps_existing() && dest.contains_key(p[i].key()) by {
            assert(p[i] == ops[i]);
        }
        lemma_apply_all_present(dest, p);
        assert(ops[ops.len() - 1] == ops.last());
    }
}

proof fn lemma_backfill_output_keys(source: Seq<Record>, mode: WriteMode, ops: Seq<WriteOp>)
    requires
        backfill_output(source, mode, ops),
    ensures
        forall|i: int| 0 <= i < ops.len() ==> (#[trigger] ops[i]) == backfill_op(mode, ops[i].user()),
        op_keys(ops) == backfill_keys(source),
    decreases source.len(),
{
    if source.len() > 0 {
        if normalizable(source.last()) {
            let p = ops.drop_last();
            lemma_backfill_output_keys(source.drop_last(), mode, p);
            assert forall|i: int| 0 <= i < ops.len() implies (#[trigger] ops[i]) == backfill_op(mode, ops[i].user()) by {
                if i < ops.len() - 1 {
                    assert(p[i] == ops[i]);
                }
            }
            assert(op_keys(ops) =~= op_keys(p).push(ops.last().key()));
        } else {
            lemma_backfill_output_keys(source.drop_last(), mode, ops);
        }
    } else {
        assert(op_keys(ops) =~= Seq::<ObjectId>::empty());
    }
}

/// The identities of the records of `source` that normalize, in scan order.
pub open spec fn backfill_keys(source: Seq<Record>) -> Seq<ObjectId>
    decreases source.len(),
{
    if source.len() == 0 {
        Seq::empty()
    } else if normalizable(source.last()) {
        backfill_keys(source.drop_last()).push(source.last().identity_spec()->0)
    } else {
        backfill_keys(source.drop_last())
    }
}

proof fn lemma_backfill_keys_prefix(source: Seq<Record>, k: int)
    requires
        0 <= k <= source.len(),
    ensures
        backfill_keys(source.take(k)).len() <= backfill_keys(source).len(),
        backfill_keys(source.take(k)) == backfill_keys(source).take(
            backfill_keys(source.take(k)).len() as int,
        ),
    decreases source.len() - k,
{
    if k < source.len() {
        let s = source.take(k + 1);
        lemma_backfill_keys_prefix(source, k + 1);
        assert(s.drop_last() =~= source.take(k));
        let a = backfill_keys(source.take(k));
        let b = backfill_keys(s);
        let c = backfill_keys(source);
        assert(a =~= b.take(a.len() as int)) by {
            if normalizable(s.last()) {
                assert(b == a.push(s.last().identity_spec()->0));
            }
        }
        assert(a =~= c.take(a.len() as int));
    } else {
        assert(source.take(k) =~= source);
    }
}

proof fn lemma_keys_in_dest(dest: Destination, ops: Seq<WriteOp>, keys: Seq<ObjectId>)
    requires
        op_keys(ops) == keys,
    ensures
        forall|i: int| 0 <= i < keys.len() ==> apply_all(dest, ops).contains_key(#[trigger] keys[i]),
{
    lemma_apply_all_grows(dest, ops);
    assert forall|i: int| 0 <= i < keys.len() implies apply_all(dest, ops).contains_key(#[trigger] keys[i]) by {
        assert(op_keys(ops)[i] == ops[i].key());
    }
}

/// Running the backfill to completion a second time over an unchanged source,
/// writing with set-on-insert, leaves the destination exactly as the first
/// run left it: no stored field is overwritten.
pub proof fn lemma_backfill_rerun_idempotent(
    dest: Destination,
    source: Seq<Record>,
    first: Seq<WriteOp>,
    second: Seq<WriteOp>,
)
    requires
        backfill_output(source, WriteMode::UpsertSetOnInsert, first),
        backfill_output(source, WriteMode::UpsertSetOnInsert, second),
    ensures
        apply_all(apply_all(dest, first), second) == apply_all(dest, first),
{
    let d1 = apply_all(dest, first);
    lemma_backfill_output_keys(source, WriteMode::UpsertSetOnInsert, first);
    lemma_backfill_output_keys(source, WriteMode::UpsertSetOnInsert, second);
    lemma_keys_in_dest(dest, first, backfill_keys(source));
    assert forall|i: int| 0 <= i < second.len() implies (#[trigger] second[i]).keeps_existing()
        && d1.contains_key(second[i].key()) by {
        assert(op_keys(second)[i] == second[i].key());
        assert(backfill_keys(source)[i] == second[i].key());
    }
    lemma_apply_all_present(d1, second);
}

/// A live-capture write of a record wins over a backfill write of the same
/// identity, whichever of the two reaches the destination last.
pub proof fn lemma_capture_wins(dest: Destination, mode: WriteMode, backfilled: User, captured: User)
    requires
        backfilled.id == captured.id,
    ensures
        apply_all(dest, seq![backfill_op(mode, backfilled), WriteOp::UpsertSet(captured)])[captured.id]
            == captured,
        apply_all(dest, seq![WriteOp::UpsertSet(captured), backfill_op(mode, backfilled)])[captured.id]
            == captured,
{
    let a = seq![backfill_op(mode, backfilled), WriteOp::UpsertSet(captured)];
    let b = seq![WriteOp::UpsertSet(captured), backfill_op(mode, backfilled)];
    assert(a.drop_last().drop_last() =~= Seq::<WriteOp>::empty());
    assert(b.drop_last().drop_last() =~= Seq::<WriteOp>::empty());
    assert(a.drop_last() =~= seq![backfill_op(mode, backfilled)]);
    assert(b.drop_last() =~= seq![WriteOp::UpsertSet(captured)]);
    assert(apply_all(dest, b.drop_last().drop_last()) == dest);
    let m = apply_all(dest, b.drop_last());
    assert(m == dest.insert(captured.id, captured));
    assert(b.last() == backfill_op(mode, backfilled));
    assert(backfill_op(mode, backfilled).keeps_existing());
    assert(m.contains_key(captured.id));
    assert(apply_all(dest, b) == apply_op(m, b.last()));
}

/// A backfill stopped after flushing the writes for the first `k` scanned
/// records and then run again from the start leaves exactly the identities
/// in the destination that one uninterrupted run would: none lost, none
/// added, and none stored twice.
pub proof fn lemma_restart_keeps_identities(
    dest: Destination,
    source: Seq<Record>,
    k: int,
    mode: WriteMode,
    partial: Seq<WriteOp>,
    full: Seq<WriteOp>,
    alone: Seq<WriteOp>,
)
    requires
        0 <= k <= source.len(),
        backfill_output(source.take(k), mode, partial),
        backfill_output(source, mode, full),
        backfill_output(source, mode, alone),
    ensures
        apply_all(apply_all(dest, partial), full).dom() == apply_all(dest, alone).dom(),
{
    lemma_backfill_output_keys(source.take(k), mode, partial);
    lemma_backfill_output_keys(source, mode, full);
    lemma_backfill_output_keys(source, mode, alone);
    lemma_backfill_keys_prefix(source, k);
    let d1 = apply_all(dest, partial);
    let d2 = apply_all(d1, full);
    let d3 = apply_all(dest, alone);
    let keys = backfill_keys(source);
    lemma_apply_all_grows(dest, partial);
    lemma_apply_all_grows(d1, full);
    lemma_apply_all_grows(dest, alone);
    assert forall|x: ObjectId| d2.contains_key(x) implies d3.contains_key(x) by {
        if d1.contains_key(x) {
            if !dest.contains_key(x) {
                let i = choose|i: int| 0 <= i < partial.len() && partial[i].key() == x;
                assert(op_keys(partial)[i] == x);
                assert(keys[i] == x);
                assert(op_keys(alone)[i] == alone[i].key());
                assert(alone[i].key() == x);
            }
        } else {
            let i = choose|i: int| 0 <= i < full.len() && full[i].key() == x;
            assert(op_keys(full)[i] == x);
            assert(op_keys(alone)[i] == alone[i].key());
        }
    }
    assert forall|x: ObjectId| d3.contains_key(x) implies d2.contains_key(x) by {
        if !dest.contains_key(x) {
            let i = choose|i: int| 0 <= i < alone.len() && alone[i].key() == x;
            assert(op_keys(alone)[i] == x);
            assert(op_keys(full)[i] == full[i].key());
            assert(full[i].key() == x);
        }
    }
    assert(d2.dom() =~= d3.dom());
}

/// A record whose contact address is absent, null or empty adds no write to
/// the backfill: the destination receives exactly what it would without it.
pub proof fn lemma_quarantined_record_not_written(
    source: Seq<Record>,
    doc: Record,
    mode: WriteMode,
    ops: Seq<WriteOp>,
)
    requires
        email_of(doc) is None,
    ensures
        backfill_output(source.push(doc), mode, ops) <==> backfill_output(source, mode, ops),
{
    assert(source.push(doc).drop_last() =~= source);
    assert(!normalizable(source.push(doc).last()));
}

/// The records of `source` that normalize, in scan order.
pub open spec fn backfill_records(source: Seq<Record>) -> Seq<Record>
    decreases source.len(),
{
    if source.len() == 0 {
        Seq::empty()
    } else if normalizable(source.last()) {
        backfill_records(source.drop_last()).push(source.last())
    } else {
        backfill_records(source.drop_last())
    }
}

proof fn lemma_backfill_output_records(source: Seq<Record>, mode: WriteMode, ops: Seq<WriteOp>)
    requires
        backfill_output(source, mode, ops),
    ensures
        ops.len() == backfill_records(source).len(),
        forall|i: int|
            0 <= i < ops.len() ==> normalizes_to(
                #[trigger] backfill_records(source)[i],
                ops[i].user().last_updated_at_in_ms,
                ops[i].user(),
            ),
    decreases source.len(),
{
    if source.len() > 0 {
        if normalizable(source.last()) {
            let p = ops.drop_last();
            lemma_backfill_output_records(source.drop_last(), mode, p);
            let r = backfill_records(source);
            let rp = backfill_records(source.drop_last());
            assert forall|i: int| 0 <= i < ops.len() implies normalizes_to(
                #[trigger] r[i],
                ops[i].user().last_updated_at_in_ms,
                ops[i].user(),
            ) by {
                if i < ops.len() - 1 {
                    assert(p[i] == ops[i]);
                    assert(r[i] == rp[i]);
                }
            }
        } else {
            lemma_backfill_output_records(source.drop_last(), mode, ops);
        }
    }
}

proof fn lemma_backfill_records_prefix(source: Seq<Record>, k: int)
    requires
        0 <= k <= source.len(),
    ensures
        backfill_records(source.take(k)).len() <= backfill_records(source).len(),
        backfill_records(source.take(k)) == backfill_records(source).take(
            backfill_records(source.take(k)).len() as int,
        ),
    decreases source.len() - k,
{
    if k < source.len() {
        let s = source.take(k + 1);
        lemma_backfill_records_prefix(source, k + 1);
        assert(s.drop_last() =~= source.take(k));
        let a = backfill_records(source.take(k));
        let b = backfill_records(s);
        let c = backfill_records(source);
        assert(a =~= b.take(a.len() as int)) by {
            if normalizable(s.last()) {
                assert(b == a.push(s.last()));
            }
        }
        assert(a =~= c.take(a.len() as int));
    } else {
        assert(source.take(k) =~= source);
    }
}

/// Position of the first occurrence of `x` in `keys`, or -1.
pub open spec fn first_index(keys: Seq<ObjectId>, x: ObjectId) -> int
    decreases keys.len(),
{
    if keys.len() == 0 {
        -1
    } else {
        let i = first_index(keys.drop_last(), x);
        if i >= 0 {
            i
        } else if keys.last() == x {
            keys.len() - 1
        } else {
            -1
        }
    }
}

proof fn lemma_first_index(keys: Seq<ObjectId>, x: ObjectId)
    ensures
        -1 <= first_index(keys, x) < keys.len(),
        first_index(keys, x) >= 0 ==> keys[first_index(keys, x)] == x,
        first_index(keys, x) < 0 ==> forall|j: int| 0 <= j < keys.len() ==> keys[j] != x,
    decreases keys.len(),
{
    if keys.len() > 0 {
        let p = keys.drop_last();
        lemma_first_index(p, x);
        if first_index(p, x) >= 0 {
            assert(keys[first_index(p, x)] == p[first_index(p, x)]);
        }
        if first_index(keys, x) < 0 {
            assert forall|j: int| 0 <= j < keys.len() implies keys[j] != x by {
                if j < keys.len() - 1 {
                    assert(keys[j] == p[j]);
                }
            }
        }
    }
}

proof fn lemma_first_index_prefix(keys: Seq<ObjectId>, m: int, x: ObjectId)
    requires
        0 <= m <= keys.len(),
        first_index(keys.take(m), x) >= 0,
    ensures
        first_index(keys, x) == first_index(keys.take(m), x),
    decreases keys.len() - m,
{
    if m < keys.len() {
        assert(keys.take(m + 1).drop_last() =~= keys.take(m));
        assert(first_index(keys.take(m + 1), x) == first_index(keys.take(m), x));
        lemma_first_index_prefix(keys, m + 1, x);
    } else {
        assert(keys.take(m) =~= keys);
    }
}

proof fn lemma_existing_kept(dest: Destination, ops: Seq<WriteOp>, x: ObjectId)
    requires
        forall|i: int| 0 <= i < ops.len() ==> (#[trigger] ops[i]).keeps_existing(),
        dest.contains_key(x),
    ensures
        apply_all(dest, ops).contains_key(x),
        apply_all(dest, ops)[x] == dest[x],
    decreases ops.len(),
{
    if ops.len() > 0 {
        let p = ops.drop_last();
        assert forall|i: int| 0 <= i < p.len() implies (#[trigger] p[i]).keeps_existing() by {
            assert(p[i] == ops[i]);
        }
        lemma_existing_kept(dest, p, x);
        assert(ops[ops.len() - 1] == ops.last());
    }
}

proof fn lemma_first_writer(dest: Destination, ops: Seq<WriteOp>, x: ObjectId)
    requires
        forall|i: int| 0 <= i < ops.len() ==> (#[trigger] ops[i]).keeps_existing(),
        !dest.contains_key(x),
        apply_all(dest, ops).contains_key(x),
    ensures
        0 <= first_index(op_keys(ops), x) < ops.len(),
        apply_all(dest, ops)[x] == ops[first_index(op_keys(ops), x)].user(),
    decreases ops.len(),
{
    let p = ops.drop_last();
    let dp = apply_all(dest, p);
    assert forall|i: int| 0 <= i < p.len() implies (#[trigger] p[i]).keeps_existing() by {
        assert(p[i] == ops[i]);
    }
    assert(op_keys(ops).drop_last() =~= op_keys(p));
    lemma_first_index(op_keys(p), x);
    if dp.contains_key(x) {
        lemma_first_writer(dest, p, x);
        let j = first_index(op_keys(p), x);
        assert(ops[j] == p[j]);
        assert(ops[ops.len() - 1] == ops.last());
    } else {
        lemma_apply_all_grows(dest, p);
        if first_index(op_keys(p), x) >= 0 {
            let j = first_index(op_keys(p), x);
            assert(op_keys(p)[j] == p[j].key());
            assert(dp.contains_key(p[j].key()));
        }
        assert(op_keys(ops).last() == ops.last().key());
        assert(ops[ops.len() - 1] == ops.last());
    }
}

/// A backfill stopped after flushing the writes for the first `k` scanned
/// records and then run again from the start leaves each identity holding
/// what one uninterrupted run leaves: a record that was stored before stays
/// as it was, and any other holds the normalization of the same source record
/// in both cases, differing at most in the time it was normalized at.
pub proof fn lemma_restart_keeps_contents(
    dest: Destination,
    source: Seq<Record>,
    k: int,
    mode: WriteMode,
    partial: Seq<WriteOp>,
    full: Seq<WriteOp>,
    alone: Seq<WriteOp>,
    x: ObjectId,
)
    requires
        0 <= k <= source.len(),
        backfill_output(source.take(k), mode, partial),
        backfill_output(source, mode, full),
        backfill_output(source, mode, alone),
        apply_all(apply_all(dest, partial), full).contains_key(x),
    ensures
        apply_all(dest, alone).contains_key(x),
        dest.contains_key(x) ==> apply_all(apply_all(dest, partial), full)[x] == dest[x]
            && apply_all(dest, alone)[x] == dest[x],
        !dest.contains_key(x) ==> exists|i: int|
            0 <= i < backfill_records(source).len() && normalizes_to(
                #[trigger] backfill_records(source)[i],
                apply_all(apply_all(dest, partial), full)[x].last_updated_at_in_ms,
                apply_all(apply_all(dest, partial), full)[x],
            ) && normalizes_to(
                backfill_records(source)[i],
                apply_all(dest, alone)[x].last_updated_at_in_ms,
                apply_all(dest, alone)[x],
            ),
{
    lemma_restart_keeps_identities(dest, source, k, mode, partial, full, alone);
    let d1 = apply_all(dest, partial);
    let d2 = apply_all(d1, full);
    let d3 = apply_all(dest, alone);
    assert(d2.dom().contains(x));
    lemma_backfill_output_keys(source.take(k), mode, partial);
    lemma_backfill_output_keys(source, mode, full);
    lemma_backfill_output_keys(source, mode, alone);
    lemma_backfill_output_records(source.take(k), mode, partial);
    lemma_backfill_output_records(source, mode, full);
    lemma_backfill_output_records(source, mode, alone);
    lemma_backfill_keys_prefix(source, k);
    lemma_backfill_records_prefix(source, k);
    assert forall|i: int| 0 <= i < partial.len() implies (#[trigger] partial[i]).keeps_existing() by {
        assert(partial[i] == backfill_op(mode, partial[i].user()));
    }
    assert forall|i: int| 0 <= i < full.len() implies (#[trigger] full[i]).keeps_existing() by {
        assert(full[i] == backfill_op(mode, full[i].user()));
    }
    assert forall|i: int| 0 <= i < alone.len() implies (#[trigger] alone[i]).keeps_existing() by {
        assert(alone[i] == backfill_op(mode, alone[i].user()));
    }
    let keys = backfill_keys(source);
    let recs = backfill_records(source);
    if dest.contains_key(x) {
        lemma_existing_kept(dest, partial, x);
        lemma_existing_kept(d1, full, x);
        lemma_existing_kept(dest, alone, x);
    } else {
        lemma_first_writer(dest, alone, x);
        let j = first_index(keys, x);
        assert(op_keys(alone) == keys);
        assert(normalizes_to(recs[j], alone[j].user().last_updated_at_in_ms, alone[j].user()));
        if d1.contains_key(x) {
            lemma_first_writer(dest, partial, x);
            lemma_existing_kept(d1, full, x);
            let m = backfill_keys(source.take(k)).len() as int;
            assert(op_keys(partial) == keys.take(m));
            lemma_first_index_prefix(keys, m, x);
            let jp = first_index(op_keys(partial), x);
            assert(jp == j);
            let rp = backfill_records(source.take(k));
            assert(rp[j] == recs[j]);
            assert(normalizes_to(rp[j], partial[j].user().last_updated_at_in_ms, partial[j].user()));
        } else {
            lemma_first_writer(d1, full, x);
            assert(op_keys(full) == keys);
            assert(normalizes_to(recs[j], full[j].user().last_updated_at_in_ms, full[j].user()));
        }
    }
}

} // verus!
