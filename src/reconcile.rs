//! Reaction reconciliation: the stored reaction aggregates of a published
//! photo are re-synchronised to a freshly observed remote snapshot.
use vstd::prelude::*;
use crate::text::opt_view;

verus! {

/// The kind of a reaction.
#[derive(Clone, Copy, Debug, PartialEq, Eq, Structural)]
pub enum ReactionType {
    Emoji,
    CustomEmoji,
    Paid,
}

/// One remote reaction: its kind, its content (a glyph or a custom emoji id;
/// none for paid reactions) and how many users gave it.
pub struct Reactions {
    pub kind: ReactionType,
    pub content: Option<String>,
    pub count: u64,
}

/// One stored reaction aggregate of a photo.
pub struct StoredReaction {
    pub id: u128,
    pub kind: ReactionType,
    pub content: Option<String>,
    pub count: u64,
}

/// What a reconciliation does to the store: the aggregates to delete, by id,
/// and the reactions to upsert against the natural key (kind, content).
pub struct ReconcilePlan {
    pub delete: Vec<u128>,
    pub upsert: Vec<Reactions>,
}

/// The natural key of a reaction, without its photo.
pub type Descriptor = (ReactionType, Option<Seq<char>>);

/// A reaction as a descriptor and a count.
pub struct ReactionView {
    pub desc: Descriptor,
    pub count: u64,
}

/// A stored aggregate as an id, a descriptor and a count.
pub struct RowView {
    pub id: u128,
    pub desc: Descriptor,
    pub count: u64,
}

impl View for Reactions {
    type V = ReactionView;

    open spec fn view(&self) -> ReactionView {
        ReactionView { desc: (self.kind, opt_view(self.content)), count: self.count }
    }
}

impl View for StoredReaction {
    type V = RowView;

    open spec fn view(&self) -> RowView {
        RowView { id: self.id, desc: (self.kind, opt_view(self.content)), count: self.count }
    }
}

pub open spec fn reactions_view(v: Seq<Reactions>) -> Seq<ReactionView> {
    v.map_values(|r: Reactions| r@)
}

pub open spec fn rows_view(v: Seq<StoredReaction>) -> Seq<RowView> {
    v.map_values(|r: StoredReaction| r@)
}

/// The count a snapshot gives to `d`: that of its last entry with `d`.
pub open spec fn snapshot_count(rs: Seq<ReactionView>, d: Descriptor) -> Option<u64>
    decreases rs.len(),
{
    if rs.len() == 0 {
        None
    } else if rs.last().desc == d {
        Some(rs.last().count)
    } else {
        snapshot_count(rs.drop_last(), d)
    }
}

/// The count the store holds for `d`.
pub open spec fn stored_count(rows: Seq<RowView>, d: Descriptor) -> Option<u64>
    decreases rows.len(),
{
    if rows.len() == 0 {
        None
    } else if rows.last().desc == d {
        Some(rows.last().count)
    } else {
        stored_count(rows.drop_last(), d)
    }
}

/// No descriptor occurs twice.
pub open spec fn distinct_descriptors(rs: Seq<ReactionView>) -> bool {
    forall|i: int, j: int| 0 <= i < rs.len() && 0 <= j < rs.len() && i != j ==> rs[i].desc != rs[j].desc
}

/// The ids of the stored aggregates whose descriptor the snapshot lacks, in order.
pub open spec fn doomed_ids(rows: Seq<RowView>, rs: Seq<ReactionView>) -> Seq<u128>
    decreases rows.len(),
{
    if rows.len() == 0 {
        Seq::empty()
    } else if snapshot_count(rs, rows.last().desc) is None {
        doomed_ids(rows.drop_last(), rs).push(rows.last().id)
    } else {
        doomed_ids(rows.drop_last(), rs)
    }
}

/// The plan re-synchronises the store to the snapshot: it deletes exactly the
/// aggregates whose descriptor the snapshot lacks and upserts each descriptor
/// of the snapshot once, with the snapshot's count.
pub open spec fn is_plan_for(p: ReconcilePlan, rows: Seq<RowView>, rs: Seq<ReactionView>) -> bool {
    &&& p.delete@ == doomed_ids(rows, rs)
    &&& distinct_descriptors(reactions_view(p.upsert@))
    &&& forall|d: Descriptor| snapshot_count(reactions_view(p.upsert@), d) == snapshot_count(rs, d)
}

/// The store after deleting the rows with the given ids.
pub open spec fn without_ids(rows: Seq<RowView>, ids: Seq<u128>) -> Seq<RowView>
    decreases rows.len(),
{
    if rows.len() == 0 {
        rows
    } else if ids.contains(rows.last().id) {
        without_ids(rows.drop_last(), ids)
    } else {
        without_ids(rows.drop_last(), ids).push(rows.last())
    }
}

/// The store after one upsert against the natural key: a row with the same
/// descriptor takes the new count; without one, a row with `id` is added.
pub open spec fn upsert_row(rows: Seq<RowView>, r: ReactionView, id: u128) -> Seq<RowView> {
    if stored_count(rows, r.desc) is Some {
        rows.map_values(
            |row: RowView|
                if row.desc == r.desc {
                    RowView { id: row.id, desc: row.desc, count: r.count }
                } else {
                    row
                },
        )
    } else {
        rows.push(RowView { id, desc: r.desc, count: r.count })
    }
}

/// The store after upserting each reaction in turn; `fresh[i]` is the id a
/// new row for `rs[i]` receives.
pub open spec fn upsert_all(rows: Seq<RowView>, rs: Seq<ReactionView>, fresh: Seq<u128>) -> Seq<
    RowView,
>
    decreases rs.len(),
{
    if rs.len() == 0 {
        rows
    } else {
        upsert_row(upsert_all(rows, rs.drop_last(), fresh), rs.last(), fresh[rs.len() - 1])
    }
}

/// The store after a plan is carried out: deletions first, then upserts.
pub open spec fn applied(rows: Seq<RowView>, p: ReconcilePlan, fresh: Seq<u128>) -> Seq<RowView> {
    upsert_all(without_ids(rows, p.delete@), reactions_view(p.upsert@), fresh)
}

proof fn lemma_stored_count_map(rows: Seq<RowView>, r: ReactionView, d: Descriptor)
    ensures
        stored_count(
            rows.map_values(
                |row: RowView|
                    if row.desc == r.desc {
                        RowView { id: row.id, desc: row.desc, count: r.count }
                    } else {
                        row
                    },
            ),
            d,
        ) == if stored_count(rows, d) is Some && d == r.desc {
            Some(r.count)
        } else {
            stored_count(rows, d)
        },
    decreases rows.len(),
{
    let f = |row: RowView|
        if row.desc == r.desc {
            RowView { id: row.id, desc: row.desc, count: r.count }
        } else {
            row
        };
    if rows.len() > 0 {
        assert(rows.map_values(f).drop_last() =~= rows.drop_last().map_values(f));
        lemma_stored_count_map(rows.drop_last(), r, d);
    }
}

proof fn lemma_upsert_row(rows: Seq<RowView>, r: ReactionView, id: u128, d: Descriptor)
    ensures
        stored_count(upsert_row(rows, r, id), d) == if d == r.desc {
            Some(r.count)
        } else {
            stored_count(rows, d)
        },
{
    lemma_stored_count_map(rows, r, d);
    if stored_count(rows, r.desc) is None {
        assert(rows.push(RowView { id, desc: r.desc, count: r.count }).drop_last() =~= rows);
    }
}

proof fn lemma_upsert_all(rows: Seq<RowView>, rs: Seq<ReactionView>, fresh: Seq<u128>, d: Descriptor)
    requires
        fresh.len() >= rs.len(),
    ensures
        stored_count(upsert_all(rows, rs, fresh), d) == match snapshot_count(rs, d) {
            Some(c) => Some(c),
            None => stored_count(rows, d),
        },
    decreases rs.len(),
{
    if rs.len() > 0 {
        lemma_upsert_all(rows, rs.drop_last(), fresh, d);
        lemma_upsert_row(upsert_all(rows, rs.drop_last(), fresh), rs.last(), fresh[rs.len() - 1], d);
    }
}

/// Row `i` has id `id` and a descriptor that the snapshot lacks.
spec fn doomed_at(rows: Seq<RowView>, rs: Seq<ReactionView>, id: u128, i: int) -> bool {
    0 <= i < rows.len() && rows[i].id == id && snapshot_count(rs, rows[i].desc) is None
}

proof fn lemma_doomed_contains(rows: Seq<RowView>, rs: Seq<ReactionView>, id: u128)
    ensures
        doomed_ids(rows, rs).contains(id) <==> exists|i: int| doomed_at(rows, rs, id, i),
    decreases rows.len(),
{
    if rows.len() > 0 {
        let rest = rows.drop_last();
        let last = rows.last();
        let n = rows.len() - 1;
        lemma_doomed_contains(rest, rs, id);
        let dr = doomed_ids(rest, rs);
        let d = doomed_ids(rows, rs);
        let last_doomed = last.id == id && snapshot_count(rs, last.desc) is None;
        assert((exists|i: int| doomed_at(rows, rs, id, i)) <==> ((exists|i: int|
            doomed_at(rest, rs, id, i)) || last_doomed)) by {
            if exists|i: int| doomed_at(rows, rs, id, i) {
                let i = choose|i: int| doomed_at(rows, rs, id, i);
                if i < n {
                    assert(rest[i] == rows[i]);
                    assert(doomed_at(rest, rs, id, i));
                }
            }
            if exists|i: int| doomed_at(rest, rs, id, i) {
                let i = choose|i: int| doomed_at(rest, rs, id, i);
                assert(rows[i] == rest[i]);
                assert(doomed_at(rows, rs, id, i));
            }
            if last_doomed {
                assert(doomed_at(rows, rs, id, n));
            }
        }
        if snapshot_count(rs, last.desc) is None {
            assert(d == dr.push(last.id));
            assert(d.contains(id) <==> (dr.contains(id) || last.id == id)) by {
                if d.contains(id) {
                    let k = choose|k: int| 0 <= k < d.len() && d[k] == id;
                    if k < dr.len() {
                        assert(dr[k] == d[k]);
                    }
                }
                if dr.contains(id) {
                    let k = choose|k: int| 0 <= k < dr.len() && dr[k] == id;
                    assert(d[k] == dr[k]);
                }
                if last.id == id {
                    assert(d[dr.len() as int] == id);
                }
            }
        } else {
            assert(d == dr);
        }
    }
}

proof fn lemma_without_doomed(rows: Seq<RowView>, all: Seq<RowView>, rs: Seq<ReactionView>, d: Descriptor)
    requires
        all.len() >= rows.len(),
        rows == all.subrange(0, rows.len() as int),
        snapshot_count(rs, d) is None,
    ensures
        stored_count(without_ids(rows, doomed_ids(all, rs)), d) is None,
    decreases rows.len(),
{
    if rows.len() > 0 {
        let rest = rows.drop_last();
        let last = rows.last();
        let n = rows.len() - 1;
        let ids = doomed_ids(all, rs);
        assert(rest =~= all.subrange(0, rest.len() as int));
        lemma_without_doomed(rest, all, rs, d);
        assert(all[n] == rows[n]);
        if ids.contains(last.id) {
            assert(without_ids(rows, ids) == without_ids(rest, ids));
        } else {
            lemma_doomed_contains(all, rs, last.id);
            if last.desc == d {
                assert(doomed_at(all, rs, last.id, n));
            }
            assert(without_ids(rows, ids) == without_ids(rest, ids).push(last));
            assert(without_ids(rest, ids).push(last).drop_last() =~= without_ids(rest, ids));
        }
    }
}

/// For any prior stored state and any remote snapshot, including the empty
/// one, carrying out the plan that
/// reconciliation computes leaves the store holding, for every descriptor,
/// exactly the snapshot's count, and nothing for a descriptor the snapshot lacks.
pub proof fn lemma_reconcile_converges(
    stored: Seq<RowView>,
    remote: Seq<ReactionView>,
    p: ReconcilePlan,
    fresh: Seq<u128>,
)
    requires
        is_plan_for(p, stored, remote),
        fresh.len() == p.upsert@.len(),
    ensures
        forall|d: Descriptor| #[trigger]
            stored_count(applied(stored, p, fresh), d) == snapshot_count(remote, d),
{
    assert forall|d: Descriptor| #[trigger]
        stored_count(applied(stored, p, fresh), d) == snapshot_count(remote, d) by {
        assert(stored =~= stored.subrange(0, stored.len() as int));
        if snapshot_count(remote, d) is None {
            lemma_without_doomed(stored, stored, remote, d);
        }
        lemma_upsert_all(without_ids(stored, p.delete@), reactions_view(p.upsert@), fresh, d);
    }
}

proof fn lemma_count_some(rs: Seq<ReactionView>, d: Descriptor)
    ensures
        snapshot_count(rs, d) is Some <==> exists|i: int| 0 <= i < rs.len() && rs[i].desc == d,
    decreases rs.len(),
{
    if rs.len() > 0 {
        let rest = rs.drop_last();
        lemma_count_some(rest, d);
        if exists|i: int| 0 <= i < rest.len() && rest[i].desc == d {
            let i = choose|i: int| 0 <= i < rest.len() && rest[i].desc == d;
            assert(rs[i] == rest[i]);
        }
        if exists|i: int| 0 <= i < rs.len() && rs[i].desc == d {
            let i = choose|i: int| 0 <= i < rs.len() && rs[i].desc == d;
            if i < rs.len() - 1 {
                assert(rest[i] == rs[i]);
            }
        }
    }
}

proof fn lemma_count_prepend(x: ReactionView, rs: Seq<ReactionView>, d: Descriptor)
    ensures
        snapshot_count(seq![x] + rs, d) == match snapshot_count(rs, d) {
            Some(c) => Some(c),
            None => if x.desc == d {
                Some(x.count)
            } else {
                None
            },
        },
    decreases rs.len(),
{
    if rs.len() == 0 {
        assert(seq![x] + rs =~= seq![x]);
        assert(seq![x].drop_last() =~= Seq::<ReactionView>::empty());
        assert(seq![x].last() == x);
        assert(snapshot_count(Seq::<ReactionView>::empty(), d) is None);
    } else {
        assert((seq![x] + rs).drop_last() =~= seq![x] + rs.drop_last());
        assert((seq![x] + rs).last() == rs.last());
        lemma_count_prepend(x, rs.drop_last(), d);
    }
}

/// Whether two descriptors are the same.
pub fn same_descriptor(
    k1: ReactionType,
    c1: &Option<String>,
    k2: ReactionType,
    c2: &Option<String>,
) -> (r: bool)
    ensures
        r == ((k1, opt_view(*c1)) == (k2, opt_view(*c2))),
{
    if k1 != k2 {
        return false;
    }
    match c1 {
        Some(a) => match c2 {
            Some(b) => {
                let same = a.eq(b);
                same
            },
            None => false,
        },
        None => c2.is_none(),
    }
}

/// Whether some reaction of the list has the descriptor `(kind, content)`.
pub fn has_descriptor(list: &Vec<Reactions>, kind: ReactionType, content: &Option<String>) -> (r:
    bool)
    ensures
        r == (snapshot_count(reactions_view(list@), (kind, opt_view(*content))) is Some),
{
    let ghost d = (kind, opt_view(*content));
    let ghost v = reactions_view(list@);
    proof {
        lemma_count_some(v, d);
    }
    let mut i: usize = 0;
    while i < list.len()
        invariant
            v == reactions_view(list@),
            d == (kind, opt_view(*content)),
            i <= list@.len(),
            forall|j: int| 0 <= j < i ==> v[j].desc != d,
        decreases list@.len() - i,
    {
        let item = &list[i];
        assert(v[i as int] == item@);
        let same = same_descriptor(item.kind, &item.content, kind, content);
        if same {
            assert(v[i as int].desc == d);
            proof {
                lemma_count_some(v, d);
            }
            return true;
        }
        i = i + 1;
    }
    false
}

/// The reconciliation plan for a photo whose stored aggregates are `stored`,
/// given the remote snapshot `remote`: delete the stored aggregates whose
/// descriptor the snapshot lacks; upsert each descriptor of the snapshot once,
/// with the count of its last entry.
pub fn plan_reconcile(stored: &Vec<StoredReaction>, remote: Vec<Reactions>) -> (p: ReconcilePlan)
    ensures
        is_plan_for(p, rows_view(stored@), reactions_view(remote@)),
{
    let ghost orig = reactions_view(remote@);
    let ghost n = remote@.len();
    let mut rest = remote;
    let mut upsert: Vec<Reactions> = Vec::new();
    assert(orig.subrange(n as int, n as int) =~= Seq::<ReactionView>::empty());
    while rest.len() > 0
        invariant
            rest@.len() <= n,
            n == orig.len(),
            reactions_view(rest@) == orig.subrange(0, rest@.len() as int),
            distinct_descriptors(reactions_view(upsert@)),
            forall|d: Descriptor|
                snapshot_count(reactions_view(upsert@), d) == snapshot_count(
                    orig.subrange(rest@.len() as int, n as int),
                    d,
                ),
        decreases rest@.len(),
    {
        let ghost k = rest@.len();
        let ghost old_rest = rest@;
        let r = rest.pop().unwrap();
        assert(reactions_view(old_rest)[k - 1] == old_rest[k - 1]@);
        let ghost x = r@;
        proof {
            assert(reactions_view(rest@) =~= orig.subrange(0, k - 1));
            assert(x == orig[k - 1]);
            assert(orig.subrange(k - 1, n as int) =~= seq![x] + orig.subrange(k as int, n as int));
        }
        let ghost before = reactions_view(upsert@);
        let present = has_descriptor(&upsert, r.kind, &r.content);
        if !present {
            upsert.push(r);
            proof {
                assert(reactions_view(upsert@) =~= before.push(x));
                lemma_count_some(before, x.desc);
                assert forall|d: Descriptor|
                    snapshot_count(reactions_view(upsert@), d) == snapshot_count(
                        orig.subrange(k - 1, n as int),
                        d,
                    ) by {
                    assert(reactions_view(upsert@).drop_last() =~= before);
                    assert(reactions_view(upsert@).last() == x);
                    assert(snapshot_count(reactions_view(upsert@), d) == if x.desc == d {
                        Some(x.count)
                    } else {
                        snapshot_count(before, d)
                    });
                    assert(snapshot_count(before, d) == snapshot_count(
                        orig.subrange(k as int, n as int),
                        d,
                    ));
                    lemma_count_prepend(x, orig.subrange(k as int, n as int), d);
                }
            }
        } else {
            proof {
                assert forall|d: Descriptor|
                    snapshot_count(reactions_view(upsert@), d) == snapshot_count(
                        orig.subrange(k - 1, n as int),
                        d,
                    ) by {
                    lemma_count_prepend(x, orig.subrange(k as int, n as int), d);
                }
            }
        }
    }
    assert(orig.subrange(0, n as int) =~= orig);
    let ghost rows = rows_view(stored@);
    let mut delete: Vec<u128> = Vec::new();
    let mut i: usize = 0;
    while i < stored.len()
        invariant
            rows == rows_view(stored@),
            i <= stored@.len(),
            forall|d: Descriptor| snapshot_count(reactions_view(upsert@), d) == snapshot_count(orig, d),
            delete@ == doomed_ids(rows.subrange(0, i as int), orig),
        decreases stored@.len() - i,
    {
        let row = &stored[i];
        assert(rows.subrange(0, i + 1).drop_last() =~= rows.subrange(0, i as int));
        assert(rows.subrange(0, i + 1).last() == row@);
        if !has_descriptor(&upsert, row.kind, &row.content) {
            delete.push(row.id);
        }
        i = i + 1;
    }
    assert(rows.subrange(0, stored@.len() as int) =~= rows);
    ReconcilePlan { delete, upsert }
}

} // verus!
