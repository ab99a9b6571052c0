use crate::contracts::QueueIndexRange;
use vstd::prelude::*;
use vstd::set_lib::{lemma_int_range, lemma_set_disjoint_lens, set_int_range};

verus! {

/// Whether `id` lies in the closed range.
pub open spec fn range_contains(range: QueueIndexRange, id: int) -> bool {
    range.from_id <= id <= range.to_id
}

/// Whether one of the ranges holds `id`.
pub open spec fn ranges_contain(ranges: Seq<QueueIndexRange>, id: int) -> bool {
    exists|i: int| 0 <= i < ranges.len() && range_contains(#[trigger] ranges[i], id)
}

/// The ids that the ranges hold together.
pub open spec fn ids_of(ranges: Seq<QueueIndexRange>) -> Set<int> {
    Set::new(|id: int| ranges_contain(ranges, id))
}

/// The form in which a set of ids is kept: no range is empty, the ranges
/// ascend, and between two neighbours at least one id is missing, so that no
/// two ranges overlap or could be joined.
pub open spec fn is_compressed(ranges: Seq<QueueIndexRange>) -> bool {
    &&& forall|i: int| 0 <= i < ranges.len() ==> (#[trigger] ranges[i]).from_id <= ranges[i].to_id
    &&& forall|i: int, j: int|
        0 <= i < j < ranges.len() ==> (#[trigger] ranges[i]).to_id + 1 < (
        #[trigger] ranges[j]).from_id
}

/// Ranges that ascend without overlap: no range is empty, and each ends
/// before the next begins. Neighbours may touch.
pub open spec fn is_disjoint_ascending(ranges: Seq<QueueIndexRange>) -> bool {
    &&& forall|i: int| 0 <= i < ranges.len() ==> (#[trigger] ranges[i]).from_id <= ranges[i].to_id
    &&& forall|i: int, j: int|
        0 <= i < j < ranges.len() ==> (#[trigger] ranges[i]).to_id < (#[trigger] ranges[j]).from_id
}

/// Compressed ranges ascend without overlap.
pub proof fn lemma_compressed_is_disjoint(ranges: Seq<QueueIndexRange>)
    requires
        is_compressed(ranges),
    ensures
        is_disjoint_ascending(ranges),
{
}

/// How many ids the ranges hold, counted range by range.
pub open spec fn total_len(ranges: Seq<QueueIndexRange>) -> int
    decreases ranges.len(),
{
    if ranges.len() == 0 {
        0
    } else {
        total_len(ranges.drop_last()) + (ranges.last().to_id - ranges.last().from_id + 1)
    }
}

/// The ids of compressed ranges are as many as the ranges count, and all lie
/// between the first range's start and the last range's end.
pub proof fn lemma_total_len(ranges: Seq<QueueIndexRange>)
    requires
        is_compressed(ranges),
    ensures
        ids_of(ranges).finite(),
        ids_of(ranges).len() == total_len(ranges),
        ranges.len() == 0 ==> total_len(ranges) == 0,
        ranges.len() > 0 ==> 0 < total_len(ranges) <= ranges.last().to_id - ranges[0].from_id + 1,
    decreases ranges.len(),
{
    if ranges.len() == 0 {
        assert(ids_of(ranges) =~= Set::<int>::empty());
    } else {
        let front = ranges.drop_last();
        let last = ranges.last();
        lemma_total_len(front);
        let tail = set_int_range(last.from_id as int, last.to_id + 1);
        lemma_int_range(last.from_id as int, last.to_id + 1);
        assert forall|id: int| ids_of(ranges).contains(id) <==> (ids_of(front) + tail).contains(
            id,
        ) by {
            if ranges_contain(ranges, id) {
                let i = choose|i: int| 0 <= i < ranges.len() && range_contains(#[trigger] ranges[i], id);
                if i < ranges.len() - 1 {
                    assert(range_contains(front[i], id));
                }
            }
            if ranges_contain(front, id) {
                let i = choose|i: int| 0 <= i < front.len() && range_contains(#[trigger] front[i], id);
                assert(range_contains(ranges[i], id));
            }
            if tail.contains(id) {
                assert(range_contains(ranges[ranges.len() - 1], id));
            }
        }
        assert(ids_of(ranges) =~= ids_of(front) + tail);
        assert(ids_of(front).disjoint(tail)) by {
            assert forall|id: int| !(ids_of(front).contains(id) && tail.contains(id)) by {
                if ranges_contain(front, id) {
                    let i = choose|i: int| 0 <= i < front.len() && range_contains(#[trigger] front[i], id);
                    assert(ranges[i].to_id + 1 < ranges[ranges.len() - 1].from_id);
                }
            }
        }
        lemma_set_disjoint_lens(ids_of(front), tail);
        if front.len() > 0 {
            assert(front.last() == ranges[ranges.len() - 2]);
            assert(front[0] == ranges[0]);
            assert(ranges[ranges.len() - 2].to_id + 1 < ranges[ranges.len() - 1].from_id);
        }
    }
}

/// Compressed ranges that are changed in one place so that this range also
/// holds `id`, and nothing else new, hold the old ids and `id`.
proof fn lemma_widen(ranges: Seq<QueueIndexRange>, i: int, wider: QueueIndexRange, id: int)
    requires
        0 <= i < ranges.len(),
        forall|x: int| range_contains(wider, x) <==> range_contains(ranges[i], x) || x == id,
    ensures
        ids_of(ranges.update(i, wider)) == ids_of(ranges).insert(id),
{
    let widened = ranges.update(i, wider);
    assert forall|x: int| ids_of(widened).contains(x) <==> ids_of(ranges).insert(id).contains(
        x,
    ) by {
        if ranges_contain(widened, x) {
            let k = choose|k: int| 0 <= k < widened.len() && range_contains(#[trigger] widened[k], x);
            if k != i {
                assert(range_contains(ranges[k], x));
            } else if x != id {
                assert(range_contains(ranges[i], x));
            }
        }
        if ranges_contain(ranges, x) {
            let k = choose|k: int| 0 <= k < ranges.len() && range_contains(#[trigger] ranges[k], x);
            assert(range_contains(widened[k], x));
        }
        if x == id {
            assert(range_contains(widened[i], x));
        }
    }
    assert(ids_of(widened) =~= ids_of(ranges).insert(id));
}

/// Ranges into which the range of `id` alone is put hold the old ids and `id`.
proof fn lemma_insert_single(ranges: Seq<QueueIndexRange>, i: int, id: i64)
    requires
        0 <= i <= ranges.len(),
    ensures
        ids_of(ranges.insert(i, QueueIndexRange { from_id: id, to_id: id })) == ids_of(
            ranges,
        ).insert(id as int),
{
    let single = QueueIndexRange { from_id: id, to_id: id };
    let grown = ranges.insert(i, single);
    assert forall|x: int| ids_of(grown).contains(x) <==> ids_of(ranges).insert(id as int).contains(
        x,
    ) by {
        if ranges_contain(grown, x) {
            let k = choose|k: int| 0 <= k < grown.len() && range_contains(#[trigger] grown[k], x);
            if k < i {
                assert(range_contains(ranges[k], x));
            } else if k > i {
                assert(range_contains(ranges[k - 1], x));
            }
        }
        if ranges_contain(ranges, x) {
            let k = choose|k: int| 0 <= k < ranges.len() && range_contains(#[trigger] ranges[k], x);
            if k < i {
                assert(range_contains(grown[k], x));
            } else {
                assert(range_contains(grown[k + 1], x));
            }
        }
        if x == id {
            assert(range_contains(grown[i], x));
        }
    }
    assert(ids_of(grown) =~= ids_of(ranges).insert(id as int));
}

/// Two neighbours between which only `id` was missing, joined into one range,
/// hold the old ids and `id`.
proof fn lemma_join(ranges: Seq<QueueIndexRange>, i: int, id: int)
    requires
        0 <= i < ranges.len() - 1,
        ranges[i].from_id <= ranges[i].to_id,
        ranges[i + 1].from_id <= ranges[i + 1].to_id,
        ranges[i].to_id + 1 == id,
        id + 1 == ranges[i + 1].from_id,
    ensures
        ids_of(
            ranges.update(
                i,
                QueueIndexRange { from_id: ranges[i].from_id, to_id: ranges[i + 1].to_id },
            ).remove(i + 1),
        ) == ids_of(ranges).insert(id),
{
    let joined = QueueIndexRange { from_id: ranges[i].from_id, to_id: ranges[i + 1].to_id };
    let shrunk = ranges.update(i, joined).remove(i + 1);
    assert forall|x: int| ids_of(shrunk).contains(x) <==> ids_of(ranges).insert(id).contains(
        x,
    ) by {
        if ranges_contain(shrunk, x) {
            let k = choose|k: int| 0 <= k < shrunk.len() && range_contains(#[trigger] shrunk[k], x);
            if k < i {
                assert(range_contains(ranges[k], x));
            } else if k > i {
                assert(range_contains(ranges[k + 1], x));
            } else if x < id {
                assert(range_contains(ranges[i], x));
            } else if x > id {
                assert(range_contains(ranges[i + 1], x));
            }
        }
        if ranges_contain(ranges, x) {
            let k = choose|k: int| 0 <= k < ranges.len() && range_contains(#[trigger] ranges[k], x);
            if k <= i {
                assert(range_contains(shrunk[k], x));
            } else if k == i + 1 {
                assert(range_contains(shrunk[i], x));
            } else {
                assert(range_contains(shrunk[k - 1], x));
            }
        }
        if x == id {
            assert(range_contains(shrunk[i], x));
        }
    }
    assert(ids_of(shrunk) =~= ids_of(ranges).insert(id));
}

/// In compressed ranges the first range starts at the lowest id, and the id
/// after its end is missing.
proof fn lemma_first_range(ranges: Seq<QueueIndexRange>)
    requires
        is_compressed(ranges),
        ranges.len() > 0,
    ensures
        ids_of(ranges).contains(ranges[0].from_id as int),
        forall|id: int| ids_of(ranges).contains(id) ==> ranges[0].from_id <= id,
        forall|id: int| ranges[0].from_id <= id <= ranges[0].to_id ==> ids_of(ranges).contains(id),
        !ids_of(ranges).contains(ranges[0].to_id + 1),
        forall|id: int|
            ids_of(ranges.drop_first()).contains(id) <==> ids_of(ranges).contains(id) && id
                > ranges[0].to_id,
{
    assert(range_contains(ranges[0], ranges[0].from_id as int));
    assert forall|id: int| ids_of(ranges).contains(id) implies ranges[0].from_id <= id by {
        let k = choose|k: int| 0 <= k < ranges.len() && range_contains(#[trigger] ranges[k], id);
        if k > 0 {
            assert(ranges[0].to_id + 1 < ranges[k].from_id);
        }
    }
    assert forall|id: int| ranges[0].from_id <= id <= ranges[0].to_id implies ids_of(
        ranges,
    ).contains(id) by {
        assert(range_contains(ranges[0], id));
    }
    if ranges_contain(ranges, ranges[0].to_id + 1) {
        let k = choose|k: int|
            0 <= k < ranges.len() && range_contains(#[trigger] ranges[k], ranges[0].to_id + 1);
        if k > 0 {
            assert(ranges[0].to_id + 1 < ranges[k].from_id);
        }
    }
    let rest = ranges.drop_first();
    assert forall|id: int|
        ids_of(rest).contains(id) <==> ids_of(ranges).contains(id) && id > ranges[0].to_id by {
        if ranges_contain(rest, id) {
            let k = choose|k: int| 0 <= k < rest.len() && range_contains(#[trigger] rest[k], id);
            assert(range_contains(ranges[k + 1], id));
            assert(ranges[0].to_id + 1 < ranges[k + 1].from_id);
        }
        if ranges_contain(ranges, id) && id > ranges[0].to_id {
            let k = choose|k: int| 0 <= k < ranges.len() && range_contains(#[trigger] ranges[k], id);
            assert(k > 0);
            assert(range_contains(rest[k - 1], id));
        }
    }
}

/// A set of ids has one compressed form only: compressed ranges that hold the
/// same ids are the same ranges.
pub proof fn lemma_compressed_form_is_unique(a: Seq<QueueIndexRange>, b: Seq<QueueIndexRange>)
    requires
        is_compressed(a),
        is_compressed(b),
        ids_of(a) == ids_of(b),
    ensures
        a == b,
    decreases a.len(),
{
    if a.len() == 0 {
        if b.len() > 0 {
            lemma_first_range(b);
            assert(ranges_contain(a, b[0].from_id as int));
        }
        assert(a =~= b);
    } else {
        lemma_first_range(a);
        if b.len() == 0 {
            assert(ranges_contain(b, a[0].from_id as int));
        }
        lemma_first_range(b);
        assert(a[0].from_id == b[0].from_id);
        assert(a[0].from_id <= a[0].to_id && b[0].from_id <= b[0].to_id);
        if a[0].to_id < b[0].to_id {
            assert(ids_of(b).contains(a[0].to_id + 1));
        }
        if b[0].to_id < a[0].to_id {
            assert(ids_of(a).contains(b[0].to_id + 1));
        }
        assert(a[0] == b[0]);
        let a_rest = a.drop_first();
        let b_rest = b.drop_first();
        assert(is_compressed(a_rest)) by {
            assert forall|i: int, j: int| 0 <= i < j < a_rest.len() implies (#[trigger] a_rest[i]).to_id
                + 1 < (#[trigger] a_rest[j]).from_id by {
                assert(a[i + 1].to_id + 1 < a[j + 1].from_id);
            }
            assert forall|i: int| 0 <= i < a_rest.len() implies (#[trigger] a_rest[i]).from_id
                <= a_rest[i].to_id by {
                assert(a[i + 1].from_id <= a[i + 1].to_id);
            }
        }
        assert(is_compressed(b_rest)) by {
            assert forall|i: int, j: int| 0 <= i < j < b_rest.len() implies (#[trigger] b_rest[i]).to_id
                + 1 < (#[trigger] b_rest[j]).from_id by {
                assert(b[i + 1].to_id + 1 < b[j + 1].from_id);
            }
            assert forall|i: int| 0 <= i < b_rest.len() implies (#[trigger] b_rest[i]).from_id
                <= b_rest[i].to_id by {
                assert(b[i + 1].from_id <= b[i + 1].to_id);
            }
        }
        assert forall|id: int| ids_of(a_rest).contains(id) <==> ids_of(b_rest).contains(id) by {
            assert(ids_of(a_rest).contains(id) <==> ids_of(a).contains(id) && id > a[0].to_id);
            assert(ids_of(b_rest).contains(id) <==> ids_of(b).contains(id) && id > b[0].to_id);
        }
        assert(ids_of(a_rest) =~= ids_of(b_rest));
        lemma_compressed_form_is_unique(a_rest, b_rest);
        assert(a =~= seq![a[0]] + a_rest);
        assert(b =~= seq![b[0]] + b_rest);
    }
}

/// The compressed form of a set of ids: the ranges that hold exactly these
/// ids, lowest first, with at least one missing id between neighbours.
pub open spec fn compressed_form(ids: Set<int>) -> Seq<QueueIndexRange> {
    choose|ranges: Seq<QueueIndexRange>| is_compressed(ranges) && ids_of(ranges) == ids
}

/// Compressed ranges are the compressed form of the ids that they hold.
pub proof fn lemma_compressed_form(ranges: Seq<QueueIndexRange>)
    requires
        is_compressed(ranges),
    ensures
        compressed_form(ids_of(ranges)) == ranges,
{
    let chosen = compressed_form(ids_of(ranges));
    lemma_compressed_form_is_unique(chosen, ranges);
}

/// A set of message ids, kept as closed ranges in compressed form.
#[derive(Debug)]
pub struct IntervalSet {
    ranges: Vec<QueueIndexRange>,
}

impl View for IntervalSet {
    type V = Set<int>;

    closed spec fn view(&self) -> Set<int> {
        ids_of(self.ranges@)
    }
}

impl IntervalSet {
    /// The ranges are in compressed form.
    pub closed spec fn wf(self) -> bool {
        is_compressed(self.ranges@)
    }

    /// The ranges in which the ids are kept.
    pub closed spec fn ranges(self) -> Seq<QueueIndexRange> {
        self.ranges@
    }

    /// How the ranges stand for the set: they are the compressed form of the
    /// set, and the set is finite.
    pub proof fn lemma_ranges(self)
        requires
            self.wf(),
        ensures
            is_compressed(self.ranges()),
            self@ == ids_of(self.ranges()),
            self.ranges() == compressed_form(self@),
            self@.finite(),
            self@.len() == total_len(self.ranges()),
    {
        lemma_total_len(self.ranges@);
        lemma_compressed_form(self.ranges@);
    }

    /// The empty set.
    pub fn new() -> (set: Self)
        ensures
            set.wf(),
            set@ == Set::<int>::empty(),
            set.ranges() == Seq::<QueueIndexRange>::empty(),
    {
        let set = Self { ranges: Vec::new() };
        assert(ids_of(set.ranges@) =~= Set::<int>::empty());
        set
    }

    /// Takes a list of ranges in: a snapshot, or any list of ranges that
    /// ascend without overlap. Neighbours that touch are joined, so that the
    /// set is kept in compressed form. A list with an empty range, or one
    /// whose ranges overlap or do not ascend, is refused.
    pub fn restore(snapshot: Vec<QueueIndexRange>) -> (restored: Option<Self>)
        ensures
            is_disjoint_ascending(snapshot@) <==> restored is Some,
            restored matches Some(set) ==> set.wf() && set@ == ids_of(snapshot@) && set.ranges()
                == compressed_form(ids_of(snapshot@)),
            restored matches Some(set) ==> (is_compressed(snapshot@) ==> set.ranges() == snapshot@),
    {
        let mut ranges: Vec<QueueIndexRange> = Vec::new();
        let mut i: usize = 0;
        while i < snapshot.len()
            invariant
                i <= snapshot@.len(),
                is_disjoint_ascending(snapshot@.take(i as int)),
                is_compressed(ranges@),
                forall|id: int|
                    ranges_contain(ranges@, id) <==> ranges_contain(snapshot@.take(i as int), id),
                i == 0 ==> ranges@.len() == 0,
                i > 0 ==> ranges@.len() > 0 && ranges@.last().to_id == snapshot@[i as int - 1].to_id,
            decreases snapshot@.len() - i,
        {
            let range = snapshot[i];
            let ghost checked = snapshot@.take(i as int);
            let ghost next = snapshot@.take(i as int + 1);
            let ghost kept = ranges@;
            if range.from_id > range.to_id {
                assert(!is_disjoint_ascending(snapshot@)) by {
                    assert(snapshot@[i as int].from_id > snapshot@[i as int].to_id);
                }
                return None;
            }
            if i > 0 && snapshot[i - 1].to_id >= range.from_id {
                assert(!is_disjoint_ascending(snapshot@)) by {
                    assert(snapshot@[i as int - 1].to_id >= snapshot@[i as int].from_id);
                }
                return None;
            }
            assert(is_disjoint_ascending(next)) by {
                assert forall|a: int, b: int| 0 <= a < b < next.len() implies (#[trigger] next[a]).to_id
                    < (#[trigger] next[b]).from_id by {
                    if b < i {
                        assert(checked[a].to_id < checked[b].from_id);
                    } else if a < i - 1 {
                        assert(checked[a].to_id < checked[i as int - 1].from_id);
                        assert(checked[i as int - 1].from_id <= checked[i as int - 1].to_id);
                    }
                }
                assert forall|a: int| 0 <= a < next.len() implies (#[trigger] next[a]).from_id
                    <= next[a].to_id by {
                    if a < i {
                        assert(checked[a].from_id <= checked[a].to_id);
                    }
                }
            }
            let n = ranges.len();
            if n > 0 && ranges[n - 1].to_id + 1 == range.from_id {
                let joined = QueueIndexRange { from_id: ranges[n - 1].from_id, to_id: range.to_id };
                ranges[n - 1] = joined;
                proof {
                    let after = ranges@;
                    assert(after == kept.update(n as int - 1, joined));
                    assert(kept[n as int - 1].from_id <= kept[n as int - 1].to_id);
                    assert forall|a: int, b: int| 0 <= a < b < after.len() implies (
                    #[trigger] after[a]).to_id + 1 < (#[trigger] after[b]).from_id by {
                        assert(kept[a].to_id + 1 < kept[b].from_id);
                    }
                    assert forall|a: int| 0 <= a < after.len() implies (#[trigger] after[a]).from_id
                        <= after[a].to_id by {
                        if a < n - 1 {
                            assert(kept[a].from_id <= kept[a].to_id);
                        }
                    }
                    assert forall|id: int| ranges_contain(after, id) <==> ranges_contain(
                        next,
                        id,
                    ) by {
                        if ranges_contain(after, id) {
                            let k = choose|k: int|
                                0 <= k < after.len() && range_contains(#[trigger] after[k], id);
                            if k < n - 1 || id <= kept[n as int - 1].to_id {
                                assert(range_contains(kept[k], id));
                                assert(ranges_contain(kept, id));
                                let c = choose|c: int|
                                    0 <= c < checked.len() && range_contains(
                                        #[trigger] checked[c],
                                        id,
                                    );
                                assert(range_contains(next[c], id));
                            } else {
                                assert(range_contains(next[i as int], id));
                            }
                        }
                        if ranges_contain(next, id) {
                            let c = choose|c: int|
                                0 <= c < next.len() && range_contains(#[trigger] next[c], id);
                            if c < i {
                                assert(range_contains(checked[c], id));
                                assert(ranges_contain(kept, id));
                                let k = choose|k: int|
                                    0 <= k < kept.len() && range_contains(#[trigger] kept[k], id);
                                assert(range_contains(after[k], id));
                            } else {
                                assert(range_contains(after[n as int - 1], id));
                            }
                        }
                    }
                }
            } else {
                ranges.push(range);
                proof {
                    let after = ranges@;
                    assert(after == kept.push(range));
                    assert forall|a: int, b: int| 0 <= a < b < after.len() implies (
                    #[trigger] after[a]).to_id + 1 < (#[trigger] after[b]).from_id by {
                        if b < n {
                            assert(kept[a].to_id + 1 < kept[b].from_id);
                        } else {
                            assert(kept[n as int - 1].from_id <= kept[n as int - 1].to_id);
                            if a < n - 1 {
                                assert(kept[a].to_id + 1 < kept[n as int - 1].from_id);
                            }
                        }
                    }
                    assert forall|a: int| 0 <= a < after.len() implies (#[trigger] after[a]).from_id
                        <= after[a].to_id by {
                        if a < n {
                            assert(kept[a].from_id <= kept[a].to_id);
                        }
                    }
                    assert forall|id: int| ranges_contain(after, id) <==> ranges_contain(
                        next,
                        id,
                    ) by {
                        if ranges_contain(after, id) {
                            let k = choose|k: int|
                                0 <= k < after.len() && range_contains(#[trigger] after[k], id);
                            if k < n {
                                assert(range_contains(kept[k], id));
                                assert(ranges_contain(kept, id));
                                let c = choose|c: int|
                                    0 <= c < checked.len() && range_contains(
                                        #[trigger] checked[c],
                                        id,
                                    );
                                assert(range_contains(next[c], id));
                            } else {
                                assert(range_contains(next[i as int], id));
                            }
                        }
                        if ranges_contain(next, id) {
                            let c = choose|c: int|
                                0 <= c < next.len() && range_contains(#[trigger] next[c], id);
                            if c < i {
                                assert(range_contains(checked[c], id));
                                assert(ranges_contain(kept, id));
                                let k = choose|k: int|
                                    0 <= k < kept.len() && range_contains(#[trigger] kept[k], id);
                                assert(range_contains(after[k], id));
                            } else {
                                assert(range_contains(after[n as int], id));
                            }
                        }
                    }
                }
            }
            i += 1;
        }
        proof {
            assert(snapshot@.take(snapshot@.len() as int) == snapshot@);
            assert(ids_of(ranges@) =~= ids_of(snapshot@));
            lemma_compressed_form(ranges@);
            if is_compressed(snapshot@) {
                lemma_compressed_form(snapshot@);
            }
        }
        Some(Self { ranges })
    }

    /// Whether the set is empty.
    pub fn is_empty(&self) -> (empty: bool)
        requires
            self.wf(),
        ensures
            empty == (self@ == Set::<int>::empty()),
    {
        proof {
            if self.ranges@.len() > 0 {
                assert(range_contains(self.ranges@[0], self.ranges@[0].from_id as int));
                assert(ids_of(self.ranges@).contains(self.ranges@[0].from_id as int));
            } else {
                assert(ids_of(self.ranges@) =~= Set::<int>::empty());
            }
        }
        self.ranges.len() == 0
    }

    /// Whether `id` is in the set.
    pub fn has(&self, id: i64) -> (found: bool)
        ensures
            found == self@.contains(id as int),
    {
        let mut i: usize = 0;
        while i < self.ranges.len()
            invariant
                i <= self.ranges@.len(),
                forall|j: int| 0 <= j < i ==> !range_contains(#[trigger] self.ranges@[j], id as int),
            decreases self.ranges@.len() - i,
        {
            if self.ranges[i].from_id <= id && id <= self.ranges[i].to_id {
                assert(range_contains(self.ranges@[i as int], id as int));
                return true;
            }
            i += 1;
        }
        false
    }

    /// Puts `id` into the set. A range that `id` touches grows by it, two
    /// ranges between which only `id` was missing become one, and an id that
    /// touches no range gets a range of its own.
    pub fn enqueue(&mut self, id: i64)
        requires
            old(self).wf(),
        ensures
            final(self).wf(),
            final(self)@ == old(self)@.insert(id as int),
    {
        let ghost before = self.ranges@;
        let n = self.ranges.len();
        let mut i: usize = 0;
        while i < n && self.ranges[i].to_id < id && self.ranges[i].to_id + 1 < id
            invariant
                n == self.ranges@.len(),
                i <= n,
                self.ranges@ == before,
                forall|j: int| 0 <= j < i ==> (#[trigger] before[j]).to_id + 1 < id,
            decreases n - i,
        {
            i += 1;
        }
        if i == n {
            proof {
                lemma_insert_single(before, n as int, id);
                assert(before.insert(n as int, QueueIndexRange { from_id: id, to_id: id })
                    == before.push(QueueIndexRange { from_id: id, to_id: id }));
            }
            self.ranges.push(QueueIndexRange { from_id: id, to_id: id });
            return ;
        }
        let range = self.ranges[i];
        assert(range == before[i as int]);
        assert(range.to_id + 1 >= id);
        assert(range.from_id <= range.to_id);
        if range.from_id <= id && id <= range.to_id {
            proof {
                assert(range_contains(before[i as int], id as int));
                assert(ids_of(before).insert(id as int) =~= ids_of(before));
            }
        } else if range.to_id < id {
            if i + 1 < n && self.ranges[i + 1].from_id == id + 1 {
                let joined = QueueIndexRange {
                    from_id: range.from_id,
                    to_id: self.ranges[i + 1].to_id,
                };
                proof {
                    assert(before[i as int + 1].from_id <= before[i as int + 1].to_id);
                    lemma_join(before, i as int, id as int);
                }
                self.ranges[i] = joined;
                self.ranges.remove(i + 1);
                proof {
                    let after = self.ranges@;
                    assert(after == before.update(i as int, joined).remove(i as int + 1));
                    assert forall|a: int, b: int| 0 <= a < b < after.len() implies (
                    #[trigger] after[a]).to_id + 1 < (#[trigger] after[b]).from_id by {
                        let a0 = if a <= i { a } else { a + 1 };
                        let a1 = if a < i { a } else { a + 1 };
                        let b0 = b + 1;
                        assert(before[a1].to_id + 1 < before[b0].from_id);
                        if a < i && b == i {
                            assert(before[a].to_id + 1 < before[i as int].from_id);
                        } else if a < i {
                            assert(before[a].to_id + 1 < before[b0].from_id);
                        }
                    }
                    assert forall|a: int| 0 <= a < after.len() implies (#[trigger] after[a]).from_id
                        <= after[a].to_id by {
                        if a < i {
                            assert(before[a].from_id <= before[a].to_id);
                        } else if a > i {
                            assert(before[a + 1].from_id <= before[a + 1].to_id);
                        } else {
                            assert(before[i as int].to_id + 1 < before[i as int + 1].from_id);
                        }
                    }
                }
            } else {
                let wider = QueueIndexRange { from_id: range.from_id, to_id: id };
                proof {
                    lemma_widen(before, i as int, wider, id as int);
                }
                self.ranges[i] = wider;
                proof {
                    let after = self.ranges@;
                    assert(after == before.update(i as int, wider));
                    assert forall|a: int, b: int| 0 <= a < b < after.len() implies (
                    #[trigger] after[a]).to_id + 1 < (#[trigger] after[b]).from_id by {
                        assert(before[a].to_id + 1 < before[b].from_id);
                        if a == i {
                            assert(before[i as int].to_id + 1 < before[i as int + 1].from_id);
                            if b > i + 1 {
                                assert(before[i as int + 1].to_id + 1 < before[b].from_id);
                                assert(before[i as int + 1].from_id <= before[i as int + 1].to_id);
                            }
                        }
                    }
                    assert forall|a: int| 0 <= a < after.len() implies (#[trigger] after[a]).from_id
                        <= after[a].to_id by {
                        if a != i {
                            assert(before[a].from_id <= before[a].to_id);
                        }
                    }
                }
            }
        } else if id + 1 == range.from_id {
            let wider = QueueIndexRange { from_id: id, to_id: range.to_id };
            proof {
                lemma_widen(before, i as int, wider, id as int);
            }
            self.ranges[i] = wider;
            proof {
                let after = self.ranges@;
                assert(after == before.update(i as int, wider));
                assert forall|a: int, b: int| 0 <= a < b < after.len() implies (#[trigger] after[a]).to_id
                    + 1 < (#[trigger] after[b]).from_id by {
                    assert(before[a].to_id + 1 < before[b].from_id);
                }
                assert forall|a: int| 0 <= a < after.len() implies (#[trigger] after[a]).from_id
                    <= after[a].to_id by {
                    if a != i {
                        assert(before[a].from_id <= before[a].to_id);
                    }
                }
            }
        } else {
            let single = QueueIndexRange { from_id: id, to_id: id };
            proof {
                lemma_insert_single(before, i as int, id);
            }
            self.ranges.insert(i, single);
            proof {
                let after = self.ranges@;
                assert(after == before.insert(i as int, single));
                assert forall|a: int, b: int| 0 <= a < b < after.len() implies (#[trigger] after[a]).to_id
                    + 1 < (#[trigger] after[b]).from_id by {
                    let a0 = if a < i { a } else { a - 1 };
                    let b0 = if b < i { b } else { b - 1 };
                    if a != i && b != i {
                        assert(before[a0].to_id + 1 < before[b0].from_id);
                    } else if a == i {
                        if b0 > i {
                            assert(before[i as int].to_id + 1 < before[b0].from_id);
                        }
                    } else {
                        assert(before[a0].to_id + 1 < id);
                    }
                }
                assert forall|a: int| 0 <= a < after.len() implies (#[trigger] after[a]).from_id
                    <= after[a].to_id by {
                    if a < i {
                        assert(before[a].from_id <= before[a].to_id);
                    } else if a > i {
                        assert(before[a - 1].from_id <= before[a - 1].to_id);
                    }
                }
            }
        }
    }

    /// How many ids the set holds. The count is wider than the ids, so that it
    /// is exact even for the set of all of them.
    pub fn len(&self) -> (count: u128)
        requires
            self.wf(),
        ensures
            count == self@.len(),
    {
        let mut count: u128 = 0;
        let mut i: usize = 0;
        proof {
            lemma_total_len(self.ranges@);
            lemma_total_len(self.ranges@.take(0));
        }
        while i < self.ranges.len()
            invariant
                i <= self.ranges@.len(),
                is_compressed(self.ranges@),
                count == total_len(self.ranges@.take(i as int)),
            decreases self.ranges@.len() - i,
        {
            let range = self.ranges[i];
            proof {
                let next = self.ranges@.take(i as int + 1);
                assert(next.drop_last() == self.ranges@.take(i as int));
                assert(next.last() == self.ranges@[i as int]);
                assert(is_compressed(next)) by {
                    assert forall|a: int, b: int| 0 <= a < b < next.len() implies (
                    #[trigger] next[a]).to_id + 1 < (#[trigger] next[b]).from_id by {
                        assert(self.ranges@[a].to_id + 1 < self.ranges@[b].from_id);
                    }
                    assert forall|a: int| 0 <= a < next.len() implies (#[trigger] next[a]).from_id
                        <= next[a].to_id by {
                        assert(self.ranges@[a].from_id <= self.ranges@[a].to_id);
                    }
                }
                lemma_total_len(next);
                assert(next[0] == self.ranges@[0]);
            }
            let size: u128 = (range.to_id as i128 - range.from_id as i128 + 1) as u128;
            count = count + size;
            i += 1;
        }
        proof {
            assert(self.ranges@.take(self.ranges@.len() as int) == self.ranges@);
        }
        count
    }

    /// The ranges of the set, lowest first. What comes out can be taken back
    /// in with `restore`.
    pub fn get_snapshot(&self) -> (snapshot: Vec<QueueIndexRange>)
        requires
            self.wf(),
        ensures
            snapshot@ == self.ranges(),
            snapshot@ == compressed_form(self@),
    {
        proof {
            self.lemma_ranges();
        }
        self.ranges.clone()
    }
}

/// A snapshot of a set is in the form that `restore` accepts and stands for
/// exactly the ids of the set: taking it back in gives the same set. And two
/// sets with the same ids have the same snapshot.
pub proof fn lemma_snapshot_round_trip(set: IntervalSet, other: IntervalSet)
    requires
        set.wf(),
        other.wf(),
    ensures
        is_compressed(set.ranges()),
        is_disjoint_ascending(set.ranges()),
        ids_of(set.ranges()) == set@,
        set@ == other@ ==> set.ranges() == other.ranges(),
{
    set.lemma_ranges();
    other.lemma_ranges();
}

} // verus!
