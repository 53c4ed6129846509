use vstd::prelude::*;
use crate::query::Combinator;
use crate::records::FileResult;

verus! {

/// Ids strictly ascend along `r`; hence no id appears twice.
pub open spec fn ascending_ids(r: Seq<FileResult>) -> bool {
    forall|i: int, j: int| 0 <= i < j < r.len() ==> (#[trigger] r[i]).id < (#[trigger] r[j]).id
}

/// Row `j` is the earliest of `rows` with its id.
pub open spec fn is_first_of_id(rows: Seq<FileResult>, j: int) -> bool {
    &&& 0 <= j < rows.len()
    &&& forall|k: int| 0 <= k < j ==> (#[trigger] rows[k]).id != rows[j].id
}

/// `x` is the earliest row of `rows` with its id.
pub open spec fn is_earliest(rows: Seq<FileResult>, x: FileResult) -> bool {
    exists|j: int| is_first_of_id(rows, j) && rows[j] == x
}

/// Some record of `r` has id `id`.
pub open spec fn holds_id(r: Seq<FileResult>, id: i32) -> bool {
    exists|k: int| 0 <= k < r.len() && r[k].id == id
}

/// `r` holds, in ascending order of id, the earliest row of `rows` for each
/// id that occurs in `rows`, and nothing else.
pub open spec fn is_merge_of(rows: Seq<FileResult>, r: Seq<FileResult>) -> bool {
    &&& ascending_ids(r)
    &&& forall|k: int| 0 <= k < r.len() ==> #[trigger] is_earliest(rows, r[k])
    &&& forall|j: int| 0 <= j < rows.len() ==> #[trigger] holds_id(r, rows[j].id)
}

/// Record `k` of `out` is row `src[k]`, the earliest of its id among the
/// first `n` rows.
spec fn drawn_from(all: Seq<FileResult>, n: int, out: Seq<FileResult>, src: Seq<int>) -> bool {
    &&& src.len() == out.len()
    &&& forall|k: int|
        0 <= k < out.len() ==> {
            &&& 0 <= #[trigger] src[k] < n
            &&& is_first_of_id(all, src[k])
            &&& all[src[k]] == out[k]
        }
}

/// Row `j`, for each of the first `n` rows, has its id at `out[pos[j]]`.
spec fn covers(all: Seq<FileResult>, n: int, out: Seq<FileResult>, pos: Seq<int>) -> bool {
    &&& pos.len() == n
    &&& forall|j: int|
        0 <= j < n ==> {
            &&& 0 <= #[trigger] pos[j] < out.len()
            &&& out[pos[j]].id == all[j].id
        }
}

/// Where the positions of `pos` stand once a record is inserted at `p` for
/// row `n`.
spec fn shifted(pos: Seq<int>, p: int, n: int) -> Seq<int> {
    Seq::new(
        (n + 1) as nat,
        |j: int|
            if j == n {
                p
            } else if pos[j] >= p {
                pos[j] + 1
            } else {
                pos[j]
            },
    )
}

proof fn lemma_insert_new(
    all: Seq<FileResult>,
    n: int,
    out: Seq<FileResult>,
    src: Seq<int>,
    pos: Seq<int>,
    p: int,
)
    requires
        0 <= n < all.len(),
        0 <= p <= out.len(),
        forall|k: int| 0 <= k < p ==> (#[trigger] out[k]).id < all[n].id,
        p < out.len() ==> out[p].id > all[n].id,
        ascending_ids(out),
        drawn_from(all, n, out, src),
        covers(all, n, out, pos),
    ensures
        ascending_ids(out.insert(p, all[n])),
        drawn_from(all, n + 1, out.insert(p, all[n]), src.insert(p, n)),
        covers(all, n + 1, out.insert(p, all[n]), shifted(pos, p, n)),
{
    let w = all[n];
    let new = out.insert(p, w);
    assert forall|k: int| 0 <= k < out.len() implies (#[trigger] out[k]).id != w.id by {
        if k > p {
            assert(out[p].id < out[k].id);
        }
    }
    assert(is_first_of_id(all, n)) by {
        assert forall|j: int| 0 <= j < n implies (#[trigger] all[j]).id != all[n].id by {
            assert(out[pos[j]].id == all[j].id);
        }
    }
    assert forall|a: int, b: int| 0 <= a < b < new.len() implies (#[trigger] new[a]).id
        < (#[trigger] new[b]).id by {
        if b < p {
            assert(out[a].id < out[b].id);
        } else if b == p {
            assert(new[a] == out[a]);
        } else if a < p {
            assert(new[a] == out[a]);
            assert(new[b] == out[b - 1]);
            assert(out[a].id < w.id);
        } else if a == p {
            assert(new[b] == out[b - 1]);
        } else {
            assert(new[a] == out[a - 1]);
            assert(new[b] == out[b - 1]);
            assert(out[a - 1].id < out[b - 1].id);
        }
    }
    let nsrc = src.insert(p, n);
    assert forall|k: int| 0 <= k < new.len() implies {
        &&& 0 <= #[trigger] nsrc[k] < n + 1
        &&& is_first_of_id(all, nsrc[k])
        &&& all[nsrc[k]] == new[k]
    } by {
        if k < p {
            assert(nsrc[k] == src[k]);
            assert(new[k] == out[k]);
        } else if k > p {
            assert(nsrc[k] == src[k - 1]);
            assert(new[k] == out[k - 1]);
        }
    }
    let npos = shifted(pos, p, n);
    assert forall|j: int| 0 <= j < n + 1 implies {
        &&& 0 <= #[trigger] npos[j] < new.len()
        &&& new[npos[j]].id == all[j].id
    } by {
        if j < n {
            if pos[j] >= p {
                assert(new[pos[j] + 1] == out[pos[j]]);
            } else {
                assert(new[pos[j]] == out[pos[j]]);
            }
        }
    }
}

proof fn lemma_merge_done(all: Seq<FileResult>, out: Seq<FileResult>, src: Seq<int>, pos: Seq<int>)
    requires
        ascending_ids(out),
        drawn_from(all, all.len() as int, out, src),
        covers(all, all.len() as int, out, pos),
    ensures
        is_merge_of(all, out),
{
    assert forall|k: int| 0 <= k < out.len() implies #[trigger] is_earliest(all, out[k]) by {
        assert(is_first_of_id(all, src[k]) && all[src[k]] == out[k]);
    }
    assert forall|j: int| 0 <= j < all.len() implies #[trigger] holds_id(out, all[j].id) by {
        assert(0 <= pos[j] < out.len() && out[pos[j]].id == all[j].id);
    }
}

/// Merges the rows that several queries returned: one record per id, the
/// earliest one met, sorted by ascending id.
pub fn dedup_by_id(rows: Vec<FileResult>) -> (r: Vec<FileResult>)
    ensures
        is_merge_of(rows@, r@),
{
    let ghost all = rows@;
    let total = rows.len();
    let mut rest = rows;
    let mut out: Vec<FileResult> = Vec::new();
    let mut n: usize = 0;
    let ghost mut src: Seq<int> = Seq::empty();
    let ghost mut pos: Seq<int> = Seq::empty();
    while rest.len() > 0
        invariant
            total == all.len(),
            n + rest@.len() == all.len(),
            rest@ == all.subrange(n as int, all.len() as int),
            ascending_ids(out@),
            drawn_from(all, n as int, out@, src),
            covers(all, n as int, out@, pos),
        decreases rest@.len(),
    {
        let w = rest.remove(0);
        assert(w == all[n as int]);
        let mut p: usize = 0;
        while p < out.len() && out[p].id < w.id
            invariant
                0 <= p <= out@.len(),
                forall|k: int| 0 <= k < p ==> (#[trigger] out@[k]).id < w.id,
            decreases out@.len() - p,
        {
            p = p + 1;
        }
        if p < out.len() && out[p].id == w.id {
            proof {
                pos = pos.push(p as int);
            }
        } else {
            proof {
                lemma_insert_new(all, n as int, out@, src, pos, p as int);
                src = src.insert(p as int, n as int);
                pos = shifted(pos, p as int, n as int);
            }
            out.insert(p, w);
        }
        n = n + 1;
    }
    proof {
        lemma_merge_done(all, out@, src, pos);
    }
    out
}

proof fn lemma_id_shared(rows: Seq<FileResult>, a: Seq<FileResult>, b: Seq<FileResult>, k: int)
    requires
        is_merge_of(rows, a),
        is_merge_of(rows, b),
        0 <= k < a.len(),
    ensures
        holds_id(b, a[k].id),
{
    assert(is_earliest(rows, a[k]));
    let j = choose|j: int| is_first_of_id(rows, j) && rows[j] == a[k];
    assert(holds_id(b, rows[j].id));
}

proof fn lemma_ids_agree(rows: Seq<FileResult>, a: Seq<FileResult>, b: Seq<FileResult>, k: int)
    requires
        is_merge_of(rows, a),
        is_merge_of(rows, b),
        0 <= k <= a.len(),
        k <= b.len(),
    ensures
        forall|i: int| 0 <= i < k ==> a[i].id == b[i].id,
    decreases k,
{
    if k > 0 {
        let i = k - 1;
        lemma_ids_agree(rows, a, b, i);
        lemma_id_shared(rows, a, b, i);
        let m = choose|m: int| 0 <= m < b.len() && b[m].id == a[i].id;
        if m < i {
            assert(a[m].id < a[i].id);
        } else if m > i {
            lemma_id_shared(rows, b, a, i);
            let l = choose|l: int| 0 <= l < a.len() && a[l].id == b[i].id;
            assert(b[i].id < b[m].id);
            if l >= i {
                if l > i {
                    assert(a[i].id < a[l].id);
                }
            } else {
                assert(a[l].id == b[l].id);
                assert(b[l].id < b[i].id);
            }
        }
    }
}

/// A search over the same rows always merges to the same result: the merge
/// of a sequence of rows is unique.
pub proof fn lemma_merge_is_unique(rows: Seq<FileResult>, a: Seq<FileResult>, b: Seq<FileResult>)
    requires
        is_merge_of(rows, a),
        is_merge_of(rows, b),
    ensures
        a == b,
{
    let n = if a.len() <= b.len() { a.len() } else { b.len() };
    lemma_ids_agree(rows, a, b, n as int);
    if a.len() > b.len() {
        lemma_id_shared(rows, a, b, b.len() as int);
        let m = choose|m: int| 0 <= m < b.len() && b[m].id == a[b.len() as int].id;
        assert(a[m].id < a[b.len() as int].id);
    }
    if b.len() > a.len() {
        lemma_id_shared(rows, b, a, a.len() as int);
        let m = choose|m: int| 0 <= m < a.len() && a[m].id == b[a.len() as int].id;
        assert(b[m].id < b[a.len() as int].id);
    }
    assert forall|k: int| 0 <= k < a.len() implies a[k] == b[k] by {
        assert(is_earliest(rows, a[k]));
        assert(is_earliest(rows, b[k]));
        let j1 = choose|j: int| is_first_of_id(rows, j) && rows[j] == a[k];
        let j2 = choose|j: int| is_first_of_id(rows, j) && rows[j] == b[k];
        if j1 < j2 {
            assert(rows[j1].id != rows[j2].id);
        } else if j2 < j1 {
            assert(rows[j2].id != rows[j1].id);
        }
    }
    assert(a =~= b);
}

/// The final result of a search from the records its queries returned, in
/// the order they came: as they are for [`Combinator::All`], merged by id for
/// [`Combinator::Any`].
pub fn finish_search(c: Combinator, rows: Vec<FileResult>) -> (r: Vec<FileResult>)
    ensures
        c == Combinator::All ==> r@ == rows@,
        c == Combinator::Any ==> is_merge_of(rows@, r@),
{
    match c {
        Combinator::All => rows,
        Combinator::Any => dedup_by_id(rows),
    }
}

} // verus!
