use vstd::prelude::*;
use vstd::seq_lib::{to_multiset_build, to_multiset_insert};

verus! {

/// The tables that a row can refer to through a foreign key.
#[derive(Debug, Clone, Copy, PartialEq, Eq, Structural)]
pub enum Link {
    Producto,
    Proveedor,
    ProductoProveedor,
    Presentacion,
    Almacen,
    Factura,
}

/// A row of a table: it has an identity key, it can be copied exactly, and it
/// says which rows of other tables it refers to.
pub trait Row: Sized {
    spec fn row_id(&self) -> int;

    /// Whether this row's foreign key to the table `link` holds `id`.
    spec fn points_to(&self, link: Link, id: int) -> bool;

    fn id(&self) -> (r: i32)
        ensures
            r as int == self.row_id(),
    ;

    fn duplicate(&self) -> (r: Self)
        ensures
            r == *self,
    ;

    fn refers_to(&self, link: Link, id: i32) -> (r: bool)
        ensures
            r == self.points_to(link, id as int),
    ;
}

/// The column that a query orders its rows by.
#[derive(Debug, Clone, Copy, PartialEq, Eq, Structural)]
pub enum SortBy {
    Fecha,
    ProductoProveedor,
    Almacen,
}

/// A row that can be ordered by the columns of `SortBy` that it has.
pub trait Ranked: Row {
    /// Three-way comparison of the sort keys of two rows: -1, 0 or 1.
    spec fn key_cmp(&self, other: &Self, by: SortBy) -> int;

    fn compare_key(&self, other: &Self, by: SortBy) -> (c: i8)
        ensures
            c as int == self.key_cmp(other, by),
    ;

    proof fn lemma_key_cmp_antisymmetric(a: &Self, b: &Self, by: SortBy)
        ensures
            a.key_cmp(b, by) == -b.key_cmp(a, by),
            -1 <= a.key_cmp(b, by) <= 1,
    ;
}

/// Whether `a` comes strictly before `b` when ordering by `by`, ascending or
/// descending; rows with equal sort keys come in key order.
pub open spec fn precedes<R: Ranked>(a: R, b: R, by: SortBy, descending: bool) -> bool {
    let c = if descending { b.key_cmp(&a, by) } else { a.key_cmp(&b, by) };
    c < 0 || (c == 0 && a.row_id() < b.row_id())
}

/// Each row of `s` comes before the next one.
pub open spec fn in_order<R: Ranked>(s: Seq<R>, by: SortBy, descending: bool) -> bool {
    forall|i: int| 0 <= i < s.len() - 1 ==> #[trigger] precedes(s[i], s[i + 1], by, descending)
}

/// A listing that holds, in any order, exactly the rows of a one-row listing
/// is that listing.
pub proof fn lemma_single_listing<R>(v: Seq<R>, x: R)
    requires
        v.to_multiset() == seq![x].to_multiset(),
    ensures
        v == seq![x],
{
    broadcast use vstd::seq_lib::group_to_multiset_ensures;

    assert(seq![x].to_multiset().count(x) > 0) by {
        assert(seq![x].contains(x) ==> seq![x].to_multiset().count(x) > 0);
        assert(seq![x][0] == x);
    }
    vstd::seq_lib::to_multiset_len(v);
    vstd::seq_lib::to_multiset_len(seq![x]);
    assert(v.len() == 1);
    assert(v.contains(v[0]));
    assert(v.to_multiset().count(v[0]) > 0);
    assert(seq![x].contains(v[0]));
    assert(v =~= seq![x]);
}

/// A listing that holds, in any order, the rows of an empty listing is empty.
pub proof fn lemma_empty_listing<R>(v: Seq<R>)
    requires
        v.to_multiset() == Seq::<R>::empty().to_multiset(),
    ensures
        v == Seq::<R>::empty(),
{
    broadcast use vstd::seq_lib::group_to_multiset_ensures;

    vstd::seq_lib::to_multiset_len(v);
    vstd::seq_lib::to_multiset_len(Seq::<R>::empty());
    assert(v.len() == 0);
    assert(v =~= Seq::<R>::empty());
}

/// Keeping some rows of a sequence whose keys increase gives a sequence whose
/// keys increase.
pub proof fn lemma_filter_keeps_key_order<R: Row>(rows: Seq<R>, pred: spec_fn(R) -> bool)
    requires
        forall|i: int, j: int| 0 <= i < j < rows.len() ==> #[trigger] rows[i].row_id() < #[trigger] rows[j].row_id(),
    ensures
        forall|i: int, j: int|
            0 <= i < j < rows.filter(pred).len() ==> #[trigger] rows.filter(pred)[i].row_id()
                < #[trigger] rows.filter(pred)[j].row_id(),
    decreases rows.len(),
{
    reveal(Seq::filter);
    if rows.len() > 0 {
        let rest = rows.drop_last();
        assert forall|i: int, j: int| 0 <= i < j < rest.len() implies #[trigger] rest[i].row_id() < #[trigger] rest[j].row_id() by {
            assert(rest[i] == rows[i] && rest[j] == rows[j]);
        }
        lemma_filter_keeps_key_order(rest, pred);
        let f = rest.filter(pred);
        if pred(rows.last()) {
            assert forall|i: int| 0 <= i < f.len() implies #[trigger] f[i].row_id() < rows.last().row_id() by {
                assert(f.contains(f[i]));
                rest.lemma_filter_contains_rev(pred, f[i]);
                let k = choose|k: int| 0 <= k < rest.len() && rest[k] == f[i];
                assert(rows[k] == rest[k]);
                assert(rows[k].row_id() < rows[rows.len() - 1].row_id());
            }
            let g = f.push(rows.last());
            assert forall|i: int, j: int| 0 <= i < j < g.len() implies #[trigger] g[i].row_id() < #[trigger] g[j].row_id() by {
                assert(g[i] == f[i]);
                if j < f.len() {
                    assert(g[j] == f[j]);
                }
            }
        }
    }
}

/// Whether `a` comes strictly before `b` when ordering by `by`.
pub fn comes_before<R: Ranked>(a: &R, b: &R, by: SortBy, descending: bool) -> (r: bool)
    ensures
        r == precedes(*a, *b, by, descending),
{
    let c = if descending { b.compare_key(a, by) } else { a.compare_key(b, by) };
    c < 0 || (c == 0 && a.id() < b.id())
}

/// What a table holds: its rows in insertion order, and the largest identity
/// key ever handed out (keys are never reused).
pub ghost struct TableView<R> {
    pub rows: Seq<R>,
    pub last_id: int,
}

impl<R: Row> TableView<R> {
    /// Keys are positive, strictly increasing along the rows, and no larger
    /// than the last key handed out, which fits in an `i32`.
    pub open spec fn wf(self) -> bool {
        &&& 0 <= self.last_id <= i32::MAX
        &&& forall|i: int| 0 <= i < self.rows.len() ==> 1 <= #[trigger] self.rows[i].row_id() <= self.last_id
        &&& forall|i: int, j: int|
            0 <= i < j < self.rows.len() ==> #[trigger] self.rows[i].row_id() < #[trigger] self.rows[j].row_id()
    }

    pub open spec fn has(self, id: int) -> bool {
        exists|i: int| 0 <= i < self.rows.len() && #[trigger] self.rows[i].row_id() == id
    }

    /// The position of the row with key `id`, where there is one.
    pub open spec fn index_of(self, id: int) -> int {
        choose|i: int| 0 <= i < self.rows.len() && #[trigger] self.rows[i].row_id() == id
    }

    /// The row with key `id`, if any.
    pub open spec fn lookup(self, id: int) -> Option<R> {
        if self.has(id) {
            Some(self.rows[self.index_of(id)])
        } else {
            None
        }
    }

    /// Whether some row refers to `id` in the table `link`.
    pub open spec fn any_points_to(self, link: Link, id: int) -> bool {
        exists|i: int| 0 <= i < self.rows.len() && #[trigger] self.rows[i].points_to(link, id)
    }

    /// The rows that refer to `id` in the table `link`, in key order.
    pub open spec fn pointing_to(self, link: Link, id: int) -> Seq<R> {
        self.rows.filter(|r: R| r.points_to(link, id))
    }

    /// Every row's foreign key to the table `link` names a row of `parent`.
    pub open spec fn refs_within<P: Row>(self, link: Link, parent: TableView<P>) -> bool {
        forall|i: int, id: int| 0 <= i < self.rows.len() && #[trigger] self.rows[i].points_to(link, id) ==> parent.has(id)
    }

    /// `post` is this table with one row appended under the next key.
    pub open spec fn grown_to(self, post: Self) -> bool {
        &&& post.last_id == self.last_id + 1
        &&& post.rows.len() == self.rows.len() + 1
        &&& post.rows.drop_last() == self.rows
        &&& post.rows.last().row_id() == post.last_id
    }

    /// `post` is this table with the row of key `id` replaced by `row`.
    pub open spec fn replaced_in(self, id: int, row: R, post: Self) -> bool {
        &&& self.has(id)
        &&& post.last_id == self.last_id
        &&& post.rows == self.rows.update(self.index_of(id), row)
    }

    /// `post` is this table without the row of key `id`.
    pub open spec fn removed_in(self, id: int, post: Self) -> bool {
        &&& self.has(id)
        &&& post.last_id == self.last_id
        &&& post.rows == self.rows.remove(self.index_of(id))
    }

    pub proof fn lemma_index_of(self, id: int)
        requires
            self.wf(),
            self.has(id),
        ensures
            0 <= self.index_of(id) < self.rows.len(),
            self.rows[self.index_of(id)].row_id() == id,
            forall|i: int| 0 <= i < self.rows.len() && #[trigger] self.rows[i].row_id() == id ==> i == self.index_of(id),
    {
        let k = self.index_of(id);
        assert forall|i: int| 0 <= i < self.rows.len() && #[trigger] self.rows[i].row_id() == id implies i == k by {
            if i < k {
                assert(self.rows[i].row_id() < self.rows[k].row_id());
            } else if k < i {
                assert(self.rows[k].row_id() < self.rows[i].row_id());
            }
        }
    }

    /// References stay valid when the parent table keeps every key it had.
    pub proof fn lemma_refs_parent_kept<P: Row>(self, link: Link, p1: TableView<P>, p2: TableView<P>)
        requires
            self.refs_within(link, p1),
            forall|id: int| p1.has(id) ==> #[trigger] p2.has(id),
        ensures
            self.refs_within(link, p2),
    {
    }

    /// References stay valid when the parent loses only a key that no row
    /// refers to.
    pub proof fn lemma_refs_parent_lost<P: Row>(self, link: Link, p1: TableView<P>, x: int, p2: TableView<P>)
        requires
            self.refs_within(link, p1),
            !self.any_points_to(link, x),
            forall|id: int| #[trigger] p2.has(id) <==> (p1.has(id) && id != x),
        ensures
            self.refs_within(link, p2),
    {
        assert forall|i: int, id: int| 0 <= i < self.rows.len() && #[trigger] self.rows[i].points_to(link, id) implies p2.has(id) by {
            assert(p1.has(id));
            if id == x {
                assert(self.any_points_to(link, x));
            }
        }
    }

    /// References stay valid when a row whose references are valid is
    /// appended.
    pub proof fn lemma_refs_child_grown<P: Row>(self, post: Self, link: Link, parent: TableView<P>)
        requires
            self.refs_within(link, parent),
            self.grown_to(post),
            forall|id: int| #[trigger] post.rows.last().points_to(link, id) ==> parent.has(id),
        ensures
            post.refs_within(link, parent),
    {
        assert forall|i: int, id: int| 0 <= i < post.rows.len() && #[trigger] post.rows[i].points_to(link, id) implies parent.has(id) by {
            if i < self.rows.len() {
                assert(post.rows.drop_last()[i] == post.rows[i]);
            }
        }
    }

    /// References stay valid when a row is replaced by one whose references
    /// are valid.
    pub proof fn lemma_refs_child_replaced<P: Row>(self, id: int, row: R, post: Self, link: Link, parent: TableView<P>)
        requires
            self.refs_within(link, parent),
            self.replaced_in(id, row, post),
            forall|k: int| #[trigger] row.points_to(link, k) ==> parent.has(k),
        ensures
            post.refs_within(link, parent),
    {
        assert forall|i: int, k: int| 0 <= i < post.rows.len() && #[trigger] post.rows[i].points_to(link, k) implies parent.has(k) by {
            if i != self.index_of(id) {
                assert(post.rows[i] == self.rows[i]);
            }
        }
    }

    /// References stay valid when a row is removed.
    pub proof fn lemma_refs_child_removed<P: Row>(self, id: int, post: Self, link: Link, parent: TableView<P>)
        requires
            self.wf(),
            self.refs_within(link, parent),
            self.removed_in(id, post),
        ensures
            post.refs_within(link, parent),
    {
        self.lemma_removed(id, post);
        assert forall|i: int, k: int| 0 <= i < post.rows.len() && #[trigger] post.rows[i].points_to(link, k) implies parent.has(k) by {
            let j = if i < self.index_of(id) { i } else { i + 1 };
            assert(post.rows[i] == self.rows[j]);
        }
    }

    /// The row appended under the next key is the one found under that key.
    pub proof fn lemma_lookup_grown(self, post: Self)
        requires
            self.wf(),
            self.grown_to(post),
            post.last_id <= i32::MAX,
        ensures
            post.lookup(post.last_id) == Some(post.rows.last()),
    {
        self.lemma_grown(post);
        assert(post.rows[post.rows.len() - 1].row_id() == post.last_id);
        post.lemma_index_of(post.last_id);
    }

    /// After one row is appended, the rows referring to `id` are those that
    /// did before, followed by the new row if it refers to `id`.
    pub proof fn lemma_pointing_to_grown(self, post: Self, link: Link, id: int)
        requires
            self.grown_to(post),
        ensures
            post.pointing_to(link, id) == (if post.rows.last().points_to(link, id) {
                self.pointing_to(link, id).push(post.rows.last())
            } else {
                self.pointing_to(link, id)
            }),
    {
        reveal(Seq::filter);
    }

    /// When no row refers to `id`, no row is listed for it.
    pub proof fn lemma_pointing_to_none(self, link: Link, id: int)
        requires
            !self.any_points_to(link, id),
        ensures
            self.pointing_to(link, id) == Seq::<R>::empty(),
    {
        let f = self.pointing_to(link, id);
        if f.len() > 0 {
            let pred = |r: R| r.points_to(link, id);
            self.rows.lemma_filter_pred(pred, 0);
            assert(f.contains(f[0]));
            self.rows.lemma_filter_contains_rev(pred, f[0]);
            let i = choose|i: int| 0 <= i < self.rows.len() && self.rows[i] == f[0];
            assert(self.rows[i].points_to(link, id));
        }
        assert(f =~= Seq::<R>::empty());
    }

    /// A row appended under the next key that refers to `id`, where no row
    /// did before, is then the only row listed for `id`.
    pub proof fn lemma_fresh_row_listed(self, post: Self, link: Link, id: int)
        requires
            self.grown_to(post),
            !self.any_points_to(link, id),
            post.rows.last().points_to(link, id),
        ensures
            post.pointing_to(link, id) == seq![post.rows.last()],
    {
        self.lemma_pointing_to_grown(post, link, id);
        self.lemma_pointing_to_none(link, id);
        assert(Seq::<R>::empty().push(post.rows.last()) =~= seq![post.rows.last()]);
    }

    /// Appending a row under the next key keeps the table well formed, and
    /// adds that key to the keys present.
    pub proof fn lemma_grown(self, post: Self)
        requires
            self.wf(),
            self.grown_to(post),
            post.last_id <= i32::MAX,
        ensures
            post.wf(),
            forall|id: int| #[trigger] post.has(id) <==> (self.has(id) || id == post.last_id),
            !self.has(post.last_id),
    {
        let n = self.rows.len() as int;
        assert forall|i: int| 0 <= i < n implies #[trigger] post.rows[i] == self.rows[i] by {
            assert(post.rows.drop_last()[i] == post.rows[i]);
        }
        assert forall|id: int| #[trigger] post.has(id) <==> (self.has(id) || id == post.last_id) by {
            if post.has(id) {
                let i = choose|i: int| 0 <= i < post.rows.len() && #[trigger] post.rows[i].row_id() == id;
                if i < n {
                    assert(self.rows[i].row_id() == id);
                }
            }
            if self.has(id) {
                let i = choose|i: int| 0 <= i < self.rows.len() && #[trigger] self.rows[i].row_id() == id;
                assert(post.rows[i].row_id() == id);
            }
            if id == post.last_id {
                assert(post.rows[n].row_id() == id);
            }
        }
        if self.has(post.last_id) {
            let i = choose|i: int| 0 <= i < self.rows.len() && #[trigger] self.rows[i].row_id() == post.last_id;
            assert(self.rows[i].row_id() <= self.last_id);
        }
    }

    /// Replacing a row by one with the same key keeps the table well formed
    /// and the keys present.
    pub proof fn lemma_replaced(self, id: int, row: R, post: Self)
        requires
            self.wf(),
            self.replaced_in(id, row, post),
            row.row_id() == id,
        ensures
            post.wf(),
            forall|k: int| #[trigger] post.has(k) <==> self.has(k),
            post.lookup(id) == Some(row),
            forall|k: int| k != id ==> #[trigger] post.lookup(k) == self.lookup(k),
    {
        self.lemma_index_of(id);
        let x = self.index_of(id);
        assert forall|i: int| 0 <= i < post.rows.len() implies #[trigger] post.rows[i].row_id() == self.rows[i].row_id() by {}
        assert forall|k: int| #[trigger] post.has(k) <==> self.has(k) by {
            if post.has(k) {
                let i = choose|i: int| 0 <= i < post.rows.len() && #[trigger] post.rows[i].row_id() == k;
                assert(self.rows[i].row_id() == k);
            }
            if self.has(k) {
                let i = choose|i: int| 0 <= i < self.rows.len() && #[trigger] self.rows[i].row_id() == k;
                assert(post.rows[i].row_id() == k);
            }
        }
        assert(post.wf()) by {
            assert forall|i: int, j: int| 0 <= i < j < post.rows.len() implies #[trigger] post.rows[i].row_id() < #[trigger] post.rows[j].row_id() by {
                assert(post.rows[i].row_id() == self.rows[i].row_id());
                assert(post.rows[j].row_id() == self.rows[j].row_id());
            }
        }
        post.lemma_index_of(id);
        assert(post.rows[x].row_id() == id);
        assert forall|k: int| k != id implies #[trigger] post.lookup(k) == self.lookup(k) by {
            if self.has(k) {
                self.lemma_index_of(k);
                post.lemma_index_of(k);
                let i = self.index_of(k);
                assert(post.rows[i].row_id() == k);
                assert(i != x);
            }
        }
    }

    /// Removing the row of key `id` keeps the table well formed, and every
    /// other key present.
    pub proof fn lemma_removed(self, id: int, post: Self)
        requires
            self.wf(),
            self.removed_in(id, post),
        ensures
            post.wf(),
            forall|k: int| #[trigger] post.has(k) <==> (self.has(k) && k != id),
            forall|i: int|
                0 <= i < post.rows.len() ==> #[trigger] post.rows[i] == self.rows[if i < self.index_of(id) { i } else { i + 1 }],
    {
        self.lemma_index_of(id);
        let x = self.index_of(id);
        let n = post.rows.len() as int;
        assert forall|i: int| 0 <= i < n implies #[trigger] post.rows[i] == (if i < x { self.rows[i] } else { self.rows[i + 1] }) by {}
        assert(post.wf()) by {
            assert forall|i: int, j: int| 0 <= i < j < n implies #[trigger] post.rows[i].row_id() < #[trigger] post.rows[j].row_id() by {
                let a = if i < x { i } else { i + 1 };
                let b = if j < x { j } else { j + 1 };
                assert(post.rows[i] == self.rows[a]);
                assert(post.rows[j] == self.rows[b]);
            }
            assert forall|i: int| 0 <= i < n implies 1 <= #[trigger] post.rows[i].row_id() <= post.last_id by {
                let a = if i < x { i } else { i + 1 };
                assert(post.rows[i] == self.rows[a]);
            }
        }
        assert forall|k: int| #[trigger] post.has(k) <==> (self.has(k) && k != id) by {
            if post.has(k) {
                let i = choose|i: int| 0 <= i < n && #[trigger] post.rows[i].row_id() == k;
                let a = if i < x { i } else { i + 1 };
                assert(post.rows[i] == self.rows[a]);
                assert(self.rows[a].row_id() == k);
                assert(a != x);
            }
            if self.has(k) && k != id {
                let j = choose|j: int| 0 <= j < self.rows.len() && #[trigger] self.rows[j].row_id() == k;
                assert(j != x);
                let i = if j < x { j } else { j - 1 };
                assert(post.rows[i] == self.rows[j]);
                assert(post.rows[i].row_id() == k);
            }
        }
    }
}

/// A table of rows of type `R`, with the counter of identity keys.
pub struct Table<R> {
    rows: Vec<R>,
    last_id: i64,
}

impl<R: Row> View for Table<R> {
    type V = TableView<R>;

    closed spec fn view(&self) -> TableView<R> {
        TableView { rows: self.rows@, last_id: self.last_id as int }
    }
}

impl<R: Row> Table<R> {
    /// An empty table that has handed out no key yet.
    pub fn new() -> (r: Table<R>)
        ensures
            r@.rows == Seq::<R>::empty(),
            r@.last_id == 0,
            r@.wf(),
    {
        Table { rows: Vec::new(), last_id: 0 }
    }

    /// The position of the row with key `id`.
    pub fn find(&self, id: i32) -> (r: Option<usize>)
        requires
            self@.wf(),
        ensures
            r is Some <==> self@.has(id as int),
            r matches Some(i) ==> i == self@.index_of(id as int),
    {
        let mut i: usize = 0;
        while i < self.rows.len()
            invariant
                i <= self.rows@.len(),
                self@.wf(),
                forall|j: int| 0 <= j < i ==> #[trigger] self.rows@[j].row_id() != id as int,
            decreases self.rows@.len() - i,
        {
            if self.rows[i].id() == id {
                proof {
                    assert(self@.rows[i as int].row_id() == id as int);
                    assert(self@.has(id as int));
                    self@.lemma_index_of(id as int);
                }
                return Some(i);
            }
            i = i + 1;
        }
        None
    }

    /// The number of rows.
    pub fn len(&self) -> (r: usize)
        ensures
            r == self@.rows.len(),
    {
        self.rows.len()
    }

    /// Whether a row with key `id` is present.
    pub fn contains(&self, id: i32) -> (r: bool)
        requires
            self@.wf(),
        ensures
            r == self@.has(id as int),
    {
        self.find(id).is_some()
    }

    /// A copy of the row with key `id`, if any.
    pub fn get(&self, id: i32) -> (r: Option<R>)
        requires
            self@.wf(),
        ensures
            r == self@.lookup(id as int),
    {
        match self.find(id) {
            Some(i) => Some(self.rows[i].duplicate()),
            None => None,
        }
    }

    /// The row at position `i`, by reference.
    pub fn at(&self, i: usize) -> (r: &R)
        requires
            i < self@.rows.len(),
        ensures
            *r == self@.rows[i as int],
    {
        &self.rows[i]
    }

    /// A copy of every row, in key order.
    pub fn all(&self) -> (r: Vec<R>)
        ensures
            r@ == self@.rows,
    {
        let mut out: Vec<R> = Vec::new();
        let mut i: usize = 0;
        while i < self.rows.len()
            invariant
                i <= self.rows@.len(),
                out@ == self.rows@.subrange(0, i as int),
            decreases self.rows@.len() - i,
        {
            out.push(self.rows[i].duplicate());
            i = i + 1;
            assert(out@ =~= self.rows@.subrange(0, i as int));
        }
        assert(out@ =~= self.rows@);
        out
    }

    /// A copy of every row that refers to `id` in the table `link`, in key
    /// order.
    pub fn pointing_to(&self, link: Link, id: i32) -> (r: Vec<R>)
        ensures
            r@ == self@.pointing_to(link, id as int),
    {
        let ghost pred = |r: R| r.points_to(link, id as int);
        let mut out: Vec<R> = Vec::new();
        let mut i: usize = 0;
        while i < self.rows.len()
            invariant
                i <= self.rows@.len(),
                pred == (|r: R| r.points_to(link, id as int)),
                out@ == self.rows@.subrange(0, i as int).filter(pred),
            decreases self.rows@.len() - i,
        {
            let ghost prefix = self.rows@.subrange(0, i + 1);
            proof {
                assert(prefix.drop_last() =~= self.rows@.subrange(0, i as int));
                assert(prefix.last() == self.rows@[i as int]);
            }
            let hit = self.rows[i].refers_to(link, id);
            proof {
                assert(pred(prefix.last()) == hit);
                reveal(Seq::filter);
            }
            if hit {
                out.push(self.rows[i].duplicate());
            }
            i = i + 1;
            assert(out@ =~= prefix.filter(pred));
        }
        assert(self.rows@.subrange(0, i as int) =~= self.rows@);
        out
    }

    /// Whether some row refers to `id` in the table `link`.
    pub fn any_pointing_to(&self, link: Link, id: i32) -> (r: bool)
        ensures
            r == self@.any_points_to(link, id as int),
    {
        let mut i: usize = 0;
        while i < self.rows.len()
            invariant
                i <= self.rows@.len(),
                forall|j: int| 0 <= j < i ==> !(#[trigger] self.rows@[j].points_to(link, id as int)),
            decreases self.rows@.len() - i,
        {
            if self.rows[i].refers_to(link, id) {
                assert(self@.rows[i as int].points_to(link, id as int));
                return true;
            }
            i = i + 1;
        }
        false
    }

    /// The key that the next row will get, or `None` when the keys that fit
    /// in an `i32` are used up.
    pub fn next_id(&self) -> (r: Option<i32>)
        requires
            self@.wf(),
        ensures
            r is Some <==> self@.last_id < i32::MAX,
            r matches Some(k) ==> k as int == self@.last_id + 1,
    {
        if self.last_id < i32::MAX as i64 {
            Some((self.last_id + 1) as i32)
        } else {
            None
        }
    }

    /// Appends `row`, which carries the next key.
    pub fn push(&mut self, row: R)
        requires
            old(self)@.wf(),
            old(self)@.last_id < i32::MAX,
            row.row_id() == old(self)@.last_id + 1,
        ensures
            old(self)@.grown_to(final(self)@),
            final(self)@.rows.last() == row,
            final(self)@.wf(),
    {
        let ghost pre = self@;
        self.rows.push(row);
        self.last_id = self.last_id + 1;
        proof {
            assert(self@.rows.drop_last() =~= pre.rows);
            pre.lemma_grown(self@);
        }
    }

    /// Puts `row` in place of the row at position `i`, which has its key.
    pub fn set(&mut self, i: usize, row: R)
        requires
            old(self)@.wf(),
            i < old(self)@.rows.len(),
            row.row_id() == old(self)@.rows[i as int].row_id(),
        ensures
            old(self)@.replaced_in(row.row_id(), row, final(self)@),
            final(self)@.wf(),
    {
        let ghost pre = self@;
        let ghost id = row.row_id();
        proof {
            assert(pre.has(id));
            pre.lemma_index_of(id);
        }
        self.rows.set(i, row);
        proof {
            pre.lemma_replaced(id, row, self@);
        }
    }

    /// Removes the row at position `i`.
    pub fn remove_at(&mut self, i: usize)
        requires
            old(self)@.wf(),
            i < old(self)@.rows.len(),
        ensures
            old(self)@.removed_in(old(self)@.rows[i as int].row_id(), final(self)@),
            final(self)@.wf(),
    {
        let ghost pre = self@;
        let ghost id = pre.rows[i as int].row_id();
        proof {
            assert(pre.has(id));
            pre.lemma_index_of(id);
        }
        self.rows.remove(i);
        proof {
            pre.lemma_removed(id, self@);
        }
    }
}

impl<R: Ranked> Table<R> {
    /// A copy of every row that refers to `id` in the table `link`, ordered
    /// by `by` (ascending or descending), rows with equal sort keys in key
    /// order.
    pub fn pointing_to_sorted(&self, link: Link, id: i32, by: SortBy, descending: bool) -> (r: Vec<R>)
        requires
            self@.wf(),
        ensures
            in_order(r@, by, descending),
            r@.to_multiset() == self@.pointing_to(link, id as int).to_multiset(),
    {
        let ghost pred = |r: R| r.points_to(link, id as int);
        let mut out: Vec<R> = Vec::new();
        let mut n: usize = 0;
        proof {
            reveal(Seq::filter);
            assert(self.rows@.subrange(0, 0) =~= Seq::<R>::empty());
        }
        while n < self.rows.len()
            invariant
                n <= self.rows@.len(),
                self@.wf(),
                pred == (|r: R| r.points_to(link, id as int)),
                in_order(out@, by, descending),
                out@.to_multiset() == self.rows@.subrange(0, n as int).filter(pred).to_multiset(),
                forall|a: int, j: int|
                    0 <= a < out@.len() && n <= j < self.rows@.len() ==> #[trigger] out@[a].row_id()
                        < #[trigger] self.rows@[j].row_id(),
            decreases self.rows@.len() - n,
        {
            let ghost prefix = self.rows@.subrange(0, n + 1);
            proof {
                assert(prefix.drop_last() =~= self.rows@.subrange(0, n as int));
                assert(prefix.last() == self.rows@[n as int]);
                reveal(Seq::filter);
            }
            let x = &self.rows[n];
            if x.refers_to(link, id) {
                let mut k: usize = 0;
                while k < out.len()
                    invariant
                        k <= out@.len(),
                        forall|m: int| 0 <= m < k ==> !precedes(*x, #[trigger] out@[m], by, descending),
                    ensures
                        k <= out@.len(),
                        forall|m: int| 0 <= m < k ==> !precedes(*x, #[trigger] out@[m], by, descending),
                        k < out@.len() ==> precedes(*x, out@[k as int], by, descending),
                    decreases out@.len() - k,
                {
                    if comes_before(x, &out[k], by, descending) {
                        break;
                    }
                    k = k + 1;
                }
                let ghost before = out@;
                proof {
                    if k > 0 {
                        let y = before[k - 1];
                        R::lemma_key_cmp_antisymmetric(x, &y, by);
                        assert(y.row_id() < self.rows@[n as int].row_id());
                        assert(precedes(y, *x, by, descending));
                    }
                }
                out.insert(k, x.duplicate());
                proof {
                    to_multiset_insert(before, k as int, *x);
                    to_multiset_build(self.rows@.subrange(0, n as int).filter(pred), *x);
                    assert forall|i: int| 0 <= i < out@.len() - 1 implies #[trigger] precedes(out@[i], out@[i + 1], by, descending) by {
                        if i + 1 < k {
                            assert(out@[i] == before[i] && out@[i + 1] == before[i + 1]);
                        } else if i + 1 == k {
                            assert(out@[i] == before[i]);
                            assert(out@[i + 1] == *x);
                        } else if i == k {
                            assert(out@[i] == *x);
                            assert(out@[i + 1] == before[i]);
                        } else {
                            let m = i - 1;
                            assert(precedes(before[m], before[m + 1], by, descending));
                            assert(out@[i] == before[m] && out@[i + 1] == before[m + 1]);
                        }
                    }
                    assert forall|a: int, j: int|
                        0 <= a < out@.len() && n + 1 <= j < self.rows@.len() implies #[trigger] out@[a].row_id()
                            < #[trigger] self.rows@[j].row_id() by {
                        if a < k {
                            assert(out@[a] == before[a]);
                        } else if a > k {
                            assert(out@[a] == before[a - 1]);
                        } else {
                            assert(out@[a] == *x);
                            assert(self@.rows[n as int].row_id() < self@.rows[j].row_id());
                        }
                    }
                }
            } else {
                proof {
                    assert forall|a: int, j: int|
                        0 <= a < out@.len() && n + 1 <= j < self.rows@.len() implies #[trigger] out@[a].row_id()
                            < #[trigger] self.rows@[j].row_id() by {
                        assert(out@[a].row_id() < self.rows@[n as int].row_id());
                    }
                }
            }
            n = n + 1;
        }
        proof {
            assert(self.rows@.subrange(0, n as int) =~= self.rows@);
        }
        out
    }
}

} // verus!
