use vstd::prelude::*;
use crate::models::{Almacen, CreateAlmacen, UpdateAlmacen};
use crate::store::{Inventory, InventoryView, StoreError, list_gives, read_gives};
use crate::table::{Link, Row, TableView};

verus! {

/// `post` is `pre` with only the warehouse table changed to `t`.
pub open spec fn with_table(pre: InventoryView, t: TableView<Almacen>) -> InventoryView {
    InventoryView { almacenes: t, ..pre }
}

/// Why creating the warehouse `d` in `s` fails, if it does.
pub open spec fn create_error(s: InventoryView, d: CreateAlmacen) -> Option<StoreError> {
    if !s.open {
        Some(StoreError::Closed)
    } else if s.almacenes.last_id >= i32::MAX {
        Some(StoreError::Full)
    } else {
        None
    }
}

/// `post` is `pre` with the warehouse `d` appended under the next key.
pub open spec fn created(pre: InventoryView, d: CreateAlmacen, post: InventoryView) -> bool {
    &&& pre.almacenes.grown_to(post.almacenes)
    &&& d.stores(post.almacenes.last_id, post.almacenes.rows.last())
    &&& post == with_table(pre, post.almacenes)
}

/// Why updating the warehouse of key `id` in `s` with `u` fails, if it does.
pub open spec fn update_error(s: InventoryView, id: int, u: UpdateAlmacen) -> Option<StoreError> {
    if !s.open {
        Some(StoreError::Closed)
    } else {
        None
    }
}

/// `post` and `r` are what a successful update of the warehouse of key `id`
/// with `u` leaves: the merged row in its place and a count of 1, or, when
/// there is no such row, `pre` unchanged and a count of 0.
pub open spec fn updated(pre: InventoryView, id: int, u: UpdateAlmacen, post: InventoryView, r: u64) -> bool {
    match pre.almacenes.lookup(id) {
        Some(old) => {
            &&& r == 1
            &&& pre.almacenes.replaced_in(id, u.merge(old), post.almacenes)
            &&& post == with_table(pre, post.almacenes)
        },
        None => r == 0 && post == pre,
    }
}

/// Why deleting the warehouse of key `id` from `s` fails, if it does.
pub open spec fn delete_error(s: InventoryView, id: int) -> Option<StoreError> {
    if !s.open {
        Some(StoreError::Closed)
    } else if s.almacenes.has(id) && (s.stock.any_points_to(Link::Almacen, id)) {
        Some(StoreError::ForeignKey)
    } else {
        None
    }
}

/// `post` and `r` are what a successful delete of the warehouse of key `id`
/// leaves: the row gone and a count of 1, or, when there is no such row,
/// `pre` unchanged and a count of 0.
pub open spec fn deleted(pre: InventoryView, id: int, post: InventoryView, r: u64) -> bool {
    if pre.almacenes.has(id) {
        &&& r == 1
        &&& pre.almacenes.removed_in(id, post.almacenes)
        &&& post == with_table(pre, post.almacenes)
    } else {
        r == 0 && post == pre
    }
}

/// Every warehouse, in key order.
pub fn get_all(store: &Inventory) -> (r: Result<Vec<Almacen>, StoreError>)
    requires
        store.wf(),
    ensures
        list_gives(store@.open, store@.almacenes.rows, r),
{
    if !store.is_open() {
        return Err(StoreError::Closed);
    }
    Ok(store.almacenes.all())
}

/// The warehouse of key `id`, or `None` when there is none.
pub fn get_by_id(store: &Inventory, id: i32) -> (r: Result<Option<Almacen>, StoreError>)
    requires
        store.wf(),
    ensures
        read_gives(store@.open, store@.almacenes.lookup(id as int), r),
{
    if !store.is_open() {
        return Err(StoreError::Closed);
    }
    Ok(store.almacenes.get(id))
}

/// Adds the warehouse `data` under the next key, which it returns.
pub fn create(store: &mut Inventory, data: CreateAlmacen) -> (r: Result<i64, StoreError>)
    requires
        old(store).wf(),
    ensures
        final(store).wf(),
        match create_error(old(store)@, data) {
            Some(e) => r == Err::<i64, StoreError>(e) && final(store)@ == old(store)@,
            None => r == Ok::<i64, StoreError>(final(store)@.almacenes.last_id as i64) && created(old(store)@, data, final(store)@),
        },
{
    if !store.is_open() {
        return Err(StoreError::Closed);
    }
    let id = match store.almacenes.next_id() {
        Some(k) => k,
        None => return Err(StoreError::Full),
    };
    let ghost pre = store@;
    let row = data.into_row(id);
    store.almacenes.push(row);
    proof {
        let post = store@;
        pre.almacenes.lemma_grown(post.almacenes);
        pre.stock.lemma_refs_parent_kept(Link::Almacen, pre.almacenes, post.almacenes);
    }
    Ok(id as i64)
}

/// Merges `data` into the warehouse of key `id`: each field given replaces the
/// stored one, each field left out keeps it. Returns the number of rows
/// changed, 0 when there is no such row.
pub fn update(store: &mut Inventory, id: i32, data: UpdateAlmacen) -> (r: Result<u64, StoreError>)
    requires
        old(store).wf(),
    ensures
        final(store).wf(),
        match update_error(old(store)@, id as int, data) {
            Some(e) => r == Err::<u64, StoreError>(e) && final(store)@ == old(store)@,
            None => r matches Ok(n) && updated(old(store)@, id as int, data, final(store)@, n),
        },
{
    if !store.is_open() {
        return Err(StoreError::Closed);
    }
    let i = match store.almacenes.find(id) {
        Some(i) => i,
        None => return Ok(0),
    };
    let ghost pre = store@;
    proof {
        pre.almacenes.lemma_index_of(id as int);
    }
    let merged = data.apply(store.almacenes.at(i));
    store.almacenes.set(i, merged);
    proof {
        let post = store@;
        pre.almacenes.lemma_replaced(id as int, merged, post.almacenes);
        pre.stock.lemma_refs_parent_kept(Link::Almacen, pre.almacenes, post.almacenes);
    }
    Ok(1)
}

/// Removes the warehouse of key `id`. Returns the number of rows removed, 0
/// when there is no such row.
pub fn delete(store: &mut Inventory, id: i32) -> (r: Result<u64, StoreError>)
    requires
        old(store).wf(),
    ensures
        final(store).wf(),
        match delete_error(old(store)@, id as int) {
            Some(e) => r == Err::<u64, StoreError>(e) && final(store)@ == old(store)@,
            None => r matches Ok(n) && deleted(old(store)@, id as int, final(store)@, n),
        },
{
    if !store.is_open() {
        return Err(StoreError::Closed);
    }
    let i = match store.almacenes.find(id) {
        Some(i) => i,
        None => return Ok(0),
    };
    if store.stock.any_pointing_to(Link::Almacen, id) {
        return Err(StoreError::ForeignKey);
    }
    let ghost pre = store@;
    proof {
        pre.almacenes.lemma_index_of(id as int);
    }
    store.almacenes.remove_at(i);
    proof {
        let post = store@;
        pre.almacenes.lemma_removed(id as int, post.almacenes);
        pre.stock.lemma_refs_parent_lost(Link::Almacen, pre.almacenes, id as int, post.almacenes);
    }
    Ok(1)
}

/// Creating a warehouse and then reading the key it was given yields the
/// record just stored: every field as given.
pub proof fn lemma_get_after_create(pre: InventoryView, d: CreateAlmacen, post: InventoryView)
    requires
        pre.wf(),
        create_error(pre, d) is None,
        created(pre, d, post),
    ensures
        post.almacenes.lookup(post.almacenes.last_id) matches Some(r) && d.stores(post.almacenes.last_id, r),
{
    pre.almacenes.lemma_lookup_grown(post.almacenes);
}

/// After a partial update of an existing warehouse, reading its key yields
/// the old record with each given field replaced and every other field kept.
pub proof fn lemma_get_after_update(pre: InventoryView, id: int, u: UpdateAlmacen, post: InventoryView, n: u64)
    requires
        pre.wf(),
        pre.almacenes.has(id),
        update_error(pre, id, u) is None,
        updated(pre, id, u, post, n),
    ensures
        n == 1,
        post.almacenes.lookup(id) == Some(u.merge(pre.almacenes.lookup(id).unwrap())),
{
    pre.almacenes.lemma_index_of(id);
    pre.almacenes.lemma_replaced(id, u.merge(pre.almacenes.lookup(id).unwrap()), post.almacenes);
}

/// In an open store, updating or deleting a key that no warehouse has is no
/// error: it reports a count of 0 and changes nothing.
pub proof fn lemma_absent_key(pre: InventoryView, id: int, u: UpdateAlmacen)
    requires
        pre.open,
        !pre.almacenes.has(id),
    ensures
        update_error(pre, id, u) is None,
        delete_error(pre, id) is None,
        forall|post: InventoryView, n: u64| #[trigger] updated(pre, id, u, post, n) ==> n == 0 && post == pre,
        forall|post: InventoryView, n: u64| #[trigger] deleted(pre, id, post, n) ==> n == 0 && post == pre,
{
}

} // verus!
