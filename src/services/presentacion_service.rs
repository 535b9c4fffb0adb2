use vstd::prelude::*;
use crate::models::{Presentacion, CreatePresentacion, UpdatePresentacion};
use crate::store::{Inventory, InventoryView, StoreError, list_gives, read_gives};
use crate::table::{Link, Row, TableView};

verus! {

/// `post` is `pre` with only the presentation table changed to `t`.
pub open spec fn with_table(pre: InventoryView, t: TableView<Presentacion>) -> InventoryView {
    InventoryView { presentaciones: t, ..pre }
}

/// Why creating the presentation `d` in `s` fails, if it does.
pub open spec fn create_error(s: InventoryView, d: CreatePresentacion) -> Option<StoreError> {
    if !s.open {
        Some(StoreError::Closed)
    } else if !(s.productos.has(d.id_producto as int)) {
        Some(StoreError::ForeignKey)
    } else if s.presentaciones.last_id >= i32::MAX {
        Some(StoreError::Full)
    } else {
        None
    }
}

/// `post` is `pre` with the presentation `d` appended under the next key.
pub open spec fn created(pre: InventoryView, d: CreatePresentacion, post: InventoryView) -> bool {
    &&& pre.presentaciones.grown_to(post.presentaciones)
    &&& d.stores(post.presentaciones.last_id, post.presentaciones.rows.last())
    &&& post == with_table(pre, post.presentaciones)
}

/// Why updating the presentation of key `id` in `s` with `u` fails, if it does.
pub open spec fn update_error(s: InventoryView, id: int, u: UpdatePresentacion) -> Option<StoreError> {
    if !s.open {
        Some(StoreError::Closed)
    } else if !s.presentaciones.has(id) {
        None
    } else if !s.resolves_presentacion(u.merge(s.presentaciones.lookup(id).unwrap())) {
        Some(StoreError::ForeignKey)
    } else {
        None
    }
}

/// `post` and `r` are what a successful update of the presentation of key `id`
/// with `u` leaves: the merged row in its place and a count of 1, or, when
/// there is no such row, `pre` unchanged and a count of 0.
pub open spec fn updated(pre: InventoryView, id: int, u: UpdatePresentacion, post: InventoryView, r: u64) -> bool {
    match pre.presentaciones.lookup(id) {
        Some(old) => {
            &&& r == 1
            &&& pre.presentaciones.replaced_in(id, u.merge(old), post.presentaciones)
            &&& post == with_table(pre, post.presentaciones)
        },
        None => r == 0 && post == pre,
    }
}

/// Why deleting the presentation of key `id` from `s` fails, if it does.
pub open spec fn delete_error(s: InventoryView, id: int) -> Option<StoreError> {
    if !s.open {
        Some(StoreError::Closed)
    } else if s.presentaciones.has(id) && (s.stock.any_points_to(Link::Presentacion, id) || s.movimientos.any_points_to(Link::Presentacion, id)) {
        Some(StoreError::ForeignKey)
    } else {
        None
    }
}

/// `post` and `r` are what a successful delete of the presentation of key `id`
/// leaves: the row gone and a count of 1, or, when there is no such row,
/// `pre` unchanged and a count of 0.
pub open spec fn deleted(pre: InventoryView, id: int, post: InventoryView, r: u64) -> bool {
    if pre.presentaciones.has(id) {
        &&& r == 1
        &&& pre.presentaciones.removed_in(id, post.presentaciones)
        &&& post == with_table(pre, post.presentaciones)
    } else {
        r == 0 && post == pre
    }
}

/// Every presentation, in key order.
pub fn get_all(store: &Inventory) -> (r: Result<Vec<Presentacion>, StoreError>)
    requires
        store.wf(),
    ensures
        list_gives(store@.open, store@.presentaciones.rows, r),
{
    if !store.is_open() {
        return Err(StoreError::Closed);
    }
    Ok(store.presentaciones.all())
}

/// The presentation of key `id`, or `None` when there is none.
pub fn get_by_id(store: &Inventory, id: i32) -> (r: Result<Option<Presentacion>, StoreError>)
    requires
        store.wf(),
    ensures
        read_gives(store@.open, store@.presentaciones.lookup(id as int), r),
{
    if !store.is_open() {
        return Err(StoreError::Closed);
    }
    Ok(store.presentaciones.get(id))
}

/// The presentations of the product of key `producto_id`, in key order.
pub fn get_by_producto(store: &Inventory, producto_id: i32) -> (r: Result<Vec<Presentacion>, StoreError>)
    requires
        store.wf(),
    ensures
        list_gives(store@.open, store@.presentaciones.pointing_to(Link::Producto, producto_id as int), r),
{
    if !store.is_open() {
        return Err(StoreError::Closed);
    }
    Ok(store.presentaciones.pointing_to(Link::Producto, producto_id))
}

/// Adds the presentation `data` under the next key, which it returns.
pub fn create(store: &mut Inventory, data: CreatePresentacion) -> (r: Result<i64, StoreError>)
    requires
        old(store).wf(),
    ensures
        final(store).wf(),
        match create_error(old(store)@, data) {
            Some(e) => r == Err::<i64, StoreError>(e) && final(store)@ == old(store)@,
            None => r == Ok::<i64, StoreError>(final(store)@.presentaciones.last_id as i64) && created(old(store)@, data, final(store)@),
        },
{
    if !store.is_open() {
        return Err(StoreError::Closed);
    }
    let product_exists = store.productos.contains(data.id_producto);
    if !(product_exists) {
        return Err(StoreError::ForeignKey);
    }
    let id = match store.presentaciones.next_id() {
        Some(k) => k,
        None => return Err(StoreError::Full),
    };
    let ghost pre = store@;
    let row = data.into_row(id);
    store.presentaciones.push(row);
    proof {
        let post = store@;
        pre.presentaciones.lemma_grown(post.presentaciones);
        pre.stock.lemma_refs_parent_kept(Link::Presentacion, pre.presentaciones, post.presentaciones);
        pre.movimientos.lemma_refs_parent_kept(Link::Presentacion, pre.presentaciones, post.presentaciones);
        pre.presentaciones.lemma_refs_child_grown(post.presentaciones, Link::Producto, pre.productos);
    }
    Ok(id as i64)
}

/// Merges `data` into the presentation of key `id`: each field given replaces
/// the stored one, each field left out keeps it. Returns the number of rows
/// changed, 0 when there is no such row.
pub fn update(store: &mut Inventory, id: i32, data: UpdatePresentacion) -> (r: Result<u64, StoreError>)
    requires
        old(store).wf(),
    ensures
        final(store).wf(),
        match update_error(old(store)@, id as int, data) {
            Some(e) => r == Err::<u64, StoreError>(e) && final(store)@ == old(store)@,
            None => r matches Ok(n) && updated(old(store)@, id as int, data, final(store)@, n),
        },
{
    if !store.is_open() {
        return Err(StoreError::Closed);
    }
    let i = match store.presentaciones.find(id) {
        Some(i) => i,
        None => return Ok(0),
    };
    let ghost pre = store@;
    proof {
        pre.presentaciones.lemma_index_of(id as int);
    }
    let merged = data.apply(store.presentaciones.at(i));
    let product_exists = store.productos.contains(merged.id_producto);
    if !(product_exists) {
        return Err(StoreError::ForeignKey);
    }
    store.presentaciones.set(i, merged);
    proof {
        let post = store@;
        pre.presentaciones.lemma_replaced(id as int, merged, post.presentaciones);
        pre.stock.lemma_refs_parent_kept(Link::Presentacion, pre.presentaciones, post.presentaciones);
        pre.movimientos.lemma_refs_parent_kept(Link::Presentacion, pre.presentaciones, post.presentaciones);
        pre.presentaciones.lemma_refs_child_replaced(id as int, merged, post.presentaciones, Link::Producto, pre.productos);
    }
    Ok(1)
}

/// Removes the presentation of key `id`. Returns the number of rows removed, 0
/// when there is no such row.
pub fn delete(store: &mut Inventory, id: i32) -> (r: Result<u64, StoreError>)
    requires
        old(store).wf(),
    ensures
        final(store).wf(),
        match delete_error(old(store)@, id as int) {
            Some(e) => r == Err::<u64, StoreError>(e) && final(store)@ == old(store)@,
            None => r matches Ok(n) && deleted(old(store)@, id as int, final(store)@, n),
        },
{
    if !store.is_open() {
        return Err(StoreError::Closed);
    }
    let i = match store.presentaciones.find(id) {
        Some(i) => i,
        None => return Ok(0),
    };
    if store.stock.any_pointing_to(Link::Presentacion, id) {
        return Err(StoreError::ForeignKey);
    }
    if store.movimientos.any_pointing_to(Link::Presentacion, id) {
        return Err(StoreError::ForeignKey);
    }
    let ghost pre = store@;
    proof {
        pre.presentaciones.lemma_index_of(id as int);
    }
    store.presentaciones.remove_at(i);
    proof {
        let post = store@;
        pre.presentaciones.lemma_removed(id as int, post.presentaciones);
        pre.stock.lemma_refs_parent_lost(Link::Presentacion, pre.presentaciones, id as int, post.presentaciones);
        pre.movimientos.lemma_refs_parent_lost(Link::Presentacion, pre.presentaciones, id as int, post.presentaciones);
        pre.presentaciones.lemma_refs_child_removed(id as int, post.presentaciones, Link::Producto, pre.productos);
    }
    Ok(1)
}

/// Creating a presentation and then reading the key it was given yields the
/// record just stored: every field as given.
pub proof fn lemma_get_after_create(pre: InventoryView, d: CreatePresentacion, post: InventoryView)
    requires
        pre.wf(),
        create_error(pre, d) is None,
        created(pre, d, post),
    ensures
        post.presentaciones.lookup(post.presentaciones.last_id) matches Some(r) && d.stores(post.presentaciones.last_id, r),
{
    pre.presentaciones.lemma_lookup_grown(post.presentaciones);
}

/// After a partial update of an existing presentation, reading its key yields
/// the old record with each given field replaced and every other field kept.
pub proof fn lemma_get_after_update(pre: InventoryView, id: int, u: UpdatePresentacion, post: InventoryView, n: u64)
    requires
        pre.wf(),
        pre.presentaciones.has(id),
        update_error(pre, id, u) is None,
        updated(pre, id, u, post, n),
    ensures
        n == 1,
        post.presentaciones.lookup(id) == Some(u.merge(pre.presentaciones.lookup(id).unwrap())),
{
    pre.presentaciones.lemma_index_of(id);
    pre.presentaciones.lemma_replaced(id, u.merge(pre.presentaciones.lookup(id).unwrap()), post.presentaciones);
}

/// In an open store, updating or deleting a key that no presentation has is no
/// error: it reports a count of 0 and changes nothing.
pub proof fn lemma_absent_key(pre: InventoryView, id: int, u: UpdatePresentacion)
    requires
        pre.open,
        !pre.presentaciones.has(id),
    ensures
        update_error(pre, id, u) is None,
        delete_error(pre, id) is None,
        forall|post: InventoryView, n: u64| #[trigger] updated(pre, id, u, post, n) ==> n == 0 && post == pre,
        forall|post: InventoryView, n: u64| #[trigger] deleted(pre, id, post, n) ==> n == 0 && post == pre,
{
}

/// In an open store, creating a presentation whose references name a row that
/// does not exist fails with a foreign-key error (and, by the contract of
/// `create`, inserts nothing).
pub proof fn lemma_dangling_reference_refused(s: InventoryView, d: CreatePresentacion)
    requires
        s.open,
        !(s.productos.has(d.id_producto as int)),
    ensures
        create_error(s, d) == Some(StoreError::ForeignKey),
{
}

/// A presentation created for a product that had none is then the only one
/// listed for that product; a product that no presentation refers to lists
/// none.
pub proof fn lemma_listing_after_create(pre: InventoryView, d: CreatePresentacion, post: InventoryView, other: int)
    requires
        pre.wf(),
        create_error(pre, d) is None,
        created(pre, d, post),
        !pre.presentaciones.any_points_to(Link::Producto, d.id_producto as int),
        !post.presentaciones.any_points_to(Link::Producto, other),
    ensures
        post.presentaciones.pointing_to(Link::Producto, d.id_producto as int) == seq![post.presentaciones.rows.last()],
        post.presentaciones.pointing_to(Link::Producto, other) == Seq::<Presentacion>::empty(),
{
    pre.presentaciones.lemma_fresh_row_listed(post.presentaciones, Link::Producto, d.id_producto as int);
    post.presentaciones.lemma_pointing_to_none(Link::Producto, other);
}

} // verus!
