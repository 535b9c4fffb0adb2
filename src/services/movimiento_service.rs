use vstd::prelude::*;
use crate::models::{Movimiento, CreateMovimiento, UpdateMovimiento};
use crate::store::{Inventory, InventoryView, StoreError, list_gives, read_gives, sorted_list_gives};
use crate::table::{Link, Row, SortBy, TableView, lemma_empty_listing, lemma_single_listing};

verus! {

/// `post` is `pre` with only the movement table changed to `t`.
pub open spec fn with_table(pre: InventoryView, t: TableView<Movimiento>) -> InventoryView {
    InventoryView { movimientos: t, ..pre }
}

/// Why creating the movement `d` in `s` fails, if it does.
pub open spec fn create_error(s: InventoryView, d: CreateMovimiento) -> Option<StoreError> {
    if !s.open {
        Some(StoreError::Closed)
    } else if !(s.productos_proveedores.has(d.id_prod_prov as int)
        && s.presentaciones.has(d.id_presentacion as int)
        && (d.id_factura matches Some(k) ==> s.facturas.has(k as int))) {
        Some(StoreError::ForeignKey)
    } else if s.movimientos.last_id >= i32::MAX {
        Some(StoreError::Full)
    } else {
        None
    }
}

/// `post` is `pre` with the movement `d` appended under the next key.
pub open spec fn created(pre: InventoryView, d: CreateMovimiento, post: InventoryView) -> bool {
    &&& pre.movimientos.grown_to(post.movimientos)
    &&& d.stores(post.movimientos.last_id, post.movimientos.rows.last())
    &&& post == with_table(pre, post.movimientos)
}

/// Why updating the movement of key `id` in `s` with `u` fails, if it does.
pub open spec fn update_error(s: InventoryView, id: int, u: UpdateMovimiento) -> Option<StoreError> {
    if !s.open {
        Some(StoreError::Closed)
    } else if !s.movimientos.has(id) {
        None
    } else if !s.resolves_movimiento(u.merge(s.movimientos.lookup(id).unwrap())) {
        Some(StoreError::ForeignKey)
    } else {
        None
    }
}

/// `post` and `r` are what a successful update of the movement of key `id`
/// with `u` leaves: the merged row in its place and a count of 1, or, when
/// there is no such row, `pre` unchanged and a count of 0.
pub open spec fn updated(pre: InventoryView, id: int, u: UpdateMovimiento, post: InventoryView, r: u64) -> bool {
    match pre.movimientos.lookup(id) {
        Some(old) => {
            &&& r == 1
            &&& pre.movimientos.replaced_in(id, u.merge(old), post.movimientos)
            &&& post == with_table(pre, post.movimientos)
        },
        None => r == 0 && post == pre,
    }
}

/// Why deleting the movement of key `id` from `s` fails, if it does.
pub open spec fn delete_error(s: InventoryView, id: int) -> Option<StoreError> {
    if !s.open {
        Some(StoreError::Closed)
    } else {
        None
    }
}

/// `post` and `r` are what a successful delete of the movement of key `id`
/// leaves: the row gone and a count of 1, or, when there is no such row,
/// `pre` unchanged and a count of 0.
pub open spec fn deleted(pre: InventoryView, id: int, post: InventoryView, r: u64) -> bool {
    if pre.movimientos.has(id) {
        &&& r == 1
        &&& pre.movimientos.removed_in(id, post.movimientos)
        &&& post == with_table(pre, post.movimientos)
    } else {
        r == 0 && post == pre
    }
}

/// Every movement, in key order.
pub fn get_all(store: &Inventory) -> (r: Result<Vec<Movimiento>, StoreError>)
    requires
        store.wf(),
    ensures
        list_gives(store@.open, store@.movimientos.rows, r),
{
    if !store.is_open() {
        return Err(StoreError::Closed);
    }
    Ok(store.movimientos.all())
}

/// The movement of key `id`, or `None` when there is none.
pub fn get_by_id(store: &Inventory, id: i32) -> (r: Result<Option<Movimiento>, StoreError>)
    requires
        store.wf(),
    ensures
        read_gives(store@.open, store@.movimientos.lookup(id as int), r),
{
    if !store.is_open() {
        return Err(StoreError::Closed);
    }
    Ok(store.movimientos.get(id))
}

/// The movements tied to the invoice of key `factura_id`, oldest date first.
pub fn get_by_factura(store: &Inventory, factura_id: i32) -> (r: Result<Vec<Movimiento>, StoreError>)
    requires
        store.wf(),
    ensures
        sorted_list_gives(store@.open, store@.movimientos.pointing_to(Link::Factura, factura_id as int), SortBy::Fecha, false, r),
{
    if !store.is_open() {
        return Err(StoreError::Closed);
    }
    Ok(store.movimientos.pointing_to_sorted(Link::Factura, factura_id, SortBy::Fecha, false))
}

/// The movements of the supplied product of key `prod_prov_id`, newest date
/// first.
pub fn get_by_producto_proveedor(store: &Inventory, prod_prov_id: i32) -> (r: Result<Vec<Movimiento>, StoreError>)
    requires
        store.wf(),
    ensures
        sorted_list_gives(store@.open, store@.movimientos.pointing_to(Link::ProductoProveedor, prod_prov_id as int), SortBy::Fecha, true, r),
{
    if !store.is_open() {
        return Err(StoreError::Closed);
    }
    Ok(store.movimientos.pointing_to_sorted(Link::ProductoProveedor, prod_prov_id, SortBy::Fecha, true))
}

/// Adds the movement `data` under the next key, which it returns.
pub fn create(store: &mut Inventory, data: CreateMovimiento) -> (r: Result<i64, StoreError>)
    requires
        old(store).wf(),
    ensures
        final(store).wf(),
        match create_error(old(store)@, data) {
            Some(e) => r == Err::<i64, StoreError>(e) && final(store)@ == old(store)@,
            None => r == Ok::<i64, StoreError>(final(store)@.movimientos.last_id as i64) && created(old(store)@, data, final(store)@),
        },
{
    if !store.is_open() {
        return Err(StoreError::Closed);
    }
    let supply_exists = store.productos_proveedores.contains(data.id_prod_prov);
    let presentation_exists = store.presentaciones.contains(data.id_presentacion);
    let invoice_exists = match data.id_factura {
        Some(k) => store.facturas.contains(k),
        None => true,
    };
    if !(supply_exists && presentation_exists && invoice_exists) {
        return Err(StoreError::ForeignKey);
    }
    let id = match store.movimientos.next_id() {
        Some(k) => k,
        None => return Err(StoreError::Full),
    };
    let ghost pre = store@;
    let row = data.into_row(id);
    store.movimientos.push(row);
    proof {
        let post = store@;
        pre.movimientos.lemma_grown(post.movimientos);
        pre.movimientos.lemma_refs_child_grown(post.movimientos, Link::ProductoProveedor, pre.productos_proveedores);
        pre.movimientos.lemma_refs_child_grown(post.movimientos, Link::Presentacion, pre.presentaciones);
        pre.movimientos.lemma_refs_child_grown(post.movimientos, Link::Factura, pre.facturas);
    }
    Ok(id as i64)
}

/// Merges `data` into the movement of key `id`: each field given replaces the
/// stored one, each field left out keeps it. Returns the number of rows
/// changed, 0 when there is no such row.
pub fn update(store: &mut Inventory, id: i32, data: UpdateMovimiento) -> (r: Result<u64, StoreError>)
    requires
        old(store).wf(),
    ensures
        final(store).wf(),
        match update_error(old(store)@, id as int, data) {
            Some(e) => r == Err::<u64, StoreError>(e) && final(store)@ == old(store)@,
            None => r matches Ok(n) && updated(old(store)@, id as int, data, final(store)@, n),
        },
{
    if !store.is_open() {
        return Err(StoreError::Closed);
    }
    let i = match store.movimientos.find(id) {
        Some(i) => i,
        None => return Ok(0),
    };
    let ghost pre = store@;
    proof {
        pre.movimientos.lemma_index_of(id as int);
    }
    let merged = data.apply(store.movimientos.at(i));
    let supply_exists = store.productos_proveedores.contains(merged.id_prod_prov);
    let presentation_exists = store.presentaciones.contains(merged.id_presentacion);
    let invoice_exists = match merged.id_factura {
        Some(k) => store.facturas.contains(k),
        None => true,
    };
    if !(supply_exists && presentation_exists && invoice_exists) {
        return Err(StoreError::ForeignKey);
    }
    store.movimientos.set(i, merged);
    proof {
        let post = store@;
        pre.movimientos.lemma_replaced(id as int, merged, post.movimientos);
        pre.movimientos.lemma_refs_child_replaced(id as int, merged, post.movimientos, Link::ProductoProveedor, pre.productos_proveedores);
        pre.movimientos.lemma_refs_child_replaced(id as int, merged, post.movimientos, Link::Presentacion, pre.presentaciones);
        pre.movimientos.lemma_refs_child_replaced(id as int, merged, post.movimientos, Link::Factura, pre.facturas);
    }
    Ok(1)
}

/// Removes the movement of key `id`. Returns the number of rows removed, 0 when
/// there is no such row.
pub fn delete(store: &mut Inventory, id: i32) -> (r: Result<u64, StoreError>)
    requires
        old(store).wf(),
    ensures
        final(store).wf(),
        match delete_error(old(store)@, id as int) {
            Some(e) => r == Err::<u64, StoreError>(e) && final(store)@ == old(store)@,
            None => r matches Ok(n) && deleted(old(store)@, id as int, final(store)@, n),
        },
{
    if !store.is_open() {
        return Err(StoreError::Closed);
    }
    let i = match store.movimientos.find(id) {
        Some(i) => i,
        None => return Ok(0),
    };
    let ghost pre = store@;
    proof {
        pre.movimientos.lemma_index_of(id as int);
    }
    store.movimientos.remove_at(i);
    proof {
        let post = store@;
        pre.movimientos.lemma_removed(id as int, post.movimientos);
        pre.movimientos.lemma_refs_child_removed(id as int, post.movimientos, Link::ProductoProveedor, pre.productos_proveedores);
        pre.movimientos.lemma_refs_child_removed(id as int, post.movimientos, Link::Presentacion, pre.presentaciones);
        pre.movimientos.lemma_refs_child_removed(id as int, post.movimientos, Link::Factura, pre.facturas);
    }
    Ok(1)
}

/// Creating a movement and then reading the key it was given yields the
/// record just stored: every field as given.
pub proof fn lemma_get_after_create(pre: InventoryView, d: CreateMovimiento, post: InventoryView)
    requires
        pre.wf(),
        create_error(pre, d) is None,
        created(pre, d, post),
    ensures
        post.movimientos.lookup(post.movimientos.last_id) matches Some(r) && d.stores(post.movimientos.last_id, r),
{
    pre.movimientos.lemma_lookup_grown(post.movimientos);
}

/// After a partial update of an existing movement, reading its key yields
/// the old record with each given field replaced and every other field kept.
pub proof fn lemma_get_after_update(pre: InventoryView, id: int, u: UpdateMovimiento, post: InventoryView, n: u64)
    requires
        pre.wf(),
        pre.movimientos.has(id),
        update_error(pre, id, u) is None,
        updated(pre, id, u, post, n),
    ensures
        n == 1,
        post.movimientos.lookup(id) == Some(u.merge(pre.movimientos.lookup(id).unwrap())),
{
    pre.movimientos.lemma_index_of(id);
    pre.movimientos.lemma_replaced(id, u.merge(pre.movimientos.lookup(id).unwrap()), post.movimientos);
}

/// In an open store, updating or deleting a key that no movement has is no
/// error: it reports a count of 0 and changes nothing.
pub proof fn lemma_absent_key(pre: InventoryView, id: int, u: UpdateMovimiento)
    requires
        pre.open,
        !pre.movimientos.has(id),
    ensures
        update_error(pre, id, u) is None,
        delete_error(pre, id) is None,
        forall|post: InventoryView, n: u64| #[trigger] updated(pre, id, u, post, n) ==> n == 0 && post == pre,
        forall|post: InventoryView, n: u64| #[trigger] deleted(pre, id, post, n) ==> n == 0 && post == pre,
{
}

/// In an open store, creating a movement whose references name a row that
/// does not exist fails with a foreign-key error (and, by the contract of
/// `create`, inserts nothing).
pub proof fn lemma_dangling_reference_refused(s: InventoryView, d: CreateMovimiento)
    requires
        s.open,
        !(s.productos_proveedores.has(d.id_prod_prov as int)
            && s.presentaciones.has(d.id_presentacion as int)
            && (d.id_factura matches Some(k) ==> s.facturas.has(k as int))),
    ensures
        create_error(s, d) == Some(StoreError::ForeignKey),
{
}

/// A movement created for an invoice that had none is then the only one a
/// listing of that invoice holds; an invoice that no movement refers to
/// lists none.
pub proof fn lemma_listing_after_create(
    pre: InventoryView,
    d: CreateMovimiento,
    post: InventoryView,
    factura_id: int,
    listed: Seq<Movimiento>,
    other: int,
    listed_other: Seq<Movimiento>,
)
    requires
        pre.wf(),
        create_error(pre, d) is None,
        created(pre, d, post),
        d.id_factura matches Some(k) && k as int == factura_id,
        !pre.movimientos.any_points_to(Link::Factura, factura_id),
        listed.to_multiset() == post.movimientos.pointing_to(Link::Factura, factura_id).to_multiset(),
        !post.movimientos.any_points_to(Link::Factura, other),
        listed_other.to_multiset() == post.movimientos.pointing_to(Link::Factura, other).to_multiset(),
    ensures
        listed == seq![post.movimientos.rows.last()],
        listed_other == Seq::<Movimiento>::empty(),
{
    pre.movimientos.lemma_fresh_row_listed(post.movimientos, Link::Factura, factura_id);
    lemma_single_listing(listed, post.movimientos.rows.last());
    post.movimientos.lemma_pointing_to_none(Link::Factura, other);
    lemma_empty_listing(listed_other);
}

} // verus!
