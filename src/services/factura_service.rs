use vstd::prelude::*;
use crate::models::{Factura, FacturaInput, FacturaUpdate};
use crate::store::{Inventory, InventoryView, StoreError, list_gives, read_gives, sorted_list_gives};
use crate::table::{Link, Row, SortBy, TableView};

verus! {

/// `post` is `pre` with only the invoice table changed to `t`.
pub open spec fn with_table(pre: InventoryView, t: TableView<Factura>) -> InventoryView {
    InventoryView { facturas: t, ..pre }
}

/// Why creating the invoice `d` in `s` fails, if it does.
pub open spec fn create_error(s: InventoryView, d: FacturaInput) -> Option<StoreError> {
    if !s.open {
        Some(StoreError::Closed)
    } else if !(s.proveedores.has(d.id_proveedor as int)) {
        Some(StoreError::ForeignKey)
    } else if s.facturas.last_id >= i32::MAX {
        Some(StoreError::Full)
    } else {
        None
    }
}

/// `post` is `pre` with the invoice `d` appended under the next key.
pub open spec fn created(pre: InventoryView, d: FacturaInput, post: InventoryView) -> bool {
    &&& pre.facturas.grown_to(post.facturas)
    &&& d.stores(post.facturas.last_id, post.facturas.rows.last())
    &&& post == with_table(pre, post.facturas)
}

/// Why updating the invoice of key `id` in `s` with `u` fails, if it does.
pub open spec fn update_error(s: InventoryView, id: int, u: FacturaUpdate) -> Option<StoreError> {
    if !s.open {
        Some(StoreError::Closed)
    } else if !s.facturas.has(id) {
        None
    } else if !s.resolves_factura(u.merge(s.facturas.lookup(id).unwrap())) {
        Some(StoreError::ForeignKey)
    } else {
        None
    }
}

/// `post` and `r` are what a successful update of the invoice of key `id`
/// with `u` leaves: the merged row in its place and a count of 1, or, when
/// there is no such row, `pre` unchanged and a count of 0.
pub open spec fn updated(pre: InventoryView, id: int, u: FacturaUpdate, post: InventoryView, r: u64) -> bool {
    match pre.facturas.lookup(id) {
        Some(old) => {
            &&& r == 1
            &&& pre.facturas.replaced_in(id, u.merge(old), post.facturas)
            &&& post == with_table(pre, post.facturas)
        },
        None => r == 0 && post == pre,
    }
}

/// Why deleting the invoice of key `id` from `s` fails, if it does.
pub open spec fn delete_error(s: InventoryView, id: int) -> Option<StoreError> {
    if !s.open {
        Some(StoreError::Closed)
    } else if s.facturas.has(id) && (s.movimientos.any_points_to(Link::Factura, id)) {
        Some(StoreError::ForeignKey)
    } else {
        None
    }
}

/// `post` and `r` are what a successful delete of the invoice of key `id`
/// leaves: the row gone and a count of 1, or, when there is no such row,
/// `pre` unchanged and a count of 0.
pub open spec fn deleted(pre: InventoryView, id: int, post: InventoryView, r: u64) -> bool {
    if pre.facturas.has(id) {
        &&& r == 1
        &&& pre.facturas.removed_in(id, post.facturas)
        &&& post == with_table(pre, post.facturas)
    } else {
        r == 0 && post == pre
    }
}

/// Every invoice, in key order.
pub fn get_all(store: &Inventory) -> (r: Result<Vec<Factura>, StoreError>)
    requires
        store.wf(),
    ensures
        list_gives(store@.open, store@.facturas.rows, r),
{
    if !store.is_open() {
        return Err(StoreError::Closed);
    }
    Ok(store.facturas.all())
}

/// The invoice of key `id`, or `None` when there is none.
pub fn get_by_id(store: &Inventory, id: i32) -> (r: Result<Option<Factura>, StoreError>)
    requires
        store.wf(),
    ensures
        read_gives(store@.open, store@.facturas.lookup(id as int), r),
{
    if !store.is_open() {
        return Err(StoreError::Closed);
    }
    Ok(store.facturas.get(id))
}

/// The invoices of the supplier of key `proveedor_id`, newest date first.
pub fn get_by_proveedor(store: &Inventory, proveedor_id: i32) -> (r: Result<Vec<Factura>, StoreError>)
    requires
        store.wf(),
    ensures
        sorted_list_gives(store@.open, store@.facturas.pointing_to(Link::Proveedor, proveedor_id as int), SortBy::Fecha, true, r),
{
    if !store.is_open() {
        return Err(StoreError::Closed);
    }
    Ok(store.facturas.pointing_to_sorted(Link::Proveedor, proveedor_id, SortBy::Fecha, true))
}

/// Adds the invoice `data` under the next key, which it returns.
pub fn create_factura(store: &mut Inventory, data: FacturaInput) -> (r: Result<i64, StoreError>)
    requires
        old(store).wf(),
    ensures
        final(store).wf(),
        match create_error(old(store)@, data) {
            Some(e) => r == Err::<i64, StoreError>(e) && final(store)@ == old(store)@,
            None => r == Ok::<i64, StoreError>(final(store)@.facturas.last_id as i64) && created(old(store)@, data, final(store)@),
        },
{
    if !store.is_open() {
        return Err(StoreError::Closed);
    }
    let supplier_exists = store.proveedores.contains(data.id_proveedor);
    if !(supplier_exists) {
        return Err(StoreError::ForeignKey);
    }
    let id = match store.facturas.next_id() {
        Some(k) => k,
        None => return Err(StoreError::Full),
    };
    let ghost pre = store@;
    let row = data.into_row(id);
    store.facturas.push(row);
    proof {
        let post = store@;
        pre.facturas.lemma_grown(post.facturas);
        pre.movimientos.lemma_refs_parent_kept(Link::Factura, pre.facturas, post.facturas);
        pre.facturas.lemma_refs_child_grown(post.facturas, Link::Proveedor, pre.proveedores);
    }
    Ok(id as i64)
}

/// Merges `data` into the invoice of key `id`: each field given replaces the
/// stored one, each field left out keeps it. Returns the number of rows
/// changed, 0 when there is no such row.
pub fn update_factura(store: &mut Inventory, id: i32, data: FacturaUpdate) -> (r: Result<u64, StoreError>)
    requires
        old(store).wf(),
    ensures
        final(store).wf(),
        match update_error(old(store)@, id as int, data) {
            Some(e) => r == Err::<u64, StoreError>(e) && final(store)@ == old(store)@,
            None => r matches Ok(n) && updated(old(store)@, id as int, data, final(store)@, n),
        },
{
    if !store.is_open() {
        return Err(StoreError::Closed);
    }
    let i = match store.facturas.find(id) {
        Some(i) => i,
        None => return Ok(0),
    };
    let ghost pre = store@;
    proof {
        pre.facturas.lemma_index_of(id as int);
    }
    let merged = data.apply(store.facturas.at(i));
    let supplier_exists = store.proveedores.contains(merged.id_proveedor);
    if !(supplier_exists) {
        return Err(StoreError::ForeignKey);
    }
    store.facturas.set(i, merged);
    proof {
        let post = store@;
        pre.facturas.lemma_replaced(id as int, merged, post.facturas);
        pre.movimientos.lemma_refs_parent_kept(Link::Factura, pre.facturas, post.facturas);
        pre.facturas.lemma_refs_child_replaced(id as int, merged, post.facturas, Link::Proveedor, pre.proveedores);
    }
    Ok(1)
}

/// Removes the invoice of key `id`. Returns the number of rows removed, 0 when
/// there is no such row.
pub fn delete(store: &mut Inventory, id: i32) -> (r: Result<u64, StoreError>)
    requires
        old(store).wf(),
    ensures
        final(store).wf(),
        match delete_error(old(store)@, id as int) {
            Some(e) => r == Err::<u64, StoreError>(e) && final(store)@ == old(store)@,
            None => r matches Ok(n) && deleted(old(store)@, id as int, final(store)@, n),
        },
{
    if !store.is_open() {
        return Err(StoreError::Closed);
    }
    let i = match store.facturas.find(id) {
        Some(i) => i,
        None => return Ok(0),
    };
    if store.movimientos.any_pointing_to(Link::Factura, id) {
        return Err(StoreError::ForeignKey);
    }
    let ghost pre = store@;
    proof {
        pre.facturas.lemma_index_of(id as int);
    }
    store.facturas.remove_at(i);
    proof {
        let post = store@;
        pre.facturas.lemma_removed(id as int, post.facturas);
        pre.movimientos.lemma_refs_parent_lost(Link::Factura, pre.facturas, id as int, post.facturas);
        pre.facturas.lemma_refs_child_removed(id as int, post.facturas, Link::Proveedor, pre.proveedores);
    }
    Ok(1)
}

/// Creating a invoice and then reading the key it was given yields the
/// record just stored: every field as given, the status "Activo" when left
/// out.
pub proof fn lemma_get_after_create(pre: InventoryView, d: FacturaInput, post: InventoryView)
    requires
        pre.wf(),
        create_error(pre, d) is None,
        created(pre, d, post),
    ensures
        post.facturas.lookup(post.facturas.last_id) matches Some(r) && d.stores(post.facturas.last_id, r),
{
    pre.facturas.lemma_lookup_grown(post.facturas);
}

/// After a partial update of an existing invoice, reading its key yields
/// the old record with each given field replaced and every other field kept.
pub proof fn lemma_get_after_update(pre: InventoryView, id: int, u: FacturaUpdate, post: InventoryView, n: u64)
    requires
        pre.wf(),
        pre.facturas.has(id),
        update_error(pre, id, u) is None,
        updated(pre, id, u, post, n),
    ensures
        n == 1,
        post.facturas.lookup(id) == Some(u.merge(pre.facturas.lookup(id).unwrap())),
{
    pre.facturas.lemma_index_of(id);
    pre.facturas.lemma_replaced(id, u.merge(pre.facturas.lookup(id).unwrap()), post.facturas);
}

/// In an open store, updating or deleting a key that no invoice has is no
/// error: it reports a count of 0 and changes nothing.
pub proof fn lemma_absent_key(pre: InventoryView, id: int, u: FacturaUpdate)
    requires
        pre.open,
        !pre.facturas.has(id),
    ensures
        update_error(pre, id, u) is None,
        delete_error(pre, id) is None,
        forall|post: InventoryView, n: u64| #[trigger] updated(pre, id, u, post, n) ==> n == 0 && post == pre,
        forall|post: InventoryView, n: u64| #[trigger] deleted(pre, id, post, n) ==> n == 0 && post == pre,
{
}

/// In an open store, creating a invoice whose references name a row that
/// does not exist fails with a foreign-key error (and, by the contract of
/// `create_factura`, inserts nothing).
pub proof fn lemma_dangling_reference_refused(s: InventoryView, d: FacturaInput)
    requires
        s.open,
        !(s.proveedores.has(d.id_proveedor as int)),
    ensures
        create_error(s, d) == Some(StoreError::ForeignKey),
{
}

} // verus!
