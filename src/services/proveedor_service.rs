use vstd::prelude::*;
use crate::models::{Proveedor, CreateProveedor, UpdateProveedor};
use crate::store::{tax_id_taken, Inventory, InventoryView, StoreError, tax_ids_unique, list_gives, read_gives};
use crate::table::{Link, Row, TableView};

verus! {

/// `post` is `pre` with only the supplier table changed to `t`.
pub open spec fn with_table(pre: InventoryView, t: TableView<Proveedor>) -> InventoryView {
    InventoryView { proveedores: t, ..pre }
}

/// Why creating the supplier `d` in `s` fails, if it does.
pub open spec fn create_error(s: InventoryView, d: CreateProveedor) -> Option<StoreError> {
    if !s.open {
        Some(StoreError::Closed)
    } else if tax_id_taken(s.proveedores, d.ruc_ci@, 0) {
        Some(StoreError::Unique)
    } else if s.proveedores.last_id >= i32::MAX {
        Some(StoreError::Full)
    } else {
        None
    }
}

/// `post` is `pre` with the supplier `d` appended under the next key.
pub open spec fn created(pre: InventoryView, d: CreateProveedor, post: InventoryView) -> bool {
    &&& pre.proveedores.grown_to(post.proveedores)
    &&& d.stores(post.proveedores.last_id, post.proveedores.rows.last())
    &&& post == with_table(pre, post.proveedores)
}

/// Why updating the supplier of key `id` in `s` with `u` fails, if it does.
pub open spec fn update_error(s: InventoryView, id: int, u: UpdateProveedor) -> Option<StoreError> {
    if !s.open {
        Some(StoreError::Closed)
    } else if !s.proveedores.has(id) {
        None
    } else if tax_id_taken(s.proveedores, u.merge(s.proveedores.lookup(id).unwrap()).ruc_ci@, id) {
        Some(StoreError::Unique)
    } else {
        None
    }
}

/// `post` and `r` are what a successful update of the supplier of key `id`
/// with `u` leaves: the merged row in its place and a count of 1, or, when
/// there is no such row, `pre` unchanged and a count of 0.
pub open spec fn updated(pre: InventoryView, id: int, u: UpdateProveedor, post: InventoryView, r: u64) -> bool {
    match pre.proveedores.lookup(id) {
        Some(old) => {
            &&& r == 1
            &&& pre.proveedores.replaced_in(id, u.merge(old), post.proveedores)
            &&& post == with_table(pre, post.proveedores)
        },
        None => r == 0 && post == pre,
    }
}

/// Why deleting the supplier of key `id` from `s` fails, if it does.
pub open spec fn delete_error(s: InventoryView, id: int) -> Option<StoreError> {
    if !s.open {
        Some(StoreError::Closed)
    } else if s.proveedores.has(id) && (s.productos_proveedores.any_points_to(Link::Proveedor, id) || s.facturas.any_points_to(Link::Proveedor, id)) {
        Some(StoreError::ForeignKey)
    } else {
        None
    }
}

/// `post` and `r` are what a successful delete of the supplier of key `id`
/// leaves: the row gone and a count of 1, or, when there is no such row,
/// `pre` unchanged and a count of 0.
pub open spec fn deleted(pre: InventoryView, id: int, post: InventoryView, r: u64) -> bool {
    if pre.proveedores.has(id) {
        &&& r == 1
        &&& pre.proveedores.removed_in(id, post.proveedores)
        &&& post == with_table(pre, post.proveedores)
    } else {
        r == 0 && post == pre
    }
}

/// Every supplier, in key order.
pub fn get_all(store: &Inventory) -> (r: Result<Vec<Proveedor>, StoreError>)
    requires
        store.wf(),
    ensures
        list_gives(store@.open, store@.proveedores.rows, r),
{
    if !store.is_open() {
        return Err(StoreError::Closed);
    }
    Ok(store.proveedores.all())
}

/// The supplier of key `id`, or `None` when there is none.
pub fn get_by_id(store: &Inventory, id: i32) -> (r: Result<Option<Proveedor>, StoreError>)
    requires
        store.wf(),
    ensures
        read_gives(store@.open, store@.proveedores.lookup(id as int), r),
{
    if !store.is_open() {
        return Err(StoreError::Closed);
    }
    Ok(store.proveedores.get(id))
}

/// Adds the supplier `data` under the next key, which it returns.
pub fn create(store: &mut Inventory, data: CreateProveedor) -> (r: Result<i64, StoreError>)
    requires
        old(store).wf(),
    ensures
        final(store).wf(),
        match create_error(old(store)@, data) {
            Some(e) => r == Err::<i64, StoreError>(e) && final(store)@ == old(store)@,
            None => r == Ok::<i64, StoreError>(final(store)@.proveedores.last_id as i64) && created(old(store)@, data, final(store)@),
        },
{
    if !store.is_open() {
        return Err(StoreError::Closed);
    }
    if store.tax_id_taken(&data.ruc_ci, 0) {
        return Err(StoreError::Unique);
    }
    let id = match store.proveedores.next_id() {
        Some(k) => k,
        None => return Err(StoreError::Full),
    };
    let ghost pre = store@;
    let ghost key = data.ruc_ci@;
    let row = data.into_row(id);
    store.proveedores.push(row);
    proof {
        let post = store@;
        pre.proveedores.lemma_grown(post.proveedores);
        pre.productos_proveedores.lemma_refs_parent_kept(Link::Proveedor, pre.proveedores, post.proveedores);
        pre.facturas.lemma_refs_parent_kept(Link::Proveedor, pre.proveedores, post.proveedores);
        let n = pre.proveedores.rows.len();
        assert forall|i: int, j: int| 0 <= i < j < post.proveedores.rows.len() implies #[trigger] post.proveedores.rows[i].ruc_ci@ != #[trigger] post.proveedores.rows[j].ruc_ci@ by {
            assert(post.proveedores.rows.drop_last()[i] == post.proveedores.rows[i]);
            if j < n {
                assert(post.proveedores.rows.drop_last()[j] == post.proveedores.rows[j]);
            } else {
                assert(post.proveedores.rows[j].ruc_ci@ == key);
                assert(pre.proveedores.rows[i].row_id() >= 1);
                assert(!(pre.proveedores.rows[i].ruc_ci@ == key && pre.proveedores.rows[i].row_id() != 0));
            }
        }
    }
    Ok(id as i64)
}

/// Merges `data` into the supplier of key `id`: each field given replaces the
/// stored one, each field left out keeps it. Returns the number of rows
/// changed, 0 when there is no such row.
pub fn update(store: &mut Inventory, id: i32, data: UpdateProveedor) -> (r: Result<u64, StoreError>)
    requires
        old(store).wf(),
    ensures
        final(store).wf(),
        match update_error(old(store)@, id as int, data) {
            Some(e) => r == Err::<u64, StoreError>(e) && final(store)@ == old(store)@,
            None => r matches Ok(n) && updated(old(store)@, id as int, data, final(store)@, n),
        },
{
    if !store.is_open() {
        return Err(StoreError::Closed);
    }
    let i = match store.proveedores.find(id) {
        Some(i) => i,
        None => return Ok(0),
    };
    let ghost pre = store@;
    proof {
        pre.proveedores.lemma_index_of(id as int);
    }
    let merged = data.apply(store.proveedores.at(i));
    if store.tax_id_taken(&merged.ruc_ci, id) {
        return Err(StoreError::Unique);
    }
    store.proveedores.set(i, merged);
    proof {
        let post = store@;
        pre.proveedores.lemma_replaced(id as int, merged, post.proveedores);
        pre.productos_proveedores.lemma_refs_parent_kept(Link::Proveedor, pre.proveedores, post.proveedores);
        pre.facturas.lemma_refs_parent_kept(Link::Proveedor, pre.proveedores, post.proveedores);
    }
    Ok(1)
}

/// Removes the supplier of key `id`. Returns the number of rows removed, 0 when
/// there is no such row.
pub fn delete(store: &mut Inventory, id: i32) -> (r: Result<u64, StoreError>)
    requires
        old(store).wf(),
    ensures
        final(store).wf(),
        match delete_error(old(store)@, id as int) {
            Some(e) => r == Err::<u64, StoreError>(e) && final(store)@ == old(store)@,
            None => r matches Ok(n) && deleted(old(store)@, id as int, final(store)@, n),
        },
{
    if !store.is_open() {
        return Err(StoreError::Closed);
    }
    let i = match store.proveedores.find(id) {
        Some(i) => i,
        None => return Ok(0),
    };
    if store.productos_proveedores.any_pointing_to(Link::Proveedor, id) {
        return Err(StoreError::ForeignKey);
    }
    if store.facturas.any_pointing_to(Link::Proveedor, id) {
        return Err(StoreError::ForeignKey);
    }
    let ghost pre = store@;
    proof {
        pre.proveedores.lemma_index_of(id as int);
    }
    store.proveedores.remove_at(i);
    proof {
        let post = store@;
        pre.proveedores.lemma_removed(id as int, post.proveedores);
        pre.productos_proveedores.lemma_refs_parent_lost(Link::Proveedor, pre.proveedores, id as int, post.proveedores);
        pre.facturas.lemma_refs_parent_lost(Link::Proveedor, pre.proveedores, id as int, post.proveedores);
    }
    Ok(1)
}

/// Creating a supplier and then reading the key it was given yields the
/// record just stored: every field as given, the status "Activo" when left
/// out.
pub proof fn lemma_get_after_create(pre: InventoryView, d: CreateProveedor, post: InventoryView)
    requires
        pre.wf(),
        create_error(pre, d) is None,
        created(pre, d, post),
    ensures
        post.proveedores.lookup(post.proveedores.last_id) matches Some(r) && d.stores(post.proveedores.last_id, r),
{
    pre.proveedores.lemma_lookup_grown(post.proveedores);
}

/// After a partial update of an existing supplier, reading its key yields
/// the old record with each given field replaced and every other field kept.
pub proof fn lemma_get_after_update(pre: InventoryView, id: int, u: UpdateProveedor, post: InventoryView, n: u64)
    requires
        pre.wf(),
        pre.proveedores.has(id),
        update_error(pre, id, u) is None,
        updated(pre, id, u, post, n),
    ensures
        n == 1,
        post.proveedores.lookup(id) == Some(u.merge(pre.proveedores.lookup(id).unwrap())),
{
    pre.proveedores.lemma_index_of(id);
    pre.proveedores.lemma_replaced(id, u.merge(pre.proveedores.lookup(id).unwrap()), post.proveedores);
}

/// In an open store, updating or deleting a key that no supplier has is no
/// error: it reports a count of 0 and changes nothing.
pub proof fn lemma_absent_key(pre: InventoryView, id: int, u: UpdateProveedor)
    requires
        pre.open,
        !pre.proveedores.has(id),
    ensures
        update_error(pre, id, u) is None,
        delete_error(pre, id) is None,
        forall|post: InventoryView, n: u64| #[trigger] updated(pre, id, u, post, n) ==> n == 0 && post == pre,
        forall|post: InventoryView, n: u64| #[trigger] deleted(pre, id, post, n) ==> n == 0 && post == pre,
{
}

} // verus!
