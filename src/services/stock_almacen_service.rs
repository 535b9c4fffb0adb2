use vstd::prelude::*;
use crate::models::{StockAlmacen, CreateStockAlmacen, UpdateStockAlmacen};
use crate::store::{Inventory, InventoryView, StoreError, list_gives, read_gives, sorted_list_gives};
use crate::table::{Link, Row, SortBy, TableView};

verus! {

/// `post` is `pre` with only the stock record table changed to `t`.
pub open spec fn with_table(pre: InventoryView, t: TableView<StockAlmacen>) -> InventoryView {
    InventoryView { stock: t, ..pre }
}

/// Why creating the stock record `d` in `s` fails, if it does.
pub open spec fn create_error(s: InventoryView, d: CreateStockAlmacen) -> Option<StoreError> {
    if !s.open {
        Some(StoreError::Closed)
    } else if !(s.productos_proveedores.has(d.id_prod_prov as int)
        && s.presentaciones.has(d.id_presentacion as int)
        && s.almacenes.has(d.id_almacen as int)) {
        Some(StoreError::ForeignKey)
    } else if s.stock.last_id >= i32::MAX {
        Some(StoreError::Full)
    } else {
        None
    }
}

/// `post` is `pre` with the stock record `d` appended under the next key.
pub open spec fn created(pre: InventoryView, d: CreateStockAlmacen, post: InventoryView) -> bool {
    &&& pre.stock.grown_to(post.stock)
    &&& d.stores(post.stock.last_id, post.stock.rows.last())
    &&& post == with_table(pre, post.stock)
}

/// Why updating the stock record of key `id` in `s` with `u` fails, if it does.
pub open spec fn update_error(s: InventoryView, id: int, u: UpdateStockAlmacen) -> Option<StoreError> {
    if !s.open {
        Some(StoreError::Closed)
    } else if !s.stock.has(id) {
        None
    } else if !s.resolves_stock(u.merge(s.stock.lookup(id).unwrap())) {
        Some(StoreError::ForeignKey)
    } else {
        None
    }
}

/// `post` and `r` are what a successful update of the stock record of key `id`
/// with `u` leaves: the merged row in its place and a count of 1, or, when
/// there is no such row, `pre` unchanged and a count of 0.
pub open spec fn updated(pre: InventoryView, id: int, u: UpdateStockAlmacen, post: InventoryView, r: u64) -> bool {
    match pre.stock.lookup(id) {
        Some(old) => {
            &&& r == 1
            &&& pre.stock.replaced_in(id, u.merge(old), post.stock)
            &&& post == with_table(pre, post.stock)
        },
        None => r == 0 && post == pre,
    }
}

/// Why deleting the stock record of key `id` from `s` fails, if it does.
pub open spec fn delete_error(s: InventoryView, id: int) -> Option<StoreError> {
    if !s.open {
        Some(StoreError::Closed)
    } else {
        None
    }
}

/// `post` and `r` are what a successful delete of the stock record of key `id`
/// leaves: the row gone and a count of 1, or, when there is no such row,
/// `pre` unchanged and a count of 0.
pub open spec fn deleted(pre: InventoryView, id: int, post: InventoryView, r: u64) -> bool {
    if pre.stock.has(id) {
        &&& r == 1
        &&& pre.stock.removed_in(id, post.stock)
        &&& post == with_table(pre, post.stock)
    } else {
        r == 0 && post == pre
    }
}

/// Every stock record, in key order.
pub fn get_all(store: &Inventory) -> (r: Result<Vec<StockAlmacen>, StoreError>)
    requires
        store.wf(),
    ensures
        list_gives(store@.open, store@.stock.rows, r),
{
    if !store.is_open() {
        return Err(StoreError::Closed);
    }
    Ok(store.stock.all())
}

/// The stock record of key `id`, or `None` when there is none.
pub fn get_by_id(store: &Inventory, id: i32) -> (r: Result<Option<StockAlmacen>, StoreError>)
    requires
        store.wf(),
    ensures
        read_gives(store@.open, store@.stock.lookup(id as int), r),
{
    if !store.is_open() {
        return Err(StoreError::Closed);
    }
    Ok(store.stock.get(id))
}

/// The stock records of the warehouse of key `almacen_id`, by supplied
/// product.
pub fn get_by_almacen(store: &Inventory, almacen_id: i32) -> (r: Result<Vec<StockAlmacen>, StoreError>)
    requires
        store.wf(),
    ensures
        sorted_list_gives(store@.open, store@.stock.pointing_to(Link::Almacen, almacen_id as int), SortBy::ProductoProveedor, false, r),
{
    if !store.is_open() {
        return Err(StoreError::Closed);
    }
    Ok(store.stock.pointing_to_sorted(Link::Almacen, almacen_id, SortBy::ProductoProveedor, false))
}

/// The stock records of the supplied product of key `prod_prov_id`, by
/// warehouse.
pub fn get_by_producto_proveedor(store: &Inventory, prod_prov_id: i32) -> (r: Result<Vec<StockAlmacen>, StoreError>)
    requires
        store.wf(),
    ensures
        sorted_list_gives(store@.open, store@.stock.pointing_to(Link::ProductoProveedor, prod_prov_id as int), SortBy::Almacen, false, r),
{
    if !store.is_open() {
        return Err(StoreError::Closed);
    }
    Ok(store.stock.pointing_to_sorted(Link::ProductoProveedor, prod_prov_id, SortBy::Almacen, false))
}

/// Adds the stock record `data` under the next key, which it returns.
pub fn create(store: &mut Inventory, data: CreateStockAlmacen) -> (r: Result<i64, StoreError>)
    requires
        old(store).wf(),
    ensures
        final(store).wf(),
        match create_error(old(store)@, data) {
            Some(e) => r == Err::<i64, StoreError>(e) && final(store)@ == old(store)@,
            None => r == Ok::<i64, StoreError>(final(store)@.stock.last_id as i64) && created(old(store)@, data, final(store)@),
        },
{
    if !store.is_open() {
        return Err(StoreError::Closed);
    }
    let supply_exists = store.productos_proveedores.contains(data.id_prod_prov);
    let presentation_exists = store.presentaciones.contains(data.id_presentacion);
    let warehouse_exists = store.almacenes.contains(data.id_almacen);
    if !(supply_exists && presentation_exists && warehouse_exists) {
        return Err(StoreError::ForeignKey);
    }
    let id = match store.stock.next_id() {
        Some(k) => k,
        None => return Err(StoreError::Full),
    };
    let ghost pre = store@;
    let row = data.into_row(id);
    store.stock.push(row);
    proof {
        let post = store@;
        pre.stock.lemma_grown(post.stock);
        pre.stock.lemma_refs_child_grown(post.stock, Link::ProductoProveedor, pre.productos_proveedores);
        pre.stock.lemma_refs_child_grown(post.stock, Link::Presentacion, pre.presentaciones);
        pre.stock.lemma_refs_child_grown(post.stock, Link::Almacen, pre.almacenes);
    }
    Ok(id as i64)
}

/// Merges `data` into the stock record of key `id`: each field given replaces
/// the stored one, each field left out keeps it. Returns the number of rows
/// changed, 0 when there is no such row.
pub fn update(store: &mut Inventory, id: i32, data: UpdateStockAlmacen) -> (r: Result<u64, StoreError>)
    requires
        old(store).wf(),
    ensures
        final(store).wf(),
        match update_error(old(store)@, id as int, data) {
            Some(e) => r == Err::<u64, StoreError>(e) && final(store)@ == old(store)@,
            None => r matches Ok(n) && updated(old(store)@, id as int, data, final(store)@, n),
        },
{
    if !store.is_open() {
        return Err(StoreError::Closed);
    }
    let i = match store.stock.find(id) {
        Some(i) => i,
        None => return Ok(0),
    };
    let ghost pre = store@;
    proof {
        pre.stock.lemma_index_of(id as int);
    }
    let merged = data.apply(store.stock.at(i));
    let supply_exists = store.productos_proveedores.contains(merged.id_prod_prov);
    let presentation_exists = store.presentaciones.contains(merged.id_presentacion);
    let warehouse_exists = store.almacenes.contains(merged.id_almacen);
    if !(supply_exists && presentation_exists && warehouse_exists) {
        return Err(StoreError::ForeignKey);
    }
    store.stock.set(i, merged);
    proof {
        let post = store@;
        pre.stock.lemma_replaced(id as int, merged, post.stock);
        pre.stock.lemma_refs_child_replaced(id as int, merged, post.stock, Link::ProductoProveedor, pre.productos_proveedores);
        pre.stock.lemma_refs_child_replaced(id as int, merged, post.stock, Link::Presentacion, pre.presentaciones);
        pre.stock.lemma_refs_child_replaced(id as int, merged, post.stock, Link::Almacen, pre.almacenes);
    }
    Ok(1)
}

/// Removes the stock record of key `id`. Returns the number of rows removed, 0
/// when there is no such row.
pub fn delete(store: &mut Inventory, id: i32) -> (r: Result<u64, StoreError>)
    requires
        old(store).wf(),
    ensures
        final(store).wf(),
        match delete_error(old(store)@, id as int) {
            Some(e) => r == Err::<u64, StoreError>(e) && final(store)@ == old(store)@,
            None => r matches Ok(n) && deleted(old(store)@, id as int, final(store)@, n),
        },
{
    if !store.is_open() {
        return Err(StoreError::Closed);
    }
    let i = match store.stock.find(id) {
        Some(i) => i,
        None => return Ok(0),
    };
    let ghost pre = store@;
    proof {
        pre.stock.lemma_index_of(id as int);
    }
    store.stock.remove_at(i);
    proof {
        let post = store@;
        pre.stock.lemma_removed(id as int, post.stock);
        pre.stock.lemma_refs_child_removed(id as int, post.stock, Link::ProductoProveedor, pre.productos_proveedores);
        pre.stock.lemma_refs_child_removed(id as int, post.stock, Link::Presentacion, pre.presentaciones);
        pre.stock.lemma_refs_child_removed(id as int, post.stock, Link::Almacen, pre.almacenes);
    }
    Ok(1)
}

/// Creating a stock record and then reading the key it was given yields the
/// record just stored: every field as given.
pub proof fn lemma_get_after_create(pre: InventoryView, d: CreateStockAlmacen, post: InventoryView)
    requires
        pre.wf(),
        create_error(pre, d) is None,
        created(pre, d, post),
    ensures
        post.stock.lookup(post.stock.last_id) matches Some(r) && d.stores(post.stock.last_id, r),
{
    pre.stock.lemma_lookup_grown(post.stock);
}

/// After a partial update of an existing stock record, reading its key yields
/// the old record with each given field replaced and every other field kept.
pub proof fn lemma_get_after_update(pre: InventoryView, id: int, u: UpdateStockAlmacen, post: InventoryView, n: u64)
    requires
        pre.wf(),
        pre.stock.has(id),
        update_error(pre, id, u) is None,
        updated(pre, id, u, post, n),
    ensures
        n == 1,
        post.stock.lookup(id) == Some(u.merge(pre.stock.lookup(id).unwrap())),
{
    pre.stock.lemma_index_of(id);
    pre.stock.lemma_replaced(id, u.merge(pre.stock.lookup(id).unwrap()), post.stock);
}

/// In an open store, updating or deleting a key that no stock record has is no
/// error: it reports a count of 0 and changes nothing.
pub proof fn lemma_absent_key(pre: InventoryView, id: int, u: UpdateStockAlmacen)
    requires
        pre.open,
        !pre.stock.has(id),
    ensures
        update_error(pre, id, u) is None,
        delete_error(pre, id) is None,
        forall|post: InventoryView, n: u64| #[trigger] updated(pre, id, u, post, n) ==> n == 0 && post == pre,
        forall|post: InventoryView, n: u64| #[trigger] deleted(pre, id, post, n) ==> n == 0 && post == pre,
{
}

/// In an open store, creating a stock record whose references name a row that
/// does not exist fails with a foreign-key error (and, by the contract of
/// `create`, inserts nothing).
pub proof fn lemma_dangling_reference_refused(s: InventoryView, d: CreateStockAlmacen)
    requires
        s.open,
        !(s.productos_proveedores.has(d.id_prod_prov as int)
            && s.presentaciones.has(d.id_presentacion as int)
            && s.almacenes.has(d.id_almacen as int)),
    ensures
        create_error(s, d) == Some(StoreError::ForeignKey),
{
}

} // verus!
