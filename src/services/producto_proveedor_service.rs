use vstd::prelude::*;
use crate::models::{ProductoProveedor, CreateProductoProveedor, UpdateProductoProveedor};
use crate::store::{Inventory, InventoryView, StoreError, list_gives, read_gives};
use crate::table::{Link, Row, TableView};

verus! {

/// `post` is `pre` with only the product-supplier link table changed to `t`.
pub open spec fn with_table(pre: InventoryView, t: TableView<ProductoProveedor>) -> InventoryView {
    InventoryView { productos_proveedores: t, ..pre }
}

/// Why creating the product-supplier link `d` in `s` fails, if it does.
pub open spec fn create_error(s: InventoryView, d: CreateProductoProveedor) -> Option<StoreError> {
    if !s.open {
        Some(StoreError::Closed)
    } else if !(s.productos.has(d.id_producto as int)
        && s.proveedores.has(d.id_proveedor as int)) {
        Some(StoreError::ForeignKey)
    } else if s.productos_proveedores.last_id >= i32::MAX {
        Some(StoreError::Full)
    } else {
        None
    }
}

/// `post` is `pre` with the product-supplier link `d` appended under the next
/// key.
pub open spec fn created(pre: InventoryView, d: CreateProductoProveedor, post: InventoryView) -> bool {
    &&& pre.productos_proveedores.grown_to(post.productos_proveedores)
    &&& d.stores(post.productos_proveedores.last_id, post.productos_proveedores.rows.last())
    &&& post == with_table(pre, post.productos_proveedores)
}

/// Why updating the product-supplier link of key `id` in `s` with `u` fails, if
/// it does.
pub open spec fn update_error(s: InventoryView, id: int, u: UpdateProductoProveedor) -> Option<StoreError> {
    if !s.open {
        Some(StoreError::Closed)
    } else if !s.productos_proveedores.has(id) {
        None
    } else if !s.resolves_producto_proveedor(u.merge(s.productos_proveedores.lookup(id).unwrap())) {
        Some(StoreError::ForeignKey)
    } else {
        None
    }
}

/// `post` and `r` are what a successful update of the product-supplier link of
/// key `id` with `u` leaves: the merged row in its place and a count of 1, or,
/// when there is no such row, `pre` unchanged and a count of 0.
pub open spec fn updated(pre: InventoryView, id: int, u: UpdateProductoProveedor, post: InventoryView, r: u64) -> bool {
    match pre.productos_proveedores.lookup(id) {
        Some(old) => {
            &&& r == 1
            &&& pre.productos_proveedores.replaced_in(id, u.merge(old), post.productos_proveedores)
            &&& post == with_table(pre, post.productos_proveedores)
        },
        None => r == 0 && post == pre,
    }
}

/// Why deleting the product-supplier link of key `id` from `s` fails, if it
/// does.
pub open spec fn delete_error(s: InventoryView, id: int) -> Option<StoreError> {
    if !s.open {
        Some(StoreError::Closed)
    } else if s.productos_proveedores.has(id) && (s.stock.any_points_to(Link::ProductoProveedor, id) || s.movimientos.any_points_to(Link::ProductoProveedor, id)) {
        Some(StoreError::ForeignKey)
    } else {
        None
    }
}

/// `post` and `r` are what a successful delete of the product-supplier link of
/// key `id` leaves: the row gone and a count of 1, or, when there is no such
/// row, `pre` unchanged and a count of 0.
pub open spec fn deleted(pre: InventoryView, id: int, post: InventoryView, r: u64) -> bool {
    if pre.productos_proveedores.has(id) {
        &&& r == 1
        &&& pre.productos_proveedores.removed_in(id, post.productos_proveedores)
        &&& post == with_table(pre, post.productos_proveedores)
    } else {
        r == 0 && post == pre
    }
}

/// Every product-supplier link, in key order.
pub fn get_all(store: &Inventory) -> (r: Result<Vec<ProductoProveedor>, StoreError>)
    requires
        store.wf(),
    ensures
        list_gives(store@.open, store@.productos_proveedores.rows, r),
{
    if !store.is_open() {
        return Err(StoreError::Closed);
    }
    Ok(store.productos_proveedores.all())
}

/// The product-supplier link of key `id`, or `None` when there is none.
pub fn get_by_id(store: &Inventory, id: i32) -> (r: Result<Option<ProductoProveedor>, StoreError>)
    requires
        store.wf(),
    ensures
        read_gives(store@.open, store@.productos_proveedores.lookup(id as int), r),
{
    if !store.is_open() {
        return Err(StoreError::Closed);
    }
    Ok(store.productos_proveedores.get(id))
}

/// Adds the product-supplier link `data` under the next key, which it returns.
pub fn create(store: &mut Inventory, data: CreateProductoProveedor) -> (r: Result<i64, StoreError>)
    requires
        old(store).wf(),
    ensures
        final(store).wf(),
        match create_error(old(store)@, data) {
            Some(e) => r == Err::<i64, StoreError>(e) && final(store)@ == old(store)@,
            None => r == Ok::<i64, StoreError>(final(store)@.productos_proveedores.last_id as i64) && created(old(store)@, data, final(store)@),
        },
{
    if !store.is_open() {
        return Err(StoreError::Closed);
    }
    let product_exists = store.productos.contains(data.id_producto);
    let supplier_exists = store.proveedores.contains(data.id_proveedor);
    if !(product_exists && supplier_exists) {
        return Err(StoreError::ForeignKey);
    }
    let id = match store.productos_proveedores.next_id() {
        Some(k) => k,
        None => return Err(StoreError::Full),
    };
    let ghost pre = store@;
    let row = data.into_row(id);
    store.productos_proveedores.push(row);
    proof {
        let post = store@;
        pre.productos_proveedores.lemma_grown(post.productos_proveedores);
        pre.stock.lemma_refs_parent_kept(Link::ProductoProveedor, pre.productos_proveedores, post.productos_proveedores);
        pre.movimientos.lemma_refs_parent_kept(Link::ProductoProveedor, pre.productos_proveedores, post.productos_proveedores);
        pre.productos_proveedores.lemma_refs_child_grown(post.productos_proveedores, Link::Producto, pre.productos);
        pre.productos_proveedores.lemma_refs_child_grown(post.productos_proveedores, Link::Proveedor, pre.proveedores);
    }
    Ok(id as i64)
}

/// Merges `data` into the product-supplier link of key `id`: each field given
/// replaces the stored one, each field left out keeps it. Returns the number of
/// rows changed, 0 when there is no such row.
pub fn update(store: &mut Inventory, id: i32, data: UpdateProductoProveedor) -> (r: Result<u64, StoreError>)
    requires
        old(store).wf(),
    ensures
        final(store).wf(),
        match update_error(old(store)@, id as int, data) {
            Some(e) => r == Err::<u64, StoreError>(e) && final(store)@ == old(store)@,
            None => r matches Ok(n) && updated(old(store)@, id as int, data, final(store)@, n),
        },
{
    if !store.is_open() {
        return Err(StoreError::Closed);
    }
    let i = match store.productos_proveedores.find(id) {
        Some(i) => i,
        None => return Ok(0),
    };
    let ghost pre = store@;
    proof {
        pre.productos_proveedores.lemma_index_of(id as int);
    }
    let merged = data.apply(store.productos_proveedores.at(i));
    let product_exists = store.productos.contains(merged.id_producto);
    let supplier_exists = store.proveedores.contains(merged.id_proveedor);
    if !(product_exists && supplier_exists) {
        return Err(StoreError::ForeignKey);
    }
    store.productos_proveedores.set(i, merged);
    proof {
        let post = store@;
        pre.productos_proveedores.lemma_replaced(id as int, merged, post.productos_proveedores);
        pre.stock.lemma_refs_parent_kept(Link::ProductoProveedor, pre.productos_proveedores, post.productos_proveedores);
        pre.movimientos.lemma_refs_parent_kept(Link::ProductoProveedor, pre.productos_proveedores, post.productos_proveedores);
        pre.productos_proveedores.lemma_refs_child_replaced(id as int, merged, post.productos_proveedores, Link::Producto, pre.productos);
        pre.productos_proveedores.lemma_refs_child_replaced(id as int, merged, post.productos_proveedores, Link::Proveedor, pre.proveedores);
    }
    Ok(1)
}

/// Removes the product-supplier link of key `id`. Returns the number of rows
/// removed, 0 when there is no such row.
pub fn delete(store: &mut Inventory, id: i32) -> (r: Result<u64, StoreError>)
    requires
        old(store).wf(),
    ensures
        final(store).wf(),
        match delete_error(old(store)@, id as int) {
            Some(e) => r == Err::<u64, StoreError>(e) && final(store)@ == old(store)@,
            None => r matches Ok(n) && deleted(old(store)@, id as int, final(store)@, n),
        },
{
    if !store.is_open() {
        return Err(StoreError::Closed);
    }
    let i = match store.productos_proveedores.find(id) {
        Some(i) => i,
        None => return Ok(0),
    };
    if store.stock.any_pointing_to(Link::ProductoProveedor, id) {
        return Err(StoreError::ForeignKey);
    }
    if store.movimientos.any_pointing_to(Link::ProductoProveedor, id) {
        return Err(StoreError::ForeignKey);
    }
    let ghost pre = store@;
    proof {
        pre.productos_proveedores.lemma_index_of(id as int);
    }
    store.productos_proveedores.remove_at(i);
    proof {
        let post = store@;
        pre.productos_proveedores.lemma_removed(id as int, post.productos_proveedores);
        pre.stock.lemma_refs_parent_lost(Link::ProductoProveedor, pre.productos_proveedores, id as int, post.productos_proveedores);
        pre.movimientos.lemma_refs_parent_lost(Link::ProductoProveedor, pre.productos_proveedores, id as int, post.productos_proveedores);
        pre.productos_proveedores.lemma_refs_child_removed(id as int, post.productos_proveedores, Link::Producto, pre.productos);
        pre.productos_proveedores.lemma_refs_child_removed(id as int, post.productos_proveedores, Link::Proveedor, pre.proveedores);
    }
    Ok(1)
}

/// Creating a product-supplier link and then reading the key it was given
/// yields the record just stored: every field as given, the status "Activo"
/// when left out.
pub proof fn lemma_get_after_create(pre: InventoryView, d: CreateProductoProveedor, post: InventoryView)
    requires
        pre.wf(),
        create_error(pre, d) is None,
        created(pre, d, post),
    ensures
        post.productos_proveedores.lookup(post.productos_proveedores.last_id) matches Some(r) && d.stores(post.productos_proveedores.last_id, r),
{
    pre.productos_proveedores.lemma_lookup_grown(post.productos_proveedores);
}

/// After a partial update of an existing product-supplier link, reading its key
/// yields the old record with each given field replaced and every other field
/// kept.
pub proof fn lemma_get_after_update(pre: InventoryView, id: int, u: UpdateProductoProveedor, post: InventoryView, n: u64)
    requires
        pre.wf(),
        pre.productos_proveedores.has(id),
        update_error(pre, id, u) is None,
        updated(pre, id, u, post, n),
    ensures
        n == 1,
        post.productos_proveedores.lookup(id) == Some(u.merge(pre.productos_proveedores.lookup(id).unwrap())),
{
    pre.productos_proveedores.lemma_index_of(id);
    pre.productos_proveedores.lemma_replaced(id, u.merge(pre.productos_proveedores.lookup(id).unwrap()), post.productos_proveedores);
}

/// In an open store, updating or deleting a key that no product-supplier link
/// has is no error: it reports a count of 0 and changes nothing.
pub proof fn lemma_absent_key(pre: InventoryView, id: int, u: UpdateProductoProveedor)
    requires
        pre.open,
        !pre.productos_proveedores.has(id),
    ensures
        update_error(pre, id, u) is None,
        delete_error(pre, id) is None,
        forall|post: InventoryView, n: u64| #[trigger] updated(pre, id, u, post, n) ==> n == 0 && post == pre,
        forall|post: InventoryView, n: u64| #[trigger] deleted(pre, id, post, n) ==> n == 0 && post == pre,
{
}

/// In an open store, creating a product-supplier link whose references name a
/// row that does not exist fails with a foreign-key error (and, by the contract
/// of `create`, inserts nothing).
pub proof fn lemma_dangling_reference_refused(s: InventoryView, d: CreateProductoProveedor)
    requires
        s.open,
        !(s.productos.has(d.id_producto as int)
            && s.proveedores.has(d.id_proveedor as int)),
    ensures
        create_error(s, d) == Some(StoreError::ForeignKey),
{
}

} // verus!
