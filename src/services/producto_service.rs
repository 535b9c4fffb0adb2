use vstd::prelude::*;
use crate::models::{Producto, CreateProducto, UpdateProducto};
use crate::store::{code_taken, Inventory, InventoryView, StoreError, codes_unique, list_gives, read_gives};
use crate::table::{Link, Row, TableView};

verus! {

/// `post` is `pre` with only the product table changed to `t`.
pub open spec fn with_table(pre: InventoryView, t: TableView<Producto>) -> InventoryView {
    InventoryView { productos: t, ..pre }
}

/// Why creating the product `d` in `s` fails, if it does.
pub open spec fn create_error(s: InventoryView, d: CreateProducto) -> Option<StoreError> {
    if !s.open {
        Some(StoreError::Closed)
    } else if code_taken(s.productos, d.codigo_interno@, 0) {
        Some(StoreError::Unique)
    } else if s.productos.last_id >= i32::MAX {
        Some(StoreError::Full)
    } else {
        None
    }
}

/// `post` is `pre` with the product `d` appended under the next key.
pub open spec fn created(pre: InventoryView, d: CreateProducto, post: InventoryView) -> bool {
    &&& pre.productos.grown_to(post.productos)
    &&& d.stores(post.productos.last_id, post.productos.rows.last())
    &&& post == with_table(pre, post.productos)
}

/// Why updating the product of key `id` in `s` with `u` fails, if it does.
pub open spec fn update_error(s: InventoryView, id: int, u: UpdateProducto) -> Option<StoreError> {
    if !s.open {
        Some(StoreError::Closed)
    } else if !s.productos.has(id) {
        None
    } else if code_taken(s.productos, u.merge(s.productos.lookup(id).unwrap()).codigo_interno@, id) {
        Some(StoreError::Unique)
    } else {
        None
    }
}

/// `post` and `r` are what a successful update of the product of key `id`
/// with `u` leaves: the merged row in its place and a count of 1, or, when
/// there is no such row, `pre` unchanged and a count of 0.
pub open spec fn updated(pre: InventoryView, id: int, u: UpdateProducto, post: InventoryView, r: u64) -> bool {
    match pre.productos.lookup(id) {
        Some(old) => {
            &&& r == 1
            &&& pre.productos.replaced_in(id, u.merge(old), post.productos)
            &&& post == with_table(pre, post.productos)
        },
        None => r == 0 && post == pre,
    }
}

/// Why deleting the product of key `id` from `s` fails, if it does.
pub open spec fn delete_error(s: InventoryView, id: int) -> Option<StoreError> {
    if !s.open {
        Some(StoreError::Closed)
    } else if s.productos.has(id) && (s.productos_proveedores.any_points_to(Link::Producto, id) || s.presentaciones.any_points_to(Link::Producto, id)) {
        Some(StoreError::ForeignKey)
    } else {
        None
    }
}

/// `post` and `r` are what a successful delete of the product of key `id`
/// leaves: the row gone and a count of 1, or, when there is no such row,
/// `pre` unchanged and a count of 0.
pub open spec fn deleted(pre: InventoryView, id: int, post: InventoryView, r: u64) -> bool {
    if pre.productos.has(id) {
        &&& r == 1
        &&& pre.productos.removed_in(id, post.productos)
        &&& post == with_table(pre, post.productos)
    } else {
        r == 0 && post == pre
    }
}

/// Every product, in key order.
pub fn get_all(store: &Inventory) -> (r: Result<Vec<Producto>, StoreError>)
    requires
        store.wf(),
    ensures
        list_gives(store@.open, store@.productos.rows, r),
{
    if !store.is_open() {
        return Err(StoreError::Closed);
    }
    Ok(store.productos.all())
}

/// The product of key `id`, or `None` when there is none.
pub fn get_by_id(store: &Inventory, id: i32) -> (r: Result<Option<Producto>, StoreError>)
    requires
        store.wf(),
    ensures
        read_gives(store@.open, store@.productos.lookup(id as int), r),
{
    if !store.is_open() {
        return Err(StoreError::Closed);
    }
    Ok(store.productos.get(id))
}

/// Adds the product `data` under the next key, which it returns.
pub fn create(store: &mut Inventory, data: CreateProducto) -> (r: Result<i64, StoreError>)
    requires
        old(store).wf(),
    ensures
        final(store).wf(),
        match create_error(old(store)@, data) {
            Some(e) => r == Err::<i64, StoreError>(e) && final(store)@ == old(store)@,
            None => r == Ok::<i64, StoreError>(final(store)@.productos.last_id as i64) && created(old(store)@, data, final(store)@),
        },
{
    if !store.is_open() {
        return Err(StoreError::Closed);
    }
    if store.code_taken(&data.codigo_interno, 0) {
        return Err(StoreError::Unique);
    }
    let id = match store.productos.next_id() {
        Some(k) => k,
        None => return Err(StoreError::Full),
    };
    let ghost pre = store@;
    let ghost key = data.codigo_interno@;
    let row = data.into_row(id);
    store.productos.push(row);
    proof {
        let post = store@;
        pre.productos.lemma_grown(post.productos);
        pre.productos_proveedores.lemma_refs_parent_kept(Link::Producto, pre.productos, post.productos);
        pre.presentaciones.lemma_refs_parent_kept(Link::Producto, pre.productos, post.productos);
        let n = pre.productos.rows.len();
        assert forall|i: int, j: int| 0 <= i < j < post.productos.rows.len() implies #[trigger] post.productos.rows[i].codigo_interno@ != #[trigger] post.productos.rows[j].codigo_interno@ by {
            assert(post.productos.rows.drop_last()[i] == post.productos.rows[i]);
            if j < n {
                assert(post.productos.rows.drop_last()[j] == post.productos.rows[j]);
            } else {
                assert(post.productos.rows[j].codigo_interno@ == key);
                assert(pre.productos.rows[i].row_id() >= 1);
                assert(!(pre.productos.rows[i].codigo_interno@ == key && pre.productos.rows[i].row_id() != 0));
            }
        }
    }
    Ok(id as i64)
}

/// Merges `data` into the product of key `id`: each field given replaces the
/// stored one, each field left out keeps it. Returns the number of rows
/// changed, 0 when there is no such row.
pub fn update(store: &mut Inventory, id: i32, data: UpdateProducto) -> (r: Result<u64, StoreError>)
    requires
        old(store).wf(),
    ensures
        final(store).wf(),
        match update_error(old(store)@, id as int, data) {
            Some(e) => r == Err::<u64, StoreError>(e) && final(store)@ == old(store)@,
            None => r matches Ok(n) && updated(old(store)@, id as int, data, final(store)@, n),
        },
{
    if !store.is_open() {
        return Err(StoreError::Closed);
    }
    let i = match store.productos.find(id) {
        Some(i) => i,
        None => return Ok(0),
    };
    let ghost pre = store@;
    proof {
        pre.productos.lemma_index_of(id as int);
    }
    let merged = data.apply(store.productos.at(i));
    if store.code_taken(&merged.codigo_interno, id) {
        return Err(StoreError::Unique);
    }
    store.productos.set(i, merged);
    proof {
        let post = store@;
        pre.productos.lemma_replaced(id as int, merged, post.productos);
        pre.productos_proveedores.lemma_refs_parent_kept(Link::Producto, pre.productos, post.productos);
        pre.presentaciones.lemma_refs_parent_kept(Link::Producto, pre.productos, post.productos);
    }
    Ok(1)
}

/// Removes the product of key `id`. Returns the number of rows removed, 0 when
/// there is no such row.
pub fn delete(store: &mut Inventory, id: i32) -> (r: Result<u64, StoreError>)
    requires
        old(store).wf(),
    ensures
        final(store).wf(),
        match delete_error(old(store)@, id as int) {
            Some(e) => r == Err::<u64, StoreError>(e) && final(store)@ == old(store)@,
            None => r matches Ok(n) && deleted(old(store)@, id as int, final(store)@, n),
        },
{
    if !store.is_open() {
        return Err(StoreError::Closed);
    }
    let i = match store.productos.find(id) {
        Some(i) => i,
        None => return Ok(0),
    };
    if store.productos_proveedores.any_pointing_to(Link::Producto, id) {
        return Err(StoreError::ForeignKey);
    }
    if store.presentaciones.any_pointing_to(Link::Producto, id) {
        return Err(StoreError::ForeignKey);
    }
    let ghost pre = store@;
    proof {
        pre.productos.lemma_index_of(id as int);
    }
    store.productos.remove_at(i);
    proof {
        let post = store@;
        pre.productos.lemma_removed(id as int, post.productos);
        pre.productos_proveedores.lemma_refs_parent_lost(Link::Producto, pre.productos, id as int, post.productos);
        pre.presentaciones.lemma_refs_parent_lost(Link::Producto, pre.productos, id as int, post.productos);
    }
    Ok(1)
}

/// Creating a product and then reading the key it was given yields the
/// record just stored: every field as given, the status "Activo" when left
/// out.
pub proof fn lemma_get_after_create(pre: InventoryView, d: CreateProducto, post: InventoryView)
    requires
        pre.wf(),
        create_error(pre, d) is None,
        created(pre, d, post),
    ensures
        post.productos.lookup(post.productos.last_id) matches Some(r) && d.stores(post.productos.last_id, r),
{
    pre.productos.lemma_lookup_grown(post.productos);
}

/// After a partial update of an existing product, reading its key yields
/// the old record with each given field replaced and every other field kept.
pub proof fn lemma_get_after_update(pre: InventoryView, id: int, u: UpdateProducto, post: InventoryView, n: u64)
    requires
        pre.wf(),
        pre.productos.has(id),
        update_error(pre, id, u) is None,
        updated(pre, id, u, post, n),
    ensures
        n == 1,
        post.productos.lookup(id) == Some(u.merge(pre.productos.lookup(id).unwrap())),
{
    pre.productos.lemma_index_of(id);
    pre.productos.lemma_replaced(id, u.merge(pre.productos.lookup(id).unwrap()), post.productos);
}

/// In an open store, updating or deleting a key that no product has is no
/// error: it reports a count of 0 and changes nothing.
pub proof fn lemma_absent_key(pre: InventoryView, id: int, u: UpdateProducto)
    requires
        pre.open,
        !pre.productos.has(id),
    ensures
        update_error(pre, id, u) is None,
        delete_error(pre, id) is None,
        forall|post: InventoryView, n: u64| #[trigger] updated(pre, id, u, post, n) ==> n == 0 && post == pre,
        forall|post: InventoryView, n: u64| #[trigger] deleted(pre, id, post, n) ==> n == 0 && post == pre,
{
}

} // verus!
