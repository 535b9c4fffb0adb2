use vstd::prelude::*;
use crate::models::{CreateProductoProveedor, ProductoProveedor, UpdateProductoProveedor};
use crate::services::producto_proveedor_service;
use crate::store::{Inventory, report, reported_list, reported_read};

verus! {

/// Adds the product-supplier link `data`; reports its key, or why it was
/// refused.
pub fn create_producto_proveedor(store: &mut Inventory, data: CreateProductoProveedor) -> (r: Result<i64, String>)
    requires
        old(store).wf(),
    ensures
        final(store).wf(),
        match producto_proveedor_service::create_error(old(store)@, data) {
            Some(e) => r matches Err(m) && m@ == e.text() && final(store)@ == old(store)@,
            None => r == Ok::<i64, String>(final(store)@.productos_proveedores.last_id as i64) && producto_proveedor_service::created(old(store)@, data, final(store)@),
        },
{
    report(producto_proveedor_service::create(store, data))
}

/// Every product-supplier link, in key order.
pub fn get_producto_proveedores(store: &Inventory) -> (r: Result<Vec<ProductoProveedor>, String>)
    requires
        store.wf(),
    ensures
        reported_list(store@.open, store@.productos_proveedores.rows, r),
{
    report(producto_proveedor_service::get_all(store))
}

/// The product-supplier link of key `id`, or `None` when there is none.
pub fn get_producto_proveedor_by_id(store: &Inventory, id: i32) -> (r: Result<Option<ProductoProveedor>, String>)
    requires
        store.wf(),
    ensures
        reported_read(store@.open, store@.productos_proveedores.lookup(id as int), r),
{
    report(producto_proveedor_service::get_by_id(store, id))
}

/// Merges `data` into the product-supplier link of key `id`; reports whether a
/// row was changed, or why the update was refused.
pub fn update_producto_proveedor(store: &mut Inventory, id: i32, data: UpdateProductoProveedor) -> (r: Result<bool, String>)
    requires
        old(store).wf(),
    ensures
        final(store).wf(),
        match producto_proveedor_service::update_error(old(store)@, id as int, data) {
            Some(e) => r matches Err(m) && m@ == e.text() && final(store)@ == old(store)@,
            None => r matches Ok(b) && producto_proveedor_service::updated(old(store)@, id as int, data, final(store)@, if b { 1 } else { 0 }),
        },
{
    match producto_proveedor_service::update(store, id, data) {
        Ok(n) => Ok(n > 0),
        Err(e) => Err(e.message()),
    }
}

/// Removes the product-supplier link of key `id`; reports whether a row was
/// removed, or why the delete was refused.
pub fn delete_producto_proveedor(store: &mut Inventory, id: i32) -> (r: Result<bool, String>)
    requires
        old(store).wf(),
    ensures
        final(store).wf(),
        match producto_proveedor_service::delete_error(old(store)@, id as int) {
            Some(e) => r matches Err(m) && m@ == e.text() && final(store)@ == old(store)@,
            None => r matches Ok(b) && producto_proveedor_service::deleted(old(store)@, id as int, final(store)@, if b { 1 } else { 0 }),
        },
{
    match producto_proveedor_service::delete(store, id) {
        Ok(n) => Ok(n > 0),
        Err(e) => Err(e.message()),
    }
}

} // verus!
