use vstd::prelude::*;
use crate::models::{CreateProducto, Producto, UpdateProducto};
use crate::services::producto_service;
use crate::store::{Inventory, report, reported_list, reported_read};

verus! {

/// Adds the product `product_data`; reports its key, or why it was refused.
pub fn create_product(store: &mut Inventory, product_data: CreateProducto) -> (r: Result<i64, String>)
    requires
        old(store).wf(),
    ensures
        final(store).wf(),
        match producto_service::create_error(old(store)@, product_data) {
            Some(e) => r matches Err(m) && m@ == e.text() && final(store)@ == old(store)@,
            None => r == Ok::<i64, String>(final(store)@.productos.last_id as i64) && producto_service::created(old(store)@, product_data, final(store)@),
        },
{
    report(producto_service::create(store, product_data))
}

/// Every product, in key order.
pub fn get_products(store: &Inventory) -> (r: Result<Vec<Producto>, String>)
    requires
        store.wf(),
    ensures
        reported_list(store@.open, store@.productos.rows, r),
{
    report(producto_service::get_all(store))
}

/// The product of key `product_id`, or `None` when there is none.
pub fn get_product_by_id(store: &Inventory, product_id: i32) -> (r: Result<Option<Producto>, String>)
    requires
        store.wf(),
    ensures
        reported_read(store@.open, store@.productos.lookup(product_id as int), r),
{
    report(producto_service::get_by_id(store, product_id))
}

/// Merges `product_data` into the product of key `product_id`; reports whether
/// a row was changed, or why the update was refused.
pub fn update_product(store: &mut Inventory, product_id: i32, product_data: UpdateProducto) -> (r: Result<bool, String>)
    requires
        old(store).wf(),
    ensures
        final(store).wf(),
        match producto_service::update_error(old(store)@, product_id as int, product_data) {
            Some(e) => r matches Err(m) && m@ == e.text() && final(store)@ == old(store)@,
            None => r matches Ok(b) && producto_service::updated(old(store)@, product_id as int, product_data, final(store)@, if b { 1 } else { 0 }),
        },
{
    match producto_service::update(store, product_id, product_data) {
        Ok(n) => Ok(n > 0),
        Err(e) => Err(e.message()),
    }
}

/// Removes the product of key `product_id`; reports whether a row was removed,
/// or why the delete was refused.
pub fn delete_product(store: &mut Inventory, product_id: i32) -> (r: Result<bool, String>)
    requires
        old(store).wf(),
    ensures
        final(store).wf(),
        match producto_service::delete_error(old(store)@, product_id as int) {
            Some(e) => r matches Err(m) && m@ == e.text() && final(store)@ == old(store)@,
            None => r matches Ok(b) && producto_service::deleted(old(store)@, product_id as int, final(store)@, if b { 1 } else { 0 }),
        },
{
    match producto_service::delete(store, product_id) {
        Ok(n) => Ok(n > 0),
        Err(e) => Err(e.message()),
    }
}

} // verus!
