use vstd::prelude::*;
use crate::models::{CreateMovimiento, Movimiento, UpdateMovimiento};
use crate::services::movimiento_service;
use crate::store::{Inventory, report, reported_list, reported_read, reported_sorted_list};
use crate::table::{Link, SortBy};

verus! {

/// Adds the movement `data`; reports its key, or why it was refused.
pub fn create_movimiento(store: &mut Inventory, data: CreateMovimiento) -> (r: Result<i64, String>)
    requires
        old(store).wf(),
    ensures
        final(store).wf(),
        match movimiento_service::create_error(old(store)@, data) {
            Some(e) => r matches Err(m) && m@ == e.text() && final(store)@ == old(store)@,
            None => r == Ok::<i64, String>(final(store)@.movimientos.last_id as i64) && movimiento_service::created(old(store)@, data, final(store)@),
        },
{
    report(movimiento_service::create(store, data))
}

/// Every movement, in key order.
pub fn get_movimientos(store: &Inventory) -> (r: Result<Vec<Movimiento>, String>)
    requires
        store.wf(),
    ensures
        reported_list(store@.open, store@.movimientos.rows, r),
{
    report(movimiento_service::get_all(store))
}

/// The movement of key `movimiento_id`, or `None` when there is none.
pub fn get_movimiento_by_id(store: &Inventory, movimiento_id: i32) -> (r: Result<Option<Movimiento>, String>)
    requires
        store.wf(),
    ensures
        reported_read(store@.open, store@.movimientos.lookup(movimiento_id as int), r),
{
    report(movimiento_service::get_by_id(store, movimiento_id))
}

/// The movements that refer to `factura_id`, ordered as
/// `movimiento_service::get_by_factura` orders them.
pub fn get_movimientos_by_factura(store: &Inventory, factura_id: i32) -> (r: Result<Vec<Movimiento>, String>)
    requires
        store.wf(),
    ensures
        reported_sorted_list(store@.open, store@.movimientos.pointing_to(Link::Factura, factura_id as int), SortBy::Fecha, false, r),
{
    report(movimiento_service::get_by_factura(store, factura_id))
}

/// The movements that refer to `prod_prov_id`, ordered as
/// `movimiento_service::get_by_producto_proveedor` orders them.
pub fn get_movimientos_by_producto_proveedor(store: &Inventory, prod_prov_id: i32) -> (r: Result<Vec<Movimiento>, String>)
    requires
        store.wf(),
    ensures
        reported_sorted_list(store@.open, store@.movimientos.pointing_to(Link::ProductoProveedor, prod_prov_id as int), SortBy::Fecha, true, r),
{
    report(movimiento_service::get_by_producto_proveedor(store, prod_prov_id))
}

/// Merges `data` into the movement of key `movimiento_id`; reports whether a
/// row was changed, or why the update was refused.
pub fn update_movimiento(store: &mut Inventory, movimiento_id: i32, data: UpdateMovimiento) -> (r: Result<bool, String>)
    requires
        old(store).wf(),
    ensures
        final(store).wf(),
        match movimiento_service::update_error(old(store)@, movimiento_id as int, data) {
            Some(e) => r matches Err(m) && m@ == e.text() && final(store)@ == old(store)@,
            None => r matches Ok(b) && movimiento_service::updated(old(store)@, movimiento_id as int, data, final(store)@, if b { 1 } else { 0 }),
        },
{
    match movimiento_service::update(store, movimiento_id, data) {
        Ok(n) => Ok(n > 0),
        Err(e) => Err(e.message()),
    }
}

/// Removes the movement of key `movimiento_id`; reports whether a row was
/// removed, or why the delete was refused.
pub fn delete_movimiento(store: &mut Inventory, movimiento_id: i32) -> (r: Result<bool, String>)
    requires
        old(store).wf(),
    ensures
        final(store).wf(),
        match movimiento_service::delete_error(old(store)@, movimiento_id as int) {
            Some(e) => r matches Err(m) && m@ == e.text() && final(store)@ == old(store)@,
            None => r matches Ok(b) && movimiento_service::deleted(old(store)@, movimiento_id as int, final(store)@, if b { 1 } else { 0 }),
        },
{
    match movimiento_service::delete(store, movimiento_id) {
        Ok(n) => Ok(n > 0),
        Err(e) => Err(e.message()),
    }
}

} // verus!
