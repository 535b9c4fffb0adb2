use vstd::prelude::*;
use crate::models::{CreatePresentacion, Presentacion, UpdatePresentacion};
use crate::services::presentacion_service;
use crate::store::{Inventory, report, reported_list, reported_read};
use crate::table::{Link};

verus! {

/// Adds the presentation `data`; reports its key, or why it was refused.
pub fn create_presentacion(store: &mut Inventory, data: CreatePresentacion) -> (r: Result<i64, String>)
    requires
        old(store).wf(),
    ensures
        final(store).wf(),
        match presentacion_service::create_error(old(store)@, data) {
            Some(e) => r matches Err(m) && m@ == e.text() && final(store)@ == old(store)@,
            None => r == Ok::<i64, String>(final(store)@.presentaciones.last_id as i64) && presentacion_service::created(old(store)@, data, final(store)@),
        },
{
    report(presentacion_service::create(store, data))
}

/// Every presentation, in key order.
pub fn get_presentaciones(store: &Inventory) -> (r: Result<Vec<Presentacion>, String>)
    requires
        store.wf(),
    ensures
        reported_list(store@.open, store@.presentaciones.rows, r),
{
    report(presentacion_service::get_all(store))
}

/// The presentation of key `presentacion_id`, or `None` when there is none.
pub fn get_presentacion_by_id(store: &Inventory, presentacion_id: i32) -> (r: Result<Option<Presentacion>, String>)
    requires
        store.wf(),
    ensures
        reported_read(store@.open, store@.presentaciones.lookup(presentacion_id as int), r),
{
    report(presentacion_service::get_by_id(store, presentacion_id))
}

/// The presentations that refer to `producto_id`, in key order.
pub fn get_presentaciones_by_producto(store: &Inventory, producto_id: i32) -> (r: Result<Vec<Presentacion>, String>)
    requires
        store.wf(),
    ensures
        reported_list(store@.open, store@.presentaciones.pointing_to(Link::Producto, producto_id as int), r),
{
    report(presentacion_service::get_by_producto(store, producto_id))
}

/// Merges `data` into the presentation of key `presentacion_id`; reports
/// whether a row was changed, or why the update was refused.
pub fn update_presentacion(store: &mut Inventory, presentacion_id: i32, data: UpdatePresentacion) -> (r: Result<bool, String>)
    requires
        old(store).wf(),
    ensures
        final(store).wf(),
        match presentacion_service::update_error(old(store)@, presentacion_id as int, data) {
            Some(e) => r matches Err(m) && m@ == e.text() && final(store)@ == old(store)@,
            None => r matches Ok(b) && presentacion_service::updated(old(store)@, presentacion_id as int, data, final(store)@, if b { 1 } else { 0 }),
        },
{
    match presentacion_service::update(store, presentacion_id, data) {
        Ok(n) => Ok(n > 0),
        Err(e) => Err(e.message()),
    }
}

/// Removes the presentation of key `presentacion_id`; reports whether a row was
/// removed, or why the delete was refused.
pub fn delete_presentacion(store: &mut Inventory, presentacion_id: i32) -> (r: Result<bool, String>)
    requires
        old(store).wf(),
    ensures
        final(store).wf(),
        match presentacion_service::delete_error(old(store)@, presentacion_id as int) {
            Some(e) => r matches Err(m) && m@ == e.text() && final(store)@ == old(store)@,
            None => r matches Ok(b) && presentacion_service::deleted(old(store)@, presentacion_id as int, final(store)@, if b { 1 } else { 0 }),
        },
{
    match presentacion_service::delete(store, presentacion_id) {
        Ok(n) => Ok(n > 0),
        Err(e) => Err(e.message()),
    }
}

} // verus!
