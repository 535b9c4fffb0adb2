use vstd::prelude::*;
use crate::models::{CreateProveedor, Proveedor, UpdateProveedor};
use crate::services::proveedor_service;
use crate::store::{Inventory, report, reported_list, reported_read};

verus! {

/// Adds the supplier `data`; reports its key, or why it was refused.
pub fn create_proveedor(store: &mut Inventory, data: CreateProveedor) -> (r: Result<i64, String>)
    requires
        old(store).wf(),
    ensures
        final(store).wf(),
        match proveedor_service::create_error(old(store)@, data) {
            Some(e) => r matches Err(m) && m@ == e.text() && final(store)@ == old(store)@,
            None => r == Ok::<i64, String>(final(store)@.proveedores.last_id as i64) && proveedor_service::created(old(store)@, data, final(store)@),
        },
{
    report(proveedor_service::create(store, data))
}

/// Every supplier, in key order.
pub fn get_proveedores(store: &Inventory) -> (r: Result<Vec<Proveedor>, String>)
    requires
        store.wf(),
    ensures
        reported_list(store@.open, store@.proveedores.rows, r),
{
    report(proveedor_service::get_all(store))
}

/// The supplier of key `proveedor_id`, or `None` when there is none.
pub fn get_proveedor_by_id(store: &Inventory, proveedor_id: i32) -> (r: Result<Option<Proveedor>, String>)
    requires
        store.wf(),
    ensures
        reported_read(store@.open, store@.proveedores.lookup(proveedor_id as int), r),
{
    report(proveedor_service::get_by_id(store, proveedor_id))
}

/// Merges `data` into the supplier of key `proveedor_id`; reports whether a row
/// was changed, or why the update was refused.
pub fn update_proveedor(store: &mut Inventory, proveedor_id: i32, data: UpdateProveedor) -> (r: Result<bool, String>)
    requires
        old(store).wf(),
    ensures
        final(store).wf(),
        match proveedor_service::update_error(old(store)@, proveedor_id as int, data) {
            Some(e) => r matches Err(m) && m@ == e.text() && final(store)@ == old(store)@,
            None => r matches Ok(b) && proveedor_service::updated(old(store)@, proveedor_id as int, data, final(store)@, if b { 1 } else { 0 }),
        },
{
    match proveedor_service::update(store, proveedor_id, data) {
        Ok(n) => Ok(n > 0),
        Err(e) => Err(e.message()),
    }
}

/// Removes the supplier of key `proveedor_id`; reports whether a row was
/// removed, or why the delete was refused.
pub fn delete_proveedor(store: &mut Inventory, proveedor_id: i32) -> (r: Result<bool, String>)
    requires
        old(store).wf(),
    ensures
        final(store).wf(),
        match proveedor_service::delete_error(old(store)@, proveedor_id as int) {
            Some(e) => r matches Err(m) && m@ == e.text() && final(store)@ == old(store)@,
            None => r matches Ok(b) && proveedor_service::deleted(old(store)@, proveedor_id as int, final(store)@, if b { 1 } else { 0 }),
        },
{
    match proveedor_service::delete(store, proveedor_id) {
        Ok(n) => Ok(n > 0),
        Err(e) => Err(e.message()),
    }
}

} // verus!
