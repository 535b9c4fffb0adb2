use vstd::prelude::*;
use crate::models::{Factura, FacturaInput, FacturaUpdate};
use crate::services::factura_service;
use crate::store::{Inventory, report, reported_list, reported_read, reported_sorted_list};
use crate::table::{Link, SortBy};

verus! {

/// Adds the invoice `data`; reports its key, or why it was refused.
pub fn create_factura(store: &mut Inventory, data: FacturaInput) -> (r: Result<i64, String>)
    requires
        old(store).wf(),
    ensures
        final(store).wf(),
        match factura_service::create_error(old(store)@, data) {
            Some(e) => r matches Err(m) && m@ == e.text() && final(store)@ == old(store)@,
            None => r == Ok::<i64, String>(final(store)@.facturas.last_id as i64) && factura_service::created(old(store)@, data, final(store)@),
        },
{
    report(factura_service::create_factura(store, data))
}

/// Every invoice, in key order.
pub fn get_facturas(store: &Inventory) -> (r: Result<Vec<Factura>, String>)
    requires
        store.wf(),
    ensures
        reported_list(store@.open, store@.facturas.rows, r),
{
    report(factura_service::get_all(store))
}

/// The invoice of key `factura_id`, or `None` when there is none.
pub fn get_factura_by_id(store: &Inventory, factura_id: i32) -> (r: Result<Option<Factura>, String>)
    requires
        store.wf(),
    ensures
        reported_read(store@.open, store@.facturas.lookup(factura_id as int), r),
{
    report(factura_service::get_by_id(store, factura_id))
}

/// The invoices that refer to `proveedor_id`, ordered as
/// `factura_service::get_by_proveedor` orders them.
pub fn get_facturas_by_proveedor(store: &Inventory, proveedor_id: i32) -> (r: Result<Vec<Factura>, String>)
    requires
        store.wf(),
    ensures
        reported_sorted_list(store@.open, store@.facturas.pointing_to(Link::Proveedor, proveedor_id as int), SortBy::Fecha, true, r),
{
    report(factura_service::get_by_proveedor(store, proveedor_id))
}

/// Merges `data` into the invoice of key `factura_id`; reports whether a row
/// was changed, or why the update was refused.
pub fn update_factura(store: &mut Inventory, factura_id: i32, data: FacturaUpdate) -> (r: Result<bool, String>)
    requires
        old(store).wf(),
    ensures
        final(store).wf(),
        match factura_service::update_error(old(store)@, factura_id as int, data) {
            Some(e) => r matches Err(m) && m@ == e.text() && final(store)@ == old(store)@,
            None => r matches Ok(b) && factura_service::updated(old(store)@, factura_id as int, data, final(store)@, if b { 1 } else { 0 }),
        },
{
    match factura_service::update_factura(store, factura_id, data) {
        Ok(n) => Ok(n > 0),
        Err(e) => Err(e.message()),
    }
}

/// Removes the invoice of key `factura_id`; reports whether a row was removed,
/// or why the delete was refused.
pub fn delete_factura(store: &mut Inventory, factura_id: i32) -> (r: Result<bool, String>)
    requires
        old(store).wf(),
    ensures
        final(store).wf(),
        match factura_service::delete_error(old(store)@, factura_id as int) {
            Some(e) => r matches Err(m) && m@ == e.text() && final(store)@ == old(store)@,
            None => r matches Ok(b) && factura_service::deleted(old(store)@, factura_id as int, final(store)@, if b { 1 } else { 0 }),
        },
{
    match factura_service::delete(store, factura_id) {
        Ok(n) => Ok(n > 0),
        Err(e) => Err(e.message()),
    }
}

} // verus!
