use vstd::prelude::*;
use crate::models::{Almacen, CreateAlmacen};
use crate::services::almacen_service;
use crate::store::{Inventory, report, reported_list};

verus! {

/// Adds the warehouse `data`; reports its key, or why it was refused.
pub fn create_almacen(store: &mut Inventory, data: CreateAlmacen) -> (r: Result<i64, String>)
    requires
        old(store).wf(),
    ensures
        final(store).wf(),
        match almacen_service::create_error(old(store)@, data) {
            Some(e) => r matches Err(m) && m@ == e.text() && final(store)@ == old(store)@,
            None => r == Ok::<i64, String>(final(store)@.almacenes.last_id as i64) && almacen_service::created(old(store)@, data, final(store)@),
        },
{
    report(almacen_service::create(store, data))
}

/// Every warehouse, in key order.
pub fn get_almacenes(store: &Inventory) -> (r: Result<Vec<Almacen>, String>)
    requires
        store.wf(),
    ensures
        reported_list(store@.open, store@.almacenes.rows, r),
{
    report(almacen_service::get_all(store))
}

} // verus!
