use vstd::prelude::*;
use crate::amount::Amount;
use crate::models::{Producto, CreateStockAlmacen, StockAlmacen, UpdateStockAlmacen};
use crate::services::stock_almacen_service;
use crate::views::{LOW_STOCK_THRESHOLD_THOUSANDTHS, StockActual, low_stock, low_stock_products, snapshot, stock_actual_all};
use crate::store::{Inventory, report, reported_list, reported_sorted_list};
use crate::table::{Link, SortBy};

verus! {

/// Adds the stock record `data`; reports its key, or why it was refused.
pub fn create_stock_almacen(store: &mut Inventory, data: CreateStockAlmacen) -> (r: Result<i64, String>)
    requires
        old(store).wf(),
    ensures
        final(store).wf(),
        match stock_almacen_service::create_error(old(store)@, data) {
            Some(e) => r matches Err(m) && m@ == e.text() && final(store)@ == old(store)@,
            None => r == Ok::<i64, String>(final(store)@.stock.last_id as i64) && stock_almacen_service::created(old(store)@, data, final(store)@),
        },
{
    report(stock_almacen_service::create(store, data))
}

/// Every stock record, in key order.
pub fn get_stock_almacen(store: &Inventory) -> (r: Result<Vec<StockAlmacen>, String>)
    requires
        store.wf(),
    ensures
        reported_list(store@.open, store@.stock.rows, r),
{
    report(stock_almacen_service::get_all(store))
}

/// The stock records that refer to `almacen_id`, ordered as
/// `stock_almacen_service::get_by_almacen` orders them.
pub fn get_stock_by_almacen(store: &Inventory, almacen_id: i32) -> (r: Result<Vec<StockAlmacen>, String>)
    requires
        store.wf(),
    ensures
        reported_sorted_list(store@.open, store@.stock.pointing_to(Link::Almacen, almacen_id as int), SortBy::ProductoProveedor, false, r),
{
    report(stock_almacen_service::get_by_almacen(store, almacen_id))
}

/// The stock records that refer to `prod_prov_id`, ordered as
/// `stock_almacen_service::get_by_producto_proveedor` orders them.
pub fn get_stock_by_producto_proveedor(store: &Inventory, prod_prov_id: i32) -> (r: Result<Vec<StockAlmacen>, String>)
    requires
        store.wf(),
    ensures
        reported_sorted_list(store@.open, store@.stock.pointing_to(Link::ProductoProveedor, prod_prov_id as int), SortBy::Almacen, false, r),
{
    report(stock_almacen_service::get_by_producto_proveedor(store, prod_prov_id))
}

/// Merges `data` into the stock record of key `stock_id`; reports whether a row
/// was changed, or why the update was refused.
pub fn update_stock_almacen(store: &mut Inventory, stock_id: i32, data: UpdateStockAlmacen) -> (r: Result<bool, String>)
    requires
        old(store).wf(),
    ensures
        final(store).wf(),
        match stock_almacen_service::update_error(old(store)@, stock_id as int, data) {
            Some(e) => r matches Err(m) && m@ == e.text() && final(store)@ == old(store)@,
            None => r matches Ok(b) && stock_almacen_service::updated(old(store)@, stock_id as int, data, final(store)@, if b { 1 } else { 0 }),
        },
{
    match stock_almacen_service::update(store, stock_id, data) {
        Ok(n) => Ok(n > 0),
        Err(e) => Err(e.message()),
    }
}

/// Removes the stock record of key `stock_id`; reports whether a row was
/// removed, or why the delete was refused.
pub fn delete_stock_almacen(store: &mut Inventory, stock_id: i32) -> (r: Result<bool, String>)
    requires
        old(store).wf(),
    ensures
        final(store).wf(),
        match stock_almacen_service::delete_error(old(store)@, stock_id as int) {
            Some(e) => r matches Err(m) && m@ == e.text() && final(store)@ == old(store)@,
            None => r matches Ok(b) && stock_almacen_service::deleted(old(store)@, stock_id as int, final(store)@, if b { 1 } else { 0 }),
        },
{
    match stock_almacen_service::delete(store, stock_id) {
        Ok(n) => Ok(n > 0),
        Err(e) => Err(e.message()),
    }
}

/// Every stock record reduced to what is on hand where, in key order.
pub fn get_stock_actual_all(store: &Inventory) -> (r: Result<Vec<StockActual>, String>)
    requires
        store.wf(),
    ensures
        reported_list(store@.open, snapshot(store@), r),
{
    report(stock_actual_all(store))
}

/// The products with a stock record below ten units, each once, in key order.
pub fn get_low_stock_products(store: &Inventory) -> (r: Result<Vec<Producto>, String>)
    requires
        store.wf(),
    ensures
        reported_list(store@.open, low_stock(store@, Amount { thousandths: LOW_STOCK_THRESHOLD_THOUSANDTHS }), r),
{
    report(low_stock_products(store, Amount::from_thousandths(LOW_STOCK_THRESHOLD_THOUSANDTHS)))
}

} // verus!
