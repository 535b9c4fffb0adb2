//! The operations on each table: listing, lookup by key, creation, partial
//! update and deletion, with the checks that keep the store consistent.

pub mod producto_service;
pub mod proveedor_service;
pub mod producto_proveedor_service;
pub mod presentacion_service;
pub mod almacen_service;
pub mod stock_almacen_service;
pub mod factura_service;
pub mod movimiento_service;
