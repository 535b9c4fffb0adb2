//! The operations as callers outside the library see them: every failure
//! reported as a message, updates and deletes as whether a row was touched.

pub mod almacen_commands;
pub mod factura_commands;
pub mod movimiento_commands;
pub mod presentacion_commands;
pub mod producto_commands;
pub mod producto_proveedor_commands;
pub mod proveedor_commands;
pub mod stock_commands;
