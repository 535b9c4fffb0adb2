//! Inventory store: products, suppliers, warehouses, stock, invoices and
//! movements kept as related tables with checked references, partial
//! updates and the derived stock views.

pub mod amount;
pub mod text;
pub mod table;
pub mod models;
pub mod store;
pub mod services;
pub mod views;
pub mod commands;
