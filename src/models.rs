//! The records of each table, with the input of their creation and of their
//! partial update.

pub mod producto;
pub mod proveedor;
pub mod producto_proveedor;
pub mod presentacion;
pub mod almacen;
pub mod stock_almacen;
pub mod factura;
pub mod movimiento;

pub use producto::{Producto, CreateProducto, UpdateProducto};
pub use proveedor::{Proveedor, CreateProveedor, UpdateProveedor};
pub use producto_proveedor::{ProductoProveedor, CreateProductoProveedor, UpdateProductoProveedor};
pub use presentacion::{Presentacion, CreatePresentacion, UpdatePresentacion};
pub use almacen::{Almacen, CreateAlmacen, UpdateAlmacen};
pub use stock_almacen::{StockAlmacen, CreateStockAlmacen, UpdateStockAlmacen};
pub use factura::{Factura, FacturaInput, FacturaUpdate};
pub use movimiento::{Movimiento, CreateMovimiento, UpdateMovimiento};
