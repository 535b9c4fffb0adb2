use vstd::prelude::*;
use vstd::string::StringExecFns;
use crate::models::{
    Almacen, Factura, Movimiento, Presentacion, Producto, ProductoProveedor, Proveedor,
    StockAlmacen,
};
use crate::table::{in_order, Link, Ranked, Row, SortBy, Table, TableView};

verus! {

/// Why a write, or any operation on a closed store, failed.
#[derive(Debug, Clone, Copy, PartialEq, Eq, Structural)]
pub enum StoreError {
    /// The store was closed.
    Closed,
    /// The table has handed out every key it can hold.
    Full,
    /// A unique column (a product's internal code, a supplier's tax id) would
    /// hold the same value twice.
    Unique,
    /// A foreign key would name a row that does not exist, or a row still
    /// referred to would be deleted.
    ForeignKey,
}

impl StoreError {
    /// The message reported to callers for this error.
    pub open spec fn text(self) -> Seq<char> {
        match self {
            StoreError::Closed => "attempted to acquire a connection on a closed pool"@,
            StoreError::Full => "database or disk is full"@,
            StoreError::Unique => "UNIQUE constraint failed"@,
            StoreError::ForeignKey => "FOREIGN KEY constraint failed"@,
        }
    }

    /// The message reported to callers for this error.
    pub fn message(&self) -> (r: String)
        ensures
            r@ == self.text(),
    {
        match self {
            StoreError::Closed => String::from_str("attempted to acquire a connection on a closed pool"),
            StoreError::Full => String::from_str("database or disk is full"),
            StoreError::Unique => String::from_str("UNIQUE constraint failed"),
            StoreError::ForeignKey => String::from_str("FOREIGN KEY constraint failed"),
        }
    }
}

/// What the store holds: each table, and whether the store is open.
pub ghost struct InventoryView {
    pub productos: TableView<Producto>,
    pub proveedores: TableView<Proveedor>,
    pub productos_proveedores: TableView<ProductoProveedor>,
    pub presentaciones: TableView<Presentacion>,
    pub almacenes: TableView<Almacen>,
    pub stock: TableView<StockAlmacen>,
    pub facturas: TableView<Factura>,
    pub movimientos: TableView<Movimiento>,
    pub open: bool,
}

/// No two products share an internal code.
pub open spec fn codes_unique(t: TableView<Producto>) -> bool {
    forall|i: int, j: int|
        0 <= i < j < t.rows.len() ==> #[trigger] t.rows[i].codigo_interno@ != #[trigger] t.rows[j].codigo_interno@
}

/// No two suppliers share a tax id.
pub open spec fn tax_ids_unique(t: TableView<Proveedor>) -> bool {
    forall|i: int, j: int| 0 <= i < j < t.rows.len() ==> #[trigger] t.rows[i].ruc_ci@ != #[trigger] t.rows[j].ruc_ci@
}

/// Whether a product other than the one of key `except` has internal code
/// `code`.
pub open spec fn code_taken(t: TableView<Producto>, code: Seq<char>, except: int) -> bool {
    exists|i: int| 0 <= i < t.rows.len() && #[trigger] t.rows[i].codigo_interno@ == code && t.rows[i].row_id() != except
}

/// Whether a supplier other than the one of key `except` has tax id `tax_id`.
pub open spec fn tax_id_taken(t: TableView<Proveedor>, tax_id: Seq<char>, except: int) -> bool {
    exists|i: int| 0 <= i < t.rows.len() && #[trigger] t.rows[i].ruc_ci@ == tax_id && t.rows[i].row_id() != except
}

/// `r` is what a read of `value` gives: the value while the store is open,
/// else the closed-store error.
pub open spec fn read_gives<T>(open: bool, value: T, r: Result<T, StoreError>) -> bool {
    if open {
        r == Ok::<T, StoreError>(value)
    } else {
        r == Err::<T, StoreError>(StoreError::Closed)
    }
}

/// `r` is what a listing of `rows` gives: those rows while the store is open,
/// else the closed-store error.
pub open spec fn list_gives<R>(open: bool, rows: Seq<R>, r: Result<Vec<R>, StoreError>) -> bool {
    if open {
        r matches Ok(v) && v@ == rows
    } else {
        r == Err::<Vec<R>, StoreError>(StoreError::Closed)
    }
}

/// `r` is what an ordered listing of `rows` gives: while the store is open,
/// those rows ordered by `by` (rows with equal sort keys in key order), else
/// the closed-store error.
pub open spec fn sorted_list_gives<R: Ranked>(
    open: bool,
    rows: Seq<R>,
    by: SortBy,
    descending: bool,
    r: Result<Vec<R>, StoreError>,
) -> bool {
    if open {
        r matches Ok(v) && in_order(v@, by, descending) && v@.to_multiset() == rows.to_multiset()
    } else {
        r == Err::<Vec<R>, StoreError>(StoreError::Closed)
    }
}

/// `r` reports the outcome `o` to a caller: the same value, or the message of
/// the error.
pub open spec fn reports<T>(r: Result<T, String>, o: Result<T, StoreError>) -> bool {
    match o {
        Ok(v) => r == Ok::<T, String>(v),
        Err(e) => r matches Err(m) && m@ == e.text(),
    }
}

/// Turns the outcome of an operation into what a caller sees: the same value,
/// or the message of the error.
pub fn report<T>(o: Result<T, StoreError>) -> (r: Result<T, String>)
    ensures
        reports(r, o),
{
    match o {
        Ok(v) => Ok(v),
        Err(e) => Err(e.message()),
    }
}

/// What a caller sees of a listing of `rows`: those rows while the store is
/// open, else the message of the closed-store error.
pub open spec fn reported_list<R>(open: bool, rows: Seq<R>, r: Result<Vec<R>, String>) -> bool {
    if open {
        r matches Ok(v) && v@ == rows
    } else {
        r matches Err(m) && m@ == StoreError::Closed.text()
    }
}

/// What a caller sees of a read of `value`: the value while the store is
/// open, else the message of the closed-store error.
pub open spec fn reported_read<T>(open: bool, value: T, r: Result<T, String>) -> bool {
    if open {
        r == Ok::<T, String>(value)
    } else {
        r matches Err(m) && m@ == StoreError::Closed.text()
    }
}

/// What a caller sees of an ordered listing of `rows`.
pub open spec fn reported_sorted_list<R: Ranked>(
    open: bool,
    rows: Seq<R>,
    by: SortBy,
    descending: bool,
    r: Result<Vec<R>, String>,
) -> bool {
    if open {
        r matches Ok(v) && in_order(v@, by, descending) && v@.to_multiset() == rows.to_multiset()
    } else {
        r matches Err(m) && m@ == StoreError::Closed.text()
    }
}

impl InventoryView {
    /// Every table is well formed, every foreign key names an existing row,
    /// and the unique columns hold no value twice.
    pub open spec fn wf(self) -> bool {
        &&& self.productos.wf()
        &&& self.proveedores.wf()
        &&& self.productos_proveedores.wf()
        &&& self.presentaciones.wf()
        &&& self.almacenes.wf()
        &&& self.stock.wf()
        &&& self.facturas.wf()
        &&& self.movimientos.wf()
        &&& self.productos_proveedores.refs_within(Link::Producto, self.productos)
        &&& self.productos_proveedores.refs_within(Link::Proveedor, self.proveedores)
        &&& self.presentaciones.refs_within(Link::Producto, self.productos)
        &&& self.stock.refs_within(Link::ProductoProveedor, self.productos_proveedores)
        &&& self.stock.refs_within(Link::Presentacion, self.presentaciones)
        &&& self.stock.refs_within(Link::Almacen, self.almacenes)
        &&& self.facturas.refs_within(Link::Proveedor, self.proveedores)
        &&& self.movimientos.refs_within(Link::ProductoProveedor, self.productos_proveedores)
        &&& self.movimientos.refs_within(Link::Presentacion, self.presentaciones)
        &&& self.movimientos.refs_within(Link::Factura, self.facturas)
        &&& codes_unique(self.productos)
        &&& tax_ids_unique(self.proveedores)
    }

    /// The product and supplier that `r` names exist.
    pub open spec fn resolves_producto_proveedor(self, r: ProductoProveedor) -> bool {
        self.productos.has(r.id_producto as int) && self.proveedores.has(r.id_proveedor as int)
    }

    /// The product that `r` names exists.
    pub open spec fn resolves_presentacion(self, r: Presentacion) -> bool {
        self.productos.has(r.id_producto as int)
    }

    /// The supplied product, presentation and warehouse that `r` names exist.
    pub open spec fn resolves_stock(self, r: StockAlmacen) -> bool {
        &&& self.productos_proveedores.has(r.id_prod_prov as int)
        &&& self.presentaciones.has(r.id_presentacion as int)
        &&& self.almacenes.has(r.id_almacen as int)
    }

    /// The supplier that `r` names exists.
    pub open spec fn resolves_factura(self, r: Factura) -> bool {
        self.proveedores.has(r.id_proveedor as int)
    }

    /// The supplied product, presentation and invoice (if any) that `r`
    /// names exist.
    pub open spec fn resolves_movimiento(self, r: Movimiento) -> bool {
        &&& self.productos_proveedores.has(r.id_prod_prov as int)
        &&& self.presentaciones.has(r.id_presentacion as int)
        &&& (r.id_factura matches Some(k) ==> self.facturas.has(k as int))
    }
}

/// The store: one table per entity, related by foreign keys.
pub struct Inventory {
    pub productos: Table<Producto>,
    pub proveedores: Table<Proveedor>,
    pub productos_proveedores: Table<ProductoProveedor>,
    pub presentaciones: Table<Presentacion>,
    pub almacenes: Table<Almacen>,
    pub stock: Table<StockAlmacen>,
    pub facturas: Table<Factura>,
    pub movimientos: Table<Movimiento>,
    pub open: bool,
}

impl View for Inventory {
    type V = InventoryView;

    open spec fn view(&self) -> InventoryView {
        InventoryView {
            productos: self.productos@,
            proveedores: self.proveedores@,
            productos_proveedores: self.productos_proveedores@,
            presentaciones: self.presentaciones@,
            almacenes: self.almacenes@,
            stock: self.stock@,
            facturas: self.facturas@,
            movimientos: self.movimientos@,
            open: self.open,
        }
    }
}

impl Inventory {
    pub open spec fn wf(&self) -> bool {
        self@.wf()
    }

    /// An open store with every table empty.
    pub fn new() -> (r: Inventory)
        ensures
            r.wf(),
            r@.open,
            r@.productos.rows.len() == 0 && r@.productos.last_id == 0,
            r@.proveedores.rows.len() == 0 && r@.proveedores.last_id == 0,
            r@.productos_proveedores.rows.len() == 0 && r@.productos_proveedores.last_id == 0,
            r@.presentaciones.rows.len() == 0 && r@.presentaciones.last_id == 0,
            r@.almacenes.rows.len() == 0 && r@.almacenes.last_id == 0,
            r@.stock.rows.len() == 0 && r@.stock.last_id == 0,
            r@.facturas.rows.len() == 0 && r@.facturas.last_id == 0,
            r@.movimientos.rows.len() == 0 && r@.movimientos.last_id == 0,
    {
        Inventory {
            productos: Table::new(),
            proveedores: Table::new(),
            productos_proveedores: Table::new(),
            presentaciones: Table::new(),
            almacenes: Table::new(),
            stock: Table::new(),
            facturas: Table::new(),
            movimientos: Table::new(),
            open: true,
        }
    }

    /// Closes the store: from then on every operation fails with
    /// `StoreError::Closed`. The tables keep what they hold.
    pub fn close(&mut self)
        requires
            old(self).wf(),
        ensures
            final(self).wf(),
            final(self)@ == (InventoryView { open: false, ..old(self)@ }),
    {
        self.open = false;
    }

    /// Whether the store is open.
    pub fn is_open(&self) -> (r: bool)
        ensures
            r == self@.open,
    {
        self.open
    }

    /// Whether a product other than the one of key `except` has internal
    /// code `code`.
    pub fn code_taken(&self, code: &String, except: i32) -> (r: bool)
        ensures
            r == code_taken(self@.productos, code@, except as int),
    {
        let mut i: usize = 0;
        while i < self.productos.len()
            invariant
                i <= self@.productos.rows.len(),
                forall|j: int| 0 <= j < i ==> !(#[trigger] self@.productos.rows[j].codigo_interno@ == code@
                    && self@.productos.rows[j].row_id() != except as int),
            decreases self@.productos.rows.len() - i,
        {
            let p = self.productos.at(i);
            if p.codigo_interno == *code && p.id_producto != except {
                assert(self@.productos.rows[i as int].codigo_interno@ == code@);
                return true;
            }
            i = i + 1;
        }
        false
    }

    /// Whether a supplier other than the one of key `except` has tax id
    /// `tax_id`.
    pub fn tax_id_taken(&self, tax_id: &String, except: i32) -> (r: bool)
        ensures
            r == tax_id_taken(self@.proveedores, tax_id@, except as int),
    {
        let mut i: usize = 0;
        while i < self.proveedores.len()
            invariant
                i <= self@.proveedores.rows.len(),
                forall|j: int| 0 <= j < i ==> !(#[trigger] self@.proveedores.rows[j].ruc_ci@ == tax_id@
                    && self@.proveedores.rows[j].row_id() != except as int),
            decreases self@.proveedores.rows.len() - i,
        {
            let p = self.proveedores.at(i);
            if p.ruc_ci == *tax_id && p.id_proveedor != except {
                assert(self@.proveedores.rows[i as int].ruc_ci@ == tax_id@);
                return true;
            }
            i = i + 1;
        }
        false
    }
}

} // verus!
