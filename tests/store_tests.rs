use inventario::amount::Amount;
use inventario::commands::almacen_commands::{create_almacen, get_almacenes};
use inventario::commands::factura_commands::{create_factura, get_factura_by_id, get_facturas, get_facturas_by_proveedor, update_factura, delete_factura};
use inventario::commands::producto_commands::{create_product, delete_product, get_product_by_id, update_product};
use inventario::commands::stock_commands::{get_low_stock_products, get_stock_actual_all, get_stock_by_almacen, get_stock_by_producto_proveedor};
use inventario::models::{
    CreateAlmacen, CreateMovimiento, CreatePresentacion, CreateProducto, CreateProductoProveedor, CreateProveedor,
    CreateStockAlmacen, FacturaInput, FacturaUpdate, UpdateMovimiento, UpdateProducto, UpdateStockAlmacen,
};
use inventario::services::{
    almacen_service, movimiento_service, presentacion_service, producto_proveedor_service, producto_service,
    proveedor_service, stock_almacen_service,
};
use inventario::store::{Inventory, StoreError};
use inventario::text::compare_text;
use inventario::views::{low_stock_products, stock_actual_all, StockActual};

fn product(code: &str, descripcion: &str) -> CreateProducto {
    CreateProducto {
        codigo_interno: code.to_string(),
        descripcion: descripcion.to_string(),
        categoria: None,
        subcategoria: None,
        estado: None,
    }
}

fn supplier(ruc_ci: &str) -> CreateProveedor {
    CreateProveedor {
        ruc_ci: ruc_ci.to_string(),
        nombre: "Proveedor".to_string(),
        contacto: None,
        telefono: None,
        email: None,
        estado: None,
    }
}

fn warehouse(nombre: &str) -> CreateAlmacen {
    CreateAlmacen { nombre: nombre.to_string(), ubicacion: None, responsable: None }
}

fn invoice(numero: &str, fecha: &str, proveedor: i32) -> FacturaInput {
    FacturaInput { numero: numero.to_string(), fecha: fecha.to_string(), id_proveedor: proveedor, total: None, estado: None }
}

fn movement(fecha: &str, prod_prov: i32, factura: Option<i32>) -> CreateMovimiento {
    CreateMovimiento {
        fecha: fecha.to_string(),
        tipo: "Entrada".to_string(),
        subtipo: None,
        id_prod_prov: prod_prov,
        id_presentacion: 1,
        cantidad: Amount::from_units(1),
        precio_unit: None,
        monto_total: None,
        lote: None,
        fecha_venc: None,
        obs: None,
        id_factura: factura,
    }
}

fn stock(prod_prov: i32, almacen: i32, thousandths: i64) -> CreateStockAlmacen {
    CreateStockAlmacen {
        id_prod_prov: prod_prov,
        id_presentacion: 1,
        id_almacen: almacen,
        stock_actual: Amount::from_thousandths(thousandths),
    }
}

/// Two products, one supplier linked to both, one presentation of the
/// first product and two warehouses.
fn seeded() -> Inventory {
    let mut store = Inventory::new();
    producto_service::create(&mut store, product("P-1", "Laptop")).unwrap();
    producto_service::create(&mut store, product("P-2", "Mouse")).unwrap();
    proveedor_service::create(&mut store, supplier("800-1")).unwrap();
    for id_producto in 1..=2 {
        let link = CreateProductoProveedor {
            id_producto,
            id_proveedor: 1,
            codigo_proveedor: format!("S-{}", id_producto),
            estado: None,
        };
        producto_proveedor_service::create(&mut store, link).unwrap();
    }
    let pres = CreatePresentacion {
        id_producto: 1,
        unidad: "Caja".to_string(),
        cantidad: Amount::from_units(12),
        descripcion: None,
    };
    presentacion_service::create(&mut store, pres).unwrap();
    almacen_service::create(&mut store, warehouse("Norte")).unwrap();
    almacen_service::create(&mut store, warehouse("Sur")).unwrap();
    store
}

#[test]
fn create_then_get_gives_input_and_default_status() {
    let mut store = Inventory::new();
    let id = create_product(&mut store, product("P-9", "Papel")).unwrap();
    let got = get_product_by_id(&store, id as i32).unwrap().unwrap();
    assert_eq!(got.id_producto, 1);
    assert_eq!(got.codigo_interno, "P-9");
    assert_eq!(got.descripcion, "Papel");
    assert_eq!(got.categoria, None);
    assert_eq!(got.estado, Some("Activo".to_string()));

    let mut given = product("P-10", "Tinta");
    given.estado = Some("Inactivo".to_string());
    let id = create_product(&mut store, given).unwrap();
    let got = get_product_by_id(&store, id as i32).unwrap().unwrap();
    assert_eq!(got.estado, Some("Inactivo".to_string()));
}

#[test]
fn partial_update_keeps_omitted_fields() {
    let mut store = Inventory::new();
    let mut given = product("P-1", "Laptop");
    given.categoria = Some("Electrónicos".to_string());
    create_product(&mut store, given).unwrap();
    let change = UpdateProducto {
        codigo_interno: None,
        descripcion: Some("Laptop 15".to_string()),
        categoria: None,
        subcategoria: Some("Computadoras".to_string()),
        estado: None,
    };
    assert_eq!(update_product(&mut store, 1, change), Ok(true));
    let got = get_product_by_id(&store, 1).unwrap().unwrap();
    assert_eq!(got.codigo_interno, "P-1");
    assert_eq!(got.descripcion, "Laptop 15");
    assert_eq!(got.categoria, Some("Electrónicos".to_string()));
    assert_eq!(got.subcategoria, Some("Computadoras".to_string()));
    assert_eq!(got.estado, Some("Activo".to_string()));
}

#[test]
fn update_and_delete_of_missing_key_report_nothing_touched() {
    let mut store = seeded();
    let change = UpdateProducto { codigo_interno: None, descripcion: Some("X".to_string()), categoria: None, subcategoria: None, estado: None };
    assert_eq!(update_product(&mut store, 42, change), Ok(false));
    assert_eq!(delete_product(&mut store, 42), Ok(false));
    assert_eq!(delete_factura(&mut store, 42), Ok(false));
    assert_eq!(producto_service::get_all(&store).unwrap().len(), 2);
}

#[test]
fn listing_by_relation_after_create() {
    let mut store = seeded();
    let rows = presentacion_service::get_by_producto(&store, 1).unwrap();
    assert_eq!(rows.len(), 1);
    assert_eq!(rows[0].unidad, "Caja");
    assert_eq!(presentacion_service::get_by_producto(&store, 2).unwrap().len(), 0);
    assert_eq!(presentacion_service::get_by_producto(&store, 77).unwrap().len(), 0);

    let fid = create_factura(&mut store, invoice("F-1", "2025-02-01", 1)).unwrap() as i32;
    let mid = movimiento_service::create(&mut store, movement("2025-02-01", 1, Some(fid))).unwrap();
    let rows = movimiento_service::get_by_factura(&store, fid).unwrap();
    assert_eq!(rows.len(), 1);
    assert_eq!(rows[0].id_movimiento as i64, mid);
    assert_eq!(movimiento_service::get_by_factura(&store, fid + 1).unwrap().len(), 0);
}

#[test]
fn low_stock_lists_each_product_once() {
    let mut store = seeded();
    stock_almacen_service::create(&mut store, stock(1, 1, 5_000)).unwrap();
    stock_almacen_service::create(&mut store, stock(1, 2, 3_000)).unwrap();
    stock_almacen_service::create(&mut store, stock(2, 1, 10_000)).unwrap();
    let low = get_low_stock_products(&store).unwrap();
    assert_eq!(low.len(), 1);
    assert_eq!(low[0].id_producto, 1);
    assert_eq!(low[0].codigo_interno, "P-1");

    stock_almacen_service::create(&mut store, stock(2, 2, 9_999)).unwrap();
    let low = get_low_stock_products(&store).unwrap();
    let ids: Vec<i32> = low.iter().map(|p| p.id_producto).collect();
    assert_eq!(ids, vec![1, 2]);
}

#[test]
fn low_stock_with_other_threshold() {
    let mut store = seeded();
    stock_almacen_service::create(&mut store, stock(2, 1, 40_000)).unwrap();
    let low = low_stock_products(&store, Amount::from_units(50)).unwrap();
    assert_eq!(low.len(), 1);
    assert_eq!(low[0].id_producto, 2);
    assert_eq!(low_stock_products(&store, Amount::from_units(40)).unwrap().len(), 0);
}

#[test]
fn dangling_reference_is_refused_without_insert() {
    let mut store = seeded();
    let r = create_factura(&mut store, invoice("F-003", "2025-01-17", 999));
    assert_eq!(r, Err("FOREIGN KEY constraint failed".to_string()));
    assert_eq!(get_facturas(&store).unwrap().len(), 0);
    let r = factura_service_create_direct(&mut store);
    assert_eq!(r, Err(StoreError::ForeignKey));
    let r = movimiento_service::create(&mut store, movement("2025-01-01", 1, Some(5)));
    assert_eq!(r, Err(StoreError::ForeignKey));
    let r = stock_almacen_service::create(&mut store, stock(1, 3, 1));
    assert_eq!(r, Err(StoreError::ForeignKey));
    assert_eq!(stock_almacen_service::get_all(&store).unwrap().len(), 0);
}

fn factura_service_create_direct(store: &mut Inventory) -> Result<i64, StoreError> {
    inventario::services::factura_service::create_factura(store, invoice("F-5", "2025-01-01", 7))
}

#[test]
fn warehouses_are_listed_in_creation_order() {
    let mut store = Inventory::new();
    assert_eq!(create_almacen(&mut store, warehouse("Almacén 1")), Ok(1));
    assert_eq!(create_almacen(&mut store, warehouse("Almacén 2")), Ok(2));
    let all = get_almacenes(&store).unwrap();
    let names: Vec<&str> = all.iter().map(|a| a.nombre.as_str()).collect();
    assert_eq!(names, vec!["Almacén 1", "Almacén 2"]);
}

#[test]
fn invoice_status_update_keeps_other_fields() {
    let mut store = Inventory::new();
    proveedor_service::create(&mut store, supplier("800-1")).unwrap();
    let mut data = invoice("F-001", "2025-01-15", 1);
    data.total = Some(Amount::from_thousandths(1_500_500));
    assert_eq!(create_factura(&mut store, data), Ok(1));
    let change = FacturaUpdate { estado: Some("Pagada".to_string()), ..Default::default() };
    assert_eq!(update_factura(&mut store, 1, change), Ok(true));
    let got = get_factura_by_id(&store, 1).unwrap().unwrap();
    assert_eq!(got.numero, "F-001");
    assert_eq!(got.total, Some(Amount::from_thousandths(1_500_500)));
    assert_eq!(got.estado, Some("Pagada".to_string()));
}

#[test]
fn invoice_created_without_status_is_active() {
    let mut store = Inventory::new();
    proveedor_service::create(&mut store, supplier("800-1")).unwrap();
    create_factura(&mut store, invoice("F-1", "2025-01-15", 1)).unwrap();
    let got = get_factura_by_id(&store, 1).unwrap().unwrap();
    assert_eq!(got.estado, Some("Activo".to_string()));
    assert_eq!(got.total, None);
}

#[test]
fn movements_ordered_by_date() {
    let mut store = seeded();
    create_factura(&mut store, invoice("F-1", "2025-01-01", 1)).unwrap();
    movimiento_service::create(&mut store, movement("2025-03-10", 1, Some(1))).unwrap();
    movimiento_service::create(&mut store, movement("2025-01-05", 1, Some(1))).unwrap();
    movimiento_service::create(&mut store, movement("2025-03-10", 1, Some(1))).unwrap();
    movimiento_service::create(&mut store, movement("2025-02-01", 2, Some(1))).unwrap();

    let by_invoice = movimiento_service::get_by_factura(&store, 1).unwrap();
    let keys: Vec<i32> = by_invoice.iter().map(|m| m.id_movimiento).collect();
    assert_eq!(keys, vec![2, 4, 1, 3]);

    let by_supply = movimiento_service::get_by_producto_proveedor(&store, 1).unwrap();
    let keys: Vec<i32> = by_supply.iter().map(|m| m.id_movimiento).collect();
    assert_eq!(keys, vec![1, 3, 2]);
}

#[test]
fn invoices_of_a_supplier_newest_first() {
    let mut store = seeded();
    proveedor_service::create(&mut store, supplier("800-2")).unwrap();
    create_factura(&mut store, invoice("F-1", "2025-01-01", 1)).unwrap();
    create_factura(&mut store, invoice("F-2", "2025-06-01", 1)).unwrap();
    create_factura(&mut store, invoice("F-3", "2025-03-01", 2)).unwrap();
    create_factura(&mut store, invoice("F-4", "2025-03-01", 1)).unwrap();
    let rows = get_facturas_by_proveedor(&store, 1).unwrap();
    let numbers: Vec<&str> = rows.iter().map(|f| f.numero.as_str()).collect();
    assert_eq!(numbers, vec!["F-2", "F-4", "F-1"]);
}

#[test]
fn stock_listings_are_ordered() {
    let mut store = seeded();
    stock_almacen_service::create(&mut store, stock(2, 2, 1_000)).unwrap();
    stock_almacen_service::create(&mut store, stock(1, 2, 2_000)).unwrap();
    stock_almacen_service::create(&mut store, stock(1, 1, 3_000)).unwrap();
    let in_sur = get_stock_by_almacen(&store, 2).unwrap();
    let keys: Vec<i32> = in_sur.iter().map(|s| s.id_stock).collect();
    assert_eq!(keys, vec![2, 1]);
    let of_first = get_stock_by_producto_proveedor(&store, 1).unwrap();
    let keys: Vec<i32> = of_first.iter().map(|s| s.id_stock).collect();
    assert_eq!(keys, vec![3, 2]);
}

#[test]
fn stock_snapshot_projects_every_record() {
    let mut store = seeded();
    stock_almacen_service::create(&mut store, stock(2, 2, 1_500)).unwrap();
    stock_almacen_service::create(&mut store, stock(1, 1, 0)).unwrap();
    let change = UpdateStockAlmacen { id_prod_prov: None, id_presentacion: None, id_almacen: None, stock_actual: Some(Amount::from_units(-2)) };
    assert_eq!(stock_almacen_service::update(&mut store, 2, change), Ok(1));
    let snap = get_stock_actual_all(&store).unwrap();
    assert_eq!(
        snap,
        vec![
            StockActual { id_prod_prov: 2, id_presentacion: 1, id_almacen: 2, stock_actual: Amount::from_thousandths(1_500) },
            StockActual { id_prod_prov: 1, id_presentacion: 1, id_almacen: 1, stock_actual: Amount::from_thousandths(-2_000) },
        ]
    );
    assert_eq!(stock_actual_all(&store).unwrap().len(), 2);
}

#[test]
fn unique_columns_are_enforced() {
    let mut store = seeded();
    let r = create_product(&mut store, product("P-1", "Otro"));
    assert_eq!(r, Err("UNIQUE constraint failed".to_string()));
    let change = UpdateProducto { codigo_interno: Some("P-1".to_string()), descripcion: None, categoria: None, subcategoria: None, estado: None };
    assert_eq!(producto_service::update(&mut store, 2, change.clone()), Err(StoreError::Unique));
    assert_eq!(producto_service::update(&mut store, 1, change), Ok(1));
    assert_eq!(proveedor_service::create(&mut store, supplier("800-1")), Err(StoreError::Unique));
}

#[test]
fn referenced_rows_cannot_be_deleted() {
    let mut store = seeded();
    assert_eq!(delete_product(&mut store, 1), Err("FOREIGN KEY constraint failed".to_string()));
    assert_eq!(almacen_service::delete(&mut store, 1), Ok(1));
    assert_eq!(presentacion_service::delete(&mut store, 1), Ok(1));
    assert_eq!(producto_proveedor_service::delete(&mut store, 1), Ok(1));
    assert_eq!(delete_product(&mut store, 1), Ok(true));
    assert_eq!(get_product_by_id(&store, 1), Ok(None));
}

#[test]
fn update_to_dangling_reference_is_refused() {
    let mut store = seeded();
    movimiento_service::create(&mut store, movement("2025-01-01", 1, None)).unwrap();
    let change = UpdateMovimiento {
        fecha: None, tipo: None, subtipo: None, id_prod_prov: None, id_presentacion: None, cantidad: None,
        precio_unit: None, monto_total: None, lote: None, fecha_venc: None, obs: None, id_factura: Some(3),
    };
    assert_eq!(movimiento_service::update(&mut store, 1, change), Err(StoreError::ForeignKey));
    let got = movimiento_service::get_by_id(&store, 1).unwrap().unwrap();
    assert_eq!(got.id_factura, None);
}

#[test]
fn closed_store_refuses_everything() {
    let mut store = seeded();
    store.close();
    assert!(!store.is_open());
    let closed = Err("attempted to acquire a connection on a closed pool".to_string());
    assert_eq!(get_almacenes(&store).map(|v| v.len()), closed.clone().map(|_: ()| 0));
    assert_eq!(get_product_by_id(&store, 1).map(|_| ()), closed.clone().map(|_: ()| ()));
    assert_eq!(delete_product(&mut store, 2), Err("attempted to acquire a connection on a closed pool".to_string()));
    assert_eq!(low_stock_products(&store, Amount::from_units(10)).map(|v| v.len()), Err(StoreError::Closed));
}

#[test]
fn error_messages() {
    assert_eq!(StoreError::Full.message(), "database or disk is full");
    assert_eq!(StoreError::Unique.message(), "UNIQUE constraint failed");
    assert_eq!(StoreError::ForeignKey.message(), "FOREIGN KEY constraint failed");
}

#[test]
fn text_comparison_follows_code_points() {
    assert_eq!(compare_text("2025-01-15", "2025-01-16"), -1);
    assert_eq!(compare_text("2025-01-16", "2025-01-15"), 1);
    assert_eq!(compare_text("2025-01-15", "2025-01-15"), 0);
    assert_eq!(compare_text("2025", "2025-01"), -1);
    assert_eq!(compare_text("", ""), 0);
    assert_eq!(compare_text("Z", "a"), -1);
    assert_eq!(compare_text("é", "z"), 1);
}

#[test]
fn amounts() {
    assert_eq!(Amount::from_units(10).thousandths, 10_000);
    assert!(Amount::from_thousandths(9_999).is_below(Amount::from_units(10)));
    assert!(!Amount::from_units(10).is_below(Amount::from_units(10)));
}
