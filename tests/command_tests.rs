use inventario::amount::Amount;
use inventario::models::{CreateAlmacen, CreateProveedor, FacturaInput};
use inventario::services::{almacen_service, factura_service, proveedor_service};
use inventario::store::Inventory;

fn supplier(ruc_ci: &str, nombre: &str, contacto: Option<&str>) -> CreateProveedor {
    CreateProveedor {
        ruc_ci: ruc_ci.to_string(),
        nombre: nombre.to_string(),
        contacto: contacto.map(|c| c.to_string()),
        telefono: None,
        email: None,
        estado: None,
    }
}

fn store_with_supplier() -> Inventory {
    let mut store = Inventory::new();
    proveedor_service::create(&mut store, supplier("80000001-1", "Proveedor Test", None)).unwrap();
    store
}

#[test]
fn test_get_almacenes_command() {
    let mut store = Inventory::new();
    let first = CreateAlmacen {
        nombre: "Almacén 1".to_string(),
        ubicacion: Some("Ubicación 1".to_string()),
        responsable: Some("Responsable 1".to_string()),
    };
    let second = CreateAlmacen {
        nombre: "Almacén 2".to_string(),
        ubicacion: Some("Ubicación 2".to_string()),
        responsable: Some("Responsable 2".to_string()),
    };
    almacen_service::create(&mut store, first).unwrap();
    almacen_service::create(&mut store, second).unwrap();

    let result = almacen_service::get_all(&store);
    assert!(result.is_ok());
    let almacenes = result.unwrap();
    assert_eq!(almacenes.len(), 2);
    assert_eq!(almacenes[0].nombre, "Almacén 1");
    assert_eq!(almacenes[1].nombre, "Almacén 2");
}

#[test]
fn test_get_almacenes_empty() {
    let store = Inventory::new();
    let result = almacen_service::get_all(&store);
    assert!(result.is_ok());
    assert_eq!(result.unwrap().len(), 0);
}

#[test]
fn test_create_almacen_command() {
    let mut store = Inventory::new();
    let data = CreateAlmacen {
        nombre: "Nuevo Almacén".to_string(),
        ubicacion: Some("Nueva Ubicación".to_string()),
        responsable: Some("Nuevo Responsable".to_string()),
    };
    let result = almacen_service::create(&mut store, data);
    assert!(result.is_ok());
    let id = result.unwrap();
    assert_eq!(id, 1);

    let almacen = almacen_service::get_by_id(&store, id as i32).unwrap().unwrap();
    assert_eq!(almacen.nombre, "Nuevo Almacén");
    assert_eq!(almacen.ubicacion, Some("Nueva Ubicación".to_string()));
}

#[test]
fn test_create_almacen_minimal() {
    let mut store = Inventory::new();
    let data = CreateAlmacen { nombre: "Almacén Mínimo".to_string(), ubicacion: None, responsable: None };
    let result = almacen_service::create(&mut store, data);
    assert!(result.is_ok());
}

#[test]
fn test_create_almacen_error_handling() {
    let mut store = Inventory::new();
    store.close();
    let data = CreateAlmacen { nombre: "Test".to_string(), ubicacion: None, responsable: None };
    let result = almacen_service::create(&mut store, data);
    assert!(result.is_err());
}

#[test]
fn test_create_factura_command() {
    let mut store = store_with_supplier();
    let data = FacturaInput {
        numero: "F-001".to_string(),
        fecha: "2025-01-15".to_string(),
        id_proveedor: 1,
        total: Some(Amount::from_thousandths(1_500_500)),
        estado: Some("Pendiente".to_string()),
    };
    let result = factura_service::create_factura(&mut store, data);
    assert!(result.is_ok());
    let id = result.unwrap();
    assert_eq!(id, 1);

    let factura = factura_service::get_by_id(&store, id as i32).unwrap().unwrap();
    assert_eq!(factura.numero, "F-001");
    assert_eq!(factura.fecha, "2025-01-15");
    assert_eq!(factura.id_proveedor, 1);
    assert_eq!(factura.total, Some(Amount::from_thousandths(1_500_500)));
    assert_eq!(factura.estado, Some("Pendiente".to_string()));
}

#[test]
fn tests_test_create_factura_minimal() {
    let mut store = store_with_supplier();
    let data = FacturaInput {
        numero: "F-002".to_string(),
        fecha: "2025-01-16".to_string(),
        id_proveedor: 1,
        total: None,
        estado: None,
    };
    let result = factura_service::create_factura(&mut store, data);
    assert!(result.is_ok());
}

#[test]
fn test_create_factura_invalid_proveedor() {
    let mut store = store_with_supplier();
    let data = FacturaInput {
        numero: "F-003".to_string(),
        fecha: "2025-01-17".to_string(),
        id_proveedor: 999,
        total: Some(Amount::from_units(100)),
        estado: None,
    };
    let result = factura_service::create_factura(&mut store, data);
    assert!(result.is_err());
}

#[test]
fn test_create_factura_error_handling() {
    let mut store = store_with_supplier();
    store.close();
    let data = FacturaInput {
        numero: "F-004".to_string(),
        fecha: "2025-01-18".to_string(),
        id_proveedor: 1,
        total: None,
        estado: None,
    };
    let result = factura_service::create_factura(&mut store, data);
    assert!(result.is_err());
}

#[test]
fn test_full_workflow_almacen() {
    let mut store = Inventory::new();
    let almacenes = almacen_service::get_all(&store).unwrap();
    assert_eq!(almacenes.len(), 0);

    let data1 = CreateAlmacen {
        nombre: "Almacén Principal".to_string(),
        ubicacion: Some("Centro".to_string()),
        responsable: Some("Juan".to_string()),
    };
    let id1 = almacen_service::create(&mut store, data1).unwrap();
    let data2 = CreateAlmacen {
        nombre: "Almacén Secundario".to_string(),
        ubicacion: Some("Norte".to_string()),
        responsable: Some("María".to_string()),
    };
    let id2 = almacen_service::create(&mut store, data2).unwrap();

    assert_eq!(id1, 1);
    assert_eq!(id2, 2);

    let almacenes = almacen_service::get_all(&store).unwrap();
    assert_eq!(almacenes.len(), 2);
    assert_eq!(almacenes[0].nombre, "Almacén Principal");
    assert_eq!(almacenes[1].nombre, "Almacén Secundario");
}

#[test]
fn test_full_workflow_factura() {
    let mut store = Inventory::new();
    proveedor_service::create(&mut store, supplier("80000002-2", "Proveedor ABC", Some("contacto@abc.com"))).unwrap();

    let data1 = FacturaInput {
        numero: "F-001".to_string(),
        fecha: "2025-01-15".to_string(),
        id_proveedor: 1,
        total: Some(Amount::from_units(1000)),
        estado: Some("Pendiente".to_string()),
    };
    let id1 = factura_service::create_factura(&mut store, data1).unwrap();
    let data2 = FacturaInput {
        numero: "F-002".to_string(),
        fecha: "2025-01-16".to_string(),
        id_proveedor: 1,
        total: Some(Amount::from_units(2000)),
        estado: Some("Pagada".to_string()),
    };
    let id2 = factura_service::create_factura(&mut store, data2).unwrap();

    assert_eq!(id1, 1);
    assert_eq!(id2, 2);

    let count = factura_service::get_all(&store).unwrap().len();
    assert_eq!(count, 2);
}
