use inventario::amount::Amount;
use inventario::models::{CreateAlmacen, CreateProveedor, FacturaInput, FacturaUpdate, UpdateAlmacen};
use inventario::services::{almacen_service, factura_service, proveedor_service};
use inventario::store::Inventory;

fn store_with_supplier() -> Inventory {
    let mut store = Inventory::new();
    let supplier = CreateProveedor {
        ruc_ci: "80000001-1".to_string(),
        nombre: "Proveedor Test".to_string(),
        contacto: None,
        telefono: None,
        email: None,
        estado: None,
    };
    proveedor_service::create(&mut store, supplier).unwrap();
    store
}

#[test]
fn test_create_almacen() {
    let mut store = Inventory::new();
    let data = CreateAlmacen {
        nombre: "Almacén Central".to_string(),
        ubicacion: Some("Av. Principal 123".to_string()),
        responsable: Some("Juan Pérez".to_string()),
    };
    let result = almacen_service::create(&mut store, data);
    assert!(result.is_ok());
    assert_eq!(result.unwrap(), 1);
}

#[test]
fn test_get_all_almacenes() {
    let mut store = Inventory::new();
    let data1 = CreateAlmacen {
        nombre: "Almacén A".to_string(),
        ubicacion: Some("Ubicación A".to_string()),
        responsable: Some("Responsable A".to_string()),
    };
    let data2 = CreateAlmacen {
        nombre: "Almacén B".to_string(),
        ubicacion: Some("Ubicación B".to_string()),
        responsable: Some("Responsable B".to_string()),
    };
    almacen_service::create(&mut store, data1).unwrap();
    almacen_service::create(&mut store, data2).unwrap();

    let result = almacen_service::get_all(&store);
    assert!(result.is_ok());
    let almacenes = result.unwrap();
    assert_eq!(almacenes.len(), 2);
    assert_eq!(almacenes[0].nombre, "Almacén A");
    assert_eq!(almacenes[1].nombre, "Almacén B");
}

#[test]
fn test_get_almacen_by_id() {
    let mut store = Inventory::new();
    let data = CreateAlmacen {
        nombre: "Almacén Test".to_string(),
        ubicacion: Some("Test Location".to_string()),
        responsable: Some("Test Manager".to_string()),
    };
    let id = almacen_service::create(&mut store, data).unwrap();
    let result = almacen_service::get_by_id(&store, id as i32);
    assert!(result.is_ok());
    let almacen = result.unwrap();
    assert!(almacen.is_some());
    let almacen = almacen.unwrap();
    assert_eq!(almacen.nombre, "Almacén Test");
    assert_eq!(almacen.ubicacion, Some("Test Location".to_string()));
    assert_eq!(almacen.responsable, Some("Test Manager".to_string()));
}

#[test]
fn test_get_almacen_by_id_not_found() {
    let store = Inventory::new();
    let result = almacen_service::get_by_id(&store, 999);
    assert!(result.is_ok());
    assert!(result.unwrap().is_none());
}

#[test]
fn test_update_almacen() {
    let mut store = Inventory::new();
    let data = CreateAlmacen {
        nombre: "Almacén Original".to_string(),
        ubicacion: Some("Ubicación Original".to_string()),
        responsable: Some("Responsable Original".to_string()),
    };
    let id = almacen_service::create(&mut store, data).unwrap() as i32;

    let update_data = UpdateAlmacen {
        nombre: Some("Almacén Actualizado".to_string()),
        ubicacion: Some("Nueva Ubicación".to_string()),
        responsable: None,
    };
    let result = almacen_service::update(&mut store, id, update_data);
    assert!(result.is_ok());
    assert_eq!(result.unwrap(), 1);

    let almacen = almacen_service::get_by_id(&store, id).unwrap().unwrap();
    assert_eq!(almacen.nombre, "Almacén Actualizado");
    assert_eq!(almacen.ubicacion, Some("Nueva Ubicación".to_string()));
    assert_eq!(almacen.responsable, Some("Responsable Original".to_string()));
}

#[test]
fn test_update_almacen_partial() {
    let mut store = Inventory::new();
    let data = CreateAlmacen {
        nombre: "Almacén Test".to_string(),
        ubicacion: Some("Ubicación Test".to_string()),
        responsable: Some("Manager Test".to_string()),
    };
    let id = almacen_service::create(&mut store, data).unwrap() as i32;

    let update_data = UpdateAlmacen { nombre: Some("Nuevo Nombre".to_string()), ubicacion: None, responsable: None };
    almacen_service::update(&mut store, id, update_data).unwrap();

    let almacen = almacen_service::get_by_id(&store, id).unwrap().unwrap();
    assert_eq!(almacen.nombre, "Nuevo Nombre");
    assert_eq!(almacen.ubicacion, Some("Ubicación Test".to_string()));
    assert_eq!(almacen.responsable, Some("Manager Test".to_string()));
}

#[test]
fn test_delete_almacen() {
    let mut store = Inventory::new();
    let data = CreateAlmacen { nombre: "Almacén a Eliminar".to_string(), ubicacion: None, responsable: None };
    let id = almacen_service::create(&mut store, data).unwrap() as i32;

    let almacen = almacen_service::get_by_id(&store, id).unwrap();
    assert!(almacen.is_some());

    let result = almacen_service::delete(&mut store, id);
    assert!(result.is_ok());
    assert_eq!(result.unwrap(), 1);

    let almacen = almacen_service::get_by_id(&store, id).unwrap();
    assert!(almacen.is_none());
}

#[test]
fn test_delete_almacen_not_found() {
    let mut store = Inventory::new();
    let result = almacen_service::delete(&mut store, 999);
    assert!(result.is_ok());
    assert_eq!(result.unwrap(), 0);
}

#[test]
fn test_create_factura() {
    let mut store = store_with_supplier();
    let data = FacturaInput {
        numero: "F-001".to_string(),
        fecha: "2025-01-15".to_string(),
        id_proveedor: 1,
        total: Some(Amount::from_thousandths(1_500_500)),
        estado: Some("Pendiente".to_string()),
    };
    let result = factura_service::create_factura(&mut store, data);
    assert!(result.is_ok());
    assert_eq!(result.unwrap(), 1);
}

#[test]
fn test_create_factura_minimal() {
    let mut store = store_with_supplier();
    let data = FacturaInput {
        numero: "F-002".to_string(),
        fecha: "2025-01-16".to_string(),
        id_proveedor: 1,
        total: None,
        estado: None,
    };
    let result = factura_service::create_factura(&mut store, data);
    assert!(result.is_ok());
}

#[test]
fn test_update_factura() {
    let mut store = store_with_supplier();
    let data = FacturaInput {
        numero: "F-003".to_string(),
        fecha: "2025-01-17".to_string(),
        id_proveedor: 1,
        total: Some(Amount::from_units(1000)),
        estado: Some("Pendiente".to_string()),
    };
    let id = factura_service::create_factura(&mut store, data).unwrap() as i32;

    let update_data = FacturaUpdate {
        numero: Some("F-003-MOD".to_string()),
        fecha: None,
        id_proveedor: None,
        total: Some(Amount::from_units(1200)),
        estado: Some("Pagada".to_string()),
    };
    let result = factura_service::update_factura(&mut store, id, update_data);
    assert!(result.is_ok());
    assert_eq!(result.unwrap(), 1);

    let factura = factura_service::get_by_id(&store, id).unwrap().unwrap();
    assert_eq!(factura.numero, "F-003-MOD");
    assert_eq!(factura.fecha, "2025-01-17");
    assert_eq!(factura.total, Some(Amount::from_units(1200)));
    assert_eq!(factura.estado, Some("Pagada".to_string()));
}

#[test]
fn test_update_factura_partial() {
    let mut store = store_with_supplier();
    let data = FacturaInput {
        numero: "F-004".to_string(),
        fecha: "2025-01-18".to_string(),
        id_proveedor: 1,
        total: Some(Amount::from_units(500)),
        estado: Some("Pendiente".to_string()),
    };
    let id = factura_service::create_factura(&mut store, data).unwrap() as i32;

    let update_data = FacturaUpdate { estado: Some("Pagada".to_string()), ..Default::default() };
    factura_service::update_factura(&mut store, id, update_data).unwrap();

    let factura = factura_service::get_by_id(&store, id).unwrap().unwrap();
    assert_eq!(factura.numero, "F-004");
    assert_eq!(factura.total, Some(Amount::from_units(500)));
    assert_eq!(factura.estado, Some("Pagada".to_string()));
}

#[test]
fn test_update_factura_not_found() {
    let mut store = store_with_supplier();
    let update_data = FacturaUpdate { estado: Some("Pagada".to_string()), ..Default::default() };
    let result = factura_service::update_factura(&mut store, 999, update_data);
    assert!(result.is_ok());
    assert_eq!(result.unwrap(), 0);
}
