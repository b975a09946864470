use inventario::error::AppError;
use inventario::negocio::Proveedor;
use inventario::proveedores::{ProveedoresDB, ServicioDeProveedores};

fn texto(e: &AppError) -> String {
    e.mensaje()
}

fn servicio() -> ServicioDeProveedores {
    let mut s = ServicioDeProveedores::nuevo(ProveedoresDB::nuevo());
    s.reinsertar("p1".to_string(), "Lacteos Sur".to_string(), "555".to_string(), "leche".to_string()).unwrap();
    s.reinsertar("p2".to_string(), "Harinas".to_string(), "556".to_string(), "harina".to_string()).unwrap();
    s
}

#[test]
fn proveedor_nuevo() {
    let p = Proveedor::nuevo("Marca".to_string(), "123".to_string(), "cafe".to_string()).unwrap();
    assert_eq!((p.obtener_marca().as_str(), p.obtener_numero().as_str(), p.obtener_producto().as_str()), ("Marca", "123", "cafe"));
    assert_eq!(p.obtener_id().len(), 36);
    let e = Proveedor::nuevo("Marca".to_string(), String::new(), "cafe".to_string()).unwrap_err();
    assert_eq!(texto(&e), "Dato Invalido: El nombre de la marca esta vacio.");
    let q = Proveedor::crear_desde_db("i".to_string(), "m".to_string(), "n".to_string(), "p".to_string());
    assert_eq!(q.obtener_id(), "i");
}

#[test]
fn proveedores_listar_y_buscar() {
    let s = servicio();
    assert_eq!(s.listar().unwrap(), vec!["Harinas", "Lacteos Sur"]);
    assert_eq!(s.existe("Harinas").unwrap(), true);
    assert_eq!(s.existe("Otra").unwrap(), false);
    assert_eq!(s.buscar(&"Sur".to_string()).unwrap(), vec!["Lacteos Sur"]);
    assert_eq!(s.id_con_nombre("Harinas".to_string()).unwrap(), "p2");
    assert_eq!(s.nombre_con_id("p1".to_string()).unwrap(), "Lacteos Sur");
    let e = s.id_con_nombre("Otra".to_string()).unwrap_err();
    assert_eq!(texto(&e), "Dato Invalido: En obtener id: No se encontro el provedor : Otra");
    let vacio = ServicioDeProveedores::nuevo(ProveedoresDB::nuevo());
    let e = vacio.buscar(&"x".to_string()).unwrap_err();
    assert_eq!(texto(&e), "Dato Invalido: No se encontro el proveedor: x");
}

#[test]
fn proveedores_comprobaciones_invertidas() {
    let mut s = servicio();
    let e = s.agregar("Nueva".to_string(), "1".to_string(), "te".to_string()).unwrap_err();
    assert_eq!(texto(&e), "Dato Invalido: El proveedor: Nueva, ya existe");
    let e = s.eliminar("Harinas").unwrap_err();
    assert_eq!(texto(&e), "Dato Invalido: No existe el proveedor: Harinas");
    let e = s.eliminar("Otra").unwrap_err();
    assert_eq!(texto(&e), "Dato Invalido: En obtener id: No se encontro el provedor : Otra");
    let e = s.obtener("Harinas").unwrap_err();
    assert_eq!(texto(&e), "Dato Invalido: El proveedor: Harinas, no existe");
    let e = s.obtener("Otra").unwrap_err();
    assert_eq!(texto(&e), "Dato Invalido: En obtener id: No se encontro el provedor : Otra");
    assert_eq!(s.filas().len(), 2);
}

#[test]
fn tabla_de_proveedores() {
    let mut db = ProveedoresDB::nuevo();
    db.crear(Proveedor::crear_desde_db("p1".to_string(), "A".to_string(), "1".to_string(), "x".to_string())).unwrap();
    db.crear(Proveedor::crear_desde_db("p1".to_string(), "B".to_string(), "2".to_string(), "y".to_string())).unwrap();
    let p = db.obtener("B").unwrap();
    assert_eq!(p.obtener_marca(), "A");
    db.eliminar("B").unwrap();
    assert!(db.listar().unwrap().is_empty());
    let e = db.nombre_con_id("p1").unwrap_err();
    assert_eq!(texto(&e), "Dato Invalido: No se encontro el insumo con id: p1");
}

#[test]
fn editar_filas_de_proveedores() {
    let mut db = ProveedoresDB::nuevo();
    db.crear(Proveedor::crear_desde_db("p1".to_string(), "A".to_string(), "1".to_string(), "x".to_string())).unwrap();
    db.editar(Proveedor::crear_desde_db("p1".to_string(), "B".to_string(), "2".to_string(), "y".to_string())).unwrap();
    let filas = db.filas();
    assert_eq!(filas, vec![("p1".to_string(), "B".to_string(), "2".to_string(), "y".to_string())]);
    let e = db.editar(Proveedor::crear_desde_db("p9".to_string(), "C".to_string(), "3".to_string(), "z".to_string())).unwrap_err();
    assert_eq!(texto(&e), "Error Personal: No se guardaron los cambios en: C");
}
