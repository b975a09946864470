use inventario::comandos;
use inventario::error::AppError;
use inventario::negocio::Insumo;
use inventario::repositorio::AlmacenEnMemoria;
use inventario::servicio::ServicioDeAlmacen;

fn texto(e: &AppError) -> String {
    e.mensaje()
}

fn almacen_con(insumos: &[(&str, u32, u32, u32)]) -> ServicioDeAlmacen {
    let mut almacen = ServicioDeAlmacen::nuevo(AlmacenEnMemoria::nuevo());
    for (nombre, cantidad, minima, precio) in insumos {
        almacen.anadir(nombre.to_string(), *cantidad, *minima, *precio).unwrap();
    }
    almacen
}

#[test]
fn insumo_nuevo_rechaza_datos_nulos() {
    let e = Insumo::nuevo(String::new(), 1, 1, 1).unwrap_err();
    assert_eq!(texto(&e), "Dato Invalido: el nombre no puede estar vacio");
    let e = Insumo::nuevo("harina".to_string(), 0, 1, 1).unwrap_err();
    assert_eq!(texto(&e), "Dato Invalido: La cantidad no puede ser 0.");
    let e = Insumo::nuevo("harina".to_string(), 1, 0, 1).unwrap_err();
    assert_eq!(texto(&e), "Dato Invalido: el precio no debe ser 0.");
    let e = Insumo::nuevo("harina".to_string(), 1, 1, 0).unwrap_err();
    assert_eq!(texto(&e), "Dato Invalido:  la cantidad_minima no deberia ser 0");
}

#[test]
fn insumo_nuevo_tiene_identificador_uuid() {
    let i = Insumo::nuevo("harina".to_string(), 1000, 25, 200).unwrap();
    let id = i.obtener_id();
    assert_eq!(id.len(), 36);
    assert!(id.chars().all(|c| c == '-' || c.is_ascii_digit() || ('a'..='f').contains(&c)));
    assert_eq!(i.nombre(), "harina");
    assert_eq!(i.obtener_cantidad(), 1000);
    assert_eq!(i.obtener_precio(), 25);
    assert_eq!(i.obtener_cantidad_minima(), 200);
    let otro = Insumo::nuevo("harina".to_string(), 1000, 25, 200).unwrap();
    assert_ne!(otro.obtener_id(), id);
}

#[test]
fn insumo_usar_exige_que_quede_algo() {
    let mut i = Insumo::crear_desde_db("x".to_string(), "azucar".to_string(), 100, 10, 5).unwrap();
    assert!(i.usar(40).is_ok());
    assert_eq!(i.obtener_cantidad(), 60);
    let e = i.usar(60).unwrap_err();
    assert_eq!(texto(&e), "Error Personal: No hay suficientes gramos para usar");
    assert_eq!(i.obtener_cantidad(), 60);
    assert!(i.usar(59).is_ok());
    assert_eq!(i.obtener_cantidad(), 1);
}

#[test]
fn insumo_alerta_y_costos() {
    let i = Insumo::crear_desde_db("x".to_string(), "sal".to_string(), 10, 10, 7).unwrap();
    assert!(i.alerta_cantidad_minima());
    let j = Insumo::crear_desde_db("y".to_string(), "sal".to_string(), 11, 10, 7).unwrap();
    assert!(!j.alerta_cantidad_minima());
    assert_eq!(j.obtener_costo_por_gramo(), 7);
    assert_eq!(j.costo_por_gramos(250), 1750);
    assert_eq!(j.costo_por_gramos(u32::MAX), 7 * u32::MAX as u64);
}

#[test]
fn insumo_actualizaciones() {
    let mut i = Insumo::crear_desde_db("x".to_string(), "sal".to_string(), 10, 10, 7).unwrap();
    assert_eq!(texto(&i.actualizar_nombre(String::new()).unwrap_err()), "Dato Invalido: El nuevo nombre esta vacio");
    assert_eq!(texto(&i.actualizar_cantidad(0).unwrap_err()), "Dato Invalido: La cantidad a añadir es 0.");
    assert_eq!(texto(&i.actualizar_cantidad_minima(0).unwrap_err()), "Dato Invalido: La cantidad minima no puede ser 0.");
    assert_eq!(texto(&i.actualizar_precio(0).unwrap_err()), "Dato Invalido: El precio no puede ser 0.");
    i.actualizar_nombre("sal fina".to_string()).unwrap();
    i.actualizar_cantidad(3).unwrap();
    i.actualizar_cantidad_minima(2).unwrap();
    i.actualizar_precio(9).unwrap();
    assert_eq!(i.nombre(), "sal fina");
    assert_eq!((i.obtener_cantidad(), i.obtener_cantidad_minima(), i.obtener_precio()), (3, 2, 9));
}

#[test]
fn almacen_lista_en_orden_de_nombre() {
    let almacen = almacen_con(&[("harina", 1, 1, 1), ("azucar", 1, 1, 1), ("Zanahoria", 1, 1, 1), ("cafe", 1, 1, 1)]);
    assert_eq!(almacen.mostrar_todos().unwrap(), vec!["Zanahoria", "azucar", "cafe", "harina"]);
    assert_eq!(comandos::ver_todos_los_insumos(&almacen), vec!["Zanahoria", "azucar", "cafe", "harina"]);
}

#[test]
fn almacen_alta_y_consulta() {
    let mut almacen = almacen_con(&[]);
    almacen.anadir("leche".to_string(), 2000, 500, 30).unwrap();
    assert!(almacen.existe(&"leche".to_string()).is_ok());
    let (id, nombre, cantidad, minima, precio) = almacen.mostrar_insumo(&"leche".to_string()).unwrap();
    assert_eq!((nombre.as_str(), cantidad, minima, precio), ("leche", 2000, 500, 30));
    assert_eq!(almacen.obtener_id_con_nombre(&"leche".to_string()).unwrap(), id);
    assert_eq!(almacen.obtener_nombre_con_id(&id).unwrap(), "leche");
}

#[test]
fn almacen_alta_rechaza() {
    let mut almacen = almacen_con(&[("leche", 1, 1, 1)]);
    let e = almacen.anadir(String::new(), 1, 1, 1).unwrap_err();
    assert_eq!(texto(&e), "Dato Invalido: El nombre esta vacio");
    let e = almacen.anadir("leche".to_string(), 1, 1, 1).unwrap_err();
    assert_eq!(texto(&e), "Dato Invalido: El insumo: leche, ya existe.");
    let e = almacen.anadir("cacao".to_string(), 0, 1, 1).unwrap_err();
    assert_eq!(texto(&e), "Dato Invalido: La cantidad no puede ser 0.");
    let e = almacen.anadir("cacao".to_string(), 1, 0, 1).unwrap_err();
    assert_eq!(texto(&e), "Dato Invalido:  la cantidad_minima no deberia ser 0");
    let e = almacen.anadir("cacao".to_string(), 1, 1, 0).unwrap_err();
    assert_eq!(texto(&e), "Dato Invalido: el precio no debe ser 0.");
    assert_eq!(almacen.mostrar_todos().unwrap(), vec!["leche"]);
}

#[test]
fn almacen_reinsertar_respeta_claves_unicas() {
    let mut almacen = almacen_con(&[]);
    almacen.reinsertar("id-1".to_string(), "miel".to_string(), 5, 1, 2).unwrap();
    let e = almacen.reinsertar("id-1".to_string(), "jalea".to_string(), 5, 1, 2).unwrap_err();
    assert_eq!(texto(&e), "Error de Base de datos: UNIQUE constraint failed: insumos.id");
    let e = almacen.reinsertar("id-2".to_string(), "miel".to_string(), 5, 1, 2).unwrap_err();
    assert_eq!(texto(&e), "Error de Base de datos: UNIQUE constraint failed: insumos.nombre");
    assert_eq!(almacen.obtener_nombre_con_id(&"id-1".to_string()).unwrap(), "miel");
}

#[test]
fn almacen_buscar_por_contenido_y_parecido() {
    let almacen = almacen_con(&[("harina integral", 1, 1, 1), ("harina", 1, 1, 1), ("azucar", 1, 1, 1)]);
    assert_eq!(almacen.buscar(&"harina".to_string()).unwrap(), vec!["harina", "harina integral"]);
    assert_eq!(almacen.buscar(&"azucr".to_string()).unwrap(), vec!["azucar"]);
    assert_eq!(comandos::buscar_insumo(&almacen, &"integral".to_string()), vec!["harina integral"]);
    let vacio = almacen_con(&[]);
    assert!(vacio.buscar(&"algo".to_string()).unwrap().is_empty());
}

#[test]
fn almacen_buscar_empate_da_el_primero() {
    let almacen = almacen_con(&[("bb", 1, 1, 1), ("aa", 1, 1, 1)]);
    assert_eq!(almacen.buscar(&"cc".to_string()).unwrap(), vec!["aa"]);
}

#[test]
fn almacen_eliminar() {
    let mut almacen = almacen_con(&[("leche", 1, 1, 1), ("miel", 1, 1, 1)]);
    almacen.eliminar(&"leche".to_string()).unwrap();
    assert_eq!(almacen.mostrar_todos().unwrap(), vec!["miel"]);
    let e = almacen.eliminar(&"leche".to_string()).unwrap_err();
    assert_eq!(texto(&e), "Dato Invalido: El insumo: leche, no existe en el almacen.");
    assert!(almacen.existe(&"leche".to_string()).is_err());
}

#[test]
fn almacen_editar_insumo() {
    let mut almacen = almacen_con(&[("leche", 10, 2, 3), ("miel", 1, 1, 1)]);
    let e = almacen.editar_insumo(&"cafe".to_string(), None, None, None, None).unwrap_err();
    assert_eq!(texto(&e), "Dato Invalido: El insumo: cafe, no existe en el almacen.");
    let e = almacen.editar_insumo(&"leche".to_string(), Some(String::new()), None, None, None).unwrap_err();
    assert_eq!(texto(&e), "Dato Invalido: El nuevo nombre esta vacio.");
    let e = almacen.editar_insumo(&"leche".to_string(), Some("miel".to_string()), None, None, None).unwrap_err();
    assert_eq!(texto(&e), "Dato Invalido: Ya existe el insumo: miel");
    let e = almacen.editar_insumo(&"leche".to_string(), None, Some(0), None, None).unwrap_err();
    assert_eq!(texto(&e), "Dato Invalido: La cantidad a añadir es 0.");
    let e = almacen.editar_insumo(&"leche".to_string(), None, None, Some(0), None).unwrap_err();
    assert_eq!(texto(&e), "Dato Invalido: La cantidad minima no puede ser 0.");
    let e = almacen.editar_insumo(&"leche".to_string(), None, None, None, Some(0)).unwrap_err();
    assert_eq!(texto(&e), "Dato Invalido: El precio no puede ser 0.");
    almacen.editar_insumo(&"leche".to_string(), Some("agua".to_string()), Some(7), None, Some(4)).unwrap();
    assert_eq!(almacen.mostrar_todos().unwrap(), vec!["agua", "miel"]);
    let (_, nombre, cantidad, minima, precio) = almacen.mostrar_insumo(&"agua".to_string()).unwrap();
    assert_eq!((nombre.as_str(), cantidad, minima, precio), ("agua", 7, 2, 4));
    almacen.editar_insumo(&"agua".to_string(), Some("agua".to_string()), None, None, None).unwrap();
}

#[test]
fn almacen_usar_fija_la_cantidad() {
    let mut almacen = almacen_con(&[("leche", 10, 2, 3)]);
    assert_eq!(almacen.usar(&"leche".to_string(), 4).unwrap(), 10);
    assert_eq!(almacen.mostrar_insumo(&"leche".to_string()).unwrap().2, 4);
    let e = almacen.usar(&"te".to_string(), 4).unwrap_err();
    assert_eq!(texto(&e), "Dato Invalido: El insumo: te, no existe en el almacen.");
}

#[test]
fn comandos_de_insumos() {
    let mut almacen = almacen_con(&[]);
    let m = comandos::crear_insumo(("cafe".to_string(), 1000, 100, 50), &mut almacen).unwrap();
    assert_eq!(m, "se ha creado el insumo: cafe");
    let e = comandos::crear_insumo(("cafe".to_string(), 1000, 100, 50), &mut almacen).unwrap_err();
    assert_eq!(texto(&e), "Error Personal: Error al crear el insumo: cafe, error: Dato Invalido: El insumo: cafe, ya existe.");
    let e = comandos::editar_insumo(&mut almacen, &"te".to_string(), None, None, None, None).unwrap_err();
    assert_eq!(texto(&e), "Error Personal: Error: Dato Invalido: El insumo: te, no existe en el almacen.. \nAl editar el insumo: te");
    let v = comandos::valor_de_insumo(&"cafe".to_string(), &almacen).unwrap();
    assert_eq!((v.1.as_str(), v.2, v.3, v.4), ("cafe", 1000, 100, 50));
    comandos::eliminar_insumo(&mut almacen, &"cafe".to_string()).unwrap();
    let e = comandos::eliminar_insumo(&mut almacen, &"cafe".to_string()).unwrap_err();
    assert_eq!(texto(&e), "Dato Invalido: El insumo: cafe, no existe en el almacen.");
}

#[test]
fn mensajes_de_error() {
    assert_eq!(AppError::CampoVacio("x".to_string()).mensaje(), "Campo Vacio: x");
    assert_eq!(AppError::IoError("x".to_string()).mensaje(), "Error de I/O: x ");
    assert_eq!(AppError::ActixError("x".to_string()).mensaje(), "Error de Actix_web: x");
    assert_eq!(AppError::DbError("x".to_string()).mensaje(), "Error de Base de datos: x");
}

#[test]
fn almacen_alta_y_baja_deja_todo_igual() {
    let mut almacen = almacen_con(&[("miel", 5, 1, 2), ("te", 9, 1, 3)]);
    let antes: Vec<(String, String, u32, u32, u32)> = almacen
        .obtener_todos()
        .iter()
        .map(|i| (i.obtener_id(), i.nombre().clone(), i.obtener_cantidad(), i.obtener_cantidad_minima(), i.obtener_precio()))
        .collect();
    almacen.anadir("nuez".to_string(), 1, 1, 1).unwrap();
    almacen.eliminar(&"nuez".to_string()).unwrap();
    let despues: Vec<(String, String, u32, u32, u32)> = almacen
        .obtener_todos()
        .iter()
        .map(|i| (i.obtener_id(), i.nombre().clone(), i.obtener_cantidad(), i.obtener_cantidad_minima(), i.obtener_precio()))
        .collect();
    assert_eq!(antes, despues);
}
