use inventario::comandos;
use inventario::error::AppError;
use inventario::recetario::RecetarioEnMemoria;
use inventario::repositorio::AlmacenEnMemoria;
use inventario::servicio::ServicioDeAlmacen;
use inventario::servicio_recetas::ServicioDeRecetas;

fn texto(e: &AppError) -> String {
    e.mensaje()
}

fn ingr(v: &[(&str, u32)]) -> Vec<(String, u32)> {
    v.iter().map(|(n, c)| (n.to_string(), *c)).collect()
}

fn preparar() -> (ServicioDeAlmacen, ServicioDeRecetas) {
    let mut almacen = ServicioDeAlmacen::nuevo(AlmacenEnMemoria::nuevo());
    almacen.anadir("harina".to_string(), 1000, 100, 20).unwrap();
    almacen.anadir("azucar".to_string(), 500, 50, 30).unwrap();
    almacen.anadir("leche".to_string(), 2000, 200, 10).unwrap();
    let mut libro = ServicioDeRecetas::nuevo(RecetarioEnMemoria::nuevo());
    libro.anadir("pan".to_string(), ingr(&[("harina", 300), ("azucar", 50)]), &almacen).unwrap();
    (almacen, libro)
}

fn cantidad(almacen: &ServicioDeAlmacen, nombre: &str) -> u32 {
    almacen.mostrar_insumo(&nombre.to_string()).unwrap().2
}

#[test]
fn receta_costo_es_suma_de_precio_por_gramos() {
    let (almacen, libro) = preparar();
    let (nombre, ingredientes, costo) = libro.mostrar_receta(&"pan".to_string(), &almacen).unwrap();
    assert_eq!(nombre, "pan");
    assert_eq!(ingredientes, ingr(&[("harina", 300), ("azucar", 50)]));
    assert_eq!(costo, 7500);
    let r = libro.obtener("pan").unwrap();
    assert_eq!(r.costo(), 7500);
    assert_eq!(r.ingredientes().len(), 2);
    assert_eq!(r.ingredientes()[0].0, almacen.obtener_id_con_nombre(&"harina".to_string()).unwrap());
}

#[test]
fn receta_alta_rechaza() {
    let (almacen, mut libro) = preparar();
    let e = libro.anadir("pan".to_string(), ingr(&[("harina", 1)]), &almacen).unwrap_err();
    assert_eq!(texto(&e), "Dato Invalido: La receta: pan, ya existe.");
    let e = libro.anadir("torta".to_string(), ingr(&[("harina", 1), ("", 1)]), &almacen).unwrap_err();
    assert_eq!(texto(&e), "Dato Invalido: el nombre del ingrediente esta vacio");
    let e = libro.anadir("torta".to_string(), ingr(&[("harina", 0)]), &almacen).unwrap_err();
    assert_eq!(texto(&e), "Dato Invalido: las cantidades no pueden ser menores a 0");
    let e = libro.anadir("torta".to_string(), ingr(&[("cacao", 1), ("", 0)]), &almacen).unwrap_err();
    assert_eq!(texto(&e), "Dato Invalido: El insumo: cacao, no existe en el almacen.");
    let e = libro.anadir(String::new(), ingr(&[("harina", 1)]), &almacen).unwrap_err();
    assert_eq!(texto(&e), "Dato Invalido: el nombre no deberia estar vacio");
    let e = libro.anadir("torta".to_string(), Vec::new(), &almacen).unwrap_err();
    assert_eq!(texto(&e), "Dato Invalido: el ingrediente: '{}' no existe");
    assert_eq!(libro.mostrar_todos().unwrap(), vec!["pan"]);
}

#[test]
fn receta_con_ingrediente_repetido_no_se_guarda() {
    let (almacen, mut libro) = preparar();
    assert!(libro.anadir("doble".to_string(), ingr(&[("harina", 1), ("harina", 2)]), &almacen).is_ok());
    assert!(libro.existe("doble").is_err());
    assert_eq!(libro.filas_ingredientes().len(), 2);
}

#[test]
fn receta_editar_nombre_con_un_ingrediente() {
    let (almacen, mut libro) = preparar();
    libro.anadir("te con leche".to_string(), ingr(&[("leche", 250)]), &almacen).unwrap();
    libro.editar_receta(&almacen, &"te con leche".to_string(), Some("cafe con leche".to_string()), None).unwrap();
    assert_eq!(libro.mostrar_todos().unwrap(), vec!["cafe con leche", "pan"]);
    let (_, ingredientes, costo) = libro.mostrar_receta(&"cafe con leche".to_string(), &almacen).unwrap();
    assert_eq!(ingredientes, ingr(&[("leche", 250)]));
    assert_eq!(costo, 2500);
}

#[test]
fn receta_editar_nombre_con_dos_ingredientes_no_cambia() {
    let (almacen, mut libro) = preparar();
    assert!(libro.editar_receta(&almacen, &"pan".to_string(), Some("pan dulce".to_string()), None).is_ok());
    assert_eq!(libro.mostrar_todos().unwrap(), vec!["pan"]);
}

#[test]
fn receta_editar_rechaza() {
    let (almacen, mut libro) = preparar();
    libro.anadir("te".to_string(), ingr(&[("leche", 250)]), &almacen).unwrap();
    let e = libro.editar_receta(&almacen, &"sopa".to_string(), None, None).unwrap_err();
    assert_eq!(texto(&e), "Dato Invalido: La receta: sopa\nNo existe en el libro.");
    let e = libro.editar_receta(&almacen, &"te".to_string(), Some(String::new()), None).unwrap_err();
    assert_eq!(texto(&e), "Dato Invalido: El nuevo nombre no puede estar vacio.");
    let e = libro.editar_receta(&almacen, &"te".to_string(), Some("pan".to_string()), None).unwrap_err();
    assert_eq!(texto(&e), "Dato Invalido: La receta: pan");
    let e = libro.editar_receta(&almacen, &"te".to_string(), None, Some(Vec::new())).unwrap_err();
    assert_eq!(texto(&e), "Dato Invalido: La nueva lista de ingredientes esta vacia.");
    let e = libro.editar_receta(&almacen, &"te".to_string(), None, Some(ingr(&[("cacao", 0)]))).unwrap_err();
    assert_eq!(texto(&e), "Dato Invalido: El insumo: cacao, no existe en el almacen.");
    let e = libro.editar_receta(&almacen, &"te".to_string(), None, Some(ingr(&[("harina", 0)]))).unwrap_err();
    assert_eq!(texto(&e), "Dato Invalido: En el ingrediente: harina.\nLa cantidad no puede ser 0");
    libro.editar_receta(&almacen, &"te".to_string(), None, Some(ingr(&[("harina", 5)]))).unwrap();
    let (_, ingredientes, _) = libro.mostrar_receta(&"te".to_string(), &almacen).unwrap();
    assert_eq!(ingredientes, ingr(&[("leche", 250)]));
}

#[test]
fn receta_producir_descuenta_insumos() {
    let (mut almacen, libro) = preparar();
    libro.producir_receta(&mut almacen, &"pan".to_string(), 2).unwrap();
    assert_eq!(cantidad(&almacen, "harina"), 400);
    assert_eq!(cantidad(&almacen, "azucar"), 400);
    libro.producir_receta(&mut almacen, &"pan".to_string(), 0).unwrap();
    assert_eq!(cantidad(&almacen, "harina"), 400);
}

#[test]
fn receta_producir_sin_suficiente_deja_lo_descontado() {
    let (mut almacen, libro) = preparar();
    libro.producir_receta(&mut almacen, &"pan".to_string(), 2).unwrap();
    let e = libro.producir_receta(&mut almacen, &"pan".to_string(), 2).unwrap_err();
    assert_eq!(texto(&e), "Error Personal: No hay suficientes gramos para usar");
    assert_eq!(cantidad(&almacen, "harina"), 100);
    assert_eq!(cantidad(&almacen, "azucar"), 350);
    let e = libro.producir_receta(&mut almacen, &"sopa".to_string(), 1).unwrap_err();
    assert_eq!(texto(&e), "Dato Invalido: La receta: sopa\nNo existe en el libro.");
}

#[test]
fn receta_con_insumo_borrado() {
    let (mut almacen, libro) = preparar();
    let id = almacen.obtener_id_con_nombre(&"azucar".to_string()).unwrap();
    almacen.eliminar(&"azucar".to_string()).unwrap();
    let e = libro.mostrar_receta(&"pan".to_string(), &almacen).unwrap_err();
    assert_eq!(texto(&e), format!("Dato Invalido: No se encontro el insumo con id: {}", id));
    let e = libro.producir_receta(&mut almacen, &"pan".to_string(), 1).unwrap_err();
    assert_eq!(texto(&e), format!("Dato Invalido: No se encontro el insumo con id: {}", id));
    assert_eq!(cantidad(&almacen, "harina"), 700);
}

#[test]
fn receta_eliminar_deja_filas_de_ingredientes() {
    let (_almacen, mut libro) = preparar();
    libro.eliminar("pan").unwrap();
    assert!(libro.existe("pan").is_err());
    assert!(libro.mostrar_todos().unwrap().is_empty());
    assert_eq!(libro.filas_ingredientes().len(), 2);
    let e = libro.eliminar("pan").unwrap_err();
    assert_eq!(texto(&e), "Dato Invalido: La receta: pan\nNo existe en el libro.");
}

#[test]
fn receta_insumo_en_recetas() {
    let (almacen, libro) = preparar();
    let id_harina = almacen.obtener_id_con_nombre(&"harina".to_string()).unwrap();
    let id_pan = libro.filas_recetas()[0].0.clone();
    assert_eq!(libro.insumo_en_recetas(&id_harina).unwrap(), vec![id_pan]);
    assert!(comandos::insumo_en_recetas(&libro, &almacen, &"harina".to_string()).unwrap().is_empty());
    let e = comandos::insumo_en_recetas(&libro, &almacen, &"cacao".to_string()).unwrap_err();
    assert_eq!(texto(&e), "Dato Invalido: El insumo: cacao, no existe en el almacen.");
}

#[test]
fn receta_buscar() {
    let (almacen, mut libro) = preparar();
    libro.anadir("panqueque".to_string(), ingr(&[("leche", 100)]), &almacen).unwrap();
    assert_eq!(libro.buscar("pan").unwrap(), vec!["pan", "panqueque"]);
    assert_eq!(libro.buscar("queque").unwrap(), vec!["panqueque"]);
    assert_eq!(libro.buscar("pam").unwrap(), vec!["pan"]);
    assert_eq!(comandos::buscar_receta(&libro, &"que".to_string()), vec!["panqueque"]);
}

#[test]
fn comandos_de_recetas() {
    let (mut almacen, mut libro) = preparar();
    let m = comandos::crear_receta(("te".to_string(), ingr(&[("leche", 1)])), &almacen, &mut libro).unwrap();
    assert_eq!(m, "se ha creado la receta: te");
    let e = comandos::crear_receta(("te".to_string(), ingr(&[("leche", 1)])), &almacen, &mut libro).unwrap_err();
    assert_eq!(texto(&e), "Error Personal: hubo un error al crear la receta: te, error: Dato Invalido: La receta: te, ya existe.");
    assert_eq!(comandos::ver_todos_las_recetas(&libro), vec!["pan", "te"]);
    let e = comandos::producir_recetas(&mut almacen, &libro, &"pan".to_string(), 4).unwrap_err();
    assert_eq!(texto(&e), "Error Personal: Error: Error Personal: No hay suficientes gramos para usar, al producir la receta: pan");
    let (n, _, c) = comandos::receta_valor(&"te".to_string(), &libro, &almacen).unwrap();
    assert_eq!((n.as_str(), c), ("te", 10));
    comandos::eliminar_receta(&mut libro, &"te".to_string()).unwrap();
    let e = comandos::editar_receta(&mut libro, &"te".to_string(), None, None, &almacen).unwrap_err();
    assert_eq!(texto(&e), "Dato Invalido: La receta: te\nNo existe en el libro.");
}

#[test]
fn recetario_tablas() {
    let mut r = RecetarioEnMemoria::nuevo();
    r.cargar_ingrediente("r1".to_string(), "i1".to_string(), 5).unwrap();
    let e = r.cargar_ingrediente("r1".to_string(), "i1".to_string(), 7).unwrap_err();
    assert_eq!(
        texto(&e),
        "Error de Base de datos: UNIQUE constraint failed: ingredientes_en_receta.receta_id, ingredientes_en_receta.ingrediente_id"
    );
    let receta = inventario::negocio::Receta::desde_db("r1".to_string(), "sopa".to_string(), Vec::new(), 42);
    r.anadir(receta).unwrap();
    let receta = r.obtener(&"sopa".to_string()).unwrap();
    assert_eq!(receta.ingredientes(), vec![("i1".to_string(), 5)]);
    assert_eq!(r.obtener_nombre_con_id(&"r1".to_string()).unwrap(), "sopa");
    let e = r.obtener_id_con_nombre(&"caldo".to_string()).unwrap_err();
    assert_eq!(texto(&e), "Dato Invalido: No se encontro el insumo: caldo");
}

#[test]
fn receta_alta_y_baja_deja_las_recetas_igual() {
    let (almacen, mut libro) = preparar();
    let antes = libro.filas_recetas();
    libro.anadir("te".to_string(), ingr(&[("leche", 3)]), &almacen).unwrap();
    assert_eq!(libro.filas_ingredientes().len(), 3);
    libro.eliminar("te").unwrap();
    assert_eq!(libro.filas_recetas(), antes);
    assert_eq!(libro.filas_ingredientes().len(), 3);
}
