use inventario::acceso::{parsear_ruta, verificar_permiso, GuardianDeAcceso};
use inventario::error::AppError;
use inventario::permisos::{listar_permisos, puede_operar, Acciones, Entidad, Rol};
use inventario::peticiones::{extraer_nombre_insumo, DatosReceta, Ingrediente, ParametrosConsulta};
use inventario::respuestas::{
    consulta_de_busqueda, consulta_de_valor, respuesta_buscar_insumo, respuesta_crear_receta, respuesta_crear_usuario,
    respuesta_iniciar_sesion, respuesta_valor_de_usuario, Cuerpo, Estado, Respuesta,
};

fn mensaje(r: &Respuesta) -> String {
    match &r.cuerpo {
        Cuerpo::Mensaje(m) => m.mensaje.clone(),
        _ => panic!("la respuesta no es un mensaje"),
    }
}

#[test]
fn tabla_de_permisos() {
    let t = listar_permisos();
    assert_eq!(t.len(), 2);
    assert_eq!(t[0].0, Entidad::Receta);
    assert_eq!(t[1].0, Entidad::Insumo);
    assert_eq!(t[0].1[0], (Rol::Admin, vec![Acciones::Crear, Acciones::Editar, Acciones::Eliminar]));
    assert_eq!(t[1].1[1], (Rol::Usuario, vec![Acciones::Crear, Acciones::Editar]));
}

#[test]
fn quien_puede_operar() {
    for e in [Entidad::Receta, Entidad::Insumo] {
        for a in [Acciones::Crear, Acciones::Editar, Acciones::Eliminar] {
            assert!(puede_operar(e, Rol::Admin, a));
            assert_eq!(puede_operar(e, Rol::Usuario, a), a != Acciones::Eliminar);
            assert!(!puede_operar(e, Rol::Invitado, a));
        }
    }
    for r in [Rol::Admin, Rol::Usuario, Rol::Invitado] {
        for a in [Acciones::Crear, Acciones::Editar, Acciones::Eliminar] {
            assert!(!puede_operar(Entidad::Usuario, r, a));
        }
    }
}

#[test]
fn rutas() {
    assert_eq!(parsear_ruta("/receta/crear"), Ok((Entidad::Receta, Acciones::Crear)));
    assert_eq!(parsear_ruta("//insumo/editar"), Ok((Entidad::Insumo, Acciones::Editar)));
    assert_eq!(parsear_ruta("usuario/eliminar"), Ok((Entidad::Usuario, Acciones::Eliminar)));
    assert_eq!(parsear_ruta("/receta"), Err("Ruta inválida: se esperaba /entidad/accion".to_string()));
    assert_eq!(parsear_ruta("/receta/crear/"), Err("Ruta inválida: se esperaba /entidad/accion".to_string()));
    assert_eq!(parsear_ruta("/cafe/crear"), Err("Entidad desconocida: cafe".to_string()));
    assert_eq!(parsear_ruta("/receta/ver"), Err("Acción desconocida: ver".to_string()));
}

#[test]
fn rutas_del_servidor() {
    assert_eq!(parsear_ruta("/insumos/crear"), Ok((Entidad::Insumo, Acciones::Crear)));
    assert_eq!(parsear_ruta("/recetas/crear"), Ok((Entidad::Receta, Acciones::Crear)));
    assert_eq!(parsear_ruta("/usuarios/crear"), Ok((Entidad::Usuario, Acciones::Crear)));
    assert_eq!(parsear_ruta("/insumos/harina"), Err("Acción desconocida: harina".to_string()));
    assert_eq!(parsear_ruta("/insumos/"), Err("Acción desconocida: ".to_string()));
    assert_eq!(parsear_ruta("/insumos/editar/harina"), Err("Ruta inválida: se esperaba /entidad/accion".to_string()));
    assert_eq!(verificar_permiso("/insumos/crear", "anus1234"), Ok(()));
    assert_eq!(
        verificar_permiso("/insumos/harina", "anad1234"),
        Err("Acción desconocida: harina".to_string())
    );
}

#[test]
fn permisos_por_token() {
    assert_eq!(verificar_permiso("/receta/crear", "anad1234"), Ok(()));
    assert_eq!(verificar_permiso("/insumo/editar", "anus1234"), Ok(()));
    assert_eq!(
        verificar_permiso("/receta/eliminar", "anus1234"),
        Err("El rol Usuario no tiene permiso para realizar Eliminar sobre Receta".to_string())
    );
    assert_eq!(
        verificar_permiso("/usuario/crear", "anad1234"),
        Err("El rol Admin no tiene permiso para realizar Crear sobre Usuario".to_string())
    );
    assert_eq!(
        verificar_permiso("/receta/crear", "malo"),
        Err("Acceso denegado: Token inválido: longitud incorrecta".to_string())
    );
    assert_eq!(
        verificar_permiso("/receta/crear", "anzz1234"),
        Err("Acceso denegado: Rol desconocido en el token".to_string())
    );
    assert_eq!(verificar_permiso("/nada", "x"), Err("Ruta inválida: se esperaba /entidad/accion".to_string()));
}

#[test]
fn guardia_envuelve_el_servicio() {
    let g = GuardianDeAcceso.nuevo_transformador(7u32);
    assert_eq!(g.servicio, 7);
}

#[test]
fn nombre_de_insumo_pedido() {
    let q = ParametrosConsulta { consulta: Some("harina".to_string()) };
    assert_eq!(extraer_nombre_insumo(Some("sal".to_string()), Some(q)), Some("harina".to_string()));
    let q = ParametrosConsulta { consulta: None };
    assert_eq!(extraer_nombre_insumo(Some("sal".to_string()), Some(q)), None);
    assert_eq!(extraer_nombre_insumo(Some("sal".to_string()), None), Some("sal".to_string()));
    assert_eq!(extraer_nombre_insumo(None, None), None);
}

#[test]
fn receta_pedida_como_tupla() {
    let d = DatosReceta {
        nombre: "pan".to_string(),
        ingredientes: vec![
            Ingrediente { nombre: "harina".to_string(), cantidad: 300 },
            Ingrediente { nombre: "sal".to_string(), cantidad: 5 },
        ],
    };
    let (n, v) = d.como_tupla();
    assert_eq!(n, "pan");
    assert_eq!(v, vec![("harina".to_string(), 300), ("sal".to_string(), 5)]);
}

#[test]
fn respuestas_del_servidor() {
    let r = respuesta_crear_usuario("ana", Ok("x".to_string()));
    assert_eq!(r.estado, Estado::Exito);
    assert_eq!(mensaje(&r), "usuario: ana, creado exitosamente");
    let r = respuesta_crear_usuario("ana", Err(AppError::ErrorPersonal("falla".to_string())));
    assert_eq!(r.estado, Estado::ErrorInterno);
    assert_eq!(mensaje(&r), "Error al crear usuario: Error Personal: falla");
    let r = respuesta_iniciar_sesion(Err(AppError::DatoInvalido("no".to_string())));
    assert_eq!(r.estado, Estado::SolicitudIncorrecta);
    assert_eq!(mensaje(&r), "Error de validacion, Dato Invalido: no");
    let r = respuesta_iniciar_sesion(Ok("anad1234".to_string()));
    assert!(matches!(r.cuerpo, Cuerpo::Texto(ref t) if t == "anad1234"));
    let r = respuesta_valor_de_usuario("luz", Err(AppError::DatoInvalido("no".to_string())));
    assert_eq!(r.estado, Estado::NoEncontrado);
    assert_eq!(mensaje(&r), "No se encontro el usuario 'luz', \nError: 'Dato Invalido: no'");
    let r = respuesta_buscar_insumo("cacao", Ok(Vec::new()));
    assert_eq!(r.estado, Estado::NoEncontrado);
    assert_eq!(mensaje(&r), "El insumo de nombre: cacao\n No fue encontrado");
    let r = respuesta_buscar_insumo("cacao", Ok(vec!["cacao amargo".to_string()]));
    assert!(matches!(r.cuerpo, Cuerpo::Textos(ref v) if v.len() == 1));
    let r = respuesta_crear_receta(Ok("se ha creado la receta: pan".to_string()));
    assert_eq!(mensaje(&r), "se ha creado la receta: pan");
}

#[test]
fn parametros_de_consulta() {
    let r = consulta_de_busqueda(ParametrosConsulta { consulta: None }).err().unwrap();
    assert_eq!(r.estado, Estado::SolicitudIncorrecta);
    assert_eq!(mensaje(&r), "Falta el parametro de busqueda");
    let r = consulta_de_valor(ParametrosConsulta { consulta: None }).err().unwrap();
    assert_eq!(mensaje(&r), "Falta el parametro 'consulta' ");
    let n = consulta_de_valor(ParametrosConsulta { consulta: Some("sal".to_string()) }).ok().unwrap();
    assert_eq!(n, "sal");
}
