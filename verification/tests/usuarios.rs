use inventario::comandos;
use inventario::error::AppError;
use inventario::permisos::Rol;
use inventario::usuario::{verificar_token, Usuario};
use inventario::usuarios::{ServicioDeUsuarios, UsuariosDb};

fn texto(e: &AppError) -> String {
    e.mensaje()
}

fn fila(id: &str, nombre: &str, hash: &str, rol: &str) -> Usuario {
    Usuario::crear_desde_db(id.to_string(), nombre.to_string(), hash.to_string(), rol.to_string())
}

fn servicio_con(filas: Vec<Usuario>) -> ServicioDeUsuarios {
    let mut db = UsuariosDb::nuevo();
    for f in filas {
        db.crear(f).unwrap();
    }
    ServicioDeUsuarios::nuevo(db)
}

#[test]
fn token_con_dos_primeros_caracteres() {
    let u = fila("abcd", "luis", "$2y$xx", "usuario");
    assert_eq!(u.generar_token(), "luusab$2");
    assert_eq!(verificar_token("luusab$2"), Ok(Rol::Usuario));
    let corto = fila("1", "x", "h", "a");
    assert_eq!(corto.generar_token(), "xa1h");
}

#[test]
fn token_verificacion() {
    assert_eq!(verificar_token("anad12$2"), Ok(Rol::Admin));
    assert_eq!(verificar_token("xxin1234"), Ok(Rol::Invitado));
    assert_eq!(verificar_token("abc"), Err("Token inválido: longitud incorrecta".to_string()));
    assert_eq!(verificar_token("abxx1234"), Err("Rol desconocido en el token".to_string()));
    assert_eq!(verificar_token(""), Err("Token inválido: longitud incorrecta".to_string()));
}

#[test]
fn usuario_nuevo_cifra_la_contrasena() {
    let u = Usuario::nuevo(&"ana".to_string(), "admin".to_string(), "clave").unwrap();
    assert_eq!(u.obtener_hash().len(), 60);
    assert!(u.obtener_hash().starts_with("$2b$12$"));
    assert_ne!(u.obtener_hash(), "clave");
    assert_eq!(u.obtener_id().len(), 36);
    let token = u.verificar_hash("clave").unwrap();
    assert_eq!(token, u.generar_token());
    assert!(token.starts_with("anad"));
}

#[test]
fn usuario_nuevo_rechaza_vacios() {
    let e = Usuario::nuevo(&String::new(), "admin".to_string(), "clave").err().unwrap();
    assert_eq!(texto(&e), "Dato Invalido: el nombre no puede estar vacio");
    let e = Usuario::nuevo(&"ana".to_string(), String::new(), "clave").err().unwrap();
    assert_eq!(texto(&e), "Dato Invalido: El rol esta vacio");
}

#[test]
fn hash_invalido_da_error_de_verificacion() {
    let u = fila("1234", "ana", "no-es-un-hash", "admin");
    let e = u.verificar_hash("clave").err().unwrap();
    assert!(texto(&e).starts_with("Dato Invalido: Error al verificar hash: "));
}

#[test]
fn alta_e_inicio_de_sesion() {
    let mut s = servicio_con(Vec::new());
    s.agregar("maria".to_string(), "secreta".to_string(), "admin".to_string()).unwrap();
    assert_eq!(s.existe("maria").unwrap(), true);
    assert!(s.filas()[0].2.starts_with("$2b$12$"));
    let token = s.verificar_usuario("secreta", "maria").unwrap();
    assert_eq!(token.len(), 8);
    assert!(token.starts_with("maad"));
    assert_eq!(verificar_token(&token), Ok(Rol::Admin));
}

#[test]
fn inicio_de_sesion_con_contrasena_incorrecta() {
    let mut s = servicio_con(Vec::new());
    s.agregar("maria".to_string(), "secreta".to_string(), "usuario".to_string()).unwrap();
    let e = s.verificar_usuario("otra", "maria").unwrap_err();
    assert_eq!(texto(&e), "Dato Invalido: Dato Invalido: Contraseña incorrecta.");
}

#[test]
fn inicio_de_sesion_de_usuario_inexistente() {
    let mut s = servicio_con(Vec::new());
    let e = s.verificar_usuario("x", "pepe").unwrap_err();
    assert_eq!(texto(&e), "Dato Invalido: En obtener id: No se encontro el usuario : pepe");
    let e = comandos::iniciar_sesion(&mut s, "pepe", "x").unwrap_err();
    assert_eq!(texto(&e), "Dato Invalido: Querid@: pepe, contra incorrecta, por favor vuelve a intentar.");
}

#[test]
fn alta_rechaza() {
    let mut s = servicio_con(vec![fila("1", "ana", "h", "admin")]);
    let e = s.agregar("ana".to_string(), "c".to_string(), "admin".to_string()).unwrap_err();
    assert_eq!(texto(&e), "Dato Invalido: El usuario: ana, ya existe");
    let e = s.agregar(String::new(), "c".to_string(), "admin".to_string()).unwrap_err();
    assert_eq!(texto(&e), "Dato Invalido: el nombre no puede estar vacio");
    let e = s.agregar("bea".to_string(), "c".to_string(), String::new()).unwrap_err();
    assert_eq!(texto(&e), "Dato Invalido: El rol esta vacio");
    assert_eq!(s.listar().unwrap(), vec!["ana"]);
}

#[test]
fn listar_y_buscar_usuarios() {
    let s = servicio_con(vec![
        fila("1", "pedro", "h", "usuario"),
        fila("2", "ana", "h", "admin"),
        fila("3", "Bruno", "h", "invitado"),
        fila("4", "ana", "h", "usuario"),
    ]);
    assert_eq!(s.listar().unwrap(), vec!["Bruno", "ana", "ana", "pedro"]);
    assert_eq!(s.buscar(&"an".to_string()).unwrap(), vec!["ana", "ana"]);
    assert_eq!(s.buscar(&"pedra".to_string()).unwrap(), vec!["pedro"]);
    assert_eq!(comandos::listar_usuarios(&s).unwrap(), vec!["Bruno", "ana", "ana", "pedro"]);
    let vacio = servicio_con(Vec::new());
    let e = vacio.buscar(&"x".to_string()).unwrap_err();
    assert_eq!(texto(&e), "Dato Invalido: No se encontro el usuario: x");
    let e = comandos::buscar_usuario(&vacio, &"x".to_string()).unwrap_err();
    assert_eq!(
        texto(&e),
        "Dato Invalido: No se encontro el usuario: x\nError: Dato Invalido: No se encontro el usuario: x"
    );
}

#[test]
fn consultar_usuarios() {
    let s = servicio_con(vec![fila("1", "ana", "h", "admin"), fila("2", "ana", "h2", "usuario")]);
    let (id, nombre, rol) = s.obtener("ana").unwrap();
    assert_eq!((id.as_str(), nombre.as_str(), rol.as_str()), ("1", "ana", "admin"));
    assert_eq!(s.id_con_nombre("ana".to_string()).unwrap(), "1");
    assert_eq!(s.nombre_con_id("2".to_string()).unwrap(), "ana");
    let e = s.nombre_con_id("9".to_string()).unwrap_err();
    assert_eq!(texto(&e), "Dato Invalido: No se encontro el usuario con id: 9");
    let e = s.obtener("luz").unwrap_err();
    assert_eq!(texto(&e), "Dato Invalido: El usuario: luz, no existe");
    let e = comandos::valor_de_usuario(&s, "luz").unwrap_err();
    assert_eq!(texto(&e), "Error Personal: Error al encontrar el usuario: luz, error: Dato Invalido: El usuario: luz, no existe");
    assert_eq!(comandos::valor_de_usuario(&s, "ana").unwrap().2, "admin");
}

#[test]
fn eliminar_borra_las_filas_del_identificador() {
    let mut s = servicio_con(vec![fila("1", "ana", "h", "admin"), fila("2", "luz", "h", "admin"), fila("1", "otra", "h", "admin")]);
    s.eliminar("ana").unwrap();
    assert_eq!(s.listar().unwrap(), vec!["luz"]);
    let e = s.eliminar("ana").unwrap_err();
    assert_eq!(texto(&e), "Dato Invalido: No existe el usuario: ana");
    let e = comandos::eliminar_usuario(&mut s, &"ana".to_string()).unwrap_err();
    assert_eq!(texto(&e), "Dato Invalido: No existe el usuario: ana");
}

#[test]
fn editar_filas_de_usuarios() {
    let mut db = UsuariosDb::nuevo();
    db.crear(fila("1", "ana", "h", "admin")).unwrap();
    db.editar(fila("1", "anabel", "h2", "usuario")).unwrap();
    let u = db.obtener("anabel").unwrap();
    assert_eq!((u.obtener_hash().as_str(), u.obtener_rol().as_str()), ("h2", "usuario"));
    let e = db.editar(fila("9", "nadie", "h", "admin")).unwrap_err();
    assert_eq!(texto(&e), "Error Personal: No se guardaron los cambios en: nadie");
    assert_eq!(db.filas().len(), 1);
}

#[test]
fn comando_crear_usuario() {
    let mut s = servicio_con(vec![fila("1", "ana", "h", "admin")]);
    let e = comandos::crear_usuario(("ana", "c", "admin"), &mut s).unwrap_err();
    assert_eq!(texto(&e), "Error Personal: Error al crear el usuario: ana\n Error Dato Invalido: El usuario: ana, ya existe");
    let m = comandos::crear_usuario(("bea", "c", "usuario"), &mut s).unwrap();
    assert_eq!(m, "Se ha creado el usuario: bea");
    assert_eq!(s.listar().unwrap(), vec!["ana", "bea"]);
}

#[test]
fn alta_y_baja_de_usuario_deja_la_tabla_igual() {
    let mut s = servicio_con(vec![fila("1", "ana", "h", "admin")]);
    let antes = s.filas();
    s.agregar("bea".to_string(), "c".to_string(), "usuario".to_string()).unwrap();
    assert_eq!(s.filas().len(), 2);
    s.eliminar("bea").unwrap();
    assert_eq!(s.filas(), antes);
}
