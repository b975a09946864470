//! Comandos: las operaciones que ofrecen la línea de comandos y el servidor,
//! sobre los servicios, con los mensajes que ve el usuario.
use vstd::prelude::*;
use crate::busqueda::{resultado_busqueda, vista_textos};
use crate::error::{texto_error, AppError, AppResult, ErrorVista};
use crate::negocio::{dato_invalido, error_insumo_nuevo, error_personal, vista_ingredientes};
use crate::orden::ordenar_nombres;
use crate::recetario::{indice_nombre_receta, nombres_recetas, recetas_con_ingrediente};
use crate::repositorio::{indice_nombre_insumo, nombres_insumos};
use crate::servicio::{
    error_edicion_insumo, id_uuid_ocupado, insumo_agregado, insumo_editado, no_existe_insumo, reubicar_insumo, vista_opcion,
    ServicioDeAlmacen,
};
use crate::servicio_recetas::{
    con_nombres, con_receta, con_identificadores, costo_ingredientes, error_editar_receta, error_receta_nueva,
    no_existe_receta, primer_error, producir, receta_editada, receta_en, vista_opcion_ingredientes, Revision,
    ServicioDeRecetas,
};
use crate::externos::es_texto_uuid;
use crate::texto::{unir2, unir3, unir4};
use crate::usuario::UsuarioVista;
use crate::usuarios::{
    indice_nombre_usuario, nombres_usuarios, resultado_verificar, sin_id, usuario_nuevo, usuario_por_nombre,
    ServicioDeUsuarios,
};

verus! {

/// Error de alta de un insumo que no depende del identificador nuevo.
pub open spec fn error_alta_insumo(s: Seq<crate::negocio::InsumoVista>, nombre: Seq<char>, cantidad: u32, cantidad_minima: u32, precio: u32) -> Option<ErrorVista> {
    if nombre.len() == 0 {
        Some(dato_invalido("El nombre esta vacio"@))
    } else if nombres_insumos(s).contains(nombre) {
        Some(dato_invalido("El insumo: "@ + nombre + ", ya existe."@))
    } else {
        error_insumo_nuevo(nombre, cantidad, precio, cantidad_minima)
    }
}

/// Error de alta de un usuario, salvo el del cifrado.
pub open spec fn error_alta_usuario(s: Seq<UsuarioVista>, nombre: Seq<char>, rol: Seq<char>) -> Option<ErrorVista> {
    if nombres_usuarios(s).contains(nombre) {
        Some(dato_invalido("El usuario: "@ + nombre + ", ya existe"@))
    } else if nombre.len() == 0 {
        Some(dato_invalido("el nombre no puede estar vacio"@))
    } else if rol.len() == 0 {
        Some(dato_invalido("El rol esta vacio"@))
    } else {
        None
    }
}

/// Crea un usuario (nombre, contraseña, rol).
pub fn crear_usuario(usuario: (&str, &str, &str), repositorio: &mut ServicioDeUsuarios) -> (r: AppResult<String>)
    ensures
        match error_alta_usuario(old(repositorio)@, usuario.0@, usuario.2@) {
            Some(e) => r matches Err(x) && x@ == error_personal(
                "Error al crear el usuario: "@ + usuario.0@ + "\n Error "@ + texto_error(e),
            ) && final(repositorio)@ == old(repositorio)@,
            None => (r matches Ok(m) && m@ == "Se ha creado el usuario: "@ + usuario.0@ && exists|u: UsuarioVista|
                #[trigger] usuario_nuevo(u, usuario.0@, usuario.2@, usuario.1@) && final(repositorio)@ == old(
                repositorio,
            )@.push(u)) || (r matches Err(x) && x@ == error_personal(
                "Error al crear el usuario: "@ + usuario.0@ + "\n Error "@ + texto_error(
                    error_personal("Error al encriptar la contraseña"@),
                ),
            ) && final(repositorio)@ == old(repositorio)@),
        },
{
    let nombre = crate::texto::copiar(usuario.0);
    match repositorio.agregar(nombre, crate::texto::copiar(usuario.1), crate::texto::copiar(usuario.2)) {
        Ok(_) => Ok(unir2("Se ha creado el usuario: ", usuario.0)),
        Err(e) => {
            let m = e.mensaje();
            Err(AppError::ErrorPersonal(unir4("Error al crear el usuario: ", usuario.0, "\n Error ", m.as_str())))
        },
    }
}

/// Inicia la sesión de un usuario: su token, o un aviso si no se pudo.
pub fn iniciar_sesion(repositorio: &mut ServicioDeUsuarios, usuario: &str, contra: &str) -> (r: AppResult<String>)
    ensures
        final(repositorio)@ == old(repositorio)@,
        match resultado_verificar(old(repositorio)@, contra@, usuario@) {
            Ok(t) => r matches Ok(x) && x@ == t,
            Err(_) => r matches Err(x) && x@ == dato_invalido(
                "Querid@: "@ + usuario@ + ", contra incorrecta, por favor vuelve a intentar."@,
            ),
        },
{
    match repositorio.verificar_usuario(contra, usuario) {
        Ok(token) => Ok(token),
        Err(_) => Err(AppError::DatoInvalido(unir3("Querid@: ", usuario, ", contra incorrecta, por favor vuelve a intentar."))),
    }
}

/// Busca usuarios por nombre.
pub fn buscar_usuario(repositorio: &ServicioDeUsuarios, busqueda: &String) -> (r: AppResult<Vec<String>>)
    ensures
        repositorio@.len() == 0 ==> (r matches Err(x) && x@ == dato_invalido(
            "No se encontro el usuario: "@ + busqueda@ + "\nError: "@ + texto_error(
                dato_invalido("No se encontro el usuario: "@ + busqueda@),
            ),
        )),
        repositorio@.len() > 0 ==> (r matches Ok(v) && vista_textos(v@) == resultado_busqueda(
            ordenar_nombres(nombres_usuarios(repositorio@)),
            busqueda@,
        )),
{
    match repositorio.buscar(busqueda) {
        Ok(resultados) => Ok(resultados),
        Err(e) => {
            let m = e.mensaje();
            Err(AppError::DatoInvalido(unir4("No se encontro el usuario: ", busqueda.as_str(), "\nError: ", m.as_str())))
        },
    }
}

/// Nombres de los usuarios, ordenados.
pub fn listar_usuarios(repositorio: &ServicioDeUsuarios) -> (r: AppResult<Vec<String>>)
    ensures
        r matches Ok(v) && vista_textos(v@) == ordenar_nombres(nombres_usuarios(repositorio@)),
{
    match repositorio.listar() {
        Ok(resultados) => Ok(resultados),
        Err(e) => {
            let m = e.mensaje();
            Err(AppError::ErrorPersonal(unir2("Ocurrio un error al listar los usuarios: ", m.as_str())))
        },
    }
}

/// Identificador, nombre y rol de un usuario.
pub fn valor_de_usuario(repo: &ServicioDeUsuarios, usuario: &str) -> (r: AppResult<(String, String, String)>)
    ensures
        match usuario_por_nombre(repo@, usuario@) {
            None => r matches Err(x) && x@ == error_personal(
                "Error al encontrar el usuario: "@ + usuario@ + ", error: "@ + texto_error(
                    dato_invalido("El usuario: "@ + usuario@ + ", no existe"@),
                ),
            ),
            Some(u) => r matches Ok(t) && t.0@ == u.id && t.1@ == u.nombre && t.2@ == u.rol,
        },
{
    match repo.obtener(usuario) {
        Ok((id, nombre, rol)) => Ok((id, nombre, rol)),
        Err(e) => {
            let m = e.mensaje();
            Err(AppError::ErrorPersonal(unir4("Error al encontrar el usuario: ", usuario, ", error: ", m.as_str())))
        },
    }
}

/// Borra un usuario.
pub fn eliminar_usuario(repositorio: &mut ServicioDeUsuarios, busqueda: &String) -> (r: AppResult<()>)
    ensures
        match indice_nombre_usuario(old(repositorio)@, busqueda@) {
            None => r matches Err(e) && e@ == dato_invalido("No existe el usuario: "@ + busqueda@) && final(repositorio)@
                == old(repositorio)@,
            Some(i) => r is Ok && final(repositorio)@ == sin_id(old(repositorio)@, old(repositorio)@[i].id),
        },
{
    match repositorio.eliminar(busqueda.as_str()) {
        Ok(_) => {},
        Err(e) => {
            return Err(e);
        },
    }
    Ok(())
}

/// Crea un insumo (nombre, cantidad, cantidad mínima, precio).
pub fn crear_insumo(insumo: (String, u32, u32, u32), almacen: &mut ServicioDeAlmacen) -> (r: AppResult<String>)
    ensures
        match error_alta_insumo(old(almacen)@, insumo.0@, insumo.1, insumo.2, insumo.3) {
            Some(e) => r matches Err(x) && x@ == error_personal(
                "Error al crear el insumo: "@ + insumo.0@ + ", error: "@ + texto_error(e),
            ) && final(almacen)@ == old(almacen)@,
            None => (r matches Ok(m) && m@ == "se ha creado el insumo: "@ + insumo.0@ && insumo_agregado(
                old(almacen)@,
                final(almacen)@,
                insumo.0@,
                insumo.1,
                insumo.3,
                insumo.2,
            )) || (r matches Err(x) && x@ == error_personal(
                "Error al crear el insumo: "@ + insumo.0@ + ", error: "@ + texto_error(
                    ErrorVista::DbError("UNIQUE constraint failed: insumos.id"@),
                ),
            ) && final(almacen)@ == old(almacen)@ && id_uuid_ocupado(old(almacen)@)),
        },
{
    let nombre = insumo.0.clone();
    match almacen.anadir(insumo.0, insumo.1, insumo.2, insumo.3) {
        Ok(_) => Ok(unir2("se ha creado el insumo: ", nombre.as_str())),
        Err(e) => {
            let m = e.mensaje();
            Err(AppError::ErrorPersonal(unir4("Error al crear el insumo: ", nombre.as_str(), ", error: ", m.as_str())))
        },
    }
}

/// Crea una receta (nombre, ingredientes por nombre de insumo y gramos).
pub fn crear_receta(receta: (String, Vec<(String, u32)>), almacen: &ServicioDeAlmacen, libro: &mut ServicioDeRecetas) -> (r: AppResult<String>)
    ensures
        match error_receta_nueva(old(libro)@, almacen@, receta.0@, vista_ingredientes(receta.1@)) {
            Some(e) => r matches Err(x) && x@ == error_personal(
                "hubo un error al crear la receta: "@ + receta.0@ + ", error: "@ + texto_error(e),
            ) && final(libro)@ == old(libro)@,
            None => r matches Ok(m) && m@ == "se ha creado la receta: "@ + receta.0@ && exists|id: Seq<char>|
                #[trigger] es_texto_uuid(id) && final(libro)@ == con_receta(
                old(libro)@,
                id,
                receta.0@,
                con_identificadores(almacen@, vista_ingredientes(receta.1@)),
                costo_ingredientes(almacen@, vista_ingredientes(receta.1@)) as u128,
            ),
        },
{
    let nombre = receta.0.clone();
    match libro.anadir(receta.0, receta.1, almacen) {
        Ok(_) => Ok(unir2("se ha creado la receta: ", nombre.as_str())),
        Err(e) => {
            let m = e.mensaje();
            Err(AppError::ErrorPersonal(unir4("hubo un error al crear la receta: ", nombre.as_str(), ", error: ", m.as_str())))
        },
    }
}

/// Busca insumos por nombre.
pub fn buscar_insumo(almacen: &ServicioDeAlmacen, busqueda: &String) -> (r: Vec<String>)
    ensures
        vista_textos(r@) == resultado_busqueda(nombres_insumos(almacen@), busqueda@),
{
    match almacen.buscar(busqueda) {
        Ok(resultados) => resultados,
        Err(e) => {
            let mut resultados: Vec<String> = Vec::new();
            resultados.push(e.mensaje());
            resultados
        },
    }
}

/// Busca recetas por nombre.
pub fn buscar_receta(libro: &ServicioDeRecetas, busqueda: &String) -> (r: Vec<String>)
    ensures
        vista_textos(r@) == resultado_busqueda(nombres_recetas(libro@.recetas), busqueda@),
{
    match libro.buscar(busqueda.as_str()) {
        Ok(res) => res,
        Err(e) => {
            let mut res: Vec<String> = Vec::new();
            res.push(e.mensaje());
            res
        },
    }
}

/// Nombres de todos los insumos.
pub fn ver_todos_los_insumos(almacen: &ServicioDeAlmacen) -> (r: Vec<String>)
    ensures
        vista_textos(r@) == nombres_insumos(almacen@),
{
    match almacen.mostrar_todos() {
        Ok(resultados) => resultados,
        Err(e) => {
            let mut resultados: Vec<String> = Vec::new();
            resultados.push(e.mensaje());
            resultados
        },
    }
}

/// Nombres de todas las recetas.
pub fn ver_todos_las_recetas(libro: &ServicioDeRecetas) -> (r: Vec<String>)
    ensures
        vista_textos(r@) == nombres_recetas(libro@.recetas),
{
    match libro.mostrar_todos() {
        Ok(res) => res,
        Err(e) => {
            let mut resultado: Vec<String> = Vec::new();
            resultado.push(e.mensaje());
            resultado
        },
    }
}

/// Datos de un insumo: identificador, nombre, cantidad, cantidad mínima y precio.
pub fn valor_de_insumo(busqueda: &String, almacen: &ServicioDeAlmacen) -> (r: AppResult<(String, String, u32, u32, u32)>)
    ensures
        match indice_nombre_insumo(almacen@, busqueda@) {
            None => r matches Err(e) && e@ == no_existe_insumo(busqueda@),
            Some(i) => r matches Ok(t) && t.0@ == almacen@[i].id && t.1@ == almacen@[i].nombre && t.2
                == almacen@[i].cantidad && t.3 == almacen@[i].cantidad_minima && t.4 == almacen@[i].precio,
        },
{
    almacen.mostrar_insumo(busqueda)
}

/// Nombre, ingredientes (por nombre de insumo) y costo de una receta.
pub fn receta_valor(busqueda: &String, libro: &ServicioDeRecetas, almacen: &ServicioDeAlmacen) -> (r: AppResult<(String, Vec<(String, u32)>, u128)>)
    ensures
        match indice_nombre_receta(libro@.recetas, busqueda@) {
            None => r matches Err(e) && e@ == no_existe_receta(busqueda@),
            Some(i) => match primer_error(almacen@, receta_en(libro@, i).ingredientes, Revision::Guardada) {
                Some(e) => r matches Err(x) && x@ == e,
                None => r matches Ok(t) && t.0@ == libro@.recetas[i].nombre && vista_ingredientes(t.1@) == con_nombres(
                    almacen@,
                    receta_en(libro@, i).ingredientes,
                ) && t.2 == libro@.recetas[i].costo,
            },
        },
{
    libro.mostrar_receta(busqueda, almacen)
}

/// Borra una receta.
pub fn eliminar_receta(libro: &mut ServicioDeRecetas, busqueda: &String) -> (r: AppResult<()>)
    ensures
        match indice_nombre_receta(old(libro)@.recetas, busqueda@) {
            None => r matches Err(e) && e@ == no_existe_receta(busqueda@) && final(libro)@ == old(libro)@,
            Some(i) => r is Ok && final(libro)@.recetas == old(libro)@.recetas.remove(i)
                && final(libro)@.ingredientes == old(libro)@.ingredientes,
        },
{
    libro.eliminar(busqueda.as_str())
}

/// Edita un insumo.
pub fn editar_insumo(
    almacen: &mut ServicioDeAlmacen,
    insumo: &String,
    nombre: Option<String>,
    cantidad: Option<u32>,
    cantidad_minima: Option<u32>,
    costo: Option<u32>,
) -> (r: AppResult<()>)
    ensures
        match error_edicion_insumo(old(almacen)@, insumo@, vista_opcion(nombre), cantidad, cantidad_minima, costo) {
            Some(e) => r matches Err(x) && x@ == error_personal(
                "Error: "@ + texto_error(e) + ". \nAl editar el insumo: "@ + insumo@,
            ) && final(almacen)@ == old(almacen)@,
            None => r is Ok && final(almacen)@ == reubicar_insumo(
                old(almacen)@,
                indice_nombre_insumo(old(almacen)@, insumo@)->0,
                insumo_editado(
                    old(almacen)@[indice_nombre_insumo(old(almacen)@, insumo@)->0],
                    vista_opcion(nombre),
                    cantidad,
                    cantidad_minima,
                    costo,
                ),
            ),
        },
{
    match almacen.editar_insumo(insumo, nombre, cantidad, cantidad_minima, costo) {
        Ok(_) => Ok(()),
        Err(e) => {
            let m = e.mensaje();
            Err(AppError::ErrorPersonal(unir4("Error: ", m.as_str(), ". \nAl editar el insumo: ", insumo.as_str())))
        },
    }
}

/// Edita una receta.
pub fn editar_receta(
    libro: &mut ServicioDeRecetas,
    receta: &String,
    nombre: Option<String>,
    ingredientes: Option<Vec<(String, u32)>>,
    almacen: &ServicioDeAlmacen,
) -> (r: AppResult<()>)
    ensures
        match error_editar_receta(
            old(libro)@,
            almacen@,
            receta@,
            vista_opcion(nombre),
            vista_opcion_ingredientes(ingredientes),
        ) {
            Some(e) => r matches Err(x) && x@ == e && final(libro)@ == old(libro)@,
            None => r is Ok && final(libro)@ == receta_editada(old(libro)@, receta@, vista_opcion(nombre)),
        },
{
    libro.editar_receta(almacen, receta, nombre, ingredientes)
}

/// Produce tandas de una receta, descontando los insumos.
pub fn producir_recetas(almacen: &mut ServicioDeAlmacen, libro: &ServicioDeRecetas, receta: &String, cantidad: u32) -> (r: AppResult<()>)
    ensures
        match indice_nombre_receta(libro@.recetas, receta@) {
            None => r matches Err(x) && x@ == error_personal(
                "Error: "@ + texto_error(no_existe_receta(receta@)) + ", al producir la receta: "@ + receta@,
            ) && final(almacen)@ == old(almacen)@,
            Some(i) => {
                let (s, e) = producir(old(almacen)@, receta_en(libro@, i).ingredientes, cantidad as nat);
                &&& final(almacen)@ == s
                &&& match e {
                    None => r is Ok,
                    Some(x) => r matches Err(y) && y@ == error_personal(
                        "Error: "@ + texto_error(x) + ", al producir la receta: "@ + receta@,
                    ),
                }
            },
        },
{
    match libro.producir_receta(almacen, receta, cantidad) {
        Ok(_) => Ok(()),
        Err(e) => {
            let m = e.mensaje();
            Err(AppError::ErrorPersonal(unir4("Error: ", m.as_str(), ", al producir la receta: ", receta.as_str())))
        },
    }
}

/// Borra un insumo.
pub fn eliminar_insumo(almacen: &mut ServicioDeAlmacen, busqueda: &String) -> (r: AppResult<()>)
    ensures
        match indice_nombre_insumo(old(almacen)@, busqueda@) {
            None => r matches Err(e) && e@ == no_existe_insumo(busqueda@) && final(almacen)@ == old(almacen)@,
            Some(i) => r is Ok && final(almacen)@ == old(almacen)@.remove(i),
        },
{
    match almacen.eliminar(busqueda) {
        Ok(_) => {},
        Err(e) => {
            return Err(e);
        },
    }
    Ok(())
}

/// Recetas que usan un insumo. Tras comprobar que el insumo existe, consulta
/// las recetas con el nombre del insumo en el lugar de su identificador.
pub fn insumo_en_recetas(libro: &ServicioDeRecetas, almacen: &ServicioDeAlmacen, insumo: &String) -> (r: AppResult<Vec<String>>)
    ensures
        !nombres_insumos(almacen@).contains(insumo@) ==> (r matches Err(e) && e@ == no_existe_insumo(insumo@)),
        nombres_insumos(almacen@).contains(insumo@) ==> (r matches Ok(v) && vista_textos(v@) == recetas_con_ingrediente(
            libro@.ingredientes,
            insumo@,
        )),
{
    match almacen.existe(insumo) {
        Ok(_) => {},
        Err(e) => {
            return Err(e);
        },
    }
    proof {
        crate::repositorio::lema_indice_nombre_insumo(almacen@, insumo@);
        let k = choose|k: int| 0 <= k < nombres_insumos(almacen@).len() && nombres_insumos(almacen@)[k] == insumo@;
        assert(almacen@[k].nombre == insumo@);
    }
    match almacen.obtener_id_con_nombre(insumo) {
        Ok(_) => {},
        Err(e) => {
            return Err(e);
        },
    }
    libro.insumo_en_recetas(insumo)
}

} // verus!
