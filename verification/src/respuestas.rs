//! Respuestas del servidor: el estado y el cuerpo con que se contesta a cada
//! petición, según el resultado de su comando.
use vstd::prelude::*;
use crate::error::{texto_error, AppResult};
use crate::peticiones::{MensajeRespuesta, ParametrosConsulta};
use crate::texto::{copiar, unir2, unir3, unir4};

verus! {

/// Estado de una respuesta.
#[derive(PartialEq, Eq, Structural, Clone, Copy, Debug)]
pub enum Estado {
    /// 200
    Exito,
    /// 400
    SolicitudIncorrecta,
    /// 404
    NoEncontrado,
    /// 500
    ErrorInterno,
}

/// Cuerpo de una respuesta.
pub enum Cuerpo {
    /// Un [`MensajeRespuesta`].
    Mensaje(MensajeRespuesta),
    /// Una lista de textos.
    Textos(Vec<String>),
    /// Un texto (el token de una sesión).
    Texto(String),
    /// Los datos de un usuario: identificador, nombre y rol.
    Usuario(String, String, String),
    /// Los datos de un insumo: identificador, nombre, cantidad, cantidad mínima y precio.
    Insumo(String, String, u32, u32, u32),
    /// Los datos de una receta: nombre, ingredientes y costo en milésimos de peso.
    Receta(String, Vec<(String, u32)>, u128),
}

/// Una respuesta: estado y cuerpo.
pub struct Respuesta {
    pub estado: Estado,
    pub cuerpo: Cuerpo,
}

/// La respuesta es un mensaje con ese estado y ese texto.
pub open spec fn es_mensaje(r: Respuesta, estado: Estado, texto: Seq<char>) -> bool {
    r.estado == estado && (r.cuerpo matches Cuerpo::Mensaje(m) && m.mensaje@ == texto)
}

fn mensaje(estado: Estado, texto: String) -> (r: Respuesta)
    ensures
        es_mensaje(r, estado, texto@),
{
    Respuesta { estado, cuerpo: Cuerpo::Mensaje(MensajeRespuesta { mensaje: texto }) }
}

/// El parámetro de una búsqueda, o la respuesta que reclama su falta.
pub fn consulta_de_busqueda(query: ParametrosConsulta) -> (r: Result<String, Respuesta>)
    ensures
        match query.consulta {
            Some(c) => r matches Ok(x) && x == c,
            None => r matches Err(x) && es_mensaje(x, Estado::SolicitudIncorrecta, "Falta el parametro de busqueda"@),
        },
{
    match query.consulta {
        Some(nombre) => Ok(nombre),
        None => Err(mensaje(Estado::SolicitudIncorrecta, copiar("Falta el parametro de busqueda"))),
    }
}

/// El parámetro de una consulta de valor, o la respuesta que reclama su falta.
pub fn consulta_de_valor(query: ParametrosConsulta) -> (r: Result<String, Respuesta>)
    ensures
        match query.consulta {
            Some(c) => r matches Ok(x) && x == c,
            None => r matches Err(x) && es_mensaje(x, Estado::SolicitudIncorrecta, "Falta el parametro 'consulta' "@),
        },
{
    match query.consulta {
        Some(nombre) => Ok(nombre),
        None => Err(mensaje(Estado::SolicitudIncorrecta, copiar("Falta el parametro 'consulta' "))),
    }
}

/// Respuesta al alta de un usuario.
pub fn respuesta_crear_usuario(nombre: &str, resultado: AppResult<String>) -> (r: Respuesta)
    ensures
        match resultado {
            Ok(_) => es_mensaje(r, Estado::Exito, "usuario: "@ + nombre@ + ", creado exitosamente"@),
            Err(e) => es_mensaje(r, Estado::ErrorInterno, "Error al crear usuario: "@ + texto_error(e@)),
        },
{
    match resultado {
        Ok(_) => mensaje(Estado::Exito, unir3("usuario: ", nombre, ", creado exitosamente")),
        Err(e) => mensaje(Estado::ErrorInterno, unir2("Error al crear usuario: ", e.mensaje().as_str())),
    }
}

/// Respuesta al inicio de sesión: el token, o el error.
pub fn respuesta_iniciar_sesion(resultado: AppResult<String>) -> (r: Respuesta)
    ensures
        match resultado {
            Ok(t) => r.estado == Estado::Exito && (r.cuerpo matches Cuerpo::Texto(x) && x == t),
            Err(e) => es_mensaje(r, Estado::SolicitudIncorrecta, "Error de validacion, "@ + texto_error(e@)),
        },
{
    match resultado {
        Ok(token) => Respuesta { estado: Estado::Exito, cuerpo: Cuerpo::Texto(token) },
        Err(e) => mensaje(Estado::SolicitudIncorrecta, unir2("Error de validacion, ", e.mensaje().as_str())),
    }
}

/// Respuesta a una búsqueda de usuarios.
pub fn respuesta_buscar_usuario(resultado: AppResult<Vec<String>>) -> (r: Respuesta)
    ensures
        match resultado {
            Ok(v) => r.estado == Estado::Exito && (r.cuerpo matches Cuerpo::Textos(x) && x == v),
            Err(e) => es_mensaje(r, Estado::SolicitudIncorrecta, "Error al listar los usarios: "@ + texto_error(e@)),
        },
{
    match resultado {
        Ok(v) => Respuesta { estado: Estado::Exito, cuerpo: Cuerpo::Textos(v) },
        Err(e) => mensaje(Estado::SolicitudIncorrecta, unir2("Error al listar los usarios: ", e.mensaje().as_str())),
    }
}

/// Respuesta a la lista de usuarios.
pub fn respuesta_listar_usuarios(resultado: AppResult<Vec<String>>) -> (r: Respuesta)
    ensures
        match resultado {
            Ok(v) => r.estado == Estado::Exito && (r.cuerpo matches Cuerpo::Textos(x) && x == v),
            Err(e) => es_mensaje(r, Estado::SolicitudIncorrecta, "Error al listar los usuarios: "@ + texto_error(e@)),
        },
{
    match resultado {
        Ok(v) => Respuesta { estado: Estado::Exito, cuerpo: Cuerpo::Textos(v) },
        Err(e) => mensaje(Estado::SolicitudIncorrecta, unir2("Error al listar los usuarios: ", e.mensaje().as_str())),
    }
}

/// Respuesta a la consulta de un usuario.
pub fn respuesta_valor_de_usuario(nombre: &str, resultado: AppResult<(String, String, String)>) -> (r: Respuesta)
    ensures
        match resultado {
            Ok(t) => r.estado == Estado::Exito && (r.cuerpo matches Cuerpo::Usuario(a, b, c) && a == t.0 && b == t.1
                && c == t.2),
            Err(e) => es_mensaje(
                r,
                Estado::NoEncontrado,
                "No se encontro el usuario '"@ + nombre@ + "', \nError: '"@ + texto_error(e@) + "'"@,
            ),
        },
{
    match resultado {
        Ok((id, n, rol)) => Respuesta { estado: Estado::Exito, cuerpo: Cuerpo::Usuario(id, n, rol) },
        Err(e) => {
            let m = e.mensaje();
            let mut texto = unir4("No se encontro el usuario '", nombre, "', \nError: '", m.as_str());
            texto.append("'");
            mensaje(Estado::NoEncontrado, texto)
        },
    }
}

/// Respuesta a la baja de un insumo (y, con el mismo texto, de un usuario).
pub fn respuesta_eliminar_insumo(nombre: &str, resultado: AppResult<()>) -> (r: Respuesta)
    ensures
        match resultado {
            Ok(_) => es_mensaje(r, Estado::Exito, "Insumo '"@ + nombre@ + "' eliminado correctamente."@),
            Err(e) => es_mensaje(
                r,
                Estado::ErrorInterno,
                "Error al eliminar el insumo '"@ + nombre@ + "': "@ + texto_error(e@),
            ),
        },
{
    match resultado {
        Ok(_) => mensaje(Estado::Exito, unir3("Insumo '", nombre, "' eliminado correctamente.")),
        Err(e) => mensaje(Estado::ErrorInterno, unir4("Error al eliminar el insumo '", nombre, "': ", e.mensaje().as_str())),
    }
}

/// Respuesta al alta de un insumo.
pub fn respuesta_crear_insumo(nombre: &str, resultado: AppResult<()>) -> (r: Respuesta)
    ensures
        match resultado {
            Ok(_) => es_mensaje(r, Estado::Exito, "Insumo: "@ + nombre@ + ", creado exitosamente"@),
            Err(e) => es_mensaje(r, Estado::ErrorInterno, "Error al crear insumo: "@ + texto_error(e@)),
        },
{
    match resultado {
        Ok(_) => mensaje(Estado::Exito, unir3("Insumo: ", nombre, ", creado exitosamente")),
        Err(e) => mensaje(Estado::ErrorInterno, unir2("Error al crear insumo: ", e.mensaje().as_str())),
    }
}

/// Respuesta a una búsqueda de insumos: sin resultados, no encontrado.
pub fn respuesta_buscar_insumo(nombre: &str, resultado: AppResult<Vec<String>>) -> (r: Respuesta)
    ensures
        match resultado {
            Ok(v) => if v@.len() == 0 {
                es_mensaje(r, Estado::NoEncontrado, "El insumo de nombre: "@ + nombre@ + "\n No fue encontrado"@)
            } else {
                r.estado == Estado::Exito && (r.cuerpo matches Cuerpo::Textos(x) && x == v)
            },
            Err(e) => es_mensaje(
                r,
                Estado::ErrorInterno,
                "Error al buscar el insumo: "@ + nombre@ + "\nError: "@ + texto_error(e@),
            ),
        },
{
    match resultado {
        Ok(v) => {
            if v.len() == 0 {
                mensaje(Estado::NoEncontrado, unir3("El insumo de nombre: ", nombre, "\n No fue encontrado"))
            } else {
                Respuesta { estado: Estado::Exito, cuerpo: Cuerpo::Textos(v) }
            }
        },
        Err(e) => mensaje(Estado::ErrorInterno, unir4("Error al buscar el insumo: ", nombre, "\nError: ", e.mensaje().as_str())),
    }
}

/// Respuesta a la consulta de un insumo.
pub fn respuesta_valor_de_insumo(nombre: &str, resultado: AppResult<(String, String, u32, u32, u32)>) -> (r: Respuesta)
    ensures
        match resultado {
            Ok(t) => r.estado == Estado::Exito && (r.cuerpo matches Cuerpo::Insumo(a, b, c, d, p) && a == t.0 && b == t.1
                && c == t.2 && d == t.3 && p == t.4),
            Err(e) => es_mensaje(
                r,
                Estado::NoEncontrado,
                "No se encontro el insumo '"@ + nombre@ + "', \nError: '"@ + texto_error(e@) + "'"@,
            ),
        },
{
    match resultado {
        Ok((id, n, cantidad, cantidad_minima, precio)) => Respuesta {
            estado: Estado::Exito,
            cuerpo: Cuerpo::Insumo(id, n, cantidad, cantidad_minima, precio),
        },
        Err(e) => {
            let m = e.mensaje();
            let mut texto = unir4("No se encontro el insumo '", nombre, "', \nError: '", m.as_str());
            texto.append("'");
            mensaje(Estado::NoEncontrado, texto)
        },
    }
}

/// Respuesta a la edición de un insumo.
pub fn respuesta_editar_insumo(nombre: &str, resultado: AppResult<()>) -> (r: Respuesta)
    ensures
        match resultado {
            Ok(_) => es_mensaje(r, Estado::Exito, "Insumo '"@ + nombre@ + "' actualizado correctamente."@),
            Err(e) => es_mensaje(
                r,
                Estado::ErrorInterno,
                "Error al actualizar el insumo '"@ + nombre@ + "': "@ + texto_error(e@),
            ),
        },
{
    match resultado {
        Ok(_) => mensaje(Estado::Exito, unir3("Insumo '", nombre, "' actualizado correctamente.")),
        Err(e) => mensaje(Estado::ErrorInterno, unir4("Error al actualizar el insumo '", nombre, "': ", e.mensaje().as_str())),
    }
}

/// Respuesta al alta de una receta.
pub fn respuesta_crear_receta(resultado: AppResult<String>) -> (r: Respuesta)
    ensures
        match resultado {
            Ok(m) => es_mensaje(r, Estado::Exito, m@),
            Err(e) => es_mensaje(r, Estado::SolicitudIncorrecta, "No se pudo crear la receta: "@ + texto_error(e@)),
        },
{
    match resultado {
        Ok(m) => mensaje(Estado::Exito, m),
        Err(e) => mensaje(Estado::SolicitudIncorrecta, unir2("No se pudo crear la receta: ", e.mensaje().as_str())),
    }
}

/// Respuesta a la consulta de una receta.
pub fn respuesta_valor_receta(nombre: &str, resultado: AppResult<(String, Vec<(String, u32)>, u128)>) -> (r: Respuesta)
    ensures
        match resultado {
            Ok(t) => r.estado == Estado::Exito && (r.cuerpo matches Cuerpo::Receta(a, b, c) && a == t.0 && b == t.1
                && c == t.2),
            Err(e) => es_mensaje(
                r,
                Estado::SolicitudIncorrecta,
                "no se encontro la receta: "@ + nombre@ + "\n Error: "@ + texto_error(e@),
            ),
        },
{
    match resultado {
        Ok((n, ingredientes, costo)) => Respuesta { estado: Estado::Exito, cuerpo: Cuerpo::Receta(n, ingredientes, costo) },
        Err(e) => mensaje(Estado::SolicitudIncorrecta, unir4("no se encontro la receta: ", nombre, "\n Error: ", e.mensaje().as_str())),
    }
}

/// Respuesta a la edición de una receta.
pub fn respuesta_editar_receta(nombre: &str, resultado: AppResult<()>) -> (r: Respuesta)
    ensures
        match resultado {
            Ok(_) => es_mensaje(r, Estado::Exito, "Receta: "@ + nombre@ + ", Actualizada correctamente"@),
            Err(e) => es_mensaje(
                r,
                Estado::ErrorInterno,
                "Error al actualizar la receta: "@ + nombre@ + ".\nError: "@ + texto_error(e@),
            ),
        },
{
    match resultado {
        Ok(_) => mensaje(Estado::Exito, unir3("Receta: ", nombre, ", Actualizada correctamente")),
        Err(e) => mensaje(Estado::ErrorInterno, unir4("Error al actualizar la receta: ", nombre, ".\nError: ", e.mensaje().as_str())),
    }
}

/// Respuesta a la baja de una receta.
pub fn respuesta_eliminar_receta(nombre: &str, resultado: AppResult<()>) -> (r: Respuesta)
    ensures
        match resultado {
            Ok(_) => es_mensaje(r, Estado::Exito, "Receta: "@ + nombre@ + ", Eliminada correctamente."@),
            Err(e) => es_mensaje(
                r,
                Estado::ErrorInterno,
                "Receta: "@ + nombre@ + ", no eliminada \nError: "@ + texto_error(e@),
            ),
        },
{
    match resultado {
        Ok(_) => mensaje(Estado::Exito, unir3("Receta: ", nombre, ", Eliminada correctamente.")),
        Err(e) => mensaje(Estado::ErrorInterno, unir4("Receta: ", nombre, ", no eliminada \nError: ", e.mensaje().as_str())),
    }
}

} // verus!
