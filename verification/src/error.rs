//! Errores de la aplicación.
use vstd::prelude::*;
use crate::texto::unir2;

verus! {

/// Errores que puede producir la lógica del inventario.
///
/// Los errores de base de datos, de entrada/salida y del servidor llevan el
/// texto del error que los originó.
#[derive(Debug)]
pub enum AppError {
    ErrorPersonal(String),
    DatoInvalido(String),
    CampoVacio(String),
    DbError(String),
    IoError(String),
    ActixError(String),
}

/// Vista matemática de un [`AppError`]: la variante y su texto.
pub enum ErrorVista {
    ErrorPersonal(Seq<char>),
    DatoInvalido(Seq<char>),
    CampoVacio(Seq<char>),
    DbError(Seq<char>),
    IoError(Seq<char>),
    ActixError(Seq<char>),
}

impl View for AppError {
    type V = ErrorVista;

    open spec fn view(&self) -> ErrorVista {
        match self {
            AppError::ErrorPersonal(m) => ErrorVista::ErrorPersonal(m@),
            AppError::DatoInvalido(m) => ErrorVista::DatoInvalido(m@),
            AppError::CampoVacio(m) => ErrorVista::CampoVacio(m@),
            AppError::DbError(m) => ErrorVista::DbError(m@),
            AppError::IoError(m) => ErrorVista::IoError(m@),
            AppError::ActixError(m) => ErrorVista::ActixError(m@),
        }
    }
}

/// Texto con el que se muestra un error.
pub open spec fn texto_error(e: ErrorVista) -> Seq<char> {
    match e {
        ErrorVista::ErrorPersonal(m) => "Error Personal: "@ + m,
        ErrorVista::DatoInvalido(m) => "Dato Invalido: "@ + m,
        ErrorVista::CampoVacio(m) => "Campo Vacio: "@ + m,
        ErrorVista::DbError(m) => "Error de Base de datos: "@ + m,
        ErrorVista::IoError(m) => "Error de I/O: "@ + m + " "@,
        ErrorVista::ActixError(m) => "Error de Actix_web: "@ + m,
    }
}

/// Resultado de la aplicación.
pub type AppResult<T> = Result<T, AppError>;

impl AppError {
    /// Texto del error, tal como se muestra al usuario.
    pub fn mensaje(&self) -> (r: String)
        ensures
            r@ == texto_error(self@),
    {
        match self {
            AppError::ErrorPersonal(m) => unir2("Error Personal: ", m.as_str()),
            AppError::DatoInvalido(m) => unir2("Dato Invalido: ", m.as_str()),
            AppError::CampoVacio(m) => unir2("Campo Vacio: ", m.as_str()),
            AppError::DbError(m) => unir2("Error de Base de datos: ", m.as_str()),
            AppError::IoError(m) => crate::texto::unir3("Error de I/O: ", m.as_str(), " "),
            AppError::ActixError(m) => unir2("Error de Actix_web: ", m.as_str()),
        }
    }
}

} // verus!
