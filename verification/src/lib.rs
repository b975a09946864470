//! Inventario: insumos, recetas, usuarios y permisos de una cafetería.
use vstd::prelude::*;

pub mod texto;
pub mod orden;
pub mod error;
pub mod externos;
pub mod negocio;
pub mod permisos;
pub mod usuario;
pub mod acceso;
pub mod repositorio;
pub mod recetario;
pub mod busqueda;
pub mod servicio;
pub mod servicio_recetas;
pub mod usuarios;
pub mod proveedores;
pub mod comandos;
pub mod peticiones;
pub mod respuestas;
pub mod leyes;

verus! {
}
