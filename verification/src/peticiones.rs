//! Datos que llegan al servidor en las peticiones y el mensaje con que
//! responde.
use vstd::prelude::*;

verus! {

/// Alta de un usuario.
pub struct CrearUsuarioPeticion {
    pub nombre: String,
    pub rol: String,
    pub contra: String,
}

/// Inicio de sesión.
pub struct VerificarUsuario {
    pub nombre: String,
    pub contra: String,
}

/// Un ingrediente de una receta: nombre del insumo y gramos.
pub struct Ingrediente {
    pub nombre: String,
    pub cantidad: u32,
}

/// Alta de una receta.
pub struct DatosReceta {
    pub nombre: String,
    pub ingredientes: Vec<Ingrediente>,
}

/// Parámetro `consulta` de la dirección.
pub struct ParametrosConsulta {
    pub consulta: Option<String>,
}

/// Alta de un insumo.
pub struct CrearInsumoPeticion {
    pub nombre: String,
    pub cantidad: u32,
    pub cantidad_minima: u32,
    pub precio: u32,
}

/// Mensaje de respuesta.
pub struct MensajeRespuesta {
    pub mensaje: String,
}

/// Edición de un insumo: cada dato presente reemplaza al actual.
pub struct EditarInsumoPayload {
    pub nombre: Option<String>,
    pub cantidad: Option<u32>,
    pub cantidad_minima: Option<u32>,
    pub costo: Option<u32>,
}

/// Edición de una receta.
pub struct EditarRecetaPayLoad {
    pub nombre: Option<String>,
    pub ingredientes: Option<Vec<(String, u32)>>,
}

/// Vista de una lista de ingredientes de una petición: pares (insumo, gramos).
pub open spec fn vista_ingredientes_peticion(v: Seq<Ingrediente>) -> Seq<(Seq<char>, u32)> {
    v.map_values(|i: Ingrediente| (i.nombre@, i.cantidad))
}

impl DatosReceta {
    /// La receta como nombre y lista de pares (insumo, gramos).
    pub fn como_tupla(self) -> (r: (String, Vec<(String, u32)>))
        ensures
            r.0@ == self.nombre@,
            r.1@.map_values(|p: (String, u32)| (p.0@, p.1)) == vista_ingredientes_peticion(self.ingredientes@),
    {
        let ghost v = vista_ingredientes_peticion(self.ingredientes@);
        let DatosReceta { nombre, ingredientes } = self;
        let mut lista: Vec<(String, u32)> = Vec::new();
        let mut i: usize = 0;
        while i < ingredientes.len()
            invariant
                v == vista_ingredientes_peticion(ingredientes@),
                i <= ingredientes@.len(),
                lista@.map_values(|p: (String, u32)| (p.0@, p.1)) == v.take(i as int),
            decreases ingredientes@.len() - i,
        {
            let ghost antes = lista@;
            lista.push((ingredientes[i].nombre.clone(), ingredientes[i].cantidad));
            proof {
                assert(lista@.map_values(|p: (String, u32)| (p.0@, p.1)) =~= antes.map_values(
                    |p: (String, u32)| (p.0@, p.1),
                ).push(v[i as int]));
                assert(v.take(i + 1) =~= v.take(i as int).push(v[i as int]));
            }
            i = i + 1;
        }
        assert(v.take(i as int) =~= v);
        (nombre, lista)
    }
}

/// El nombre de un insumo pedido: el parámetro `consulta` si vino la
/// consulta, o si no, el tramo de la ruta.
pub fn extraer_nombre_insumo(ruta: Option<String>, query: Option<ParametrosConsulta>) -> (r: Option<String>)
    ensures
        match query {
            Some(q) => r == q.consulta,
            None => r == ruta,
        },
{
    if let Some(consulta) = query {
        consulta.consulta
    } else if let Some(ruta_valor) = ruta {
        Some(ruta_valor)
    } else {
        None
    }
}

} // verus!
