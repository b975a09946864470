//! Servicios: las reglas del negocio sobre las tablas del inventario.
use vstd::prelude::*;
use vstd::utf8::encode_utf8;
use crate::busqueda::{buscar_en, contiene_nombre, resultado_busqueda, vista_textos};
use crate::error::{AppError, AppResult, ErrorVista};
use crate::externos::es_texto_uuid;
use crate::negocio::{dato_invalido, error_insumo_nuevo, Insumo, InsumoVista};
use crate::orden::{claves_nombres, ordenadas, pos_insercion};
use crate::repositorio::{
    almacen_valido, claves_insumos, indice_id_insumo, otro_con_nombre_insumo, indice_nombre_insumo, nombres_insumos, AlmacenEnMemoria,
};
use crate::texto::{copiar, unir2, unir3};

verus! {

/// Un nombre está en la lista de nombres si y sólo si algún insumo lo tiene.
pub proof fn lema_contiene_nombre_insumo(s: Seq<InsumoVista>, n: Seq<char>)
    ensures
        nombres_insumos(s).contains(n) <==> indice_nombre_insumo(s, n) is Some,
{
    if nombres_insumos(s).contains(n) {
        let k = choose|k: int| 0 <= k < nombres_insumos(s).len() && nombres_insumos(s)[k] == n;
        assert(s[k].nombre == n);
    }
    if exists|i: int| 0 <= i < s.len() && s[i].nombre == n {
        let k = choose|i: int| 0 <= i < s.len() && s[i].nombre == n;
        assert(nombres_insumos(s)[k] == n);
    }
}

/// Error "no existe en el almacén".
pub open spec fn no_existe_insumo(n: Seq<char>) -> ErrorVista {
    dato_invalido("El insumo: "@ + n + ", no existe en el almacen."@)
}

/// La tabla `nuevo` es `viejo` con un insumo más, de esos datos y de un
/// identificador nuevo con forma de UUID.
pub open spec fn insumo_agregado(viejo: Seq<InsumoVista>, nuevo: Seq<InsumoVista>, nombre: Seq<char>, cantidad: u32, precio: u32, cantidad_minima: u32) -> bool {
    exists|id: Seq<char>| {
        let v = InsumoVista { id, nombre, cantidad, precio, cantidad_minima };
        &&& #[trigger] es_texto_uuid(id)
        &&& indice_id_insumo(viejo, id) is None
        &&& nuevo == viejo.insert(pos_insercion(claves_insumos(viejo), encode_utf8(nombre)) as int, v)
    }
}

/// Algún insumo de la tabla tiene un identificador con forma de UUID: sólo
/// entonces un identificador nuevo puede chocar con uno existente.
pub open spec fn id_uuid_ocupado(s: Seq<InsumoVista>) -> bool {
    exists|id: Seq<char>| #[trigger] es_texto_uuid(id) && indice_id_insumo(s, id) is Some
}

/// Error que devuelve [`ServicioDeAlmacen::editar_insumo`], si alguno.
pub open spec fn error_edicion_insumo(
    s: Seq<InsumoVista>,
    insumo: Seq<char>,
    nombre: Option<Seq<char>>,
    cantidad: Option<u32>,
    cantidad_minima: Option<u32>,
    precio: Option<u32>,
) -> Option<ErrorVista> {
    if !nombres_insumos(s).contains(insumo) {
        Some(no_existe_insumo(insumo))
    } else if nombre matches Some(n) && n.len() == 0 {
        Some(dato_invalido("El nuevo nombre esta vacio."@))
    } else if nombre matches Some(n) && n != insumo && nombres_insumos(s).contains(n) {
        Some(dato_invalido("Ya existe el insumo: "@ + nombre->0))
    } else if cantidad == Some(0u32) {
        Some(dato_invalido("La cantidad a añadir es 0."@))
    } else if cantidad_minima == Some(0u32) {
        Some(dato_invalido("La cantidad minima no puede ser 0."@))
    } else if precio == Some(0u32) {
        Some(dato_invalido("El precio no puede ser 0."@))
    } else {
        None
    }
}

/// Un insumo con los cambios pedidos.
pub open spec fn insumo_editado(
    v: InsumoVista,
    nombre: Option<Seq<char>>,
    cantidad: Option<u32>,
    cantidad_minima: Option<u32>,
    precio: Option<u32>,
) -> InsumoVista {
    InsumoVista {
        id: v.id,
        nombre: match nombre {
            Some(n) => n,
            None => v.nombre,
        },
        cantidad: match cantidad {
            Some(c) => c,
            None => v.cantidad,
        },
        precio: match precio {
            Some(p) => p,
            None => v.precio,
        },
        cantidad_minima: match cantidad_minima {
            Some(c) => c,
            None => v.cantidad_minima,
        },
    }
}

/// Reemplaza la fila `i` por `v`, que vuelve a su lugar según su nombre.
pub open spec fn reubicar_insumo(s: Seq<InsumoVista>, i: int, v: InsumoVista) -> Seq<InsumoVista> {
    s.remove(i).insert(pos_insercion(claves_insumos(s.remove(i)), encode_utf8(v.nombre)) as int, v)
}

/// Vista de un texto opcional.
pub open spec fn vista_opcion(o: Option<String>) -> Option<Seq<char>> {
    match o {
        Some(s) => Some(s@),
        None => None,
    }
}

/// Servicio del almacén de insumos.
pub struct ServicioDeAlmacen {
    repositorio: AlmacenEnMemoria,
}

impl View for ServicioDeAlmacen {
    type V = Seq<InsumoVista>;

    closed spec fn view(&self) -> Seq<InsumoVista> {
        self.repositorio@
    }
}

impl ServicioDeAlmacen {
    /// Servicio sobre esa tabla.
    pub fn nuevo(repo: AlmacenEnMemoria) -> (r: ServicioDeAlmacen)
        ensures
            r@ == repo@,
    {
        ServicioDeAlmacen { repositorio: repo }
    }

    /// Vuelve a insertar un insumo guardado, con su identificador.
    pub fn reinsertar(&mut self, id: String, nombre: String, cantidad: u32, cantidad_minima: u32, precio: u32) -> (r: AppResult<()>)
        ensures
            indice_id_insumo(old(self)@, id@) is Some ==> (r matches Err(e) && e@ == ErrorVista::DbError(
                "UNIQUE constraint failed: insumos.id"@,
            ) && final(self)@ == old(self)@),
            indice_id_insumo(old(self)@, id@) is None && indice_nombre_insumo(old(self)@, nombre@) is Some
                ==> (r matches Err(e) && e@ == ErrorVista::DbError("UNIQUE constraint failed: insumos.nombre"@)
                && final(self)@ == old(self)@),
            indice_id_insumo(old(self)@, id@) is None && indice_nombre_insumo(old(self)@, nombre@) is None
                ==> r is Ok && final(self)@ == old(self)@.insert(
                pos_insercion(claves_insumos(old(self)@), encode_utf8(nombre@)) as int,
                InsumoVista { id: id@, nombre: nombre@, cantidad, precio, cantidad_minima },
            ),
    {
        let insumo = match Insumo::crear_desde_db(id, nombre, cantidad, cantidad_minima, precio) {
            Ok(i) => i,
            Err(e) => {
                return Err(e);
            },
        };
        self.repositorio.anadir(insumo)
    }

    /// Nombres de todos los insumos, en orden de nombre.
    pub fn mostrar_todos(&self) -> (r: AppResult<Vec<String>>)
        ensures
            r matches Ok(v) && vista_textos(v@) == nombres_insumos(self@) && ordenadas(claves_nombres(vista_textos(v@))),
    {
        let v = self.repositorio.mostrar_todos();
        assert(claves_nombres(nombres_insumos(self@)) =~= claves_insumos(self@));
        Ok(v)
    }

    /// Todos los insumos, en orden de nombre.
    pub fn obtener_todos(&self) -> (r: Vec<Insumo>)
        ensures
            crate::repositorio::vista_insumos(r@) == self@,
    {
        self.repositorio.obtener_todos()
    }

    /// El insumo existe (por nombre).
    pub fn existe(&self, busqueda: &String) -> (r: AppResult<()>)
        ensures
            nombres_insumos(self@).contains(busqueda@) ==> r is Ok,
            !nombres_insumos(self@).contains(busqueda@) ==> (r matches Err(e) && e@ == no_existe_insumo(busqueda@)),
    {
        let lista = self.repositorio.mostrar_todos();
        if contiene_nombre(&lista, busqueda) {
            Ok(())
        } else {
            Err(AppError::DatoInvalido(unir3("El insumo: ", busqueda.as_str(), ", no existe en el almacen.")))
        }
    }

    /// Crea un insumo nuevo; rechaza un nombre vacío o ya usado y datos nulos.
    pub fn anadir(&mut self, nombre: String, cantidad: u32, cantidad_minima: u32, precio: u32) -> (r: AppResult<()>)
        ensures
            nombre@.len() == 0 ==> (r matches Err(e) && e@ == dato_invalido("El nombre esta vacio"@)
                && final(self)@ == old(self)@),
            nombre@.len() > 0 && nombres_insumos(old(self)@).contains(nombre@) ==> (r matches Err(e)
                && e@ == dato_invalido("El insumo: "@ + nombre@ + ", ya existe."@) && final(self)@ == old(self)@),
            nombre@.len() > 0 && !nombres_insumos(old(self)@).contains(nombre@) && error_insumo_nuevo(
                nombre@,
                cantidad,
                precio,
                cantidad_minima,
            ) is Some ==> (r matches Err(e) && Some(e@) == error_insumo_nuevo(nombre@, cantidad, precio, cantidad_minima)
                && final(self)@ == old(self)@),
            nombre@.len() > 0 && !nombres_insumos(old(self)@).contains(nombre@) && error_insumo_nuevo(
                nombre@,
                cantidad,
                precio,
                cantidad_minima,
            ) is None ==> (r is Ok && insumo_agregado(old(self)@, final(self)@, nombre@, cantidad, precio, cantidad_minima))
                || (r matches Err(e) && e@ == ErrorVista::DbError("UNIQUE constraint failed: insumos.id"@)
                && final(self)@ == old(self)@ && id_uuid_ocupado(old(self)@)),
    {
        if nombre.as_str().is_empty() {
            return Err(AppError::DatoInvalido(copiar("El nombre esta vacio")));
        }
        match self.existe(&nombre) {
            Ok(_) => {
                return Err(AppError::DatoInvalido(unir3("El insumo: ", nombre.as_str(), ", ya existe.")));
            },
            Err(_) => {},
        }
        let insumo = match Insumo::nuevo(nombre.clone(), cantidad, precio, cantidad_minima) {
            Ok(i) => i,
            Err(e) => {
                return Err(e);
            },
        };
        let ghost v = insumo@;
        proof {
            lema_contiene_nombre_insumo(old(self)@, nombre@);
        }
        let r = self.repositorio.anadir(insumo);
        proof {
            if r is Ok {
                assert(insumo_agregado(old(self)@, self@, nombre@, cantidad, precio, cantidad_minima)) by {
                    assert(v == InsumoVista { id: v.id, nombre: nombre@, cantidad, precio, cantidad_minima });
                }
            } else if indice_id_insumo(old(self)@, v.id) is Some {
                assert(es_texto_uuid(v.id));
                assert(id_uuid_ocupado(old(self)@));
            }
        }
        r
    }

    /// Nombre del insumo con ese identificador.
    pub fn obtener_nombre_con_id(&self, id: &String) -> (r: AppResult<String>)
        ensures
            match indice_id_insumo(self@, id@) {
                None => r matches Err(e) && e@ == dato_invalido("No se encontro el insumo con id: "@ + id@),
                Some(i) => r matches Ok(x) && x@ == self@[i].nombre,
            },
    {
        self.repositorio.obtener_nombre_con_id(id)
    }

    /// Identificador del insumo de ese nombre.
    pub fn obtener_id_con_nombre(&self, nombre: &String) -> (r: AppResult<String>)
        ensures
            match indice_nombre_insumo(self@, nombre@) {
                None => r matches Err(e) && e@ == dato_invalido(
                    "En obtener id: No se encontro el insumo: "@ + nombre@,
                ),
                Some(i) => r matches Ok(x) && x@ == self@[i].id,
            },
    {
        self.repositorio.obtener_id_con_nombre(nombre)
    }

    /// Busca insumos por nombre (ver [`resultado_busqueda`]).
    pub fn buscar(&self, busqueda: &String) -> (r: AppResult<Vec<String>>)
        ensures
            r matches Ok(v) && vista_textos(v@) == resultado_busqueda(nombres_insumos(self@), busqueda@),
    {
        let insumos = self.repositorio.mostrar_todos();
        Ok(buscar_en(insumos, busqueda.as_str()))
    }

    /// Borra el insumo de ese nombre.
    pub fn eliminar(&mut self, insumo: &String) -> (r: AppResult<()>)
        ensures
            match indice_nombre_insumo(old(self)@, insumo@) {
                None => r matches Err(e) && e@ == no_existe_insumo(insumo@) && final(self)@ == old(self)@,
                Some(i) => r is Ok && final(self)@ == old(self)@.remove(i),
            },
    {
        proof {
            lema_contiene_nombre_insumo(self@, insumo@);
        }
        match self.existe(insumo) {
            Ok(_) => {},
            Err(e) => {
                return Err(e);
            },
        }
        self.repositorio.eliminar(insumo)
    }

    /// El insumo de ese nombre.
    pub fn obtener(&self, busqueda: &String) -> (r: AppResult<Insumo>)
        ensures
            match indice_nombre_insumo(self@, busqueda@) {
                None => r matches Err(e) && e@ == no_existe_insumo(busqueda@),
                Some(i) => r matches Ok(x) && x@ == self@[i] && indice_id_insumo(self@, x@.id) == Some(i),
            },
            almacen_valido(self@),
    {
        proof {
            lema_contiene_nombre_insumo(self@, busqueda@);
        }
        let _ = self.repositorio.mostrar_todos();
        match self.existe(busqueda) {
            Ok(_) => {},
            Err(e) => {
                return Err(e);
            },
        }
        self.repositorio.obtener(busqueda)
    }

    /// Datos del insumo de ese nombre: identificador, nombre, cantidad,
    /// cantidad mínima y precio.
    pub fn mostrar_insumo(&self, busqueda: &String) -> (r: AppResult<(String, String, u32, u32, u32)>)
        ensures
            match indice_nombre_insumo(self@, busqueda@) {
                None => r matches Err(e) && e@ == no_existe_insumo(busqueda@),
                Some(i) => r matches Ok(t) && t.0@ == self@[i].id && t.1@ == self@[i].nombre
                    && t.2 == self@[i].cantidad && t.3 == self@[i].cantidad_minima && t.4 == self@[i].precio,
            },
    {
        let insumo = match self.obtener(busqueda) {
            Ok(x) => x,
            Err(e) => {
                return Err(e);
            },
        };
        Ok((
            insumo.obtener_id(),
            insumo.nombre().clone(),
            insumo.obtener_cantidad(),
            insumo.obtener_cantidad_minima(),
            insumo.obtener_precio(),
        ))
    }

    /// Edita un insumo: cada dato presente reemplaza al actual. Rechaza un
    /// insumo inexistente, un nombre vacío o de otro insumo, y cantidades o
    /// precios nulos (ver [`error_edicion_insumo`]).
    pub fn editar_insumo(
        &mut self,
        insumo: &String,
        nombre: Option<String>,
        cantidad: Option<u32>,
        cantidad_minima: Option<u32>,
        precio: Option<u32>,
    ) -> (r: AppResult<()>)
        ensures
            match error_edicion_insumo(old(self)@, insumo@, vista_opcion(nombre), cantidad, cantidad_minima, precio) {
                Some(e) => r matches Err(x) && x@ == e && final(self)@ == old(self)@,
                None => r is Ok && final(self)@ == reubicar_insumo(
                    old(self)@,
                    indice_nombre_insumo(old(self)@, insumo@)->0,
                    insumo_editado(
                        old(self)@[indice_nombre_insumo(old(self)@, insumo@)->0],
                        vista_opcion(nombre),
                        cantidad,
                        cantidad_minima,
                        precio,
                    ),
                ),
            },
    {
        proof {
            lema_contiene_nombre_insumo(self@, insumo@);
        }
        let mut insumo_a_editar = match self.obtener(insumo) {
            Ok(x) => x,
            Err(e) => {
                return Err(e);
            },
        };
        let ghost i = indice_nombre_insumo(self@, insumo@)->0;
        if let Some(nuevo_nombre) = nombre {
            if nuevo_nombre.as_str().is_empty() {
                return Err(AppError::DatoInvalido(copiar("El nuevo nombre esta vacio.")));
            }
            if nuevo_nombre != *insumo {
                match self.existe(&nuevo_nombre) {
                    Ok(_) => {
                        return Err(AppError::DatoInvalido(unir2("Ya existe el insumo: ", nuevo_nombre.as_str())));
                    },
                    Err(_) => {},
                }
            }
            let _ = insumo_a_editar.actualizar_nombre(nuevo_nombre);
        }
        if let Some(cant) = cantidad {
            match insumo_a_editar.actualizar_cantidad(cant) {
                Ok(_) => {},
                Err(e) => {
                    return Err(e);
                },
            }
        }
        if let Some(cant_mnm) = cantidad_minima {
            match insumo_a_editar.actualizar_cantidad_minima(cant_mnm) {
                Ok(_) => {},
                Err(e) => {
                    return Err(e);
                },
            }
        }
        if let Some(costo) = precio {
            match insumo_a_editar.actualizar_precio(costo) {
                Ok(_) => {},
                Err(e) => {
                    return Err(e);
                },
            }
        }
        proof {
            let v = insumo_a_editar@;
            assert(v.id == self@[i].id);
            assert(!otro_con_nombre_insumo(self@, i, v.nombre)) by {
                if otro_con_nombre_insumo(self@, i, v.nombre) {
                    let j = choose|j: int| 0 <= j < self@.len() && j != i && self@[j].nombre == v.nombre;
                    if v.nombre == self@[i].nombre {
                        if j < i {
                            assert(self@[j].nombre != self@[i].nombre);
                        } else {
                            assert(self@[i].nombre != self@[j].nombre);
                        }
                    } else {
                        assert(nombres_insumos(self@)[j] == v.nombre);
                    }
                }
            }
        }
        self.repositorio.editar_insumo(insumo_a_editar)
    }

    /// Fija en `cantidad` los gramos del insumo de ese nombre; devuelve los
    /// gramos que tenía antes.
    pub fn usar(&mut self, busqueda: &String, cantidad: u32) -> (r: AppResult<u32>)
        ensures
            match indice_nombre_insumo(old(self)@, busqueda@) {
                None => r matches Err(e) && e@ == no_existe_insumo(busqueda@) && final(self)@ == old(self)@,
                Some(i) => r == Ok::<u32, AppError>(old(self)@[i].cantidad) && final(self)@ == old(self)@.update(
                    i,
                    InsumoVista { cantidad: cantidad, ..old(self)@[i] },
                ),
            },
    {
        let insumo = match self.obtener(busqueda) {
            Ok(x) => x,
            Err(e) => {
                return Err(e);
            },
        };
        let id = insumo.obtener_id();
        match self.repositorio.usar_insumo(cantidad, &id) {
            Ok(_) => {},
            Err(e) => {
                return Err(e);
            },
        }
        Ok(insumo.obtener_cantidad())
    }
}

} // verus!
