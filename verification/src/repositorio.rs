//! Tablas en memoria del inventario.
//!
//! Cada tabla guarda sus filas ordenadas por nombre (el orden `BINARY` de
//! SQLite sobre los bytes UTF-8); una fila nueva entra después de las de
//! nombre menor o igual, así que entre nombres iguales se conserva el orden de
//! llegada. Las restricciones `UNIQUE` del esquema se comprueban al insertar.
use vstd::prelude::*;
use vstd::utf8::encode_utf8;
use vstd::string::StringSliceAdditionalSpecFns;
use crate::error::{AppError, AppResult, ErrorVista};
use crate::negocio::{Insumo, InsumoVista, dato_invalido, error_personal};
use crate::orden::{lema_insertar_ordenado, lema_pos_insercion_acotada, lema_quitar_ordenado, ordenadas, pos_insercion};
use crate::texto::{comparar_bytes, copiar, unir2, unir3, Comparacion};

verus! {

// ---------------------------------------------------------------- Insumos

/// Vista de una lista de insumos.
pub open spec fn vista_insumos(v: Seq<Insumo>) -> Seq<InsumoVista> {
    v.map_values(|i: Insumo| i@)
}

/// Claves de orden (bytes del nombre) de una lista de insumos.
pub open spec fn claves_insumos(s: Seq<InsumoVista>) -> Seq<Seq<u8>> {
    s.map_values(|v: InsumoVista| encode_utf8(v.nombre))
}

/// Nombres de una lista de insumos, en orden.
pub open spec fn nombres_insumos(s: Seq<InsumoVista>) -> Seq<Seq<char>> {
    s.map_values(|v: InsumoVista| v.nombre)
}

/// Índice del primer insumo con ese identificador.
pub open spec fn indice_id_insumo(s: Seq<InsumoVista>, id: Seq<char>) -> Option<int> {
    if exists|i: int| 0 <= i < s.len() && s[i].id == id {
        Some(choose|i: int| 0 <= i < s.len() && s[i].id == id && forall|j: int| 0 <= j < i ==> s[j].id != id)
    } else {
        None
    }
}

/// Índice del primer insumo con ese nombre.
pub open spec fn indice_nombre_insumo(s: Seq<InsumoVista>, n: Seq<char>) -> Option<int> {
    if exists|i: int| 0 <= i < s.len() && s[i].nombre == n {
        Some(choose|i: int| 0 <= i < s.len() && s[i].nombre == n && forall|j: int| 0 <= j < i ==> s[j].nombre != n)
    } else {
        None
    }
}

/// Una tabla de insumos válida: ordenada por nombre, sin identificadores ni
/// nombres repetidos.
pub open spec fn almacen_valido(s: Seq<InsumoVista>) -> bool {
    &&& ordenadas(claves_insumos(s))
    &&& forall|i: int, j: int| 0 <= i < j < s.len() ==> (#[trigger] s[i]).id != (#[trigger] s[j]).id
    &&& forall|i: int, j: int| 0 <= i < j < s.len() ==> (#[trigger] s[i]).nombre != (#[trigger] s[j]).nombre
}

/// Tabla `insumos`.
pub struct AlmacenEnMemoria {
    filas: Vec<Insumo>,
}

impl View for AlmacenEnMemoria {
    type V = Seq<InsumoVista>;

    closed spec fn view(&self) -> Seq<InsumoVista> {
        vista_insumos(self.filas@)
    }
}

proof fn lema_indice_unico_id(s: Seq<InsumoVista>, i: int)
    requires
        0 <= i < s.len(),
        forall|a: int| 0 <= a < i ==> s[a].id != s[i].id,
    ensures
        indice_id_insumo(s, s[i].id) == Some(i),
{
    let id = s[i].id;
    assert(exists|k: int| 0 <= k < s.len() && s[k].id == id);
    let k = choose|k: int| 0 <= k < s.len() && s[k].id == id && forall|j: int| 0 <= j < k ==> s[j].id != id;
    assert(k == i);
}

proof fn lema_indice_unico_nombre(s: Seq<InsumoVista>, i: int)
    requires
        0 <= i < s.len(),
        forall|a: int| 0 <= a < i ==> s[a].nombre != s[i].nombre,
    ensures
        indice_nombre_insumo(s, s[i].nombre) == Some(i),
{
    let n = s[i].nombre;
    assert(exists|k: int| 0 <= k < s.len() && s[k].nombre == n);
    let k = choose|k: int| 0 <= k < s.len() && s[k].nombre == n && forall|j: int| 0 <= j < k ==> s[j].nombre != n;
    assert(k == i);
}

/// Si algún insumo tiene ese identificador, el índice elegido es el del primero.
pub proof fn lema_indice_id_insumo(s: Seq<InsumoVista>, id: Seq<char>)
    ensures
        match indice_id_insumo(s, id) {
            Some(i) => 0 <= i < s.len() && s[i].id == id && forall|j: int| 0 <= j < i ==> s[j].id != id,
            None => forall|j: int| 0 <= j < s.len() ==> s[j].id != id,
        },
{
    if exists|i: int| 0 <= i < s.len() && s[i].id == id {
        let k = choose|i: int| 0 <= i < s.len() && s[i].id == id;
        lema_primero_id(s, id, k);
    }
}

proof fn lema_primero_id(s: Seq<InsumoVista>, id: Seq<char>, k: int)
    requires
        0 <= k < s.len(),
        s[k].id == id,
    ensures
        exists|m: int| 0 <= m < s.len() && s[m].id == id && forall|j: int| 0 <= j < m ==> s[j].id != id,
    decreases k,
{
    if exists|j: int| 0 <= j < k && s[j].id == id {
        let j = choose|j: int| 0 <= j < k && s[j].id == id;
        lema_primero_id(s, id, j);
    } else {
        assert(forall|j: int| 0 <= j < k ==> s[j].id != id);
    }
}

/// Si algún insumo tiene ese nombre, el índice elegido es el del primero.
pub proof fn lema_indice_nombre_insumo(s: Seq<InsumoVista>, n: Seq<char>)
    ensures
        match indice_nombre_insumo(s, n) {
            Some(i) => 0 <= i < s.len() && s[i].nombre == n && forall|j: int| 0 <= j < i ==> s[j].nombre != n,
            None => forall|j: int| 0 <= j < s.len() ==> s[j].nombre != n,
        },
{
    if exists|i: int| 0 <= i < s.len() && s[i].nombre == n {
        let k = choose|i: int| 0 <= i < s.len() && s[i].nombre == n;
        lema_primero_nombre(s, n, k);
    }
}

proof fn lema_primero_nombre(s: Seq<InsumoVista>, n: Seq<char>, k: int)
    requires
        0 <= k < s.len(),
        s[k].nombre == n,
    ensures
        exists|m: int| 0 <= m < s.len() && s[m].nombre == n && forall|j: int| 0 <= j < m ==> s[j].nombre != n,
    decreases k,
{
    if exists|j: int| 0 <= j < k && s[j].nombre == n {
        let j = choose|j: int| 0 <= j < k && s[j].nombre == n;
        lema_primero_nombre(s, n, j);
    } else {
        assert(forall|j: int| 0 <= j < k ==> s[j].nombre != n);
    }
}

/// Posición donde entra un insumo con esa clave.
fn posicion_insumo(filas: &Vec<Insumo>, clave: &[u8]) -> (p: usize)
    ensures
        p == pos_insercion(claves_insumos(vista_insumos(filas@)), clave@),
{
    let ghost k = claves_insumos(vista_insumos(filas@));
    let mut i: usize = 0;
    assert(k.skip(0) =~= k);
    while i < filas.len()
        invariant
            k == claves_insumos(vista_insumos(filas@)),
            i <= filas@.len(),
            pos_insercion(k, clave@) == i + pos_insercion(k.skip(i as int), clave@),
        decreases filas@.len() - i,
    {
        let b = filas[i].nombre().as_str().as_bytes();
        assert(b@ == k[i as int]);
        assert(k.skip(i as int)[0] == k[i as int]);
        match comparar_bytes(clave, b) {
            Comparacion::Menor => {
                return i;
            },
            _ => {},
        }
        assert(k.skip(i as int).drop_first() =~= k.skip(i + 1));
        i = i + 1;
    }
    i
}

/// Otro insumo, distinto del de índice `i`, tiene ese nombre.
pub open spec fn otro_con_nombre_insumo(s: Seq<InsumoVista>, i: int, n: Seq<char>) -> bool {
    exists|j: int| 0 <= j < s.len() && j != i && s[j].nombre == n
}

impl AlmacenEnMemoria {
    #[verifier::type_invariant]
    spec fn invariante(self) -> bool {
        almacen_valido(vista_insumos(self.filas@))
    }

    /// Tabla vacía.
    pub fn nuevo() -> (r: AlmacenEnMemoria)
        ensures
            r@ == Seq::<InsumoVista>::empty(),
    {
        let r = AlmacenEnMemoria { filas: Vec::new() };
        assert(vista_insumos(r.filas@) =~= Seq::<InsumoVista>::empty());
        r
    }

    /// Inserta un insumo; como la tabla, rechaza un identificador o un nombre
    /// ya presentes.
    pub fn anadir(&mut self, insumo: Insumo) -> (r: AppResult<()>)
        ensures
            indice_id_insumo(old(self)@, insumo@.id) is Some ==> (r matches Err(e) && e@ == ErrorVista::DbError(
                "UNIQUE constraint failed: insumos.id"@,
            ) && final(self)@ == old(self)@),
            indice_id_insumo(old(self)@, insumo@.id) is None && indice_nombre_insumo(old(self)@, insumo@.nombre) is Some
                ==> (r matches Err(e) && e@ == ErrorVista::DbError("UNIQUE constraint failed: insumos.nombre"@)
                && final(self)@ == old(self)@),
            indice_id_insumo(old(self)@, insumo@.id) is None && indice_nombre_insumo(old(self)@, insumo@.nombre) is None
                ==> r is Ok && final(self)@ == old(self)@.insert(
                pos_insercion(claves_insumos(old(self)@), encode_utf8(insumo@.nombre)) as int,
                insumo@,
            ),
    {
        proof {
            use_type_invariant(&*self);
        }
        let id = insumo.obtener_id();
        if self.buscar_id(&id).is_some() {
            return Err(AppError::DbError(copiar("UNIQUE constraint failed: insumos.id")));
        }
        if self.buscar_nombre(insumo.nombre()).is_some() {
            return Err(AppError::DbError(copiar("UNIQUE constraint failed: insumos.nombre")));
        }
        let p = posicion_insumo(&self.filas, insumo.nombre().as_str().as_bytes());
        let ghost viejo = self@;
        let ghost v = insumo@;
        proof {
            lema_pos_insercion_acotada(claves_insumos(viejo), encode_utf8(v.nombre));
        }
        let mut filas: Vec<Insumo> = Vec::new();
        std::mem::swap(&mut filas, &mut self.filas);
        filas.insert(p, insumo);
        proof {
            assert(vista_insumos(filas@) =~= viejo.insert(p as int, v));
            assert(claves_insumos(viejo.insert(p as int, v)) =~= claves_insumos(viejo).insert(p as int, encode_utf8(v.nombre)));
            lema_insertar_ordenado(claves_insumos(viejo), encode_utf8(v.nombre));
            let n = viejo.insert(p as int, v);
            assert forall|i: int, j: int| 0 <= i < j < n.len() implies (#[trigger] n[i]).id != (#[trigger] n[j]).id
                && n[i].nombre != n[j].nombre by {
                if i == p {
                    assert(n[j] == viejo[j - 1]);
                } else if j == p {
                    assert(n[i] == viejo[i]);
                } else {
                    let i2 = if i < p { i } else { i - 1 };
                    let j2 = if j < p { j } else { j - 1 };
                    assert(n[i] == viejo[i2] && n[j] == viejo[j2]);
                }
            }
        }
        self.filas = filas;
        Ok(())
    }

    /// Borra el insumo de ese nombre.
    pub fn eliminar(&mut self, nombre: &String) -> (r: AppResult<()>)
        ensures
            match indice_nombre_insumo(old(self)@, nombre@) {
                None => r matches Err(e) && e@ == dato_invalido(
                    "En obtener id: No se encontro el insumo: "@ + nombre@,
                ) && final(self)@ == old(self)@,
                Some(i) => r is Ok && final(self)@ == old(self)@.remove(i),
            },
    {
        proof {
            use_type_invariant(&*self);
        }
        let i = match self.buscar_nombre(nombre) {
            Some(i) => i,
            None => {
                return Err(AppError::DatoInvalido(unir2("En obtener id: No se encontro el insumo: ", nombre.as_str())));
            },
        };
        let ghost viejo = self@;
        let mut filas: Vec<Insumo> = Vec::new();
        std::mem::swap(&mut filas, &mut self.filas);
        filas.remove(i);
        proof {
            assert(vista_insumos(filas@) =~= viejo.remove(i as int));
            assert(claves_insumos(viejo.remove(i as int)) =~= claves_insumos(viejo).remove(i as int));
            lema_quitar_ordenado(claves_insumos(viejo), i as int);
            let n = viejo.remove(i as int);
            assert forall|a: int, b: int| 0 <= a < b < n.len() implies (#[trigger] n[a]).id != (#[trigger] n[b]).id
                && n[a].nombre != n[b].nombre by {
                let a2 = if a < i { a } else { a + 1 };
                let b2 = if b < i { b } else { b + 1 };
                assert(n[a] == viejo[a2] && n[b] == viejo[b2]);
            }
        }
        self.filas = filas;
        Ok(())
    }

    /// El insumo de ese nombre.
    pub fn obtener(&self, busqueda: &String) -> (r: AppResult<Insumo>)
        ensures
            match indice_nombre_insumo(self@, busqueda@) {
                None => r matches Err(e) && e@ == dato_invalido(
                    "En obtener id: No se encontro el insumo: "@ + busqueda@,
                ),
                Some(i) => r matches Ok(x) && x@ == self@[i] && indice_id_insumo(self@, x@.id) == Some(i),
            },
            almacen_valido(self@),
    {
        proof {
            use_type_invariant(self);
        }
        match self.buscar_nombre(busqueda) {
            Some(i) => {
                proof {
                    lema_indice_unico_id(self@, i as int);
                }
                Ok(self.filas[i].copia())
            },
            None => Err(AppError::DatoInvalido(unir2("En obtener id: No se encontro el insumo: ", busqueda.as_str()))),
        }
    }

    /// Nombres de todos los insumos, en orden de nombre.
    pub fn mostrar_todos(&self) -> (r: Vec<String>)
        ensures
            r@.map_values(|s: String| s@) == nombres_insumos(self@),
            almacen_valido(self@),
    {
        proof {
            use_type_invariant(self);
        }
        let mut r: Vec<String> = Vec::new();
        let mut i: usize = 0;
        while i < self.filas.len()
            invariant
                i <= self.filas@.len(),
                r@.map_values(|s: String| s@) == nombres_insumos(self@).take(i as int),
            decreases self.filas@.len() - i,
        {
            let ghost antes = r@;
            r.push(self.filas[i].nombre().clone());
            proof {
                assert(r@.map_values(|s: String| s@) =~= antes.map_values(|s: String| s@).push(self@[i as int].nombre));
                assert(nombres_insumos(self@).take(i + 1) =~= nombres_insumos(self@).take(i as int).push(self@[i as int].nombre));
            }
            i = i + 1;
        }
        assert(nombres_insumos(self@).take(i as int) =~= nombres_insumos(self@));
        r
    }

    /// Copia de todos los insumos, en orden de nombre.
    pub fn obtener_todos(&self) -> (r: Vec<Insumo>)
        ensures
            vista_insumos(r@) == self@,
    {
        let mut r: Vec<Insumo> = Vec::new();
        let mut i: usize = 0;
        while i < self.filas.len()
            invariant
                i <= self.filas@.len(),
                vista_insumos(r@) == self@.take(i as int),
            decreases self.filas@.len() - i,
        {
            let ghost antes = r@;
            r.push(self.filas[i].copia());
            proof {
                assert(vista_insumos(r@) =~= vista_insumos(antes).push(self@[i as int]));
                assert(self@.take(i + 1) =~= self@.take(i as int).push(self@[i as int]));
            }
            i = i + 1;
        }
        assert(self@.take(i as int) =~= self@);
        r
    }

    /// Identificador del insumo de ese nombre.
    pub fn obtener_id_con_nombre(&self, nombre: &String) -> (r: AppResult<String>)
        ensures
            match indice_nombre_insumo(self@, nombre@) {
                None => r matches Err(e) && e@ == dato_invalido(
                    "En obtener id: No se encontro el insumo: "@ + nombre@,
                ),
                Some(i) => r matches Ok(x) && x@ == self@[i].id,
            },
    {
        match self.buscar_nombre(nombre) {
            Some(i) => Ok(self.filas[i].obtener_id()),
            None => Err(AppError::DatoInvalido(unir2("En obtener id: No se encontro el insumo: ", nombre.as_str()))),
        }
    }

    /// Nombre del insumo con ese identificador.
    pub fn obtener_nombre_con_id(&self, id: &String) -> (r: AppResult<String>)
        ensures
            match indice_id_insumo(self@, id@) {
                None => r matches Err(e) && e@ == dato_invalido("No se encontro el insumo con id: "@ + id@),
                Some(i) => r matches Ok(x) && x@ == self@[i].nombre,
            },
    {
        match self.buscar_id(id) {
            Some(i) => Ok(self.filas[i].nombre().clone()),
            None => Err(AppError::DatoInvalido(unir2("No se encontro el insumo con id: ", id.as_str()))),
        }
    }

    /// Fija la cantidad del insumo con ese identificador.
    pub fn usar_insumo(&mut self, nueva_cantidad: u32, id: &String) -> (r: AppResult<()>)
        ensures
            match indice_id_insumo(old(self)@, id@) {
                None => r matches Err(e) && e@ == dato_invalido(
                    "No se encontro el insumo con ID "@ + id@ + " para actualizar la cantidad del insumo."@,
                ) && final(self)@ == old(self)@,
                Some(i) => r is Ok && final(self)@ == old(self)@.update(
                    i,
                    InsumoVista { cantidad: nueva_cantidad, ..old(self)@[i] },
                ),
            },
    {
        proof {
            use_type_invariant(&*self);
        }
        let i = match self.buscar_id(id) {
            Some(i) => i,
            None => {
                return Err(AppError::DatoInvalido(unir3(
                    "No se encontro el insumo con ID ",
                    id.as_str(),
                    " para actualizar la cantidad del insumo.",
                )));
            },
        };
        let fila = &self.filas[i];
        let nueva = match Insumo::crear_desde_db(
            fila.obtener_id(),
            fila.nombre().clone(),
            nueva_cantidad,
            fila.obtener_cantidad_minima(),
            fila.obtener_precio(),
        ) {
            Ok(x) => x,
            Err(e) => {
                return Err(e);
            },
        };
        let ghost viejo = self@;
        let mut filas: Vec<Insumo> = Vec::new();
        std::mem::swap(&mut filas, &mut self.filas);
        filas.set(i, nueva);
        proof {
            assert(vista_insumos(filas@) =~= viejo.update(i as int, InsumoVista { cantidad: nueva_cantidad, ..viejo[i as int] }));
            assert(claves_insumos(vista_insumos(filas@)) =~= claves_insumos(viejo));
            let n = vista_insumos(filas@);
            assert forall|a: int, b: int| 0 <= a < b < n.len() implies (#[trigger] n[a]).id != (#[trigger] n[b]).id
                && n[a].nombre != n[b].nombre by {
                assert(n[a].id == viejo[a].id && n[a].nombre == viejo[a].nombre);
                assert(n[b].id == viejo[b].id && n[b].nombre == viejo[b].nombre);
            }
        }
        self.filas = filas;
        Ok(())
    }

    /// Guarda los datos de un insumo en la fila de su identificador; rechaza
    /// un nombre que ya tiene otro insumo.
    pub fn editar_insumo(&mut self, insumo: Insumo) -> (r: AppResult<()>)
        ensures
            match indice_id_insumo(old(self)@, insumo@.id) {
                None => r matches Err(e) && e@ == error_personal(
                    "No se guardaron los cambios en: "@ + insumo@.nombre,
                ) && final(self)@ == old(self)@,
                Some(i) => if otro_con_nombre_insumo(old(self)@, i, insumo@.nombre) {
                    r matches Err(e) && e@ == ErrorVista::DbError("UNIQUE constraint failed: insumos.nombre"@)
                        && final(self)@ == old(self)@
                } else {
                    r is Ok && final(self)@ == old(self)@.remove(i).insert(
                        pos_insercion(claves_insumos(old(self)@.remove(i)), encode_utf8(insumo@.nombre)) as int,
                        insumo@,
                    )
                },
            },
    {
        proof {
            use_type_invariant(&*self);
        }
        let id = insumo.obtener_id();
        let i = match self.buscar_id(&id) {
            Some(i) => i,
            None => {
                return Err(AppError::ErrorPersonal(unir2("No se guardaron los cambios en: ", insumo.nombre().as_str())));
            },
        };
        let mut j: usize = 0;
        while j < self.filas.len()
            invariant
                j <= self.filas@.len(),
                i < self.filas@.len(),
                indice_id_insumo(self@, insumo@.id) == Some(i as int),
                forall|t: int| 0 <= t < j && t != i ==> self@[t].nombre != insumo@.nombre,
            decreases self.filas@.len() - j,
        {
            if j != i && *self.filas[j].nombre() == *insumo.nombre() {
                assert(self@[j as int].nombre == insumo@.nombre);
                assert(otro_con_nombre_insumo(self@, i as int, insumo@.nombre));
                return Err(AppError::DbError(copiar("UNIQUE constraint failed: insumos.nombre")));
            }
            j = j + 1;
        }
        let ghost viejo = self@;
        let ghost v = insumo@;
        assert(!otro_con_nombre_insumo(viejo, i as int, v.nombre));
        let mut filas: Vec<Insumo> = Vec::new();
        std::mem::swap(&mut filas, &mut self.filas);
        filas.remove(i);
        proof {
            assert(vista_insumos(filas@) =~= viejo.remove(i as int));
            assert(claves_insumos(viejo.remove(i as int)) =~= claves_insumos(viejo).remove(i as int));
            lema_quitar_ordenado(claves_insumos(viejo), i as int);
        }
        let ghost medio = vista_insumos(filas@);
        let p = posicion_insumo(&filas, insumo.nombre().as_str().as_bytes());
        proof {
            lema_pos_insercion_acotada(claves_insumos(medio), encode_utf8(v.nombre));
        }
        filas.insert(p, insumo);
        proof {
            assert(vista_insumos(filas@) =~= medio.insert(p as int, v));
            assert(claves_insumos(medio.insert(p as int, v)) =~= claves_insumos(medio).insert(p as int, encode_utf8(v.nombre)));
            lema_insertar_ordenado(claves_insumos(medio), encode_utf8(v.nombre));
            let n = medio.insert(p as int, v);
            assert(v.id == viejo[i as int].id);
            assert forall|a: int, b: int| 0 <= a < b < n.len() implies (#[trigger] n[a]).id != (#[trigger] n[b]).id
                && n[a].nombre != n[b].nombre by {
                let idx = |x: int| if x < p { x } else { x - 1 };
                let orig = |y: int| if y < i { y } else { y + 1 };
                if a == p {
                    assert(n[b] == medio[b - 1]);
                    assert(medio[b - 1] == viejo[orig(b - 1)]);
                    assert(orig(b - 1) != i);
                } else if b == p {
                    assert(n[a] == medio[a]);
                    assert(medio[a] == viejo[orig(a)]);
                    assert(orig(a) != i);
                } else {
                    assert(n[a] == medio[idx(a)] && n[b] == medio[idx(b)]);
                    assert(medio[idx(a)] == viejo[orig(idx(a))]);
                    assert(medio[idx(b)] == viejo[orig(idx(b))]);
                }
            }
        }
        self.filas = filas;
        Ok(())
    }

    /// Índice del primer insumo con ese identificador.
    fn buscar_id(&self, id: &String) -> (r: Option<usize>)
        ensures
            match r {
                Some(i) => indice_id_insumo(self@, id@) == Some(i as int),
                None => indice_id_insumo(self@, id@) is None,
            },
            r matches Some(i) ==> i < self@.len(),
    {
        let mut i: usize = 0;
        while i < self.filas.len()
            invariant
                i <= self.filas@.len(),
                forall|j: int| 0 <= j < i ==> self@[j].id != id@,
            decreases self.filas@.len() - i,
        {
            if self.filas[i].obtener_id() == *id {
                proof {
                    lema_indice_unico_id(self@, i as int);
                }
                return Some(i);
            }
            i = i + 1;
        }
        None
    }

    /// Índice del primer insumo con ese nombre.
    fn buscar_nombre(&self, nombre: &String) -> (r: Option<usize>)
        ensures
            match r {
                Some(i) => indice_nombre_insumo(self@, nombre@) == Some(i as int),
                None => indice_nombre_insumo(self@, nombre@) is None,
            },
            r matches Some(i) ==> i < self@.len(),
    {
        let mut i: usize = 0;
        while i < self.filas.len()
            invariant
                i <= self.filas@.len(),
                forall|j: int| 0 <= j < i ==> self@[j].nombre != nombre@,
            decreases self.filas@.len() - i,
        {
            if *self.filas[i].nombre() == *nombre {
                proof {
                    lema_indice_unico_nombre(self@, i as int);
                }
                return Some(i);
            }
            i = i + 1;
        }
        None
    }
}

} // verus!
