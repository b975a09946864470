//! Proveedores: la tabla `proveedores` en memoria (en orden de llegada, cada
//! proveedor nombrado por su marca) y su servicio.
use vstd::prelude::*;
use vstd::utf8::encode_utf8;
use crate::busqueda::{buscar_en, contiene_nombre, resultado_busqueda, vista_textos};
use crate::error::{AppError, AppResult, ErrorVista};
use crate::negocio::{dato_invalido, Proveedor, ProveedorVista};
use crate::orden::{claves_nombres, lema_ordenar_contiene, lema_ordenar_ordenada, lema_pos_insercion_acotada, ordenadas, ordenar_nombres, posicion_nombre};
use crate::texto::{copiar, unir2, unir3};

verus! {

/// Vista de una lista de proveedores.
pub open spec fn vista_proveedores(v: Seq<Proveedor>) -> Seq<ProveedorVista> {
    v.map_values(|p: Proveedor| p@)
}

/// Marcas de los proveedores, en orden de llegada.
pub open spec fn marcas(s: Seq<ProveedorVista>) -> Seq<Seq<char>> {
    s.map_values(|p: ProveedorVista| p.marca)
}

/// Índice del primer proveedor de esa marca.
pub open spec fn indice_marca(s: Seq<ProveedorVista>, m: Seq<char>) -> Option<int> {
    if exists|i: int| 0 <= i < s.len() && s[i].marca == m {
        Some(choose|i: int| 0 <= i < s.len() && s[i].marca == m && forall|j: int| 0 <= j < i ==> s[j].marca != m)
    } else {
        None
    }
}

/// Índice del primer proveedor con ese identificador.
pub open spec fn indice_id_proveedor(s: Seq<ProveedorVista>, id: Seq<char>) -> Option<int> {
    if exists|i: int| 0 <= i < s.len() && s[i].id == id {
        Some(choose|i: int| 0 <= i < s.len() && s[i].id == id && forall|j: int| 0 <= j < i ==> s[j].id != id)
    } else {
        None
    }
}

/// Las filas tras guardar los datos de `p` en todas las filas de su identificador.
pub open spec fn proveedores_editados(s: Seq<ProveedorVista>, p: ProveedorVista) -> Seq<ProveedorVista> {
    s.map_values(
        |f: ProveedorVista|
            if f.id == p.id {
                ProveedorVista { id: f.id, marca: p.marca, numero_contacto: p.numero_contacto, producto: p.producto }
            } else {
                f
            },
    )
}

/// Error de una marca que no está en la tabla.
pub open spec fn proveedor_no_encontrado(m: Seq<char>) -> ErrorVista {
    dato_invalido("En obtener id: No se encontro el provedor : "@ + m)
}

/// Las filas sin las de ese identificador, en el mismo orden.
pub open spec fn sin_proveedor(s: Seq<ProveedorVista>, id: Seq<char>) -> Seq<ProveedorVista>
    decreases s.len(),
{
    if s.len() == 0 {
        Seq::empty()
    } else if s.last().id == id {
        sin_proveedor(s.drop_last(), id)
    } else {
        sin_proveedor(s.drop_last(), id).push(s.last())
    }
}

proof fn lema_primera_marca(s: Seq<ProveedorVista>, m: Seq<char>, k: int)
    requires
        0 <= k < s.len(),
        s[k].marca == m,
    ensures
        exists|x: int| 0 <= x < s.len() && s[x].marca == m && forall|j: int| 0 <= j < x ==> s[j].marca != m,
    decreases k,
{
    if exists|j: int| 0 <= j < k && s[j].marca == m {
        let j = choose|j: int| 0 <= j < k && s[j].marca == m;
        lema_primera_marca(s, m, j);
    }
}

proof fn lema_primer_id(s: Seq<ProveedorVista>, id: Seq<char>, k: int)
    requires
        0 <= k < s.len(),
        s[k].id == id,
    ensures
        exists|x: int| 0 <= x < s.len() && s[x].id == id && forall|j: int| 0 <= j < x ==> s[j].id != id,
    decreases k,
{
    if exists|j: int| 0 <= j < k && s[j].id == id {
        let j = choose|j: int| 0 <= j < k && s[j].id == id;
        lema_primer_id(s, id, j);
    }
}

/// El índice elegido por marca es el del primer proveedor de esa marca.
pub proof fn lema_indice_marca(s: Seq<ProveedorVista>, m: Seq<char>)
    ensures
        match indice_marca(s, m) {
            Some(i) => 0 <= i < s.len() && s[i].marca == m && forall|j: int| 0 <= j < i ==> s[j].marca != m,
            None => forall|j: int| 0 <= j < s.len() ==> s[j].marca != m,
        },
        indice_marca(s, m) is Some <==> marcas(s).contains(m),
{
    if exists|i: int| 0 <= i < s.len() && s[i].marca == m {
        let k = choose|i: int| 0 <= i < s.len() && s[i].marca == m;
        lema_primera_marca(s, m, k);
        assert(marcas(s)[k] == m);
    }
    if marcas(s).contains(m) {
        let k = choose|k: int| 0 <= k < marcas(s).len() && marcas(s)[k] == m;
        assert(s[k].marca == m);
    }
}

/// El índice elegido por identificador es el del primer proveedor con ese identificador.
pub proof fn lema_indice_id_proveedor(s: Seq<ProveedorVista>, id: Seq<char>)
    ensures
        match indice_id_proveedor(s, id) {
            Some(i) => 0 <= i < s.len() && s[i].id == id && forall|j: int| 0 <= j < i ==> s[j].id != id,
            None => forall|j: int| 0 <= j < s.len() ==> s[j].id != id,
        },
{
    if exists|i: int| 0 <= i < s.len() && s[i].id == id {
        let k = choose|i: int| 0 <= i < s.len() && s[i].id == id;
        lema_primer_id(s, id, k);
    }
}

/// Tabla `proveedores`: filas en orden de llegada.
pub struct ProveedoresDB {
    filas: Vec<Proveedor>,
}

impl View for ProveedoresDB {
    type V = Seq<ProveedorVista>;

    closed spec fn view(&self) -> Seq<ProveedorVista> {
        vista_proveedores(self.filas@)
    }
}

/// Copia de un proveedor.
fn copiar_proveedor(p: &Proveedor) -> (r: Proveedor)
    ensures
        r@ == p@,
{
    Proveedor::crear_desde_db(p.obtener_id(), p.obtener_marca(), p.obtener_numero(), p.obtener_producto())
}

impl ProveedoresDB {
    /// Tabla vacía.
    pub fn nuevo() -> (r: ProveedoresDB)
        ensures
            r@ == Seq::<ProveedorVista>::empty(),
    {
        let r = ProveedoresDB { filas: Vec::new() };
        assert(r@ =~= Seq::<ProveedorVista>::empty());
        r
    }

    fn buscar_marca(&self, marca: &str) -> (r: Option<usize>)
        ensures
            match r {
                Some(i) => indice_marca(self@, marca@) == Some(i as int),
                None => indice_marca(self@, marca@) is None,
            },
            r matches Some(i) ==> i < self@.len(),
    {
        let m = copiar(marca);
        let mut i: usize = 0;
        while i < self.filas.len()
            invariant
                m@ == marca@,
                i <= self@.len(),
                forall|j: int| 0 <= j < i ==> self@[j].marca != marca@,
            decreases self@.len() - i,
        {
            if self.filas[i].obtener_marca() == m {
                proof {
                    assert(self@[i as int] == self.filas@[i as int]@);
                    assert(self@[i as int].marca == marca@);
                    lema_indice_marca(self@, marca@);
                    let k = indice_marca(self@, marca@)->0;
                    assert(k == i) by {
                        if k < i {
                            assert(self@[k].marca != marca@);
                        } else if i < k {
                            assert(self@[i as int].marca != marca@);
                        }
                    }
                }
                return Some(i);
            }
            i = i + 1;
        }
        proof {
            lema_indice_marca(self@, marca@);
        }
        None
    }

    fn buscar_id(&self, id: &str) -> (r: Option<usize>)
        ensures
            match r {
                Some(i) => indice_id_proveedor(self@, id@) == Some(i as int),
                None => indice_id_proveedor(self@, id@) is None,
            },
            r matches Some(i) ==> i < self@.len(),
    {
        let n = copiar(id);
        let mut i: usize = 0;
        while i < self.filas.len()
            invariant
                n@ == id@,
                i <= self@.len(),
                forall|j: int| 0 <= j < i ==> self@[j].id != id@,
            decreases self@.len() - i,
        {
            if self.filas[i].obtener_id() == n {
                proof {
                    assert(self@[i as int] == self.filas@[i as int]@);
                    assert(self@[i as int].id == id@);
                    lema_indice_id_proveedor(self@, id@);
                    let k = indice_id_proveedor(self@, id@)->0;
                    assert(k == i) by {
                        if k < i {
                            assert(self@[k].id != id@);
                        } else if i < k {
                            assert(self@[i as int].id != id@);
                        }
                    }
                }
                return Some(i);
            }
            i = i + 1;
        }
        proof {
            lema_indice_id_proveedor(self@, id@);
        }
        None
    }

    /// Agrega un proveedor al final.
    pub fn crear(&mut self, datos: Proveedor) -> (r: AppResult<()>)
        ensures
            r is Ok,
            final(self)@ == old(self)@.push(datos@),
    {
        self.filas.push(datos);
        assert(self@ =~= old(self)@.push(datos@));
        Ok(())
    }

    /// Guarda marca, número y producto de `datos` en las filas de su
    /// identificador; si no hay ninguna, no guarda nada.
    pub fn editar(&mut self, datos: Proveedor) -> (r: AppResult<()>)
        ensures
            indice_id_proveedor(old(self)@, datos@.id) is None ==> (r matches Err(e) && e@ == crate::negocio::error_personal(
                "No se guardaron los cambios en: "@ + datos@.marca,
            ) && final(self)@ == old(self)@),
            indice_id_proveedor(old(self)@, datos@.id) is Some ==> r is Ok && final(self)@ == proveedores_editados(
                old(self)@,
                datos@,
            ),
    {
        let id = datos.obtener_id();
        if self.buscar_id(id.as_str()).is_none() {
            return Err(AppError::ErrorPersonal(unir2("No se guardaron los cambios en: ", datos.obtener_marca().as_str())));
        }
        let ghost viejo = self@;
        let ghost p = datos@;
        let mut filas: Vec<Proveedor> = Vec::new();
        let mut i: usize = 0;
        while i < self.filas.len()
            invariant
                viejo == self@,
                p == datos@,
                id@ == p.id,
                i <= viejo.len(),
                vista_proveedores(filas@) == proveedores_editados(viejo, p).take(i as int),
            decreases viejo.len() - i,
        {
            let f = &self.filas[i];
            let nueva = if f.obtener_id() == id {
                Proveedor::crear_desde_db(id.clone(), datos.obtener_marca(), datos.obtener_numero(), datos.obtener_producto())
            } else {
                copiar_proveedor(f)
            };
            let ghost antes = filas@;
            filas.push(nueva);
            proof {
                assert(vista_proveedores(filas@) =~= vista_proveedores(antes).push(nueva@));
                assert(proveedores_editados(viejo, p).take(i + 1) =~= proveedores_editados(viejo, p).take(i as int).push(
                    proveedores_editados(viejo, p)[i as int],
                ));
            }
            i = i + 1;
        }
        proof {
            assert(proveedores_editados(viejo, p).take(i as int) =~= proveedores_editados(viejo, p));
        }
        self.filas = filas;
        Ok(())
    }

    /// Identificador del primer proveedor de esa marca.
    pub fn id_con_nombre(&self, nombre: &str) -> (r: AppResult<String>)
        ensures
            match indice_marca(self@, nombre@) {
                None => r matches Err(e) && e@ == proveedor_no_encontrado(nombre@),
                Some(i) => r matches Ok(x) && x@ == self@[i].id,
            },
    {
        match self.buscar_marca(nombre) {
            Some(i) => Ok(self.filas[i].obtener_id()),
            None => Err(AppError::DatoInvalido(unir2("En obtener id: No se encontro el provedor : ", nombre))),
        }
    }

    /// Marca del primer proveedor con ese identificador.
    pub fn nombre_con_id(&self, id: &str) -> (r: AppResult<String>)
        ensures
            match indice_id_proveedor(self@, id@) {
                None => r matches Err(e) && e@ == dato_invalido("No se encontro el insumo con id: "@ + id@),
                Some(i) => r matches Ok(x) && x@ == self@[i].marca,
            },
    {
        match self.buscar_id(id) {
            Some(i) => Ok(self.filas[i].obtener_marca()),
            None => Err(AppError::DatoInvalido(unir2("No se encontro el insumo con id: ", id))),
        }
    }

    /// El proveedor de esa marca: el primero con el identificador del primero
    /// de esa marca.
    pub fn obtener(&self, busqueda: &str) -> (r: AppResult<Proveedor>)
        ensures
            match indice_marca(self@, busqueda@) {
                None => r matches Err(e) && e@ == proveedor_no_encontrado(busqueda@),
                Some(i) => r matches Ok(x) && x@ == self@[indice_id_proveedor(self@, self@[i].id)->0],
            },
    {
        let id = match self.id_con_nombre(busqueda) {
            Ok(x) => x,
            Err(e) => {
                return Err(e);
            },
        };
        proof {
            lema_indice_marca(self@, busqueda@);
            lema_indice_id_proveedor(self@, id@);
            let i = indice_marca(self@, busqueda@)->0;
            assert(self@[i].id == id@);
        }
        match self.buscar_id(id.as_str()) {
            Some(j) => Ok(copiar_proveedor(&self.filas[j])),
            None => Err(AppError::DatoInvalido(unir2("Proveedor: ", busqueda))),
        }
    }

    /// Borra todas las filas con el identificador del primer proveedor de esa marca.
    pub fn eliminar(&mut self, nombre: &str) -> (r: AppResult<()>)
        ensures
            match indice_marca(old(self)@, nombre@) {
                None => r matches Err(e) && e@ == proveedor_no_encontrado(nombre@) && final(self)@ == old(self)@,
                Some(i) => r is Ok && final(self)@ == sin_proveedor(old(self)@, old(self)@[i].id),
            },
    {
        let id = match self.id_con_nombre(nombre) {
            Ok(x) => x,
            Err(e) => {
                return Err(e);
            },
        };
        let ghost viejo = self@;
        let mut filas: Vec<Proveedor> = Vec::new();
        let mut i: usize = 0;
        while i < self.filas.len()
            invariant
                viejo == self@,
                i <= viejo.len(),
                vista_proveedores(filas@) == sin_proveedor(viejo.take(i as int), id@),
            decreases viejo.len() - i,
        {
            let ghost antes = filas@;
            proof {
                assert(viejo.take(i + 1).drop_last() =~= viejo.take(i as int));
                assert(viejo.take(i + 1).last() == viejo[i as int]);
            }
            if self.filas[i].obtener_id() != id {
                filas.push(copiar_proveedor(&self.filas[i]));
                assert(vista_proveedores(filas@) =~= vista_proveedores(antes).push(viejo[i as int]));
            }
            i = i + 1;
        }
        proof {
            assert(viejo.take(i as int) =~= viejo);
        }
        self.filas = filas;
        Ok(())
    }

    /// Marcas de los proveedores, ordenadas (ver [`ordenar_nombres`]).
    pub fn listar(&self) -> (r: AppResult<Vec<String>>)
        ensures
            r matches Ok(v) && vista_textos(v@) == ordenar_nombres(marcas(self@)) && ordenadas(
                claves_nombres(vista_textos(v@)),
            ),
    {
        proof {
            lema_ordenar_ordenada(marcas(self@));
        }
        let ghost n = marcas(self@);
        let mut r: Vec<String> = Vec::new();
        let mut i: usize = 0;
        assert(vista_textos(r@) =~= ordenar_nombres(n.take(0)));
        while i < self.filas.len()
            invariant
                n == marcas(self@),
                i <= self@.len(),
                vista_textos(r@) == ordenar_nombres(n.take(i as int)),
            decreases self@.len() - i,
        {
            let marca = self.filas[i].obtener_marca();
            let p = posicion_nombre(&r, marca.as_str().as_bytes());
            proof {
                assert(n.take(i + 1).drop_last() =~= n.take(i as int));
                assert(n.take(i + 1).last() == marca@);
                lema_pos_insercion_acotada(claves_nombres(vista_textos(r@)), encode_utf8(marca@));
                lema_ordenar_contiene(n.take(i as int), marca@);
            }
            let ghost antes = r@;
            r.insert(p, marca);
            proof {
                assert(vista_textos(r@) =~= vista_textos(antes).insert(p as int, marca@));
            }
            i = i + 1;
        }
        proof {
            assert(n.take(i as int) =~= n);
        }
        Ok(r)
    }

    /// Filas de la tabla: identificador, marca, número y producto.
    pub fn filas(&self) -> (r: Vec<(String, String, String, String)>)
        ensures
            r@.len() == self@.len(),
            forall|i: int| 0 <= i < r@.len() ==> (#[trigger] r@[i]).0@ == self@[i].id && r@[i].1@ == self@[i].marca
                && r@[i].2@ == self@[i].numero_contacto && r@[i].3@ == self@[i].producto,
    {
        let mut r: Vec<(String, String, String, String)> = Vec::new();
        let mut i: usize = 0;
        while i < self.filas.len()
            invariant
                i <= self@.len(),
                r@.len() == i,
                forall|j: int| 0 <= j < i ==> (#[trigger] r@[j]).0@ == self@[j].id && r@[j].1@ == self@[j].marca
                    && r@[j].2@ == self@[j].numero_contacto && r@[j].3@ == self@[j].producto,
            decreases self@.len() - i,
        {
            let f = &self.filas[i];
            r.push((f.obtener_id(), f.obtener_marca(), f.obtener_numero(), f.obtener_producto()));
            i = i + 1;
        }
        r
    }
}

/// Servicio de proveedores.
///
/// Sus comprobaciones de existencia están invertidas o siempre se cumplen:
/// `agregar`, `eliminar` y `obtener` responden siempre con un error.
pub struct ServicioDeProveedores {
    repositorio: ProveedoresDB,
}

impl View for ServicioDeProveedores {
    type V = Seq<ProveedorVista>;

    closed spec fn view(&self) -> Seq<ProveedorVista> {
        self.repositorio@
    }
}

impl ServicioDeProveedores {
    /// Servicio sobre esa tabla.
    pub fn nuevo(repositorio: ProveedoresDB) -> (r: ServicioDeProveedores)
        ensures
            r@ == repositorio@,
    {
        ServicioDeProveedores { repositorio }
    }

    /// Vuelve a insertar un proveedor guardado, con su identificador.
    pub fn reinsertar(&mut self, id: String, marca: String, numero: String, producto: String) -> (r: AppResult<()>)
        ensures
            r is Ok,
            final(self)@ == old(self)@.push(
                ProveedorVista { id: id@, marca: marca@, numero_contacto: numero@, producto: producto@ },
            ),
    {
        let proveedor = Proveedor::crear_desde_db(id, marca, numero, producto);
        match self.repositorio.crear(proveedor) {
            Ok(_) => {},
            Err(e) => {
                return Err(e);
            },
        }
        Ok(())
    }

    /// Hay un proveedor de esa marca.
    pub fn existe(&self, nombre: &str) -> (r: AppResult<bool>)
        ensures
            r matches Ok(b) && b == marcas(self@).contains(nombre@),
    {
        let lista = match self.listar() {
            Ok(x) => x,
            Err(e) => {
                return Err(e);
            },
        };
        proof {
            lema_ordenar_contiene(marcas(self@), nombre@);
        }
        let n = copiar(nombre);
        Ok(contiene_nombre(&lista, &n))
    }

    /// Alta de un proveedor: como la consulta de existencia siempre responde,
    /// el alta se rechaza siempre como si la marca ya existiera.
    pub fn agregar(&mut self, marca: String, numero: String, producto: String) -> (r: AppResult<()>)
        ensures
            r matches Err(e) && e@ == dato_invalido("El proveedor: "@ + marca@ + ", ya existe"@),
            final(self)@ == old(self)@,
    {
        match self.existe(marca.as_str()) {
            Ok(_) => {
                return Err(AppError::DatoInvalido(unir3("El proveedor: ", marca.as_str(), ", ya existe")));
            },
            Err(_) => {},
        }
        let proveedor = match Proveedor::nuevo(marca, numero, producto) {
            Ok(p) => p,
            Err(e) => {
                return Err(e);
            },
        };
        self.repositorio.crear(proveedor)
    }

    /// Marca del primer proveedor con ese identificador.
    pub fn nombre_con_id(&self, id: String) -> (r: AppResult<String>)
        ensures
            match indice_id_proveedor(self@, id@) {
                None => r matches Err(e) && e@ == dato_invalido("No se encontro el insumo con id: "@ + id@),
                Some(i) => r matches Ok(x) && x@ == self@[i].marca,
            },
    {
        self.repositorio.nombre_con_id(id.as_str())
    }

    /// Identificador del primer proveedor de esa marca.
    pub fn id_con_nombre(&self, nombre: String) -> (r: AppResult<String>)
        ensures
            match indice_marca(self@, nombre@) {
                None => r matches Err(e) && e@ == proveedor_no_encontrado(nombre@),
                Some(i) => r matches Ok(x) && x@ == self@[i].id,
            },
    {
        self.repositorio.id_con_nombre(nombre.as_str())
    }

    /// Busca proveedores por marca (ver [`resultado_busqueda`]); sin
    /// proveedores, no hay resultado.
    pub fn buscar(&self, busqueda: &String) -> (r: AppResult<Vec<String>>)
        ensures
            self@.len() == 0 ==> (r matches Err(e) && e@ == dato_invalido("No se encontro el proveedor: "@ + busqueda@)),
            self@.len() > 0 ==> (r matches Ok(v) && vista_textos(v@) == resultado_busqueda(
                ordenar_nombres(marcas(self@)),
                busqueda@,
            )),
    {
        let proveedores = match self.repositorio.listar() {
            Ok(x) => x,
            Err(e) => {
                return Err(e);
            },
        };
        proof {
            lema_ordenar_contiene(marcas(self@), busqueda@);
        }
        if proveedores.len() == 0 {
            return Err(AppError::DatoInvalido(unir2("No se encontro el proveedor: ", busqueda.as_str())));
        }
        Ok(buscar_en(proveedores, busqueda.as_str()))
    }

    /// Marcas de los proveedores, ordenadas.
    pub fn listar(&self) -> (r: AppResult<Vec<String>>)
        ensures
            r matches Ok(v) && vista_textos(v@) == ordenar_nombres(marcas(self@)),
    {
        self.repositorio.listar()
    }

    /// Baja de un proveedor: si la marca existe responde que no existe, y si
    /// no existe la tabla no la encuentra; nada cambia.
    pub fn eliminar(&mut self, marca: &str) -> (r: AppResult<()>)
        ensures
            marcas(old(self)@).contains(marca@) ==> (r matches Err(e) && e@ == dato_invalido(
                "No existe el proveedor: "@ + marca@,
            )),
            !marcas(old(self)@).contains(marca@) ==> (r matches Err(e) && e@ == proveedor_no_encontrado(marca@)),
            final(self)@ == old(self)@,
    {
        proof {
            lema_indice_marca(self@, marca@);
        }
        if let Ok(true) = self.existe(marca) {
            return Err(AppError::DatoInvalido(unir2("No existe el proveedor: ", marca)));
        }
        match self.repositorio.eliminar(marca) {
            Ok(_) => {},
            Err(e) => {
                return Err(e);
            },
        }
        Ok(())
    }

    /// Consulta de un proveedor: si la marca existe responde que no existe, y
    /// si no existe la tabla no la encuentra.
    pub fn obtener(&self, busqueda: &str) -> (r: AppResult<Proveedor>)
        ensures
            marcas(self@).contains(busqueda@) ==> (r matches Err(e) && e@ == dato_invalido(
                "El proveedor: "@ + busqueda@ + ", no existe"@,
            )),
            !marcas(self@).contains(busqueda@) ==> (r matches Err(e) && e@ == proveedor_no_encontrado(busqueda@)),
    {
        proof {
            lema_indice_marca(self@, busqueda@);
        }
        if let Ok(true) = self.existe(busqueda) {
            return Err(AppError::DatoInvalido(unir3("El proveedor: ", busqueda, ", no existe")));
        }
        self.repositorio.obtener(busqueda)
    }

    /// Filas de la tabla: identificador, marca, número y producto.
    pub fn filas(&self) -> (r: Vec<(String, String, String, String)>)
        ensures
            r@.len() == self@.len(),
            forall|i: int| 0 <= i < r@.len() ==> (#[trigger] r@[i]).0@ == self@[i].id && r@[i].1@ == self@[i].marca
                && r@[i].2@ == self@[i].numero_contacto && r@[i].3@ == self@[i].producto,
    {
        self.repositorio.filas()
    }
}

} // verus!
