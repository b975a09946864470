//! Usuarios: la tabla `usuarios` en memoria (en orden de llegada, sin
//! restricciones de unicidad) y el servicio de altas, bajas, consultas e
//! inicio de sesión.
use vstd::prelude::*;
use vstd::utf8::encode_utf8;
use crate::busqueda::{buscar_en, contiene_nombre, resultado_busqueda, vista_textos};
use crate::error::{texto_error, AppError, AppResult, ErrorVista};
use crate::externos::{es_texto_uuid, verificacion_bcrypt, ResultadoBcrypt};
use crate::negocio::{dato_invalido, error_personal};
use crate::orden::{claves_nombres, lema_ordenar_contiene, lema_ordenar_ordenada, lema_pos_insercion_acotada, ordenadas, ordenar_nombres, posicion_nombre};
use crate::texto::{copiar, unir2, unir3};
use crate::usuario::{token_de, Usuario, UsuarioVista};

verus! {

// ---------------------------------------------------------------- Especificación

/// Vista de una lista de usuarios.
pub open spec fn vista_usuarios(v: Seq<Usuario>) -> Seq<UsuarioVista> {
    v.map_values(|u: Usuario| u@)
}

/// Nombres de los usuarios, en orden de llegada.
pub open spec fn nombres_usuarios(s: Seq<UsuarioVista>) -> Seq<Seq<char>> {
    s.map_values(|u: UsuarioVista| u.nombre)
}

/// Índice del primer usuario con ese nombre.
pub open spec fn indice_nombre_usuario(s: Seq<UsuarioVista>, n: Seq<char>) -> Option<int> {
    if exists|i: int| 0 <= i < s.len() && s[i].nombre == n {
        Some(choose|i: int| 0 <= i < s.len() && s[i].nombre == n && forall|j: int| 0 <= j < i ==> s[j].nombre != n)
    } else {
        None
    }
}

/// Índice del primer usuario con ese identificador.
pub open spec fn indice_id_usuario(s: Seq<UsuarioVista>, id: Seq<char>) -> Option<int> {
    if exists|i: int| 0 <= i < s.len() && s[i].id == id {
        Some(choose|i: int| 0 <= i < s.len() && s[i].id == id && forall|j: int| 0 <= j < i ==> s[j].id != id)
    } else {
        None
    }
}

/// El usuario que se lee por nombre: se toma el identificador del primero con
/// ese nombre y se lee el primero con ese identificador.
pub open spec fn usuario_por_nombre(s: Seq<UsuarioVista>, n: Seq<char>) -> Option<UsuarioVista> {
    match indice_nombre_usuario(s, n) {
        None => None,
        Some(i) => Some(s[indice_id_usuario(s, s[i].id)->0]),
    }
}

/// Error de un nombre de usuario que no está en la tabla.
pub open spec fn usuario_no_encontrado(n: Seq<char>) -> ErrorVista {
    dato_invalido("En obtener id: No se encontro el usuario : "@ + n)
}

/// Las filas tras guardar los datos de `u` en todas las filas de su identificador.
pub open spec fn filas_editadas(s: Seq<UsuarioVista>, u: UsuarioVista) -> Seq<UsuarioVista> {
    s.map_values(
        |f: UsuarioVista|
            if f.id == u.id {
                UsuarioVista { id: f.id, nombre: u.nombre, contra_token: u.contra_token, rol: u.rol }
            } else {
                f
            },
    )
}

/// Las filas sin las de ese identificador, en el mismo orden.
pub open spec fn sin_id(s: Seq<UsuarioVista>, id: Seq<char>) -> Seq<UsuarioVista>
    decreases s.len(),
{
    if s.len() == 0 {
        Seq::empty()
    } else if s.last().id == id {
        sin_id(s.drop_last(), id)
    } else {
        sin_id(s.drop_last(), id).push(s.last())
    }
}

/// Un usuario recién creado con esos datos: identificador con forma de UUID
/// y un hash bcrypt de la contraseña, de costo 12.
pub open spec fn usuario_nuevo(u: UsuarioVista, nombre: Seq<char>, rol: Seq<char>, contra: Seq<char>) -> bool {
    &&& u.nombre == nombre
    &&& u.rol == rol
    &&& es_texto_uuid(u.id)
    &&& u.contra_token.len() == 60
    &&& u.contra_token.subrange(0, 7) == "$2b$12$"@
    &&& verificacion_bcrypt(contra, u.contra_token) == ResultadoBcrypt::Ok(true)
}

/// Lo que responde [`ServicioDeUsuarios::verificar_usuario`]: el token del
/// usuario si la contraseña coincide con su hash.
pub open spec fn resultado_verificar(s: Seq<UsuarioVista>, contra: Seq<char>, usuario: Seq<char>) -> Result<
    Seq<char>,
    ErrorVista,
> {
    match usuario_por_nombre(s, usuario) {
        None => Err(usuario_no_encontrado(usuario)),
        Some(u) => match verificacion_bcrypt(contra, u.contra_token) {
            ResultadoBcrypt::Ok(true) => Ok(token_de(u)),
            ResultadoBcrypt::Ok(false) => Err(dato_invalido(texto_error(dato_invalido("Contraseña incorrecta."@)))),
            ResultadoBcrypt::Err(m) => Err(
                dato_invalido(texto_error(dato_invalido("Error al verificar hash: "@ + m))),
            ),
        },
    }
}

// ---------------------------------------------------------------- Lemas

proof fn lema_primero_nombre_usuario(s: Seq<UsuarioVista>, n: Seq<char>, k: int)
    requires
        0 <= k < s.len(),
        s[k].nombre == n,
    ensures
        exists|m: int| 0 <= m < s.len() && s[m].nombre == n && forall|j: int| 0 <= j < m ==> s[j].nombre != n,
    decreases k,
{
    if exists|j: int| 0 <= j < k && s[j].nombre == n {
        let j = choose|j: int| 0 <= j < k && s[j].nombre == n;
        lema_primero_nombre_usuario(s, n, j);
    }
}

proof fn lema_primero_id_usuario(s: Seq<UsuarioVista>, id: Seq<char>, k: int)
    requires
        0 <= k < s.len(),
        s[k].id == id,
    ensures
        exists|m: int| 0 <= m < s.len() && s[m].id == id && forall|j: int| 0 <= j < m ==> s[j].id != id,
    decreases k,
{
    if exists|j: int| 0 <= j < k && s[j].id == id {
        let j = choose|j: int| 0 <= j < k && s[j].id == id;
        lema_primero_id_usuario(s, id, j);
    }
}

/// El índice elegido por nombre es el del primer usuario con ese nombre.
pub proof fn lema_indice_nombre_usuario(s: Seq<UsuarioVista>, n: Seq<char>)
    ensures
        match indice_nombre_usuario(s, n) {
            Some(i) => 0 <= i < s.len() && s[i].nombre == n && forall|j: int| 0 <= j < i ==> s[j].nombre != n,
            None => forall|j: int| 0 <= j < s.len() ==> s[j].nombre != n,
        },
        indice_nombre_usuario(s, n) is Some <==> nombres_usuarios(s).contains(n),
{
    if exists|i: int| 0 <= i < s.len() && s[i].nombre == n {
        let k = choose|i: int| 0 <= i < s.len() && s[i].nombre == n;
        lema_primero_nombre_usuario(s, n, k);
        assert(nombres_usuarios(s)[k] == n);
    }
    if nombres_usuarios(s).contains(n) {
        let k = choose|k: int| 0 <= k < nombres_usuarios(s).len() && nombres_usuarios(s)[k] == n;
        assert(s[k].nombre == n);
    }
}

/// El índice elegido por identificador es el del primer usuario con ese identificador.
pub proof fn lema_indice_id_usuario(s: Seq<UsuarioVista>, id: Seq<char>)
    ensures
        match indice_id_usuario(s, id) {
            Some(i) => 0 <= i < s.len() && s[i].id == id && forall|j: int| 0 <= j < i ==> s[j].id != id,
            None => forall|j: int| 0 <= j < s.len() ==> s[j].id != id,
        },
{
    if exists|i: int| 0 <= i < s.len() && s[i].id == id {
        let k = choose|i: int| 0 <= i < s.len() && s[i].id == id;
        lema_primero_id_usuario(s, id, k);
    }
}

// ---------------------------------------------------------------- Tabla

/// Tabla `usuarios`: filas en orden de llegada.
pub struct UsuariosDb {
    filas: Vec<Usuario>,
}

impl View for UsuariosDb {
    type V = Seq<UsuarioVista>;

    closed spec fn view(&self) -> Seq<UsuarioVista> {
        vista_usuarios(self.filas@)
    }
}

/// Copia de un usuario.
fn copiar_usuario(u: &Usuario) -> (r: Usuario)
    ensures
        r@ == u@,
{
    Usuario::crear_desde_db(u.obtener_id(), u.obtener_nombre(), u.obtener_hash(), u.obtener_rol())
}

impl UsuariosDb {
    /// Tabla vacía.
    pub fn nuevo() -> (r: UsuariosDb)
        ensures
            r@ == Seq::<UsuarioVista>::empty(),
    {
        let r = UsuariosDb { filas: Vec::new() };
        assert(r@ =~= Seq::<UsuarioVista>::empty());
        r
    }

    fn buscar_nombre(&self, nombre: &str) -> (r: Option<usize>)
        ensures
            match r {
                Some(i) => indice_nombre_usuario(self@, nombre@) == Some(i as int),
                None => indice_nombre_usuario(self@, nombre@) is None,
            },
            r matches Some(i) ==> i < self@.len(),
    {
        let n = copiar(nombre);
        let mut i: usize = 0;
        while i < self.filas.len()
            invariant
                n@ == nombre@,
                i <= self@.len(),
                forall|j: int| 0 <= j < i ==> self@[j].nombre != nombre@,
            decreases self@.len() - i,
        {
            if self.filas[i].obtener_nombre() == n {
                proof {
                    assert(self@[i as int] == self.filas@[i as int]@);
                    assert(self@[i as int].nombre == nombre@);
                    lema_indice_nombre_usuario(self@, nombre@);
                    let k = indice_nombre_usuario(self@, nombre@)->0;
                    assert(k == i) by {
                        if k < i {
                            assert(self@[k].nombre != nombre@);
                        } else if i < k {
                            assert(self@[i as int].nombre != nombre@);
                        }
                    }
                }
                return Some(i);
            }
            i = i + 1;
        }
        proof {
            lema_indice_nombre_usuario(self@, nombre@);
        }
        None
    }

    fn buscar_id(&self, id: &str) -> (r: Option<usize>)
        ensures
            match r {
                Some(i) => indice_id_usuario(self@, id@) == Some(i as int),
                None => indice_id_usuario(self@, id@) is None,
            },
            r matches Some(i) ==> i < self@.len(),
    {
        let n = copiar(id);
        let mut i: usize = 0;
        while i < self.filas.len()
            invariant
                n@ == id@,
                i <= self@.len(),
                forall|j: int| 0 <= j < i ==> self@[j].id != id@,
            decreases self@.len() - i,
        {
            if self.filas[i].obtener_id() == n {
                proof {
                    assert(self@[i as int] == self.filas@[i as int]@);
                    assert(self@[i as int].id == id@);
                    lema_indice_id_usuario(self@, id@);
                    let k = indice_id_usuario(self@, id@)->0;
                    assert(k == i) by {
                        if k < i {
                            assert(self@[k].id != id@);
                        } else if i < k {
                            assert(self@[i as int].id != id@);
                        }
                    }
                }
                return Some(i);
            }
            i = i + 1;
        }
        proof {
            lema_indice_id_usuario(self@, id@);
        }
        None
    }

    /// Agrega un usuario al final.
    pub fn crear(&mut self, datos: Usuario) -> (r: AppResult<()>)
        ensures
            r is Ok,
            final(self)@ == old(self)@.push(datos@),
    {
        self.filas.push(datos);
        assert(self@ =~= old(self)@.push(datos@));
        Ok(())
    }

    /// Guarda nombre, hash y rol de `datos` en las filas de su identificador;
    /// si no hay ninguna, no guarda nada.
    pub fn editar(&mut self, datos: Usuario) -> (r: AppResult<()>)
        ensures
            indice_id_usuario(old(self)@, datos@.id) is None ==> (r matches Err(e) && e@ == error_personal(
                "No se guardaron los cambios en: "@ + datos@.nombre,
            ) && final(self)@ == old(self)@),
            indice_id_usuario(old(self)@, datos@.id) is Some ==> r is Ok && final(self)@ == filas_editadas(
                old(self)@,
                datos@,
            ),
    {
        let id = datos.obtener_id();
        if self.buscar_id(id.as_str()).is_none() {
            return Err(AppError::ErrorPersonal(unir2("No se guardaron los cambios en: ", datos.obtener_nombre().as_str())));
        }
        let ghost viejo = self@;
        let ghost u = datos@;
        let mut filas: Vec<Usuario> = Vec::new();
        let mut i: usize = 0;
        while i < self.filas.len()
            invariant
                viejo == self@,
                u == datos@,
                id@ == u.id,
                i <= viejo.len(),
                vista_usuarios(filas@) == filas_editadas(viejo, u).take(i as int),
            decreases viejo.len() - i,
        {
            let f = &self.filas[i];
            let nueva = if f.obtener_id() == id {
                Usuario::crear_desde_db(id.clone(), datos.obtener_nombre(), datos.obtener_hash(), datos.obtener_rol())
            } else {
                copiar_usuario(f)
            };
            let ghost antes = filas@;
            filas.push(nueva);
            proof {
                assert(vista_usuarios(filas@) =~= vista_usuarios(antes).push(nueva@));
                assert(filas_editadas(viejo, u).take(i + 1) =~= filas_editadas(viejo, u).take(i as int).push(
                    filas_editadas(viejo, u)[i as int],
                ));
            }
            i = i + 1;
        }
        proof {
            assert(filas_editadas(viejo, u).take(i as int) =~= filas_editadas(viejo, u));
        }
        self.filas = filas;
        Ok(())
    }

    /// Identificador del primer usuario con ese nombre.
    pub fn id_con_nombre(&self, nombre: &str) -> (r: AppResult<String>)
        ensures
            match indice_nombre_usuario(self@, nombre@) {
                None => r matches Err(e) && e@ == usuario_no_encontrado(nombre@),
                Some(i) => r matches Ok(x) && x@ == self@[i].id,
            },
    {
        match self.buscar_nombre(nombre) {
            Some(i) => Ok(self.filas[i].obtener_id()),
            None => Err(AppError::DatoInvalido(unir2("En obtener id: No se encontro el usuario : ", nombre))),
        }
    }

    /// Nombre del primer usuario con ese identificador.
    pub fn nombre_con_id(&self, id: &str) -> (r: AppResult<String>)
        ensures
            match indice_id_usuario(self@, id@) {
                None => r matches Err(e) && e@ == dato_invalido("No se encontro el usuario con id: "@ + id@),
                Some(i) => r matches Ok(x) && x@ == self@[i].nombre,
            },
    {
        match self.buscar_id(id) {
            Some(i) => Ok(self.filas[i].obtener_nombre()),
            None => Err(AppError::DatoInvalido(unir2("No se encontro el usuario con id: ", id))),
        }
    }

    /// El usuario de ese nombre (ver [`usuario_por_nombre`]).
    pub fn obtener(&self, busqueda: &str) -> (r: AppResult<Usuario>)
        ensures
            match usuario_por_nombre(self@, busqueda@) {
                None => r matches Err(e) && e@ == usuario_no_encontrado(busqueda@),
                Some(u) => r matches Ok(x) && x@ == u,
            },
    {
        let id = match self.id_con_nombre(busqueda) {
            Ok(x) => x,
            Err(e) => {
                return Err(e);
            },
        };
        proof {
            lema_indice_nombre_usuario(self@, busqueda@);
            let i = indice_nombre_usuario(self@, busqueda@)->0;
            lema_indice_id_usuario(self@, id@);
            assert(self@[i].id == id@);
        }
        match self.buscar_id(id.as_str()) {
            Some(j) => Ok(copiar_usuario(&self.filas[j])),
            None => Err(AppError::DatoInvalido(unir3("usuario: ", busqueda, ", no existe"))),
        }
    }

    /// Borra todas las filas con el identificador del primer usuario de ese nombre.
    pub fn eliminar(&mut self, nombre: &str) -> (r: AppResult<()>)
        ensures
            match indice_nombre_usuario(old(self)@, nombre@) {
                None => r matches Err(e) && e@ == usuario_no_encontrado(nombre@) && final(self)@ == old(self)@,
                Some(i) => r is Ok && final(self)@ == sin_id(old(self)@, old(self)@[i].id),
            },
    {
        let id = match self.id_con_nombre(nombre) {
            Ok(x) => x,
            Err(e) => {
                return Err(e);
            },
        };
        let ghost viejo = self@;
        let mut filas: Vec<Usuario> = Vec::new();
        let mut i: usize = 0;
        while i < self.filas.len()
            invariant
                viejo == self@,
                i <= viejo.len(),
                vista_usuarios(filas@) == sin_id(viejo.take(i as int), id@),
            decreases viejo.len() - i,
        {
            let ghost antes = filas@;
            proof {
                assert(viejo.take(i + 1).drop_last() =~= viejo.take(i as int));
                assert(viejo.take(i + 1).last() == viejo[i as int]);
            }
            if self.filas[i].obtener_id() != id {
                filas.push(copiar_usuario(&self.filas[i]));
                assert(vista_usuarios(filas@) =~= vista_usuarios(antes).push(viejo[i as int]));
            }
            i = i + 1;
        }
        proof {
            assert(viejo.take(i as int) =~= viejo);
        }
        self.filas = filas;
        Ok(())
    }

    /// Nombres de los usuarios ordenados (ver [`ordenar_nombres`]).
    pub fn listar(&self) -> (r: AppResult<Vec<String>>)
        ensures
            r matches Ok(v) && vista_textos(v@) == ordenar_nombres(nombres_usuarios(self@)) && ordenadas(
                claves_nombres(vista_textos(v@)),
            ),
    {
        proof {
            lema_ordenar_ordenada(nombres_usuarios(self@));
        }
        let ghost n = nombres_usuarios(self@);
        let mut r: Vec<String> = Vec::new();
        let mut i: usize = 0;
        assert(vista_textos(r@) =~= ordenar_nombres(n.take(0)));
        while i < self.filas.len()
            invariant
                n == nombres_usuarios(self@),
                i <= self@.len(),
                vista_textos(r@) == ordenar_nombres(n.take(i as int)),
            decreases self@.len() - i,
        {
            let nombre = self.filas[i].obtener_nombre();
            let p = posicion_nombre(&r, nombre.as_str().as_bytes());
            proof {
                assert(n.take(i + 1).drop_last() =~= n.take(i as int));
                assert(n.take(i + 1).last() == nombre@);
                lema_pos_insercion_acotada(claves_nombres(vista_textos(r@)), encode_utf8(nombre@));
                lema_ordenar_contiene(n.take(i as int), nombre@);
            }
            let ghost antes = r@;
            r.insert(p, nombre);
            proof {
                assert(vista_textos(r@) =~= vista_textos(antes).insert(p as int, nombre@));
            }
            i = i + 1;
        }
        proof {
            assert(n.take(i as int) =~= n);
        }
        Ok(r)
    }

    /// Filas de la tabla: identificador, nombre, hash y rol.
    pub fn filas(&self) -> (r: Vec<(String, String, String, String)>)
        ensures
            r@.len() == self@.len(),
            forall|i: int| 0 <= i < r@.len() ==> (#[trigger] r@[i]).0@ == self@[i].id && r@[i].1@ == self@[i].nombre
                && r@[i].2@ == self@[i].contra_token && r@[i].3@ == self@[i].rol,
    {
        let mut r: Vec<(String, String, String, String)> = Vec::new();
        let mut i: usize = 0;
        while i < self.filas.len()
            invariant
                i <= self@.len(),
                r@.len() == i,
                forall|j: int| 0 <= j < i ==> (#[trigger] r@[j]).0@ == self@[j].id && r@[j].1@ == self@[j].nombre
                    && r@[j].2@ == self@[j].contra_token && r@[j].3@ == self@[j].rol,
            decreases self@.len() - i,
        {
            let f = &self.filas[i];
            r.push((f.obtener_id(), f.obtener_nombre(), f.obtener_hash(), f.obtener_rol()));
            i = i + 1;
        }
        r
    }
}

// ---------------------------------------------------------------- Servicio

/// Servicio de usuarios.
pub struct ServicioDeUsuarios {
    repositorio: UsuariosDb,
}

impl View for ServicioDeUsuarios {
    type V = Seq<UsuarioVista>;

    closed spec fn view(&self) -> Seq<UsuarioVista> {
        self.repositorio@
    }
}

impl ServicioDeUsuarios {
    /// Servicio sobre esa tabla.
    pub fn nuevo(repositorio: UsuariosDb) -> (r: ServicioDeUsuarios)
        ensures
            r@ == repositorio@,
    {
        ServicioDeUsuarios { repositorio }
    }

    /// Inicio de sesión: si la contraseña coincide con el hash del usuario,
    /// devuelve su token (ver [`resultado_verificar`]).
    pub fn verificar_usuario(&self, contra: &str, usuario: &str) -> (r: AppResult<String>)
        ensures
            match resultado_verificar(self@, contra@, usuario@) {
                Ok(t) => r matches Ok(x) && x@ == t,
                Err(e) => r matches Err(x) && x@ == e,
            },
    {
        let u = match self.repositorio.obtener(usuario) {
            Ok(x) => x,
            Err(e) => {
                return Err(e);
            },
        };
        match u.verificar_hash(contra) {
            Ok(token) => Ok(token),
            Err(e) => Err(AppError::DatoInvalido(e.mensaje())),
        }
    }

    /// Hay un usuario con ese nombre.
    pub fn existe(&self, nombre: &str) -> (r: AppResult<bool>)
        ensures
            r matches Ok(b) && b == nombres_usuarios(self@).contains(nombre@),
    {
        let lista = match self.repositorio.listar() {
            Ok(x) => x,
            Err(e) => {
                return Err(e);
            },
        };
        proof {
            lema_ordenar_contiene(nombres_usuarios(self@), nombre@);
        }
        let n = copiar(nombre);
        Ok(contiene_nombre(&lista, &n))
    }

    /// Crea un usuario con la contraseña cifrada; rechaza un nombre ya usado
    /// o vacío y un rol vacío.
    pub fn agregar(&mut self, nombre: String, contra: String, rol: String) -> (r: AppResult<()>)
        ensures
            nombres_usuarios(old(self)@).contains(nombre@) ==> (r matches Err(e) && e@ == dato_invalido(
                "El usuario: "@ + nombre@ + ", ya existe"@,
            ) && final(self)@ == old(self)@),
            !nombres_usuarios(old(self)@).contains(nombre@) && nombre@.len() == 0 ==> (r matches Err(e) && e@
                == dato_invalido("el nombre no puede estar vacio"@) && final(self)@ == old(self)@),
            !nombres_usuarios(old(self)@).contains(nombre@) && nombre@.len() > 0 && rol@.len() == 0 ==> (r matches Err(
                e,
            ) && e@ == dato_invalido("El rol esta vacio"@) && final(self)@ == old(self)@),
            !nombres_usuarios(old(self)@).contains(nombre@) && nombre@.len() > 0 && rol@.len() > 0 ==> (r is Ok
                && exists|u: UsuarioVista| #[trigger] usuario_nuevo(u, nombre@, rol@, contra@)
                && final(self)@ == old(self)@.push(u))
                || (r matches Err(e) && e@ == error_personal("Error al encriptar la contraseña"@)
                && final(self)@ == old(self)@),
    {
        let existe = match self.existe(nombre.as_str()) {
            Ok(b) => b,
            Err(e) => {
                return Err(e);
            },
        };
        if existe {
            return Err(AppError::DatoInvalido(unir3("El usuario: ", nombre.as_str(), ", ya existe")));
        }
        let usuario = match Usuario::nuevo(&nombre, rol, contra.as_str()) {
            Ok(u) => u,
            Err(e) => {
                return Err(e);
            },
        };
        let ghost u = usuario@;
        match self.repositorio.crear(usuario) {
            Ok(_) => {
                assert(usuario_nuevo(u, nombre@, rol@, contra@));
                Ok(())
            },
            Err(e) => Err(AppError::ErrorPersonal(e.mensaje())),
        }
    }

    /// Borra el usuario de ese nombre (todas las filas de su identificador).
    pub fn eliminar(&mut self, nombre: &str) -> (r: AppResult<()>)
        ensures
            match indice_nombre_usuario(old(self)@, nombre@) {
                None => r matches Err(e) && e@ == dato_invalido("No existe el usuario: "@ + nombre@) && final(self)@
                    == old(self)@,
                Some(i) => r is Ok && final(self)@ == sin_id(old(self)@, old(self)@[i].id),
            },
    {
        proof {
            lema_indice_nombre_usuario(self@, nombre@);
        }
        let existe = match self.existe(nombre) {
            Ok(b) => b,
            Err(e) => {
                return Err(e);
            },
        };
        if !existe {
            return Err(AppError::DatoInvalido(unir2("No existe el usuario: ", nombre)));
        }
        match self.repositorio.eliminar(nombre) {
            Ok(_) => {},
            Err(e) => {
                return Err(e);
            },
        }
        Ok(())
    }

    /// Nombre del primer usuario con ese identificador.
    pub fn nombre_con_id(&self, id: String) -> (r: AppResult<String>)
        ensures
            match indice_id_usuario(self@, id@) {
                None => r matches Err(e) && e@ == dato_invalido("No se encontro el usuario con id: "@ + id@),
                Some(i) => r matches Ok(x) && x@ == self@[i].nombre,
            },
    {
        self.repositorio.nombre_con_id(id.as_str())
    }

    /// Identificador del primer usuario con ese nombre.
    pub fn id_con_nombre(&self, nombre: String) -> (r: AppResult<String>)
        ensures
            match indice_nombre_usuario(self@, nombre@) {
                None => r matches Err(e) && e@ == usuario_no_encontrado(nombre@),
                Some(i) => r matches Ok(x) && x@ == self@[i].id,
            },
    {
        self.repositorio.id_con_nombre(nombre.as_str())
    }

    /// Identificador, nombre y rol del usuario de ese nombre.
    pub fn obtener(&self, busqueda: &str) -> (r: AppResult<(String, String, String)>)
        ensures
            match usuario_por_nombre(self@, busqueda@) {
                None => r matches Err(e) && e@ == dato_invalido("El usuario: "@ + busqueda@ + ", no existe"@),
                Some(u) => r matches Ok(t) && t.0@ == u.id && t.1@ == u.nombre && t.2@ == u.rol,
            },
    {
        proof {
            lema_indice_nombre_usuario(self@, busqueda@);
        }
        let existe = match self.existe(busqueda) {
            Ok(b) => b,
            Err(e) => {
                return Err(e);
            },
        };
        if !existe {
            return Err(AppError::DatoInvalido(unir3("El usuario: ", busqueda, ", no existe")));
        }
        let usuario = match self.repositorio.obtener(busqueda) {
            Ok(u) => u,
            Err(e) => {
                return Err(e);
            },
        };
        Ok((usuario.obtener_id(), usuario.obtener_nombre(), usuario.obtener_rol()))
    }

    /// Nombres de los usuarios, ordenados.
    pub fn listar(&self) -> (r: AppResult<Vec<String>>)
        ensures
            r matches Ok(v) && vista_textos(v@) == ordenar_nombres(nombres_usuarios(self@)),
    {
        self.repositorio.listar()
    }

    /// Busca usuarios por nombre (ver [`resultado_busqueda`]); sin usuarios,
    /// no hay resultado.
    pub fn buscar(&self, busqueda: &String) -> (r: AppResult<Vec<String>>)
        ensures
            self@.len() == 0 ==> (r matches Err(e) && e@ == dato_invalido("No se encontro el usuario: "@ + busqueda@)),
            self@.len() > 0 ==> (r matches Ok(v) && vista_textos(v@) == resultado_busqueda(
                ordenar_nombres(nombres_usuarios(self@)),
                busqueda@,
            )),
    {
        let usuarios = match self.repositorio.listar() {
            Ok(x) => x,
            Err(e) => {
                return Err(e);
            },
        };
        proof {
            lema_ordenar_contiene(nombres_usuarios(self@), busqueda@);
        }
        if usuarios.len() == 0 {
            return Err(AppError::DatoInvalido(unir2("No se encontro el usuario: ", busqueda.as_str())));
        }
        Ok(buscar_en(usuarios, busqueda.as_str()))
    }

    /// Filas de la tabla: identificador, nombre, hash y rol.
    pub fn filas(&self) -> (r: Vec<(String, String, String, String)>)
        ensures
            r@.len() == self@.len(),
            forall|i: int| 0 <= i < r@.len() ==> (#[trigger] r@[i]).0@ == self@[i].id && r@[i].1@ == self@[i].nombre
                && r@[i].2@ == self@[i].contra_token && r@[i].3@ == self@[i].rol,
    {
        self.repositorio.filas()
    }
}

// ---------------------------------------------------------------- Leyes

/// Inicio de sesión tras el alta: si se agrega un usuario de nombre nuevo
/// (y su identificador no estaba en la tabla), verificar ese nombre con la
/// contraseña del alta devuelve el token del usuario.
pub proof fn lema_alta_y_sesion(
    antes: Seq<UsuarioVista>,
    u: UsuarioVista,
    nombre: Seq<char>,
    contra: Seq<char>,
    rol: Seq<char>,
)
    requires
        !nombres_usuarios(antes).contains(nombre),
        usuario_nuevo(u, nombre, rol, contra),
        indice_id_usuario(antes, u.id) is None,
    ensures
        nombres_usuarios(antes.push(u)).contains(nombre),
        usuario_por_nombre(antes.push(u), nombre) == Some(u),
        resultado_verificar(antes.push(u), contra, nombre) == Ok::<Seq<char>, ErrorVista>(token_de(u)),
{
    let d = antes.push(u);
    let k = antes.len() as int;
    assert(d[k] == u);
    assert(nombres_usuarios(d)[k] == nombre);
    lema_indice_nombre_usuario(antes, nombre);
    lema_indice_nombre_usuario(d, nombre);
    let i = indice_nombre_usuario(d, nombre)->0;
    assert(i == k) by {
        if i < k {
            assert(d[i] == antes[i]);
        } else if k < i {
            assert(d[k].nombre != nombre);
        }
    }
    lema_indice_id_usuario(antes, u.id);
    lema_indice_id_usuario(d, u.id);
    let j = indice_id_usuario(d, u.id)->0;
    assert(j == k) by {
        if j < k {
            assert(d[j] == antes[j]);
        } else if k < j {
            assert(d[k].id != u.id);
        }
    }
}

proof fn lema_sin_id_ausente(s: Seq<UsuarioVista>, id: Seq<char>)
    requires
        forall|j: int| 0 <= j < s.len() ==> (#[trigger] s[j]).id != id,
    ensures
        sin_id(s, id) == s,
    decreases s.len(),
{
    if s.len() > 0 {
        assert forall|j: int| 0 <= j < s.drop_last().len() implies (#[trigger] s.drop_last()[j]).id != id by {
            assert(s.drop_last()[j] == s[j]);
        }
        lema_sin_id_ausente(s.drop_last(), id);
        assert(s.last() == s[s.len() - 1]);
        assert(s.drop_last().push(s.last()) =~= s);
    }
}

/// Dar de alta un usuario de nombre nuevo (con un identificador que no
/// estaba en la tabla) y luego darlo de baja deja la tabla como estaba.
pub proof fn lema_alta_y_baja_usuario(
    antes: Seq<UsuarioVista>,
    u: UsuarioVista,
    nombre: Seq<char>,
    contra: Seq<char>,
    rol: Seq<char>,
)
    requires
        !nombres_usuarios(antes).contains(nombre),
        usuario_nuevo(u, nombre, rol, contra),
        indice_id_usuario(antes, u.id) is None,
    ensures
        indice_nombre_usuario(antes.push(u), nombre) matches Some(i) && sin_id(antes.push(u), antes.push(u)[i].id)
            == antes,
{
    lema_alta_y_sesion(antes, u, nombre, contra, rol);
    let d = antes.push(u);
    let k = antes.len() as int;
    lema_indice_nombre_usuario(d, nombre);
    let i = indice_nombre_usuario(d, nombre)->0;
    assert(i == k) by {
        lema_indice_nombre_usuario(antes, nombre);
        if i < k {
            assert(d[i] == antes[i]);
        } else if k < i {
            assert(d[k].nombre == nombre);
        }
    }
    lema_indice_id_usuario(antes, u.id);
    assert(d.drop_last() =~= antes);
    lema_sin_id_ausente(antes, u.id);
}

} // verus!
