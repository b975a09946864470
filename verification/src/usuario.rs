//! Usuarios, contraseñas y tokens de acceso.
use vstd::prelude::*;
use vstd::string::StringSliceAdditionalSpecFns;
use vstd::utf8::*;
use crate::error::{AppError, AppResult};
use crate::externos::{cifrar_contra, es_texto_uuid, nuevo_id, prefijo_bcrypt, verificacion_bcrypt, verificar_contra, ResultadoBcrypt};
use crate::negocio::dato_invalido;
use crate::permisos::Rol;
use crate::texto::{copiar, unir2};

verus! {

/// Costo con el que se cifran las contraseñas.
pub const COSTO_BCRYPT: u32 = 12;

/// Un usuario del sistema, con el hash de su contraseña y su rol.
pub struct Usuario {
    id: String,
    nombre: String,
    contra_token: String,
    rol: String,
}

/// Vista de un [`Usuario`].
pub struct UsuarioVista {
    pub id: Seq<char>,
    pub nombre: Seq<char>,
    pub contra_token: Seq<char>,
    pub rol: Seq<char>,
}

impl View for Usuario {
    type V = UsuarioVista;

    closed spec fn view(&self) -> UsuarioVista {
        UsuarioVista {
            id: self.id@,
            nombre: self.nombre@,
            contra_token: self.contra_token@,
            rol: self.rol@,
        }
    }
}

/// Los dos primeros caracteres de un texto (o todo, si es más corto).
pub open spec fn prefijo2(s: Seq<char>) -> Seq<char> {
    if s.len() < 2 {
        s
    } else {
        s.take(2)
    }
}

/// Token de un usuario: los dos primeros caracteres de su nombre, de su rol,
/// de su identificador y del hash de su contraseña, en ese orden.
pub open spec fn token_de(u: UsuarioVista) -> Seq<char> {
    prefijo2(u.nombre) + prefijo2(u.rol) + prefijo2(u.id) + prefijo2(u.contra_token)
}

fn dos_primeros(s: &str) -> (r: &str)
    ensures
        r@ == prefijo2(s@),
{
    let n = s.unicode_len();
    if n < 2 {
        s.substring_char(0, n)
    } else {
        s.substring_char(0, 2)
    }
}

impl Usuario {
    /// Crea un usuario con identificador aleatorio y la contraseña cifrada con
    /// bcrypt; rechaza un nombre o un rol vacíos.
    ///
    /// Si el cifrado falla, devuelve un error en lugar de detenerse.
    pub fn nuevo(nombre: &String, rol: String, psswd: &str) -> (r: AppResult<Usuario>)
        ensures
            nombre@.len() == 0 ==> (r matches Err(e) && e@ == dato_invalido("el nombre no puede estar vacio"@)),
            nombre@.len() > 0 && rol@.len() == 0 ==> (r matches Err(e) && e@ == dato_invalido("El rol esta vacio"@)),
            nombre@.len() > 0 && rol@.len() > 0 ==> (r is Ok || (r matches Err(e) && e@ == crate::error::ErrorVista::ErrorPersonal(
                "Error al encriptar la contraseña"@,
            ))),
            r matches Ok(u) ==> u@.nombre == nombre@ && u@.rol == rol@ && es_texto_uuid(u@.id)
                && u@.contra_token.len() == 60
                && u@.contra_token.subrange(0, 7) == "$2b$12$"@
                && verificacion_bcrypt(psswd@, u@.contra_token) == ResultadoBcrypt::Ok(true),
    {
        if nombre.as_str().is_empty() {
            return Err(AppError::DatoInvalido(copiar("el nombre no puede estar vacio")));
        }
        if rol.as_str().is_empty() {
            return Err(AppError::DatoInvalido(copiar("El rol esta vacio")));
        }
        let contrasena = match cifrar_contra(psswd, COSTO_BCRYPT) {
            Some(h) => {
                proof {
                    reveal_strlit("$2b$12$");
                    reveal_strlit("$2b$");
                    reveal_strlit("$");
                    assert(prefijo_bcrypt(12) =~= "$2b$12$"@);
                }
                h
            },
            None => {
                return Err(AppError::ErrorPersonal(copiar("Error al encriptar la contraseña")));
            },
        };
        Ok(Usuario { id: nuevo_id(), nombre: nombre.clone(), contra_token: contrasena, rol })
    }

    /// Reconstruye un usuario guardado, tal como está.
    pub fn crear_desde_db(id: String, nombre: String, contra_token: String, rol: String) -> (r: Usuario)
        ensures
            r@ == (UsuarioVista { id: id@, nombre: nombre@, contra_token: contra_token@, rol: rol@ }),
    {
        Usuario { id, nombre, contra_token, rol }
    }

    /// Identificador del usuario.
    pub fn obtener_id(&self) -> (r: String)
        ensures
            r@ == self@.id,
    {
        self.id.clone()
    }

    /// Nombre del usuario.
    pub fn obtener_nombre(&self) -> (r: String)
        ensures
            r@ == self@.nombre,
    {
        self.nombre.clone()
    }

    /// Hash de la contraseña.
    pub fn obtener_hash(&self) -> (r: String)
        ensures
            r@ == self@.contra_token,
    {
        self.contra_token.clone()
    }

    /// Rol del usuario, como texto.
    pub fn obtener_rol(&self) -> (r: String)
        ensures
            r@ == self@.rol,
    {
        self.rol.clone()
    }

    /// Comprueba la contraseña; si coincide, devuelve el token del usuario.
    pub fn verificar_hash(&self, contra: &str) -> (r: AppResult<String>)
        ensures
            match verificacion_bcrypt(contra@, self@.contra_token) {
                ResultadoBcrypt::Ok(true) => r matches Ok(t) && t@ == token_de(self@),
                ResultadoBcrypt::Ok(false) => r matches Err(e) && e@ == dato_invalido("Contraseña incorrecta."@),
                ResultadoBcrypt::Err(m) => r matches Err(e) && e@ == dato_invalido(
                    "Error al verificar hash: "@ + m,
                ),
            },
    {
        match verificar_contra(contra, self.contra_token.as_str()) {
            Ok(true) => Ok(self.generar_token()),
            Ok(false) => Err(AppError::DatoInvalido(copiar("Contraseña incorrecta."))),
            Err(e) => Err(AppError::DatoInvalido(unir2("Error al verificar hash: ", e.as_str()))),
        }
    }

    /// Token de acceso del usuario (ver [`token_de`]).
    pub fn generar_token(&self) -> (r: String)
        ensures
            r@ == token_de(self@),
    {
        let mut token = String::new();
        token.append(dos_primeros(self.nombre.as_str()));
        token.append(dos_primeros(self.rol.as_str()));
        token.append(dos_primeros(self.id.as_str()));
        token.append(dos_primeros(self.contra_token.as_str()));
        token
    }
}

/// Rol que indican los bytes 2 y 3 de un token: "ad", "us" o "in".
pub open spec fn rol_de_bytes(a: u8, b: u8) -> Option<Rol> {
    if a == 97 && b == 100 {
        Some(Rol::Admin)
    } else if a == 117 && b == 115 {
        Some(Rol::Usuario)
    } else if a == 105 && b == 110 {
        Some(Rol::Invitado)
    } else {
        None
    }
}

/// Lo que responde [`verificar_token`] a un token de esos bytes.
pub open spec fn resultado_token(bytes: Seq<u8>) -> Result<Rol, Seq<char>> {
    if bytes.len() != 8 {
        Err("Token inválido: longitud incorrecta"@)
    } else {
        match rol_de_bytes(bytes[2], bytes[3]) {
            Some(r) => Ok(r),
            None => Err("Rol desconocido en el token"@),
        }
    }
}

/// Un token de 8 bytes se puede cortar en los bytes 2 y 4 sin partir un carácter.
pub open spec fn token_cortable(token: &str) -> bool {
    token.spec_bytes().len() == 8 ==> is_char_boundary(token.spec_bytes(), 2) && is_char_boundary(
        token.spec_bytes(),
        4,
    )
}

/// Lee el rol de un token: debe medir 8 bytes y los bytes 2 y 3 deben ser
/// "ad" (`Admin`), "us" (`Usuario`) o "in" (`Invitado`).
pub fn verificar_token(token: &str) -> (r: Result<Rol, String>)
    requires
        token_cortable(token),
    ensures
        match resultado_token(token.spec_bytes()) {
            Ok(rol) => r == Ok::<Rol, String>(rol),
            Err(m) => r matches Err(x) && x@ == m,
        },
{
    let b = token.as_bytes();
    if b.len() != 8 {
        return Err(copiar("Token inválido: longitud incorrecta"));
    }
    let x = b[2];
    let y = b[3];
    if x == 97 && y == 100 {
        Ok(Rol::Admin)
    } else if x == 117 && y == 115 {
        Ok(Rol::Usuario)
    } else if x == 105 && y == 110 {
        Ok(Rol::Invitado)
    } else {
        Err(copiar("Rol desconocido en el token"))
    }
}


/// Cortar la codificación UTF-8 de un texto tras sus primeros `j` caracteres
/// cae en una frontera de carácter.
pub proof fn lema_frontera_tras_caracteres(c: Seq<char>, j: int)
    requires
        0 <= j <= c.len(),
    ensures
        is_char_boundary(encode_utf8(c), encode_utf8(c.take(j)).len() as int),
    decreases c.len(),
{
    encode_utf8_valid_utf8(c);
    if j == 0 {
        assert(c.take(0) =~= Seq::<char>::empty());
        assert(is_char_boundary(encode_utf8(c), 0));
    } else {
        let b = encode_utf8(c);
        encode_utf8_first_scalar(c);
        encode_utf8_valid_utf8(c);
        encode_utf8_valid_utf8(c.drop_first());
        assert(pop_first_scalar(b) =~= encode_utf8(c.drop_first()));
        assert(c.take(j).drop_first() =~= c.drop_first().take(j - 1));
        assert(c.take(j)[0] == c[0]);
        lema_frontera_tras_caracteres(c.drop_first(), j - 1);
        assert(encode_utf8(c.take(j)).len() == encode_scalar(c[0] as u32).len() + encode_utf8(
            c.drop_first().take(j - 1),
        ).len());
        assert(encode_utf8(c).len() == encode_scalar(c[0] as u32).len() + encode_utf8(c.drop_first()).len());
        assert(encode_utf8(c.drop_first().take(j - 1)).len() <= encode_utf8(c.drop_first()).len()) by {
            lema_largo_prefijo(c.drop_first(), j - 1);
        }
        let k = encode_utf8(c.take(j)).len() as int;
        assert(encode_scalar(c[0] as u32).len() >= 1);
        assert(k > 0);
        assert(k <= b.len());
        assert(length_of_first_scalar(b) == encode_scalar(c[0] as u32).len());
        assert(is_char_boundary(pop_first_scalar(b), k - length_of_first_scalar(b)));
        assert(is_char_boundary(b, k));
    }
}

/// La codificación de un prefijo no es más larga que la del texto entero.
pub proof fn lema_largo_prefijo(c: Seq<char>, j: int)
    requires
        0 <= j <= c.len(),
    ensures
        encode_utf8(c.take(j)).len() <= encode_utf8(c).len(),
    decreases c.len(),
{
    if j > 0 {
        assert(c.take(j).drop_first() =~= c.drop_first().take(j - 1));
        assert(c.take(j)[0] == c[0]);
        lema_largo_prefijo(c.drop_first(), j - 1);
    }
}

/// Respuesta esperada de [`verificar_token`] según las dos primeras letras del rol.
pub open spec fn respuesta_por_rol(a: char, b: char) -> Result<Rol, Seq<char>> {
    match rol_de_bytes(a as u8, b as u8) {
        Some(r) => Ok(r),
        None => Err("Rol desconocido en el token"@),
    }
}

/// Un usuario cuyos nombre, rol, identificador y hash son textos ASCII de al
/// menos dos caracteres recibe un token de 8 bytes, que se puede cortar en
/// los bytes 2 y 4, y que [`verificar_token`] lee con el rol indicado por las
/// dos primeras letras del rol del usuario ("ad", "us" o "in").
pub proof fn lema_token_se_verifica(u: UsuarioVista)
    requires
        is_ascii_chars(u.nombre),
        is_ascii_chars(u.rol),
        is_ascii_chars(u.id),
        is_ascii_chars(u.contra_token),
        u.nombre.len() >= 2,
        u.rol.len() >= 2,
        u.id.len() >= 2,
        u.contra_token.len() >= 2,
    ensures
        encode_utf8(token_de(u)).len() == 8,
        is_char_boundary(encode_utf8(token_de(u)), 2),
        is_char_boundary(encode_utf8(token_de(u)), 4),
        resultado_token(encode_utf8(token_de(u))) == respuesta_por_rol(u.rol[0], u.rol[1]),
{
    let t = token_de(u);
    assert(t.len() == 8);
    assert(t[2] == u.rol[0] && t[3] == u.rol[1]);
    assert(is_ascii_chars(t)) by {
        assert forall|i: int| 0 <= i < t.len() implies '\0' <= #[trigger] t[i] <= '\u{7f}' by {
            if i < 2 {
                assert(t[i] == u.nombre[i]);
            } else if i < 4 {
                assert(t[i] == u.rol[i - 2]);
            } else if i < 6 {
                assert(t[i] == u.id[i - 4]);
            } else {
                assert(t[i] == u.contra_token[i - 6]);
            }
        }
    }
    is_ascii_chars_encode_utf8(t);
    assert(is_ascii_chars(t.take(2)));
    assert(is_ascii_chars(t.take(4)));
    is_ascii_chars_encode_utf8(t.take(2));
    is_ascii_chars_encode_utf8(t.take(4));
    lema_frontera_tras_caracteres(t, 2);
    lema_frontera_tras_caracteres(t, 4);
    let b = encode_utf8(t);
    assert(b[2] == t[2] as u8);
    assert(b[3] == t[3] as u8);
}

} // verus!
