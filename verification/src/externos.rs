//! Llamadas a las bibliotecas externas: `uuid`, `bcrypt` y `strsim`.
//!
//! Cada función de este módulo hace una única llamada externa; su contrato
//! resume lo que muestra el código de la biblioteca llamada.
use vstd::prelude::*;

verus! {

/// Carácter de un identificador UUID escrito en minúsculas.
pub open spec fn caracter_uuid(c: char) -> bool {
    c == '-' || ('0' <= c && c <= '9') || ('a' <= c && c <= 'f')
}

/// Texto de un UUID en forma con guiones: 36 caracteres hexadecimales en
/// minúscula o guiones.
pub open spec fn es_texto_uuid(s: Seq<char>) -> bool {
    &&& s.len() == 36
    &&& forall|i: int| 0 <= i < s.len() ==> caracter_uuid(#[trigger] s[i])
}

/// Identificador nuevo: `uuid::Uuid::new_v4()` escrito con `to_string`.
///
/// El valor es aleatorio; el contrato sólo afirma su forma: 36 caracteres,
/// dígitos hexadecimales en minúscula o guiones (`Display` de `Uuid` delega
/// en `LowerHex`, que escribe la forma con guiones).
#[verifier::external_body]
pub(crate) fn nuevo_id() -> (id: String)
    ensures
        es_texto_uuid(id@),
{
    uuid::Uuid::new_v4().to_string()
}

/// Lo que devuelve `bcrypt::verify(contra, hash)`: `Ok(coincide)` o el texto
/// del error (por ejemplo, un hash mal formado).
pub uninterp spec fn verificacion_bcrypt(contra: Seq<char>, hash: Seq<char>) -> ResultadoBcrypt;

/// Resultado de `bcrypt::verify` visto como valores: coincide o texto del error.
pub type ResultadoBcrypt = Result<bool, Seq<char>>;

/// Dígito decimal `d` (de 0 a 9) como carácter.
pub open spec fn digito(d: u32) -> char {
    (48 + d) as char
}

/// Comienzo de un hash bcrypt versión 2b con ese costo: `$2b$`, el costo con
/// dos dígitos, y `$`.
pub open spec fn prefijo_bcrypt(costo: u32) -> Seq<char> {
    "$2b$"@ + seq![digito(costo / 10), digito(costo % 10)] + "$"@
}

/// Hash de una contraseña: `bcrypt::hash(contra, costo)`.
///
/// La sal es aleatoria. Si `bcrypt::hash` falla (costo fuera de 4..=31 o sin
/// fuente de azar) devuelve `None`. Si tiene éxito, el contrato afirma lo que
/// muestra el código de `bcrypt`: el hash tiene 60 caracteres, empieza con
/// `$2b$`, el costo en dos dígitos y `$`, y `bcrypt::verify` con la misma
/// contraseña devuelve `Ok(true)`.
#[verifier::external_body]
pub(crate) fn cifrar_contra(contra: &str, costo: u32) -> (r: Option<String>)
    ensures
        costo < 4 || costo > 31 ==> r is None,
        r is Some ==> r->0@.len() == 60,
        r is Some ==> r->0@.subrange(0, 7) == prefijo_bcrypt(costo),
        r is Some ==> verificacion_bcrypt(contra@, r->0@) == ResultadoBcrypt::Ok(true),
{
    match bcrypt::hash(contra, costo) {
        Ok(h) => Some(h),
        Err(_) => None,
    }
}

/// Comprueba una contraseña contra un hash: `bcrypt::verify(contra, hash)`;
/// el error se devuelve como su texto (`to_string`).
#[verifier::external_body]
pub(crate) fn verificar_contra(contra: &str, hash: &str) -> (r: Result<bool, String>)
    ensures
        match r {
            Ok(b) => verificacion_bcrypt(contra@, hash@) == ResultadoBcrypt::Ok(b),
            Err(e) => verificacion_bcrypt(contra@, hash@) == ResultadoBcrypt::Err(e@),
        },
{
    match bcrypt::verify(contra, hash) {
        Ok(b) => Ok(b),
        Err(e) => Err(e.to_string()),
    }
}

/// Mínimo de tres números naturales.
pub open spec fn minimo3(a: nat, b: nat, c: nat) -> nat {
    if a <= b && a <= c {
        a
    } else if b <= c {
        b
    } else {
        c
    }
}

/// Distancia de Levenshtein entre dos textos, contada en caracteres: el menor
/// número de inserciones, borrados y sustituciones que lleva de `a` a `b`.
pub open spec fn levenshtein(a: Seq<char>, b: Seq<char>) -> nat
    decreases a.len() + b.len(),
{
    if a.len() == 0 {
        b.len()
    } else if b.len() == 0 {
        a.len()
    } else {
        minimo3(
            levenshtein(a.drop_last(), b) + 1,
            levenshtein(a, b.drop_last()) + 1,
            levenshtein(a.drop_last(), b.drop_last()) + (if a.last() == b.last() { 0nat } else { 1nat }),
        )
    }
}

/// Distancia de edición: `strsim::levenshtein(a, b)`, que recorre los
/// caracteres (`chars`) de ambos textos con la programación dinámica clásica.
#[verifier::external_body]
pub(crate) fn distancia(a: &str, b: &str) -> (d: usize)
    ensures
        d == levenshtein(a@, b@),
{
    strsim::levenshtein(a, b)
}

} // verus!
