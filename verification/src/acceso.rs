//! Control de acceso a las rutas protegidas: qué entidad y acción pide una
//! ruta, y si el rol del token lo permite.
use vstd::prelude::*;
use crate::permisos::{
    nombre_accion, nombre_entidad, nombre_rol, permitido, puede_operar, texto_accion, texto_entidad,
    texto_rol, Acciones, Entidad,
};
use crate::texto::{a_caracteres, copiar, tramo_igual, unir2};
use crate::usuario::{resultado_token, token_cortable, verificar_token};
use vstd::string::StringSliceAdditionalSpecFns;

verus! {

/// El texto sin las barras `/` del principio.
pub open spec fn sin_barras_iniciales(s: Seq<char>) -> Seq<char>
    decreases s.len(),
{
    if s.len() > 0 && s[0] == '/' {
        sin_barras_iniciales(s.drop_first())
    } else {
        s
    }
}

/// Posición de la primera barra `/` de un texto, o su largo si no tiene.
pub open spec fn primera_barra(s: Seq<char>) -> nat
    decreases s.len(),
{
    if s.len() == 0 {
        0
    } else if s[0] == '/' {
        0
    } else {
        1 + primera_barra(s.drop_first())
    }
}

/// Los tramos de un texto separados por barras `/` (como `split('/')`): un
/// texto sin barras es un solo tramo, y cada barra agrega uno.
pub open spec fn tramos(s: Seq<char>) -> Seq<Seq<char>>
    decreases s.len(),
{
    let k = primera_barra(s);
    if k >= s.len() {
        seq![s]
    } else {
        seq![s.take(k as int)] + tramos(s.skip(k as int + 1))
    }
}

/// Entidad que nombra un tramo de ruta, en singular o en plural.
pub open spec fn entidad_de(p: Seq<char>) -> Option<Entidad> {
    if p == "receta"@ || p == "recetas"@ {
        Some(Entidad::Receta)
    } else if p == "insumo"@ || p == "insumos"@ {
        Some(Entidad::Insumo)
    } else if p == "usuario"@ || p == "usuarios"@ {
        Some(Entidad::Usuario)
    } else {
        None
    }
}

/// Acción que nombra un tramo de ruta.
pub open spec fn accion_de(p: Seq<char>) -> Option<Acciones> {
    if p == "crear"@ {
        Some(Acciones::Crear)
    } else if p == "editar"@ {
        Some(Acciones::Editar)
    } else if p == "eliminar"@ {
        Some(Acciones::Eliminar)
    } else {
        None
    }
}

/// Lo que responde [`parsear_ruta`]. La ruta, sin sus barras iniciales, se
/// parte en tramos por sus barras; debe tener exactamente dos,
/// `entidad/accion`, con la entidad en singular o en plural (como en
/// `/insumos/crear`) y la acción `crear`, `editar` o `eliminar`.
pub open spec fn resultado_ruta(ruta: Seq<char>) -> Result<(Entidad, Acciones), Seq<char>> {
    let p = tramos(sin_barras_iniciales(ruta));
    if p.len() != 2 {
        Err("Ruta inválida: se esperaba /entidad/accion"@)
    } else {
        match entidad_de(p[0]) {
            None => Err("Entidad desconocida: "@ + p[0]),
            Some(e) => match accion_de(p[1]) {
                Some(a) => Ok((e, a)),
                None => Err("Acción desconocida: "@ + p[1]),
            },
        }
    }
}

/// La primera barra está dentro del texto y es una barra, y antes no hay otra.
proof fn lema_primera_barra(s: Seq<char>)
    ensures
        primera_barra(s) <= s.len(),
        primera_barra(s) < s.len() ==> s[primera_barra(s) as int] == '/',
        forall|j: int| 0 <= j < primera_barra(s) ==> s[j] != '/',
    decreases s.len(),
{
    if s.len() > 0 && s[0] != '/' {
        lema_primera_barra(s.drop_first());
        assert forall|j: int| 0 <= j < primera_barra(s) implies s[j] != '/' by {
            if j > 0 {
                assert(s[j] == s.drop_first()[j - 1]);
            }
        }
    }
}

/// Todo texto tiene al menos un tramo.
proof fn lema_tramos_no_vacios(s: Seq<char>)
    ensures
        tramos(s).len() >= 1,
        tramos(s)[0] == s.take(primera_barra(s) as int),
    decreases s.len(),
{
    lema_primera_barra(s);
    if primera_barra(s) < s.len() {
        lema_tramos_no_vacios(s.skip(primera_barra(s) as int + 1));
    } else {
        assert(s.take(s.len() as int) =~= s);
    }
}

/// Posición (absoluta) de la primera barra desde `desde`, o el largo.
fn primera_barra_desde(c: &Vec<char>, desde: usize) -> (k: usize)
    requires
        desde <= c@.len(),
    ensures
        k == desde + primera_barra(c@.skip(desde as int)),
        k <= c@.len(),
{
    let mut i: usize = desde;
    while i < c.len() && c[i] != '/'
        invariant
            desde <= i <= c@.len(),
            primera_barra(c@.skip(desde as int)) == (i - desde) + primera_barra(c@.skip(i as int)),
        decreases c@.len() - i,
    {
        assert(c@.skip(i as int).drop_first() =~= c@.skip(i + 1));
        assert(c@.skip(i as int)[0] == c@[i as int]);
        i = i + 1;
    }
    proof {
        if i < c@.len() {
            assert(c@.skip(i as int)[0] == '/');
        }
        lema_primera_barra(c@.skip(i as int));
    }
    i
}

/// Identifica la entidad y la acción que pide una ruta (ver [`resultado_ruta`]).
pub fn parsear_ruta(ruta: &str) -> (r: Result<(Entidad, Acciones), String>)
    ensures
        match resultado_ruta(ruta@) {
            Ok(x) => r == Ok::<(Entidad, Acciones), String>(x),
            Err(m) => r matches Err(e) && e@ == m,
        },
{
    let c = a_caracteres(ruta);
    let n = c.len();
    // saltar las barras iniciales
    let mut ini: usize = 0;
    assert(c@.skip(0) =~= c@);
    while ini < n && c[ini] == '/'
        invariant
            c@ == ruta@,
            n == c@.len(),
            ini <= n,
            sin_barras_iniciales(ruta@) == sin_barras_iniciales(c@.skip(ini as int)),
        decreases n - ini,
    {
        assert(c@.skip(ini as int).drop_first() =~= c@.skip(ini + 1));
        ini = ini + 1;
    }
    let ghost t = c@.skip(ini as int);
    assert(sin_barras_iniciales(t) == t);
    let k1 = primera_barra_desde(&c, ini);
    if k1 == n {
        proof {
            lema_primera_barra(t);
        }
        return Err(copiar("Ruta inválida: se esperaba /entidad/accion"));
    }
    let ghost r1 = c@.skip(k1 + 1);
    proof {
        lema_primera_barra(t);
        assert(t.take(k1 - ini) =~= c@.subrange(ini as int, k1 as int));
        assert(t.skip(k1 - ini + 1) =~= r1);
        assert(tramos(t) == seq![c@.subrange(ini as int, k1 as int)] + tramos(r1));
        lema_tramos_no_vacios(r1);
    }
    let k2 = primera_barra_desde(&c, k1 + 1);
    if k2 == n {
        proof {
            lema_primera_barra(r1);
            assert(r1.take(r1.len() as int) =~= r1);
            assert(tramos(r1) == seq![r1]);
            assert(r1 =~= c@.subrange(k1 + 1, n as int));
            assert(tramos(t) =~= seq![c@.subrange(ini as int, k1 as int), c@.subrange(k1 + 1, n as int)]);
        }
        let entidad = if tramo_igual(&c, ini, k1, "receta") || tramo_igual(&c, ini, k1, "recetas") {
            Entidad::Receta
        } else if tramo_igual(&c, ini, k1, "insumo") || tramo_igual(&c, ini, k1, "insumos") {
            Entidad::Insumo
        } else if tramo_igual(&c, ini, k1, "usuario") || tramo_igual(&c, ini, k1, "usuarios") {
            Entidad::Usuario
        } else {
            let tramo = ruta.substring_char(ini, k1);
            return Err(unir2("Entidad desconocida: ", tramo));
        };
        let accion = if tramo_igual(&c, k1 + 1, n, "crear") {
            Acciones::Crear
        } else if tramo_igual(&c, k1 + 1, n, "editar") {
            Acciones::Editar
        } else if tramo_igual(&c, k1 + 1, n, "eliminar") {
            Acciones::Eliminar
        } else {
            let tramo = ruta.substring_char(k1 + 1, n);
            return Err(unir2("Acción desconocida: ", tramo));
        };
        return Ok((entidad, accion));
    }
    proof {
        lema_primera_barra(r1);
        let r2 = c@.skip(k2 + 1);
        assert(r1.take(k2 - k1 - 1) =~= c@.subrange(k1 + 1, k2 as int));
        assert(r1.skip(k2 - k1) =~= r2);
        assert(tramos(r1) == seq![c@.subrange(k1 + 1, k2 as int)] + tramos(r2));
        lema_tramos_no_vacios(r2);
        assert(tramos(t).len() >= 3);
    }
    Err(copiar("Ruta inválida: se esperaba /entidad/accion"))
}

/// Lo que responde [`verificar_permiso`].
pub open spec fn resultado_permiso(ruta: Seq<char>, token: Seq<u8>) -> Result<(), Seq<char>> {
    match resultado_ruta(ruta) {
        Err(m) => Err(m),
        Ok((entidad, accion)) => match resultado_token(token) {
            Err(m) => Err("Acceso denegado: "@ + m),
            Ok(rol) => if permitido(entidad, rol, accion) {
                Ok(())
            } else {
                Err("El rol "@ + texto_rol(rol) + " no tiene permiso para realizar "@ + texto_accion(accion)
                    + " sobre "@ + texto_entidad(entidad))
            },
        },
    }
}

/// Decide si el token permite la operación que pide la ruta.
pub fn verificar_permiso(ruta: &str, token: &str) -> (r: Result<(), String>)
    requires
        resultado_ruta(ruta@) is Ok ==> token_cortable(token),
    ensures
        match resultado_permiso(ruta@, token.spec_bytes()) {
            Ok(_) => r is Ok,
            Err(m) => r matches Err(e) && e@ == m,
        },
{
    let (entidad, accion) = match parsear_ruta(ruta) {
        Ok(x) => x,
        Err(e) => return Err(e),
    };
    let rol = match verificar_token(token) {
        Ok(r) => r,
        Err(e) => return Err(unir2("Acceso denegado: ", e.as_str())),
    };
    if puede_operar(entidad, rol, accion) {
        Ok(())
    } else {
        let mut m = copiar("El rol ");
        m.append(nombre_rol(rol).as_str());
        m.append(" no tiene permiso para realizar ");
        m.append(nombre_accion(accion).as_str());
        m.append(" sobre ");
        m.append(nombre_entidad(entidad).as_str());
        Err(m)
    }
}

/// Guardia de las rutas protegidas: envuelve un servicio y deja pasar sólo
/// las peticiones que [`verificar_permiso`] acepta; las demás se responden
/// con "prohibido" y el motivo.
pub struct GuardianDeAcceso;

/// Un servicio envuelto por el [`GuardianDeAcceso`].
pub struct GuardianMiddleware<S> {
    pub servicio: S,
}

impl GuardianDeAcceso {
    /// Envuelve un servicio.
    pub fn nuevo_transformador<S>(&self, servicio: S) -> (r: GuardianMiddleware<S>)
        ensures
            r.servicio == servicio,
    {
        GuardianMiddleware { servicio }
    }
}

} // verus!
