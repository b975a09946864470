//! Tablas en memoria del recetario: `recetas` (ordenada por nombre, con
//! identificador y nombre únicos) e `ingredientes_en_receta` (en orden de
//! llegada, con clave única `(receta_id, ingrediente_id)`).
//!
//! Borrar una receta no borra sus filas de ingredientes: el esquema declara
//! las claves foráneas, pero no se activan.
use vstd::prelude::*;
use vstd::utf8::encode_utf8;
use crate::error::{AppError, AppResult, ErrorVista};
use crate::negocio::{dato_invalido, vista_ingredientes, Receta, RecetaVista};
use crate::orden::{lema_insertar_ordenado, lema_pos_insercion_acotada, lema_quitar_ordenado, ordenadas, pos_insercion};
use crate::texto::{comparar_bytes, copiar, unir2, Comparacion};

verus! {

/// Fila de la tabla `recetas`.
pub struct FilaRecetaVista {
    pub id: Seq<char>,
    pub nombre: Seq<char>,
    pub costo: u128,
}

/// Fila de la tabla `ingredientes_en_receta`.
pub struct FilaIngredienteVista {
    pub receta_id: Seq<char>,
    pub ingrediente_id: Seq<char>,
    pub cantidad: u32,
}

/// Vista del recetario: las dos tablas.
pub struct RecetarioVista {
    pub recetas: Seq<FilaRecetaVista>,
    pub ingredientes: Seq<FilaIngredienteVista>,
}

struct FilaReceta {
    id: String,
    nombre: String,
    costo: u128,
}

struct FilaIngrediente {
    receta_id: String,
    ingrediente_id: String,
    cantidad: u32,
}

spec fn vista_fila_receta(f: FilaReceta) -> FilaRecetaVista {
    FilaRecetaVista { id: f.id@, nombre: f.nombre@, costo: f.costo }
}

spec fn vista_fila_ingrediente(f: FilaIngrediente) -> FilaIngredienteVista {
    FilaIngredienteVista { receta_id: f.receta_id@, ingrediente_id: f.ingrediente_id@, cantidad: f.cantidad }
}

spec fn vista_recetas(v: Seq<FilaReceta>) -> Seq<FilaRecetaVista> {
    v.map_values(|f: FilaReceta| vista_fila_receta(f))
}

spec fn vista_filas_ingredientes(v: Seq<FilaIngrediente>) -> Seq<FilaIngredienteVista> {
    v.map_values(|f: FilaIngrediente| vista_fila_ingrediente(f))
}

/// Claves de orden (bytes del nombre) de las recetas.
pub open spec fn claves_recetas(s: Seq<FilaRecetaVista>) -> Seq<Seq<u8>> {
    s.map_values(|v: FilaRecetaVista| encode_utf8(v.nombre))
}

/// Nombres de las recetas, en orden.
pub open spec fn nombres_recetas(s: Seq<FilaRecetaVista>) -> Seq<Seq<char>> {
    s.map_values(|v: FilaRecetaVista| v.nombre)
}

/// Índice de la primera receta con ese identificador.
pub open spec fn indice_id_receta(s: Seq<FilaRecetaVista>, id: Seq<char>) -> Option<int> {
    if exists|i: int| 0 <= i < s.len() && s[i].id == id {
        Some(choose|i: int| 0 <= i < s.len() && s[i].id == id && forall|j: int| 0 <= j < i ==> s[j].id != id)
    } else {
        None
    }
}

/// Índice de la primera receta con ese nombre.
pub open spec fn indice_nombre_receta(s: Seq<FilaRecetaVista>, n: Seq<char>) -> Option<int> {
    if exists|i: int| 0 <= i < s.len() && s[i].nombre == n {
        Some(choose|i: int| 0 <= i < s.len() && s[i].nombre == n && forall|j: int| 0 <= j < i ==> s[j].nombre != n)
    } else {
        None
    }
}

/// Otra receta, distinta de la de índice `i`, tiene ese nombre.
pub open spec fn otro_con_nombre_receta(s: Seq<FilaRecetaVista>, i: int, n: Seq<char>) -> bool {
    exists|j: int| 0 <= j < s.len() && j != i && s[j].nombre == n
}

/// Ingredientes de una receta: sus filas, en orden de llegada.
pub open spec fn ingredientes_de(filas: Seq<FilaIngredienteVista>, id: Seq<char>) -> Seq<(Seq<char>, u32)>
    decreases filas.len(),
{
    if filas.len() == 0 {
        Seq::empty()
    } else if filas.last().receta_id == id {
        ingredientes_de(filas.drop_last(), id).push((filas.last().ingrediente_id, filas.last().cantidad))
    } else {
        ingredientes_de(filas.drop_last(), id)
    }
}

/// Identificadores de las recetas con filas de ese ingrediente, en orden de llegada.
pub open spec fn recetas_con_ingrediente(filas: Seq<FilaIngredienteVista>, ingrediente: Seq<char>) -> Seq<Seq<char>>
    decreases filas.len(),
{
    if filas.len() == 0 {
        Seq::empty()
    } else if filas.last().ingrediente_id == ingrediente {
        recetas_con_ingrediente(filas.drop_last(), ingrediente).push(filas.last().receta_id)
    } else {
        recetas_con_ingrediente(filas.drop_last(), ingrediente)
    }
}

/// Filas de ingredientes para una receta.
pub open spec fn filas_para(id: Seq<char>, l: Seq<(Seq<char>, u32)>) -> Seq<FilaIngredienteVista> {
    l.map_values(|p: (Seq<char>, u32)| FilaIngredienteVista { receta_id: id, ingrediente_id: p.0, cantidad: p.1 })
}

/// Ya hay una fila con esa clave `(receta_id, ingrediente_id)`.
pub open spec fn hay_fila(filas: Seq<FilaIngredienteVista>, id: Seq<char>, ingrediente: Seq<char>) -> bool {
    exists|r: int| 0 <= r < filas.len() && (#[trigger] filas[r]).receta_id == id && filas[r].ingrediente_id == ingrediente
}

/// El ingrediente `k` de la lista ya aparece antes en ella.
pub open spec fn repetido_antes(l: Seq<(Seq<char>, u32)>, k: int) -> bool {
    exists|k2: int| 0 <= k2 < k && (#[trigger] l[k2]).0 == l[k].0
}

/// Insertar esas filas para la receta `id` repetiría una clave `(receta_id, ingrediente_id)`.
pub open spec fn conflicto_clave(filas: Seq<FilaIngredienteVista>, id: Seq<char>, l: Seq<(Seq<char>, u32)>) -> bool {
    exists|k: int| 0 <= k < l.len() && (hay_fila(filas, id, (#[trigger] l[k]).0) || repetido_antes(l, k))
}

/// Recetario válido.
pub open spec fn recetario_valido(v: RecetarioVista) -> bool {
    &&& ordenadas(claves_recetas(v.recetas))
    &&& forall|i: int, j: int| 0 <= i < j < v.recetas.len() ==> (#[trigger] v.recetas[i]).id != (#[trigger] v.recetas[j]).id
    &&& forall|i: int, j: int| 0 <= i < j < v.recetas.len() ==> (#[trigger] v.recetas[i]).nombre != (#[trigger] v.recetas[j]).nombre
    &&& forall|i: int, j: int| 0 <= i < j < v.ingredientes.len() ==> !((#[trigger] v.ingredientes[i]).receta_id
        == (#[trigger] v.ingredientes[j]).receta_id && v.ingredientes[i].ingrediente_id == v.ingredientes[j].ingrediente_id)
}

/// Reemplaza la fila `i` por `v`, que vuelve a su lugar según su nombre.
pub open spec fn reubicar_receta(s: Seq<FilaRecetaVista>, i: int, v: FilaRecetaVista) -> Seq<FilaRecetaVista> {
    s.remove(i).insert(pos_insercion(claves_recetas(s.remove(i)), encode_utf8(v.nombre)) as int, v)
}

/// Índice de una fila de ingredientes de la receta `id`.
pub open spec fn fila_de(filas: Seq<FilaIngredienteVista>, id: Seq<char>) -> int {
    choose|j: int| 0 <= j < filas.len() && filas[j].receta_id == id
}

/// Lo que produce [`RecetarioEnMemoria::editar_receta`] en las tablas.
pub open spec fn resultado_editar_receta(t: RecetarioVista, v: RecetaVista) -> Result<RecetarioVista, ErrorVista> {
    let k = ingredientes_de(t.ingredientes, v.id).len();
    let l = v.ingredientes;
    if indice_id_receta(t.recetas, v.id) matches Some(i) && otro_con_nombre_receta(t.recetas, i, v.nombre) {
        Err(ErrorVista::DbError("UNIQUE constraint failed: recetas.nombre"@))
    } else if k >= 2 && l.len() >= 1 {
        Err(ErrorVista::DbError(mensaje_clave_ingredientes()))
    } else {
        Ok(RecetarioVista {
            recetas: match indice_id_receta(t.recetas, v.id) {
                Some(i) => reubicar_receta(t.recetas, i, FilaRecetaVista { id: v.id, nombre: v.nombre, costo: v.costo }),
                None => t.recetas,
            },
            ingredientes: if k == 1 && l.len() >= 1 {
                t.ingredientes.update(
                    fila_de(t.ingredientes, v.id),
                    FilaIngredienteVista { receta_id: v.id, ingrediente_id: l.last().0, cantidad: l.last().1 },
                )
            } else {
                t.ingredientes
            },
        })
    }
}

/// Una fila de la receta cuenta en sus ingredientes.
proof fn lema_fila_cuenta(f: Seq<FilaIngredienteVista>, id: Seq<char>, a: int)
    requires
        0 <= a < f.len(),
        f[a].receta_id == id,
    ensures
        ingredientes_de(f, id).len() >= 1,
    decreases f.len(),
{
    if a < f.len() - 1 {
        assert(f.drop_last()[a] == f[a]);
        lema_fila_cuenta(f.drop_last(), id, a);
    }
}

/// Dos filas distintas de la receta cuentan dos ingredientes.
proof fn lema_dos_filas(f: Seq<FilaIngredienteVista>, id: Seq<char>, a: int, b: int)
    requires
        0 <= a < b < f.len(),
        f[a].receta_id == id,
        f[b].receta_id == id,
    ensures
        ingredientes_de(f, id).len() >= 2,
    decreases f.len(),
{
    if b == f.len() - 1 {
        assert(f.drop_last()[a] == f[a]);
        lema_fila_cuenta(f.drop_last(), id, a);
    } else {
        assert(f.drop_last()[a] == f[a]);
        assert(f.drop_last()[b] == f[b]);
        lema_dos_filas(f.drop_last(), id, a, b);
    }
}

/// Si la receta tiene una sola fila, esa es la que elige [`fila_de`].
proof fn lema_fila_unica(f: Seq<FilaIngredienteVista>, id: Seq<char>, u: int)
    requires
        0 <= u < f.len(),
        f[u].receta_id == id,
        ingredientes_de(f, id).len() == 1,
    ensures
        fila_de(f, id) == u,
{
    let j = fila_de(f, id);
    assert(0 <= j < f.len() && f[j].receta_id == id);
    if j < u {
        lema_dos_filas(f, id, j, u);
    } else if u < j {
        lema_dos_filas(f, id, u, j);
    }
}

/// Mensaje de clave repetida en `ingredientes_en_receta`.
pub open spec fn mensaje_clave_ingredientes() -> Seq<char> {
    "UNIQUE constraint failed: ingredientes_en_receta.receta_id, ingredientes_en_receta.ingrediente_id"@
}

/// Recetas ordenadas por nombre, sin identificadores ni nombres repetidos.
pub open spec fn recetas_validas(s: Seq<FilaRecetaVista>) -> bool {
    &&& ordenadas(claves_recetas(s))
    &&& forall|i: int, j: int| 0 <= i < j < s.len() ==> (#[trigger] s[i]).id != (#[trigger] s[j]).id
    &&& forall|i: int, j: int| 0 <= i < j < s.len() ==> (#[trigger] s[i]).nombre != (#[trigger] s[j]).nombre
}

/// Filas de ingredientes sin claves `(receta_id, ingrediente_id)` repetidas.
pub open spec fn filas_validas(g: Seq<FilaIngredienteVista>) -> bool {
    forall|i: int, j: int| 0 <= i < j < g.len() ==> !((#[trigger] g[i]).receta_id == (#[trigger] g[j]).receta_id
        && g[i].ingrediente_id == g[j].ingrediente_id)
}

/// Otra receta, distinta de la fila `i`, tiene ese nombre.
fn otro_con_nombre(recetas: &Vec<FilaReceta>, i: usize, nombre: &String) -> (r: bool)
    requires
        i < recetas@.len(),
    ensures
        r == otro_con_nombre_receta(vista_recetas(recetas@), i as int, nombre@),
{
    let ghost s = vista_recetas(recetas@);
    let mut j: usize = 0;
    while j < recetas.len()
        invariant
            s == vista_recetas(recetas@),
            j <= recetas@.len(),
            forall|t: int| 0 <= t < j && t != i ==> s[t].nombre != nombre@,
        decreases recetas@.len() - j,
    {
        if j != i && recetas[j].nombre == *nombre {
            assert(s[j as int].nombre == nombre@);
            return true;
        }
        j = j + 1;
    }
    false
}

/// Cuántas filas de ingredientes tiene la receta `id` y, si tiene alguna, la última.
fn contar_filas(filas: &Vec<FilaIngrediente>, id: &String) -> (r: (usize, usize))
    ensures
        r.0 == ingredientes_de(vista_filas_ingredientes(filas@), id@).len(),
        r.0 == 1 ==> r.1 < filas@.len() && fila_de(vista_filas_ingredientes(filas@), id@) == r.1
            && vista_filas_ingredientes(filas@)[r.1 as int].receta_id == id@
            && forall|j: int| 0 <= j < filas@.len() && j != r.1 ==> (#[trigger] vista_filas_ingredientes(filas@)[j]).receta_id != id@,
{
    let ghost f = vista_filas_ingredientes(filas@);
    let mut cuenta: usize = 0;
    let mut ultima: usize = 0;
    let mut r: usize = 0;
    while r < filas.len()
        invariant
            f == vista_filas_ingredientes(filas@),
            r <= f.len(),
            cuenta <= r,
            cuenta == ingredientes_de(f.take(r as int), id@).len(),
            cuenta > 0 ==> ultima < r && f[ultima as int].receta_id == id@,
        decreases f.len() - r,
    {
        assert(f.take(r + 1).drop_last() =~= f.take(r as int));
        if filas[r].receta_id == *id {
            cuenta = cuenta + 1;
            ultima = r;
        }
        r = r + 1;
    }
    assert(f.take(r as int) =~= f);
    proof {
        if cuenta == 1 {
            lema_fila_unica(f, id@, ultima as int);
            assert forall|j: int| 0 <= j < f.len() && j != ultima implies (#[trigger] f[j]).receta_id != id@ by {
                if f[j].receta_id == id@ {
                    if j < ultima {
                        lema_dos_filas(f, id@, j, ultima as int);
                    } else {
                        lema_dos_filas(f, id@, ultima as int, j);
                    }
                }
            }
        }
    }
    (cuenta, ultima)
}

/// Reemplaza la fila `i` por `fila`, que vuelve a su lugar según su nombre.
fn reubicar_fila_receta(recetas: &mut Vec<FilaReceta>, i: usize, fila: FilaReceta)
    requires
        i < old(recetas)@.len(),
        recetas_validas(vista_recetas(old(recetas)@)),
        fila.id@ == vista_recetas(old(recetas)@)[i as int].id,
        !otro_con_nombre_receta(vista_recetas(old(recetas)@), i as int, fila.nombre@),
    ensures
        vista_recetas(final(recetas)@) == reubicar_receta(vista_recetas(old(recetas)@), i as int, vista_fila_receta(fila)),
        recetas_validas(vista_recetas(final(recetas)@)),
{
    let ghost viejo = vista_recetas(recetas@);
    let ghost fv = vista_fila_receta(fila);
    recetas.remove(i);
    proof {
        assert(vista_recetas(recetas@) =~= viejo.remove(i as int));
        assert(claves_recetas(viejo.remove(i as int)) =~= claves_recetas(viejo).remove(i as int));
        lema_quitar_ordenado(claves_recetas(viejo), i as int);
    }
    let ghost medio = vista_recetas(recetas@);
    let p = posicion_receta(recetas, fila.nombre.as_str().as_bytes());
    proof {
        lema_pos_insercion_acotada(claves_recetas(medio), encode_utf8(fv.nombre));
    }
    recetas.insert(p, fila);
    proof {
        assert(vista_recetas(recetas@) =~= medio.insert(p as int, fv));
        assert(claves_recetas(medio.insert(p as int, fv)) =~= claves_recetas(medio).insert(p as int, encode_utf8(fv.nombre)));
        lema_insertar_ordenado(claves_recetas(medio), encode_utf8(fv.nombre));
        let n = medio.insert(p as int, fv);
        assert forall|a: int, b: int| 0 <= a < b < n.len() implies (#[trigger] n[a]).id != (#[trigger] n[b]).id
            && n[a].nombre != n[b].nombre by {
            let idx = |x: int| if x < p { x } else { x - 1 };
            let orig = |y: int| if y < i { y } else { y + 1 };
            if a == p {
                assert(n[b] == medio[b - 1]);
                assert(medio[b - 1] == viejo[orig(b - 1)]);
            } else if b == p {
                assert(n[a] == medio[a]);
                assert(medio[a] == viejo[orig(a)]);
            } else {
                assert(n[a] == medio[idx(a)] && n[b] == medio[idx(b)]);
                assert(medio[idx(a)] == viejo[orig(idx(a))]);
                assert(medio[idx(b)] == viejo[orig(idx(b))]);
            }
        }
    }
}

/// Cambia la única fila de ingredientes de una receta.
fn actualizar_fila_unica(filas: &mut Vec<FilaIngrediente>, u: usize, nueva: FilaIngrediente)
    requires
        u < old(filas)@.len(),
        filas_validas(vista_filas_ingredientes(old(filas)@)),
        nueva.receta_id@ == vista_filas_ingredientes(old(filas)@)[u as int].receta_id,
        forall|j: int| 0 <= j < old(filas)@.len() && j != u ==> (#[trigger] vista_filas_ingredientes(old(filas)@)[j]).receta_id
            != nueva.receta_id@,
    ensures
        vista_filas_ingredientes(final(filas)@) == vista_filas_ingredientes(old(filas)@).update(u as int, vista_fila_ingrediente(nueva)),
        filas_validas(vista_filas_ingredientes(final(filas)@)),
{
    let ghost f = vista_filas_ingredientes(filas@);
    let ghost fv = vista_fila_ingrediente(nueva);
    filas.set(u, nueva);
    proof {
        assert(vista_filas_ingredientes(filas@) =~= f.update(u as int, fv));
        let g = f.update(u as int, fv);
        assert forall|a: int, b: int| 0 <= a < b < g.len() implies !((#[trigger] g[a]).receta_id == (#[trigger] g[b]).receta_id
            && g[a].ingrediente_id == g[b].ingrediente_id) by {
            if a == u {
                assert(g[b] == f[b]);
            } else if b == u {
                assert(g[a] == f[a]);
            } else {
                assert(g[a] == f[a] && g[b] == f[b]);
            }
        }
    }
}

/// Tablas del recetario.
pub struct RecetarioEnMemoria {
    recetas: Vec<FilaReceta>,
    ingredientes: Vec<FilaIngrediente>,
}

impl View for RecetarioEnMemoria {
    type V = RecetarioVista;

    closed spec fn view(&self) -> RecetarioVista {
        RecetarioVista {
            recetas: vista_recetas(self.recetas@),
            ingredientes: vista_filas_ingredientes(self.ingredientes@),
        }
    }
}

proof fn lema_indice_id_receta(s: Seq<FilaRecetaVista>, i: int)
    requires
        0 <= i < s.len(),
        forall|a: int| 0 <= a < i ==> s[a].id != s[i].id,
    ensures
        indice_id_receta(s, s[i].id) == Some(i),
{
    let id = s[i].id;
    assert(exists|k: int| 0 <= k < s.len() && s[k].id == id);
    let k = choose|k: int| 0 <= k < s.len() && s[k].id == id && forall|j: int| 0 <= j < k ==> s[j].id != id;
    assert(k == i);
}

proof fn lema_indice_nombre_receta(s: Seq<FilaRecetaVista>, i: int)
    requires
        0 <= i < s.len(),
        forall|a: int| 0 <= a < i ==> s[a].nombre != s[i].nombre,
    ensures
        indice_nombre_receta(s, s[i].nombre) == Some(i),
{
    let n = s[i].nombre;
    assert(exists|k: int| 0 <= k < s.len() && s[k].nombre == n);
    let k = choose|k: int| 0 <= k < s.len() && s[k].nombre == n && forall|j: int| 0 <= j < k ==> s[j].nombre != n;
    assert(k == i);
}

fn posicion_receta(filas: &Vec<FilaReceta>, clave: &[u8]) -> (p: usize)
    ensures
        p == pos_insercion(claves_recetas(vista_recetas(filas@)), clave@),
{
    let ghost k = claves_recetas(vista_recetas(filas@));
    let mut i: usize = 0;
    assert(k.skip(0) =~= k);
    while i < filas.len()
        invariant
            k == claves_recetas(vista_recetas(filas@)),
            i <= filas@.len(),
            pos_insercion(k, clave@) == i + pos_insercion(k.skip(i as int), clave@),
        decreases filas@.len() - i,
    {
        let b = filas[i].nombre.as_str().as_bytes();
        assert(b@ == k[i as int]);
        assert(k.skip(i as int)[0] == k[i as int]);
        match comparar_bytes(clave, b) {
            Comparacion::Menor => {
                return i;
            },
            _ => {},
        }
        assert(k.skip(i as int).drop_first() =~= k.skip(i + 1));
        i = i + 1;
    }
    i
}

impl RecetarioEnMemoria {
    #[verifier::type_invariant]
    spec fn invariante(self) -> bool {
        recetario_valido(self@)
    }

    /// Recetario vacío.
    pub fn nuevo() -> (r: RecetarioEnMemoria)
        ensures
            r@.recetas == Seq::<FilaRecetaVista>::empty(),
            r@.ingredientes == Seq::<FilaIngredienteVista>::empty(),
    {
        let r = RecetarioEnMemoria { recetas: Vec::new(), ingredientes: Vec::new() };
        assert(vista_recetas(r.recetas@) =~= Seq::<FilaRecetaVista>::empty());
        assert(vista_filas_ingredientes(r.ingredientes@) =~= Seq::<FilaIngredienteVista>::empty());
        r
    }

    fn buscar_id(&self, id: &String) -> (r: Option<usize>)
        ensures
            match r {
                Some(i) => indice_id_receta(self@.recetas, id@) == Some(i as int),
                None => indice_id_receta(self@.recetas, id@) is None,
            },
            r matches Some(i) ==> i < self@.recetas.len(),
    {
        proof {
            use_type_invariant(self);
        }
        let mut i: usize = 0;
        while i < self.recetas.len()
            invariant
                i <= self.recetas@.len(),
                forall|j: int| 0 <= j < i ==> self@.recetas[j].id != id@,
            decreases self.recetas@.len() - i,
        {
            if self.recetas[i].id == *id {
                proof {
                    lema_indice_id_receta(self@.recetas, i as int);
                }
                return Some(i);
            }
            i = i + 1;
        }
        None
    }

    fn buscar_nombre(&self, nombre: &String) -> (r: Option<usize>)
        ensures
            match r {
                Some(i) => indice_nombre_receta(self@.recetas, nombre@) == Some(i as int),
                None => indice_nombre_receta(self@.recetas, nombre@) is None,
            },
            r matches Some(i) ==> i < self@.recetas.len(),
    {
        let mut i: usize = 0;
        while i < self.recetas.len()
            invariant
                i <= self.recetas@.len(),
                forall|j: int| 0 <= j < i ==> self@.recetas[j].nombre != nombre@,
            decreases self.recetas@.len() - i,
        {
            if self.recetas[i].nombre == *nombre {
                proof {
                    lema_indice_nombre_receta(self@.recetas, i as int);
                }
                return Some(i);
            }
            i = i + 1;
        }
        None
    }

    /// Identificador de la receta de ese nombre.
    pub fn obtener_id_con_nombre(&self, nombre: &String) -> (r: AppResult<String>)
        ensures
            match indice_nombre_receta(self@.recetas, nombre@) {
                None => r matches Err(e) && e@ == dato_invalido("No se encontro el insumo: "@ + nombre@),
                Some(i) => r matches Ok(x) && x@ == self@.recetas[i].id,
            },
    {
        match self.buscar_nombre(nombre) {
            Some(i) => Ok(self.recetas[i].id.clone()),
            None => Err(AppError::DatoInvalido(unir2("No se encontro el insumo: ", nombre.as_str()))),
        }
    }

    /// Nombre de la receta con ese identificador.
    pub fn obtener_nombre_con_id(&self, id: &String) -> (r: AppResult<String>)
        ensures
            match indice_id_receta(self@.recetas, id@) {
                None => r matches Err(e) && e@ == dato_invalido("No se encontro el insumo con id: "@ + id@),
                Some(i) => r matches Ok(x) && x@ == self@.recetas[i].nombre,
            },
    {
        match self.buscar_id(id) {
            Some(i) => Ok(self.recetas[i].nombre.clone()),
            None => Err(AppError::DatoInvalido(unir2("No se encontro el insumo con id: ", id.as_str()))),
        }
    }

    /// Nombres de las recetas, en orden de nombre.
    pub fn listar(&self) -> (r: Vec<String>)
        ensures
            r@.map_values(|s: String| s@) == nombres_recetas(self@.recetas),
            recetario_valido(self@),
    {
        proof {
            use_type_invariant(self);
        }
        let mut r: Vec<String> = Vec::new();
        let mut i: usize = 0;
        while i < self.recetas.len()
            invariant
                i <= self.recetas@.len(),
                r@.map_values(|s: String| s@) == nombres_recetas(self@.recetas).take(i as int),
            decreases self.recetas@.len() - i,
        {
            let ghost antes = r@;
            r.push(self.recetas[i].nombre.clone());
            proof {
                assert(r@.map_values(|s: String| s@) =~= antes.map_values(|s: String| s@).push(self@.recetas[i as int].nombre));
                assert(nombres_recetas(self@.recetas).take(i + 1) =~= nombres_recetas(self@.recetas).take(i as int).push(
                    self@.recetas[i as int].nombre,
                ));
            }
            i = i + 1;
        }
        assert(nombres_recetas(self@.recetas).take(i as int) =~= nombres_recetas(self@.recetas));
        r
    }

    /// Ingredientes (identificador de insumo y gramos) de la receta `id`, en orden de llegada.
    fn ingredientes_de_receta(&self, id: &String) -> (r: Vec<(String, u32)>)
        ensures
            vista_ingredientes(r@) == ingredientes_de(self@.ingredientes, id@),
    {
        let ghost f = self@.ingredientes;
        let mut r: Vec<(String, u32)> = Vec::new();
        let mut i: usize = 0;
        while i < self.ingredientes.len()
            invariant
                f == self@.ingredientes,
                i <= self.ingredientes@.len(),
                vista_ingredientes(r@) == ingredientes_de(f.take(i as int), id@),
            decreases self.ingredientes@.len() - i,
        {
            let ghost antes = r@;
            assert(f.take(i + 1).drop_last() =~= f.take(i as int));
            assert(f.take(i + 1).last() == f[i as int]);
            if self.ingredientes[i].receta_id == *id {
                r.push((self.ingredientes[i].ingrediente_id.clone(), self.ingredientes[i].cantidad));
                assert(vista_ingredientes(r@) =~= vista_ingredientes(antes).push(
                    (f[i as int].ingrediente_id, f[i as int].cantidad),
                ));
            }
            i = i + 1;
        }
        assert(f.take(i as int) =~= f);
        r
    }

    /// La receta de ese nombre, con sus ingredientes.
    pub fn obtener(&self, busqueda: &String) -> (r: AppResult<Receta>)
        ensures
            match indice_nombre_receta(self@.recetas, busqueda@) {
                None => r matches Err(e) && e@ == dato_invalido("No se encontro el insumo: "@ + busqueda@),
                Some(i) => r matches Ok(x) && x@ == (RecetaVista {
                    id: self@.recetas[i].id,
                    nombre: self@.recetas[i].nombre,
                    ingredientes: ingredientes_de(self@.ingredientes, self@.recetas[i].id),
                    costo: self@.recetas[i].costo,
                }),
            },
    {
        let i = match self.buscar_nombre(busqueda) {
            Some(i) => i,
            None => {
                return Err(AppError::DatoInvalido(unir2("No se encontro el insumo: ", busqueda.as_str())));
            },
        };
        let fila = &self.recetas[i];
        let ingredientes = self.ingredientes_de_receta(&fila.id);
        Ok(Receta::desde_db(fila.id.clone(), fila.nombre.clone(), ingredientes, fila.costo))
    }

    /// Identificadores de las recetas que usan ese insumo, en orden de llegada
    /// de sus filas de ingredientes.
    pub fn insumo_en_recetas(&self, insumo_id: &String) -> (r: Vec<String>)
        ensures
            r@.map_values(|s: String| s@) == recetas_con_ingrediente(self@.ingredientes, insumo_id@),
    {
        let ghost f = self@.ingredientes;
        let mut r: Vec<String> = Vec::new();
        let mut i: usize = 0;
        while i < self.ingredientes.len()
            invariant
                f == self@.ingredientes,
                i <= self.ingredientes@.len(),
                r@.map_values(|s: String| s@) == recetas_con_ingrediente(f.take(i as int), insumo_id@),
            decreases self.ingredientes@.len() - i,
        {
            let ghost antes = r@;
            assert(f.take(i + 1).drop_last() =~= f.take(i as int));
            assert(f.take(i + 1).last() == f[i as int]);
            if self.ingredientes[i].ingrediente_id == *insumo_id {
                r.push(self.ingredientes[i].receta_id.clone());
                assert(r@.map_values(|s: String| s@) =~= antes.map_values(|s: String| s@).push(f[i as int].receta_id));
            }
            i = i + 1;
        }
        assert(f.take(i as int) =~= f);
        r
    }
    /// Hay conflicto de clave al agregar esas filas para la receta `id`.
    fn hay_conflicto(&self, id: &String, l: &Vec<(String, u32)>) -> (r: bool)
        ensures
            r == conflicto_clave(self@.ingredientes, id@, vista_ingredientes(l@)),
    {
        let ghost f = self@.ingredientes;
        let ghost lv = vista_ingredientes(l@);
        let mut k: usize = 0;
        while k < l.len()
            invariant
                f == self@.ingredientes,
                lv == vista_ingredientes(l@),
                k <= l@.len(),
                forall|kk: int| 0 <= kk < k ==> !(hay_fila(f, id@, (#[trigger] lv[kk]).0) || repetido_antes(lv, kk)),
            decreases l@.len() - k,
        {
            let mut r: usize = 0;
            while r < self.ingredientes.len()
                invariant
                    f == self@.ingredientes,
                    lv == vista_ingredientes(l@),
                    k < l@.len(),
                    r <= self.ingredientes@.len(),
                    forall|rr: int| 0 <= rr < r ==> !((#[trigger] f[rr]).receta_id == id@ && f[rr].ingrediente_id == lv[k as int].0),
                decreases self.ingredientes@.len() - r,
            {
                if self.ingredientes[r].receta_id == *id && self.ingredientes[r].ingrediente_id == l[k].0 {
                    assert(hay_fila(f, id@, lv[k as int].0)) by {
                        assert(f[r as int].receta_id == id@);
                    }
                    return true;
                }
                r = r + 1;
            }
            let mut k2: usize = 0;
            while k2 < k
                invariant
                    lv == vista_ingredientes(l@),
                    k < l@.len(),
                    k2 <= k,
                    forall|t: int| 0 <= t < k2 ==> (#[trigger] lv[t]).0 != lv[k as int].0,
                decreases k - k2,
            {
                if l[k2].0 == l[k].0 {
                    assert(repetido_antes(lv, k as int)) by {
                        assert(lv[k2 as int].0 == lv[k as int].0);
                    }
                    return true;
                }
                k2 = k2 + 1;
            }
            k = k + 1;
        }
        false
    }

    /// Agrega una receta con sus filas de ingredientes; como las tablas,
    /// rechaza un identificador o nombre repetidos y una clave
    /// `(receta_id, ingrediente_id)` repetida, y en ese caso no cambia nada.
    pub fn anadir(&mut self, receta: Receta) -> (r: AppResult<()>)
        ensures
            indice_id_receta(old(self)@.recetas, receta@.id) is Some ==> (r matches Err(e) && e@ == ErrorVista::DbError(
                "UNIQUE constraint failed: recetas.id"@,
            ) && final(self)@ == old(self)@),
            indice_id_receta(old(self)@.recetas, receta@.id) is None && indice_nombre_receta(
                old(self)@.recetas,
                receta@.nombre,
            ) is Some ==> (r matches Err(e) && e@ == ErrorVista::DbError("UNIQUE constraint failed: recetas.nombre"@)
                && final(self)@ == old(self)@),
            indice_id_receta(old(self)@.recetas, receta@.id) is None && indice_nombre_receta(
                old(self)@.recetas,
                receta@.nombre,
            ) is None && conflicto_clave(old(self)@.ingredientes, receta@.id, receta@.ingredientes) ==> (r matches Err(e)
                && e@ == ErrorVista::DbError(mensaje_clave_ingredientes()) && final(self)@ == old(self)@),
            indice_id_receta(old(self)@.recetas, receta@.id) is None && indice_nombre_receta(
                old(self)@.recetas,
                receta@.nombre,
            ) is None && !conflicto_clave(old(self)@.ingredientes, receta@.id, receta@.ingredientes) ==> r is Ok
                && final(self)@.recetas == old(self)@.recetas.insert(
                pos_insercion(claves_recetas(old(self)@.recetas), encode_utf8(receta@.nombre)) as int,
                FilaRecetaVista { id: receta@.id, nombre: receta@.nombre, costo: receta@.costo },
            ) && final(self)@.ingredientes == old(self)@.ingredientes + filas_para(receta@.id, receta@.ingredientes),
    {
        proof {
            use_type_invariant(&*self);
        }
        let id = receta.obtener_id();
        let nombre = receta.nombre();
        let l = receta.ingredientes();
        let costo = receta.costo();
        if self.buscar_id(&id).is_some() {
            return Err(AppError::DbError(copiar("UNIQUE constraint failed: recetas.id")));
        }
        if self.buscar_nombre(&nombre).is_some() {
            return Err(AppError::DbError(copiar("UNIQUE constraint failed: recetas.nombre")));
        }
        if self.hay_conflicto(&id, &l) {
            return Err(AppError::DbError(copiar(
                "UNIQUE constraint failed: ingredientes_en_receta.receta_id, ingredientes_en_receta.ingrediente_id",
            )));
        }
        let ghost viejo = self@;
        let ghost fila = FilaRecetaVista { id: id@, nombre: nombre@, costo };
        let p = posicion_receta(&self.recetas, nombre.as_str().as_bytes());
        proof {
            lema_pos_insercion_acotada(claves_recetas(viejo.recetas), encode_utf8(nombre@));
        }
        let mut recetas: Vec<FilaReceta> = Vec::new();
        let mut ingredientes: Vec<FilaIngrediente> = Vec::new();
        std::mem::swap(&mut recetas, &mut self.recetas);
        std::mem::swap(&mut ingredientes, &mut self.ingredientes);
        recetas.insert(p, FilaReceta { id: id.clone(), nombre, costo });
        let ghost lv = vista_ingredientes(l@);
        let mut k: usize = 0;
        while k < l.len()
            invariant
                lv == vista_ingredientes(l@),
                k <= l@.len(),
                vista_filas_ingredientes(ingredientes@) == viejo.ingredientes + filas_para(id@, lv.take(k as int)),
            decreases l@.len() - k,
        {
            let ghost antes = ingredientes@;
            ingredientes.push(FilaIngrediente { receta_id: id.clone(), ingrediente_id: l[k].0.clone(), cantidad: l[k].1 });
            proof {
                assert(lv.take(k + 1) =~= lv.take(k as int).push(lv[k as int]));
                assert(filas_para(id@, lv.take(k + 1)) =~= filas_para(id@, lv.take(k as int)).push(
                    FilaIngredienteVista { receta_id: id@, ingrediente_id: lv[k as int].0, cantidad: lv[k as int].1 },
                ));
                assert(vista_filas_ingredientes(ingredientes@) =~= vista_filas_ingredientes(antes).push(
                    FilaIngredienteVista { receta_id: id@, ingrediente_id: lv[k as int].0, cantidad: lv[k as int].1 },
                ));
            }
            k = k + 1;
        }
        proof {
            assert(lv.take(k as int) =~= lv);
            assert(vista_recetas(recetas@) =~= viejo.recetas.insert(p as int, fila));
            assert(claves_recetas(viejo.recetas.insert(p as int, fila)) =~= claves_recetas(viejo.recetas).insert(
                p as int,
                encode_utf8(fila.nombre),
            ));
            lema_insertar_ordenado(claves_recetas(viejo.recetas), encode_utf8(fila.nombre));
            let n = viejo.recetas.insert(p as int, fila);
            assert forall|i: int, j: int| 0 <= i < j < n.len() implies (#[trigger] n[i]).id != (#[trigger] n[j]).id
                && n[i].nombre != n[j].nombre by {
                if i == p {
                    assert(n[j] == viejo.recetas[j - 1]);
                } else if j == p {
                    assert(n[i] == viejo.recetas[i]);
                } else {
                    let i2 = if i < p { i } else { i - 1 };
                    let j2 = if j < p { j } else { j - 1 };
                    assert(n[i] == viejo.recetas[i2] && n[j] == viejo.recetas[j2]);
                }
            }
            let g = viejo.ingredientes + filas_para(id@, lv);
            let vl = viejo.ingredientes.len();
            assert forall|i: int, j: int| 0 <= i < j < g.len() implies !((#[trigger] g[i]).receta_id == (#[trigger] g[j]).receta_id
                && g[i].ingrediente_id == g[j].ingrediente_id) by {
                if j >= vl {
                    let kj = j - vl;
                    assert(g[j] == FilaIngredienteVista { receta_id: id@, ingrediente_id: lv[kj].0, cantidad: lv[kj].1 });
                    assert(!(hay_fila(viejo.ingredientes, id@, lv[kj].0) || repetido_antes(lv, kj)));
                    if i < vl {
                        assert(g[i] == viejo.ingredientes[i]);
                    } else {
                        let ki = i - vl;
                        assert(g[i] == FilaIngredienteVista { receta_id: id@, ingrediente_id: lv[ki].0, cantidad: lv[ki].1 });
                    }
                } else {
                    assert(g[i] == viejo.ingredientes[i] && g[j] == viejo.ingredientes[j]);
                }
            }
        }
        self.recetas = recetas;
        self.ingredientes = ingredientes;
        Ok(())
    }

    /// Borra la receta de ese nombre; sus filas de ingredientes quedan.
    pub fn eliminar(&mut self, nombre: &String) -> (r: AppResult<()>)
        ensures
            match indice_nombre_receta(old(self)@.recetas, nombre@) {
                None => r matches Err(e) && e@ == dato_invalido("No se encontro el insumo: "@ + nombre@)
                    && final(self)@ == old(self)@,
                Some(i) => r is Ok && final(self)@.recetas == old(self)@.recetas.remove(i)
                    && final(self)@.ingredientes == old(self)@.ingredientes,
            },
    {
        proof {
            use_type_invariant(&*self);
        }
        let i = match self.buscar_nombre(nombre) {
            Some(i) => i,
            None => {
                return Err(AppError::DatoInvalido(unir2("No se encontro el insumo: ", nombre.as_str())));
            },
        };
        let ghost viejo = self@;
        assert(recetario_valido(viejo));
        assert(recetario_valido(RecetarioVista { recetas: Seq::empty(), ingredientes: viejo.ingredientes }));
        let mut recetas: Vec<FilaReceta> = Vec::new();
        std::mem::swap(&mut recetas, &mut self.recetas);
        recetas.remove(i);
        proof {
            assert(vista_recetas(recetas@) =~= viejo.recetas.remove(i as int));
            assert(claves_recetas(viejo.recetas.remove(i as int)) =~= claves_recetas(viejo.recetas).remove(i as int));
            lema_quitar_ordenado(claves_recetas(viejo.recetas), i as int);
            let n = viejo.recetas.remove(i as int);
            assert forall|a: int, b: int| 0 <= a < b < n.len() implies (#[trigger] n[a]).id != (#[trigger] n[b]).id
                && n[a].nombre != n[b].nombre by {
                let a2 = if a < i { a } else { a + 1 };
                let b2 = if b < i { b } else { b + 1 };
                assert(n[a] == viejo.recetas[a2] && n[b] == viejo.recetas[b2]);
            }
            assert(recetario_valido(RecetarioVista { recetas: n, ingredientes: viejo.ingredientes }));
        }
        self.recetas = recetas;
        Ok(())
    }

    /// Todas las recetas con sus ingredientes, en orden de nombre.
    pub fn obtener_todos(&self) -> (r: Vec<Receta>)
        ensures
            r@.len() == self@.recetas.len(),
            forall|i: int| 0 <= i < r@.len() ==> (#[trigger] r@[i])@ == (RecetaVista {
                id: self@.recetas[i].id,
                nombre: self@.recetas[i].nombre,
                ingredientes: ingredientes_de(self@.ingredientes, self@.recetas[i].id),
                costo: self@.recetas[i].costo,
            }),
    {
        let mut r: Vec<Receta> = Vec::new();
        let mut i: usize = 0;
        while i < self.recetas.len()
            invariant
                i <= self.recetas@.len(),
                r@.len() == i,
                forall|j: int| 0 <= j < i ==> (#[trigger] r@[j])@ == (RecetaVista {
                    id: self@.recetas[j].id,
                    nombre: self@.recetas[j].nombre,
                    ingredientes: ingredientes_de(self@.ingredientes, self@.recetas[j].id),
                    costo: self@.recetas[j].costo,
                }),
            decreases self.recetas@.len() - i,
        {
            let fila = &self.recetas[i];
            let ingredientes = self.ingredientes_de_receta(&fila.id);
            r.push(Receta::desde_db(fila.id.clone(), fila.nombre.clone(), ingredientes, fila.costo));
            i = i + 1;
        }
        r
    }

    /// Filas de la tabla `recetas`: identificador, nombre y costo.
    pub fn filas_recetas(&self) -> (r: Vec<(String, String, u128)>)
        ensures
            r@.len() == self@.recetas.len(),
            forall|i: int| 0 <= i < r@.len() ==> (#[trigger] r@[i]).0@ == self@.recetas[i].id
                && r@[i].1@ == self@.recetas[i].nombre && r@[i].2 == self@.recetas[i].costo,
    {
        let mut r: Vec<(String, String, u128)> = Vec::new();
        let mut i: usize = 0;
        while i < self.recetas.len()
            invariant
                i <= self.recetas@.len(),
                r@.len() == i,
                forall|j: int| 0 <= j < i ==> (#[trigger] r@[j]).0@ == self@.recetas[j].id
                    && r@[j].1@ == self@.recetas[j].nombre && r@[j].2 == self@.recetas[j].costo,
            decreases self.recetas@.len() - i,
        {
            r.push((self.recetas[i].id.clone(), self.recetas[i].nombre.clone(), self.recetas[i].costo));
            i = i + 1;
        }
        r
    }

    /// Filas de la tabla `ingredientes_en_receta`: receta, ingrediente y gramos.
    pub fn filas_ingredientes(&self) -> (r: Vec<(String, String, u32)>)
        ensures
            r@.len() == self@.ingredientes.len(),
            forall|i: int| 0 <= i < r@.len() ==> (#[trigger] r@[i]).0@ == self@.ingredientes[i].receta_id
                && r@[i].1@ == self@.ingredientes[i].ingrediente_id && r@[i].2 == self@.ingredientes[i].cantidad,
    {
        let mut r: Vec<(String, String, u32)> = Vec::new();
        let mut i: usize = 0;
        while i < self.ingredientes.len()
            invariant
                i <= self.ingredientes@.len(),
                r@.len() == i,
                forall|j: int| 0 <= j < i ==> (#[trigger] r@[j]).0@ == self@.ingredientes[j].receta_id
                    && r@[j].1@ == self@.ingredientes[j].ingrediente_id && r@[j].2 == self@.ingredientes[j].cantidad,
            decreases self.ingredientes@.len() - i,
        {
            let f = &self.ingredientes[i];
            r.push((f.receta_id.clone(), f.ingrediente_id.clone(), f.cantidad));
            i = i + 1;
        }
        r
    }
    /// Agrega una fila a `ingredientes_en_receta`; rechaza una clave
    /// `(receta_id, ingrediente_id)` repetida.
    pub fn cargar_ingrediente(&mut self, receta_id: String, ingrediente_id: String, cantidad: u32) -> (r: AppResult<()>)
        ensures
            hay_fila(old(self)@.ingredientes, receta_id@, ingrediente_id@) ==> (r matches Err(e) && e@ == ErrorVista::DbError(
                mensaje_clave_ingredientes(),
            ) && final(self)@ == old(self)@),
            !hay_fila(old(self)@.ingredientes, receta_id@, ingrediente_id@) ==> r is Ok && final(self)@.recetas == old(
                self,
            )@.recetas && final(self)@.ingredientes == old(self)@.ingredientes.push(
                FilaIngredienteVista { receta_id: receta_id@, ingrediente_id: ingrediente_id@, cantidad },
            ),
    {
        proof {
            use_type_invariant(&*self);
        }
        let ghost f = self@.ingredientes;
        let mut r: usize = 0;
        while r < self.ingredientes.len()
            invariant
                f == self@.ingredientes,
                r <= self.ingredientes@.len(),
                forall|rr: int| 0 <= rr < r ==> !((#[trigger] f[rr]).receta_id == receta_id@ && f[rr].ingrediente_id == ingrediente_id@),
            decreases self.ingredientes@.len() - r,
        {
            if self.ingredientes[r].receta_id == receta_id && self.ingredientes[r].ingrediente_id == ingrediente_id {
                assert(hay_fila(f, receta_id@, ingrediente_id@)) by {
                    assert(f[r as int].receta_id == receta_id@);
                }
                return Err(AppError::DbError(copiar(
                    "UNIQUE constraint failed: ingredientes_en_receta.receta_id, ingredientes_en_receta.ingrediente_id",
                )));
            }
            r = r + 1;
        }
        let ghost viejo = self@;
        let ghost nueva = FilaIngredienteVista { receta_id: receta_id@, ingrediente_id: ingrediente_id@, cantidad };
        let mut ingredientes: Vec<FilaIngrediente> = Vec::new();
        std::mem::swap(&mut ingredientes, &mut self.ingredientes);
        ingredientes.push(FilaIngrediente { receta_id, ingrediente_id, cantidad });
        proof {
            assert(vista_filas_ingredientes(ingredientes@) =~= viejo.ingredientes.push(nueva));
            let g = viejo.ingredientes.push(nueva);
            assert forall|i: int, j: int| 0 <= i < j < g.len() implies !((#[trigger] g[i]).receta_id == (#[trigger] g[j]).receta_id
                && g[i].ingrediente_id == g[j].ingrediente_id) by {
                if j == g.len() - 1 {
                    assert(g[i] == viejo.ingredientes[i]);
                } else {
                    assert(g[i] == viejo.ingredientes[i] && g[j] == viejo.ingredientes[j]);
                }
            }
        }
        self.ingredientes = ingredientes;
        Ok(())
    }

    /// Guarda los datos de una receta en la fila de su identificador, como lo
    /// hace la base de datos: cambia nombre y costo (rechazando un nombre de
    /// otra receta) y asigna a todas las filas de ingredientes de la receta,
    /// uno tras otro, cada ingrediente de la lista. Con dos o más filas eso
    /// repite una clave y nada cambia; con una sola, queda el último
    /// ingrediente de la lista.
    pub fn editar_receta(&mut self, receta: Receta) -> (r: AppResult<()>)
        ensures
            match resultado_editar_receta(old(self)@, receta@) {
                Err(e) => r matches Err(x) && x@ == e && final(self)@ == old(self)@,
                Ok(v) => r is Ok && final(self)@ == v,
            },
    {
        proof {
            use_type_invariant(&*self);
        }
        let id = receta.obtener_id();
        let nombre = receta.nombre();
        let l = receta.ingredientes();
        let costo = receta.costo();
        let ghost viejo = self@;
        let indice = self.buscar_id(&id);
        if let Some(i) = indice {
            if otro_con_nombre(&self.recetas, i, &nombre) {
                return Err(AppError::DbError(copiar("UNIQUE constraint failed: recetas.nombre")));
            }
        }
        let (cuenta, ultima) = contar_filas(&self.ingredientes, &id);
        if cuenta >= 2 && l.len() >= 1 {
            return Err(AppError::DbError(copiar(
                "UNIQUE constraint failed: ingredientes_en_receta.receta_id, ingredientes_en_receta.ingrediente_id",
            )));
        }
        let mut recetas: Vec<FilaReceta> = Vec::new();
        let mut ingredientes: Vec<FilaIngrediente> = Vec::new();
        std::mem::swap(&mut recetas, &mut self.recetas);
        std::mem::swap(&mut ingredientes, &mut self.ingredientes);
        if let Some(i) = indice {
            reubicar_fila_receta(&mut recetas, i, FilaReceta { id: id.clone(), nombre, costo });
        }
        if cuenta == 1 && l.len() >= 1 {
            let ult = l.len() - 1;
            let nueva = FilaIngrediente { receta_id: id.clone(), ingrediente_id: l[ult].0.clone(), cantidad: l[ult].1 };
            actualizar_fila_unica(&mut ingredientes, ultima, nueva);
        }
        self.recetas = recetas;
        self.ingredientes = ingredientes;
        Ok(())
    }
}

} // verus!
