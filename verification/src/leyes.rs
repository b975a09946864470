//! Propiedades del inventario que relacionan varias operaciones: lo que una
//! consulta devuelve tras un alta o una baja, qué cambia la producción y qué
//! devuelve una búsqueda.
use vstd::prelude::*;
use crate::busqueda::{coincide, es_primer_minimo, filtrar_coincidencias, resultado_busqueda};
use crate::externos::levenshtein;
use crate::negocio::InsumoVista;
use crate::recetario::{
    filas_para, indice_nombre_receta, ingredientes_de, nombres_recetas, recetas_validas, FilaIngredienteVista,
    RecetarioVista,
};
use crate::repositorio::{almacen_valido, indice_nombre_insumo, lema_indice_nombre_insumo, nombres_insumos};
use crate::servicio::{error_edicion_insumo, insumo_agregado, insumo_editado, reubicar_insumo};
use crate::servicio_recetas::{con_receta, consumir, consumir_lista, error_editar_receta, producir, receta_en};
use crate::error::ErrorVista;
use crate::negocio::error_personal;
use crate::recetario::recetas_con_ingrediente;
use crate::texto::contiene_sub;
use vstd::utf8::encode_utf8;

verus! {

// ---------------------------------------------------------------- Búsqueda

proof fn lema_filtrar_en_lista(s: Seq<Seq<char>>, b: Seq<char>)
    ensures
        forall|k: int| 0 <= k < filtrar_coincidencias(s, b).len() ==> s.contains(
            #[trigger] filtrar_coincidencias(s, b)[k],
        ) && coincide(filtrar_coincidencias(s, b)[k], b),
    decreases s.len(),
{
    if s.len() > 0 {
        let d = s.drop_last();
        lema_filtrar_en_lista(d, b);
        let f = filtrar_coincidencias(s, b);
        assert forall|k: int| 0 <= k < f.len() implies s.contains(#[trigger] f[k]) && coincide(f[k], b) by {
            if coincide(s.last(), b) && k == f.len() - 1 {
                assert(s[s.len() - 1] == f[k]);
            } else {
                let fd = filtrar_coincidencias(d, b);
                assert(f[k] == fd[k]);
                let t = choose|t: int| 0 <= t < d.len() && d[t] == fd[k];
                assert(s[t] == f[k]);
            }
        }
    }
}

proof fn lema_existe_primer_minimo(s: Seq<Seq<char>>, b: Seq<char>)
    requires
        s.len() > 0,
    ensures
        exists|i: int| es_primer_minimo(s, b, i),
    decreases s.len(),
{
    if s.len() == 1 {
        assert(es_primer_minimo(s, b, 0));
    } else {
        let d = s.drop_last();
        lema_existe_primer_minimo(d, b);
        let i = choose|i: int| es_primer_minimo(d, b, i);
        let u = s.len() - 1;
        if levenshtein(s[u], b) < levenshtein(s[i], b) {
            assert forall|j: int| 0 <= j < u implies levenshtein(s[u], b) < levenshtein(#[trigger] s[j], b) by {
                assert(s[j] == d[j]);
            }
            assert(es_primer_minimo(s, b, u));
        } else {
            assert forall|j: int| 0 <= j < s.len() implies levenshtein(s[i], b) <= levenshtein(#[trigger] s[j], b) by {
                if j < u {
                    assert(s[j] == d[j]);
                }
            }
            assert forall|j: int| 0 <= j < i implies levenshtein(s[i], b) < levenshtein(#[trigger] s[j], b) by {
                assert(s[j] == d[j]);
            }
            assert(es_primer_minimo(s, b, i));
        }
    }
}

/// Una búsqueda sólo devuelve nombres de la lista; en una lista no vacía
/// siempre devuelve algo; y si algún nombre contiene el texto buscado, todos
/// los devueltos lo contienen.
pub proof fn lema_busqueda(s: Seq<Seq<char>>, b: Seq<char>)
    ensures
        forall|k: int| 0 <= k < resultado_busqueda(s, b).len() ==> s.contains(#[trigger] resultado_busqueda(s, b)[k]),
        s.len() > 0 ==> resultado_busqueda(s, b).len() > 0,
        filtrar_coincidencias(s, b).len() > 0 ==> forall|k: int| 0 <= k < resultado_busqueda(s, b).len() ==> coincide(
            #[trigger] resultado_busqueda(s, b)[k],
            b,
        ),
{
    lema_filtrar_en_lista(s, b);
    if filtrar_coincidencias(s, b).len() == 0 && s.len() > 0 {
        lema_existe_primer_minimo(s, b);
        let i = choose|i: int| es_primer_minimo(s, b, i);
        let r = resultado_busqueda(s, b);
        assert forall|k: int| 0 <= k < r.len() implies s.contains(#[trigger] r[k]) by {
            assert(s[i] == r[k]);
        }
    }
}

// ---------------------------------------------------------------- Almacén

/// Tras dar de alta un insumo de nombre nuevo, la consulta por ese nombre
/// lo encuentra con los datos del alta.
pub proof fn lema_alta_y_consulta_insumo(
    viejo: Seq<InsumoVista>,
    nuevo: Seq<InsumoVista>,
    nombre: Seq<char>,
    cantidad: u32,
    precio: u32,
    cantidad_minima: u32,
)
    requires
        !nombres_insumos(viejo).contains(nombre),
        insumo_agregado(viejo, nuevo, nombre, cantidad, precio, cantidad_minima),
    ensures
        nombres_insumos(nuevo).contains(nombre),
        indice_nombre_insumo(nuevo, nombre) matches Some(i) && nuevo[i].nombre == nombre && nuevo[i].cantidad
            == cantidad && nuevo[i].precio == precio && nuevo[i].cantidad_minima == cantidad_minima,
{
    let id = choose|id: Seq<char>| {
        let v = InsumoVista { id, nombre, cantidad, precio, cantidad_minima };
        &&& #[trigger] crate::externos::es_texto_uuid(id)
        &&& crate::repositorio::indice_id_insumo(viejo, id) is None
        &&& nuevo == viejo.insert(
            crate::orden::pos_insercion(crate::repositorio::claves_insumos(viejo), vstd::utf8::encode_utf8(nombre))
                as int,
            v,
        )
    };
    let p = crate::orden::pos_insercion(crate::repositorio::claves_insumos(viejo), vstd::utf8::encode_utf8(nombre))
        as int;
    crate::orden::lema_pos_insercion_acotada(crate::repositorio::claves_insumos(viejo), vstd::utf8::encode_utf8(nombre));
    assert(nuevo[p].nombre == nombre);
    assert(nombres_insumos(nuevo)[p] == nombre);
    lema_indice_nombre_insumo(nuevo, nombre);
    lema_indice_nombre_insumo(viejo, nombre);
    let i = indice_nombre_insumo(nuevo, nombre)->0;
    assert(i == p) by {
        if i < p {
            assert(nuevo[i] == viejo[i]);
            assert(nombres_insumos(viejo)[i] == nombre);
        } else if i > p {
            assert(nuevo[p].nombre == nombre);
        }
    }
}

/// Dar de alta un insumo de nombre nuevo y luego darlo de baja deja el
/// almacén como estaba.
pub proof fn lema_alta_y_baja_insumo(
    viejo: Seq<InsumoVista>,
    nuevo: Seq<InsumoVista>,
    nombre: Seq<char>,
    cantidad: u32,
    precio: u32,
    cantidad_minima: u32,
)
    requires
        !nombres_insumos(viejo).contains(nombre),
        insumo_agregado(viejo, nuevo, nombre, cantidad, precio, cantidad_minima),
    ensures
        indice_nombre_insumo(nuevo, nombre) matches Some(i) && nuevo.remove(i) == viejo,
{
    lema_alta_y_consulta_insumo(viejo, nuevo, nombre, cantidad, precio, cantidad_minima);
    let id = choose|id: Seq<char>| {
        let v = InsumoVista { id, nombre, cantidad, precio, cantidad_minima };
        &&& #[trigger] crate::externos::es_texto_uuid(id)
        &&& crate::repositorio::indice_id_insumo(viejo, id) is None
        &&& nuevo == viejo.insert(
            crate::orden::pos_insercion(crate::repositorio::claves_insumos(viejo), vstd::utf8::encode_utf8(nombre))
                as int,
            v,
        )
    };
    let p = crate::orden::pos_insercion(crate::repositorio::claves_insumos(viejo), vstd::utf8::encode_utf8(nombre))
        as int;
    crate::orden::lema_pos_insercion_acotada(crate::repositorio::claves_insumos(viejo), vstd::utf8::encode_utf8(nombre));
    lema_indice_nombre_insumo(nuevo, nombre);
    let i = indice_nombre_insumo(nuevo, nombre)->0;
    assert(i == p) by {
        if i < p {
            assert(nuevo[i] == viejo[i]);
            assert(nombres_insumos(viejo)[i] == nombre);
        } else if i > p {
            assert(nuevo[p].nombre == nombre);
        }
    }
    assert(nuevo.remove(i) =~= viejo);
}

/// Tras borrar un insumo, su nombre ya no está en el almacén.
pub proof fn lema_baja_insumo(viejo: Seq<InsumoVista>, nombre: Seq<char>)
    requires
        almacen_valido(viejo),
        indice_nombre_insumo(viejo, nombre) is Some,
    ensures
        !nombres_insumos(viejo.remove(indice_nombre_insumo(viejo, nombre)->0)).contains(nombre),
{
    lema_indice_nombre_insumo(viejo, nombre);
    let i = indice_nombre_insumo(viejo, nombre)->0;
    let n = viejo.remove(i);
    if nombres_insumos(n).contains(nombre) {
        let k = choose|k: int| 0 <= k < nombres_insumos(n).len() && nombres_insumos(n)[k] == nombre;
        if k < i {
            assert(n[k] == viejo[k]);
        } else {
            assert(n[k] == viejo[k + 1]);
            assert(viejo[i].nombre != viejo[k + 1].nombre);
        }
    }
}

// ---------------------------------------------------------------- Recetario

proof fn lema_ingredientes_concat(a: Seq<FilaIngredienteVista>, b: Seq<FilaIngredienteVista>, id: Seq<char>)
    ensures
        ingredientes_de(a + b, id) == ingredientes_de(a, id) + ingredientes_de(b, id),
    decreases b.len(),
{
    if b.len() == 0 {
        assert(a + b =~= a);
        assert(ingredientes_de(a, id) + ingredientes_de(b, id) =~= ingredientes_de(a, id));
    } else {
        lema_ingredientes_concat(a, b.drop_last(), id);
        assert((a + b).drop_last() =~= a + b.drop_last());
        assert((a + b).last() == b.last());
        if b.last().receta_id == id {
            assert(ingredientes_de(a, id) + ingredientes_de(b, id) =~= (ingredientes_de(a, id) + ingredientes_de(
                b.drop_last(),
                id,
            )).push((b.last().ingrediente_id, b.last().cantidad)));
        }
    }
}

proof fn lema_ingredientes_de_filas(id: Seq<char>, l: Seq<(Seq<char>, u32)>)
    ensures
        ingredientes_de(filas_para(id, l), id) == l,
    decreases l.len(),
{
    if l.len() > 0 {
        lema_ingredientes_de_filas(id, l.drop_last());
        assert(filas_para(id, l).drop_last() =~= filas_para(id, l.drop_last()));
        assert(l.drop_last().push(l.last()) =~= l);
    } else {
        assert(ingredientes_de(filas_para(id, l), id) =~= l);
    }
}

proof fn lema_sin_filas(f: Seq<FilaIngredienteVista>, id: Seq<char>)
    requires
        forall|j: int| 0 <= j < f.len() ==> (#[trigger] f[j]).receta_id != id,
    ensures
        ingredientes_de(f, id) == Seq::<(Seq<char>, u32)>::empty(),
    decreases f.len(),
{
    if f.len() > 0 {
        assert forall|j: int| 0 <= j < f.drop_last().len() implies (#[trigger] f.drop_last()[j]).receta_id != id by {
            assert(f.drop_last()[j] == f[j]);
        }
        lema_sin_filas(f.drop_last(), id);
        assert(f.last() == f[f.len() - 1]);
    }
}

/// Tras guardar una receta nueva (nombre e identificador nuevos, sin filas
/// previas de ese identificador ni claves repetidas), la consulta por su
/// nombre la encuentra con sus ingredientes y su costo.
pub proof fn lema_alta_y_consulta_receta(
    t: RecetarioVista,
    id: Seq<char>,
    nombre: Seq<char>,
    l: Seq<(Seq<char>, u32)>,
    costo: u128,
)
    requires
        recetas_validas(t.recetas),
        !nombres_recetas(t.recetas).contains(nombre),
        crate::recetario::indice_id_receta(t.recetas, id) is None,
        forall|j: int| 0 <= j < t.ingredientes.len() ==> (#[trigger] t.ingredientes[j]).receta_id != id,
        !crate::recetario::conflicto_clave(t.ingredientes, id, l),
    ensures
        ({
            let n = con_receta(t, id, nombre, l, costo);
            &&& nombres_recetas(n.recetas).contains(nombre)
            &&& indice_nombre_receta(n.recetas, nombre) matches Some(i) && receta_en(n, i) == (crate::negocio::RecetaVista {
                id,
                nombre,
                ingredientes: l,
                costo,
            })
        }),
{
    let n = con_receta(t, id, nombre, l, costo);
    let k = crate::recetario::claves_recetas(t.recetas);
    let b = vstd::utf8::encode_utf8(nombre);
    crate::orden::lema_pos_insercion_acotada(k, b);
    let p = crate::orden::pos_insercion(k, b) as int;
    assert(indice_nombre_receta(t.recetas, nombre) is None) by {
        if exists|i: int| 0 <= i < t.recetas.len() && t.recetas[i].nombre == nombre {
            let i = choose|i: int| 0 <= i < t.recetas.len() && t.recetas[i].nombre == nombre;
            assert(nombres_recetas(t.recetas)[i] == nombre);
        }
    }
    assert(n.recetas[p].nombre == nombre);
    assert(nombres_recetas(n.recetas)[p] == nombre);
    assert(exists|i: int| 0 <= i < n.recetas.len() && n.recetas[i].nombre == nombre);
    let i = indice_nombre_receta(n.recetas, nombre)->0;
    assert(i == p) by {
        if i < p {
            assert(n.recetas[i] == t.recetas[i]);
            assert(nombres_recetas(t.recetas)[i] == nombre);
        } else if i > p {
            assert(n.recetas[p].nombre == nombre);
        }
    }
    lema_ingredientes_concat(t.ingredientes, filas_para(id, l), id);
    lema_ingredientes_de_filas(id, l);
    lema_sin_filas(t.ingredientes, id);
    assert(Seq::<(Seq<char>, u32)>::empty() + l =~= l);
}

/// Guardar una receta nueva y luego borrarla deja la tabla de recetas como
/// estaba; sus filas de ingredientes quedan.
pub proof fn lema_alta_y_baja_receta(
    t: RecetarioVista,
    id: Seq<char>,
    nombre: Seq<char>,
    l: Seq<(Seq<char>, u32)>,
    costo: u128,
)
    requires
        recetas_validas(t.recetas),
        !nombres_recetas(t.recetas).contains(nombre),
        crate::recetario::indice_id_receta(t.recetas, id) is None,
        forall|j: int| 0 <= j < t.ingredientes.len() ==> (#[trigger] t.ingredientes[j]).receta_id != id,
        !crate::recetario::conflicto_clave(t.ingredientes, id, l),
    ensures
        ({
            let n = con_receta(t, id, nombre, l, costo);
            &&& indice_nombre_receta(n.recetas, nombre) matches Some(i) && n.recetas.remove(i) == t.recetas
            &&& n.ingredientes == t.ingredientes + filas_para(id, l)
        }),
{
    lema_alta_y_consulta_receta(t, id, nombre, l, costo);
    let n = con_receta(t, id, nombre, l, costo);
    let k = crate::recetario::claves_recetas(t.recetas);
    let b = vstd::utf8::encode_utf8(nombre);
    crate::orden::lema_pos_insercion_acotada(k, b);
    let p = crate::orden::pos_insercion(k, b) as int;
    assert(indice_nombre_receta(t.recetas, nombre) is None) by {
        if exists|i: int| 0 <= i < t.recetas.len() && t.recetas[i].nombre == nombre {
            let i = choose|i: int| 0 <= i < t.recetas.len() && t.recetas[i].nombre == nombre;
            assert(nombres_recetas(t.recetas)[i] == nombre);
        }
    }
    let i = indice_nombre_receta(n.recetas, nombre)->0;
    assert(i == p) by {
        if i < p {
            assert(n.recetas[i] == t.recetas[i]);
            assert(nombres_recetas(t.recetas)[i] == nombre);
        } else if i > p {
            assert(n.recetas[p].nombre == nombre);
        }
    }
    assert(n.recetas.remove(i) =~= t.recetas);
}

/// Tras borrar una receta, su nombre ya no está en el libro.
pub proof fn lema_baja_receta(t: RecetarioVista, nombre: Seq<char>)
    requires
        recetas_validas(t.recetas),
        indice_nombre_receta(t.recetas, nombre) is Some,
    ensures
        !nombres_recetas(t.recetas.remove(indice_nombre_receta(t.recetas, nombre)->0)).contains(nombre),
{
    let s = t.recetas;
    let w = choose|w: int| 0 <= w < s.len() && s[w].nombre == nombre;
    let i = indice_nombre_receta(s, nombre)->0;
    assert(0 <= i < s.len() && s[i].nombre == nombre) by {
        if !(0 <= i < s.len() && s[i].nombre == nombre) {
            // con nombres únicos, el único de ese nombre cumple la elección
            assert forall|j: int| 0 <= j < w implies s[j].nombre != nombre by {
                assert(s[j].nombre != s[w].nombre);
            }
        }
    }
    let n = s.remove(i);
    if nombres_recetas(n).contains(nombre) {
        let k = choose|k: int| 0 <= k < nombres_recetas(n).len() && nombres_recetas(n)[k] == nombre;
        if k < i {
            assert(n[k] == s[k]);
            assert(s[k].nombre != s[i].nombre);
        } else {
            assert(n[k] == s[k + 1]);
            assert(s[i].nombre != s[k + 1].nombre);
        }
    }
}

// ---------------------------------------------------------------- Producción

/// Las dos tablas tienen los mismos insumos salvo, quizá, sus cantidades, y
/// en `b` todas las cantidades son positivas si lo son en `a`.
pub open spec fn solo_cantidades(a: Seq<InsumoVista>, b: Seq<InsumoVista>) -> bool {
    &&& a.len() == b.len()
    &&& forall|i: int| 0 <= i < a.len() ==> {
        &&& (#[trigger] b[i]).id == a[i].id
        &&& b[i].nombre == a[i].nombre
        &&& b[i].precio == a[i].precio
        &&& b[i].cantidad_minima == a[i].cantidad_minima
        &&& (a[i].cantidad > 0 ==> b[i].cantidad > 0)
    }
}

proof fn lema_solo_cantidades_transitivo(a: Seq<InsumoVista>, b: Seq<InsumoVista>, c: Seq<InsumoVista>)
    requires
        solo_cantidades(a, b),
        solo_cantidades(b, c),
    ensures
        solo_cantidades(a, c),
{
    assert forall|i: int| 0 <= i < a.len() implies {
        &&& (#[trigger] c[i]).id == a[i].id
        &&& c[i].nombre == a[i].nombre
        &&& c[i].precio == a[i].precio
        &&& c[i].cantidad_minima == a[i].cantidad_minima
        &&& (a[i].cantidad > 0 ==> c[i].cantidad > 0)
    } by {
        assert(b[i].id == a[i].id);
        assert(c[i].id == b[i].id);
    }
}

proof fn lema_consumir_lista_solo_cantidades(s: Seq<InsumoVista>, l: Seq<(Seq<char>, u32)>)
    ensures
        solo_cantidades(s, consumir_lista(s, l).0),
    decreases l.len(),
{
    if l.len() == 0 {
        assert(solo_cantidades(s, s));
    } else {
        lema_consumir_lista_solo_cantidades(s, l.drop_last());
        let s2 = consumir_lista(s, l.drop_last()).0;
        if consumir_lista(s, l.drop_last()).1 is None {
            let s3 = consumir(s2, l.last()).0;
            assert(solo_cantidades(s2, s3)) by {
                crate::repositorio::lema_indice_id_insumo(s2, l.last().0);
                if let Some(i) = crate::repositorio::indice_id_insumo(s2, l.last().0) {
                    lema_indice_nombre_insumo(s2, s2[i].nombre);
                }
            }
            lema_solo_cantidades_transitivo(s, s2, s3);
        }
    }
}

/// Producir recetas sólo cambia cantidades: los insumos, sus nombres,
/// precios y mínimos quedan, y ninguna cantidad positiva llega a cero.
pub proof fn lema_producir_solo_cantidades(s: Seq<InsumoVista>, l: Seq<(Seq<char>, u32)>, veces: nat)
    ensures
        solo_cantidades(s, producir(s, l, veces).0),
    decreases veces,
{
    if veces == 0 {
        assert(solo_cantidades(s, s));
    } else {
        lema_producir_solo_cantidades(s, l, (veces - 1) as nat);
        let s2 = producir(s, l, (veces - 1) as nat).0;
        if producir(s, l, (veces - 1) as nat).1 is None {
            lema_consumir_lista_solo_cantidades(s2, l);
            lema_solo_cantidades_transitivo(s, s2, consumir_lista(s2, l).0);
        }
    }
}

// ---------------------------------------------------------------- Búsqueda por contenido

/// Los bytes de dos textos seguidos son los bytes de uno y luego los del otro.
proof fn lema_bytes_concat(a: Seq<char>, b: Seq<char>)
    ensures
        encode_utf8(a + b) == encode_utf8(a) + encode_utf8(b),
    decreases a.len(),
{
    if a.len() == 0 {
        assert(a + b =~= b);
        assert(encode_utf8(a) =~= Seq::<u8>::empty());
        assert(encode_utf8(a) + encode_utf8(b) =~= encode_utf8(b));
    } else {
        lema_bytes_concat(a.drop_first(), b);
        assert((a + b).drop_first() =~= a.drop_first() + b);
        assert((a + b)[0] == a[0]);
        assert(encode_utf8(a + b) =~= vstd::utf8::encode_scalar(a[0] as u32) + encode_utf8(a.drop_first() + b));
    }
}

/// Un nombre que tiene el texto buscado en la posición `i` (en cualquier
/// lugar: al principio, al medio o al final) coincide con la búsqueda.
pub proof fn lema_contenido_coincide(nombre: Seq<char>, b: Seq<char>, i: int)
    requires
        0 <= i,
        i + b.len() <= nombre.len(),
        nombre.subrange(i, i + b.len()) == b,
    ensures
        coincide(nombre, b),
{
    let x = nombre.take(i);
    let y = nombre.skip(i + b.len());
    assert(nombre =~= x + b + y);
    lema_bytes_concat(x + b, y);
    lema_bytes_concat(x, b);
    let h = encode_utf8(nombre);
    let eb = encode_utf8(b);
    let k = encode_utf8(x).len() as int;
    assert(h == encode_utf8(x) + eb + encode_utf8(y));
    assert(h.subrange(k, k + eb.len()) =~= eb);
    assert(contiene_sub(h, eb));
}

proof fn lema_filtrar_incluye(s: Seq<Seq<char>>, b: Seq<char>, k: int)
    requires
        0 <= k < s.len(),
        coincide(s[k], b),
    ensures
        filtrar_coincidencias(s, b).contains(s[k]),
    decreases s.len(),
{
    let f = filtrar_coincidencias(s, b);
    if k == s.len() - 1 {
        assert(f[f.len() - 1] == s[k]);
    } else {
        let d = s.drop_last();
        assert(d[k] == s[k]);
        lema_filtrar_incluye(d, b, k);
        let fd = filtrar_coincidencias(d, b);
        let t = choose|t: int| 0 <= t < fd.len() && fd[t] == s[k];
        assert(f[t] == fd[t]);
    }
}

/// Buscar un texto devuelve todo nombre de la lista que lo contiene en
/// cualquier posición.
pub proof fn lema_busqueda_encuentra_contenido(s: Seq<Seq<char>>, b: Seq<char>, k: int, i: int)
    requires
        0 <= k < s.len(),
        0 <= i,
        i + b.len() <= s[k].len(),
        s[k].subrange(i, i + b.len()) == b,
    ensures
        resultado_busqueda(s, b).contains(s[k]),
{
    lema_contenido_coincide(s[k], b, i);
    lema_filtrar_incluye(s, b, k);
}

// ---------------------------------------------------------------- Recetas que usan un insumo

/// Las recetas que usan un insumo son, en orden, las recetas de todas las
/// filas de ingredientes de ese insumo: ni una menos ni una más.
pub proof fn lema_recetas_con_ingrediente(f: Seq<FilaIngredienteVista>, x: Seq<char>)
    ensures
        recetas_con_ingrediente(f, x) == f.filter(|r: FilaIngredienteVista| r.ingrediente_id == x).map_values(
            |r: FilaIngredienteVista| r.receta_id,
        ),
        recetas_con_ingrediente(f, x).len() == f.filter(|r: FilaIngredienteVista| r.ingrediente_id == x).len(),
        forall|j: int| 0 <= j < f.len() && (#[trigger] f[j]).ingrediente_id == x ==> recetas_con_ingrediente(
            f,
            x,
        ).contains(f[j].receta_id),
    decreases f.len(),
{
    let p = |r: FilaIngredienteVista| r.ingrediente_id == x;
    let m = |r: FilaIngredienteVista| r.receta_id;
    reveal(Seq::filter);
    if f.len() == 0 {
        assert(f.filter(p).map_values(m) =~= Seq::<Seq<char>>::empty());
    } else {
        lema_recetas_con_ingrediente(f.drop_last(), x);
        assert(f.filter(p) == (if p(f.last()) { f.drop_last().filter(p).push(f.last()) } else { f.drop_last().filter(p) }));
        if p(f.last()) {
            assert(f.drop_last().filter(p).push(f.last()).map_values(m) =~= f.drop_last().filter(p).map_values(m).push(
                f.last().receta_id,
            ));
        }
        let r = recetas_con_ingrediente(f, x);
        assert forall|j: int| 0 <= j < f.len() && (#[trigger] f[j]).ingrediente_id == x implies r.contains(f[j].receta_id) by {
            if j == f.len() - 1 {
                assert(r[r.len() - 1] == f[j].receta_id);
            } else {
                let d = f.drop_last();
                assert(d[j] == f[j]);
                let rd = recetas_con_ingrediente(d, x);
                let t = choose|t: int| 0 <= t < rd.len() && rd[t] == d[j].receta_id;
                assert(r[t] == rd[t]);
            }
        }
    }
}

// ---------------------------------------------------------------- Producir: descontar

/// Descontar `g` gramos del insumo de la fila `i` (en un almacén válido)
/// resta esos gramos si el insumo tiene estrictamente más, sin importar su
/// cantidad mínima; si no, no cambia nada y avisa que no alcanzan.
pub proof fn lema_consumir_descuenta(s: Seq<InsumoVista>, i: int, g: u32)
    requires
        almacen_valido(s),
        0 <= i < s.len(),
    ensures
        g < s[i].cantidad ==> consumir(s, (s[i].id, g)) == (
            s.update(i, InsumoVista { cantidad: (s[i].cantidad - g) as u32, ..s[i] }),
            None::<ErrorVista>,
        ),
        g >= s[i].cantidad ==> consumir(s, (s[i].id, g)) == (
            s,
            Some(error_personal("No hay suficientes gramos para usar"@)),
        ),
{
    crate::repositorio::lema_indice_id_insumo(s, s[i].id);
    let a = crate::repositorio::indice_id_insumo(s, s[i].id)->0;
    assert(a == i) by {
        if a < i {
            assert(s[a].id != s[i].id);
        }
    }
    lema_indice_nombre_insumo(s, s[i].nombre);
    let b = indice_nombre_insumo(s, s[i].nombre)->0;
    assert(b == i) by {
        if b < i {
            assert(s[b].nombre != s[i].nombre);
        }
    }
}

// ---------------------------------------------------------------- Edición

/// Renombrar una receta existente es válido si y sólo si el nombre nuevo no
/// está vacío y es el mismo nombre o uno que ninguna receta usa; en
/// particular, guardarla con su propio nombre no da error.
pub proof fn lema_editar_nombre_receta(t: RecetarioVista, s: Seq<InsumoVista>, r: Seq<char>, n: Seq<char>)
    ensures
        error_editar_receta(t, s, r, Some(n), None) is None <==> (nombres_recetas(t.recetas).contains(r) && n.len()
            > 0 && (n == r || !nombres_recetas(t.recetas).contains(n))),
        nombres_recetas(t.recetas).contains(r) && r.len() > 0 ==> error_editar_receta(t, s, r, Some(r), None) is None,
{
}

/// Tras editar un insumo sin error, el almacén tiene tantos insumos como
/// antes y uno de ellos es el editado, con su identificador y con cada dato
/// pedido (o el que tenía, si no se pidió cambiarlo).
pub proof fn lema_editar_insumo_guarda(
    s: Seq<InsumoVista>,
    insumo: Seq<char>,
    nombre: Option<Seq<char>>,
    cantidad: Option<u32>,
    cantidad_minima: Option<u32>,
    precio: Option<u32>,
)
    requires
        error_edicion_insumo(s, insumo, nombre, cantidad, cantidad_minima, precio) is None,
    ensures
        ({
            let i = indice_nombre_insumo(s, insumo)->0;
            let res = reubicar_insumo(s, i, insumo_editado(s[i], nombre, cantidad, cantidad_minima, precio));
            &&& res.len() == s.len()
            &&& exists|k: int| {
                &&& 0 <= k < res.len()
                &&& (#[trigger] res[k]).id == s[i].id
                &&& (nombre matches Some(x) ==> res[k].nombre == x)
                &&& (nombre is None ==> res[k].nombre == s[i].nombre)
                &&& (cantidad matches Some(x) ==> res[k].cantidad == x)
                &&& (cantidad is None ==> res[k].cantidad == s[i].cantidad)
                &&& (cantidad_minima matches Some(x) ==> res[k].cantidad_minima == x)
                &&& (cantidad_minima is None ==> res[k].cantidad_minima == s[i].cantidad_minima)
                &&& (precio matches Some(x) ==> res[k].precio == x)
                &&& (precio is None ==> res[k].precio == s[i].precio)
            }
        }),
{
    crate::servicio::lema_contiene_nombre_insumo(s, insumo);
    lema_indice_nombre_insumo(s, insumo);
    let i = indice_nombre_insumo(s, insumo)->0;
    let v = insumo_editado(s[i], nombre, cantidad, cantidad_minima, precio);
    let q = s.remove(i);
    let kk = crate::repositorio::claves_insumos(q);
    crate::orden::lema_pos_insercion_acotada(kk, encode_utf8(v.nombre));
    let k = crate::orden::pos_insercion(kk, encode_utf8(v.nombre)) as int;
    let res = reubicar_insumo(s, i, v);
    assert(res == q.insert(k, v));
    assert(res[k] == v);
}

} // verus!
