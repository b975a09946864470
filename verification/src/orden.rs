//! Tablas ordenadas por clave: la posición donde entra una fila nueva y la
//! conservación del orden al insertar y borrar.
use vstd::prelude::*;
use vstd::utf8::encode_utf8;
use crate::busqueda::vista_textos;
use crate::texto::{comparar_bytes, lema_menor_total, lema_menor_transitivo, menor_lex, menor_o_igual, Comparacion};

verus! {

/// Posición donde entra una clave nueva: después de todas las claves que no
/// son mayores que ella (así, entre claves iguales, la nueva queda última).
pub open spec fn pos_insercion(k: Seq<Seq<u8>>, x: Seq<u8>) -> nat
    decreases k.len(),
{
    if k.len() == 0 {
        0
    } else if menor_lex(x, k[0]) {
        0
    } else {
        1 + pos_insercion(k.drop_first(), x)
    }
}

/// Las claves están en orden no decreciente.
pub open spec fn ordenadas(k: Seq<Seq<u8>>) -> bool {
    forall|i: int, j: int| 0 <= i < j < k.len() ==> menor_o_igual(#[trigger] k[i], #[trigger] k[j])
}

pub proof fn lema_pos_insercion_acotada(k: Seq<Seq<u8>>, x: Seq<u8>)
    ensures
        pos_insercion(k, x) <= k.len(),
        forall|i: int| 0 <= i < pos_insercion(k, x) ==> menor_o_igual(#[trigger] k[i], x),
        pos_insercion(k, x) < k.len() ==> menor_lex(x, k[pos_insercion(k, x) as int]),
    decreases k.len(),
{
    if k.len() > 0 && !menor_lex(x, k[0]) {
        lema_pos_insercion_acotada(k.drop_first(), x);
        assert forall|i: int| 0 <= i < pos_insercion(k, x) implies menor_o_igual(#[trigger] k[i], x) by {
            if i > 0 {
                assert(k[i] == k.drop_first()[i - 1]);
            }
        }
    }
}

/// `a <= b <= c` implica `a <= c`.
pub proof fn lema_menor_o_igual_transitivo(a: Seq<u8>, b: Seq<u8>, c: Seq<u8>)
    requires
        menor_o_igual(a, b),
        menor_o_igual(b, c),
    ensures
        menor_o_igual(a, c),
{
    lema_menor_total(a, b);
    lema_menor_total(b, c);
    lema_menor_total(a, c);
    if menor_lex(c, a) {
        if a == b {
            assert(menor_lex(c, b));
        } else if b == c {
            assert(menor_lex(b, a));
        } else {
            lema_menor_transitivo(a, b, c);
            lema_menor_total(a, c);
        }
    }
}

/// Insertar en la posición de inserción conserva el orden.
pub proof fn lema_insertar_ordenado(k: Seq<Seq<u8>>, x: Seq<u8>)
    requires
        ordenadas(k),
    ensures
        ordenadas(k.insert(pos_insercion(k, x) as int, x)),
{
    lema_pos_insercion_acotada(k, x);
    let p = pos_insercion(k, x) as int;
    let r = k.insert(p, x);
    assert forall|i: int, j: int| 0 <= i < j < r.len() implies menor_o_igual(#[trigger] r[i], #[trigger] r[j]) by {
        if j < p {
            assert(r[i] == k[i] && r[j] == k[j]);
        } else if j == p {
            assert(r[i] == k[i]);
        } else if i < p {
            assert(r[i] == k[i] && r[j] == k[j - 1]);
            assert(menor_o_igual(k[i], x));
            lema_menor_total(x, k[p]);
            assert(menor_o_igual(x, k[p]));
            if p < j - 1 {
                assert(menor_o_igual(k[p], k[j - 1]));
                lema_menor_o_igual_transitivo(x, k[p], k[j - 1]);
            }
            lema_menor_o_igual_transitivo(k[i], x, k[j - 1]);
        } else if i == p {
            assert(r[j] == k[j - 1]);
            lema_menor_total(x, k[p]);
            if p < j - 1 {
                assert(menor_o_igual(k[p], k[j - 1]));
                lema_menor_o_igual_transitivo(x, k[p], k[j - 1]);
            }
        } else {
            assert(r[i] == k[i - 1] && r[j] == k[j - 1]);
        }
    }
}

/// Borrar una fila conserva el orden.
pub proof fn lema_quitar_ordenado(k: Seq<Seq<u8>>, i: int)
    requires
        ordenadas(k),
        0 <= i < k.len(),
    ensures
        ordenadas(k.remove(i)),
{
    let r = k.remove(i);
    assert forall|a: int, b: int| 0 <= a < b < r.len() implies menor_o_igual(#[trigger] r[a], #[trigger] r[b]) by {
        let a2 = if a < i { a } else { a + 1 };
        let b2 = if b < i { b } else { b + 1 };
        assert(r[a] == k[a2] && r[b] == k[b2]);
    }
}

// ---------------------------------------------------------------- Listas de nombres

/// Claves de orden (bytes) de una lista de nombres.
pub open spec fn claves_nombres(s: Seq<Seq<char>>) -> Seq<Seq<u8>> {
    s.map_values(|n: Seq<char>| encode_utf8(n))
}

/// Los nombres ordenados por sus bytes; entre nombres iguales, en el orden
/// de la lista.
pub open spec fn ordenar_nombres(s: Seq<Seq<char>>) -> Seq<Seq<char>>
    decreases s.len(),
{
    if s.len() == 0 {
        Seq::empty()
    } else {
        let o = ordenar_nombres(s.drop_last());
        o.insert(pos_insercion(claves_nombres(o), encode_utf8(s.last())) as int, s.last())
    }
}

/// Ordenar no cambia qué nombres hay.
pub proof fn lema_ordenar_contiene(s: Seq<Seq<char>>, n: Seq<char>)
    ensures
        ordenar_nombres(s).contains(n) <==> s.contains(n),
        ordenar_nombres(s).len() == s.len(),
    decreases s.len(),
{
    if s.len() > 0 {
        let o = ordenar_nombres(s.drop_last());
        lema_ordenar_contiene(s.drop_last(), n);
        lema_pos_insercion_acotada(claves_nombres(o), encode_utf8(s.last()));
        let p = pos_insercion(claves_nombres(o), encode_utf8(s.last())) as int;
        let r = o.insert(p, s.last());
        if r.contains(n) {
            let k = choose|k: int| 0 <= k < r.len() && r[k] == n;
            if k < p {
                assert(o[k] == n);
                let k2 = choose|k2: int| 0 <= k2 < s.drop_last().len() && s.drop_last()[k2] == n;
                assert(s[k2] == n);
            } else if k > p {
                assert(o[k - 1] == n);
                let k2 = choose|k2: int| 0 <= k2 < s.drop_last().len() && s.drop_last()[k2] == n;
                assert(s[k2] == n);
            } else {
                assert(s[s.len() - 1] == n);
            }
        }
        if s.contains(n) {
            let k = choose|k: int| 0 <= k < s.len() && s[k] == n;
            if k == s.len() - 1 {
                assert(r[p] == n);
            } else {
                assert(s.drop_last()[k] == n);
                let k2 = choose|k2: int| 0 <= k2 < o.len() && o[k2] == n;
                if k2 < p {
                    assert(r[k2] == n);
                } else {
                    assert(r[k2 + 1] == n);
                }
            }
        }
    }
}

/// La lista ordenada está en orden.
pub proof fn lema_ordenar_ordenada(s: Seq<Seq<char>>)
    ensures
        ordenadas(claves_nombres(ordenar_nombres(s))),
    decreases s.len(),
{
    if s.len() > 0 {
        let o = ordenar_nombres(s.drop_last());
        lema_ordenar_ordenada(s.drop_last());
        lema_insertar_ordenado(claves_nombres(o), encode_utf8(s.last()));
        let p = pos_insercion(claves_nombres(o), encode_utf8(s.last())) as int;
        lema_pos_insercion_acotada(claves_nombres(o), encode_utf8(s.last()));
        assert(claves_nombres(o.insert(p, s.last())) =~= claves_nombres(o).insert(p, encode_utf8(s.last())));
    }
}

/// Posición donde entra un nombre en una lista ordenada.
pub fn posicion_nombre(v: &Vec<String>, clave: &[u8]) -> (p: usize)
    ensures
        p == pos_insercion(claves_nombres(vista_textos(v@)), clave@),
{
    let ghost k = claves_nombres(vista_textos(v@));
    let mut i: usize = 0;
    assert(k.skip(0) =~= k);
    while i < v.len()
        invariant
            k == claves_nombres(vista_textos(v@)),
            i <= v@.len(),
            pos_insercion(k, clave@) == i + pos_insercion(k.skip(i as int), clave@),
        decreases v@.len() - i,
    {
        let b = v[i].as_str().as_bytes();
        assert(b@ == k[i as int]);
        assert(k.skip(i as int)[0] == k[i as int]);
        match comparar_bytes(clave, b) {
            Comparacion::Menor => {
                return i;
            },
            _ => {},
        }
        assert(k.skip(i as int).drop_first() =~= k.skip(i + 1));
        i = i + 1;
    }
    i
}

} // verus!
