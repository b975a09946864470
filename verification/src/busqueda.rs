//! Búsqueda aproximada de nombres: primero por contenido y, si nada
//! coincide, el nombre más parecido según la distancia de Levenshtein.
use vstd::prelude::*;
use vstd::utf8::encode_utf8;
use crate::externos::{distancia, levenshtein};
use crate::texto::{contiene, contiene_sub};

verus! {

/// Vista de una lista de textos.
pub open spec fn vista_textos(v: Seq<String>) -> Seq<Seq<char>> {
    v.map_values(|s: String| s@)
}

/// El nombre contiene el texto buscado (como bloque de bytes UTF-8).
pub open spec fn coincide(nombre: Seq<char>, busqueda: Seq<char>) -> bool {
    contiene_sub(encode_utf8(nombre), encode_utf8(busqueda))
}

/// Los nombres que contienen el texto buscado, en su orden.
pub open spec fn filtrar_coincidencias(s: Seq<Seq<char>>, busqueda: Seq<char>) -> Seq<Seq<char>>
    decreases s.len(),
{
    if s.len() == 0 {
        Seq::empty()
    } else if coincide(s.last(), busqueda) {
        filtrar_coincidencias(s.drop_last(), busqueda).push(s.last())
    } else {
        filtrar_coincidencias(s.drop_last(), busqueda)
    }
}

/// `i` es el primer índice de distancia mínima al texto buscado.
pub open spec fn es_primer_minimo(s: Seq<Seq<char>>, busqueda: Seq<char>, i: int) -> bool {
    &&& 0 <= i < s.len()
    &&& forall|j: int| 0 <= j < s.len() ==> levenshtein(s[i], busqueda) <= levenshtein(#[trigger] s[j], busqueda)
    &&& forall|j: int| 0 <= j < i ==> levenshtein(s[i], busqueda) < levenshtein(#[trigger] s[j], busqueda)
}

/// Resultado de buscar en una lista de nombres: las coincidencias por
/// contenido; si no hay ninguna, el primer nombre de distancia mínima; si la
/// lista está vacía, nada.
pub open spec fn resultado_busqueda(s: Seq<Seq<char>>, busqueda: Seq<char>) -> Seq<Seq<char>> {
    if filtrar_coincidencias(s, busqueda).len() > 0 {
        filtrar_coincidencias(s, busqueda)
    } else if s.len() == 0 {
        Seq::empty()
    } else {
        let i = choose|i: int| es_primer_minimo(s, busqueda, i);
        seq![s[i]]
    }
}

proof fn lema_primer_minimo_unico(s: Seq<Seq<char>>, b: Seq<char>, i: int, k: int)
    requires
        es_primer_minimo(s, b, i),
        es_primer_minimo(s, b, k),
    ensures
        i == k,
{
    if i < k {
        assert(levenshtein(s[k], b) < levenshtein(s[i], b));
    } else if k < i {
        assert(levenshtein(s[i], b) < levenshtein(s[k], b));
    }
}

/// Busca un texto entre nombres (ver [`resultado_busqueda`]).
pub fn buscar_en(nombres: Vec<String>, busqueda: &str) -> (r: Vec<String>)
    ensures
        vista_textos(r@) == resultado_busqueda(vista_textos(nombres@), busqueda@),
{
    let ghost s = vista_textos(nombres@);
    let mut resultados: Vec<String> = Vec::new();
    let mut i: usize = 0;
    while i < nombres.len()
        invariant
            s == vista_textos(nombres@),
            i <= nombres@.len(),
            vista_textos(resultados@) == filtrar_coincidencias(s.take(i as int), busqueda@),
        decreases nombres@.len() - i,
    {
        let ghost antes = resultados@;
        assert(s.take(i + 1).drop_last() =~= s.take(i as int));
        assert(s.take(i + 1).last() == nombres@[i as int]@);
        if contiene(nombres[i].as_str(), busqueda) {
            resultados.push(nombres[i].clone());
            assert(vista_textos(resultados@) =~= vista_textos(antes).push(nombres@[i as int]@));
        }
        i = i + 1;
    }
    assert(s.take(i as int) =~= s);
    if resultados.len() > 0 {
        return resultados;
    }
    if nombres.len() == 0 {
        return resultados;
    }
    // el primer nombre de distancia mínima
    let mut mejor: usize = 0;
    let mut mejor_d: usize = distancia(nombres[0].as_str(), busqueda);
    let mut j: usize = 1;
    while j < nombres.len()
        invariant
            s == vista_textos(nombres@),
            1 <= j <= nombres@.len(),
            mejor < j,
            mejor_d == levenshtein(s[mejor as int], busqueda@),
            forall|t: int| 0 <= t < j ==> levenshtein(s[mejor as int], busqueda@) <= levenshtein(#[trigger] s[t], busqueda@),
            forall|t: int| 0 <= t < mejor ==> levenshtein(s[mejor as int], busqueda@) < levenshtein(#[trigger] s[t], busqueda@),
        decreases nombres@.len() - j,
    {
        let d = distancia(nombres[j].as_str(), busqueda);
        if d < mejor_d {
            mejor = j;
            mejor_d = d;
        }
        j = j + 1;
    }
    proof {
        assert(es_primer_minimo(s, busqueda@, mejor as int));
        let k = choose|k: int| es_primer_minimo(s, busqueda@, k);
        lema_primer_minimo_unico(s, busqueda@, mejor as int, k);
    }
    let mut r: Vec<String> = Vec::new();
    r.push(nombres[mejor].clone());
    assert(vista_textos(r@) =~= seq![s[mejor as int]]);
    r
}

/// El nombre está en la lista.
pub fn contiene_nombre(nombres: &Vec<String>, nombre: &String) -> (r: bool)
    ensures
        r == vista_textos(nombres@).contains(nombre@),
{
    let mut i: usize = 0;
    while i < nombres.len()
        invariant
            i <= nombres@.len(),
            forall|t: int| 0 <= t < i ==> nombres@[t]@ != nombre@,
        decreases nombres@.len() - i,
    {
        if nombres[i] == *nombre {
            assert(vista_textos(nombres@)[i as int] == nombre@);
            return true;
        }
        i = i + 1;
    }
    assert(!vista_textos(nombres@).contains(nombre@)) by {
        if vista_textos(nombres@).contains(nombre@) {
            let t = choose|t: int| 0 <= t < vista_textos(nombres@).len() && vista_textos(nombres@)[t] == nombre@;
            assert(nombres@[t]@ == nombre@);
        }
    }
    false
}

} // verus!
