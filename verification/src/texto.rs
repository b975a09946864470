//! Utilidades de texto: orden de bytes, comparación y búsqueda de subcadenas.
use vstd::prelude::*;
use vstd::string::StringSliceAdditionalSpecFns;

verus! {

/// Orden lexicográfico estricto sobre secuencias de bytes (el orden `BINARY` de SQLite).
pub open spec fn menor_lex(a: Seq<u8>, b: Seq<u8>) -> bool
    decreases a.len(),
{
    if a.len() == 0 {
        b.len() > 0
    } else if b.len() == 0 {
        false
    } else if a[0] != b[0] {
        a[0] < b[0]
    } else {
        menor_lex(a.drop_first(), b.drop_first())
    }
}

/// `a` va antes que `b` o es igual a `b`.
pub open spec fn menor_o_igual(a: Seq<u8>, b: Seq<u8>) -> bool {
    !menor_lex(b, a)
}

pub proof fn lema_menor_irreflexivo(a: Seq<u8>)
    ensures
        !menor_lex(a, a),
    decreases a.len(),
{
    if a.len() > 0 {
        lema_menor_irreflexivo(a.drop_first());
    }
}

pub proof fn lema_menor_total(a: Seq<u8>, b: Seq<u8>)
    ensures
        a != b ==> menor_lex(a, b) || menor_lex(b, a),
        !(menor_lex(a, b) && menor_lex(b, a)),
    decreases a.len(),
{
    if a.len() > 0 && b.len() > 0 && a[0] == b[0] {
        lema_menor_total(a.drop_first(), b.drop_first());
        if a.drop_first() == b.drop_first() {
            assert(a =~= seq![a[0]] + a.drop_first());
            assert(b =~= seq![b[0]] + b.drop_first());
        }
    }
    if a.len() == 0 && b.len() == 0 {
        assert(a =~= b);
    }
}

pub proof fn lema_menor_transitivo(a: Seq<u8>, b: Seq<u8>, c: Seq<u8>)
    requires
        menor_lex(a, b),
        menor_lex(b, c),
    ensures
        menor_lex(a, c),
    decreases a.len(),
{
    if a.len() > 0 && b.len() > 0 && c.len() > 0 && a[0] == b[0] && b[0] == c[0] {
        lema_menor_transitivo(a.drop_first(), b.drop_first(), c.drop_first());
    }
}

/// Resultado de comparar dos claves.
#[derive(PartialEq, Eq, Structural, Clone, Copy, Debug)]
pub enum Comparacion {
    Menor,
    Igual,
    Mayor,
}

/// Compara dos secuencias de bytes en orden lexicográfico.
pub fn comparar_bytes(a: &[u8], b: &[u8]) -> (r: Comparacion)
    ensures
        r == Comparacion::Menor <==> menor_lex(a@, b@),
        r == Comparacion::Igual <==> a@ == b@,
        r == Comparacion::Mayor <==> menor_lex(b@, a@),
{
    proof {
        lema_menor_total(a@, b@);
        lema_menor_irreflexivo(a@);
    }
    let mut i: usize = 0;
    assert(a@.skip(0) =~= a@);
    assert(b@.skip(0) =~= b@);
    while i < a.len() && i < b.len()
        invariant
            i <= a@.len(),
            i <= b@.len(),
            a@.subrange(0, i as int) == b@.subrange(0, i as int),
            menor_lex(a@, b@) == menor_lex(a@.skip(i as int), b@.skip(i as int)),
            menor_lex(b@, a@) == menor_lex(b@.skip(i as int), a@.skip(i as int)),
        decreases a@.len() - i,
    {
        if a[i] < b[i] {
            return Comparacion::Menor;
        }
        if b[i] < a[i] {
            return Comparacion::Mayor;
        }
        assert(a@.skip(i as int).drop_first() =~= a@.skip(i + 1));
        assert(b@.skip(i as int).drop_first() =~= b@.skip(i + 1));
        assert(a@.subrange(0, i + 1) =~= a@.subrange(0, i as int).push(a@[i as int]));
        assert(b@.subrange(0, i + 1) =~= b@.subrange(0, i as int).push(b@[i as int]));
        i = i + 1;
    }
    if i == a.len() && i == b.len() {
        assert(a@ =~= a@.subrange(0, i as int));
        assert(b@ =~= b@.subrange(0, i as int));
        Comparacion::Igual
    } else if i == a.len() {
        assert(a@ != b@) by {
            assert(a@.len() != b@.len());
        }
        Comparacion::Menor
    } else {
        assert(a@.len() != b@.len());
        Comparacion::Mayor
    }
}


/// Concatena tres textos en un `String` nuevo.
pub fn unir3(a: &str, b: &str, c: &str) -> (r: String)
    ensures
        r@ == a@ + b@ + c@,
{
    let mut s = String::from_str(a);
    s.append(b);
    s.append(c);
    s
}

/// Concatena cuatro textos en un `String` nuevo.
pub fn unir4(a: &str, b: &str, c: &str, d: &str) -> (r: String)
    ensures
        r@ == a@ + b@ + c@ + d@,
{
    let mut s = String::from_str(a);
    s.append(b);
    s.append(c);
    s.append(d);
    s
}

/// Concatena dos textos en un `String` nuevo.
pub fn unir2(a: &str, b: &str) -> (r: String)
    ensures
        r@ == a@ + b@,
{
    let mut s = String::from_str(a);
    s.append(b);
    s
}

/// Copia un texto en un `String` nuevo.
pub fn copiar(a: &str) -> (r: String)
    ensures
        r@ == a@,
{
    String::from_str(a)
}

/// `n` aparece como bloque contiguo dentro de `h`.
pub open spec fn contiene_sub(h: Seq<u8>, n: Seq<u8>) -> bool {
    exists|i: int| 0 <= i && i + n.len() <= h.len() && #[trigger] h.subrange(i, i + n.len()) == n
}

/// Busca `n` dentro de `h` byte a byte, como `str::contains` con un patrón de texto.
pub fn contiene(h: &str, n: &str) -> (r: bool)
    ensures
        r == contiene_sub(h.spec_bytes(), n.spec_bytes()),
{
    let hb = h.as_bytes();
    let nb = n.as_bytes();
    let hl = hb.len();
    let nl = nb.len();
    if nl > hl {
        return false;
    }
    let mut i: usize = 0;
    while i <= hl - nl
        invariant
            hb@ == h.spec_bytes(),
            nb@ == n.spec_bytes(),
            hl == hb@.len(),
            nl == nb@.len(),
            nl <= hl,
            i <= hl - nl + 1,
            forall|k: int| 0 <= k < i ==> #[trigger] hb@.subrange(k, k + nl) != nb@,
        decreases hl - i,
    {
        let mut j: usize = 0;
        let mut iguales = true;
        while j < nl
            invariant
                hb@ == h.spec_bytes(),
                nb@ == n.spec_bytes(),
                hl == hb@.len(),
                nl == nb@.len(),
                i + nl <= hl,
                j <= nl,
                iguales == (forall|t: int| 0 <= t < j ==> hb@[i + t] == nb@[t]),
            decreases nl - j,
        {
            if hb[i + j] != nb[j] {
                iguales = false;
            }
            j = j + 1;
        }
        if iguales {
            assert(hb@.subrange(i as int, i + nl) =~= nb@);
            return true;
        }
        proof {
            if hb@.subrange(i as int, i + nl) == nb@ {
                let t = choose|t: int| 0 <= t < nl && hb@[i + t] != nb@[t];
                assert(hb@.subrange(i as int, i + nl)[t] == hb@[i + t]);
            }
        }
        i = i + 1;
    }
    proof {
        assert forall|k: int| 0 <= k && k + nb@.len() <= hb@.len() implies #[trigger] hb@.subrange(k, k + nb@.len()) != nb@ by {
            assert(k < i);
        }
    }
    false
}


/// Los caracteres de un texto, en orden.
pub fn a_caracteres(s: &str) -> (r: Vec<char>)
    ensures
        r@ == s@,
{
    let n = s.unicode_len();
    let mut r: Vec<char> = Vec::new();
    let mut i: usize = 0;
    while i < n
        invariant
            n == s@.len(),
            i <= n,
            r@ == s@.take(i as int),
        decreases n - i,
    {
        r.push(s.get_char(i));
        assert(s@.take(i + 1) =~= s@.take(i as int).push(s@[i as int]));
        i = i + 1;
    }
    assert(s@.take(n as int) =~= s@);
    r
}

/// Compara un tramo de caracteres con un texto.
pub fn tramo_igual(v: &Vec<char>, ini: usize, fin: usize, lit: &str) -> (r: bool)
    requires
        ini <= fin <= v@.len(),
    ensures
        r == (v@.subrange(ini as int, fin as int) == lit@),
{
    let l = a_caracteres(lit);
    if fin - ini != l.len() {
        assert(v@.subrange(ini as int, fin as int).len() != lit@.len());
        return false;
    }
    let mut k: usize = 0;
    while k < l.len()
        invariant
            ini <= fin <= v@.len(),
            fin - ini == l@.len(),
            l@ == lit@,
            k <= l@.len(),
            forall|t: int| 0 <= t < k ==> v@[ini + t] == l@[t],
        decreases l@.len() - k,
    {
        if v[ini + k] != l[k] {
            assert(v@.subrange(ini as int, fin as int)[k as int] != lit@[k as int]);
            return false;
        }
        k = k + 1;
    }
    assert(v@.subrange(ini as int, fin as int) =~= lit@);
    true
}

} // verus!
