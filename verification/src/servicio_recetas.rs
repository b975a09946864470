//! Servicio del libro de recetas: altas, ediciones, consultas y producción,
//! con las reglas del negocio sobre el recetario y el almacén.
use vstd::prelude::*;
use vstd::utf8::encode_utf8;
use crate::busqueda::{buscar_en, contiene_nombre, resultado_busqueda, vista_textos};
use crate::error::{AppError, AppResult, ErrorVista};
use crate::externos::es_texto_uuid;
use crate::negocio::{dato_invalido, error_personal, vista_ingredientes, InsumoVista, Receta, RecetaVista};
use crate::orden::{claves_nombres, ordenadas, pos_insercion};
use crate::recetario::{
    claves_recetas, conflicto_clave, filas_para, indice_id_receta, indice_nombre_receta, ingredientes_de,
    nombres_recetas, recetas_con_ingrediente, resultado_editar_receta, FilaRecetaVista, RecetarioEnMemoria,
    RecetarioVista,
};
use crate::repositorio::{indice_id_insumo, indice_nombre_insumo, lema_indice_id_insumo, nombres_insumos};
use crate::servicio::{lema_contiene_nombre_insumo, no_existe_insumo, vista_opcion, ServicioDeAlmacen};
use crate::texto::{copiar, unir2, unir3};

verus! {

// ---------------------------------------------------------------- Especificación

/// Error "no existe en el libro".
pub open spec fn no_existe_receta(n: Seq<char>) -> ErrorVista {
    dato_invalido("La receta: "@ + n + "\nNo existe en el libro."@)
}

/// La receta guardada en la fila `i`, con sus ingredientes.
pub open spec fn receta_en(t: RecetarioVista, i: int) -> RecetaVista {
    RecetaVista {
        id: t.recetas[i].id,
        nombre: t.recetas[i].nombre,
        ingredientes: ingredientes_de(t.ingredientes, t.recetas[i].id),
        costo: t.recetas[i].costo,
    }
}

/// Qué se revisa de cada ingrediente de una lista.
pub enum Revision {
    /// Ingredientes (nombre, gramos) de una receta nueva.
    Nueva,
    /// Ingredientes (nombre, gramos) de una receta editada.
    Editada,
    /// Ingredientes (identificador, gramos) de una receta guardada.
    Guardada,
}

/// Error de un ingrediente según la revisión.
pub open spec fn error_en(s: Seq<InsumoVista>, p: (Seq<char>, u32), k: Revision) -> Option<ErrorVista> {
    match k {
        Revision::Nueva => error_ingrediente_nuevo(s, p),
        Revision::Editada => error_ingrediente_editado(s, p),
        Revision::Guardada => error_id_ausente(s, p),
    }
}

/// El primer error de una lista de ingredientes, revisada en orden.
pub open spec fn primer_error(s: Seq<InsumoVista>, l: Seq<(Seq<char>, u32)>, k: Revision) -> Option<ErrorVista>
    decreases l.len(),
{
    if l.len() == 0 {
        None
    } else if primer_error(s, l.drop_last(), k) is Some {
        primer_error(s, l.drop_last(), k)
    } else {
        error_en(s, l.last(), k)
    }
}

/// Error de un ingrediente (nombre de insumo, gramos) de una receta nueva.
pub open spec fn error_ingrediente_nuevo(s: Seq<InsumoVista>, p: (Seq<char>, u32)) -> Option<ErrorVista> {
    if p.0.len() == 0 {
        Some(dato_invalido("el nombre del ingrediente esta vacio"@))
    } else if p.1 == 0 {
        Some(dato_invalido("las cantidades no pueden ser menores a 0"@))
    } else if !nombres_insumos(s).contains(p.0) {
        Some(no_existe_insumo(p.0))
    } else {
        None
    }
}

/// Error de un ingrediente de la lista nueva de una receta editada.
pub open spec fn error_ingrediente_editado(s: Seq<InsumoVista>, p: (Seq<char>, u32)) -> Option<ErrorVista> {
    if !nombres_insumos(s).contains(p.0) {
        Some(no_existe_insumo(p.0))
    } else if p.1 == 0 {
        Some(dato_invalido("En el ingrediente: "@ + p.0 + ".\nLa cantidad no puede ser 0"@))
    } else {
        None
    }
}

/// Error de un ingrediente (identificador de insumo, gramos) al mostrarlo.
pub open spec fn error_id_ausente(s: Seq<InsumoVista>, p: (Seq<char>, u32)) -> Option<ErrorVista> {
    if indice_id_insumo(s, p.0) is None {
        Some(dato_invalido("No se encontro el insumo con id: "@ + p.0))
    } else {
        None
    }
}

/// Ingredientes por identificador de insumo, en lugar de nombre.
#[verifier::opaque]
pub open spec fn con_identificadores(s: Seq<InsumoVista>, l: Seq<(Seq<char>, u32)>) -> Seq<(Seq<char>, u32)> {
    l.map_values(|p: (Seq<char>, u32)| (s[indice_nombre_insumo(s, p.0)->0].id, p.1))
}

/// Ingredientes por nombre de insumo, en lugar de identificador.
#[verifier::opaque]
pub open spec fn con_nombres(s: Seq<InsumoVista>, l: Seq<(Seq<char>, u32)>) -> Seq<(Seq<char>, u32)> {
    l.map_values(|p: (Seq<char>, u32)| (s[indice_id_insumo(s, p.0)->0].nombre, p.1))
}

/// Costo de los ingredientes (por nombre de insumo), en milésimos de peso:
/// la suma de precio por gramos.
#[verifier::opaque]
pub open spec fn costo_ingredientes(s: Seq<InsumoVista>, l: Seq<(Seq<char>, u32)>) -> int
    decreases l.len(),
{
    if l.len() == 0 {
        0
    } else {
        costo_ingredientes(s, l.drop_last()) + s[indice_nombre_insumo(s, l.last().0)->0].precio * l.last().1
    }
}

/// Error que devuelve [`ServicioDeRecetas::anadir`], si alguno.
pub open spec fn error_receta_nueva(
    t: RecetarioVista,
    s: Seq<InsumoVista>,
    nombre: Seq<char>,
    l: Seq<(Seq<char>, u32)>,
) -> Option<ErrorVista> {
    if nombres_recetas(t.recetas).contains(nombre) {
        Some(dato_invalido("La receta: "@ + nombre + ", ya existe."@))
    } else if primer_error(s, l, Revision::Nueva) is Some {
        primer_error(s, l, Revision::Nueva)
    } else if nombre.len() == 0 {
        Some(dato_invalido("el nombre no deberia estar vacio"@))
    } else if l.len() == 0 {
        Some(dato_invalido("el ingrediente: '{}' no existe"@))
    } else {
        None
    }
}

/// Las tablas tras guardar una receta con identificador `id`; como en la base
/// de datos, nada cambia si se repite una clave.
pub open spec fn con_receta(
    t: RecetarioVista,
    id: Seq<char>,
    nombre: Seq<char>,
    l: Seq<(Seq<char>, u32)>,
    costo: u128,
) -> RecetarioVista {
    if indice_id_receta(t.recetas, id) is Some || indice_nombre_receta(t.recetas, nombre) is Some || conflicto_clave(
        t.ingredientes,
        id,
        l,
    ) {
        t
    } else {
        RecetarioVista {
            recetas: t.recetas.insert(
                pos_insercion(claves_recetas(t.recetas), encode_utf8(nombre)) as int,
                FilaRecetaVista { id, nombre, costo },
            ),
            ingredientes: t.ingredientes + filas_para(id, l),
        }
    }
}

/// Vista de una lista de ingredientes opcional.
pub open spec fn vista_opcion_ingredientes(o: Option<Vec<(String, u32)>>) -> Option<Seq<(Seq<char>, u32)>> {
    match o {
        Some(v) => Some(vista_ingredientes(v@)),
        None => None,
    }
}

/// Error que devuelve [`ServicioDeRecetas::editar_receta`], si alguno.
pub open spec fn error_editar_receta(
    t: RecetarioVista,
    s: Seq<InsumoVista>,
    receta: Seq<char>,
    nombre: Option<Seq<char>>,
    ingredientes: Option<Seq<(Seq<char>, u32)>>,
) -> Option<ErrorVista> {
    if !nombres_recetas(t.recetas).contains(receta) {
        Some(no_existe_receta(receta))
    } else if nombre matches Some(n) && n.len() == 0 {
        Some(dato_invalido("El nuevo nombre no puede estar vacio."@))
    } else if nombre matches Some(n) && n != receta && nombres_recetas(t.recetas).contains(n) {
        Some(dato_invalido("La receta: "@ + nombre->0))
    } else if ingredientes matches Some(l) && l.len() == 0 {
        Some(dato_invalido("La nueva lista de ingredientes esta vacia."@))
    } else if ingredientes matches Some(l) && primer_error(s, l, Revision::Editada) is Some {
        primer_error(s, ingredientes->0, Revision::Editada)
    } else {
        None
    }
}

/// Las tablas tras guardar la receta `receta` con el nombre pedido: la
/// receta se guarda con sus mismos ingredientes y costo, y si la base de
/// datos rechaza el cambio, nada cambia.
pub open spec fn receta_editada(t: RecetarioVista, receta: Seq<char>, nombre: Option<Seq<char>>) -> RecetarioVista {
    let i = indice_nombre_receta(t.recetas, receta)->0;
    let v = RecetaVista {
        nombre: match nombre {
            Some(n) => n,
            None => t.recetas[i].nombre,
        },
        ..receta_en(t, i)
    };
    match resultado_editar_receta(t, v) {
        Ok(x) => x,
        Err(_) => t,
    }
}

/// Descuenta los gramos de un ingrediente (identificador de insumo, gramos)
/// del almacén: el estado que queda y el error, si alguno.
pub open spec fn consumir(s: Seq<InsumoVista>, p: (Seq<char>, u32)) -> (Seq<InsumoVista>, Option<ErrorVista>) {
    match indice_id_insumo(s, p.0) {
        None => (s, Some(dato_invalido("No se encontro el insumo con id: "@ + p.0))),
        Some(i) => {
            let j = indice_nombre_insumo(s, s[i].nombre)->0;
            if p.1 < s[j].cantidad {
                (s.update(j, InsumoVista { cantidad: (s[j].cantidad - p.1) as u32, ..s[j] }), None)
            } else {
                (s, Some(error_personal("No hay suficientes gramos para usar"@)))
            }
        },
    }
}

/// Descuenta los ingredientes en orden, hasta el primer error.
pub open spec fn consumir_lista(s: Seq<InsumoVista>, l: Seq<(Seq<char>, u32)>) -> (Seq<InsumoVista>, Option<ErrorVista>)
    decreases l.len(),
{
    if l.len() == 0 {
        (s, None)
    } else {
        let (s2, e) = consumir_lista(s, l.drop_last());
        if e is Some {
            (s2, e)
        } else {
            consumir(s2, l.last())
        }
    }
}

/// Produce `veces` tandas de una receta: cada tanda descuenta sus
/// ingredientes; lo descontado antes de un error queda descontado.
pub open spec fn producir(s: Seq<InsumoVista>, l: Seq<(Seq<char>, u32)>, veces: nat) -> (Seq<InsumoVista>, Option<ErrorVista>)
    decreases veces,
{
    if veces == 0 {
        (s, None)
    } else {
        let (s2, e) = producir(s, l, (veces - 1) as nat);
        if e is Some {
            (s2, e)
        } else {
            consumir_lista(s2, l)
        }
    }
}

// ---------------------------------------------------------------- Lemas

proof fn lema_contiene_nombre_receta(s: Seq<FilaRecetaVista>, n: Seq<char>)
    ensures
        nombres_recetas(s).contains(n) <==> indice_nombre_receta(s, n) is Some,
{
    if nombres_recetas(s).contains(n) {
        let k = choose|k: int| 0 <= k < nombres_recetas(s).len() && nombres_recetas(s)[k] == n;
        assert(s[k].nombre == n);
    }
    if exists|i: int| 0 <= i < s.len() && s[i].nombre == n {
        let k = choose|i: int| 0 <= i < s.len() && s[i].nombre == n;
        assert(nombres_recetas(s)[k] == n);
    }
}

/// Un error en un prefijo es el primer error de toda la lista.
proof fn lema_primer_error_prefijo(s: Seq<InsumoVista>, l: Seq<(Seq<char>, u32)>, r: Revision, k: int, m: int)
    requires
        0 <= k <= m <= l.len(),
        primer_error(s, l.take(k), r) is Some,
    ensures
        primer_error(s, l.take(m), r) == primer_error(s, l.take(k), r),
    decreases m - k,
{
    if m > k {
        lema_primer_error_prefijo(s, l, r, k, m - 1);
        assert(l.take(m).drop_last() =~= l.take(m - 1));
    }
}

/// Paso de la revisión en orden: el prefijo crece en un elemento.
proof fn lema_primer_error_paso(s: Seq<InsumoVista>, l: Seq<(Seq<char>, u32)>, r: Revision, i: int)
    requires
        0 <= i < l.len(),
    ensures
        primer_error(s, l.take(i + 1), r) == (if primer_error(s, l.take(i), r) is Some {
            primer_error(s, l.take(i), r)
        } else {
            error_en(s, l[i], r)
        }),
{
    assert(l.take(i + 1).drop_last() =~= l.take(i));
}

/// Un error en un prefijo deja el descuento como estaba en ese prefijo.
proof fn lema_consumir_prefijo(s: Seq<InsumoVista>, l: Seq<(Seq<char>, u32)>, k: int, m: int)
    requires
        0 <= k <= m <= l.len(),
        consumir_lista(s, l.take(k)).1 is Some,
    ensures
        consumir_lista(s, l.take(m)) == consumir_lista(s, l.take(k)),
    decreases m - k,
{
    if m > k {
        lema_consumir_prefijo(s, l, k, m - 1);
        assert(l.take(m).drop_last() =~= l.take(m - 1));
    }
}

/// Tras un error, las tandas siguientes no se producen.
proof fn lema_producir_estable(s: Seq<InsumoVista>, l: Seq<(Seq<char>, u32)>, k: nat, m: nat)
    requires
        k <= m,
        producir(s, l, k).1 is Some,
    ensures
        producir(s, l, m) == producir(s, l, k),
    decreases m - k,
{
    if m > k {
        lema_producir_estable(s, l, k, (m - 1) as nat);
    }
}

// ---------------------------------------------------------------- Servicio

/// Un ingrediente más en la lista por identificador y en el costo.
proof fn lema_ingrediente_mas(s: Seq<InsumoVista>, l: Seq<(Seq<char>, u32)>, i: int)
    requires
        0 <= i < l.len(),
    ensures
        con_identificadores(s, l.take(i + 1)) == con_identificadores(s, l.take(i)).push(
            (s[indice_nombre_insumo(s, l[i].0)->0].id, l[i].1),
        ),
        costo_ingredientes(s, l.take(i + 1)) == costo_ingredientes(s, l.take(i))
            + s[indice_nombre_insumo(s, l[i].0)->0].precio * l[i].1,
{
    reveal(con_identificadores);
    reveal(costo_ingredientes);
    let t = l.take(i + 1);
    assert(t.drop_last() =~= l.take(i));
    assert(t.last() == l[i]);
    assert(con_identificadores(s, t) =~= con_identificadores(s, l.take(i)).push(
        (s[indice_nombre_insumo(s, l[i].0)->0].id, l[i].1),
    ));
}

/// La lista por identificador tiene el largo de la lista.
proof fn lema_con_identificadores_largo(s: Seq<InsumoVista>, l: Seq<(Seq<char>, u32)>)
    ensures
        con_identificadores(s, l).len() == l.len(),
{
    reveal(con_identificadores);
}

/// Listas vacías.
proof fn lema_ingredientes_vacios(s: Seq<InsumoVista>, l: Seq<(Seq<char>, u32)>)
    ensures
        con_identificadores(s, l.take(0)) == Seq::<(Seq<char>, u32)>::empty(),
        costo_ingredientes(s, l.take(0)) == 0,
{
    reveal(con_identificadores);
    reveal(costo_ingredientes);
    assert(con_identificadores(s, l.take(0)) =~= Seq::<(Seq<char>, u32)>::empty());
}

/// Revisa, en orden, la lista nueva de ingredientes de una receta editada.
fn revisar_ingredientes_editados(almacen: &ServicioDeAlmacen, ingredientes: &Vec<(String, u32)>) -> (r: AppResult<()>)
    ensures
        match primer_error(almacen@, vista_ingredientes(ingredientes@), Revision::Editada) {
            Some(e) => r matches Err(x) && x@ == e,
            None => r is Ok,
        },
{
    let ghost s = almacen@;
    let ghost l = vista_ingredientes(ingredientes@);
    let mut i: usize = 0;
    while i < ingredientes.len()
        invariant
            s == almacen@,
            l == vista_ingredientes(ingredientes@),
            i <= l.len(),
            primer_error(s, l.take(i as int), Revision::Editada) is None,
        decreases l.len() - i,
    {
        proof {
            lema_primer_error_paso(s, l, Revision::Editada, i as int);
        }
        let ingrediente = &ingredientes[i].0;
        let cantidad = ingredientes[i].1;
        let error = match almacen.existe(ingrediente) {
            Err(e) => Some(e),
            Ok(_) => if cantidad == 0 {
                Some(AppError::DatoInvalido(unir3("En el ingrediente: ", ingrediente.as_str(), ".\nLa cantidad no puede ser 0")))
            } else {
                None
            },
        };
        if let Some(e) = error {
            proof {
                lema_primer_error_prefijo(s, l, Revision::Editada, i + 1, l.len() as int);
                assert(l.take(l.len() as int) =~= l);
            }
            return Err(e);
        }
        i = i + 1;
    }
    proof {
        assert(l.take(l.len() as int) =~= l);
    }
    Ok(())
}

/// Un ingrediente más en la lista por nombre.
proof fn lema_nombre_mas(s: Seq<InsumoVista>, l: Seq<(Seq<char>, u32)>, i: int)
    requires
        0 <= i < l.len(),
    ensures
        con_nombres(s, l.take(i + 1)) == con_nombres(s, l.take(i)).push(
            (s[indice_id_insumo(s, l[i].0)->0].nombre, l[i].1),
        ),
        con_nombres(s, l.take(0)) == Seq::<(Seq<char>, u32)>::empty(),
{
    reveal(con_nombres);
    assert(con_nombres(s, l.take(i + 1)) =~= con_nombres(s, l.take(i)).push(
        (s[indice_id_insumo(s, l[i].0)->0].nombre, l[i].1),
    ));
    assert(con_nombres(s, l.take(0)) =~= Seq::<(Seq<char>, u32)>::empty());
}

/// Los ingredientes (identificador de insumo, gramos) por nombre de insumo;
/// o el primer identificador que no está en el almacén.
fn ingredientes_por_nombre(almacen: &ServicioDeAlmacen, ingredientes: &Vec<(String, u32)>) -> (r: AppResult<Vec<(String, u32)>>)
    ensures
        match primer_error(almacen@, vista_ingredientes(ingredientes@), Revision::Guardada) {
            Some(e) => r matches Err(x) && x@ == e,
            None => r matches Ok(v) && vista_ingredientes(v@) == con_nombres(almacen@, vista_ingredientes(ingredientes@)),
        },
{
    let ghost s = almacen@;
    let ghost l = vista_ingredientes(ingredientes@);
    let mut v: Vec<(String, u32)> = Vec::new();
    let mut i: usize = 0;
    proof {
        if l.len() > 0 {
            lema_nombre_mas(s, l, 0);
        } else {
            reveal(con_nombres);
            assert(con_nombres(s, l.take(0)) =~= Seq::<(Seq<char>, u32)>::empty());
        }
        assert(vista_ingredientes(v@) =~= Seq::<(Seq<char>, u32)>::empty());
    }
    while i < ingredientes.len()
        invariant
            s == almacen@,
            l == vista_ingredientes(ingredientes@),
            i <= l.len(),
            primer_error(s, l.take(i as int), Revision::Guardada) is None,
            vista_ingredientes(v@) == con_nombres(s, l.take(i as int)),
        decreases l.len() - i,
    {
        proof {
            lema_primer_error_paso(s, l, Revision::Guardada, i as int);
            lema_nombre_mas(s, l, i as int);
        }
        let nombre = match almacen.obtener_nombre_con_id(&ingredientes[i].0) {
            Ok(n) => n,
            Err(e) => {
                proof {
                    lema_primer_error_prefijo(s, l, Revision::Guardada, i + 1, l.len() as int);
                    assert(l.take(l.len() as int) =~= l);
                }
                return Err(e);
            },
        };
        let ghost antes = v@;
        v.push((nombre, ingredientes[i].1));
        proof {
            assert(vista_ingredientes(v@) =~= vista_ingredientes(antes).push((nombre@, l[i as int].1)));
        }
        i = i + 1;
    }
    proof {
        assert(l.take(l.len() as int) =~= l);
    }
    Ok(v)
}

/// Descuenta del almacén `cant` gramos del insumo con identificador `id`.
fn consumir_uno(almacen: &mut ServicioDeAlmacen, id: &String, cant: u32) -> (r: AppResult<()>)
    ensures
        final(almacen)@ == consumir(old(almacen)@, (id@, cant)).0,
        match consumir(old(almacen)@, (id@, cant)).1 {
            None => r is Ok,
            Some(x) => r matches Err(y) && y@ == x,
        },
{
    let ghost s = almacen@;
    let nombre = match almacen.obtener_nombre_con_id(id) {
        Ok(n) => n,
        Err(e) => {
            return Err(e);
        },
    };
    proof {
        lema_indice_id_insumo(s, id@);
        let i = indice_id_insumo(s, id@)->0;
        assert(s[i].nombre == nombre@);
        assert(indice_nombre_insumo(s, nombre@) is Some);
    }
    let mut insumo = match almacen.obtener(&nombre) {
        Ok(x) => x,
        Err(e) => {
            return Err(e);
        },
    };
    match insumo.usar(cant) {
        Ok(_) => {},
        Err(e) => {
            return Err(e);
        },
    }
    let nueva = insumo.obtener_cantidad();
    match almacen.usar(&nombre, nueva) {
        Ok(_) => {},
        Err(e) => {
            return Err(e);
        },
    }
    Ok(())
}

/// Descuenta del almacén, en orden, los gramos de cada ingrediente
/// (identificador de insumo, gramos), hasta el primer error.
fn consumir_ingredientes(almacen: &mut ServicioDeAlmacen, ingredientes: &Vec<(String, u32)>) -> (r: AppResult<()>)
    ensures
        final(almacen)@ == consumir_lista(old(almacen)@, vista_ingredientes(ingredientes@)).0,
        match consumir_lista(old(almacen)@, vista_ingredientes(ingredientes@)).1 {
            None => r is Ok,
            Some(x) => r matches Err(y) && y@ == x,
        },
{
    let ghost s0 = almacen@;
    let ghost l = vista_ingredientes(ingredientes@);
    let mut j: usize = 0;
    while j < ingredientes.len()
        invariant
            l == vista_ingredientes(ingredientes@),
            s0 == old(almacen)@,
            j <= l.len(),
            almacen@ == consumir_lista(s0, l.take(j as int)).0,
            consumir_lista(s0, l.take(j as int)).1 is None,
        decreases l.len() - j,
    {
        let ghost s = almacen@;
        proof {
            assert(l.take(j + 1).drop_last() =~= l.take(j as int));
            assert(l.take(j + 1).last() == l[j as int]);
            assert(l[j as int] == (ingredientes@[j as int].0@, ingredientes@[j as int].1));
        }
        let ghost paso = consumir_lista(s0, l.take(j + 1));
        assert(paso == consumir(s, l[j as int]));
        match consumir_uno(almacen, &ingredientes[j].0, ingredientes[j].1) {
            Ok(_) => {},
            Err(e) => {
                proof {
                    lema_consumir_prefijo(s0, l, j + 1, l.len() as int);
                    assert(l.take(l.len() as int) =~= l);
                }
                return Err(e);
            },
        }
        j = j + 1;
    }
    proof {
        assert(l.take(l.len() as int) =~= l);
    }
    Ok(())
}

/// Cota del costo de una lista: cada ingrediente cuesta a lo más
/// `(2^32 - 1)^2` milésimos.
proof fn lema_costo_acotado(s: Seq<InsumoVista>, l: Seq<(Seq<char>, u32)>)
    ensures
        0 <= costo_ingredientes(s, l) <= l.len() * 0xffff_fffe_0000_0001int,
    decreases l.len(),
{
    reveal(costo_ingredientes);
    if l.len() > 0 {
        lema_costo_acotado(s, l.drop_last());
        let p = s[indice_nombre_insumo(s, l.last().0)->0].precio;
        let c = l.last().1;
        assert(0 <= p * c <= 0xffff_fffe_0000_0001int) by (nonlinear_arith)
            requires
                0 <= p <= 0xffff_ffff,
                0 <= c <= 0xffff_ffff,
        ;
        assert((l.len() - 1) * 0xffff_fffe_0000_0001int + 0xffff_fffe_0000_0001int == l.len()
            * 0xffff_fffe_0000_0001int) by (nonlinear_arith);
    }
}

/// Los ingredientes (nombre de insumo, gramos) por identificador de insumo,
/// y su costo; o el primer error de la lista.
fn ingredientes_por_id(almacen: &ServicioDeAlmacen, ingredientes: &Vec<(String, u32)>) -> (r: AppResult<(Vec<(String, u32)>, u128)>)
    ensures
        match primer_error(almacen@, vista_ingredientes(ingredientes@), Revision::Nueva) {
            Some(e) => r matches Err(x) && x@ == e,
            None => r matches Ok(t) && vista_ingredientes(t.0@) == con_identificadores(
                almacen@,
                vista_ingredientes(ingredientes@),
            ) && t.1 == costo_ingredientes(almacen@, vista_ingredientes(ingredientes@)),
        },
{
    let ghost s = almacen@;
    let ghost l = vista_ingredientes(ingredientes@);
    let mut costo: u128 = 0;
    let mut con_id: Vec<(String, u32)> = Vec::new();
    let mut i: usize = 0;
    proof {
        lema_ingredientes_vacios(s, l);
        assert(vista_ingredientes(con_id@) =~= Seq::<(Seq<char>, u32)>::empty());
    }
    while i < ingredientes.len()
        invariant
            s == almacen@,
            l == vista_ingredientes(ingredientes@),
            i <= l.len(),
            primer_error(s, l.take(i as int), Revision::Nueva) is None,
            vista_ingredientes(con_id@) == con_identificadores(s, l.take(i as int)),
            costo == costo_ingredientes(s, l.take(i as int)),
        decreases l.len() - i,
    {
        proof {
            lema_primer_error_paso(s, l, Revision::Nueva, i as int);
        }
        let nombre = &ingredientes[i].0;
        let cantidad = ingredientes[i].1;
        let error = if nombre.as_str().is_empty() {
            Some(AppError::DatoInvalido(copiar("el nombre del ingrediente esta vacio")))
        } else if cantidad == 0 {
            Some(AppError::DatoInvalido(copiar("las cantidades no pueden ser menores a 0")))
        } else {
            match almacen.existe(nombre) {
                Ok(_) => None,
                Err(e) => Some(e),
            }
        };
        if let Some(e) = error {
            proof {
                lema_primer_error_prefijo(s, l, Revision::Nueva, i + 1, l.len() as int);
                assert(l.take(l.len() as int) =~= l);
            }
            return Err(e);
        }
        proof {
            lema_contiene_nombre_insumo(s, nombre@);
        }
        let insumo = match almacen.obtener(nombre) {
            Ok(x) => x,
            Err(e) => {
                return Err(e);
            },
        };
        let ghost antes = con_id@;
        con_id.push((insumo.obtener_id(), cantidad));
        let parcial = insumo.costo_por_gramos(cantidad);
        proof {
            let t = l.take(i + 1);
            lema_ingrediente_mas(s, l, i as int);
            assert(vista_ingredientes(con_id@) =~= vista_ingredientes(antes).push((insumo@.id, cantidad)));
            lema_costo_acotado(s, t);
            assert(t.len() * 0xffff_fffe_0000_0001int <= u128::MAX) by (nonlinear_arith)
                requires
                    t.len() <= 0xffff_ffff_ffff_ffffint,
            ;
        }
        costo = costo + parcial as u128;
        i = i + 1;
    }
    proof {
        assert(l.take(l.len() as int) =~= l);
    }
    Ok((con_id, costo))
}


/// Servicio del libro de recetas.
pub struct ServicioDeRecetas {
    repositorio: RecetarioEnMemoria,
}

impl View for ServicioDeRecetas {
    type V = RecetarioVista;

    closed spec fn view(&self) -> RecetarioVista {
        self.repositorio@
    }
}

impl ServicioDeRecetas {
    /// Servicio sobre ese recetario.
    pub fn nuevo(repositorio: RecetarioEnMemoria) -> (r: ServicioDeRecetas)
        ensures
            r@ == repositorio@,
    {
        ServicioDeRecetas { repositorio }
    }

    /// Filas de la tabla `recetas`: identificador, nombre y costo.
    pub fn filas_recetas(&self) -> (r: Vec<(String, String, u128)>)
        ensures
            r@.len() == self@.recetas.len(),
            forall|i: int| 0 <= i < r@.len() ==> (#[trigger] r@[i]).0@ == self@.recetas[i].id
                && r@[i].1@ == self@.recetas[i].nombre && r@[i].2 == self@.recetas[i].costo,
    {
        self.repositorio.filas_recetas()
    }

    /// Filas de la tabla `ingredientes_en_receta`: receta, ingrediente y gramos.
    pub fn filas_ingredientes(&self) -> (r: Vec<(String, String, u32)>)
        ensures
            r@.len() == self@.ingredientes.len(),
            forall|i: int| 0 <= i < r@.len() ==> (#[trigger] r@[i]).0@ == self@.ingredientes[i].receta_id
                && r@[i].1@ == self@.ingredientes[i].ingrediente_id && r@[i].2 == self@.ingredientes[i].cantidad,
    {
        self.repositorio.filas_ingredientes()
    }

    /// La receta existe (por nombre).
    pub fn existe(&self, busqueda: &str) -> (r: AppResult<()>)
        ensures
            nombres_recetas(self@.recetas).contains(busqueda@) ==> r is Ok,
            !nombres_recetas(self@.recetas).contains(busqueda@) ==> (r matches Err(e) && e@ == no_existe_receta(
                busqueda@,
            )),
    {
        let lista = self.repositorio.listar();
        assert(vista_textos(lista@) == nombres_recetas(self@.recetas));
        let b = copiar(busqueda);
        if contiene_nombre(&lista, &b) {
            Ok(())
        } else {
            Err(AppError::DatoInvalido(unir3("La receta: ", busqueda, "\nNo existe en el libro.")))
        }
    }

    /// Nombres de todas las recetas, en orden de nombre.
    pub fn mostrar_todos(&self) -> (r: AppResult<Vec<String>>)
        ensures
            r matches Ok(v) && vista_textos(v@) == nombres_recetas(self@.recetas) && ordenadas(
                claves_nombres(vista_textos(v@)),
            ),
    {
        let lista = self.repositorio.listar();
        assert(vista_textos(lista@) == nombres_recetas(self@.recetas));
        assert(claves_nombres(nombres_recetas(self@.recetas)) =~= claves_recetas(self@.recetas));
        Ok(lista)
    }

    /// Busca recetas por nombre (ver [`resultado_busqueda`]).
    pub fn buscar(&self, busqueda: &str) -> (r: AppResult<Vec<String>>)
        ensures
            r matches Ok(v) && vista_textos(v@) == resultado_busqueda(nombres_recetas(self@.recetas), busqueda@),
    {
        let lista = self.repositorio.listar();
        assert(vista_textos(lista@) == nombres_recetas(self@.recetas));
        Ok(buscar_en(lista, busqueda))
    }

    /// La receta de ese nombre, con sus ingredientes.
    pub fn obtener(&self, busqueda: &str) -> (r: AppResult<Receta>)
        ensures
            match indice_nombre_receta(self@.recetas, busqueda@) {
                None => r matches Err(e) && e@ == no_existe_receta(busqueda@),
                Some(i) => r matches Ok(x) && x@ == receta_en(self@, i),
            },
    {
        proof {
            lema_contiene_nombre_receta(self@.recetas, busqueda@);
        }
        match self.existe(busqueda) {
            Ok(_) => {},
            Err(e) => {
                return Err(e);
            },
        }
        let b = copiar(busqueda);
        self.repositorio.obtener(&b)
    }

    /// Borra la receta de ese nombre; sus filas de ingredientes quedan.
    pub fn eliminar(&mut self, busqueda: &str) -> (r: AppResult<()>)
        ensures
            match indice_nombre_receta(old(self)@.recetas, busqueda@) {
                None => r matches Err(e) && e@ == no_existe_receta(busqueda@) && final(self)@ == old(self)@,
                Some(i) => r is Ok && final(self)@.recetas == old(self)@.recetas.remove(i)
                    && final(self)@.ingredientes == old(self)@.ingredientes,
            },
    {
        proof {
            lema_contiene_nombre_receta(self@.recetas, busqueda@);
        }
        match self.existe(busqueda) {
            Ok(_) => {},
            Err(e) => {
                return Err(e);
            },
        }
        let b = copiar(busqueda);
        let _ = self.repositorio.eliminar(&b);
        Ok(())
    }

    /// Crea una receta con ingredientes por nombre de insumo y gramos; su
    /// costo es la suma de precio por gramos. Rechaza un nombre ya usado o
    /// vacío, una lista vacía, y un ingrediente sin nombre, sin gramos o que
    /// no esté en el almacén (ver [`error_receta_nueva`]). Si el recetario
    /// rechaza la receta (una clave repetida, como un ingrediente dos veces),
    /// nada cambia y el resultado sigue siendo `Ok`.
    pub fn anadir(&mut self, n_receta: String, ingredientes: Vec<(String, u32)>, almacen: &ServicioDeAlmacen) -> (r: AppResult<()>)
        ensures
            match error_receta_nueva(old(self)@, almacen@, n_receta@, vista_ingredientes(ingredientes@)) {
                Some(e) => r matches Err(x) && x@ == e && final(self)@ == old(self)@,
                None => r is Ok && exists|id: Seq<char>| #[trigger] es_texto_uuid(id) && final(self)@ == con_receta(
                    old(self)@,
                    id,
                    n_receta@,
                    con_identificadores(almacen@, vista_ingredientes(ingredientes@)),
                    costo_ingredientes(almacen@, vista_ingredientes(ingredientes@)) as u128,
                ),
            },
    {
        match self.existe(n_receta.as_str()) {
            Ok(_) => {
                return Err(AppError::DatoInvalido(unir3("La receta: ", n_receta.as_str(), ", ya existe.")));
            },
            Err(_) => {},
        }
        let (con_id, costo) = match ingredientes_por_id(almacen, &ingredientes) {
            Ok(x) => x,
            Err(e) => {
                return Err(e);
            },
        };
        proof {
            lema_con_identificadores_largo(almacen@, vista_ingredientes(ingredientes@));
        }
        let receta = match Receta::nuevo(n_receta, con_id, costo) {
            Ok(x) => x,
            Err(e) => {
                return Err(e);
            },
        };
        let ghost id = receta@.id;
        let _ = self.repositorio.anadir(receta);
        proof {
            lema_contiene_nombre_receta(old(self)@.recetas, n_receta@);
            assert(final(self)@ == con_receta(
                old(self)@,
                id,
                n_receta@,
                con_identificadores(almacen@, vista_ingredientes(ingredientes@)),
                costo,
            ));
        }
        Ok(())
    }

    /// Edita una receta: sólo el nombre. Una lista nueva de ingredientes se
    /// revisa (que no esté vacía, y cada insumo exista con gramos no nulos)
    /// pero no se guarda. La receta se guarda con sus mismos ingredientes y
    /// costo; si el recetario rechaza el cambio, nada cambia y el resultado
    /// sigue siendo `Ok` (ver [`error_editar_receta`] y [`receta_editada`]).
    pub fn editar_receta(
        &mut self,
        almacen: &ServicioDeAlmacen,
        receta: &String,
        nombre: Option<String>,
        ingredientes: Option<Vec<(String, u32)>>,
    ) -> (r: AppResult<()>)
        ensures
            match error_editar_receta(
                old(self)@,
                almacen@,
                receta@,
                vista_opcion(nombre),
                vista_opcion_ingredientes(ingredientes),
            ) {
                Some(e) => r matches Err(x) && x@ == e && final(self)@ == old(self)@,
                None => r is Ok && final(self)@ == receta_editada(old(self)@, receta@, vista_opcion(nombre)),
            },
    {
        proof {
            lema_contiene_nombre_receta(self@.recetas, receta@);
        }
        match self.existe(receta.as_str()) {
            Ok(_) => {},
            Err(e) => {
                return Err(e);
            },
        }
        let mut receta_a_editar = match self.obtener(receta.as_str()) {
            Ok(x) => x,
            Err(e) => {
                return Err(e);
            },
        };
        if let Some(nuevo_nombre) = nombre {
            if nuevo_nombre.as_str().is_empty() {
                return Err(AppError::DatoInvalido(copiar("El nuevo nombre no puede estar vacio.")));
            }
            if nuevo_nombre != *receta {
                match self.existe(nuevo_nombre.as_str()) {
                    Ok(_) => {
                        return Err(AppError::DatoInvalido(unir2("La receta: ", nuevo_nombre.as_str())));
                    },
                    Err(_) => {},
                }
            }
            let _ = receta_a_editar.actualizar_nombre(nuevo_nombre);
        }
        if let Some(ingr) = ingredientes {
            if ingr.len() == 0 {
                return Err(AppError::DatoInvalido(copiar("La nueva lista de ingredientes esta vacia.")));
            }
            match revisar_ingredientes_editados(almacen, &ingr) {
                Ok(_) => {},
                Err(e) => {
                    return Err(e);
                },
            }
        }
        let _ = self.repositorio.editar_receta(receta_a_editar);
        Ok(())
    }

    /// Nombre, ingredientes (nombre de insumo y gramos) y costo de la receta
    /// de ese nombre.
    pub fn mostrar_receta(&self, busqueda: &String, almacen: &ServicioDeAlmacen) -> (r: AppResult<(String, Vec<(String, u32)>, u128)>)
        ensures
            match indice_nombre_receta(self@.recetas, busqueda@) {
                None => r matches Err(e) && e@ == no_existe_receta(busqueda@),
                Some(i) => match primer_error(almacen@, receta_en(self@, i).ingredientes, Revision::Guardada) {
                    Some(e) => r matches Err(x) && x@ == e,
                    None => r matches Ok(t) && t.0@ == self@.recetas[i].nombre && vista_ingredientes(t.1@) == con_nombres(
                        almacen@,
                        receta_en(self@, i).ingredientes,
                    ) && t.2 == self@.recetas[i].costo,
                },
            },
    {
        proof {
            lema_contiene_nombre_receta(self@.recetas, busqueda@);
        }
        match self.existe(busqueda.as_str()) {
            Ok(_) => {},
            Err(e) => {
                return Err(e);
            },
        }
        let receta = match self.obtener(busqueda.as_str()) {
            Ok(x) => x,
            Err(e) => {
                return Err(e);
            },
        };
        let ingredientes = match ingredientes_por_nombre(almacen, &receta.ingredientes()) {
            Ok(v) => v,
            Err(e) => {
                return Err(e);
            },
        };
        Ok((receta.nombre(), ingredientes, receta.costo()))
    }

    /// Produce `cantidad` tandas de la receta de ese nombre: cada tanda
    /// descuenta del almacén los gramos de cada ingrediente, en orden. Un
    /// insumo que falte o no alcance (debe quedar más de lo que se usa)
    /// detiene la producción, y lo ya descontado queda descontado (ver
    /// [`producir`]).
    pub fn producir_receta(&self, almacen: &mut ServicioDeAlmacen, nombre_receta: &String, cantidad: u32) -> (r: AppResult<()>)
        ensures
            match indice_nombre_receta(self@.recetas, nombre_receta@) {
                None => r matches Err(e) && e@ == no_existe_receta(nombre_receta@) && final(almacen)@ == old(almacen)@,
                Some(i) => {
                    let (s, e) = producir(old(almacen)@, receta_en(self@, i).ingredientes, cantidad as nat);
                    &&& final(almacen)@ == s
                    &&& match e {
                        None => r is Ok,
                        Some(x) => r matches Err(y) && y@ == x,
                    }
                },
            },
    {
        proof {
            lema_contiene_nombre_receta(self@.recetas, nombre_receta@);
        }
        match self.existe(nombre_receta.as_str()) {
            Ok(_) => {},
            Err(e) => {
                return Err(e);
            },
        }
        let receta = match self.obtener(nombre_receta.as_str()) {
            Ok(x) => x,
            Err(e) => {
                return Err(e);
            },
        };
        let ingredientes = receta.ingredientes();
        let ghost l = vista_ingredientes(ingredientes@);
        let ghost s0 = almacen@;
        let mut k: u32 = 0;
        while k < cantidad
            invariant
                l == vista_ingredientes(ingredientes@),
                s0 == old(almacen)@,
                indice_nombre_receta(self@.recetas, nombre_receta@) matches Some(i) && l == receta_en(self@, i).ingredientes,
                k <= cantidad,
                almacen@ == producir(s0, l, k as nat).0,
                producir(s0, l, k as nat).1 is None,
            decreases cantidad - k,
        {
            let ghost antes = almacen@;
            assert(producir(s0, l, (k + 1) as nat) == consumir_lista(antes, l));
            match consumir_ingredientes(almacen, &ingredientes) {
                Ok(_) => {},
                Err(e) => {
                    proof {
                        assert(producir(s0, l, (k + 1) as nat).1 == Some(e@));
                        assert(almacen@ == producir(s0, l, (k + 1) as nat).0);
                        lema_producir_estable(s0, l, (k + 1) as nat, cantidad as nat);
                        assert(producir(s0, l, cantidad as nat).1 == Some(e@));
                        assert(almacen@ == producir(s0, l, cantidad as nat).0);
                    }
                    return Err(e);
                },
            }
            k = k + 1;
        }
        Ok(())
    }

    /// Identificadores de las recetas que usan el insumo con ese
    /// identificador, en orden de llegada de sus filas de ingredientes.
    pub fn insumo_en_recetas(&self, insumo_id: &String) -> (r: AppResult<Vec<String>>)
        ensures
            r matches Ok(v) && vista_textos(v@) == recetas_con_ingrediente(self@.ingredientes, insumo_id@),
    {
        let v = self.repositorio.insumo_en_recetas(insumo_id);
        assert(vista_textos(v@) == recetas_con_ingrediente(self@.ingredientes, insumo_id@));
        Ok(v)
    }
}

} // verus!
