//! Roles, entidades, acciones y la tabla de permisos.
use vstd::prelude::*;
use crate::texto::copiar;

verus! {

/// Entidad sobre la que se opera.
#[derive(PartialEq, Eq, Structural, Hash, Debug, Copy, Clone)]
pub enum Entidad {
    Insumo,
    Receta,
    Usuario,
}

/// Acción que se quiere realizar.
#[derive(PartialEq, Eq, Structural, Hash, Debug, Copy, Clone)]
pub enum Acciones {
    Crear,
    Eliminar,
    Editar,
}

/// Rol de un usuario.
#[derive(PartialEq, Eq, Structural, Hash, Debug, Copy, Clone)]
pub enum Rol {
    Admin,
    Invitado,
    Usuario,
}

/// Permisos de una entidad: para cada rol, las acciones que puede realizar.
pub type PermisosDeEntidad = Vec<(Rol, Vec<Acciones>)>;

/// Vista de la tabla de permisos.
pub open spec fn vista_permisos(t: Seq<(Entidad, PermisosDeEntidad)>) -> Seq<(Entidad, Seq<(Rol, Seq<Acciones>)>)> {
    t.map_values(|e: (Entidad, PermisosDeEntidad)| (e.0, e.1@.map_values(|r: (Rol, Vec<Acciones>)| (r.0, r.1@))))
}

/// Crear y editar.
pub open spec fn crear_y_editar() -> Seq<Acciones> {
    seq![Acciones::Crear, Acciones::Editar]
}

/// Todas las acciones.
pub open spec fn todas_las_acciones() -> Seq<Acciones> {
    seq![Acciones::Crear, Acciones::Editar, Acciones::Eliminar]
}

/// La tabla de permisos: recetas e insumos los administra el rol `Admin`
/// (crear, editar y eliminar) y el rol `Usuario` puede crear y editar. Ningún
/// rol tiene permisos sobre usuarios y el rol `Invitado` no tiene ninguno.
pub open spec fn tabla_permisos() -> Seq<(Entidad, Seq<(Rol, Seq<Acciones>)>)> {
    seq![
        (Entidad::Receta, seq![(Rol::Admin, todas_las_acciones()), (Rol::Usuario, crear_y_editar())]),
        (Entidad::Insumo, seq![(Rol::Admin, todas_las_acciones()), (Rol::Usuario, crear_y_editar())]),
    ]
}

/// Lo que la tabla de permisos permite, dicho directamente.
pub open spec fn permitido(entidad: Entidad, rol: Rol, accion: Acciones) -> bool {
    &&& (entidad == Entidad::Receta || entidad == Entidad::Insumo)
    &&& (rol == Rol::Admin || (rol == Rol::Usuario && accion != Acciones::Eliminar))
}

fn acciones_todas() -> (r: Vec<Acciones>)
    ensures
        r@ == todas_las_acciones(),
{
    let mut v: Vec<Acciones> = Vec::new();
    v.push(Acciones::Crear);
    v.push(Acciones::Editar);
    v.push(Acciones::Eliminar);
    assert(v@ =~= todas_las_acciones());
    v
}

fn acciones_crear_editar() -> (r: Vec<Acciones>)
    ensures
        r@ == crear_y_editar(),
{
    let mut v: Vec<Acciones> = Vec::new();
    v.push(Acciones::Crear);
    v.push(Acciones::Editar);
    assert(v@ =~= crear_y_editar());
    v
}

/// Construye la tabla de permisos.
pub fn listar_permisos() -> (r: Vec<(Entidad, PermisosDeEntidad)>)
    ensures
        vista_permisos(r@) == tabla_permisos(),
{
    let mut permisos: Vec<(Entidad, PermisosDeEntidad)> = Vec::new();
    let mut receta_permisos: PermisosDeEntidad = Vec::new();
    receta_permisos.push((Rol::Admin, acciones_todas()));
    receta_permisos.push((Rol::Usuario, acciones_crear_editar()));
    permisos.push((Entidad::Receta, receta_permisos));
    let mut permisos_insumos: PermisosDeEntidad = Vec::new();
    permisos_insumos.push((Rol::Admin, acciones_todas()));
    permisos_insumos.push((Rol::Usuario, acciones_crear_editar()));
    permisos.push((Entidad::Insumo, permisos_insumos));
    assert(vista_permisos(permisos@) =~= tabla_permisos()) by {
        assert(vista_permisos(permisos@)[0].1 =~= tabla_permisos()[0].1);
        assert(vista_permisos(permisos@)[1].1 =~= tabla_permisos()[1].1);
    }
    permisos
}

fn contiene_accion(v: &Vec<Acciones>, a: Acciones) -> (r: bool)
    ensures
        r == v@.contains(a),
{
    let mut i: usize = 0;
    while i < v.len()
        invariant
            i <= v@.len(),
            forall|k: int| 0 <= k < i ==> v@[k] != a,
        decreases v@.len() - i,
    {
        if v[i] == a {
            assert(v@[i as int] == a);
            return true;
        }
        i = i + 1;
    }
    false
}

/// Hechos sobre la forma de la tabla de permisos.
proof fn lema_forma_tabla()
    ensures
        tabla_permisos().len() == 2,
        tabla_permisos()[0].0 == Entidad::Receta,
        tabla_permisos()[1].0 == Entidad::Insumo,
        forall|i: int| 0 <= i < 2 ==> (#[trigger] tabla_permisos()[i]).1.len() == 2
            && tabla_permisos()[i].1[0].0 == Rol::Admin
            && tabla_permisos()[i].1[0].1 == todas_las_acciones()
            && tabla_permisos()[i].1[1].0 == Rol::Usuario
            && tabla_permisos()[i].1[1].1 == crear_y_editar(),
        forall|a: Acciones| #[trigger] todas_las_acciones().contains(a),
        forall|a: Acciones| #[trigger] crear_y_editar().contains(a) <==> a != Acciones::Eliminar,
{
    assert forall|a: Acciones| #[trigger] todas_las_acciones().contains(a) by {
        match a {
            Acciones::Crear => assert(todas_las_acciones()[0] == a),
            Acciones::Editar => assert(todas_las_acciones()[1] == a),
            Acciones::Eliminar => assert(todas_las_acciones()[2] == a),
        }
    }
    assert forall|a: Acciones| #[trigger] crear_y_editar().contains(a) <==> a != Acciones::Eliminar by {
        let s = crear_y_editar();
        match a {
            Acciones::Crear => assert(s[0] == a),
            Acciones::Editar => assert(s[1] == a),
            Acciones::Eliminar => assert(!s.contains(a)),
        }
    }
}

/// El rol puede realizar la acción sobre la entidad: busca la entidad en la
/// tabla de permisos, dentro de ella el rol, y mira si la acción figura.
pub fn puede_operar(entidad: Entidad, rol: Rol, accion: Acciones) -> (r: bool)
    ensures
        r == permitido(entidad, rol, accion),
{
    let tabla = listar_permisos();
    let ghost t = vista_permisos(tabla@);
    proof {
        lema_forma_tabla();
    }
    let mut i: usize = 0;
    while i < tabla.len()
        invariant
            t == vista_permisos(tabla@),
            t == tabla_permisos(),
            t.len() == 2,
            t[0].0 == Entidad::Receta,
            t[1].0 == Entidad::Insumo,
            i <= tabla@.len(),
            forall|k: int| 0 <= k < i ==> t[k].0 != entidad,
        decreases tabla@.len() - i,
    {
        if tabla[i].0 == entidad {
            let roles = &tabla[i].1;
            let ghost fila = t[i as int].1;
            assert(fila.len() == 2 && fila[0].0 == Rol::Admin && fila[1].0 == Rol::Usuario
                && fila[0].1 == todas_las_acciones() && fila[1].1 == crear_y_editar());
            assert(entidad == Entidad::Receta || entidad == Entidad::Insumo);
            let mut j: usize = 0;
            while j < roles.len()
                invariant
                    fila == roles@.map_values(|x: (Rol, Vec<Acciones>)| (x.0, x.1@)),
                    fila.len() == 2,
                    entidad == Entidad::Receta || entidad == Entidad::Insumo,
                    fila[0].0 == Rol::Admin,
                    fila[1].0 == Rol::Usuario,
                    fila[0].1 == todas_las_acciones(),
                    fila[1].1 == crear_y_editar(),
                    j <= roles@.len(),
                    forall|k: int| 0 <= k < j ==> fila[k].0 != rol,
                decreases roles@.len() - j,
            {
                if roles[j].0 == rol {
                    assert(fila[j as int].1 == roles@[j as int].1@);
                    let r = contiene_accion(&roles[j].1, accion);
                    proof {
                        lema_forma_tabla();
                        assert(todas_las_acciones().contains(accion));
                        assert(crear_y_editar().contains(accion) <==> accion != Acciones::Eliminar);
                        assert(j == 0 || j == 1);
                    }
                    return r;
                }
                j = j + 1;
            }
            assert(fila[0].0 != rol && fila[1].0 != rol);
            return false;
        }
        i = i + 1;
    }
    assert(t[0].0 != entidad && t[1].0 != entidad);
    false
}

/// Nombre con el que se muestra un rol.
pub fn nombre_rol(rol: Rol) -> (r: String)
    ensures
        r@ == texto_rol(rol),
{
    match rol {
        Rol::Admin => copiar("Admin"),
        Rol::Invitado => copiar("Invitado"),
        Rol::Usuario => copiar("Usuario"),
    }
}

/// Texto de un rol.
pub open spec fn texto_rol(rol: Rol) -> Seq<char> {
    match rol {
        Rol::Admin => "Admin"@,
        Rol::Invitado => "Invitado"@,
        Rol::Usuario => "Usuario"@,
    }
}

/// Nombre con el que se muestra una entidad.
pub fn nombre_entidad(e: Entidad) -> (r: String)
    ensures
        r@ == texto_entidad(e),
{
    match e {
        Entidad::Insumo => copiar("Insumo"),
        Entidad::Receta => copiar("Receta"),
        Entidad::Usuario => copiar("Usuario"),
    }
}

/// Texto de una entidad.
pub open spec fn texto_entidad(e: Entidad) -> Seq<char> {
    match e {
        Entidad::Insumo => "Insumo"@,
        Entidad::Receta => "Receta"@,
        Entidad::Usuario => "Usuario"@,
    }
}

/// Nombre con el que se muestra una acción.
pub fn nombre_accion(a: Acciones) -> (r: String)
    ensures
        r@ == texto_accion(a),
{
    match a {
        Acciones::Crear => copiar("Crear"),
        Acciones::Eliminar => copiar("Eliminar"),
        Acciones::Editar => copiar("Editar"),
    }
}

/// Texto de una acción.
pub open spec fn texto_accion(a: Acciones) -> Seq<char> {
    match a {
        Acciones::Crear => "Crear"@,
        Acciones::Eliminar => "Eliminar"@,
        Acciones::Editar => "Editar"@,
    }
}

} // verus!
