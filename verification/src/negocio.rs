//! Entidades del negocio: insumos, recetas y proveedores.
//!
//! Los costos se llevan en milésimos de peso: un insumo tiene un precio por
//! kilo, es decir `precio` milésimos de peso por gramo.
use vstd::prelude::*;
use crate::error::{AppError, AppResult, ErrorVista};
use crate::externos::{es_texto_uuid, nuevo_id};
use crate::texto::copiar;

verus! {

// ---------------------------------------------------------------- Insumo

/// Un insumo del almacén (por ejemplo, harina), medido en gramos.
#[derive(Clone, Debug)]
pub struct Insumo {
    id: String,
    nombre: String,
    cantidad: u32,
    precio: u32,
    cantidad_minima: u32,
}

/// Vista de un [`Insumo`].
pub struct InsumoVista {
    pub id: Seq<char>,
    pub nombre: Seq<char>,
    pub cantidad: u32,
    pub precio: u32,
    pub cantidad_minima: u32,
}

impl View for Insumo {
    type V = InsumoVista;

    closed spec fn view(&self) -> InsumoVista {
        InsumoVista {
            id: self.id@,
            nombre: self.nombre@,
            cantidad: self.cantidad,
            precio: self.precio,
            cantidad_minima: self.cantidad_minima,
        }
    }
}

/// Error de dato inválido con el texto dado.
pub open spec fn dato_invalido(m: Seq<char>) -> ErrorVista {
    ErrorVista::DatoInvalido(m)
}

/// Error personal con el texto dado.
pub open spec fn error_personal(m: Seq<char>) -> ErrorVista {
    ErrorVista::ErrorPersonal(m)
}

/// Error que devuelve [`Insumo::nuevo`] para esos datos, si alguno no vale.
pub open spec fn error_insumo_nuevo(nombre: Seq<char>, cantidad: u32, precio: u32, cantidad_minima: u32) -> Option<ErrorVista> {
    if nombre.len() == 0 {
        Some(dato_invalido("el nombre no puede estar vacio"@))
    } else if cantidad == 0 {
        Some(dato_invalido("La cantidad no puede ser 0."@))
    } else if precio == 0 {
        Some(dato_invalido("el precio no debe ser 0."@))
    } else if cantidad_minima == 0 {
        Some(dato_invalido(" la cantidad_minima no deberia ser 0"@))
    } else {
        None
    }
}

impl Insumo {
    /// Crea un insumo nuevo con un identificador aleatorio.
    ///
    /// Rechaza un nombre vacío y cantidades o precios nulos.
    pub fn nuevo(nombre: String, cantidad: u32, precio: u32, cantidad_minima: u32) -> (r: AppResult<Insumo>)
        ensures
            match error_insumo_nuevo(nombre@, cantidad, precio, cantidad_minima) {
                Some(e) => r matches Err(x) && x@ == e,
                None => r matches Ok(i) && i@.nombre == nombre@ && i@.cantidad == cantidad
                    && i@.precio == precio && i@.cantidad_minima == cantidad_minima
                    && es_texto_uuid(i@.id),
            },
    {
        if nombre.as_str().is_empty() {
            return Err(AppError::DatoInvalido(copiar("el nombre no puede estar vacio")));
        }
        if cantidad == 0 {
            return Err(AppError::DatoInvalido(copiar("La cantidad no puede ser 0.")));
        }
        if precio == 0 {
            return Err(AppError::DatoInvalido(copiar("el precio no debe ser 0.")));
        }
        if cantidad_minima == 0 {
            return Err(AppError::DatoInvalido(copiar(" la cantidad_minima no deberia ser 0")));
        }
        Ok(Insumo { id: nuevo_id(), nombre, cantidad, precio, cantidad_minima })
    }

    /// Reconstruye un insumo guardado, tal como está, sin validar.
    pub fn crear_desde_db(id: String, nombre: String, cantidad: u32, cantidad_minima: u32, precio: u32) -> (r: AppResult<Insumo>)
        ensures
            r matches Ok(i) && i@ == (InsumoVista {
                id: id@,
                nombre: nombre@,
                cantidad: cantidad,
                precio: precio,
                cantidad_minima: cantidad_minima,
            }),
    {
        Ok(Insumo { id, nombre, cantidad, precio, cantidad_minima })
    }

    /// Descuenta `cantidad` gramos; sólo si quedan estrictamente más gramos.
    pub fn usar(&mut self, cantidad: u32) -> (r: AppResult<()>)
        ensures
            cantidad < old(self)@.cantidad ==> r is Ok && final(self)@ == (InsumoVista {
                cantidad: (old(self)@.cantidad - cantidad) as u32,
                ..old(self)@
            }),
            cantidad >= old(self)@.cantidad ==> (r matches Err(e) && e@ == error_personal(
                "No hay suficientes gramos para usar"@,
            ) && final(self)@ == old(self)@),
    {
        if cantidad < self.cantidad {
            self.cantidad = self.cantidad - cantidad;
            return Ok(());
        }
        Err(AppError::ErrorPersonal(copiar("No hay suficientes gramos para usar")))
    }

    /// El insumo está en o por debajo de su cantidad mínima.
    pub fn alerta_cantidad_minima(&self) -> (r: bool)
        ensures
            r == (self@.cantidad <= self@.cantidad_minima),
    {
        self.cantidad <= self.cantidad_minima
    }

    /// Identificador del insumo.
    pub fn obtener_id(&self) -> (r: String)
        ensures
            r@ == self@.id,
    {
        self.id.clone()
    }

    /// Cambia el nombre; rechaza uno vacío.
    pub fn actualizar_nombre(&mut self, nombre: String) -> (r: AppResult<()>)
        ensures
            nombre@.len() > 0 ==> r is Ok && final(self)@ == (InsumoVista { nombre: nombre@, ..old(self)@ }),
            nombre@.len() == 0 ==> (r matches Err(e) && e@ == dato_invalido("El nuevo nombre esta vacio"@)
                && final(self)@ == old(self)@),
    {
        if !nombre.as_str().is_empty() {
            self.nombre = nombre;
            Ok(())
        } else {
            Err(AppError::DatoInvalido(copiar("El nuevo nombre esta vacio")))
        }
    }

    /// Fija la cantidad en gramos; rechaza 0.
    pub fn actualizar_cantidad(&mut self, cantidad: u32) -> (r: AppResult<()>)
        ensures
            cantidad > 0 ==> r is Ok && final(self)@ == (InsumoVista { cantidad: cantidad, ..old(self)@ }),
            cantidad == 0 ==> (r matches Err(e) && e@ == dato_invalido("La cantidad a añadir es 0."@)
                && final(self)@ == old(self)@),
    {
        if cantidad == 0 {
            return Err(AppError::DatoInvalido(copiar("La cantidad a añadir es 0.")));
        }
        self.cantidad = cantidad;
        Ok(())
    }

    /// Fija la cantidad mínima; rechaza 0.
    pub fn actualizar_cantidad_minima(&mut self, cantidad_minima: u32) -> (r: AppResult<()>)
        ensures
            cantidad_minima > 0 ==> r is Ok && final(self)@ == (InsumoVista {
                cantidad_minima: cantidad_minima,
                ..old(self)@
            }),
            cantidad_minima == 0 ==> (r matches Err(e) && e@ == dato_invalido(
                "La cantidad minima no puede ser 0."@,
            ) && final(self)@ == old(self)@),
    {
        if cantidad_minima == 0 {
            return Err(AppError::DatoInvalido(copiar("La cantidad minima no puede ser 0.")));
        }
        self.cantidad_minima = cantidad_minima;
        Ok(())
    }

    /// Fija el precio por kilo; rechaza 0.
    pub fn actualizar_precio(&mut self, precio: u32) -> (r: AppResult<()>)
        ensures
            precio > 0 ==> r is Ok && final(self)@ == (InsumoVista { precio: precio, ..old(self)@ }),
            precio == 0 ==> (r matches Err(e) && e@ == dato_invalido("El precio no puede ser 0."@)
                && final(self)@ == old(self)@),
    {
        if precio == 0 {
            return Err(AppError::DatoInvalido(copiar("El precio no puede ser 0.")));
        }
        self.precio = precio;
        Ok(())
    }

    /// Gramos disponibles.
    pub fn obtener_cantidad(&self) -> (r: u32)
        ensures
            r == self@.cantidad,
    {
        self.cantidad
    }

    /// Cantidad mínima esperada.
    pub fn obtener_cantidad_minima(&self) -> (r: u32)
        ensures
            r == self@.cantidad_minima,
    {
        self.cantidad_minima
    }

    /// Precio por kilo.
    pub fn obtener_precio(&self) -> (r: u32)
        ensures
            r == self@.precio,
    {
        self.precio
    }

    /// Costo de un gramo, en milésimos de peso (el precio por kilo).
    pub fn obtener_costo_por_gramo(&self) -> (r: u32)
        ensures
            r == self@.precio,
    {
        self.precio
    }

    /// Costo de `cantidad` gramos, en milésimos de peso.
    pub fn costo_por_gramos(&self, cantidad: u32) -> (r: u64)
        ensures
            r == self@.precio * cantidad,
    {
        proof {
            vstd::arithmetic::mul::lemma_mul_upper_bound(
                self.precio as int, u32::MAX as int, cantidad as int, u32::MAX as int);
        }
        (self.precio as u64) * (cantidad as u64)
    }

    /// Copia del insumo.
    pub fn copia(&self) -> (r: Insumo)
        ensures
            r@ == self@,
    {
        Insumo {
            id: self.id.clone(),
            nombre: self.nombre.clone(),
            cantidad: self.cantidad,
            precio: self.precio,
            cantidad_minima: self.cantidad_minima,
        }
    }

    /// Nombre del insumo.
    pub fn nombre(&self) -> (r: &String)
        ensures
            r@ == self@.nombre,
    {
        &self.nombre
    }
}


// ---------------------------------------------------------------- Receta

/// Vista de una lista de ingredientes: pares (insumo, gramos).
pub open spec fn vista_ingredientes(v: Seq<(String, u32)>) -> Seq<(Seq<char>, u32)> {
    v.map_values(|p: (String, u32)| (p.0@, p.1))
}

/// Copia una lista de ingredientes.
pub fn clonar_ingredientes(v: &Vec<(String, u32)>) -> (r: Vec<(String, u32)>)
    ensures
        vista_ingredientes(r@) == vista_ingredientes(v@),
{
    let mut r: Vec<(String, u32)> = Vec::new();
    let mut i: usize = 0;
    while i < v.len()
        invariant
            i <= v@.len(),
            vista_ingredientes(r@) == vista_ingredientes(v@.take(i as int)),
        decreases v@.len() - i,
    {
        let par = (v[i].0.clone(), v[i].1);
        let ghost antes = r@;
        r.push(par);
        assert(v@.take(i + 1) =~= v@.take(i as int).push(v@[i as int]));
        assert(vista_ingredientes(r@) =~= vista_ingredientes(antes).push((v@[i as int].0@, v@[i as int].1)));
        assert(vista_ingredientes(r@) =~= vista_ingredientes(v@.take(i + 1)));
        i = i + 1;
    }
    assert(v@.take(v@.len() as int) =~= v@);
    r
}

/// Una receta: nombre, ingredientes (identificador de insumo y gramos) y costo
/// en milésimos de peso.
#[derive(Clone, Debug)]
pub struct Receta {
    id: String,
    nombre: String,
    ingredientes: Vec<(String, u32)>,
    costo: u128,
}

/// Vista de una [`Receta`].
pub struct RecetaVista {
    pub id: Seq<char>,
    pub nombre: Seq<char>,
    pub ingredientes: Seq<(Seq<char>, u32)>,
    pub costo: u128,
}

impl View for Receta {
    type V = RecetaVista;

    closed spec fn view(&self) -> RecetaVista {
        RecetaVista {
            id: self.id@,
            nombre: self.nombre@,
            ingredientes: vista_ingredientes(self.ingredientes@),
            costo: self.costo,
        }
    }
}

impl Receta {
    /// Crea una receta con identificador aleatorio; rechaza un nombre vacío o
    /// una lista de ingredientes vacía.
    pub fn nuevo(nombre: String, ingredientes: Vec<(String, u32)>, costo: u128) -> (r: AppResult<Receta>)
        ensures
            nombre@.len() == 0 ==> (r matches Err(e) && e@ == dato_invalido("el nombre no deberia estar vacio"@)),
            nombre@.len() > 0 && ingredientes@.len() == 0 ==> (r matches Err(e) && e@ == dato_invalido(
                "el ingrediente: '{}' no existe"@,
            )),
            nombre@.len() > 0 && ingredientes@.len() > 0 ==> (r matches Ok(x) && x@.nombre == nombre@
                && x@.ingredientes == vista_ingredientes(ingredientes@) && x@.costo == costo
                && es_texto_uuid(x@.id)),
    {
        if nombre.as_str().is_empty() {
            return Err(AppError::DatoInvalido(copiar("el nombre no deberia estar vacio")));
        }
        if ingredientes.len() == 0 {
            return Err(AppError::DatoInvalido(copiar("el ingrediente: '{}' no existe")));
        }
        Ok(Receta { id: nuevo_id(), nombre, ingredientes, costo })
    }

    /// Reconstruye una receta guardada, tal como está.
    pub fn desde_db(id: String, nombre: String, ingredientes: Vec<(String, u32)>, costo: u128) -> (r: Receta)
        ensures
            r@ == (RecetaVista {
                id: id@,
                nombre: nombre@,
                ingredientes: vista_ingredientes(ingredientes@),
                costo: costo,
            }),
    {
        Receta { id, nombre, ingredientes, costo }
    }

    /// Identificador de la receta.
    pub fn obtener_id(&self) -> (r: String)
        ensures
            r@ == self@.id,
    {
        self.id.clone()
    }

    /// Costo de la receta en milésimos de peso.
    pub fn costo(&self) -> (r: u128)
        ensures
            r == self@.costo,
    {
        self.costo
    }

    /// Nombre de la receta.
    pub fn nombre(&self) -> (r: String)
        ensures
            r@ == self@.nombre,
    {
        self.nombre.clone()
    }

    /// Copia de la lista de ingredientes.
    pub fn ingredientes(&self) -> (r: Vec<(String, u32)>)
        ensures
            vista_ingredientes(r@) == self@.ingredientes,
    {
        clonar_ingredientes(&self.ingredientes)
    }

    /// Cambia el nombre; rechaza uno vacío.
    pub fn actualizar_nombre(&mut self, nombre: String) -> (r: AppResult<()>)
        ensures
            nombre@.len() > 0 ==> r is Ok && final(self)@ == (RecetaVista { nombre: nombre@, ..old(self)@ }),
            nombre@.len() == 0 ==> (r matches Err(e) && e@ == dato_invalido("El nuevo nombre esta vacio"@)
                && final(self)@ == old(self)@),
    {
        if nombre.as_str().is_empty() {
            return Err(AppError::DatoInvalido(copiar("El nuevo nombre esta vacio")));
        }
        self.nombre = nombre;
        Ok(())
    }

    /// Cambia el costo; rechaza 0.
    pub fn actualizar_costo(&mut self, costo: u128) -> (r: AppResult<()>)
        ensures
            costo > 0 ==> r is Ok && final(self)@ == (RecetaVista { costo: costo, ..old(self)@ }),
            costo == 0 ==> (r matches Err(e) && e@ == dato_invalido("El nuevo costo esta en 0"@)
                && final(self)@ == old(self)@),
    {
        if costo == 0 {
            return Err(AppError::DatoInvalido(copiar("El nuevo costo esta en 0")));
        }
        self.costo = costo;
        Ok(())
    }

    /// Reemplaza la lista de ingredientes; rechaza una lista vacía.
    pub fn actualizar_ingredientes(&mut self, ingredientes: Vec<(String, u32)>) -> (r: AppResult<()>)
        ensures
            ingredientes@.len() > 0 ==> r is Ok && final(self)@ == (RecetaVista {
                ingredientes: vista_ingredientes(ingredientes@),
                ..old(self)@
            }),
            ingredientes@.len() == 0 ==> (r matches Err(e) && e@ == dato_invalido(
                "La lista de ingredientes esta vacia"@,
            ) && final(self)@ == old(self)@),
    {
        if ingredientes.len() == 0 {
            return Err(AppError::DatoInvalido(copiar("La lista de ingredientes esta vacia")));
        }
        self.ingredientes = ingredientes;
        Ok(())
    }
}

// ---------------------------------------------------------------- Proveedor

/// Un proveedor: marca, número de contacto y producto.
#[derive(Clone, Debug)]
pub struct Proveedor {
    id: String,
    marca: String,
    numero_contacto: String,
    producto: String,
}

/// Vista de un [`Proveedor`].
pub struct ProveedorVista {
    pub id: Seq<char>,
    pub marca: Seq<char>,
    pub numero_contacto: Seq<char>,
    pub producto: Seq<char>,
}

impl View for Proveedor {
    type V = ProveedorVista;

    closed spec fn view(&self) -> ProveedorVista {
        ProveedorVista {
            id: self.id@,
            marca: self.marca@,
            numero_contacto: self.numero_contacto@,
            producto: self.producto@,
        }
    }
}

impl Proveedor {
    /// Crea un proveedor con identificador aleatorio; los tres textos deben
    /// ser no vacíos.
    pub fn nuevo(marca: String, numero_contacto: String, producto: String) -> (r: AppResult<Proveedor>)
        ensures
            marca@.len() == 0 || numero_contacto@.len() == 0 || producto@.len() == 0 ==> (r matches Err(e)
                && e@ == dato_invalido("El nombre de la marca esta vacio."@)),
            marca@.len() > 0 && numero_contacto@.len() > 0 && producto@.len() > 0 ==> (r matches Ok(p)
                && p@.marca == marca@ && p@.numero_contacto == numero_contacto@ && p@.producto == producto@
                && es_texto_uuid(p@.id)),
    {
        if marca.as_str().is_empty() {
            return Err(AppError::DatoInvalido(copiar("El nombre de la marca esta vacio.")));
        }
        if numero_contacto.as_str().is_empty() {
            return Err(AppError::DatoInvalido(copiar("El nombre de la marca esta vacio.")));
        }
        if producto.as_str().is_empty() {
            return Err(AppError::DatoInvalido(copiar("El nombre de la marca esta vacio.")));
        }
        Ok(Proveedor { id: nuevo_id(), marca, numero_contacto, producto })
    }

    /// Reconstruye un proveedor guardado, tal como está.
    pub fn crear_desde_db(id: String, marca: String, numero_contacto: String, producto: String) -> (r: Proveedor)
        ensures
            r@ == (ProveedorVista {
                id: id@,
                marca: marca@,
                numero_contacto: numero_contacto@,
                producto: producto@,
            }),
    {
        Proveedor { id, marca, numero_contacto, producto }
    }

    /// Identificador del proveedor.
    pub fn obtener_id(&self) -> (r: String)
        ensures
            r@ == self@.id,
    {
        self.id.clone()
    }

    /// Marca del proveedor.
    pub fn obtener_marca(&self) -> (r: String)
        ensures
            r@ == self@.marca,
    {
        self.marca.clone()
    }

    /// Número de contacto.
    pub fn obtener_numero(&self) -> (r: String)
        ensures
            r@ == self@.numero_contacto,
    {
        self.numero_contacto.clone()
    }

    /// Producto que ofrece.
    pub fn obtener_producto(&self) -> (r: String)
        ensures
            r@ == self@.producto,
    {
        self.producto.clone()
    }
}

} // verus!
