# inventario

Inventario de una cafetería: insumos con su stock y precio por kilo, recetas
con su costo, producción de recetas que descuenta los insumos, usuarios con
contraseña cifrada (bcrypt) y token de sesión, y permisos por rol sobre las
rutas del servidor.

- `src/` es la biblioteca, escrita y verificada con Verus: las tablas en
  memoria con sus restricciones (orden por nombre, claves únicas), los
  servicios con sus reglas y mensajes, los comandos, el control de acceso y
  las respuestas del servidor. Los costos se llevan en milésimos de peso,
  como enteros.
- `src/externos.rs` reúne las llamadas a `uuid`, `bcrypt` y `strsim`, cuyos
  contratos resumen lo que muestra el código de esas bibliotecas y no se
  prueban.
- `src/leyes.rs` y las funciones `lema_*` públicas enuncian y prueban
  propiedades que relacionan varias operaciones.
- `app/` es el programa: la línea de comandos, el servidor `actix-web`, y la
  lectura y escritura de las tablas en SQLite (`rusqlite`).
- `tests/` prueba la biblioteca sobre valores concretos.

Uso: `inventario` abre la línea de comandos; `inventario server` sirve en
`127.0.0.1:8080`.
