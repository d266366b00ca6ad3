//! Acceso a SQLite: sentencias con parámetros, filas como valores, transacciones y los
//! mensajes de error que ve el docente.

use vstd::prelude::*;
use vstd::string::StringExecFns;
use rusqlite::Connection;
use crate::cadena::{caracteres, contiene, contiene_en, en_minusculas, a_minusculas};

verus! {

#[verifier::external_type_specification]
#[verifier::external_body]
pub struct ExConnection(rusqlite::Connection);

#[verifier::external_type_specification]
#[verifier::external_body]
pub struct ExRusqliteError(rusqlite::Error);

#[verifier::external_type_specification]
#[verifier::external_body]
pub struct ExTransaction<'conn>(rusqlite::Transaction<'conn>);

#[verifier::external_type_specification]
#[verifier::external_body]
pub struct ExSqlValue(rusqlite::types::Value);

/// Valor de una columna o de un parámetro.
#[derive(Debug, Clone, PartialEq)]
pub enum Valor {
    Nulo,
    Entero(i64),
    Texto(String),
    /// Real o blob: este cuaderno no los usa.
    Otro,
}

/// Error de una operación sobre la base.
#[derive(Debug, Clone, PartialEq)]
pub enum ErrorDb {
    /// La consulta no devolvió filas, o no cambió ninguna.
    NoEncontrado,
    /// Regla de la app, con su mensaje.
    App(String),
    /// Error de SQLite, con su texto.
    Sql(String),
}

/// Un error que viene de la base (no encontró filas, o SQLite falló), no de una regla de la app.
pub open spec fn error_de_base(e: ErrorDb) -> bool {
    e is NoEncontrado || e is Sql
}

/// Si el resultado es un error, es de la base.
pub open spec fn falla_de_base<T>(r: Result<T, ErrorDb>) -> bool {
    r matches Err(e) ==> error_de_base(e)
}

/// Si el resultado es un error, es de la base o una regla de la app con uno de esos mensajes.
pub open spec fn falla_con<T>(r: Result<T, ErrorDb>, motivos: Set<Seq<char>>) -> bool {
    r matches Err(e) ==> error_de_base(e) || (e matches ErrorDb::App(m) && motivos.contains(m@))
}

/// Un error de la app con su mensaje.
pub fn app_err(msg: &str) -> (e: ErrorDb)
    ensures
        e matches ErrorDb::App(m) && m@ == msg@,
{
    ErrorDb::App(msg.to_owned())
}

/// Un parámetro como `Value` de `rusqlite`: `Nulo` y `Otro` como `Null`, `Entero(i)` como
/// `Integer(i)` y `Texto(t)` como `Text(t)`.
#[verifier::external_body]
fn a_sql(v: &Valor) -> rusqlite::types::Value {
    match v {
        Valor::Nulo => rusqlite::types::Value::Null,
        Valor::Entero(i) => rusqlite::types::Value::Integer(*i),
        Valor::Texto(t) => rusqlite::types::Value::Text(t.clone()),
        Valor::Otro => rusqlite::types::Value::Null,
    }
}

/// Una columna (`Value` de `rusqlite`) como valor, una por una.
#[verifier::external_body]
fn de_sql(v: &rusqlite::types::Value) -> Valor {
    match v {
        rusqlite::types::Value::Null => Valor::Nulo,
        rusqlite::types::Value::Integer(i) => Valor::Entero(*i),
        rusqlite::types::Value::Text(s) => Valor::Texto(s.clone()),
        rusqlite::types::Value::Real(_) => Valor::Otro,
        rusqlite::types::Value::Blob(_) => Valor::Otro,
    }
}

/// `Connection::execute` con `sql` y los parámetros posicionales `args`, cada uno como lo da
/// `a_sql`. Lo que cambia en la base no se dice: depende de su contenido.
#[verifier::external_body]
fn ejecutar(conn: &Connection, sql: &str, args: &Vec<Valor>) -> Result<usize, rusqlite::Error> {
    conn.execute(sql, rusqlite::params_from_iter(args.iter().map(a_sql)))
}

/// `Connection::prepare` y `Statement::query_map` con `sql` y los parámetros posicionales `args`
/// (cada uno como lo da `a_sql`): todas las filas, cada una con todas sus columnas. Qué filas vuelven depende del contenido de la base y no se dice.
#[verifier::external_body]
fn consultar(conn: &Connection, sql: &str, args: &Vec<Valor>) -> Result<Vec<Vec<rusqlite::types::Value>>, rusqlite::Error> {
    let mut stmt = conn.prepare(sql)?;
    let n = stmt.column_count();
    let filas = stmt.query_map(rusqlite::params_from_iter(args.iter().map(a_sql)), |f| (0..n).map(|i| f.get(i)).collect())?;
    filas.collect()
}

/// Las filas de una consulta como valores, en orden.
fn valores(filas: &Vec<Vec<rusqlite::types::Value>>) -> (r: Vec<Vec<Valor>>)
    ensures
        r@.len() == filas@.len(),
        forall|i: int| 0 <= i < r@.len() ==> (#[trigger] r@[i])@.len() == filas@[i]@.len(),
{
    let mut r: Vec<Vec<Valor>> = Vec::new();
    let mut i: usize = 0;
    while i < filas.len()
        invariant
            i <= filas@.len(),
            r@.len() == i,
            forall|k: int| 0 <= k < i ==> (#[trigger] r@[k])@.len() == filas@[k]@.len(),
        decreases filas@.len() - i,
    {
        let f = &filas[i];
        let mut fila: Vec<Valor> = Vec::new();
        let mut j: usize = 0;
        while j < f.len()
            invariant
                j <= f@.len(),
                fila@.len() == j,
            decreases f@.len() - j,
        {
            fila.push(de_sql(&f[j]));
            j = j + 1;
        }
        r.push(fila);
        i = i + 1;
    }
    r
}

/// `Connection::execute_batch`: varias sentencias sin parámetros.
#[verifier::external_body]
fn ejecutar_lote(conn: &Connection, sql: &str) -> Result<(), rusqlite::Error> {
    conn.execute_batch(sql)
}

/// `Connection::unchecked_transaction`: empieza una transacción (`BEGIN DEFERRED`). Si se suelta
/// sin confirmar, `rusqlite` la deshace (`ROLLBACK`).
#[verifier::external_body]
fn empezar<'c>(conn: &'c Connection) -> Result<rusqlite::Transaction<'c>, rusqlite::Error> {
    conn.unchecked_transaction()
}

/// `Connection::execute` (por `Deref`) dentro de una transacción, con `sql` y los parámetros
/// posicionales `args` (cada uno como lo da `a_sql`).
#[verifier::external_body]
fn ejecutar_en(tx: &rusqlite::Transaction, sql: &str, args: &Vec<Valor>) -> Result<usize, rusqlite::Error> {
    tx.execute(sql, rusqlite::params_from_iter(args.iter().map(a_sql)))
}

/// `Transaction::commit`: confirma la transacción (`COMMIT`).
#[verifier::external_body]
fn confirmar(tx: rusqlite::Transaction) -> Result<(), rusqlite::Error> {
    tx.commit()
}

/// `Connection::last_insert_rowid`.
#[verifier::external_body]
fn ultimo_rowid(conn: &Connection) -> i64 {
    conn.last_insert_rowid()
}

/// `Connection::open_in_memory`: una base vacía en memoria.
#[verifier::external_body]
fn abrir_memoria() -> Result<Connection, rusqlite::Error> {
    Connection::open_in_memory()
}

/// Un error de `rusqlite` como error de la base: `QueryReturnedNoRows` es "no encontrado";
/// el resto, su texto (`Display`). Cuál de los dos es depende del error, que no se ve.
#[verifier::external_body]
fn clasificar(e: rusqlite::Error) -> (r: ErrorDb)
    ensures
        r is NoEncontrado || r is Sql,
{
    match e {
        rusqlite::Error::QueryReturnedNoRows => ErrorDb::NoEncontrado,
        otro => ErrorDb::Sql(otro.to_string()),
    }
}

/// Un parámetro tal como le llega a SQLite.
pub enum Dato {
    Nulo,
    Entero(i64),
    Texto(Seq<char>),
    Otro,
}

/// El parámetro que manda un valor.
pub open spec fn dato(v: Valor) -> Dato {
    match v {
        Valor::Nulo => Dato::Nulo,
        Valor::Entero(i) => Dato::Entero(i),
        Valor::Texto(t) => Dato::Texto(t@),
        Valor::Otro => Dato::Otro,
    }
}

/// Los parámetros que mandan unos valores, en orden.
pub open spec fn datos(a: Seq<Valor>) -> Seq<Dato> {
    a.map_values(|v: Valor| dato(v))
}

/// Sin parámetros.
pub fn args0() -> (r: Vec<Valor>)
    ensures
        datos(r@) == Seq::<Dato>::empty(),
{
    let r: Vec<Valor> = Vec::new();
    assert(datos(r@) =~= Seq::<Dato>::empty());
    r
}

/// Un parámetro.
pub fn args1(a: Valor) -> (r: Vec<Valor>)
    ensures
        datos(r@) == seq![dato(a)],
{
    let r = vec![a];
    assert(datos(r@) =~= seq![dato(a)]);
    r
}

/// Dos parámetros.
pub fn args2(a: Valor, b: Valor) -> (r: Vec<Valor>)
    ensures
        datos(r@) == seq![dato(a), dato(b)],
{
    let r = vec![a, b];
    assert(datos(r@) =~= seq![dato(a), dato(b)]);
    r
}

/// Tres parámetros.
pub fn args3(a: Valor, b: Valor, c: Valor) -> (r: Vec<Valor>)
    ensures
        datos(r@) == seq![dato(a), dato(b), dato(c)],
{
    let r = vec![a, b, c];
    assert(datos(r@) =~= seq![dato(a), dato(b), dato(c)]);
    r
}

/// Lo que se le manda a SQLite, en orden.
pub enum Envio {
    /// Una consulta con sus parámetros.
    Consulta(Seq<char>, Seq<Dato>),
    /// Una sentencia con sus parámetros (`execute`), sola o dentro de una transacción.
    Ejecuta(Seq<char>, Seq<Dato>),
    /// Varias sentencias sin parámetros (`execute_batch`).
    Lote(Seq<char>),
    /// Empieza una transacción.
    Empieza,
    /// Confirma la transacción empezada.
    Confirma,
}

/// Una conexión abierta con lo que se le fue mandando.
pub struct Base<'a> {
    pub conn: &'a Connection,
    pub enviadas: Ghost<Seq<Envio>>,
}

impl<'a> Base<'a> {
    /// Una conexión a la que todavía no se le mandó nada.
    pub fn nueva(conn: &'a Connection) -> (b: Base<'a>)
        ensures
            b.conn == conn,
            b.enviadas@ == Seq::<Envio>::empty(),
    {
        Base { conn, enviadas: Ghost(Seq::empty()) }
    }
}

/// `despues` es `antes` con la misma conexión y `nuevas` mandadas a continuación.
pub open spec fn sigue(antes: Base, despues: Base, nuevas: Seq<Envio>) -> bool {
    despues.conn == antes.conn && despues.enviadas@ == antes.enviadas@ + nuevas
}

/// La lectura de una fila por su `id`.
pub open spec fn lectura(sql: Seq<char>, id: i64) -> Envio {
    Envio::Consulta(sql, seq![Dato::Entero(id)])
}

/// Una sentencia sobre una fila por su `id` (`DELETE ... WHERE id = ?1`).
pub open spec fn sentencia_por_id(sql: Seq<char>, id: i64) -> Envio {
    Envio::Ejecuta(sql, seq![Dato::Entero(id)])
}

/// Un alta: la sentencia `e` y, si salió bien, la lectura (con `sql`) de la fila recién creada,
/// cuyo `id` da la base. Con éxito se mandaron las dos; con error, `e` y quizá la lectura.
pub open spec fn alta(antes: Seq<Envio>, despues: Seq<Envio>, e: Envio, sql: Seq<char>, ok: bool) -> bool {
    &&& ok ==> exists|id: i64| despues == antes.push(e).push(#[trigger] lectura(sql, id))
    &&& !ok ==> (despues == antes.push(e) || exists|id: i64| despues == antes.push(e).push(#[trigger] lectura(sql, id)))
}

/// Un cambio de la fila `id`: la sentencia `e` y la lectura (con `sql`) de esa fila. Con éxito se
/// mandaron las dos; con error, `e` y quizá la lectura.
pub open spec fn cambio(antes: Seq<Envio>, despues: Seq<Envio>, e: Envio, sql: Seq<char>, id: i64, ok: bool) -> bool {
    &&& ok ==> despues == antes.push(e).push(lectura(sql, id))
    &&& !ok ==> (despues == antes.push(e) || despues == antes.push(e).push(lectura(sql, id)))
}

/// Ejecuta una sentencia y devuelve cuántas filas cambió.
pub fn ejecuta(b: &mut Base, sql: &str, args: &Vec<Valor>) -> (r: Result<usize, ErrorDb>)
    ensures
        final(b).conn == old(b).conn,
        final(b).enviadas@ == old(b).enviadas@.push(Envio::Ejecuta(sql@, datos(args@))),
        r matches Err(e) ==> (e is NoEncontrado || e is Sql),
{
    let r = ejecutar(b.conn, sql, args);
    b.enviadas = Ghost(b.enviadas@.push(Envio::Ejecuta(sql@, datos(args@))));
    match r {
        Ok(n) => Ok(n),
        Err(e) => Err(clasificar(e)),
    }
}

/// Todas las filas de una consulta.
pub fn consulta(b: &mut Base, sql: &str, args: &Vec<Valor>) -> (r: Result<Vec<Vec<Valor>>, ErrorDb>)
    ensures
        final(b).conn == old(b).conn,
        final(b).enviadas@ == old(b).enviadas@.push(Envio::Consulta(sql@, datos(args@))),
        r matches Err(e) ==> (e is NoEncontrado || e is Sql),
{
    let r = consultar(b.conn, sql, args);
    b.enviadas = Ghost(b.enviadas@.push(Envio::Consulta(sql@, datos(args@))));
    match r {
        Ok(f) => Ok(valores(&f)),
        Err(e) => Err(clasificar(e)),
    }
}

/// Varias sentencias sin parámetros.
pub fn ejecuta_lote(b: &mut Base, sql: &str) -> (r: Result<(), ErrorDb>)
    ensures
        final(b).conn == old(b).conn,
        final(b).enviadas@ == old(b).enviadas@.push(Envio::Lote(sql@)),
        r matches Err(e) ==> (e is NoEncontrado || e is Sql),
{
    let r = ejecutar_lote(b.conn, sql);
    b.enviadas = Ghost(b.enviadas@.push(Envio::Lote(sql@)));
    match r {
        Ok(()) => Ok(()),
        Err(e) => Err(clasificar(e)),
    }
}

/// Una base nueva en memoria (sin esquema).
pub fn conexion_en_memoria() -> (r: Result<Connection, ErrorDb>)
    ensures
        r matches Err(e) ==> (e is NoEncontrado || e is Sql),
{
    match abrir_memoria() {
        Ok(c) => Ok(c),
        Err(e) => Err(clasificar(e)),
    }
}

/// Id de la última fila insertada.
pub fn ultimo_id(b: &Base) -> i64 {
    ultimo_rowid(b.conn)
}

pub open spec fn entero_de(v: Valor) -> Option<i64> {
    match v {
        Valor::Entero(i) => Some(i),
        _ => None,
    }
}

pub open spec fn texto_de(v: Valor) -> Option<Seq<char>> {
    match v {
        Valor::Texto(s) => Some(s@),
        _ => None,
    }
}

pub open spec fn texto_opt_de(v: Valor) -> Option<Option<Seq<char>>> {
    match v {
        Valor::Nulo => Some(None),
        Valor::Texto(s) => Some(Some(s@)),
        _ => None,
    }
}

pub open spec fn entero_opt_de(v: Valor) -> Option<Option<i64>> {
    match v {
        Valor::Nulo => Some(None),
        Valor::Entero(i) => Some(Some(i)),
        _ => None,
    }
}

pub const TIPO_COLUMNA: &'static str = "Tipo de columna inesperado.";

/// Columna entera (`INTEGER`) de una fila.
pub fn col_entero(f: &Vec<Valor>, i: usize) -> (r: Result<i64, ErrorDb>)
    requires
        i < f@.len(),
    ensures
        falla_de_base(r),
        r is Ok <==> entero_de(f@[i as int]) is Some,
        r matches Ok(x) ==> entero_de(f@[i as int]) == Some(x),
{
    match &f[i] {
        Valor::Entero(x) => Ok(*x),
        _ => Err(ErrorDb::Sql(TIPO_COLUMNA.to_owned())),
    }
}

/// Columna de texto (`TEXT`) de una fila.
pub fn col_texto(f: &Vec<Valor>, i: usize) -> (r: Result<String, ErrorDb>)
    requires
        i < f@.len(),
    ensures
        falla_de_base(r),
        r is Ok <==> texto_de(f@[i as int]) is Some,
        r matches Ok(x) ==> texto_de(f@[i as int]) == Some(x@),
{
    match &f[i] {
        Valor::Texto(x) => Ok(x.clone()),
        _ => Err(ErrorDb::Sql(TIPO_COLUMNA.to_owned())),
    }
}

/// Columna de texto que puede ser `NULL`.
pub fn col_texto_opt(f: &Vec<Valor>, i: usize) -> (r: Result<Option<String>, ErrorDb>)
    requires
        i < f@.len(),
    ensures
        falla_de_base(r),
        r is Ok <==> texto_opt_de(f@[i as int]) is Some,
        r matches Ok(x) ==> texto_opt_de(f@[i as int]) == Some(crate::validar::vista_opt(x)),
{
    match &f[i] {
        Valor::Nulo => Ok(None),
        Valor::Texto(x) => Ok(Some(x.clone())),
        _ => Err(ErrorDb::Sql(TIPO_COLUMNA.to_owned())),
    }
}

/// Columna entera que puede ser `NULL`.
pub fn col_entero_opt(f: &Vec<Valor>, i: usize) -> (r: Result<Option<i64>, ErrorDb>)
    requires
        i < f@.len(),
    ensures
        falla_de_base(r),
        r is Ok <==> entero_opt_de(f@[i as int]) is Some,
        r matches Ok(x) ==> entero_opt_de(f@[i as int]) == Some(x),
{
    match &f[i] {
        Valor::Nulo => Ok(None),
        Valor::Entero(x) => Ok(Some(*x)),
        _ => Err(ErrorDb::Sql(TIPO_COLUMNA.to_owned())),
    }
}

/// El primer entero de la primera fila (`SELECT COUNT(*) ...`, `SELECT id ...`).
pub fn primer_entero(filas: &Vec<Vec<Valor>>) -> (r: Result<i64, ErrorDb>)
    ensures
        falla_de_base(r),
        filas@.len() == 0 ==> r == Err::<i64, ErrorDb>(ErrorDb::NoEncontrado),
        r matches Ok(x) ==> filas@.len() > 0 && filas@[0]@.len() > 0 && entero_de(filas@[0]@[0])
            == Some(x),
        filas@.len() > 0 && filas@[0]@.len() > 0 && entero_de(filas@[0]@[0]) is Some ==> r is Ok,
{
    if filas.len() == 0 {
        return Err(ErrorDb::NoEncontrado);
    }
    if filas[0].len() == 0 {
        return Err(ErrorDb::Sql(TIPO_COLUMNA.to_owned()));
    }
    col_entero(&filas[0], 0)
}

/// Un entero de una consulta de una fila.
pub fn consulta_entero(conn: &mut Base, sql: &str, args: &Vec<Valor>) -> (r: Result<i64, ErrorDb>)
    ensures
        final(conn).conn == old(conn).conn,
        final(conn).enviadas@ == old(conn).enviadas@.push(Envio::Consulta(sql@, datos(args@))),
        falla_de_base(r),
{
    let filas = consulta(conn, sql, args)?;
    primer_entero(&filas)
}

/// Un entero de una consulta, o `None` si no devolvió filas.
pub fn consulta_entero_opcional(conn: &mut Base, sql: &str, args: &Vec<Valor>) -> (r: Result<Option<i64>, ErrorDb>)
    ensures
        final(conn).conn == old(conn).conn,
        final(conn).enviadas@ == old(conn).enviadas@.push(Envio::Consulta(sql@, datos(args@))),
        falla_de_base(r),
{
    let filas = consulta(conn, sql, args)?;
    if filas.len() == 0 {
        return Ok(None);
    }
    let x = primer_entero(&filas)?;
    Ok(Some(x))
}

/// `COUNT(*) > 0`.
pub fn existe(conn: &mut Base, sql: &str, args: &Vec<Valor>) -> (r: Result<bool, ErrorDb>)
    ensures
        final(conn).conn == old(conn).conn,
        final(conn).enviadas@ == old(conn).enviadas@.push(Envio::Consulta(sql@, datos(args@))),
        falla_de_base(r),
{
    let n = consulta_entero(conn, sql, args)?;
    Ok(n > 0)
}

/// Ninguna fila cambiada es "no encontrado".
pub fn changes_or_missing(n: usize) -> (r: Result<(), ErrorDb>)
    ensures
        n == 0 ==> r == Err::<(), ErrorDb>(ErrorDb::NoEncontrado),
        n > 0 ==> r == Ok::<(), ErrorDb>(()),
{
    if n == 0 {
        Err(ErrorDb::NoEncontrado)
    } else {
        Ok(())
    }
}

/// Las sentencias de una transacción con sus parámetros, como texto y valores.
pub open spec fn vista_pasos(p: Seq<(&str, Vec<Valor>)>) -> Seq<(Seq<char>, Seq<Valor>)> {
    p.map_values(|x: (&str, Vec<Valor>)| (x.0@, x.1@))
}

/// Las sentencias de una transacción, como se mandan.
pub open spec fn pasos_enviados(p: Seq<(Seq<char>, Seq<Valor>)>) -> Seq<Envio> {
    p.map_values(|x: (Seq<char>, Seq<Valor>)| Envio::Ejecuta(x.0, datos(x.1)))
}

/// Una transacción: empieza, cada sentencia en orden y la confirmación.
pub open spec fn transaccion(p: Seq<(Seq<char>, Seq<Valor>)>) -> Seq<Envio> {
    seq![Envio::Empieza] + pasos_enviados(p) + seq![Envio::Confirma]
}

/// `despues` es `antes` con un comienzo de `plan` mandado a continuación.
pub open spec fn comienzo(antes: Seq<Envio>, despues: Seq<Envio>, plan: Seq<Envio>) -> bool {
    exists|k: int| 0 <= k <= plan.len() && despues == antes + #[trigger] plan.take(k)
}

/// `despues` es `antes` con la misma conexión y un comienzo de `plan` mandado a continuación.
pub open spec fn sigue_en_parte(antes: Base, despues: Base, plan: Seq<Envio>) -> bool {
    &&& despues.conn == antes.conn
    &&& comienzo(antes.enviadas@, despues.enviadas@, plan)
}

/// Ejecuta las sentencias en una transacción de `rusqlite`: si una falla, se corta ahí y la
/// transacción se deshace; si todas van bien, se confirma. Con un error no queda nada hecho.
pub fn en_transaccion(conn: &mut Base, pasos: &Vec<(&str, Vec<Valor>)>) -> (r: Result<(), ErrorDb>)
    ensures
        falla_de_base(r),
        r is Ok ==> sigue(*old(conn), *final(conn), transaccion(vista_pasos(pasos@))),
        r is Err ==> sigue_en_parte(*old(conn), *final(conn), transaccion(vista_pasos(pasos@))),
{
    let ghost plan = transaccion(vista_pasos(pasos@));
    let ghost antes = conn.enviadas@;
    let ghost c0 = conn.conn;
    let t = empezar(conn.conn);
    conn.enviadas = Ghost(conn.enviadas@.push(Envio::Empieza));
    assert(plan.take(1) =~= seq![Envio::Empieza]);
    assert(plan.len() == pasos@.len() + 2);
    assert(conn.enviadas@ =~= antes + plan.take(1));
    let tx = match t {
        Ok(tx) => tx,
        Err(e) => {
            assert(conn.enviadas@ =~= antes + plan.take(1));
            return Err(clasificar(e));
        },
    };
    let mut i: usize = 0;
    while i < pasos.len()
        invariant
            i <= pasos.len(),
            conn.conn == c0,
            c0 == old(conn).conn,
            antes == old(conn).enviadas@,
            plan == transaccion(vista_pasos(pasos@)),
            plan.len() == pasos@.len() + 2,
            conn.enviadas@ == antes + plan.take(i + 1),
        decreases pasos.len() - i,
    {
        let (sql, args) = &pasos[i];
        let r = ejecutar_en(&tx, sql, args);
        conn.enviadas = Ghost(conn.enviadas@.push(Envio::Ejecuta(sql@, datos(args@))));
        assert(plan[i + 1] == Envio::Ejecuta(sql@, datos(args@)));
        assert(plan.take(i + 2) =~= plan.take(i + 1).push(plan[i + 1]));
        assert(conn.enviadas@ =~= antes + plan.take(i + 2));
        match r {
            Ok(_) => {},
            Err(e) => {
                assert(conn.enviadas@ == antes + plan.take(i + 2));
                return Err(clasificar(e));
            },
        }
        i = i + 1;
    }
    let r = confirmar(tx);
    conn.enviadas = Ghost(conn.enviadas@.push(Envio::Confirma));
    assert(plan.take(pasos.len() + 2) =~= plan);
    assert(plan.take(pasos.len() + 1).push(Envio::Confirma) =~= plan.take(pasos.len() + 2));
    assert(conn.enviadas@ =~= antes + plan.take(pasos.len() + 2));
    match r {
        Ok(()) => Ok(()),
        Err(e) => Err(clasificar(e)),
    }
}

pub const NO_ENCONTRADO: &'static str = "No se encontró el registro.";
pub const ESCUELA_DUPLICADA: &'static str = "Ya existe una escuela con ese nombre en esa jurisdicción.";
pub const MATERIA_DUPLICADA: &'static str = "Ya existe una materia con ese nombre.";
pub const CURSO_DUPLICADO: &'static str = "Ya existe un dictado con esa escuela, grupo, materia y año.";
pub const ANIO_DUPLICADO: &'static str = "Ese año lectivo ya está cargado.";
pub const UN_SOLO_ACTIVO: &'static str = "Solo puede haber un año lectivo activo.";
pub const INSCRIPCION_DUPLICADA: &'static str = "Ese alumno ya está inscripto en este curso.";
pub const HORARIO_DUPLICADO: &'static str = "Ya hay un bloque de ese curso ese día a esa hora.";
pub const NOTA_DUPLICADA: &'static str = "Ya hay una nota de ese alumno en esa evaluación.";
pub const ASISTENCIA_DUPLICADA: &'static str = "Ya hay asistencia de ese alumno en esa fecha.";
pub const AUSENTE_CON_NOTA: &'static str = "Si está ausente, la nota tiene que quedar vacía.";
pub const FALTA_VINCULO: &'static str = "No se puede completar: falta un dato vinculado o hay registros que lo usan.";

/// Mensaje para el docente a partir del texto de un error de SQLite: las restricciones que se
/// reconocen por las columnas que nombra; el resto, el texto tal cual.
pub open spec fn mensaje_sql(m: Seq<char>) -> Seq<char> {
    if contiene(m, "escuelas.id_jurisdiccion"@) && contiene(m, "escuelas.nombre"@) {
        ESCUELA_DUPLICADA@
    } else if contiene(m, "materias.nombre"@) {
        MATERIA_DUPLICADA@
    } else if contiene(m, "cursos.id_escuela"@) && contiene(m, "cursos.id_materia"@) {
        CURSO_DUPLICADO@
    } else if contiene(m, "anios_lectivos.anio"@) {
        ANIO_DUPLICADO@
    } else if contiene(m, "ux_anios_lectivos_activo"@) || contiene(m, "anios_lectivos.activo"@) {
        UN_SOLO_ACTIVO@
    } else if contiene(m, "alumnos_cursos.id_alumno"@) && contiene(m, "alumnos_cursos.id_curso"@) {
        INSCRIPCION_DUPLICADA@
    } else if contiene(m, "horarios.id_curso"@) && contiene(m, "horarios.dia_semana"@) {
        HORARIO_DUPLICADO@
    } else if contiene(m, "notas.id_evaluacion"@) && contiene(m, "notas.id_alumno"@) {
        NOTA_DUPLICADA@
    } else if contiene(m, "asistencias.id_curso"@) && contiene(m, "asistencias.id_alumno"@) {
        ASISTENCIA_DUPLICADA@
    } else if contiene(m, "CHECK constraint failed"@) && contiene(en_minusculas(m), "ausente"@) {
        AUSENTE_CON_NOTA@
    } else if contiene(m, "FOREIGN KEY constraint failed"@) {
        FALTA_VINCULO@
    } else {
        m
    }
}

/// El mensaje que ve el docente por cada error.
pub open spec fn mensaje_error(e: ErrorDb) -> Seq<char> {
    match e {
        ErrorDb::NoEncontrado => NO_ENCONTRADO@,
        ErrorDb::App(m) => m@,
        ErrorDb::Sql(m) => mensaje_sql(m@),
    }
}

fn tiene_texto(m: &Vec<char>, s: &str) -> (r: bool)
    ensures
        r == contiene(m@, s@),
{
    let v = caracteres(s);
    contiene_en(m, &v)
}

/// El mensaje para el docente de un error de la base.
pub fn map_sql_error(err: ErrorDb) -> (r: String)
    ensures
        r@ == mensaje_error(err),
{
    let msg = match err {
        ErrorDb::NoEncontrado => return NO_ENCONTRADO.to_owned(),
        ErrorDb::App(m) => return m,
        ErrorDb::Sql(m) => m,
    };
    let m = caracteres(msg.as_str());
    if tiene_texto(&m, "escuelas.id_jurisdiccion") && tiene_texto(&m, "escuelas.nombre") {
        ESCUELA_DUPLICADA.to_owned()
    } else if tiene_texto(&m, "materias.nombre") {
        MATERIA_DUPLICADA.to_owned()
    } else if tiene_texto(&m, "cursos.id_escuela") && tiene_texto(&m, "cursos.id_materia") {
        CURSO_DUPLICADO.to_owned()
    } else if tiene_texto(&m, "anios_lectivos.anio") {
        ANIO_DUPLICADO.to_owned()
    } else if tiene_texto(&m, "ux_anios_lectivos_activo") || tiene_texto(&m, "anios_lectivos.activo") {
        UN_SOLO_ACTIVO.to_owned()
    } else if tiene_texto(&m, "alumnos_cursos.id_alumno") && tiene_texto(&m, "alumnos_cursos.id_curso") {
        INSCRIPCION_DUPLICADA.to_owned()
    } else if tiene_texto(&m, "horarios.id_curso") && tiene_texto(&m, "horarios.dia_semana") {
        HORARIO_DUPLICADO.to_owned()
    } else if tiene_texto(&m, "notas.id_evaluacion") && tiene_texto(&m, "notas.id_alumno") {
        NOTA_DUPLICADA.to_owned()
    } else if tiene_texto(&m, "asistencias.id_curso") && tiene_texto(&m, "asistencias.id_alumno") {
        ASISTENCIA_DUPLICADA.to_owned()
    } else if tiene_texto(&m, "CHECK constraint failed") && tiene_texto(&a_minusculas(&m), "ausente") {
        AUSENTE_CON_NOTA.to_owned()
    } else if tiene_texto(&m, "FOREIGN KEY constraint failed") {
        FALTA_VINCULO.to_owned()
    } else {
        msg
    }
}

/// Mensaje cuando el cuaderno sigue cerrado.
pub const CERRADO: &'static str = "El cuaderno está cerrado. Ingresá la clave.";

/// Un aviso al docente que viene de un error de la base, o de una regla de la app con uno de
/// esos mensajes.
pub open spec fn aviso_con(m: Seq<char>, motivos: Set<Seq<char>>) -> bool {
    exists|e: ErrorDb|
        #![trigger mensaje_error(e)]
        mensaje_error(e) == m && (error_de_base(e) || (e matches ErrorDb::App(x) && motivos.contains(x@)))
}

/// Si la respuesta es un error, su texto es un aviso de `aviso_con`.
pub open spec fn respuesta_con<T>(r: Result<T, String>, motivos: Set<Seq<char>>) -> bool {
    r matches Err(m) ==> aviso_con(m@, motivos)
}

/// Un resultado de la base con el error como mensaje para el docente.
pub fn para_docente<T>(r: Result<T, ErrorDb>) -> (s: Result<T, String>)
    ensures
        r matches Ok(x) ==> s == Ok::<T, String>(x),
        r matches Err(e) ==> (s matches Err(m) && m@ == mensaje_error(e)),
{
    match r {
        Ok(x) => Ok(x),
        Err(e) => Err(map_sql_error(e)),
    }
}

/// Un texto opcional como valor: el texto, o `NULL` si no hay.
pub open spec fn valor_texto_opt(v: Option<String>) -> Valor {
    match v {
        Some(s) => Valor::Texto(s),
        None => Valor::Nulo,
    }
}

/// Un entero opcional como valor: el entero, o `NULL` si no hay.
pub open spec fn valor_entero_opt(v: Option<i64>) -> Valor {
    match v {
        Some(x) => Valor::Entero(x),
        None => Valor::Nulo,
    }
}

/// Texto opcional como parámetro: `NULL` si no hay.
pub fn texto_o_nulo(v: &Option<String>) -> (r: Valor)
    ensures
        r == valor_texto_opt(*v),
{
    match v {
        Some(s) => Valor::Texto(s.clone()),
        None => Valor::Nulo,
    }
}

/// Entero opcional como parámetro: `NULL` si no hay.
pub fn entero_o_nulo(v: Option<i64>) -> (r: Valor)
    ensures
        r == valor_entero_opt(v),
{
    match v {
        Some(x) => Valor::Entero(x),
        None => Valor::Nulo,
    }
}

/// El texto de la primera columna de la primera fila; "no encontrado" si no hay filas.
pub fn consulta_texto(conn: &mut Base, sql: &str, args: &Vec<Valor>) -> (r: Result<String, ErrorDb>)
    ensures
        final(conn).conn == old(conn).conn,
        final(conn).enviadas@ == old(conn).enviadas@.push(Envio::Consulta(sql@, datos(args@))),
        falla_de_base(r),
{
    let filas = consulta(conn, sql, args)?;
    if filas.len() == 0 {
        return Err(ErrorDb::NoEncontrado);
    }
    if filas[0].len() == 0 {
        return Err(ErrorDb::Sql(TIPO_COLUMNA.to_owned()));
    }
    col_texto(&filas[0], 0)
}

/// Un error de regla de la app llega al docente con su texto tal cual.
pub proof fn ley_error_de_app_tal_cual(m: String)
    ensures
        mensaje_error(ErrorDb::App(m)) == m@,
{
}

} // verus!
