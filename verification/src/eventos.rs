//! Eventos del quehacer: tema, entrega, reunión, junta, acto, otro. Tema y entrega van con un
//! curso; los demás pueden ir sueltos (valen para todos los dictados).

use vstd::prelude::*;
use vstd::string::StringExecFns;
use crate::db::{
    Base, Envio, Dato, datos, lectura, sentencia_por_id, alta, cambio, args1, args3, respuesta_con,
    valor_texto_opt, valor_entero_opt, falla_de_base, falla_con, Valor, ErrorDb, ejecuta, consulta,
    ultimo_id, changes_or_missing, para_docente, texto_o_nulo, entero_o_nulo, consulta_texto,
    consulta_entero, CERRADO,
};
use crate::domain::{Evento, EventoWrite};
use crate::filas::{filas_evento, primera_evento};
use crate::asistencias::{curso_existe, CURSO_NO_ENCONTRADO, CURSO_EXISTE};
use crate::evaluaciones::origen_positivo;
use crate::validar::{
    require_nombre, require_fecha, opt_hora, opt_text, obligatorio, fecha_valida, hora_opcional, texto_opcional,
    vista_opt, anio_cuatro_cifras, cuatro_cifras, ley_fecha_estable, ley_hora_estable,
    ley_obligatorio_estable, ley_texto_opcional_estable,
};

verus! {

pub const TEMA_SIN_CURSO: &'static str = "Tema y entrega van siempre con un curso.";

/// El primer error de los datos: fecha, hora, título.
pub open spec fn evento_write_error(e: EventoWrite) -> Option<Seq<char>> {
    match fecha_valida(e.fecha@) {
        Err(m) => Some(m),
        Ok(_) => match hora_opcional(vista_opt(e.hora)) {
            Err(m) => Some(m),
            Ok(_) => match obligatorio(e.titulo@, "título"@) {
                Err(m) => Some(m),
                Ok(_) => None,
            },
        },
    }
}

pub open spec fn evento_write_ok(r: Result<EventoWrite, String>, e: EventoWrite) -> bool {
    match r {
        Ok(x) => {
            &&& fecha_valida(e.fecha@) == Ok::<Seq<char>, Seq<char>>(x.fecha@)
            &&& hora_opcional(vista_opt(e.hora)) == Ok::<Option<Seq<char>>, Seq<char>>(vista_opt(x.hora))
            &&& obligatorio(e.titulo@, "título"@) == Ok::<Seq<char>, Seq<char>>(x.titulo@)
            &&& vista_opt(x.descripcion) == texto_opcional(vista_opt(e.descripcion))
            &&& x.id_curso == origen_positivo(e.id_curso)
            &&& x.id_tipo_evento == e.id_tipo_evento
        },
        Err(m) => evento_write_error(e) == Some(m@),
    }
}

pub fn evento_from_write(e: EventoWrite) -> (r: Result<EventoWrite, String>)
    ensures
        evento_write_ok(r, e),
{
    let id_curso = match e.id_curso {
        Some(id) => if id > 0 {
            Some(id)
        } else {
            None
        },
        None => None,
    };
    let fecha = require_fecha(e.fecha.as_str())?;
    let hora = opt_hora(e.hora)?;
    let titulo = require_nombre(e.titulo.as_str(), "título")?;
    Ok(EventoWrite {
        id_curso,
        id_tipo_evento: e.id_tipo_evento,
        fecha,
        hora,
        titulo,
        descripcion: opt_text(e.descripcion),
    })
}

/// Qué curso hay que revisar que exista: el del evento. Si el tipo pide curso y no hay, error.
pub open spec fn curso_a_revisar(pide_curso: bool, id_curso: Option<i64>) -> Result<Option<i64>, Seq<char>> {
    if pide_curso && id_curso is None {
        Err(TEMA_SIN_CURSO@)
    } else {
        Ok(id_curso)
    }
}

pub fn revisar_curso(pide_curso: bool, id_curso: Option<i64>) -> (r: Result<Option<i64>, ErrorDb>)
    ensures
        curso_a_revisar(pide_curso, id_curso) matches Ok(c) ==> r == Ok::<Option<i64>, ErrorDb>(c),
        curso_a_revisar(pide_curso, id_curso) matches Err(m) ==> (r matches Err(ErrorDb::App(e)) && e@ == m),
{
    if pide_curso && id_curso.is_none() {
        Err(ErrorDb::App(TEMA_SIN_CURSO.to_owned()))
    } else {
        Ok(id_curso)
    }
}

pub const GET_EVENTO: &'static str = "SELECT id, id_curso, id_tipo_evento, fecha, hora, titulo, descripcion FROM eventos WHERE id = ?1";

pub fn get_evento_sql(conn: &mut Base, id: i64) -> (r: Result<Evento, ErrorDb>)
    ensures
        final(conn).enviadas@ == old(conn).enviadas@.push(lectura(GET_EVENTO@, id)),
        falla_de_base(r),
{
    let filas = consulta(
        conn,
        GET_EVENTO,
        &args1(Valor::Entero(id)),
    )?;
    primera_evento(&filas)
}

pub const TIPO_EVENTO_CODIGO: &'static str = "SELECT codigo FROM tipos_evento WHERE id = ?1";

fn tipo_codigo_sql(conn: &mut Base, id: i64) -> (r: Result<String, ErrorDb>)
    ensures
        final(conn).enviadas@ == old(conn).enviadas@.push(lectura(TIPO_EVENTO_CODIGO@, id)),
        falla_de_base(r),
{
    consulta_texto(conn, TIPO_EVENTO_CODIGO, &args1(Valor::Entero(id)))
}

/// Tema y entrega piden un curso.
pub open spec fn pide_curso(codigo: Seq<char>) -> bool {
    codigo == "tema"@ || codigo == "entrega"@
}

/// Por qué no se guarda un evento, con el código de su tipo y si su curso (cuando trae uno)
/// existe: tema y entrega sin curso; después, un curso que no existe.
pub open spec fn rechazo_evento(codigo: Seq<char>, id_curso: Option<i64>, curso_ok: bool) -> Option<Seq<char>> {
    match curso_a_revisar(pide_curso(codigo), id_curso) {
        Err(m) => Some(m),
        Ok(Some(_)) => if !curso_ok {
            Some(CURSO_NO_ENCONTRADO@)
        } else {
            None
        },
        Ok(None) => None,
    }
}

/// Decide con lo que se leyó de la base si el evento se guarda.
pub fn decidir_evento(codigo: &String, id_curso: Option<i64>, curso_ok: bool) -> (r: Result<(), ErrorDb>)
    ensures
        rechazo_evento(codigo@, id_curso, curso_ok) is None ==> r is Ok,
        rechazo_evento(codigo@, id_curso, curso_ok) matches Some(m) ==> (r matches Err(ErrorDb::App(e)) && e@ == m),
{
    let tema = "tema".to_owned();
    let entrega = "entrega".to_owned();
    let pide = *codigo == tema || *codigo == entrega;
    let revisar = revisar_curso(pide, id_curso)?;
    match revisar {
        Some(_) => {
            if !curso_ok {
                return Err(ErrorDb::App(CURSO_NO_ENCONTRADO.to_owned()));
            }
        },
        None => {},
    }
    Ok(())
}

/// Lo mandado tras las lecturas de un evento: el código del tipo y, si trae curso, si ese curso
/// existe.
pub open spec fn lecturas_evento(antes: Seq<Envio>, w: EventoWrite) -> Seq<Envio> {
    let a = antes.push(lectura(TIPO_EVENTO_CODIGO@, w.id_tipo_evento));
    match w.id_curso {
        Some(id) => a.push(lectura(CURSO_EXISTE@, id)),
        None => a,
    }
}

/// Lee de la base el código del tipo y, si el evento trae curso, si ese curso existe (sin curso
/// queda en `true`).
fn prepare_write(conn: &mut Base, w: &EventoWrite) -> (r: Result<(String, bool), ErrorDb>)
    ensures
        r is Ok ==> final(conn).enviadas@ == lecturas_evento(old(conn).enviadas@, *w),
        r is Err ==> final(conn).enviadas@ == old(conn).enviadas@.push(lectura(TIPO_EVENTO_CODIGO@, w.id_tipo_evento)) || final(conn).enviadas@ == lecturas_evento(old(conn).enviadas@, *w),
        falla_de_base(r),
        r matches Ok((_, ok)) ==> (w.id_curso is None ==> ok),
{
    let codigo = tipo_codigo_sql(conn, w.id_tipo_evento)?;
    let curso_ok = match w.id_curso {
        Some(id) => curso_existe(conn, id)?,
        None => true,
    };
    Ok((codigo, curso_ok))
}

/// Primer y último día de un año, como se guardan las fechas.
pub fn limites_del_anio(anio: i64) -> (r: (String, String))
    ensures
        r.0@ == cuatro_cifras(anio as int) + "-01-01"@,
        r.1@ == cuatro_cifras(anio as int) + "-12-31"@,
{
    let mut desde = anio_cuatro_cifras(anio);
    let mut hasta = anio_cuatro_cifras(anio);
    desde.append("-01-01");
    hasta.append("-12-31");
    (desde, hasta)
}

/// La consulta de los eventos del año lectivo `id` (año `anio`): los de sus dictados y los sueltos
/// con fecha entre el primero y el último día del año, por fecha, hora (sin hora al final) y título.
pub open spec fn eventos_del_anio(id: i64, anio: i64) -> Envio {
    Envio::Consulta(
        LIST_EVENTOS@,
        seq![
            Dato::Entero(id),
            Dato::Texto(cuatro_cifras(anio as int) + "-01-01"@),
            Dato::Texto(cuatro_cifras(anio as int) + "-12-31"@),
        ],
    )
}

pub const ANIO_DEL_LECTIVO: &'static str = "SELECT anio FROM anios_lectivos WHERE id = ?1";
pub const LIST_EVENTOS: &'static str = "SELECT e.id, e.id_curso, e.id_tipo_evento, e.fecha, e.hora, e.titulo, e.descripcion
         FROM eventos e
         LEFT JOIN cursos c ON c.id = e.id_curso
         WHERE c.id_anio_lectivo = ?1
            OR (e.id_curso IS NULL AND e.fecha >= ?2 AND e.fecha <= ?3)
         ORDER BY e.fecha, e.hora IS NULL, e.hora, e.titulo COLLATE NOCASE";

/// Eventos de los dictados del año y los sueltos con fecha en ese año; por fecha, hora (sin hora
/// al final) y título.
pub fn list_eventos_sql(conn: &mut Base, id_anio_lectivo: i64) -> (r: Result<Vec<Evento>, ErrorDb>)
    ensures
        r is Ok ==> exists|anio: i64| final(conn).enviadas@ == old(conn).enviadas@.push(lectura(ANIO_DEL_LECTIVO@, id_anio_lectivo)).push(#[trigger] eventos_del_anio(id_anio_lectivo, anio)),
        r is Err ==> final(conn).enviadas@ == old(conn).enviadas@.push(lectura(ANIO_DEL_LECTIVO@, id_anio_lectivo)) || exists|anio: i64| final(conn).enviadas@ == old(conn).enviadas@.push(lectura(ANIO_DEL_LECTIVO@, id_anio_lectivo)).push(#[trigger] eventos_del_anio(id_anio_lectivo, anio)),
        falla_de_base(r),
{
    let anio = consulta_entero(conn, ANIO_DEL_LECTIVO, &args1(Valor::Entero(id_anio_lectivo)))?;
    let (desde, hasta) = limites_del_anio(anio);
    let r = consulta(
        conn,
        LIST_EVENTOS,
        &args3(Valor::Entero(id_anio_lectivo), Valor::Texto(desde), Valor::Texto(hasta)),
    );
    assert(conn.enviadas@ == old(conn).enviadas@.push(lectura(ANIO_DEL_LECTIVO@, id_anio_lectivo)).push(
        eventos_del_anio(id_anio_lectivo, anio),
    ));
    let filas = r?;
    filas_evento(&filas)
}

pub const LIST_EVENTOS_DE_CURSO: &'static str = "SELECT id, id_curso, id_tipo_evento, fecha, hora, titulo, descripcion
         FROM eventos
         WHERE id_curso = ?1
         ORDER BY fecha, hora IS NULL, hora, titulo COLLATE NOCASE";

pub fn list_eventos_de_curso_sql(conn: &mut Base, id_curso: i64) -> (r: Result<Vec<Evento>, ErrorDb>)
    ensures
        final(conn).enviadas@ == old(conn).enviadas@.push(lectura(LIST_EVENTOS_DE_CURSO@, id_curso)),
        falla_de_base(r),
{
    let filas = consulta(
        conn,
        LIST_EVENTOS_DE_CURSO,
        &args1(Valor::Entero(id_curso)),
    )?;
    filas_evento(&filas)
}

/// Los parámetros de un evento, en el orden de las columnas.
pub open spec fn parametros_evento(w: EventoWrite) -> Seq<Valor> {
    seq![
        valor_entero_opt(w.id_curso),
        Valor::Entero(w.id_tipo_evento),
        Valor::Texto(w.fecha),
        valor_texto_opt(w.hora),
        Valor::Texto(w.titulo),
        valor_texto_opt(w.descripcion),
    ]
}

fn valores_evento(w: &EventoWrite) -> (r: Vec<Valor>)
    ensures
        r@ == parametros_evento(*w),
{
    vec![
        entero_o_nulo(w.id_curso),
        Valor::Entero(w.id_tipo_evento),
        Valor::Texto(w.fecha.clone()),
        texto_o_nulo(&w.hora),
        Valor::Texto(w.titulo.clone()),
        texto_o_nulo(&w.descripcion),
    ]
}

pub const INSERT_EVENTO: &'static str = "INSERT INTO eventos (id_curso, id_tipo_evento, fecha, hora, titulo, descripcion)
         VALUES (?1, ?2, ?3, ?4, ?5, ?6)";

/// El alta, con lo que se leyó de la base (código del tipo, si el curso existe): con
/// `rechazo_evento` no se escribe nada; si no hay rechazo, se inserta y se devuelve releído.
pub fn insertar_evento(conn: &mut Base, w: EventoWrite, codigo: String, curso_ok: bool) -> (r: Result<Evento, ErrorDb>)
    ensures
        rechazo_evento(codigo@, w.id_curso, curso_ok) is Some ==> final(conn).enviadas@ == old(conn).enviadas@,
        rechazo_evento(codigo@, w.id_curso, curso_ok) is None ==> alta(old(conn).enviadas@, final(conn).enviadas@, Envio::Ejecuta(INSERT_EVENTO@, datos(parametros_evento(w))), GET_EVENTO@, r is Ok),
        rechazo_evento(codigo@, w.id_curso, curso_ok) matches Some(m) ==> (r matches Err(ErrorDb::App(e)) && e@ == m),
        rechazo_evento(codigo@, w.id_curso, curso_ok) is None ==> falla_de_base(r),
{
    decidir_evento(&codigo, w.id_curso, curso_ok)?;
    ejecuta(
        conn,
        INSERT_EVENTO,
        &valores_evento(&w),
    )?;
    let id = ultimo_id(conn);
    get_evento_sql(conn, id)
}

pub fn insert_evento_sql(conn: &mut Base, raw: EventoWrite) -> (r: Result<Evento, ErrorDb>)
    ensures
        final(conn).enviadas@ == old(conn).enviadas@.push(lectura(TIPO_EVENTO_CODIGO@, raw.id_tipo_evento)) || final(conn).enviadas@ == lecturas_evento(old(conn).enviadas@, raw) || alta(lecturas_evento(old(conn).enviadas@, raw), final(conn).enviadas@, Envio::Ejecuta(INSERT_EVENTO@, datos(parametros_evento(raw))), GET_EVENTO@, r is Ok),
        r is Ok ==> alta(lecturas_evento(old(conn).enviadas@, raw), final(conn).enviadas@, Envio::Ejecuta(INSERT_EVENTO@, datos(parametros_evento(raw))), GET_EVENTO@, true),
        r matches Err(ErrorDb::App(_)) ==> final(conn).enviadas@ == old(conn).enviadas@.push(lectura(TIPO_EVENTO_CODIGO@, raw.id_tipo_evento)) || final(conn).enviadas@ == lecturas_evento(old(conn).enviadas@, raw),
        raw.id_curso is None ==> falla_con(r, set![TEMA_SIN_CURSO@]),
        raw.id_curso is Some ==> falla_con(r, set![CURSO_NO_ENCONTRADO@]),
{
    let (codigo, curso_ok) = prepare_write(conn, &raw)?;
    insertar_evento(conn, raw, codigo, curso_ok)
}

pub const UPDATE_EVENTO: &'static str = "UPDATE eventos
         SET id_curso = ?1, id_tipo_evento = ?2, fecha = ?3, hora = ?4, titulo = ?5, descripcion = ?6
         WHERE id = ?7";

/// El cambio, con lo que se leyó de la base (código del tipo, si el curso existe): con
/// `rechazo_evento` no se escribe nada; si no hay rechazo, se actualiza (sin fila es "no
/// encontrado") y se devuelve releído.
pub fn actualizar_evento(conn: &mut Base, id: i64, w: EventoWrite, codigo: String, curso_ok: bool) -> (r: Result<Evento, ErrorDb>)
    ensures
        rechazo_evento(codigo@, w.id_curso, curso_ok) is Some ==> final(conn).enviadas@ == old(conn).enviadas@,
        rechazo_evento(codigo@, w.id_curso, curso_ok) is None ==> cambio(old(conn).enviadas@, final(conn).enviadas@, Envio::Ejecuta(UPDATE_EVENTO@, datos(parametros_evento(w).push(Valor::Entero(id)))), GET_EVENTO@, id, r is Ok),
        rechazo_evento(codigo@, w.id_curso, curso_ok) matches Some(m) ==> (r matches Err(ErrorDb::App(e)) && e@ == m),
        rechazo_evento(codigo@, w.id_curso, curso_ok) is None ==> falla_de_base(r),
{
    decidir_evento(&codigo, w.id_curso, curso_ok)?;
    let mut args = valores_evento(&w);
    args.push(Valor::Entero(id));
    let n = ejecuta(
        conn,
        UPDATE_EVENTO,
        &args,
    )?;
    changes_or_missing(n)?;
    get_evento_sql(conn, id)
}

pub fn update_evento_sql(conn: &mut Base, id: i64, raw: EventoWrite) -> (r: Result<Evento, ErrorDb>)
    ensures
        final(conn).enviadas@ == old(conn).enviadas@.push(lectura(TIPO_EVENTO_CODIGO@, raw.id_tipo_evento)) || final(conn).enviadas@ == lecturas_evento(old(conn).enviadas@, raw) || cambio(lecturas_evento(old(conn).enviadas@, raw), final(conn).enviadas@, Envio::Ejecuta(UPDATE_EVENTO@, datos(parametros_evento(raw).push(Valor::Entero(id)))), GET_EVENTO@, id, r is Ok),
        r is Ok ==> cambio(lecturas_evento(old(conn).enviadas@, raw), final(conn).enviadas@, Envio::Ejecuta(UPDATE_EVENTO@, datos(parametros_evento(raw).push(Valor::Entero(id)))), GET_EVENTO@, id, true),
        r matches Err(ErrorDb::App(_)) ==> final(conn).enviadas@ == old(conn).enviadas@.push(lectura(TIPO_EVENTO_CODIGO@, raw.id_tipo_evento)) || final(conn).enviadas@ == lecturas_evento(old(conn).enviadas@, raw),
        raw.id_curso is None ==> falla_con(r, set![TEMA_SIN_CURSO@]),
        raw.id_curso is Some ==> falla_con(r, set![CURSO_NO_ENCONTRADO@]),
{
    let (codigo, curso_ok) = prepare_write(conn, &raw)?;
    actualizar_evento(conn, id, raw, codigo, curso_ok)
}

pub const DELETE_EVENTO: &'static str = "DELETE FROM eventos WHERE id = ?1";

pub fn delete_evento_sql(conn: &mut Base, id: i64) -> (r: Result<(), ErrorDb>)
    ensures
        final(conn).enviadas@ == old(conn).enviadas@.push(sentencia_por_id(DELETE_EVENTO@, id)),
        falla_de_base(r),
{
    let n = ejecuta(conn, DELETE_EVENTO, &args1(Valor::Entero(id)))?;
    changes_or_missing(n)
}

pub fn list_eventos(conn: Option<&mut Base>, id_anio_lectivo: i64) -> (r: Result<Vec<Evento>, String>)
    ensures
        conn is None ==> (r matches Err(m) && m@ == CERRADO@),
        conn is Some ==> respuesta_con(r, Set::empty()),
        conn matches Some(b) ==> (r is Ok ==> exists|anio: i64| final(b).enviadas@ == (*b).enviadas@.push(lectura(ANIO_DEL_LECTIVO@, id_anio_lectivo)).push(#[trigger] eventos_del_anio(id_anio_lectivo, anio))),
        conn matches Some(b) ==> (r is Err ==> final(b).enviadas@ == (*b).enviadas@.push(lectura(ANIO_DEL_LECTIVO@, id_anio_lectivo)) || exists|anio: i64| final(b).enviadas@ == (*b).enviadas@.push(lectura(ANIO_DEL_LECTIVO@, id_anio_lectivo)).push(#[trigger] eventos_del_anio(id_anio_lectivo, anio))),
{
    match conn {
        None => Err(CERRADO.to_owned()),
        Some(c) => para_docente(list_eventos_sql(c, id_anio_lectivo)),
    }
}

pub fn list_eventos_de_curso(conn: Option<&mut Base>, id_curso: i64) -> (r: Result<Vec<Evento>, String>)
    ensures
        conn is None ==> (r matches Err(m) && m@ == CERRADO@),
        conn is Some ==> respuesta_con(r, Set::empty()),
        conn matches Some(b) ==> (final(b).enviadas@ == (*b).enviadas@.push(lectura(LIST_EVENTOS_DE_CURSO@, id_curso))),
{
    match conn {
        None => Err(CERRADO.to_owned()),
        Some(c) => para_docente(list_eventos_de_curso_sql(c, id_curso)),
    }
}

pub fn create_evento(conn: Option<&mut Base>, evento: EventoWrite) -> (r: Result<Evento, String>)
    ensures
        evento_write_error(evento) matches Some(e) ==> (r matches Err(m) && m@ == e),
        evento_write_error(evento) is None && conn is None ==> (r matches Err(m) && m@ == CERRADO@),
        evento_write_error(evento) is None && conn is Some ==> respuesta_con(r, set![TEMA_SIN_CURSO@, CURSO_NO_ENCONTRADO@]),
        !(evento_write_error(evento) is None) ==> (conn matches Some(b) ==> final(b).enviadas@ == (*b).enviadas@),
        evento_write_error(evento) is None ==> (conn matches Some(b) ==> exists|v: EventoWrite| #[trigger] evento_write_ok(Ok::<EventoWrite, String>(v), evento) && (final(b).enviadas@ == (*b).enviadas@.push(lectura(TIPO_EVENTO_CODIGO@, v.id_tipo_evento)) || final(b).enviadas@ == lecturas_evento((*b).enviadas@, v) || alta(lecturas_evento((*b).enviadas@, v), final(b).enviadas@, Envio::Ejecuta(INSERT_EVENTO@, datos(parametros_evento(v))), GET_EVENTO@, r is Ok)) && (r is Ok ==> alta(lecturas_evento((*b).enviadas@, v), final(b).enviadas@, Envio::Ejecuta(INSERT_EVENTO@, datos(parametros_evento(v))), GET_EVENTO@, true))),
{
    let w = evento_from_write(evento)?;
    assert(evento_write_ok(Ok::<EventoWrite, String>(w), evento));
    match conn {
        None => Err(CERRADO.to_owned()),
        Some(c) => para_docente(insert_evento_sql(c, w)),
    }
}

pub fn update_evento(conn: Option<&mut Base>, id: i64, evento: EventoWrite) -> (r: Result<Evento, String>)
    ensures
        evento_write_error(evento) matches Some(e) ==> (r matches Err(m) && m@ == e),
        evento_write_error(evento) is None && conn is None ==> (r matches Err(m) && m@ == CERRADO@),
        evento_write_error(evento) is None && conn is Some ==> respuesta_con(r, set![TEMA_SIN_CURSO@, CURSO_NO_ENCONTRADO@]),
        !(evento_write_error(evento) is None) ==> (conn matches Some(b) ==> final(b).enviadas@ == (*b).enviadas@),
        evento_write_error(evento) is None ==> (conn matches Some(b) ==> exists|v: EventoWrite| #[trigger] evento_write_ok(Ok::<EventoWrite, String>(v), evento) && (final(b).enviadas@ == (*b).enviadas@.push(lectura(TIPO_EVENTO_CODIGO@, v.id_tipo_evento)) || final(b).enviadas@ == lecturas_evento((*b).enviadas@, v) || cambio(lecturas_evento((*b).enviadas@, v), final(b).enviadas@, Envio::Ejecuta(UPDATE_EVENTO@, datos(parametros_evento(v).push(Valor::Entero(id)))), GET_EVENTO@, id, r is Ok)) && (r is Ok ==> cambio(lecturas_evento((*b).enviadas@, v), final(b).enviadas@, Envio::Ejecuta(UPDATE_EVENTO@, datos(parametros_evento(v).push(Valor::Entero(id)))), GET_EVENTO@, id, true))),
{
    let w = evento_from_write(evento)?;
    assert(evento_write_ok(Ok::<EventoWrite, String>(w), evento));
    match conn {
        None => Err(CERRADO.to_owned()),
        Some(c) => para_docente(update_evento_sql(c, id, w)),
    }
}

pub fn delete_evento(conn: Option<&mut Base>, id: i64) -> (r: Result<(), String>)
    ensures
        conn is None ==> (r matches Err(m) && m@ == CERRADO@),
        conn is Some ==> respuesta_con(r, Set::empty()),
        conn matches Some(b) ==> (final(b).enviadas@ == (*b).enviadas@.push(sentencia_por_id(DELETE_EVENTO@, id))),
{
    match conn {
        None => Err(CERRADO.to_owned()),
        Some(c) => para_docente(delete_evento_sql(c, id)),
    }
}

/// Un tema o una entrega que pasa la revisión siempre tiene curso; los otros tipos conservan el
/// curso que traen (o ninguno).
pub proof fn ley_tema_y_entrega_con_curso(pide_curso: bool, id_curso: Option<i64>)
    ensures
        pide_curso && curso_a_revisar(pide_curso, id_curso) is Ok ==> id_curso is Some,
        pide_curso && id_curso is None ==> curso_a_revisar(pide_curso, id_curso) == Err::<Option<i64>, Seq<char>>(TEMA_SIN_CURSO@),
        !pide_curso ==> curso_a_revisar(pide_curso, id_curso) == Ok::<Option<i64>, Seq<char>>(id_curso),
{
}

/// Volver a validar un evento ya validado lo deja igual.
pub proof fn ley_evento_estable(e: EventoWrite, x: EventoWrite)
    requires
        evento_write_ok(Ok(x), e),
    ensures
        evento_write_ok(Ok(x), x),
{
    ley_fecha_estable(e.fecha@);
    ley_hora_estable(vista_opt(e.hora));
    ley_obligatorio_estable(e.titulo@, "título"@);
    ley_texto_opcional_estable(vista_opt(e.descripcion));
}

} // verus!
