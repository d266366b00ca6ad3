//! Anotaciones del docente sobre un alumno en un dictado. El alumno tiene que estar inscripto.

use vstd::prelude::*;
use crate::cadena::{recortado, ley_recorte_idempotente};
use crate::db::{
    Base, Envio, Dato, datos, lectura, sentencia_por_id, alta, cambio, args1, args2, respuesta_con,
    falla_de_base, falla_con, Valor, ErrorDb, ejecuta, consulta, ultimo_id, changes_or_missing,
    existe, para_docente, CERRADO,
};
use crate::domain::{Observacion, ObservacionWrite};
use crate::filas::{filas_observacion, primera_observacion};
use crate::asistencias::{curso_existe, alumno_inscripto, leer_inscripcion, CURSO_NO_ENCONTRADO, CURSO_EXISTE};
use crate::validar::{require_fecha, require_texto, fecha_valida, TEXTO_OBLIGATORIO, ley_fecha_estable};

verus! {

pub const TIPO_OBSERVACION_INVALIDO: &'static str = "El tipo de observación no es válido.";
pub const NO_INSCRIPTO_OBSERVACION: &'static str = "El alumno tiene que estar inscripto en el curso para anotar una observación.";

/// El primer error de los datos: fecha, después texto.
pub open spec fn observacion_write_error(o: ObservacionWrite) -> Option<Seq<char>> {
    match fecha_valida(o.fecha@) {
        Err(m) => Some(m),
        Ok(_) => if recortado(o.texto@).len() == 0 {
            Some(TEXTO_OBLIGATORIO@)
        } else {
            None
        },
    }
}

pub open spec fn observacion_write_ok(r: Result<ObservacionWrite, String>, o: ObservacionWrite) -> bool {
    match r {
        Ok(x) => {
            &&& fecha_valida(o.fecha@) == Ok::<Seq<char>, Seq<char>>(x.fecha@)
            &&& recortado(o.texto@).len() > 0 && x.texto@ == recortado(o.texto@)
            &&& x.id_alumno == o.id_alumno && x.id_curso == o.id_curso
            &&& x.id_tipo_observacion == o.id_tipo_observacion
        },
        Err(m) => observacion_write_error(o) == Some(m@),
    }
}

pub fn observacion_from_write(o: ObservacionWrite) -> (r: Result<ObservacionWrite, String>)
    ensures
        observacion_write_ok(r, o),
{
    let fecha = require_fecha(o.fecha.as_str())?;
    let texto = require_texto(o.texto.as_str())?;
    Ok(ObservacionWrite {
        id_alumno: o.id_alumno,
        id_curso: o.id_curso,
        id_tipo_observacion: o.id_tipo_observacion,
        fecha,
        texto,
    })
}

/// Por qué no se puede anotar, en el orden en que se revisa: curso, tipo, inscripción.
pub open spec fn rechazo_observacion(curso: bool, tipo: bool, inscripto: bool) -> Option<Seq<char>> {
    if !curso {
        Some(CURSO_NO_ENCONTRADO@)
    } else if !tipo {
        Some(TIPO_OBSERVACION_INVALIDO@)
    } else if !inscripto {
        Some(NO_INSCRIPTO_OBSERVACION@)
    } else {
        None
    }
}

pub fn decidir_observacion(curso: bool, tipo: bool, inscripto: bool) -> (r: Result<(), ErrorDb>)
    ensures
        rechazo_observacion(curso, tipo, inscripto) is None ==> r is Ok,
        rechazo_observacion(curso, tipo, inscripto) matches Some(m) ==> (r matches Err(ErrorDb::App(e)) && e@ == m),
{
    if !curso {
        Err(ErrorDb::App(CURSO_NO_ENCONTRADO.to_owned()))
    } else if !tipo {
        Err(ErrorDb::App(TIPO_OBSERVACION_INVALIDO.to_owned()))
    } else if !inscripto {
        Err(ErrorDb::App(NO_INSCRIPTO_OBSERVACION.to_owned()))
    } else {
        Ok(())
    }
}

pub const GET_OBSERVACION: &'static str = "SELECT id, id_alumno, id_curso, id_tipo_observacion, fecha, texto FROM observaciones WHERE id = ?1";

pub fn get_observacion_sql(conn: &mut Base, id: i64) -> (r: Result<Observacion, ErrorDb>)
    ensures
        final(conn).enviadas@ == old(conn).enviadas@.push(lectura(GET_OBSERVACION@, id)),
        falla_de_base(r),
{
    let filas = consulta(
        conn,
        GET_OBSERVACION,
        &args1(Valor::Entero(id)),
    )?;
    primera_observacion(&filas)
}

pub const TIPO_OBSERVACION_EXISTE: &'static str = "SELECT COUNT(*) FROM tipos_observacion WHERE id = ?1";

fn tipo_existe(conn: &mut Base, id: i64) -> (r: Result<bool, ErrorDb>)
    ensures
        final(conn).enviadas@ == old(conn).enviadas@.push(lectura(TIPO_OBSERVACION_EXISTE@, id)),
        falla_de_base(r),
{
    existe(conn, TIPO_OBSERVACION_EXISTE, &args1(Valor::Entero(id)))
}

/// Lo mandado tras las lecturas de una observación: el curso; si existe, el tipo; si los dos
/// existen, la inscripción.
pub open spec fn lecturas_observacion(antes: Seq<Envio>, w: ObservacionWrite, curso: bool, tipo: bool) -> Seq<Envio> {
    let a = antes.push(lectura(CURSO_EXISTE@, w.id_curso));
    let b = if curso { a.push(lectura(TIPO_OBSERVACION_EXISTE@, w.id_tipo_observacion)) } else { a };
    if curso && tipo { b.push(leer_inscripcion(w.id_alumno, w.id_curso)) } else { b }
}

/// Solo se mandaron lecturas de `lecturas_observacion`, hasta donde se llegó.
pub open spec fn solo_lecturas_observacion(antes: Seq<Envio>, despues: Seq<Envio>, w: ObservacionWrite) -> bool {
    ||| despues == lecturas_observacion(antes, w, false, false)
    ||| despues == lecturas_observacion(antes, w, true, false)
    ||| despues == lecturas_observacion(antes, w, true, true)
}

/// Lee de la base, en orden y solo lo necesario, si existen el curso y el tipo y si el alumno
/// está inscripto: lo que no se llega a leer queda en `false`.
fn prepare_write(conn: &mut Base, w: &ObservacionWrite) -> (r: Result<(bool, bool, bool), ErrorDb>)
    ensures
        r matches Ok((c, t, i)) ==> final(conn).enviadas@ == lecturas_observacion(old(conn).enviadas@, *w, c, t) && (!c ==> !t) && (!t ==> !i),
        r is Err ==> solo_lecturas_observacion(old(conn).enviadas@, final(conn).enviadas@, *w),
        falla_de_base(r),
{
    let curso = curso_existe(conn, w.id_curso)?;
    let tipo = if curso {
        tipo_existe(conn, w.id_tipo_observacion)?
    } else {
        false
    };
    let inscripto = if curso && tipo {
        alumno_inscripto(conn, w.id_alumno, w.id_curso)?
    } else {
        false
    };
    Ok((curso, tipo, inscripto))
}

pub const LIST_OBSERVACIONES: &'static str = "SELECT o.id, o.id_alumno, o.id_curso, o.id_tipo_observacion, o.fecha, o.texto
         FROM observaciones o
         JOIN cursos c ON c.id = o.id_curso
         WHERE c.id_anio_lectivo = ?1
         ORDER BY o.fecha DESC, o.id DESC";

pub fn list_observaciones_sql(conn: &mut Base, id_anio_lectivo: i64) -> (r: Result<Vec<Observacion>, ErrorDb>)
    ensures
        final(conn).enviadas@ == old(conn).enviadas@.push(lectura(LIST_OBSERVACIONES@, id_anio_lectivo)),
        falla_de_base(r),
{
    let filas = consulta(
        conn,
        LIST_OBSERVACIONES,
        &args1(Valor::Entero(id_anio_lectivo)),
    )?;
    filas_observacion(&filas)
}

pub const LIST_OBSERVACIONES_DE_CURSO: &'static str = "SELECT id, id_alumno, id_curso, id_tipo_observacion, fecha, texto
         FROM observaciones
         WHERE id_curso = ?1
         ORDER BY fecha DESC, id DESC";

pub fn list_observaciones_de_curso_sql(conn: &mut Base, id_curso: i64) -> (r: Result<Vec<Observacion>, ErrorDb>)
    ensures
        final(conn).enviadas@ == old(conn).enviadas@.push(lectura(LIST_OBSERVACIONES_DE_CURSO@, id_curso)),
        falla_de_base(r),
{
    let filas = consulta(
        conn,
        LIST_OBSERVACIONES_DE_CURSO,
        &args1(Valor::Entero(id_curso)),
    )?;
    filas_observacion(&filas)
}

pub const LIST_OBSERVACIONES_DE_ALUMNO: &'static str = "SELECT o.id, o.id_alumno, o.id_curso, o.id_tipo_observacion, o.fecha, o.texto
         FROM observaciones o
         JOIN cursos c ON c.id = o.id_curso
         WHERE o.id_alumno = ?1 AND c.id_anio_lectivo = ?2
         ORDER BY o.fecha DESC, o.id DESC";

pub fn list_observaciones_de_alumno_sql(conn: &mut Base, id_alumno: i64, id_anio_lectivo: i64) -> (r: Result<Vec<Observacion>, ErrorDb>)
    ensures
        final(conn).enviadas@ == old(conn).enviadas@.push(Envio::Consulta(LIST_OBSERVACIONES_DE_ALUMNO@, seq![Dato::Entero(id_alumno), Dato::Entero(id_anio_lectivo)])),
        falla_de_base(r),
{
    let filas = consulta(
        conn,
        LIST_OBSERVACIONES_DE_ALUMNO,
        &args2(Valor::Entero(id_alumno), Valor::Entero(id_anio_lectivo)),
    )?;
    filas_observacion(&filas)
}

/// Los parámetros de una observación, en el orden de las columnas.
pub open spec fn parametros_observacion(w: ObservacionWrite) -> Seq<Valor> {
    seq![
        Valor::Entero(w.id_alumno),
        Valor::Entero(w.id_curso),
        Valor::Entero(w.id_tipo_observacion),
        Valor::Texto(w.fecha),
        Valor::Texto(w.texto),
    ]
}

fn valores_observacion(w: &ObservacionWrite) -> (r: Vec<Valor>)
    ensures
        r@ == parametros_observacion(*w),
{
    vec![
        Valor::Entero(w.id_alumno),
        Valor::Entero(w.id_curso),
        Valor::Entero(w.id_tipo_observacion),
        Valor::Texto(w.fecha.clone()),
        Valor::Texto(w.texto.clone()),
    ]
}

pub const INSERT_OBSERVACION: &'static str = "INSERT INTO observaciones (id_alumno, id_curso, id_tipo_observacion, fecha, texto)
         VALUES (?1, ?2, ?3, ?4, ?5)";

/// El alta, con lo que se leyó de la base (curso, tipo, inscripción): el primer rechazo de
/// `rechazo_observacion` es el error y no se escribe nada; si no hay, se inserta y se devuelve
/// la fila releída.
pub fn insertar_observacion(conn: &mut Base, w: ObservacionWrite, curso: bool, tipo: bool, inscripto: bool) -> (r: Result<Observacion, ErrorDb>)
    ensures
        rechazo_observacion(curso, tipo, inscripto) is Some ==> final(conn).enviadas@ == old(conn).enviadas@,
        rechazo_observacion(curso, tipo, inscripto) is None ==> alta(old(conn).enviadas@, final(conn).enviadas@, Envio::Ejecuta(INSERT_OBSERVACION@, datos(parametros_observacion(w))), GET_OBSERVACION@, r is Ok),
        rechazo_observacion(curso, tipo, inscripto) matches Some(m) ==> (r matches Err(ErrorDb::App(e)) && e@ == m),
        rechazo_observacion(curso, tipo, inscripto) is None ==> falla_de_base(r),
{
    decidir_observacion(curso, tipo, inscripto)?;
    ejecuta(
        conn,
        INSERT_OBSERVACION,
        &valores_observacion(&w),
    )?;
    let id = ultimo_id(conn);
    get_observacion_sql(conn, id)
}

pub fn insert_observacion_sql(conn: &mut Base, raw: ObservacionWrite) -> (r: Result<Observacion, ErrorDb>)
    ensures
        solo_lecturas_observacion(old(conn).enviadas@, final(conn).enviadas@, raw) || alta(lecturas_observacion(old(conn).enviadas@, raw, true, true), final(conn).enviadas@, Envio::Ejecuta(INSERT_OBSERVACION@, datos(parametros_observacion(raw))), GET_OBSERVACION@, r is Ok),
        r is Ok ==> alta(lecturas_observacion(old(conn).enviadas@, raw, true, true), final(conn).enviadas@, Envio::Ejecuta(INSERT_OBSERVACION@, datos(parametros_observacion(raw))), GET_OBSERVACION@, true),
        r matches Err(ErrorDb::App(_)) ==> solo_lecturas_observacion(old(conn).enviadas@, final(conn).enviadas@, raw),
        falla_con(r, set![CURSO_NO_ENCONTRADO@, TIPO_OBSERVACION_INVALIDO@, NO_INSCRIPTO_OBSERVACION@]),
{
    let (curso, tipo, inscripto) = prepare_write(conn, &raw)?;
    insertar_observacion(conn, raw, curso, tipo, inscripto)
}

pub const UPDATE_OBSERVACION: &'static str = "UPDATE observaciones
         SET id_alumno = ?1, id_curso = ?2, id_tipo_observacion = ?3, fecha = ?4, texto = ?5
         WHERE id = ?6";

/// El cambio, con lo que se leyó de la base (curso, tipo, inscripción): el primer rechazo de
/// `rechazo_observacion` es el error y no se escribe nada; si no hay, se actualiza (sin fila es
/// "no encontrado") y se devuelve la fila releída.
pub fn actualizar_observacion(conn: &mut Base, id: i64, w: ObservacionWrite, curso: bool, tipo: bool, inscripto: bool) -> (r: Result<Observacion, ErrorDb>)
    ensures
        rechazo_observacion(curso, tipo, inscripto) is Some ==> final(conn).enviadas@ == old(conn).enviadas@,
        rechazo_observacion(curso, tipo, inscripto) is None ==> cambio(old(conn).enviadas@, final(conn).enviadas@, Envio::Ejecuta(UPDATE_OBSERVACION@, datos(parametros_observacion(w).push(Valor::Entero(id)))), GET_OBSERVACION@, id, r is Ok),
        rechazo_observacion(curso, tipo, inscripto) matches Some(m) ==> (r matches Err(ErrorDb::App(e)) && e@ == m),
        rechazo_observacion(curso, tipo, inscripto) is None ==> falla_de_base(r),
{
    decidir_observacion(curso, tipo, inscripto)?;
    let mut args = valores_observacion(&w);
    args.push(Valor::Entero(id));
    let n = ejecuta(
        conn,
        UPDATE_OBSERVACION,
        &args,
    )?;
    changes_or_missing(n)?;
    get_observacion_sql(conn, id)
}

pub fn update_observacion_sql(conn: &mut Base, id: i64, raw: ObservacionWrite) -> (r: Result<Observacion, ErrorDb>)
    ensures
        solo_lecturas_observacion(old(conn).enviadas@, final(conn).enviadas@, raw) || cambio(lecturas_observacion(old(conn).enviadas@, raw, true, true), final(conn).enviadas@, Envio::Ejecuta(UPDATE_OBSERVACION@, datos(parametros_observacion(raw).push(Valor::Entero(id)))), GET_OBSERVACION@, id, r is Ok),
        r is Ok ==> cambio(lecturas_observacion(old(conn).enviadas@, raw, true, true), final(conn).enviadas@, Envio::Ejecuta(UPDATE_OBSERVACION@, datos(parametros_observacion(raw).push(Valor::Entero(id)))), GET_OBSERVACION@, id, true),
        r matches Err(ErrorDb::App(_)) ==> solo_lecturas_observacion(old(conn).enviadas@, final(conn).enviadas@, raw),
        falla_con(r, set![CURSO_NO_ENCONTRADO@, TIPO_OBSERVACION_INVALIDO@, NO_INSCRIPTO_OBSERVACION@]),
{
    let (curso, tipo, inscripto) = prepare_write(conn, &raw)?;
    actualizar_observacion(conn, id, raw, curso, tipo, inscripto)
}

pub const DELETE_OBSERVACION: &'static str = "DELETE FROM observaciones WHERE id = ?1";

pub fn delete_observacion_sql(conn: &mut Base, id: i64) -> (r: Result<(), ErrorDb>)
    ensures
        final(conn).enviadas@ == old(conn).enviadas@.push(sentencia_por_id(DELETE_OBSERVACION@, id)),
        falla_de_base(r),
{
    let n = ejecuta(conn, DELETE_OBSERVACION, &args1(Valor::Entero(id)))?;
    changes_or_missing(n)
}

pub fn list_observaciones(conn: Option<&mut Base>, id_anio_lectivo: i64) -> (r: Result<Vec<Observacion>, String>)
    ensures
        conn is None ==> (r matches Err(m) && m@ == CERRADO@),
        conn is Some ==> respuesta_con(r, Set::empty()),
        conn matches Some(b) ==> (final(b).enviadas@ == (*b).enviadas@.push(lectura(LIST_OBSERVACIONES@, id_anio_lectivo))),
{
    match conn {
        None => Err(CERRADO.to_owned()),
        Some(c) => para_docente(list_observaciones_sql(c, id_anio_lectivo)),
    }
}

pub fn list_observaciones_de_curso(conn: Option<&mut Base>, id_curso: i64) -> (r: Result<Vec<Observacion>, String>)
    ensures
        conn is None ==> (r matches Err(m) && m@ == CERRADO@),
        conn is Some ==> respuesta_con(r, Set::empty()),
        conn matches Some(b) ==> (final(b).enviadas@ == (*b).enviadas@.push(lectura(LIST_OBSERVACIONES_DE_CURSO@, id_curso))),
{
    match conn {
        None => Err(CERRADO.to_owned()),
        Some(c) => para_docente(list_observaciones_de_curso_sql(c, id_curso)),
    }
}

pub fn list_observaciones_de_alumno(conn: Option<&mut Base>, id_alumno: i64, id_anio_lectivo: i64) -> (r: Result<Vec<Observacion>, String>)
    ensures
        conn is None ==> (r matches Err(m) && m@ == CERRADO@),
        conn is Some ==> respuesta_con(r, Set::empty()),
        conn matches Some(b) ==> (final(b).enviadas@ == (*b).enviadas@.push(Envio::Consulta(LIST_OBSERVACIONES_DE_ALUMNO@, seq![Dato::Entero(id_alumno), Dato::Entero(id_anio_lectivo)]))),
{
    match conn {
        None => Err(CERRADO.to_owned()),
        Some(c) => para_docente(list_observaciones_de_alumno_sql(c, id_alumno, id_anio_lectivo)),
    }
}

pub fn create_observacion(conn: Option<&mut Base>, observacion: ObservacionWrite) -> (r: Result<Observacion, String>)
    ensures
        observacion_write_error(observacion) matches Some(e) ==> (r matches Err(m) && m@ == e),
        observacion_write_error(observacion) is None && conn is None ==> (r matches Err(m) && m@ == CERRADO@),
        observacion_write_error(observacion) is None && conn is Some ==> respuesta_con(r, set![CURSO_NO_ENCONTRADO@, TIPO_OBSERVACION_INVALIDO@, NO_INSCRIPTO_OBSERVACION@]),
        !(observacion_write_error(observacion) is None) ==> (conn matches Some(b) ==> final(b).enviadas@ == (*b).enviadas@),
        observacion_write_error(observacion) is None ==> (conn matches Some(b) ==> exists|v: ObservacionWrite| #[trigger] observacion_write_ok(Ok::<ObservacionWrite, String>(v), observacion) && (solo_lecturas_observacion((*b).enviadas@, final(b).enviadas@, v) || alta(lecturas_observacion((*b).enviadas@, v, true, true), final(b).enviadas@, Envio::Ejecuta(INSERT_OBSERVACION@, datos(parametros_observacion(v))), GET_OBSERVACION@, r is Ok)) && (r is Ok ==> alta(lecturas_observacion((*b).enviadas@, v, true, true), final(b).enviadas@, Envio::Ejecuta(INSERT_OBSERVACION@, datos(parametros_observacion(v))), GET_OBSERVACION@, true))),
{
    let w = observacion_from_write(observacion)?;
    assert(observacion_write_ok(Ok::<ObservacionWrite, String>(w), observacion));
    match conn {
        None => Err(CERRADO.to_owned()),
        Some(c) => para_docente(insert_observacion_sql(c, w)),
    }
}

pub fn update_observacion(conn: Option<&mut Base>, id: i64, observacion: ObservacionWrite) -> (r: Result<Observacion, String>)
    ensures
        observacion_write_error(observacion) matches Some(e) ==> (r matches Err(m) && m@ == e),
        observacion_write_error(observacion) is None && conn is None ==> (r matches Err(m) && m@ == CERRADO@),
        observacion_write_error(observacion) is None && conn is Some ==> respuesta_con(r, set![CURSO_NO_ENCONTRADO@, TIPO_OBSERVACION_INVALIDO@, NO_INSCRIPTO_OBSERVACION@]),
        !(observacion_write_error(observacion) is None) ==> (conn matches Some(b) ==> final(b).enviadas@ == (*b).enviadas@),
        observacion_write_error(observacion) is None ==> (conn matches Some(b) ==> exists|v: ObservacionWrite| #[trigger] observacion_write_ok(Ok::<ObservacionWrite, String>(v), observacion) && (solo_lecturas_observacion((*b).enviadas@, final(b).enviadas@, v) || cambio(lecturas_observacion((*b).enviadas@, v, true, true), final(b).enviadas@, Envio::Ejecuta(UPDATE_OBSERVACION@, datos(parametros_observacion(v).push(Valor::Entero(id)))), GET_OBSERVACION@, id, r is Ok)) && (r is Ok ==> cambio(lecturas_observacion((*b).enviadas@, v, true, true), final(b).enviadas@, Envio::Ejecuta(UPDATE_OBSERVACION@, datos(parametros_observacion(v).push(Valor::Entero(id)))), GET_OBSERVACION@, id, true))),
{
    let w = observacion_from_write(observacion)?;
    assert(observacion_write_ok(Ok::<ObservacionWrite, String>(w), observacion));
    match conn {
        None => Err(CERRADO.to_owned()),
        Some(c) => para_docente(update_observacion_sql(c, id, w)),
    }
}

pub fn delete_observacion(conn: Option<&mut Base>, id: i64) -> (r: Result<(), String>)
    ensures
        conn is None ==> (r matches Err(m) && m@ == CERRADO@),
        conn is Some ==> respuesta_con(r, Set::empty()),
        conn matches Some(b) ==> (final(b).enviadas@ == (*b).enviadas@.push(sentencia_por_id(DELETE_OBSERVACION@, id))),
{
    match conn {
        None => Err(CERRADO.to_owned()),
        Some(c) => para_docente(delete_observacion_sql(c, id)),
    }
}

/// Volver a validar una observación ya validada la deja igual.
pub proof fn ley_observacion_estable(o: ObservacionWrite, x: ObservacionWrite)
    requires
        observacion_write_ok(Ok(x), o),
    ensures
        observacion_write_ok(Ok(x), x),
{
    ley_fecha_estable(o.fecha@);
    ley_recorte_idempotente(o.texto@);
}

} // verus!
