//! Grilla semanal del docente: bloques de un curso por día (1 lunes a 7 domingo) y hora.

use vstd::prelude::*;
use crate::db::{
    Base, Envio, datos, lectura, sentencia_por_id, alta, cambio, args1, respuesta_con,
    valor_texto_opt, falla_de_base, Valor, ErrorDb, ejecuta, consulta, ultimo_id,
    changes_or_missing, para_docente, texto_o_nulo, CERRADO,
};
use crate::domain::{Horario, HorarioWrite};
use crate::filas::{filas_horario, primera_horario};
use crate::validar::{
    require_rango, require_dia, opt_text, rango_spec, texto_opcional, vista_opt, DIA_INVALIDO, ley_rango_estable,
    ley_texto_opcional_estable,
};

verus! {

/// El primer error de un bloque: las horas (y su orden), después el día.
pub open spec fn horario_write_error(h: HorarioWrite) -> Option<Seq<char>> {
    match rango_spec(h.hora_inicio@, h.hora_fin@) {
        Err(m) => Some(m),
        Ok(_) => if 1 <= h.dia_semana <= 7 {
            None
        } else {
            Some(DIA_INVALIDO@)
        },
    }
}

pub open spec fn horario_write_ok(r: Result<HorarioWrite, String>, h: HorarioWrite) -> bool {
    match r {
        Ok(x) => {
            &&& rango_spec(h.hora_inicio@, h.hora_fin@) == Ok::<(Seq<char>, Seq<char>), Seq<char>>((x.hora_inicio@, x.hora_fin@))
            &&& 1 <= h.dia_semana <= 7 && x.dia_semana == h.dia_semana
            &&& vista_opt(x.aula) == texto_opcional(vista_opt(h.aula))
            &&& x.id_curso == h.id_curso
        },
        Err(m) => horario_write_error(h) == Some(m@),
    }
}

/// Horas normalizadas a `HH:MM` con el fin después del inicio, día 1 a 7, aula opcional.
pub fn horario_from_write(horario: HorarioWrite) -> (r: Result<HorarioWrite, String>)
    ensures
        horario_write_ok(r, horario),
{
    let (hora_inicio, hora_fin) = require_rango(horario.hora_inicio.as_str(), horario.hora_fin.as_str())?;
    let dia_semana = require_dia(horario.dia_semana)?;
    Ok(HorarioWrite { id_curso: horario.id_curso, dia_semana, hora_inicio, hora_fin, aula: opt_text(horario.aula) })
}

pub const GET_HORARIO: &'static str = "SELECT id, id_curso, dia_semana, hora_inicio, hora_fin, aula FROM horarios WHERE id = ?1";

pub fn get_horario_sql(conn: &mut Base, id: i64) -> (r: Result<Horario, ErrorDb>)
    ensures
        final(conn).enviadas@ == old(conn).enviadas@.push(lectura(GET_HORARIO@, id)),
        falla_de_base(r),
{
    let filas = consulta(
        conn,
        GET_HORARIO,
        &args1(Valor::Entero(id)),
    )?;
    primera_horario(&filas)
}

pub const LIST_HORARIOS: &'static str = "SELECT h.id, h.id_curso, h.dia_semana, h.hora_inicio, h.hora_fin, h.aula
         FROM horarios h
         JOIN cursos c ON c.id = h.id_curso
         WHERE c.id_anio_lectivo = ?1
         ORDER BY h.dia_semana, h.hora_inicio, c.nombre COLLATE NOCASE";

/// Bloques de los dictados de un año, por día, hora y nombre del curso.
pub fn list_horarios_sql(conn: &mut Base, id_anio_lectivo: i64) -> (r: Result<Vec<Horario>, ErrorDb>)
    ensures
        final(conn).enviadas@ == old(conn).enviadas@.push(lectura(LIST_HORARIOS@, id_anio_lectivo)),
        falla_de_base(r),
{
    let filas = consulta(
        conn,
        LIST_HORARIOS,
        &args1(Valor::Entero(id_anio_lectivo)),
    )?;
    filas_horario(&filas)
}

pub const LIST_HORARIOS_DE_CURSO: &'static str = "SELECT id, id_curso, dia_semana, hora_inicio, hora_fin, aula
         FROM horarios
         WHERE id_curso = ?1
         ORDER BY dia_semana, hora_inicio";

pub fn list_horarios_de_curso_sql(conn: &mut Base, id_curso: i64) -> (r: Result<Vec<Horario>, ErrorDb>)
    ensures
        final(conn).enviadas@ == old(conn).enviadas@.push(lectura(LIST_HORARIOS_DE_CURSO@, id_curso)),
        falla_de_base(r),
{
    let filas = consulta(
        conn,
        LIST_HORARIOS_DE_CURSO,
        &args1(Valor::Entero(id_curso)),
    )?;
    filas_horario(&filas)
}

/// Los parámetros de un bloque, en el orden de las columnas.
pub open spec fn parametros_horario(w: HorarioWrite) -> Seq<Valor> {
    seq![
        Valor::Entero(w.id_curso),
        Valor::Entero(w.dia_semana),
        Valor::Texto(w.hora_inicio),
        Valor::Texto(w.hora_fin),
        valor_texto_opt(w.aula),
    ]
}

fn valores_horario(w: &HorarioWrite) -> (r: Vec<Valor>)
    ensures
        r@ == parametros_horario(*w),
{
    vec![
        Valor::Entero(w.id_curso),
        Valor::Entero(w.dia_semana),
        Valor::Texto(w.hora_inicio.clone()),
        Valor::Texto(w.hora_fin.clone()),
        texto_o_nulo(&w.aula),
    ]
}

pub const INSERT_HORARIO: &'static str = "INSERT INTO horarios (id_curso, dia_semana, hora_inicio, hora_fin, aula)
         VALUES (?1, ?2, ?3, ?4, ?5)";

pub fn insert_horario_sql(conn: &mut Base, w: &HorarioWrite) -> (r: Result<Horario, ErrorDb>)
    ensures
        alta(old(conn).enviadas@, final(conn).enviadas@, Envio::Ejecuta(INSERT_HORARIO@, datos(parametros_horario(*w))), GET_HORARIO@, r is Ok),
        falla_de_base(r),
{
    ejecuta(
        conn,
        INSERT_HORARIO,
        &valores_horario(w),
    )?;
    let id = ultimo_id(conn);
    get_horario_sql(conn, id)
}

pub const UPDATE_HORARIO: &'static str = "UPDATE horarios
         SET id_curso = ?1, dia_semana = ?2, hora_inicio = ?3, hora_fin = ?4, aula = ?5
         WHERE id = ?6";

pub fn update_horario_sql(conn: &mut Base, id: i64, w: &HorarioWrite) -> (r: Result<Horario, ErrorDb>)
    ensures
        cambio(old(conn).enviadas@, final(conn).enviadas@, Envio::Ejecuta(UPDATE_HORARIO@, datos(parametros_horario(*w).push(Valor::Entero(id)))), GET_HORARIO@, id, r is Ok),
        falla_de_base(r),
{
    let mut args = valores_horario(w);
    args.push(Valor::Entero(id));
    let n = ejecuta(
        conn,
        UPDATE_HORARIO,
        &args,
    )?;
    changes_or_missing(n)?;
    get_horario_sql(conn, id)
}

pub const DELETE_HORARIO: &'static str = "DELETE FROM horarios WHERE id = ?1";

pub fn delete_horario_sql(conn: &mut Base, id: i64) -> (r: Result<(), ErrorDb>)
    ensures
        final(conn).enviadas@ == old(conn).enviadas@.push(sentencia_por_id(DELETE_HORARIO@, id)),
        falla_de_base(r),
{
    let n = ejecuta(conn, DELETE_HORARIO, &args1(Valor::Entero(id)))?;
    changes_or_missing(n)
}

pub fn list_horarios(conn: Option<&mut Base>, id_anio_lectivo: i64) -> (r: Result<Vec<Horario>, String>)
    ensures
        conn is None ==> (r matches Err(m) && m@ == CERRADO@),
        conn is Some ==> respuesta_con(r, Set::empty()),
        conn matches Some(b) ==> (final(b).enviadas@ == (*b).enviadas@.push(lectura(LIST_HORARIOS@, id_anio_lectivo))),
{
    match conn {
        None => Err(CERRADO.to_owned()),
        Some(c) => para_docente(list_horarios_sql(c, id_anio_lectivo)),
    }
}

pub fn list_horarios_de_curso(conn: Option<&mut Base>, id_curso: i64) -> (r: Result<Vec<Horario>, String>)
    ensures
        conn is None ==> (r matches Err(m) && m@ == CERRADO@),
        conn is Some ==> respuesta_con(r, Set::empty()),
        conn matches Some(b) ==> (final(b).enviadas@ == (*b).enviadas@.push(lectura(LIST_HORARIOS_DE_CURSO@, id_curso))),
{
    match conn {
        None => Err(CERRADO.to_owned()),
        Some(c) => para_docente(list_horarios_de_curso_sql(c, id_curso)),
    }
}

pub fn create_horario(conn: Option<&mut Base>, horario: HorarioWrite) -> (r: Result<Horario, String>)
    ensures
        horario_write_error(horario) matches Some(e) ==> (r matches Err(m) && m@ == e),
        horario_write_error(horario) is None && conn is None ==> (r matches Err(m) && m@ == CERRADO@),
        horario_write_error(horario) is None && conn is Some ==> respuesta_con(r, Set::empty()),
        !(horario_write_error(horario) is None) ==> (conn matches Some(b) ==> final(b).enviadas@ == (*b).enviadas@),
        horario_write_error(horario) is None ==> (conn matches Some(b) ==> exists|v: HorarioWrite| #[trigger] horario_write_ok(Ok::<HorarioWrite, String>(v), horario) && (alta((*b).enviadas@, final(b).enviadas@, Envio::Ejecuta(INSERT_HORARIO@, datos(parametros_horario(v))), GET_HORARIO@, r is Ok))),
{
    let w = horario_from_write(horario)?;
    assert(horario_write_ok(Ok::<HorarioWrite, String>(w), horario));
    match conn {
        None => Err(CERRADO.to_owned()),
        Some(c) => para_docente(insert_horario_sql(c, &w)),
    }
}

pub fn update_horario(conn: Option<&mut Base>, id: i64, horario: HorarioWrite) -> (r: Result<Horario, String>)
    ensures
        horario_write_error(horario) matches Some(e) ==> (r matches Err(m) && m@ == e),
        horario_write_error(horario) is None && conn is None ==> (r matches Err(m) && m@ == CERRADO@),
        horario_write_error(horario) is None && conn is Some ==> respuesta_con(r, Set::empty()),
        !(horario_write_error(horario) is None) ==> (conn matches Some(b) ==> final(b).enviadas@ == (*b).enviadas@),
        horario_write_error(horario) is None ==> (conn matches Some(b) ==> exists|v: HorarioWrite| #[trigger] horario_write_ok(Ok::<HorarioWrite, String>(v), horario) && (cambio((*b).enviadas@, final(b).enviadas@, Envio::Ejecuta(UPDATE_HORARIO@, datos(parametros_horario(v).push(Valor::Entero(id)))), GET_HORARIO@, id, r is Ok))),
{
    let w = horario_from_write(horario)?;
    assert(horario_write_ok(Ok::<HorarioWrite, String>(w), horario));
    match conn {
        None => Err(CERRADO.to_owned()),
        Some(c) => para_docente(update_horario_sql(c, id, &w)),
    }
}

pub fn delete_horario(conn: Option<&mut Base>, id: i64) -> (r: Result<(), String>)
    ensures
        conn is None ==> (r matches Err(m) && m@ == CERRADO@),
        conn is Some ==> respuesta_con(r, Set::empty()),
        conn matches Some(b) ==> (final(b).enviadas@ == (*b).enviadas@.push(sentencia_por_id(DELETE_HORARIO@, id))),
{
    match conn {
        None => Err(CERRADO.to_owned()),
        Some(c) => para_docente(delete_horario_sql(c, id)),
    }
}

/// Volver a validar un bloque ya validado lo deja igual.
pub proof fn ley_horario_estable(h: HorarioWrite, x: HorarioWrite)
    requires
        horario_write_ok(Ok(x), h),
    ensures
        horario_write_ok(Ok(x), x),
{
    ley_rango_estable(h.hora_inicio@, h.hora_fin@);
    ley_texto_opcional_estable(vista_opt(h.aula));
}

} // verus!
