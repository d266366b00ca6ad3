//! Dictados (cursos): escuela, turno, división, ciclo, materia y año lectivo.

use vstd::prelude::*;
use crate::db::{
    Base, Envio, datos, lectura, sentencia_por_id, alta, cambio, args1, respuesta_con, Valor,
    ErrorDb, texto_o_nulo, valor_texto_opt, falla_de_base, ejecuta, consulta, ultimo_id,
    changes_or_missing, para_docente, CERRADO,
};
use crate::domain::{Curso, CursoWrite};
use crate::filas::{filas_curso, primera_curso};
use crate::validar::{
    require_nombre, opt_text, obligatorio, texto_opcional, vista_opt, ley_obligatorio_estable, ley_texto_opcional_estable,
};

verus! {

/// Datos de un dictado como se guardan: nombre obligatorio recortado, orientación opcional.
pub open spec fn curso_write_ok(r: Result<CursoWrite, String>, c: CursoWrite) -> bool {
    match r {
        Ok(x) => obligatorio(c.nombre@, "nombre"@) == Ok::<Seq<char>, Seq<char>>(x.nombre@)
            && vista_opt(x.orientacion) == texto_opcional(vista_opt(c.orientacion))
            && x.id_escuela == c.id_escuela && x.id_turno == c.id_turno && x.id_division == c.id_division
            && x.id_ciclo == c.id_ciclo && x.id_materia == c.id_materia && x.id_anio_lectivo == c.id_anio_lectivo,
        Err(e) => obligatorio(c.nombre@, "nombre"@) == Err::<Seq<char>, Seq<char>>(e@),
    }
}

pub fn curso_from_write(curso: CursoWrite) -> (r: Result<CursoWrite, String>)
    ensures
        curso_write_ok(r, curso),
{
    let nombre = require_nombre(curso.nombre.as_str(), "nombre")?;
    Ok(CursoWrite {
        nombre,
        id_escuela: curso.id_escuela,
        id_turno: curso.id_turno,
        id_division: curso.id_division,
        id_ciclo: curso.id_ciclo,
        id_materia: curso.id_materia,
        id_anio_lectivo: curso.id_anio_lectivo,
        orientacion: opt_text(curso.orientacion),
    })
}

/// Los parámetros de un dictado, en el orden de las columnas.
pub open spec fn parametros_curso(w: CursoWrite) -> Seq<Valor> {
    seq![
        Valor::Texto(w.nombre),
        Valor::Entero(w.id_escuela),
        Valor::Entero(w.id_turno),
        Valor::Entero(w.id_division),
        Valor::Entero(w.id_ciclo),
        Valor::Entero(w.id_materia),
        Valor::Entero(w.id_anio_lectivo),
        valor_texto_opt(w.orientacion),
    ]
}

fn valores_curso(w: &CursoWrite) -> (r: Vec<Valor>)
    ensures
        r@ == parametros_curso(*w),
{
    vec![
        Valor::Texto(w.nombre.clone()),
        Valor::Entero(w.id_escuela),
        Valor::Entero(w.id_turno),
        Valor::Entero(w.id_division),
        Valor::Entero(w.id_ciclo),
        Valor::Entero(w.id_materia),
        Valor::Entero(w.id_anio_lectivo),
        texto_o_nulo(&w.orientacion),
    ]
}

pub const GET_CURSO: &'static str = "SELECT id, nombre, id_escuela, id_turno, id_division, id_ciclo, id_materia, id_anio_lectivo, orientacion
         FROM cursos WHERE id = ?1";

pub fn get_curso_sql(conn: &mut Base, id: i64) -> (r: Result<Curso, ErrorDb>)
    ensures
        final(conn).enviadas@ == old(conn).enviadas@.push(lectura(GET_CURSO@, id)),
        falla_de_base(r),
{
    let filas = consulta(
        conn,
        GET_CURSO,
        &args1(Valor::Entero(id)),
    )?;
    primera_curso(&filas)
}

pub const LIST_CURSOS: &'static str = "SELECT id, nombre, id_escuela, id_turno, id_division, id_ciclo, id_materia, id_anio_lectivo, orientacion
         FROM cursos
         WHERE id_anio_lectivo = ?1
         ORDER BY nombre COLLATE NOCASE";

/// Dictados de un año lectivo, por nombre.
pub fn list_cursos_sql(conn: &mut Base, id_anio_lectivo: i64) -> (r: Result<Vec<Curso>, ErrorDb>)
    ensures
        final(conn).enviadas@ == old(conn).enviadas@.push(lectura(LIST_CURSOS@, id_anio_lectivo)),
        falla_de_base(r),
{
    let filas = consulta(
        conn,
        LIST_CURSOS,
        &args1(Valor::Entero(id_anio_lectivo)),
    )?;
    filas_curso(&filas)
}

pub const INSERT_CURSO: &'static str = "INSERT INTO cursos (
            nombre, id_escuela, id_turno, id_division, id_ciclo, id_materia, id_anio_lectivo, orientacion
         ) VALUES (?1, ?2, ?3, ?4, ?5, ?6, ?7, ?8)";

pub fn insert_curso_sql(conn: &mut Base, w: &CursoWrite) -> (r: Result<Curso, ErrorDb>)
    ensures
        alta(old(conn).enviadas@, final(conn).enviadas@, Envio::Ejecuta(INSERT_CURSO@, datos(parametros_curso(*w))), GET_CURSO@, r is Ok),
        falla_de_base(r),
{
    ejecuta(
        conn,
        INSERT_CURSO,
        &valores_curso(w),
    )?;
    let id = ultimo_id(conn);
    get_curso_sql(conn, id)
}

pub const UPDATE_CURSO: &'static str = "UPDATE cursos
         SET nombre = ?1, id_escuela = ?2, id_turno = ?3, id_division = ?4,
             id_ciclo = ?5, id_materia = ?6, id_anio_lectivo = ?7, orientacion = ?8
         WHERE id = ?9";

pub fn update_curso_sql(conn: &mut Base, id: i64, w: &CursoWrite) -> (r: Result<Curso, ErrorDb>)
    ensures
        cambio(old(conn).enviadas@, final(conn).enviadas@, Envio::Ejecuta(UPDATE_CURSO@, datos(parametros_curso(*w).push(Valor::Entero(id)))), GET_CURSO@, id, r is Ok),
        falla_de_base(r),
{
    let mut args = valores_curso(w);
    args.push(Valor::Entero(id));
    let n = ejecuta(
        conn,
        UPDATE_CURSO,
        &args,
    )?;
    changes_or_missing(n)?;
    get_curso_sql(conn, id)
}

pub const DELETE_CURSO: &'static str = "DELETE FROM cursos WHERE id = ?1";

pub fn delete_curso_sql(conn: &mut Base, id: i64) -> (r: Result<(), ErrorDb>)
    ensures
        final(conn).enviadas@ == old(conn).enviadas@.push(sentencia_por_id(DELETE_CURSO@, id)),
        falla_de_base(r),
{
    let n = ejecuta(conn, DELETE_CURSO, &args1(Valor::Entero(id)))?;
    changes_or_missing(n)
}

pub fn list_cursos(conn: Option<&mut Base>, id_anio_lectivo: i64) -> (r: Result<Vec<Curso>, String>)
    ensures
        conn is None ==> (r matches Err(m) && m@ == CERRADO@),
        conn is Some ==> respuesta_con(r, Set::empty()),
        conn matches Some(b) ==> (final(b).enviadas@ == (*b).enviadas@.push(lectura(LIST_CURSOS@, id_anio_lectivo))),
{
    match conn {
        None => Err(CERRADO.to_owned()),
        Some(c) => para_docente(list_cursos_sql(c, id_anio_lectivo)),
    }
}

pub fn get_curso(conn: Option<&mut Base>, id: i64) -> (r: Result<Curso, String>)
    ensures
        conn is None ==> (r matches Err(m) && m@ == CERRADO@),
        conn is Some ==> respuesta_con(r, Set::empty()),
        conn matches Some(b) ==> (final(b).enviadas@ == (*b).enviadas@.push(lectura(GET_CURSO@, id))),
{
    match conn {
        None => Err(CERRADO.to_owned()),
        Some(c) => para_docente(get_curso_sql(c, id)),
    }
}

pub fn create_curso(conn: Option<&mut Base>, curso: CursoWrite) -> (r: Result<Curso, String>)
    ensures
        obligatorio(curso.nombre@, "nombre"@) matches Err(e) ==> (r matches Err(m) && m@ == e),
        obligatorio(curso.nombre@, "nombre"@) is Ok && conn is None ==> (r matches Err(m) && m@ == CERRADO@),
        obligatorio(curso.nombre@, "nombre"@) is Ok && conn is Some ==> respuesta_con(r, Set::empty()),
        !(obligatorio(curso.nombre@, "nombre"@) is Ok) ==> (conn matches Some(b) ==> final(b).enviadas@ == (*b).enviadas@),
        obligatorio(curso.nombre@, "nombre"@) is Ok ==> (conn matches Some(b) ==> exists|v: CursoWrite| #[trigger] curso_write_ok(Ok::<CursoWrite, String>(v), curso) && (alta((*b).enviadas@, final(b).enviadas@, Envio::Ejecuta(INSERT_CURSO@, datos(parametros_curso(v))), GET_CURSO@, r is Ok))),
{
    let w = curso_from_write(curso)?;
    assert(curso_write_ok(Ok::<CursoWrite, String>(w), curso));
    match conn {
        None => Err(CERRADO.to_owned()),
        Some(c) => para_docente(insert_curso_sql(c, &w)),
    }
}

pub fn update_curso(conn: Option<&mut Base>, id: i64, curso: CursoWrite) -> (r: Result<Curso, String>)
    ensures
        obligatorio(curso.nombre@, "nombre"@) matches Err(e) ==> (r matches Err(m) && m@ == e),
        obligatorio(curso.nombre@, "nombre"@) is Ok && conn is None ==> (r matches Err(m) && m@ == CERRADO@),
        obligatorio(curso.nombre@, "nombre"@) is Ok && conn is Some ==> respuesta_con(r, Set::empty()),
        !(obligatorio(curso.nombre@, "nombre"@) is Ok) ==> (conn matches Some(b) ==> final(b).enviadas@ == (*b).enviadas@),
        obligatorio(curso.nombre@, "nombre"@) is Ok ==> (conn matches Some(b) ==> exists|v: CursoWrite| #[trigger] curso_write_ok(Ok::<CursoWrite, String>(v), curso) && (cambio((*b).enviadas@, final(b).enviadas@, Envio::Ejecuta(UPDATE_CURSO@, datos(parametros_curso(v).push(Valor::Entero(id)))), GET_CURSO@, id, r is Ok))),
{
    let w = curso_from_write(curso)?;
    assert(curso_write_ok(Ok::<CursoWrite, String>(w), curso));
    match conn {
        None => Err(CERRADO.to_owned()),
        Some(c) => para_docente(update_curso_sql(c, id, &w)),
    }
}

pub fn delete_curso(conn: Option<&mut Base>, id: i64) -> (r: Result<(), String>)
    ensures
        conn is None ==> (r matches Err(m) && m@ == CERRADO@),
        conn is Some ==> respuesta_con(r, Set::empty()),
        conn matches Some(b) ==> (final(b).enviadas@ == (*b).enviadas@.push(sentencia_por_id(DELETE_CURSO@, id))),
{
    match conn {
        None => Err(CERRADO.to_owned()),
        Some(c) => para_docente(delete_curso_sql(c, id)),
    }
}

/// Volver a validar un dictado ya validado lo deja igual.
pub proof fn ley_curso_estable(c: CursoWrite, x: CursoWrite)
    requires
        curso_write_ok(Ok(x), c),
    ensures
        curso_write_ok(Ok(x), x),
{
    ley_obligatorio_estable(c.nombre@, "nombre"@);
    ley_texto_opcional_estable(vista_opt(c.orientacion));
}

} // verus!
