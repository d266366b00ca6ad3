//! Alumnos (nombre y apellido) e inscripción a dictados (`alumnos_cursos`).

use vstd::prelude::*;
use crate::db::{
    Base, Envio, Dato, args0, args1, args2, args3, lectura, sentencia_por_id, alta, cambio, comienzo,
    transaccion, respuesta_con, falla_de_base, vista_pasos, Valor, ErrorDb, ejecuta, consulta,
    ultimo_id, changes_or_missing, existe, en_transaccion, para_docente, CERRADO,
};
use crate::domain::{Alumno, AlumnoCurso, AlumnoWrite};
use crate::filas::{filas_alumno, primera_alumno, filas_alumno_curso, primera_alumno_curso};
use crate::validar::{require_nombre, obligatorio, ley_obligatorio_estable};

verus! {

/// Nombre y apellido recortados, o el mensaje del primero que falta.
pub open spec fn alumno_write_spec(w: AlumnoWrite) -> Result<(Seq<char>, Seq<char>), Seq<char>> {
    match obligatorio(w.nombre@, "nombre"@) {
        Err(e) => Err(e),
        Ok(n) => match obligatorio(w.apellido@, "apellido"@) {
            Err(e) => Err(e),
            Ok(a) => Ok((n, a)),
        },
    }
}

/// Los datos de un alumno como se guardan.
pub open spec fn alumno_write_ok(r: Result<AlumnoWrite, String>, w: AlumnoWrite) -> bool {
    match r {
        Ok(x) => alumno_write_spec(w) == Ok::<(Seq<char>, Seq<char>), Seq<char>>((x.nombre@, x.apellido@)),
        Err(e) => alumno_write_spec(w) == Err::<(Seq<char>, Seq<char>), Seq<char>>(e@),
    }
}

/// Nombre y apellido obligatorios, recortados.
pub fn alumno_from_write(alumno: AlumnoWrite) -> (r: Result<AlumnoWrite, String>)
    ensures
        alumno_write_ok(r, alumno),
{
    let nombre = require_nombre(alumno.nombre.as_str(), "nombre");
    let nombre = match nombre {
        Ok(n) => n,
        Err(e) => return Err(e),
    };
    let apellido = require_nombre(alumno.apellido.as_str(), "apellido");
    let apellido = match apellido {
        Ok(a) => a,
        Err(e) => return Err(e),
    };
    Ok(AlumnoWrite { nombre, apellido })
}

pub const GET_ALUMNO: &'static str = "SELECT id, nombre, apellido FROM alumnos WHERE id = ?1";

pub fn get_alumno_sql(conn: &mut Base, id: i64) -> (r: Result<Alumno, ErrorDb>)
    ensures
        final(conn).enviadas@ == old(conn).enviadas@.push(lectura(GET_ALUMNO@, id)),
        falla_de_base(r),
{
    let filas = consulta(conn, GET_ALUMNO, &args1(Valor::Entero(id)));
    let filas = filas?;
    primera_alumno(&filas)
}

pub const LIST_ALUMNOS: &'static str = "SELECT id, nombre, apellido
         FROM alumnos
         ORDER BY apellido COLLATE NOCASE, nombre COLLATE NOCASE";

/// Todos los alumnos, por apellido y nombre (sin distinguir mayúsculas).
pub fn list_alumnos_sql(conn: &mut Base) -> (r: Result<Vec<Alumno>, ErrorDb>)
    ensures
        final(conn).enviadas@ == old(conn).enviadas@.push(Envio::Consulta(LIST_ALUMNOS@, Seq::<Dato>::empty())),
        falla_de_base(r),
{
    let filas = consulta(
        conn,
        LIST_ALUMNOS,
        &args0(),
    )?;
    filas_alumno(&filas)
}

pub const LIST_ALUMNOS_DE_CURSO: &'static str = "SELECT a.id, a.nombre, a.apellido
         FROM alumnos a
         JOIN alumnos_cursos ac ON ac.id_alumno = a.id
         WHERE ac.id_curso = ?1
         ORDER BY a.apellido COLLATE NOCASE, a.nombre COLLATE NOCASE";

/// Nómina de un dictado, por apellido y nombre.
pub fn list_alumnos_de_curso_sql(conn: &mut Base, id_curso: i64) -> (r: Result<Vec<Alumno>, ErrorDb>)
    ensures
        final(conn).enviadas@ == old(conn).enviadas@.push(lectura(LIST_ALUMNOS_DE_CURSO@, id_curso)),
        falla_de_base(r),
{
    let filas = consulta(
        conn,
        LIST_ALUMNOS_DE_CURSO,
        &args1(Valor::Entero(id_curso)),
    )?;
    filas_alumno(&filas)
}

pub const LIST_INSCRIPCIONES: &'static str = "SELECT ac.id, ac.id_alumno, ac.id_curso
         FROM alumnos_cursos ac
         JOIN cursos c ON c.id = ac.id_curso
         WHERE c.id_anio_lectivo = ?1
         ORDER BY ac.id";

/// Inscripciones en dictados de un año lectivo.
pub fn list_inscripciones_sql(conn: &mut Base, id_anio_lectivo: i64) -> (r: Result<Vec<AlumnoCurso>, ErrorDb>)
    ensures
        final(conn).enviadas@ == old(conn).enviadas@.push(lectura(LIST_INSCRIPCIONES@, id_anio_lectivo)),
        falla_de_base(r),
{
    let filas = consulta(
        conn,
        LIST_INSCRIPCIONES,
        &args1(Valor::Entero(id_anio_lectivo)),
    )?;
    filas_alumno_curso(&filas)
}

pub const GET_INSCRIPCION: &'static str = "SELECT id, id_alumno, id_curso FROM alumnos_cursos WHERE id = ?1";

pub fn get_inscripcion_sql(conn: &mut Base, id: i64) -> (r: Result<AlumnoCurso, ErrorDb>)
    ensures
        final(conn).enviadas@ == old(conn).enviadas@.push(lectura(GET_INSCRIPCION@, id)),
        falla_de_base(r),
{
    let filas = consulta(
        conn,
        GET_INSCRIPCION,
        &args1(Valor::Entero(id)),
    )?;
    primera_alumno_curso(&filas)
}

pub const INSERT_ALUMNO: &'static str = "INSERT INTO alumnos (nombre, apellido) VALUES (?1, ?2)";

pub fn insert_alumno_sql(conn: &mut Base, w: &AlumnoWrite) -> (r: Result<Alumno, ErrorDb>)
    ensures
        alta(old(conn).enviadas@, final(conn).enviadas@, Envio::Ejecuta(INSERT_ALUMNO@, seq![Dato::Texto(w.nombre@), Dato::Texto(w.apellido@)]), GET_ALUMNO@, r is Ok),
        falla_de_base(r),
{
    ejecuta(
        conn,
        INSERT_ALUMNO,
        &args2(Valor::Texto(w.nombre.clone()), Valor::Texto(w.apellido.clone())),
    )?;
    let id = ultimo_id(conn);
    get_alumno_sql(conn, id)
}

pub const UPDATE_ALUMNO: &'static str = "UPDATE alumnos SET nombre = ?1, apellido = ?2 WHERE id = ?3";

pub fn update_alumno_sql(conn: &mut Base, id: i64, w: &AlumnoWrite) -> (r: Result<Alumno, ErrorDb>)
    ensures
        cambio(old(conn).enviadas@, final(conn).enviadas@, Envio::Ejecuta(UPDATE_ALUMNO@, seq![Dato::Texto(w.nombre@), Dato::Texto(w.apellido@), Dato::Entero(id)]), GET_ALUMNO@, id, r is Ok),
        falla_de_base(r),
{
    let n = ejecuta(
        conn,
        UPDATE_ALUMNO,
        &args3(Valor::Texto(w.nombre.clone()), Valor::Texto(w.apellido.clone()), Valor::Entero(id)),
    )?;
    changes_or_missing(n)?;
    get_alumno_sql(conn, id)
}

pub const DELETE_ALUMNO: &'static str = "DELETE FROM alumnos WHERE id = ?1";

pub fn delete_alumno_sql(conn: &mut Base, id: i64) -> (r: Result<(), ErrorDb>)
    ensures
        final(conn).enviadas@ == old(conn).enviadas@.push(sentencia_por_id(DELETE_ALUMNO@, id)),
        falla_de_base(r),
{
    let n = ejecuta(conn, DELETE_ALUMNO, &args1(Valor::Entero(id)))?;
    changes_or_missing(n)
}

pub const INSCRIBIR: &'static str = "INSERT INTO alumnos_cursos (id_alumno, id_curso) VALUES (?1, ?2)";

pub fn inscribir_sql(conn: &mut Base, id_alumno: i64, id_curso: i64) -> (r: Result<AlumnoCurso, ErrorDb>)
    ensures
        alta(old(conn).enviadas@, final(conn).enviadas@, Envio::Ejecuta(INSCRIBIR@, seq![Dato::Entero(id_alumno), Dato::Entero(id_curso)]), GET_INSCRIPCION@, r is Ok),
        falla_de_base(r),
{
    ejecuta(
        conn,
        INSCRIBIR,
        &args2(Valor::Entero(id_alumno), Valor::Entero(id_curso)),
    )?;
    let id = ultimo_id(conn);
    get_inscripcion_sql(conn, id)
}

pub const BAJA_NOTAS: &'static str = "DELETE FROM notas
             WHERE id_alumno = ?1
               AND id_evaluacion IN (SELECT id FROM evaluaciones WHERE id_curso = ?2)";
pub const BAJA_OBSERVACIONES: &'static str = "DELETE FROM observaciones WHERE id_alumno = ?1 AND id_curso = ?2";
pub const BAJA_ASISTENCIAS: &'static str = "DELETE FROM asistencias WHERE id_alumno = ?1 AND id_curso = ?2";
pub const BAJA_INSCRIPCION: &'static str = "DELETE FROM alumnos_cursos WHERE id_alumno = ?1 AND id_curso = ?2";

/// Lo que borra la baja, en orden: las notas de las evaluaciones de ese dictado, las
/// observaciones, la asistencia y la inscripción, cada sentencia con (alumno, curso).
pub open spec fn pasos_desinscribir_spec(id_alumno: i64, id_curso: i64) -> Seq<(Seq<char>, Seq<Valor>)> {
    let par = seq![Valor::Entero(id_alumno), Valor::Entero(id_curso)];
    seq![(BAJA_NOTAS@, par), (BAJA_OBSERVACIONES@, par), (BAJA_ASISTENCIAS@, par), (BAJA_INSCRIPCION@, par)]
}

/// Las sentencias de la baja de un alumno de un dictado.
pub fn pasos_desinscribir(id_alumno: i64, id_curso: i64) -> (r: Vec<(&'static str, Vec<Valor>)>)
    ensures
        vista_pasos(r@) == pasos_desinscribir_spec(id_alumno, id_curso),
{
    let r = vec![
        (BAJA_NOTAS, vec![Valor::Entero(id_alumno), Valor::Entero(id_curso)]),
        (BAJA_OBSERVACIONES, vec![Valor::Entero(id_alumno), Valor::Entero(id_curso)]),
        (BAJA_ASISTENCIAS, vec![Valor::Entero(id_alumno), Valor::Entero(id_curso)]),
        (BAJA_INSCRIPCION, vec![Valor::Entero(id_alumno), Valor::Entero(id_curso)]),
    ];
    assert(vista_pasos(r@) =~= pasos_desinscribir_spec(id_alumno, id_curso));
    r
}

/// La baja, con lo que se leyó de la base (`inscripto`: si la inscripción existe): sin
/// inscripción es "no encontrado" y no se toca nada; si no, se borran en una transacción las
/// filas de `pasos_desinscribir`.
pub fn desinscribir_con(conn: &mut Base, id_alumno: i64, id_curso: i64, inscripto: bool) -> (r: Result<(), ErrorDb>)
    ensures
        !inscripto ==> r == Err::<(), ErrorDb>(ErrorDb::NoEncontrado) && final(conn).enviadas@ == old(conn).enviadas@,
        inscripto ==> falla_de_base(r),
        inscripto && r is Ok ==> final(conn).enviadas@ == old(conn).enviadas@ + transaccion(pasos_desinscribir_spec(id_alumno, id_curso)),
        inscripto && r is Err ==> comienzo(old(conn).enviadas@, final(conn).enviadas@, transaccion(pasos_desinscribir_spec(id_alumno, id_curso))),
{
    if !inscripto {
        return Err(ErrorDb::NoEncontrado);
    }
    en_transaccion(conn, &pasos_desinscribir(id_alumno, id_curso))
}

/// La consulta que cuenta la inscripción (alumno, curso).
pub open spec fn contar_inscripcion(id_alumno: i64, id_curso: i64) -> Envio {
    Envio::Consulta(CONTAR_INSCRIPCION@, seq![Dato::Entero(id_alumno), Dato::Entero(id_curso)])
}

pub const CONTAR_INSCRIPCION: &'static str = "SELECT COUNT(*) FROM alumnos_cursos WHERE id_alumno = ?1 AND id_curso = ?2";

/// Baja de la nómina: borra, en una transacción, las notas de las evaluaciones de ese dictado,
/// las observaciones, la asistencia y la inscripción. La persona queda.
pub fn desinscribir_sql(conn: &mut Base, id_alumno: i64, id_curso: i64) -> (r: Result<(), ErrorDb>)
    ensures
        r is Ok ==> final(conn).enviadas@ == old(conn).enviadas@.push(contar_inscripcion(id_alumno, id_curso)) + transaccion(pasos_desinscribir_spec(id_alumno, id_curso)),
        r is Err ==> final(conn).enviadas@ == old(conn).enviadas@.push(contar_inscripcion(id_alumno, id_curso)) || comienzo(old(conn).enviadas@.push(contar_inscripcion(id_alumno, id_curso)), final(conn).enviadas@, transaccion(pasos_desinscribir_spec(id_alumno, id_curso))),
        falla_de_base(r),
{
    let par = args2(Valor::Entero(id_alumno), Valor::Entero(id_curso));
    let hay = existe(conn, CONTAR_INSCRIPCION, &par)?;
    desinscribir_con(conn, id_alumno, id_curso, hay)
}

pub fn list_alumnos(conn: Option<&mut Base>) -> (r: Result<Vec<Alumno>, String>)
    ensures
        conn is None ==> (r matches Err(m) && m@ == CERRADO@),
        conn is Some ==> respuesta_con(r, Set::empty()),
        conn matches Some(b) ==> (final(b).enviadas@ == (*b).enviadas@.push(Envio::Consulta(LIST_ALUMNOS@, Seq::<Dato>::empty()))),
{
    match conn {
        None => Err(CERRADO.to_owned()),
        Some(c) => para_docente(list_alumnos_sql(c)),
    }
}

pub fn get_alumno(conn: Option<&mut Base>, id: i64) -> (r: Result<Alumno, String>)
    ensures
        conn is None ==> (r matches Err(m) && m@ == CERRADO@),
        conn is Some ==> respuesta_con(r, Set::empty()),
        conn matches Some(b) ==> (final(b).enviadas@ == (*b).enviadas@.push(lectura(GET_ALUMNO@, id))),
{
    match conn {
        None => Err(CERRADO.to_owned()),
        Some(c) => para_docente(get_alumno_sql(c, id)),
    }
}

/// Alta: primero los datos (nombre, apellido), después el cuaderno abierto.
pub fn create_alumno(conn: Option<&mut Base>, alumno: AlumnoWrite) -> (r: Result<Alumno, String>)
    ensures
        alumno_write_spec(alumno) matches Err(e) ==> (r matches Err(m) && m@ == e),
        alumno_write_spec(alumno) is Ok && conn is None ==> (r matches Err(m) && m@ == CERRADO@),
        alumno_write_spec(alumno) is Ok && conn is Some ==> respuesta_con(r, Set::empty()),
        !(alumno_write_spec(alumno) is Ok) ==> (conn matches Some(b) ==> final(b).enviadas@ == (*b).enviadas@),
        alumno_write_spec(alumno) matches Ok((n, a)) ==> (conn matches Some(b) ==> alta((*b).enviadas@, final(b).enviadas@, Envio::Ejecuta(INSERT_ALUMNO@, seq![Dato::Texto(n), Dato::Texto(a)]), GET_ALUMNO@, r is Ok)),
{
    let w = alumno_from_write(alumno)?;
    match conn {
        None => Err(CERRADO.to_owned()),
        Some(c) => para_docente(insert_alumno_sql(c, &w)),
    }
}

pub fn update_alumno(conn: Option<&mut Base>, id: i64, alumno: AlumnoWrite) -> (r: Result<Alumno, String>)
    ensures
        alumno_write_spec(alumno) matches Err(e) ==> (r matches Err(m) && m@ == e),
        alumno_write_spec(alumno) is Ok && conn is None ==> (r matches Err(m) && m@ == CERRADO@),
        alumno_write_spec(alumno) is Ok && conn is Some ==> respuesta_con(r, Set::empty()),
        !(alumno_write_spec(alumno) is Ok) ==> (conn matches Some(b) ==> final(b).enviadas@ == (*b).enviadas@),
        alumno_write_spec(alumno) matches Ok((n, a)) ==> (conn matches Some(b) ==> cambio((*b).enviadas@, final(b).enviadas@, Envio::Ejecuta(UPDATE_ALUMNO@, seq![Dato::Texto(n), Dato::Texto(a), Dato::Entero(id)]), GET_ALUMNO@, id, r is Ok)),
{
    let w = alumno_from_write(alumno)?;
    match conn {
        None => Err(CERRADO.to_owned()),
        Some(c) => para_docente(update_alumno_sql(c, id, &w)),
    }
}

pub fn delete_alumno(conn: Option<&mut Base>, id: i64) -> (r: Result<(), String>)
    ensures
        conn is None ==> (r matches Err(m) && m@ == CERRADO@),
        conn is Some ==> respuesta_con(r, Set::empty()),
        conn matches Some(b) ==> (final(b).enviadas@ == (*b).enviadas@.push(sentencia_por_id(DELETE_ALUMNO@, id))),
{
    match conn {
        None => Err(CERRADO.to_owned()),
        Some(c) => para_docente(delete_alumno_sql(c, id)),
    }
}

pub fn list_alumnos_de_curso(conn: Option<&mut Base>, id_curso: i64) -> (r: Result<Vec<Alumno>, String>)
    ensures
        conn is None ==> (r matches Err(m) && m@ == CERRADO@),
        conn is Some ==> respuesta_con(r, Set::empty()),
        conn matches Some(b) ==> (final(b).enviadas@ == (*b).enviadas@.push(lectura(LIST_ALUMNOS_DE_CURSO@, id_curso))),
{
    match conn {
        None => Err(CERRADO.to_owned()),
        Some(c) => para_docente(list_alumnos_de_curso_sql(c, id_curso)),
    }
}

pub fn list_inscripciones(conn: Option<&mut Base>, id_anio_lectivo: i64) -> (r: Result<Vec<AlumnoCurso>, String>)
    ensures
        conn is None ==> (r matches Err(m) && m@ == CERRADO@),
        conn is Some ==> respuesta_con(r, Set::empty()),
        conn matches Some(b) ==> (final(b).enviadas@ == (*b).enviadas@.push(lectura(LIST_INSCRIPCIONES@, id_anio_lectivo))),
{
    match conn {
        None => Err(CERRADO.to_owned()),
        Some(c) => para_docente(list_inscripciones_sql(c, id_anio_lectivo)),
    }
}

pub fn inscribir_alumno(conn: Option<&mut Base>, id_alumno: i64, id_curso: i64) -> (r: Result<AlumnoCurso, String>)
    ensures
        conn is None ==> (r matches Err(m) && m@ == CERRADO@),
        conn is Some ==> respuesta_con(r, Set::empty()),
        conn matches Some(b) ==> (alta((*b).enviadas@, final(b).enviadas@, Envio::Ejecuta(INSCRIBIR@, seq![Dato::Entero(id_alumno), Dato::Entero(id_curso)]), GET_INSCRIPCION@, r is Ok)),
{
    match conn {
        None => Err(CERRADO.to_owned()),
        Some(c) => para_docente(inscribir_sql(c, id_alumno, id_curso)),
    }
}

pub fn desinscribir_alumno(conn: Option<&mut Base>, id_alumno: i64, id_curso: i64) -> (r: Result<(), String>)
    ensures
        conn is None ==> (r matches Err(m) && m@ == CERRADO@),
        conn is Some ==> respuesta_con(r, Set::empty()),
        conn matches Some(b) ==> (r is Ok ==> final(b).enviadas@ == (*b).enviadas@.push(contar_inscripcion(id_alumno, id_curso)) + transaccion(pasos_desinscribir_spec(id_alumno, id_curso))),
        conn matches Some(b) ==> (r is Err ==> final(b).enviadas@ == (*b).enviadas@.push(contar_inscripcion(id_alumno, id_curso)) || comienzo((*b).enviadas@.push(contar_inscripcion(id_alumno, id_curso)), final(b).enviadas@, transaccion(pasos_desinscribir_spec(id_alumno, id_curso)))),
{
    match conn {
        None => Err(CERRADO.to_owned()),
        Some(c) => para_docente(desinscribir_sql(c, id_alumno, id_curso)),
    }
}

/// Volver a validar un alumno ya validado lo deja igual.
pub proof fn ley_alumno_estable(w: AlumnoWrite, x: AlumnoWrite)
    requires
        alumno_write_ok(Ok(x), w),
    ensures
        alumno_write_ok(Ok(x), x),
{
    ley_obligatorio_estable(w.nombre@, "nombre"@);
    ley_obligatorio_estable(w.apellido@, "apellido"@);
}


/// La baja de un alumno de un curso borra, cada una con (alumno, curso), en cuatro tablas: sus
/// notas, sus observaciones, su asistencia y la inscripción; primero las notas y la inscripción
/// al final, y ninguna sentencia se repite.
pub proof fn ley_baja_borra_cada_tabla(id_alumno: i64, id_curso: i64)
    ensures
        pasos_desinscribir_spec(id_alumno, id_curso).len() == 4,
        forall|i: int| 0 <= i < 4 ==> (#[trigger] pasos_desinscribir_spec(id_alumno, id_curso)[i]).1
            == seq![Valor::Entero(id_alumno), Valor::Entero(id_curso)],
        forall|i: int, j: int| 0 <= i < j < 4 ==> pasos_desinscribir_spec(id_alumno, id_curso)[i].0
            != pasos_desinscribir_spec(id_alumno, id_curso)[j].0,
        pasos_desinscribir_spec(id_alumno, id_curso)[0].0.take(17) == "DELETE FROM notas"@,
        exists|i: int| 0 <= i < 4 && (#[trigger] pasos_desinscribir_spec(id_alumno, id_curso)[i]).0.take(25) == "DELETE FROM observaciones"@,
        exists|i: int| 0 <= i < 4 && (#[trigger] pasos_desinscribir_spec(id_alumno, id_curso)[i]).0.take(23) == "DELETE FROM asistencias"@,
        pasos_desinscribir_spec(id_alumno, id_curso)[3].0.take(26) == "DELETE FROM alumnos_cursos"@,
{
    reveal_strlit("DELETE FROM notas\n             WHERE id_alumno = ?1\n               AND id_evaluacion IN (SELECT id FROM evaluaciones WHERE id_curso = ?2)");
    reveal_strlit("DELETE FROM observaciones WHERE id_alumno = ?1 AND id_curso = ?2");
    reveal_strlit("DELETE FROM asistencias WHERE id_alumno = ?1 AND id_curso = ?2");
    reveal_strlit("DELETE FROM alumnos_cursos WHERE id_alumno = ?1 AND id_curso = ?2");
    reveal_strlit("DELETE FROM notas");
    reveal_strlit("DELETE FROM observaciones");
    reveal_strlit("DELETE FROM asistencias");
    reveal_strlit("DELETE FROM alumnos_cursos");
    let p = pasos_desinscribir_spec(id_alumno, id_curso);
    assert(p[0].0.take(17) =~= "DELETE FROM notas"@);
    assert(p[1].0.take(25) =~= "DELETE FROM observaciones"@);
    assert(p[2].0.take(23) =~= "DELETE FROM asistencias"@);
    assert(p[3].0.take(26) =~= "DELETE FROM alumnos_cursos"@);
    assert(p[0].0[12] != p[1].0[12]);
    assert(p[0].0[12] != p[2].0[12]);
    assert(p[0].0[12] != p[3].0[12]);
    assert(p[1].0[12] != p[2].0[12]);
    assert(p[1].0[12] != p[3].0[12]);
    assert(p[2].0[13] != p[3].0[13]);
}

} // verus!
