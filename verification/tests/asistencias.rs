use adm_cursos::asistencias::{
    asistencia_from_write, decidir_asistencia, id_estado_presente, list_asistencias_sql, marcar_presentes_sql,
    upsert_asistencia_sql, list_asistencias,
};
use adm_cursos::db::{Base, map_sql_error, ErrorDb};
use adm_cursos::domain::AsistenciaWrite;
use adm_cursos::esquema::prepare_connection;
use adm_cursos::validar::require_fecha;
use rusqlite::Connection;

fn memory() -> Connection {
    let conn = Connection::open_in_memory().expect("memory sqlite");
    prepare_connection(&mut Base::nueva(&conn)).expect("prepare");
    conn
}

fn seed(conn: &Connection) -> (i64, i64, i64, i64, i64) {
    conn.execute("INSERT INTO escuelas (id_jurisdiccion, nombre) VALUES (1, 'ENET Nº 1')", []).unwrap();
    conn.execute("INSERT INTO materias (nombre) VALUES ('English')", []).unwrap();
    let grado: i64 = conn
        .query_row(
            "SELECT c.id FROM ciclos c JOIN niveles n ON n.id = c.id_nivel
             WHERE n.codigo = 'primaria' AND c.orden = 3",
            [],
            |row| row.get(0),
        )
        .unwrap();
    conn.execute(
        "INSERT INTO cursos (nombre, id_escuela, id_turno, id_division, id_ciclo, id_materia, id_anio_lectivo)
         VALUES ('3° B English', 1, 1, 1, ?1, 1, 1)",
        [grado],
    )
    .unwrap();
    let curso = conn.last_insert_rowid();
    conn.execute(
        "INSERT INTO cursos (nombre, id_escuela, id_turno, id_division, id_ciclo, id_materia, id_anio_lectivo)
         VALUES ('3° A English', 1, 1, 2, ?1, 1, 1)",
        [grado],
    )
    .unwrap();
    let otro = conn.last_insert_rowid();
    conn.execute("INSERT INTO alumnos (nombre, apellido) VALUES ('Juan', 'Pérez')", []).unwrap();
    let juan = conn.last_insert_rowid();
    conn.execute("INSERT INTO alumnos (nombre, apellido) VALUES ('Ana', 'García')", []).unwrap();
    let ana = conn.last_insert_rowid();
    conn.execute("INSERT INTO alumnos_cursos (id_alumno, id_curso) VALUES (?1, ?2)", [juan, curso]).unwrap();
    conn.execute("INSERT INTO alumnos_cursos (id_alumno, id_curso) VALUES (?1, ?2)", [ana, curso]).unwrap();
    (curso, otro, juan, ana, id_estado_presente(&mut Base::nueva(conn)).unwrap())
}

fn estado(conn: &Connection, codigo: &str) -> i64 {
    conn.query_row("SELECT id FROM estados_asistencia WHERE codigo = ?1", [codigo], |row| row.get(0)).unwrap()
}

fn write(id_curso: i64, id_alumno: i64, fecha: &str, id_estado: i64) -> AsistenciaWrite {
    AsistenciaWrite { id_curso, id_alumno, fecha: fecha.into(), id_estado_asistencia: id_estado }
}

#[test]
fn alta_presente_inscrito() {
    let conn = memory();
    let (curso, _, juan, _, presente) = seed(&conn);
    let saved =
        upsert_asistencia_sql(&mut Base::nueva(&conn), asistencia_from_write(write(curso, juan, "2026-09-10", presente)).unwrap()).unwrap();
    assert_eq!(saved.id_alumno, juan);
    assert_eq!(saved.fecha, "2026-09-10");
    assert_eq!(saved.id_estado_asistencia, presente);
    assert_eq!(list_asistencias_sql(&mut Base::nueva(&conn), curso, "2026-09-10").unwrap().len(), 1);
}

#[test]
fn asistencias_no_inscrito_falla() {
    let conn = memory();
    let (curso, _, _, _, presente) = seed(&conn);
    conn.execute("INSERT INTO alumnos (nombre, apellido) VALUES ('Luis', 'Sosa')", []).unwrap();
    let luis = conn.last_insert_rowid();
    let err = upsert_asistencia_sql(&mut Base::nueva(&conn), asistencia_from_write(write(curso, luis, "2026-09-10", presente)).unwrap())
        .unwrap_err();
    assert_eq!(map_sql_error(err), "El alumno tiene que estar inscripto en el curso para pasar lista.");
}

#[test]
fn asistencias_alumno_de_otro_curso_falla() {
    let conn = memory();
    let (curso, otro, _, _, presente) = seed(&conn);
    conn.execute("INSERT INTO alumnos (nombre, apellido) VALUES ('Luis', 'Sosa')", []).unwrap();
    let luis = conn.last_insert_rowid();
    conn.execute("INSERT INTO alumnos_cursos (id_alumno, id_curso) VALUES (?1, ?2)", [luis, otro]).unwrap();
    let err = upsert_asistencia_sql(&mut Base::nueva(&conn), asistencia_from_write(write(curso, luis, "2026-09-10", presente)).unwrap())
        .unwrap_err();
    assert_eq!(map_sql_error(err), "El alumno tiene que estar inscripto en el curso para pasar lista.");
}

#[test]
fn upsert_cambia_estado_misma_fecha() {
    let conn = memory();
    let (curso, _, juan, _, presente) = seed(&conn);
    let ausente = estado(&conn, "ausente");
    upsert_asistencia_sql(&mut Base::nueva(&conn), asistencia_from_write(write(curso, juan, "2026-09-10", presente)).unwrap()).unwrap();
    let updated =
        upsert_asistencia_sql(&mut Base::nueva(&conn), asistencia_from_write(write(curso, juan, "2026-09-10", ausente)).unwrap()).unwrap();
    assert_eq!(updated.id_estado_asistencia, ausente);
    assert_eq!(list_asistencias_sql(&mut Base::nueva(&conn), curso, "2026-09-10").unwrap().len(), 1);
}

#[test]
fn list_filtra_fecha() {
    let conn = memory();
    let (curso, _, juan, _, presente) = seed(&conn);
    upsert_asistencia_sql(&mut Base::nueva(&conn), asistencia_from_write(write(curso, juan, "2026-09-10", presente)).unwrap()).unwrap();
    upsert_asistencia_sql(&mut Base::nueva(&conn), asistencia_from_write(write(curso, juan, "2026-09-11", presente)).unwrap()).unwrap();
    assert_eq!(list_asistencias_sql(&mut Base::nueva(&conn), curso, "2026-09-10").unwrap().len(), 1);
    assert_eq!(list_asistencias_sql(&mut Base::nueva(&conn), curso, "2026-09-12").unwrap().len(), 0);
}

#[test]
fn marcar_todos_presentes() {
    let conn = memory();
    let (curso, _, _, _, presente) = seed(&conn);
    let rows = marcar_presentes_sql(&mut Base::nueva(&conn), curso, "2026-09-10").unwrap();
    assert_eq!(rows.len(), 2);
    assert!(rows.iter().all(|a| a.id_estado_asistencia == presente));
}

#[test]
fn asistencias_fecha_invalida() {
    assert_eq!(require_fecha("10/09/2026").unwrap_err(), "La fecha debe ser YYYY-MM-DD.");
    assert!(require_fecha("2026-09-10").is_ok());
}

#[test]
fn pase_de_lista_curso_y_estado_inexistentes() {
    let conn = memory();
    let (curso, _, juan, _, _) = seed(&conn);
    let err = upsert_asistencia_sql(&mut Base::nueva(&conn), write(999, juan, "2026-09-10", 1)).unwrap_err();
    assert_eq!(map_sql_error(err), "No se encontró el curso.");
    let err = upsert_asistencia_sql(&mut Base::nueva(&conn), write(curso, juan, "2026-09-10", 999)).unwrap_err();
    assert_eq!(map_sql_error(err), "El estado de asistencia no es válido.");
    let err = marcar_presentes_sql(&mut Base::nueva(&conn), 999, "2026-09-10").unwrap_err();
    assert_eq!(map_sql_error(err), "No se encontró el curso.");
}

#[test]
fn decision_del_pase_de_lista() {
    assert!(decidir_asistencia(true, true, true).is_ok());
    assert!(matches!(decidir_asistencia(false, false, false), Err(ErrorDb::App(m)) if m == "No se encontró el curso."));
    assert!(matches!(decidir_asistencia(true, false, true), Err(ErrorDb::App(m)) if m == "El estado de asistencia no es válido."));
    assert!(
        matches!(decidir_asistencia(true, true, false), Err(ErrorDb::App(m)) if m == "El alumno tiene que estar inscripto en el curso para pasar lista.")
    );
}

#[test]
fn fecha_recortada_y_rangos() {
    assert_eq!(require_fecha("  2026-09-10 ").unwrap(), "2026-09-10");
    assert_eq!(require_fecha("1999-09-10").unwrap_err(), "La fecha no es válida.");
    assert_eq!(require_fecha("2026-13-10").unwrap_err(), "La fecha no es válida.");
    assert_eq!(require_fecha("2026-02-32").unwrap_err(), "La fecha no es válida.");
    assert_eq!(require_fecha("2026-02-00").unwrap_err(), "La fecha no es válida.");
    assert_eq!(require_fecha("2026-0a-10").unwrap_err(), "La fecha debe ser YYYY-MM-DD.");
    let w = asistencia_from_write(write(1, 2, "x", 3)).unwrap_err();
    assert_eq!(w, "La fecha debe ser YYYY-MM-DD.");
    assert_eq!(list_asistencias(None, 1, "2026-09-10".into()).unwrap_err(), "El cuaderno está cerrado. Ingresá la clave.");
    assert_eq!(list_asistencias(None, 1, "10/09".into()).unwrap_err(), "La fecha debe ser YYYY-MM-DD.");
}

#[test]
fn fecha_solo_cifras() {
    assert_eq!(require_fecha("2026-+9-10").unwrap_err(), "La fecha debe ser YYYY-MM-DD.");
    assert_eq!(require_fecha("+026-09-10").unwrap_err(), "La fecha debe ser YYYY-MM-DD.");
    assert_eq!(require_fecha("2026-09-+1").unwrap_err(), "La fecha debe ser YYYY-MM-DD.");
    assert_eq!(require_fecha("2026-13-10").unwrap_err(), "La fecha no es válida.");
    assert_eq!(require_fecha(" 2026-09-10 ").unwrap(), "2026-09-10");
}
