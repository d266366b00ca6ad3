use adm_cursos::db::{Base, map_sql_error};
use adm_cursos::domain::ObservacionWrite;
use adm_cursos::esquema::prepare_connection;
use adm_cursos::observaciones::{
    delete_observacion_sql, insert_observacion_sql, list_observaciones_de_alumno_sql, list_observaciones_de_curso_sql,
    list_observaciones_sql, observacion_from_write, update_observacion_sql, decidir_observacion,
};
use adm_cursos::validar::{require_fecha, require_texto};
use rusqlite::Connection;

fn memory() -> Connection {
    let conn = Connection::open_in_memory().expect("memory sqlite");
    prepare_connection(&mut Base::nueva(&conn)).expect("prepare");
    conn
}

fn tipo(conn: &Connection, codigo: &str) -> i64 {
    conn.query_row("SELECT id FROM tipos_observacion WHERE codigo = ?1", [codigo], |row| row.get(0)).unwrap()
}

fn seed(conn: &Connection) -> (i64, i64, i64, i64, i64) {
    conn.execute("INSERT INTO escuelas (id_jurisdiccion, nombre) VALUES (1, 'ENET Nº 1')", []).unwrap();
    conn.execute("INSERT INTO materias (nombre) VALUES ('English')", []).unwrap();
    let grado: i64 = conn
        .query_row(
            "SELECT c.id FROM ciclos c JOIN niveles n ON n.id = c.id_nivel
             WHERE n.codigo = 'primaria' AND c.orden = 3",
            [],
            |row| row.get(0),
        )
        .unwrap();
    conn.execute(
        "INSERT INTO cursos (nombre, id_escuela, id_turno, id_division, id_ciclo, id_materia, id_anio_lectivo)
         VALUES ('3° B English', 1, 1, 1, ?1, 1, 1)",
        [grado],
    )
    .unwrap();
    let curso = conn.last_insert_rowid();
    conn.execute(
        "INSERT INTO cursos (nombre, id_escuela, id_turno, id_division, id_ciclo, id_materia, id_anio_lectivo)
         VALUES ('3° A English', 1, 1, 2, ?1, 1, 1)",
        [grado],
    )
    .unwrap();
    let otro = conn.last_insert_rowid();
    conn.execute("INSERT INTO alumnos (nombre, apellido) VALUES ('Juan', 'Pérez')", []).unwrap();
    let juan = conn.last_insert_rowid();
    conn.execute("INSERT INTO alumnos_cursos (id_alumno, id_curso) VALUES (?1, ?2)", [juan, curso]).unwrap();
    (curso, otro, juan, tipo(conn, "seguimiento"), tipo(conn, "academica"))
}

fn write(id_alumno: i64, id_curso: i64, id_tipo: i64, fecha: &str, texto: &str) -> ObservacionWrite {
    ObservacionWrite { id_alumno, id_curso, id_tipo_observacion: id_tipo, fecha: fecha.into(), texto: texto.into() }
}

#[test]
fn alta_inscrito() {
    let conn = memory();
    let (curso, _, juan, seguimiento, _) = seed(&conn);
    let saved = insert_observacion_sql(
        &mut Base::nueva(&conn),
        observacion_from_write(write(juan, curso, seguimiento, "2026-09-09", "seguimiento — Juan Pérez — 3° B")).unwrap(),
    )
    .unwrap();
    assert_eq!(saved.id_alumno, juan);
    assert_eq!(saved.fecha, "2026-09-09");
    assert_eq!(saved.id_tipo_observacion, seguimiento);
    assert_eq!(list_observaciones_sql(&mut Base::nueva(&conn), 1).unwrap().len(), 1);
    assert_eq!(list_observaciones_de_curso_sql(&mut Base::nueva(&conn), curso).unwrap().len(), 1);
    assert_eq!(list_observaciones_de_alumno_sql(&mut Base::nueva(&conn), juan, 1).unwrap().len(), 1);
}

#[test]
fn observaciones_no_inscrito_falla() {
    let conn = memory();
    let (curso, _, _, seguimiento, _) = seed(&conn);
    conn.execute("INSERT INTO alumnos (nombre, apellido) VALUES ('Luis', 'Sosa')", []).unwrap();
    let luis = conn.last_insert_rowid();
    let err = insert_observacion_sql(&mut Base::nueva(&conn), observacion_from_write(write(luis, curso, seguimiento, "2026-09-09", "nota")).unwrap())
        .unwrap_err();
    assert_eq!(map_sql_error(err), "El alumno tiene que estar inscripto en el curso para anotar una observación.");
}

#[test]
fn observaciones_alumno_de_otro_curso_falla() {
    let conn = memory();
    let (curso, otro, _, seguimiento, _) = seed(&conn);
    conn.execute("INSERT INTO alumnos (nombre, apellido) VALUES ('Luis', 'Sosa')", []).unwrap();
    let luis = conn.last_insert_rowid();
    conn.execute("INSERT INTO alumnos_cursos (id_alumno, id_curso) VALUES (?1, ?2)", [luis, otro]).unwrap();
    let err = insert_observacion_sql(&mut Base::nueva(&conn), observacion_from_write(write(luis, curso, seguimiento, "2026-09-09", "nota")).unwrap())
        .unwrap_err();
    assert_eq!(map_sql_error(err), "El alumno tiene que estar inscripto en el curso para anotar una observación.");
}

#[test]
fn update_y_delete() {
    let conn = memory();
    let (curso, _, juan, seguimiento, academica) = seed(&conn);
    let saved =
        insert_observacion_sql(&mut Base::nueva(&conn), observacion_from_write(write(juan, curso, seguimiento, "2026-09-09", "inicial")).unwrap())
            .unwrap();
    let updated = update_observacion_sql(
        &mut Base::nueva(&conn),
        saved.id,
        observacion_from_write(write(juan, curso, academica, "2026-09-10", "cambió")).unwrap(),
    )
    .unwrap();
    assert_eq!(updated.texto, "cambió");
    assert_eq!(updated.id_tipo_observacion, academica);
    assert_eq!(updated.fecha, "2026-09-10");
    delete_observacion_sql(&mut Base::nueva(&conn), saved.id).unwrap();
    assert_eq!(list_observaciones_sql(&mut Base::nueva(&conn), 1).unwrap().len(), 0);
}

#[test]
fn observaciones_list_filtra_anio() {
    let conn = memory();
    let (curso, _, juan, seguimiento, _) = seed(&conn);
    insert_observacion_sql(&mut Base::nueva(&conn), observacion_from_write(write(juan, curso, seguimiento, "2026-09-09", "este año")).unwrap())
        .unwrap();
    conn.execute("INSERT INTO anios_lectivos (anio, activo) VALUES (2025, 0)", []).unwrap();
    let anio_viejo = conn.last_insert_rowid();
    let grado: i64 = conn
        .query_row(
            "SELECT c.id FROM ciclos c JOIN niveles n ON n.id = c.id_nivel
             WHERE n.codigo = 'primaria' AND c.orden = 3",
            [],
            |row| row.get(0),
        )
        .unwrap();
    conn.execute(
        "INSERT INTO cursos (nombre, id_escuela, id_turno, id_division, id_ciclo, id_materia, id_anio_lectivo)
         VALUES ('3° B 2025', 1, 1, 1, ?1, 1, ?2)",
        [grado, anio_viejo],
    )
    .unwrap();
    let curso_viejo = conn.last_insert_rowid();
    conn.execute("INSERT INTO alumnos_cursos (id_alumno, id_curso) VALUES (?1, ?2)", [juan, curso_viejo]).unwrap();
    insert_observacion_sql(
        &mut Base::nueva(&conn),
        observacion_from_write(write(juan, curso_viejo, seguimiento, "2025-04-01", "año anterior")).unwrap(),
    )
    .unwrap();
    assert_eq!(list_observaciones_sql(&mut Base::nueva(&conn), 1).unwrap().len(), 1);
    assert_eq!(list_observaciones_de_alumno_sql(&mut Base::nueva(&conn), juan, 1).unwrap().len(), 1);
    assert_eq!(list_observaciones_de_alumno_sql(&mut Base::nueva(&conn), juan, anio_viejo).unwrap().len(), 1);
}

#[test]
fn texto_vacio() {
    assert_eq!(require_texto("   ").unwrap_err(), "El texto es obligatorio.");
}

#[test]
fn observaciones_fecha_invalida() {
    assert_eq!(require_fecha("09/09/2026").unwrap_err(), "La fecha debe ser YYYY-MM-DD.");
    assert!(require_fecha("2026-09-09").is_ok());
}

#[test]
fn tipo_y_curso_de_la_observacion() {
    let conn = memory();
    let (curso, _, juan, _, _) = seed(&conn);
    let err = insert_observacion_sql(&mut Base::nueva(&conn), write(juan, curso, 999, "2026-09-09", "x")).unwrap_err();
    assert_eq!(map_sql_error(err), "El tipo de observación no es válido.");
    let err = insert_observacion_sql(&mut Base::nueva(&conn), write(juan, 999, 1, "2026-09-09", "x")).unwrap_err();
    assert_eq!(map_sql_error(err), "No se encontró el curso.");
    assert!(decidir_observacion(true, true, true).is_ok());
    assert_eq!(require_texto("  hola ").unwrap(), "hola");
    assert_eq!(observacion_from_write(write(1, 1, 1, "x", " ")).unwrap_err(), "La fecha debe ser YYYY-MM-DD.");
    assert_eq!(observacion_from_write(write(1, 1, 1, "2026-09-09", " ")).unwrap_err(), "El texto es obligatorio.");
}
