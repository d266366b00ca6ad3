use adm_cursos::cursos::{curso_from_write, insert_curso_sql, list_cursos_sql, get_curso_sql, update_curso_sql};
use adm_cursos::db::{Base, map_sql_error};
use adm_cursos::domain::CursoWrite;
use adm_cursos::esquema::prepare_connection;
use rusqlite::Connection;

fn memory() -> Connection {
    let conn = Connection::open_in_memory().expect("memory sqlite");
    prepare_connection(&mut Base::nueva(&conn)).expect("prepare");
    conn
}

fn seed_escuela_materia(conn: &Connection) {
    conn.execute("INSERT INTO escuelas (id_jurisdiccion, nombre, nombre_corto) VALUES (1, 'ENET Nº 1', 'ENET')", [])
        .unwrap();
    conn.execute("INSERT INTO materias (nombre) VALUES ('English')", []).unwrap();
}

fn ciclo(conn: &Connection, nivel: &str, orden: i64) -> i64 {
    conn.query_row(
        "SELECT c.id FROM ciclos c JOIN niveles n ON n.id = c.id_nivel
         WHERE n.codigo = ?1 AND c.orden = ?2",
        (nivel, orden),
        |row| row.get(0),
    )
    .unwrap()
}

fn write(nombre: &str, id_ciclo: i64, id_anio: i64) -> CursoWrite {
    CursoWrite {
        nombre: nombre.into(),
        id_escuela: 1,
        id_turno: 1,
        id_division: 1,
        id_ciclo,
        id_materia: 1,
        id_anio_lectivo: id_anio,
        orientacion: None,
    }
}

#[test]
fn grado_y_anio_mismo_grupo_conviven() {
    let conn = memory();
    seed_escuela_materia(&conn);
    let grado = ciclo(&conn, "primaria", 3);
    let anio = ciclo(&conn, "secundaria", 3);
    insert_curso_sql(&mut Base::nueva(&conn), &write("3° A English — primaria", grado, 1)).unwrap();
    insert_curso_sql(&mut Base::nueva(&conn), &write("3° A English — ENET", anio, 1)).unwrap();
    let n = list_cursos_sql(&mut Base::nueva(&conn), 1).unwrap();
    assert_eq!(n.len(), 2);
}

#[test]
fn unique_dictado_mismo_anio() {
    let conn = memory();
    seed_escuela_materia(&conn);
    let grado = ciclo(&conn, "primaria", 3);
    insert_curso_sql(&mut Base::nueva(&conn), &write("3° A English", grado, 1)).unwrap();
    let err = insert_curso_sql(&mut Base::nueva(&conn), &write("otro nombre", grado, 1)).unwrap_err();
    assert_eq!(map_sql_error(err), "Ya existe un dictado con esa escuela, grupo, materia y año.");
}

#[test]
fn list_filtra_anio_lectivo() {
    let conn = memory();
    seed_escuela_materia(&conn);
    conn.execute("INSERT INTO anios_lectivos (anio, activo) VALUES (2027, 0)", []).unwrap();
    let anio_2027: i64 = conn.query_row("SELECT id FROM anios_lectivos WHERE anio = 2027", [], |row| row.get(0)).unwrap();
    let grado = ciclo(&conn, "primaria", 1);
    insert_curso_sql(&mut Base::nueva(&conn), &write("1° A 2026", grado, 1)).unwrap();
    insert_curso_sql(&mut Base::nueva(&conn), &write("1° A 2027", grado, anio_2027)).unwrap();
    assert_eq!(list_cursos_sql(&mut Base::nueva(&conn), 1).unwrap().len(), 1);
    assert_eq!(list_cursos_sql(&mut Base::nueva(&conn), anio_2027).unwrap().len(), 1);
}

#[test]
fn curso_nombre_y_orientacion() {
    let mut w = write("  4° B  ", 1, 1);
    w.orientacion = Some("   ".into());
    let n = curso_from_write(w).unwrap();
    assert_eq!(n.nombre, "4° B");
    assert_eq!(n.orientacion, None);
    let mut w = write("5° A", 1, 1);
    w.orientacion = Some(" Economía ".into());
    assert_eq!(curso_from_write(w).unwrap().orientacion.as_deref(), Some("Economía"));
    assert_eq!(curso_from_write(write(" ", 1, 1)).unwrap_err(), "El nombre es obligatorio.");
}

#[test]
fn actualiza_curso() {
    let conn = memory();
    seed_escuela_materia(&conn);
    let grado = ciclo(&conn, "primaria", 3);
    let c = insert_curso_sql(&mut Base::nueva(&conn), &write("3° A", grado, 1)).unwrap();
    let mut w = write("3° A bis", grado, 1);
    w.orientacion = Some("Arte".into());
    let u = update_curso_sql(&mut Base::nueva(&conn), c.id, &w).unwrap();
    assert_eq!(u.nombre, "3° A bis");
    assert_eq!(get_curso_sql(&mut Base::nueva(&conn), c.id).unwrap().orientacion.as_deref(), Some("Arte"));
    assert_eq!(map_sql_error(update_curso_sql(&mut Base::nueva(&conn), 999, &w).unwrap_err()), "No se encontró el registro.");
}
