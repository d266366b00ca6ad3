use adm_cursos::alumnos::{
    alumno_from_write, desinscribir_sql, get_alumno_sql, inscribir_sql, insert_alumno_sql, list_alumnos_de_curso_sql,
    list_alumnos_sql, list_inscripciones_sql, create_alumno, update_alumno_sql, delete_alumno_sql,
};
use adm_cursos::db::{Base, map_sql_error, ErrorDb};
use adm_cursos::domain::AlumnoWrite;
use adm_cursos::esquema::prepare_connection;
use rusqlite::Connection;

fn memory() -> Connection {
    let conn = Connection::open_in_memory().expect("memory sqlite");
    prepare_connection(&mut Base::nueva(&conn)).expect("prepare");
    conn
}

fn write(nombre: &str, apellido: &str) -> AlumnoWrite {
    AlumnoWrite { nombre: nombre.into(), apellido: apellido.into() }
}

fn seed_dos_cursos(conn: &Connection) -> (i64, i64) {
    conn.execute("INSERT INTO escuelas (id_jurisdiccion, nombre) VALUES (1, 'ENET Nº 1')", []).unwrap();
    conn.execute("INSERT INTO materias (nombre) VALUES ('English')", []).unwrap();
    conn.execute("INSERT INTO materias (nombre) VALUES ('Plástica')", []).unwrap();
    let grado: i64 = conn
        .query_row(
            "SELECT c.id FROM ciclos c JOIN niveles n ON n.id = c.id_nivel
             WHERE n.codigo = 'primaria' AND c.orden = 3",
            [],
            |row| row.get(0),
        )
        .unwrap();
    conn.execute(
        "INSERT INTO cursos (nombre, id_escuela, id_turno, id_division, id_ciclo, id_materia, id_anio_lectivo)
         VALUES ('3° A English', 1, 1, 1, ?1, 1, 1)",
        [grado],
    )
    .unwrap();
    let c1 = conn.last_insert_rowid();
    conn.execute(
        "INSERT INTO cursos (nombre, id_escuela, id_turno, id_division, id_ciclo, id_materia, id_anio_lectivo)
         VALUES ('3° A Plástica', 1, 1, 1, ?1, 2, 1)",
        [grado],
    )
    .unwrap();
    let c2 = conn.last_insert_rowid();
    (c1, c2)
}

#[test]
fn alta_y_listado_por_apellido() {
    let conn = memory();
    insert_alumno_sql(&mut Base::nueva(&conn), &write("Ana", "Zamora")).unwrap();
    insert_alumno_sql(&mut Base::nueva(&conn), &write("Juan", "Pérez")).unwrap();
    let rows = list_alumnos_sql(&mut Base::nueva(&conn)).unwrap();
    assert_eq!(rows.len(), 2);
    assert_eq!(rows[0].apellido, "Pérez");
    assert_eq!(rows[1].apellido, "Zamora");
}

#[test]
fn homonimos_permitidos() {
    let conn = memory();
    insert_alumno_sql(&mut Base::nueva(&conn), &write("Juan", "Pérez")).unwrap();
    insert_alumno_sql(&mut Base::nueva(&conn), &write("Juan", "Pérez")).unwrap();
    let rows = list_alumnos_sql(&mut Base::nueva(&conn)).unwrap();
    assert_eq!(rows.len(), 2);
    assert_ne!(rows[0].id, rows[1].id);
}

#[test]
fn mismo_alumno_en_dos_dictados() {
    let conn = memory();
    let (c1, c2) = seed_dos_cursos(&conn);
    let a = insert_alumno_sql(&mut Base::nueva(&conn), &write("Juan", "Pérez")).unwrap();
    inscribir_sql(&mut Base::nueva(&conn), a.id, c1).unwrap();
    inscribir_sql(&mut Base::nueva(&conn), a.id, c2).unwrap();
    assert_eq!(list_alumnos_de_curso_sql(&mut Base::nueva(&conn), c1).unwrap().len(), 1);
    assert_eq!(list_alumnos_de_curso_sql(&mut Base::nueva(&conn), c2).unwrap().len(), 1);
    let insc = list_inscripciones_sql(&mut Base::nueva(&conn), 1).unwrap();
    assert_eq!(insc.len(), 2);
}

#[test]
fn inscripcion_unica() {
    let conn = memory();
    let (c1, _) = seed_dos_cursos(&conn);
    let a = insert_alumno_sql(&mut Base::nueva(&conn), &write("Juan", "Pérez")).unwrap();
    inscribir_sql(&mut Base::nueva(&conn), a.id, c1).unwrap();
    let err = inscribir_sql(&mut Base::nueva(&conn), a.id, c1).unwrap_err();
    assert_eq!(map_sql_error(err), "Ese alumno ya está inscripto en este curso.");
}

#[test]
fn baja_no_borra_persona() {
    let conn = memory();
    let (c1, _) = seed_dos_cursos(&conn);
    let a = insert_alumno_sql(&mut Base::nueva(&conn), &write("Juan", "Pérez")).unwrap();
    inscribir_sql(&mut Base::nueva(&conn), a.id, c1).unwrap();
    desinscribir_sql(&mut Base::nueva(&conn), a.id, c1).unwrap();
    assert!(list_alumnos_de_curso_sql(&mut Base::nueva(&conn), c1).unwrap().is_empty());
    assert_eq!(get_alumno_sql(&mut Base::nueva(&conn), a.id).unwrap().apellido, "Pérez");
}

#[test]
fn baja_borra_notas_de_ese_dictado() {
    let conn = memory();
    let (c1, c2) = seed_dos_cursos(&conn);
    let a = insert_alumno_sql(&mut Base::nueva(&conn), &write("Juan", "Pérez")).unwrap();
    inscribir_sql(&mut Base::nueva(&conn), a.id, c1).unwrap();
    inscribir_sql(&mut Base::nueva(&conn), a.id, c2).unwrap();
    conn.execute(
        "INSERT INTO evaluaciones (id_curso, id_tipo_evaluacion, titulo, fecha)
         VALUES (?1, 1, 'Escrito 1', '2026-05-12')",
        [c1],
    )
    .unwrap();
    let ev1 = conn.last_insert_rowid();
    conn.execute(
        "INSERT INTO evaluaciones (id_curso, id_tipo_evaluacion, titulo, fecha)
         VALUES (?1, 1, 'Escrito 1', '2026-05-12')",
        [c2],
    )
    .unwrap();
    let ev2 = conn.last_insert_rowid();
    conn.execute("INSERT INTO notas (id_evaluacion, id_alumno, valor, ausente) VALUES (?1, ?2, '8', 0)", [ev1, a.id])
        .unwrap();
    conn.execute("INSERT INTO notas (id_evaluacion, id_alumno, valor, ausente) VALUES (?1, ?2, '7', 0)", [ev2, a.id])
        .unwrap();
    desinscribir_sql(&mut Base::nueva(&conn), a.id, c1).unwrap();
    let n1: i64 = conn.query_row("SELECT COUNT(*) FROM notas WHERE id_evaluacion = ?1", [ev1], |row| row.get(0)).unwrap();
    let n2: i64 = conn.query_row("SELECT COUNT(*) FROM notas WHERE id_evaluacion = ?1", [ev2], |row| row.get(0)).unwrap();
    assert_eq!(n1, 0);
    assert_eq!(n2, 1);
}

#[test]
fn recorta_espacios_de_nombre_y_apellido() {
    let conn = memory();
    let w = alumno_from_write(AlumnoWrite { nombre: "  Ana  ".into(), apellido: "  Gómez  ".into() }).unwrap();
    assert_eq!(w.nombre, "Ana");
    assert_eq!(w.apellido, "Gómez");
    let saved = insert_alumno_sql(&mut Base::nueva(&conn), &w).unwrap();
    assert_eq!(saved.nombre, "Ana");
    assert_eq!(saved.apellido, "Gómez");
}

#[test]
fn alumno_sin_nombre_o_apellido() {
    assert_eq!(alumno_from_write(write("  ", "Pérez")).unwrap_err(), "El nombre es obligatorio.");
    assert_eq!(alumno_from_write(write("Juan", "")).unwrap_err(), "El apellido es obligatorio.");
    assert_eq!(alumno_from_write(write("", "")).unwrap_err(), "El nombre es obligatorio.");
}

#[test]
fn alta_con_cuaderno_cerrado() {
    assert_eq!(create_alumno(None, write("Juan", "Pérez")).unwrap_err(), "El cuaderno está cerrado. Ingresá la clave.");
    assert_eq!(create_alumno(None, write("", "Pérez")).unwrap_err(), "El nombre es obligatorio.");
    let conn = memory();
    assert_eq!(create_alumno(Some(&mut Base::nueva(&conn)), write(" Juan ", "Pérez")).unwrap().nombre, "Juan");
}

#[test]
fn baja_de_inscripcion_inexistente() {
    let conn = memory();
    let (c1, _) = seed_dos_cursos(&conn);
    let a = insert_alumno_sql(&mut Base::nueva(&conn), &write("Juan", "Pérez")).unwrap();
    assert!(matches!(desinscribir_sql(&mut Base::nueva(&conn), a.id, c1), Err(ErrorDb::NoEncontrado)));
    assert_eq!(map_sql_error(delete_alumno_sql(&mut Base::nueva(&conn), 999).unwrap_err()), "No se encontró el registro.");
    assert!(matches!(update_alumno_sql(&mut Base::nueva(&conn), 999, &write("A", "B")), Err(ErrorDb::NoEncontrado)));
}
