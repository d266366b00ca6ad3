use adm_cursos::db::{Base, map_sql_error};
use adm_cursos::domain::EscuelaWrite;
use adm_cursos::esquema::prepare_connection;
use adm_cursos::maestras::{
    activar_anio_sql, create_anio_lectivo, escuela_from_write, insert_anio_sql, insert_escuela_sql, insert_materia_sql,
    limpiar_anio_sql, list_anios_sql, update_materia_sql, validar_anio, list_ciclos_sql, list_niveles_sql,
    list_jurisdicciones_sql, list_turnos_sql, list_divisiones_sql, list_tipos_evento_sql, list_tipos_evaluacion_sql,
    list_tipos_observacion_sql, list_estados_asistencia_sql, puede_limpiar,
};
use rusqlite::Connection;

fn memory() -> Connection {
    let conn = Connection::open_in_memory().expect("memory sqlite");
    prepare_connection(&mut Base::nueva(&conn)).expect("prepare");
    conn
}

fn write_escuela(id_jurisdiccion: i64, nombre: &str) -> EscuelaWrite {
    EscuelaWrite {
        id_jurisdiccion,
        nombre: nombre.into(),
        nombre_corto: Some("ENET".into()),
        direccion: None,
        telefono: None,
        email: None,
    }
}

#[test]
fn escuelas_unique_per_jurisdiccion() {
    let conn = memory();
    let a = insert_escuela_sql(&mut Base::nueva(&conn), &write_escuela(1, "ENET Nº 1")).unwrap();
    assert_eq!(a.nombre_corto.as_deref(), Some("ENET"));
    let dup = insert_escuela_sql(&mut Base::nueva(&conn), &write_escuela(1, "ENET Nº 1")).unwrap_err();
    assert_eq!(map_sql_error(dup), "Ya existe una escuela con ese nombre en esa jurisdicción.");
    let other = insert_escuela_sql(&mut Base::nueva(&conn), &write_escuela(2, "ENET Nº 1")).unwrap();
    assert_eq!(other.id_jurisdiccion, 2);
}

#[test]
fn materia_unique_name() {
    let conn = memory();
    insert_materia_sql(&mut Base::nueva(&conn), "English").unwrap();
    assert!(insert_materia_sql(&mut Base::nueva(&conn), "English").is_err());
    let renamed = update_materia_sql(&mut Base::nueva(&conn), 1, "Inglés").unwrap();
    assert_eq!(renamed.nombre, "Inglés");
}

#[test]
fn activar_anio_leaves_only_one_active() {
    let conn = memory();
    let nuevo = insert_anio_sql(&mut Base::nueva(&conn), 2027).unwrap();
    assert_eq!(nuevo.activo, 0);
    let activo = activar_anio_sql(&mut Base::nueva(&conn), nuevo.id).unwrap();
    assert_eq!(activo.activo, 1);
    let years = list_anios_sql(&mut Base::nueva(&conn)).unwrap();
    let activos: Vec<_> = years.iter().filter(|y| y.activo == 1).collect();
    assert_eq!(activos.len(), 1);
    assert_eq!(activos[0].anio, 2027);
}

#[test]
fn empty_optional_fields_store_null() {
    let conn = memory();
    let w = EscuelaWrite {
        id_jurisdiccion: 1,
        nombre: "  Normal 2  ".into(),
        nombre_corto: Some("  ".into()),
        direccion: Some("".into()),
        telefono: None,
        email: Some("  ".into()),
    };
    let normalized = escuela_from_write(w).unwrap();
    assert_eq!(normalized.nombre, "Normal 2");
    assert_eq!(normalized.nombre_corto, None);
    let saved = insert_escuela_sql(&mut Base::nueva(&conn), &normalized).unwrap();
    assert_eq!(saved.nombre, "Normal 2");
    assert_eq!(saved.nombre_corto, None);
    assert_eq!(saved.email, None);
}

fn seed_curso_en_anio(conn: &Connection, id_anio: i64, nombre: &str) -> i64 {
    let n: i64 = conn.query_row("SELECT COUNT(*) FROM escuelas", [], |row| row.get(0)).unwrap();
    if n == 0 {
        conn.execute("INSERT INTO escuelas (id_jurisdiccion, nombre) VALUES (1, 'ENET Nº 1')", []).unwrap();
        conn.execute("INSERT INTO materias (nombre) VALUES ('English')", []).unwrap();
    }
    let ciclo: i64 = conn
        .query_row(
            "SELECT c.id FROM ciclos c JOIN niveles n ON n.id = c.id_nivel
             WHERE n.codigo = 'secundaria' AND c.orden = 3",
            [],
            |row| row.get(0),
        )
        .unwrap();
    conn.execute(
        "INSERT INTO cursos (nombre, id_escuela, id_turno, id_division, id_ciclo, id_materia, id_anio_lectivo)
         VALUES (?1, 1, 1, 1, ?2, 1, ?3)",
        (nombre, ciclo, id_anio),
    )
    .unwrap();
    conn.last_insert_rowid()
}

fn count(conn: &Connection, sql: &str) -> i64 {
    conn.query_row(sql, [], |row| row.get(0)).unwrap()
}

#[test]
fn no_limpia_el_anio_activo() {
    let conn = memory();
    let err = limpiar_anio_sql(&mut Base::nueva(&conn), 1).unwrap_err();
    assert_eq!(map_sql_error(err), "No se puede limpiar el año lectivo activo. Activá otro año antes.");
}

#[test]
fn limpiar_anio_inactivo_vacia_operativa_y_conserva_el_resto() {
    let conn = memory();
    let y2025 = insert_anio_sql(&mut Base::nueva(&conn), 2025).unwrap();
    let c_viejo = seed_curso_en_anio(&conn, y2025.id, "3° A English 2025");
    let c_activo = seed_curso_en_anio(&conn, 1, "3° A English 2026");
    conn.execute("INSERT INTO alumnos (nombre, apellido) VALUES ('Lucía', 'García')", []).unwrap();
    let alumno = conn.last_insert_rowid();
    conn.execute(
        "INSERT INTO alumnos_cursos (id_alumno, id_curso) VALUES (?1, ?2), (?1, ?3)",
        [alumno, c_viejo, c_activo],
    )
    .unwrap();
    conn.execute(
        "INSERT INTO evaluaciones (id_curso, id_tipo_evaluacion, titulo, fecha)
         VALUES (?1, 1, 'Escrito 1', '2025-05-12'), (?2, 1, 'Escrito 1', '2026-05-12')",
        [c_viejo, c_activo],
    )
    .unwrap();
    let ev_viejo: i64 =
        conn.query_row("SELECT id FROM evaluaciones WHERE id_curso = ?1", [c_viejo], |row| row.get(0)).unwrap();
    let ev_activo: i64 =
        conn.query_row("SELECT id FROM evaluaciones WHERE id_curso = ?1", [c_activo], |row| row.get(0)).unwrap();
    conn.execute(
        "INSERT INTO notas (id_evaluacion, id_alumno, valor, ausente) VALUES (?1, ?2, '8', 0), (?3, ?2, '7', 0)",
        [ev_viejo, alumno, ev_activo],
    )
    .unwrap();
    conn.execute(
        "INSERT INTO observaciones (id_alumno, id_curso, id_tipo_observacion, fecha, texto)
         VALUES (?1, ?2, 1, '2025-04-01', '2025'), (?1, ?3, 1, '2026-04-01', '2026')",
        [alumno, c_viejo, c_activo],
    )
    .unwrap();
    conn.execute(
        "INSERT INTO asistencias (id_curso, id_alumno, fecha, id_estado_asistencia)
         VALUES (?1, ?2, '2025-04-01', 1), (?3, ?2, '2026-04-01', 1)",
        [c_viejo, alumno, c_activo],
    )
    .unwrap();
    conn.execute(
        "INSERT INTO horarios (id_curso, dia_semana, hora_inicio, hora_fin)
         VALUES (?1, 1, '14:00', '15:20'), (?2, 1, '14:00', '15:20')",
        [c_viejo, c_activo],
    )
    .unwrap();
    conn.execute(
        "INSERT INTO eventos (id_curso, id_tipo_evento, fecha, titulo)
         VALUES (?1, 1, '2025-04-02', 'Tema 2025'), (NULL, 6, '2025-05-01', 'Paro')",
        [c_viejo],
    )
    .unwrap();

    limpiar_anio_sql(&mut Base::nueva(&conn), y2025.id).unwrap();

    assert_eq!(
        count(
            &conn,
            "SELECT COUNT(*) FROM notas WHERE id_evaluacion IN (
                SELECT id FROM evaluaciones WHERE id_curso IN (
                    SELECT id FROM cursos WHERE id_anio_lectivo = (
                        SELECT id FROM anios_lectivos WHERE anio = 2025
                    )
                )
            )"
        ),
        0
    );
    assert_eq!(count(&conn, "SELECT COUNT(*) FROM notas"), 1);
    assert_eq!(
        count(&conn, "SELECT COUNT(*) FROM observaciones WHERE id_curso IN (SELECT id FROM cursos WHERE id_anio_lectivo = (SELECT id FROM anios_lectivos WHERE anio = 2025))"),
        0
    );
    assert_eq!(count(&conn, "SELECT COUNT(*) FROM observaciones WHERE texto = '2026'"), 1);
    assert_eq!(
        count(&conn, "SELECT COUNT(*) FROM asistencias WHERE id_curso IN (SELECT id FROM cursos WHERE id_anio_lectivo = (SELECT id FROM anios_lectivos WHERE anio = 2025))"),
        0
    );
    assert_eq!(count(&conn, "SELECT COUNT(*) FROM asistencias"), 1);
    assert_eq!(
        count(&conn, "SELECT COUNT(*) FROM evaluaciones WHERE id_curso IN (SELECT id FROM cursos WHERE id_anio_lectivo = (SELECT id FROM anios_lectivos WHERE anio = 2025))"),
        0
    );
    assert_eq!(count(&conn, "SELECT COUNT(*) FROM evaluaciones"), 1);
    assert_eq!(
        count(&conn, "SELECT COUNT(*) FROM horarios WHERE id_curso IN (SELECT id FROM cursos WHERE id_anio_lectivo = (SELECT id FROM anios_lectivos WHERE anio = 2025))"),
        0
    );
    assert_eq!(count(&conn, "SELECT COUNT(*) FROM horarios"), 1);
    assert_eq!(
        count(&conn, "SELECT COUNT(*) FROM alumnos_cursos WHERE id_curso IN (SELECT id FROM cursos WHERE id_anio_lectivo = (SELECT id FROM anios_lectivos WHERE anio = 2025))"),
        0
    );
    assert_eq!(count(&conn, "SELECT COUNT(*) FROM alumnos_cursos"), 1);
    assert_eq!(count(&conn, "SELECT COUNT(*) FROM alumnos"), 1);
    assert_eq!(count(&conn, "SELECT COUNT(*) FROM cursos"), 2);
    assert_eq!(count(&conn, "SELECT COUNT(*) FROM anios_lectivos WHERE anio = 2025"), 1);
    assert_eq!(count(&conn, "SELECT COUNT(*) FROM eventos WHERE titulo = 'Tema 2025'"), 0);
    assert_eq!(count(&conn, "SELECT COUNT(*) FROM eventos WHERE titulo = 'Paro'"), 1);
}

#[test]
fn anio_lectivo_en_rango() {
    assert_eq!(validar_anio(2000).unwrap(), 2000);
    assert_eq!(validar_anio(2100).unwrap(), 2100);
    assert_eq!(validar_anio(1999).unwrap_err(), "El año lectivo debe estar entre 2000 y 2100.");
    assert_eq!(validar_anio(2101).unwrap_err(), "El año lectivo debe estar entre 2000 y 2100.");
    assert_eq!(create_anio_lectivo(None, 3000).unwrap_err(), "El año lectivo debe estar entre 2000 y 2100.");
    assert_eq!(create_anio_lectivo(None, 2030).unwrap_err(), "El cuaderno está cerrado. Ingresá la clave.");
    let conn = memory();
    assert_eq!(create_anio_lectivo(Some(&mut Base::nueva(&conn)), 2026).unwrap_err(), "Ese año lectivo ya está cargado.");
    assert_eq!(create_anio_lectivo(Some(&mut Base::nueva(&conn)), 2030).unwrap().activo, 0);
    assert!(puede_limpiar(0).is_ok());
    assert!(puede_limpiar(1).is_err());
}

#[test]
fn catalogos_iniciales() {
    let conn = memory();
    assert_eq!(list_niveles_sql(&mut Base::nueva(&conn)).unwrap().len(), 2);
    let ciclos = list_ciclos_sql(&mut Base::nueva(&conn)).unwrap();
    assert_eq!(ciclos.len(), 14);
    assert_eq!(ciclos[0].nombre, "Primer Grado");
    assert_eq!(list_jurisdicciones_sql(&mut Base::nueva(&conn)).unwrap().len(), 3);
    assert!(!list_turnos_sql(&mut Base::nueva(&conn)).unwrap().is_empty());
    assert!(!list_divisiones_sql(&mut Base::nueva(&conn)).unwrap().is_empty());
    assert_eq!(list_tipos_evento_sql(&mut Base::nueva(&conn)).unwrap().len(), 6);
    assert_eq!(list_tipos_evaluacion_sql(&mut Base::nueva(&conn)).unwrap().len(), 5);
    assert_eq!(list_tipos_observacion_sql(&mut Base::nueva(&conn)).unwrap().len(), 4);
    assert_eq!(list_estados_asistencia_sql(&mut Base::nueva(&conn)).unwrap().len(), 4);
    assert_eq!(activar_anio_sql(&mut Base::nueva(&conn), 99).map(|_| ()).map_err(map_sql_error).unwrap_err(), "No se encontró el registro.");
}
