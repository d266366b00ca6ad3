use adm_cursos::db::{Base, map_sql_error, ErrorDb};
use adm_cursos::domain::EvaluacionWrite;
use adm_cursos::esquema::prepare_connection;
use adm_cursos::evaluaciones::{
    delete_evaluacion_sql, evaluacion_from_write, insert_evaluacion_sql, list_evaluaciones_sql, pedir_origen,
    update_evaluacion_sql, validar_origen, list_evaluaciones_de_curso_sql,
};
use adm_cursos::validar::require_ponderacion;
use rusqlite::Connection;

fn memory() -> Connection {
    let conn = Connection::open_in_memory().expect("memory sqlite");
    prepare_connection(&mut Base::nueva(&conn)).expect("prepare");
    conn
}

fn seed_cursos(conn: &Connection) -> (i64, i64) {
    conn.execute("INSERT INTO escuelas (id_jurisdiccion, nombre) VALUES (1, 'ENET Nº 1')", []).unwrap();
    conn.execute("INSERT INTO materias (nombre) VALUES ('English')", []).unwrap();
    let grado: i64 = conn
        .query_row(
            "SELECT c.id FROM ciclos c JOIN niveles n ON n.id = c.id_nivel
             WHERE n.codigo = 'primaria' AND c.orden = 3",
            [],
            |row| row.get(0),
        )
        .unwrap();
    conn.execute(
        "INSERT INTO cursos (nombre, id_escuela, id_turno, id_division, id_ciclo, id_materia, id_anio_lectivo)
         VALUES ('3° B English', 1, 1, 1, ?1, 1, 1)",
        [grado],
    )
    .unwrap();
    let c1 = conn.last_insert_rowid();
    conn.execute("INSERT INTO anios_lectivos (anio, activo) VALUES (2027, 0)", []).unwrap();
    let anio_2027: i64 = conn.query_row("SELECT id FROM anios_lectivos WHERE anio = 2027", [], |row| row.get(0)).unwrap();
    conn.execute(
        "INSERT INTO cursos (nombre, id_escuela, id_turno, id_division, id_ciclo, id_materia, id_anio_lectivo)
         VALUES ('3° B 2027', 1, 1, 1, ?1, 1, ?2)",
        [grado, anio_2027],
    )
    .unwrap();
    (c1, conn.last_insert_rowid())
}

fn tipo(conn: &Connection, codigo: &str) -> i64 {
    conn.query_row("SELECT id FROM tipos_evaluacion WHERE codigo = ?1", [codigo], |row| row.get(0)).unwrap()
}

fn write(id_curso: i64, id_tipo: i64, titulo: &str, fecha: &str, origen: Option<i64>, ponderacion: &str) -> EvaluacionWrite {
    EvaluacionWrite {
        id_curso,
        id_tipo_evaluacion: id_tipo,
        id_evaluacion_origen: origen,
        titulo: titulo.into(),
        fecha: fecha.into(),
        tema: Some("present perfect".into()),
        ponderacion: ponderacion.into(),
    }
}

#[test]
fn alta_escrito_ponderacion_default() {
    let conn = memory();
    let (c1, _) = seed_cursos(&conn);
    let w = evaluacion_from_write(write(c1, tipo(&conn, "escrito"), "Escrito 1", "2026-05-12", None, "")).unwrap();
    assert_eq!(w.ponderacion, "1");
    let saved = insert_evaluacion_sql(&mut Base::nueva(&conn), w).unwrap();
    assert_eq!(saved.titulo, "Escrito 1");
    assert_eq!(saved.fecha, "2026-05-12");
    assert_eq!(saved.ponderacion, "1");
    assert_eq!(saved.id_evaluacion_origen, None);
}

#[test]
fn recuperatorio_pide_origen_del_mismo_curso() {
    let conn = memory();
    let (c1, c2) = seed_cursos(&conn);
    let escrito = tipo(&conn, "escrito");
    let recu = tipo(&conn, "recuperatorio");
    let origen =
        insert_evaluacion_sql(&mut Base::nueva(&conn), evaluacion_from_write(write(c1, escrito, "Escrito 1", "2026-05-12", None, "1")).unwrap())
            .unwrap();
    let sin = insert_evaluacion_sql(&mut Base::nueva(&conn), evaluacion_from_write(write(c1, recu, "Recu 1", "2026-06-01", None, "1")).unwrap())
        .unwrap_err();
    assert_eq!(map_sql_error(sin), "Elegí la evaluación que se recupera.");

    let otro_curso = insert_evaluacion_sql(
        &mut Base::nueva(&conn),
        evaluacion_from_write(write(c2, recu, "Recu otro", "2026-06-01", Some(origen.id), "1")).unwrap(),
    )
    .unwrap_err();
    assert_eq!(map_sql_error(otro_curso), "El recuperatorio tiene que ser del mismo curso que la evaluación de origen.");

    let ok = insert_evaluacion_sql(
        &mut Base::nueva(&conn),
        evaluacion_from_write(write(c1, recu, "Recuperatorio 1", "2026-06-01", Some(origen.id), "1")).unwrap(),
    )
    .unwrap();
    assert_eq!(ok.id_evaluacion_origen, Some(origen.id));
}

#[test]
fn no_recuperatorio_limpia_origen() {
    let conn = memory();
    let (c1, _) = seed_cursos(&conn);
    let escrito = tipo(&conn, "escrito");
    let origen =
        insert_evaluacion_sql(&mut Base::nueva(&conn), evaluacion_from_write(write(c1, escrito, "Escrito 1", "2026-05-12", None, "1")).unwrap())
            .unwrap();
    let saved = insert_evaluacion_sql(
        &mut Base::nueva(&conn),
        evaluacion_from_write(write(c1, escrito, "Escrito 2", "2026-05-20", Some(origen.id), "2")).unwrap(),
    )
    .unwrap();
    assert_eq!(saved.id_evaluacion_origen, None);
    assert_eq!(saved.ponderacion, "2");
}

#[test]
fn ponderacion_cero_o_invalida() {
    assert_eq!(require_ponderacion("0").unwrap_err(), "La ponderación debe ser mayor que 0.");
    assert_eq!(require_ponderacion("0.00").unwrap_err(), "La ponderación debe ser mayor que 0.");
    assert!(require_ponderacion("1,5").unwrap() == "1.5");
    assert!(require_ponderacion("2.5").is_ok());
}

#[test]
fn list_filtra_anio_y_baja_cascada_notas() {
    let conn = memory();
    let (c1, c2) = seed_cursos(&conn);
    let escrito = tipo(&conn, "escrito");
    let a = insert_evaluacion_sql(&mut Base::nueva(&conn), evaluacion_from_write(write(c1, escrito, "Escrito 1", "2026-05-12", None, "1")).unwrap())
        .unwrap();
    insert_evaluacion_sql(&mut Base::nueva(&conn), evaluacion_from_write(write(c2, escrito, "Escrito 2027", "2027-05-12", None, "1")).unwrap())
        .unwrap();
    assert_eq!(list_evaluaciones_sql(&mut Base::nueva(&conn), 1).unwrap().len(), 1);

    conn.execute("INSERT INTO alumnos (nombre, apellido) VALUES ('Juan', 'Pérez')", []).unwrap();
    conn.execute("INSERT INTO notas (id_evaluacion, id_alumno, valor, ausente) VALUES (?1, 1, '8', 0)", [a.id]).unwrap();
    delete_evaluacion_sql(&mut Base::nueva(&conn), a.id).unwrap();
    let n: i64 = conn.query_row("SELECT COUNT(*) FROM notas", [], |row| row.get(0)).unwrap();
    assert_eq!(n, 0);
}

#[test]
fn ponderacion_formatos() {
    assert_eq!(require_ponderacion("  ").unwrap(), "1");
    assert_eq!(require_ponderacion("1e3").unwrap_err(), "La ponderación no es un decimal válido.");
    assert_eq!(require_ponderacion("+2").unwrap_err(), "La ponderación no es un decimal válido.");
    assert_eq!(require_ponderacion("-2").unwrap_err(), "La ponderación no es un decimal válido.");
    assert_eq!(require_ponderacion(".5").unwrap_err(), "La ponderación no es un decimal válido.");
    assert_eq!(require_ponderacion("2.").unwrap(), "2.");
    assert_eq!(require_ponderacion(" 0,25 ").unwrap(), "0.25");
}

#[test]
fn errores_de_datos_en_orden() {
    assert_eq!(evaluacion_from_write(write(1, 1, " ", "x", None, "0")).unwrap_err(), "El título es obligatorio.");
    assert_eq!(evaluacion_from_write(write(1, 1, "E", "x", None, "0")).unwrap_err(), "La fecha debe ser YYYY-MM-DD.");
    assert_eq!(
        evaluacion_from_write(write(1, 1, "E", "2026-05-12", None, "0")).unwrap_err(),
        "La ponderación debe ser mayor que 0."
    );
    let w = evaluacion_from_write(write(1, 1, " E ", " 2026-05-12 ", Some(-3), "")).unwrap();
    assert_eq!(w.titulo, "E");
    assert_eq!(w.fecha, "2026-05-12");
    assert_eq!(w.id_evaluacion_origen, None);
}

#[test]
fn recuperatorio_no_apunta_a_si_mismo() {
    let conn = memory();
    let (c1, _) = seed_cursos(&conn);
    let recu = tipo(&conn, "recuperatorio");
    let escrito = tipo(&conn, "escrito");
    let a = insert_evaluacion_sql(&mut Base::nueva(&conn), write(c1, escrito, "Escrito 1", "2026-05-12", None, "1")).unwrap();
    let err = update_evaluacion_sql(&mut Base::nueva(&conn), a.id, write(c1, recu, "Recu", "2026-05-12", Some(a.id), "1")).unwrap_err();
    assert_eq!(map_sql_error(err), "Un recuperatorio no puede apuntar a sí mismo.");
    let err = insert_evaluacion_sql(&mut Base::nueva(&conn), write(c1, recu, "Recu", "2026-05-12", Some(999), "1")).unwrap_err();
    assert_eq!(map_sql_error(err), "No se encontró la evaluación de origen.");
    assert_eq!(list_evaluaciones_de_curso_sql(&mut Base::nueva(&conn), c1).unwrap().len(), 1);
}

#[test]
fn decisiones_del_recuperatorio() {
    assert!(matches!(pedir_origen(false, Some(4), None), Ok(None)));
    assert!(matches!(pedir_origen(true, Some(4), Some(5)), Ok(Some(4))));
    assert!(matches!(pedir_origen(true, None, None), Err(ErrorDb::App(m)) if m == "Elegí la evaluación que se recupera."));
    assert!(matches!(pedir_origen(true, Some(5), Some(5)), Err(ErrorDb::App(m)) if m == "Un recuperatorio no puede apuntar a sí mismo."));
    assert!(validar_origen(Some(3), 3).is_ok());
    assert!(matches!(validar_origen(None, 3), Err(ErrorDb::App(m)) if m == "No se encontró la evaluación de origen."));
    assert!(matches!(validar_origen(Some(2), 3), Err(ErrorDb::App(m)) if m == "El recuperatorio tiene que ser del mismo curso que la evaluación de origen."));
}
