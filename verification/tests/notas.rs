use adm_cursos::db::{Base, map_sql_error};
use adm_cursos::domain::NotaWrite;
use adm_cursos::esquema::prepare_connection;
use adm_cursos::notas::{decidir_nota, es_vacia, list_notas_de_curso_sql, nota_from_write, upsert_nota_sql, upsert_nota, delete_nota_sql};
use adm_cursos::validar::{parse_decimal, require_valor_1_10};
use rusqlite::Connection;

fn memory() -> Connection {
    let conn = Connection::open_in_memory().expect("memory sqlite");
    prepare_connection(&mut Base::nueva(&conn)).expect("prepare");
    conn
}

fn seed(conn: &Connection) -> (i64, i64, i64, i64, i64) {
    conn.execute("INSERT INTO escuelas (id_jurisdiccion, nombre) VALUES (1, 'ENET Nº 1')", []).unwrap();
    conn.execute("INSERT INTO materias (nombre) VALUES ('English')", []).unwrap();
    let grado: i64 = conn
        .query_row(
            "SELECT c.id FROM ciclos c JOIN niveles n ON n.id = c.id_nivel
             WHERE n.codigo = 'primaria' AND c.orden = 3",
            [],
            |row| row.get(0),
        )
        .unwrap();
    conn.execute(
        "INSERT INTO cursos (nombre, id_escuela, id_turno, id_division, id_ciclo, id_materia, id_anio_lectivo)
         VALUES ('3° B English', 1, 1, 1, ?1, 1, 1)",
        [grado],
    )
    .unwrap();
    let curso = conn.last_insert_rowid();
    conn.execute(
        "INSERT INTO cursos (nombre, id_escuela, id_turno, id_division, id_ciclo, id_materia, id_anio_lectivo)
         VALUES ('3° A English', 1, 1, 2, ?1, 1, 1)",
        [grado],
    )
    .unwrap();
    let otro = conn.last_insert_rowid();
    conn.execute("INSERT INTO alumnos (nombre, apellido) VALUES ('Juan', 'Pérez')", []).unwrap();
    let juan = conn.last_insert_rowid();
    conn.execute("INSERT INTO alumnos (nombre, apellido) VALUES ('Ana', 'García')", []).unwrap();
    let ana = conn.last_insert_rowid();
    conn.execute("INSERT INTO alumnos_cursos (id_alumno, id_curso) VALUES (?1, ?2)", [juan, curso]).unwrap();
    let escrito: i64 =
        conn.query_row("SELECT id FROM tipos_evaluacion WHERE codigo = 'escrito'", [], |row| row.get(0)).unwrap();
    conn.execute(
        "INSERT INTO evaluaciones (id_curso, id_tipo_evaluacion, titulo, fecha, ponderacion)
         VALUES (?1, ?2, 'Escrito 1', '2026-05-12', '2')",
        [curso, escrito],
    )
    .unwrap();
    let eval_id = conn.last_insert_rowid();
    (curso, otro, juan, ana, eval_id)
}

fn write(id_evaluacion: i64, id_alumno: i64, valor: Option<&str>, ausente: i64, comentario: Option<&str>) -> NotaWrite {
    NotaWrite {
        id_evaluacion,
        id_alumno,
        valor: valor.map(str::to_string),
        ausente,
        comentario: comentario.map(str::to_string),
    }
}

#[test]
fn alta_nota_inscrito() {
    let conn = memory();
    let (_, _, juan, _, eval_id) = seed(&conn);
    let saved = upsert_nota_sql(&mut Base::nueva(&conn), nota_from_write(write(eval_id, juan, Some("8,5"), 0, Some("bien"))).unwrap())
        .unwrap()
        .unwrap();
    assert_eq!(saved.valor.as_deref(), Some("8.5"));
    assert_eq!(saved.ausente, 0);
    assert_eq!(saved.comentario.as_deref(), Some("bien"));
}

#[test]
fn ausente_sin_valor() {
    let conn = memory();
    let (_, _, juan, _, eval_id) = seed(&conn);
    let saved = upsert_nota_sql(&mut Base::nueva(&conn), nota_from_write(write(eval_id, juan, None, 1, None)).unwrap()).unwrap().unwrap();
    assert_eq!(saved.valor, None);
    assert_eq!(saved.ausente, 1);
}

#[test]
fn ausente_con_valor_falla() {
    assert_eq!(
        nota_from_write(write(1, 1, Some("7"), 1, None)).unwrap_err(),
        "Si está ausente, la nota tiene que quedar vacía."
    );
}

#[test]
fn notas_no_inscrito_falla() {
    let conn = memory();
    let (_, _, _, ana, eval_id) = seed(&conn);
    let err = upsert_nota_sql(&mut Base::nueva(&conn), nota_from_write(write(eval_id, ana, Some("7"), 0, None)).unwrap()).unwrap_err();
    assert_eq!(map_sql_error(err), "El alumno tiene que estar inscripto en el curso de la evaluación.");
}

#[test]
fn notas_alumno_de_otro_curso_falla() {
    let conn = memory();
    let (_, otro, juan, _, eval_id) = seed(&conn);
    conn.execute("INSERT INTO alumnos_cursos (id_alumno, id_curso) VALUES (?1, ?2)", [juan, otro]).unwrap();
    conn.execute("INSERT INTO alumnos (nombre, apellido) VALUES ('Luis', 'Sosa')", []).unwrap();
    let luis = conn.last_insert_rowid();
    conn.execute("INSERT INTO alumnos_cursos (id_alumno, id_curso) VALUES (?1, ?2)", [luis, otro]).unwrap();
    let err = upsert_nota_sql(&mut Base::nueva(&conn), nota_from_write(write(eval_id, luis, Some("6"), 0, None)).unwrap()).unwrap_err();
    assert_eq!(map_sql_error(err), "El alumno tiene que estar inscripto en el curso de la evaluación.");
}

#[test]
fn escala_1_a_10() {
    assert_eq!(require_valor_1_10("0").unwrap_err(), "La nota tiene que estar entre 1 y 10.");
    assert_eq!(require_valor_1_10("10.01").unwrap_err(), "La nota tiene que estar entre 1 y 10.");
    assert_eq!(require_valor_1_10("11").unwrap_err(), "La nota tiene que estar entre 1 y 10.");
    assert_eq!(require_valor_1_10("1").unwrap(), "1");
    assert_eq!(require_valor_1_10("10").unwrap(), "10");
    assert_eq!(require_valor_1_10("10.00").unwrap(), "10.00");
    assert_eq!(require_valor_1_10("8,5").unwrap(), "8.5");
}

#[test]
fn upsert_actualiza_y_vacio_borra() {
    let conn = memory();
    let (curso, _, juan, _, eval_id) = seed(&conn);
    upsert_nota_sql(&mut Base::nueva(&conn), nota_from_write(write(eval_id, juan, Some("7"), 0, None)).unwrap()).unwrap();
    let updated = upsert_nota_sql(&mut Base::nueva(&conn), nota_from_write(write(eval_id, juan, Some("9"), 0, None)).unwrap()).unwrap().unwrap();
    assert_eq!(updated.valor.as_deref(), Some("9"));
    assert_eq!(list_notas_de_curso_sql(&mut Base::nueva(&conn), curso).unwrap().len(), 1);

    let cleared = upsert_nota_sql(&mut Base::nueva(&conn), nota_from_write(write(eval_id, juan, None, 0, None)).unwrap()).unwrap();
    assert!(cleared.is_none());
    assert_eq!(list_notas_de_curso_sql(&mut Base::nueva(&conn), curso).unwrap().len(), 0);
}

#[test]
fn list_solo_del_curso() {
    let conn = memory();
    let (curso, otro, juan, _, eval_id) = seed(&conn);
    conn.execute("INSERT INTO alumnos_cursos (id_alumno, id_curso) VALUES (?1, ?2)", [juan, otro]).unwrap();
    let escrito: i64 =
        conn.query_row("SELECT id FROM tipos_evaluacion WHERE codigo = 'escrito'", [], |row| row.get(0)).unwrap();
    conn.execute(
        "INSERT INTO evaluaciones (id_curso, id_tipo_evaluacion, titulo, fecha, ponderacion)
         VALUES (?1, ?2, 'Escrito otro', '2026-06-01', '1')",
        [otro, escrito],
    )
    .unwrap();
    let eval_otro = conn.last_insert_rowid();
    upsert_nota_sql(&mut Base::nueva(&conn), nota_from_write(write(eval_id, juan, Some("8"), 0, None)).unwrap()).unwrap();
    upsert_nota_sql(&mut Base::nueva(&conn), nota_from_write(write(eval_otro, juan, Some("5"), 0, None)).unwrap()).unwrap();
    assert_eq!(list_notas_de_curso_sql(&mut Base::nueva(&conn), curso).unwrap().len(), 1);
    assert_eq!(list_notas_de_curso_sql(&mut Base::nueva(&conn), otro).unwrap().len(), 1);
}

#[test]
fn nota_normalizada() {
    let n = nota_from_write(write(3, 4, Some("  "), 0, Some("  "))).unwrap();
    assert_eq!(n.valor, None);
    assert_eq!(n.comentario, None);
    assert!(es_vacia(&n));
    let n = nota_from_write(write(3, 4, Some(" "), 5, Some(" ok "))).unwrap();
    assert_eq!(n.ausente, 1);
    assert_eq!(n.valor, None);
    assert_eq!(n.comentario.as_deref(), Some("ok"));
    assert!(!es_vacia(&n));
    assert_eq!(nota_from_write(write(3, 4, Some("x"), 0, None)).unwrap_err(), "La nota no es un decimal válido.");
    assert_eq!(parse_decimal("3,").unwrap(), "3.");
    assert_eq!(parse_decimal("-3").unwrap_err(), "La nota no es un decimal válido.");
    assert_eq!(parse_decimal("").unwrap_err(), "La nota no es un decimal válido.");
}

#[test]
fn nota_de_evaluacion_inexistente() {
    let conn = memory();
    let (_, _, juan, _, _) = seed(&conn);
    let err = upsert_nota_sql(&mut Base::nueva(&conn), write(999, juan, Some("7"), 0, None)).unwrap_err();
    assert_eq!(map_sql_error(err), "No se encontró la evaluación.");
    assert_eq!(upsert_nota(None, write(1, 1, Some("7"), 1, None)).unwrap_err(), "Si está ausente, la nota tiene que quedar vacía.");
    assert_eq!(upsert_nota(None, write(1, 1, Some("7"), 0, None)).unwrap_err(), "El cuaderno está cerrado. Ingresá la clave.");
    assert_eq!(map_sql_error(delete_nota_sql(&mut Base::nueva(&conn), 999).unwrap_err()), "No se encontró el registro.");
}

#[test]
fn nota_solo_de_inscriptos() {
    assert!(decidir_nota(true).is_ok());
    assert!(matches!(decidir_nota(false), Err(adm_cursos::db::ErrorDb::App(m))
        if m == "El alumno tiene que estar inscripto en el curso de la evaluación."));
}
