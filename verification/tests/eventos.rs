use adm_cursos::db::{Base, map_sql_error};
use adm_cursos::domain::EventoWrite;
use adm_cursos::esquema::prepare_connection;
use adm_cursos::eventos::{evento_from_write, insert_evento_sql, limites_del_anio, list_eventos_sql, list_eventos_de_curso_sql};
use adm_cursos::validar::{anio_cuatro_cifras, opt_hora};
use rusqlite::Connection;

fn memory() -> Connection {
    let conn = Connection::open_in_memory().expect("memory sqlite");
    prepare_connection(&mut Base::nueva(&conn)).expect("prepare");
    conn
}

fn seed(conn: &Connection) -> (i64, i64) {
    conn.execute("INSERT INTO escuelas (id_jurisdiccion, nombre) VALUES (1, 'ENET Nº 1')", []).unwrap();
    conn.execute("INSERT INTO materias (nombre) VALUES ('English')", []).unwrap();
    let grado: i64 = conn
        .query_row(
            "SELECT c.id FROM ciclos c JOIN niveles n ON n.id = c.id_nivel
             WHERE n.codigo = 'primaria' AND c.orden = 3",
            [],
            |row| row.get(0),
        )
        .unwrap();
    conn.execute(
        "INSERT INTO cursos (nombre, id_escuela, id_turno, id_division, id_ciclo, id_materia, id_anio_lectivo)
         VALUES ('3° B English', 1, 1, 1, ?1, 1, 1)",
        [grado],
    )
    .unwrap();
    let c1 = conn.last_insert_rowid();
    conn.execute("INSERT INTO anios_lectivos (anio, activo) VALUES (2027, 0)", []).unwrap();
    let anio_2027: i64 = conn.query_row("SELECT id FROM anios_lectivos WHERE anio = 2027", [], |row| row.get(0)).unwrap();
    conn.execute(
        "INSERT INTO cursos (nombre, id_escuela, id_turno, id_division, id_ciclo, id_materia, id_anio_lectivo)
         VALUES ('3° B 2027', 1, 1, 1, ?1, 1, ?2)",
        [grado, anio_2027],
    )
    .unwrap();
    (c1, conn.last_insert_rowid())
}

fn tipo(conn: &Connection, codigo: &str) -> i64 {
    conn.query_row("SELECT id FROM tipos_evento WHERE codigo = ?1", [codigo], |row| row.get(0)).unwrap()
}

fn write(id_curso: Option<i64>, id_tipo: i64, titulo: &str, fecha: &str, hora: Option<&str>) -> EventoWrite {
    EventoWrite {
        id_curso,
        id_tipo_evento: id_tipo,
        fecha: fecha.into(),
        hora: hora.map(str::to_string),
        titulo: titulo.into(),
        descripcion: None,
    }
}

#[test]
fn tema_pide_curso() {
    let conn = memory();
    let (c1, _) = seed(&conn);
    let tema = tipo(&conn, "tema");
    let err = insert_evento_sql(&mut Base::nueva(&conn), evento_from_write(write(None, tema, "present perfect", "2026-05-12", None)).unwrap())
        .unwrap_err();
    assert_eq!(map_sql_error(err), "Tema y entrega van siempre con un curso.");
    let ok = insert_evento_sql(
        &mut Base::nueva(&conn),
        evento_from_write(write(Some(c1), tema, "present perfect", "2026-05-12", Some("14:00"))).unwrap(),
    )
    .unwrap();
    assert_eq!(ok.id_curso, Some(c1));
    assert_eq!(ok.hora.as_deref(), Some("14:00"));
    assert_eq!(ok.titulo, "present perfect");
}

#[test]
fn acto_sin_curso() {
    let conn = memory();
    let _ = seed(&conn);
    let acto = tipo(&conn, "acto");
    let saved =
        insert_evento_sql(&mut Base::nueva(&conn), evento_from_write(write(None, acto, "Acto 25 de mayo", "2026-05-25", None)).unwrap()).unwrap();
    assert_eq!(saved.id_curso, None);
    assert_eq!(saved.hora, None);
}

#[test]
fn entrega_sin_curso_falla() {
    let conn = memory();
    let _ = seed(&conn);
    let entrega = tipo(&conn, "entrega");
    let err = insert_evento_sql(&mut Base::nueva(&conn), evento_from_write(write(None, entrega, "TP 1", "2026-06-01", None)).unwrap()).unwrap_err();
    assert_eq!(map_sql_error(err), "Tema y entrega van siempre con un curso.");
}

#[test]
fn eventos_list_filtra_anio() {
    let conn = memory();
    let (c1, c2) = seed(&conn);
    let tema = tipo(&conn, "tema");
    let acto = tipo(&conn, "acto");
    insert_evento_sql(&mut Base::nueva(&conn), evento_from_write(write(Some(c1), tema, "present perfect", "2026-05-12", None)).unwrap()).unwrap();
    insert_evento_sql(&mut Base::nueva(&conn), evento_from_write(write(Some(c2), tema, "2027 tema", "2027-05-12", None)).unwrap()).unwrap();
    insert_evento_sql(&mut Base::nueva(&conn), evento_from_write(write(None, acto, "Acto 25 de mayo", "2026-05-25", None)).unwrap()).unwrap();
    insert_evento_sql(&mut Base::nueva(&conn), evento_from_write(write(None, acto, "Acto 2027", "2027-05-25", None)).unwrap()).unwrap();
    let y2026 = list_eventos_sql(&mut Base::nueva(&conn), 1).unwrap();
    assert_eq!(y2026.len(), 2);
    assert!(y2026.iter().any(|e| e.titulo == "present perfect"));
    assert!(y2026.iter().any(|e| e.titulo == "Acto 25 de mayo"));
}

#[test]
fn hora_invalida() {
    assert_eq!(opt_hora(Some("25:00".into())).unwrap_err(), "La hora no es válida.");
    assert_eq!(opt_hora(Some("14:00:00".into())).unwrap(), Some("14:00".into()));
    assert_eq!(opt_hora(Some("  ".into())).unwrap(), None);
}

#[test]
fn horas_de_evento() {
    assert_eq!(opt_hora(None).unwrap(), None);
    assert_eq!(opt_hora(Some(" 09:30 ".into())).unwrap(), Some("09:30".into()));
    assert_eq!(opt_hora(Some("9:30".into())).unwrap_err(), "La hora debe ser HH:MM.");
    assert_eq!(opt_hora(Some("12:60".into())).unwrap_err(), "La hora no es válida.");
    assert_eq!(opt_hora(Some("ab:cd".into())).unwrap_err(), "La hora debe ser HH:MM.");
}

#[test]
fn anio_con_cuatro_cifras() {
    assert_eq!(anio_cuatro_cifras(2026), "2026");
    assert_eq!(anio_cuatro_cifras(7), "0007");
    assert_eq!(anio_cuatro_cifras(12345), "12345");
    assert_eq!(anio_cuatro_cifras(-5), "-005");
    assert_eq!(anio_cuatro_cifras(0), "0000");
    assert_eq!(limites_del_anio(2026), ("2026-01-01".to_string(), "2026-12-31".to_string()));
}

#[test]
fn evento_datos_y_curso_cero() {
    let e = evento_from_write(EventoWrite {
        id_curso: Some(0),
        id_tipo_evento: 5,
        fecha: " 2026-05-25 ".into(),
        hora: Some("".into()),
        titulo: "  Acto ".into(),
        descripcion: Some("  ".into()),
    })
    .unwrap();
    assert_eq!(e.id_curso, None);
    assert_eq!(e.fecha, "2026-05-25");
    assert_eq!(e.hora, None);
    assert_eq!(e.titulo, "Acto");
    assert_eq!(e.descripcion, None);
    assert_eq!(evento_from_write(write(None, 1, " ", "2026-05-25", None)).unwrap_err(), "El título es obligatorio.");
    assert_eq!(evento_from_write(write(None, 1, " ", "2026-05-25", Some("25:00"))).unwrap_err(), "La hora no es válida.");
    assert_eq!(evento_from_write(write(None, 1, " ", "mayo", Some("25:00"))).unwrap_err(), "La fecha debe ser YYYY-MM-DD.");
}

#[test]
fn curso_inexistente_en_evento() {
    let conn = memory();
    let _ = seed(&conn);
    let acto = tipo(&conn, "acto");
    let err = insert_evento_sql(&mut Base::nueva(&conn), write(Some(999), acto, "Acto", "2026-05-25", None)).unwrap_err();
    assert_eq!(map_sql_error(err), "No se encontró el curso.");
    assert!(list_eventos_de_curso_sql(&mut Base::nueva(&conn), 999).unwrap().is_empty());
    assert_eq!(map_sql_error(list_eventos_sql(&mut Base::nueva(&conn), 999).unwrap_err()), "No se encontró el registro.");
}

#[test]
fn hora_de_evento_solo_cifras() {
    assert_eq!(opt_hora(Some("+1:00".into())).unwrap_err(), "La hora debe ser HH:MM.");
    assert_eq!(opt_hora(Some("10:+5".into())).unwrap_err(), "La hora debe ser HH:MM.");
    assert_eq!(opt_hora(Some("09:05".into())).unwrap(), Some("09:05".into()));
}
