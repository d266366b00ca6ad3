use adm_cursos::db::{Base, map_sql_error};
use adm_cursos::domain::HorarioWrite;
use adm_cursos::esquema::prepare_connection;
use adm_cursos::horarios::{horario_from_write, insert_horario_sql, list_horarios_de_curso_sql, list_horarios_sql};
use adm_cursos::validar::{parse_hhmm, require_dia, require_rango};
use rusqlite::Connection;

fn memory() -> Connection {
    let conn = Connection::open_in_memory().expect("memory sqlite");
    prepare_connection(&mut Base::nueva(&conn)).expect("prepare");
    conn
}

fn seed_cursos(conn: &Connection) -> (i64, i64) {
    conn.execute("INSERT INTO escuelas (id_jurisdiccion, nombre) VALUES (1, 'ENET Nº 1')", []).unwrap();
    conn.execute("INSERT INTO materias (nombre) VALUES ('English')", []).unwrap();
    let grado: i64 = conn
        .query_row(
            "SELECT c.id FROM ciclos c JOIN niveles n ON n.id = c.id_nivel
             WHERE n.codigo = 'primaria' AND c.orden = 3",
            [],
            |row| row.get(0),
        )
        .unwrap();
    conn.execute(
        "INSERT INTO cursos (nombre, id_escuela, id_turno, id_division, id_ciclo, id_materia, id_anio_lectivo)
         VALUES ('3° B English', 1, 1, 1, ?1, 1, 1)",
        [grado],
    )
    .unwrap();
    let c1 = conn.last_insert_rowid();
    conn.execute("INSERT INTO anios_lectivos (anio, activo) VALUES (2027, 0)", []).unwrap();
    let anio_2027: i64 = conn.query_row("SELECT id FROM anios_lectivos WHERE anio = 2027", [], |row| row.get(0)).unwrap();
    conn.execute(
        "INSERT INTO cursos (nombre, id_escuela, id_turno, id_division, id_ciclo, id_materia, id_anio_lectivo)
         VALUES ('3° B English 2027', 1, 1, 1, ?1, 1, ?2)",
        [grado, anio_2027],
    )
    .unwrap();
    (c1, conn.last_insert_rowid())
}

fn write(id_curso: i64, dia: i64, inicio: &str, fin: &str) -> HorarioWrite {
    HorarioWrite { id_curso, dia_semana: dia, hora_inicio: inicio.into(), hora_fin: fin.into(), aula: Some("12".into()) }
}

#[test]
fn alta_lunes_tarde() {
    let conn = memory();
    let (c1, _) = seed_cursos(&conn);
    let h = insert_horario_sql(&mut Base::nueva(&conn), &write(c1, 1, "14:00", "15:20")).unwrap();
    assert_eq!(h.dia_semana, 1);
    assert_eq!(h.hora_inicio, "14:00");
    assert_eq!(h.aula.as_deref(), Some("12"));
}

#[test]
fn unique_curso_dia_hora() {
    let conn = memory();
    let (c1, _) = seed_cursos(&conn);
    insert_horario_sql(&mut Base::nueva(&conn), &write(c1, 1, "14:00", "15:20")).unwrap();
    let err = insert_horario_sql(&mut Base::nueva(&conn), &write(c1, 1, "14:00", "16:00")).unwrap_err();
    assert_eq!(map_sql_error(err), "Ya hay un bloque de ese curso ese día a esa hora.");
    insert_horario_sql(&mut Base::nueva(&conn), &write(c1, 1, "15:20", "16:40")).unwrap();
    insert_horario_sql(&mut Base::nueva(&conn), &write(c1, 2, "14:00", "15:20")).unwrap();
}

#[test]
fn fin_debe_ser_posterior() {
    let err = horario_from_write(write(1, 1, "15:20", "14:00")).unwrap_err();
    assert_eq!(err, "La hora de fin debe ser posterior a la de inicio.");
    let eq = horario_from_write(write(1, 1, "14:00", "14:00")).unwrap_err();
    assert_eq!(eq, "La hora de fin debe ser posterior a la de inicio.");
}

#[test]
fn horarios_list_filtra_anio() {
    let conn = memory();
    let (c1, c2) = seed_cursos(&conn);
    insert_horario_sql(&mut Base::nueva(&conn), &write(c1, 1, "14:00", "15:20")).unwrap();
    insert_horario_sql(&mut Base::nueva(&conn), &write(c2, 1, "08:00", "09:20")).unwrap();
    assert_eq!(list_horarios_sql(&mut Base::nueva(&conn), 1).unwrap().len(), 1);
    assert_eq!(list_horarios_de_curso_sql(&mut Base::nueva(&conn), c1).unwrap().len(), 1);
}

#[test]
fn aula_vacia_queda_null() {
    let w = horario_from_write(HorarioWrite {
        id_curso: 1,
        dia_semana: 3,
        hora_inicio: " 08:00 ".into(),
        hora_fin: "09:20".into(),
        aula: Some("  ".into()),
    })
    .unwrap();
    assert_eq!(w.hora_inicio, "08:00");
    assert_eq!(w.aula, None);
}

#[test]
fn horas_y_dias_del_bloque() {
    assert_eq!(parse_hhmm(" 07:05 ").unwrap(), (7, 5));
    assert_eq!(parse_hhmm("24:00").unwrap_err(), "La hora debe ser HH:MM.");
    assert_eq!(parse_hhmm("7:05").unwrap_err(), "La hora debe ser HH:MM.");
    assert_eq!(parse_hhmm("07:05:00").unwrap_err(), "La hora debe ser HH:MM.");
    assert_eq!(require_rango("08:00", "09:20").unwrap(), ("08:00".to_string(), "09:20".to_string()));
    assert_eq!(require_dia(7).unwrap(), 7);
    assert_eq!(require_dia(0).unwrap_err(), "El día debe ser entre 1 (lunes) y 7 (domingo).");
    assert_eq!(horario_from_write(write(1, 8, "08:00", "09:00")).unwrap_err(), "El día debe ser entre 1 (lunes) y 7 (domingo).");
    assert_eq!(horario_from_write(write(1, 8, "8", "09:00")).unwrap_err(), "La hora debe ser HH:MM.");
}

#[test]
fn hora_de_bloque_solo_cifras() {
    assert_eq!(parse_hhmm("+1:00").unwrap_err(), "La hora debe ser HH:MM.");
    assert_eq!(parse_hhmm("08:+9").unwrap_err(), "La hora debe ser HH:MM.");
    assert_eq!(parse_hhmm("08:09").unwrap(), (8, 9));
}
