use adm_cursos::db::{Base, map_sql_error, ErrorDb};
use adm_cursos::esquema::{
    apply_pragmas, column_exists, prepare_connection, schema_without_pragmas, status_of, table_exists, user_table_count,
    reparacion_ciclos, ReparacionCiclos, ciclos_semilla, db_status, SCHEMA_SQL,
};
use rusqlite::{Connection, OptionalExtension};

fn memory() -> Connection {
    let conn = Connection::open_in_memory().expect("memory sqlite");
    prepare_connection(&mut Base::nueva(&conn)).expect("prepare");
    conn
}

#[test]
fn foreign_keys_pragma_is_on() {
    let conn = memory();
    let on: i64 = conn.pragma_query_value(None, "foreign_keys", |row| row.get(0)).unwrap();
    assert_eq!(on, 1, "PRAGMA foreign_keys debe ser 1 en cada conexión");
}

#[test]
fn schema_creates_domain_tables() {
    let conn = memory();
    let has_jurisdiccion: Option<String> = conn
        .query_row("SELECT name FROM sqlite_master WHERE type = 'table' AND name = 'jurisdicciones'", [], |row| row.get(0))
        .optional()
        .unwrap();
    assert_eq!(has_jurisdiccion.as_deref(), Some("jurisdicciones"));
    assert!(user_table_count(&mut Base::nueva(&conn)).unwrap() >= 20);
    let niveles: i64 = conn.query_row("SELECT COUNT(*) FROM niveles", [], |row| row.get(0)).unwrap();
    assert_eq!(niveles, 2);
    let ciclos: i64 = conn.query_row("SELECT COUNT(*) FROM ciclos", [], |row| row.get(0)).unwrap();
    assert_eq!(ciclos, 14);
}

#[test]
fn tercer_grado_y_tercer_anio_son_ciclos_distintos() {
    let conn = memory();
    conn.execute("INSERT INTO escuelas (id_jurisdiccion, nombre) VALUES (1, 'Normal 1')", []).unwrap();
    conn.execute("INSERT INTO materias (nombre) VALUES ('English')", []).unwrap();
    let grado: i64 = conn
        .query_row(
            "SELECT c.id FROM ciclos c JOIN niveles n ON n.id = c.id_nivel
             WHERE n.codigo = 'primaria' AND c.orden = 3",
            [],
            |row| row.get(0),
        )
        .unwrap();
    let anio: i64 = conn
        .query_row(
            "SELECT c.id FROM ciclos c JOIN niveles n ON n.id = c.id_nivel
             WHERE n.codigo = 'secundaria' AND c.orden = 3",
            [],
            |row| row.get(0),
        )
        .unwrap();
    assert_ne!(grado, anio);
    conn.execute(
        "INSERT INTO cursos (nombre, id_escuela, id_turno, id_division, id_ciclo, id_materia, id_anio_lectivo)
         VALUES ('3° A English primaria', 1, 1, 1, ?1, 1, 1)",
        [grado],
    )
    .unwrap();
    conn.execute(
        "INSERT INTO cursos (nombre, id_escuela, id_turno, id_division, id_ciclo, id_materia, id_anio_lectivo)
         VALUES ('3° A English secundaria', 1, 1, 1, ?1, 1, 1)",
        [anio],
    )
    .unwrap();
    let n: i64 = conn.query_row("SELECT COUNT(*) FROM cursos", [], |row| row.get(0)).unwrap();
    assert_eq!(n, 2);
}

#[test]
fn migrate_old_ciclos_keeps_secundaria_ids() {
    let conn = Connection::open_in_memory().unwrap();
    apply_pragmas(&mut Base::nueva(&conn)).unwrap();
    conn.execute_batch(
        "
        CREATE TABLE ciclos (
            id INTEGER PRIMARY KEY AUTOINCREMENT,
            nombre TEXT NOT NULL UNIQUE,
            orden INTEGER NOT NULL UNIQUE
        );
        INSERT INTO ciclos (nombre, orden) VALUES
            ('Primer Año', 1),
            ('Segundo Año', 2),
            ('Tercer Año', 3),
            ('Cuarto Año', 4),
            ('Quinto Año', 5),
            ('Sexto Año', 6),
            ('Séptimo Año', 7);
        CREATE TABLE cursos (
            id INTEGER PRIMARY KEY AUTOINCREMENT,
            nombre TEXT NOT NULL,
            id_ciclo INTEGER NOT NULL,
            FOREIGN KEY (id_ciclo) REFERENCES ciclos (id)
        );
        INSERT INTO cursos (nombre, id_ciclo) VALUES ('3° A', 3);
        ",
    )
    .unwrap();
    let old_tercer: i64 = conn.query_row("SELECT id FROM ciclos WHERE nombre = 'Tercer Año'", [], |row| row.get(0)).unwrap();
    prepare_connection(&mut Base::nueva(&conn)).unwrap();
    let new_tercer: i64 = conn
        .query_row(
            "SELECT c.id FROM ciclos c JOIN niveles n ON n.id = c.id_nivel
             WHERE c.nombre = 'Tercer Año' AND n.codigo = 'secundaria'",
            [],
            |row| row.get(0),
        )
        .unwrap();
    assert_eq!(old_tercer, new_tercer);
    let curso_ciclo: i64 = conn.query_row("SELECT id_ciclo FROM cursos WHERE nombre = '3° A'", [], |row| row.get(0)).unwrap();
    assert_eq!(curso_ciclo, new_tercer);
    let grados: i64 = conn
        .query_row(
            "SELECT COUNT(*) FROM ciclos c JOIN niveles n ON n.id = c.id_nivel
             WHERE n.codigo = 'primaria'",
            [],
            |row| row.get(0),
        )
        .unwrap();
    assert_eq!(grados, 7);
    let cursos_sql: String = conn
        .query_row("SELECT sql FROM sqlite_master WHERE type = 'table' AND name = 'cursos'", [], |row| row.get(0))
        .unwrap();
    assert!(
        !cursos_sql.to_ascii_lowercase().contains("ciclos_old"),
        "la FK de cursos no debe quedar apuntando a ciclos_old: {cursos_sql}"
    );
    conn.execute("INSERT INTO cursos (nombre, id_ciclo) VALUES ('4° A', 4)", [])
        .expect("insertar curso después de migrar ciclos");
    prepare_connection(&mut Base::nueva(&conn)).unwrap();
    let ciclos: i64 = conn.query_row("SELECT COUNT(*) FROM ciclos", [], |row| row.get(0)).unwrap();
    assert_eq!(ciclos, 14);
}

#[test]
fn repara_cursos_con_fk_a_ciclos_old() {
    let conn = Connection::open_in_memory().unwrap();
    apply_pragmas(&mut Base::nueva(&conn)).unwrap();
    conn.execute_batch(&schema_without_pragmas()).unwrap();
    conn.execute("INSERT INTO escuelas (id_jurisdiccion, nombre) VALUES (1, 'Normal 1')", []).unwrap();
    conn.execute("INSERT INTO materias (nombre) VALUES ('Inglés')", []).unwrap();
    conn.execute(
        "INSERT INTO cursos (nombre, id_escuela, id_turno, id_division, id_ciclo, id_materia, id_anio_lectivo)
         VALUES ('3° A Inglés', 1, 1, 1, 1, 1, 1)",
        [],
    )
    .unwrap();

    conn.pragma_update(None, "foreign_keys", false).unwrap();
    conn.pragma_update(None, "legacy_alter_table", true).unwrap();
    conn.execute_batch(
        "
        CREATE TABLE cursos_broken (
            id INTEGER PRIMARY KEY AUTOINCREMENT,
            nombre TEXT NOT NULL,
            id_escuela INTEGER NOT NULL,
            id_turno INTEGER NOT NULL,
            id_division INTEGER NOT NULL,
            id_ciclo INTEGER NOT NULL,
            id_materia INTEGER NOT NULL,
            id_anio_lectivo INTEGER NOT NULL,
            orientacion TEXT,
            FOREIGN KEY (id_escuela) REFERENCES escuelas (id) ON DELETE RESTRICT,
            FOREIGN KEY (id_turno) REFERENCES turnos (id) ON DELETE RESTRICT,
            FOREIGN KEY (id_division) REFERENCES divisiones (id) ON DELETE RESTRICT,
            FOREIGN KEY (id_ciclo) REFERENCES ciclos_old (id) ON DELETE RESTRICT,
            FOREIGN KEY (id_materia) REFERENCES materias (id) ON DELETE RESTRICT,
            FOREIGN KEY (id_anio_lectivo) REFERENCES anios_lectivos (id) ON DELETE RESTRICT,
            UNIQUE (id_escuela, id_turno, id_division, id_ciclo, id_materia, id_anio_lectivo)
        );
        INSERT INTO cursos_broken
            (id, nombre, id_escuela, id_turno, id_division, id_ciclo, id_materia, id_anio_lectivo, orientacion)
        SELECT id, nombre, id_escuela, id_turno, id_division, id_ciclo, id_materia, id_anio_lectivo, orientacion
        FROM cursos;
        DROP TABLE cursos;
        ALTER TABLE cursos_broken RENAME TO cursos;
        ",
    )
    .unwrap();
    conn.pragma_update(None, "legacy_alter_table", false).unwrap();
    conn.pragma_update(None, "foreign_keys", true).unwrap();

    let before = conn.execute(
        "INSERT INTO cursos (nombre, id_escuela, id_turno, id_division, id_ciclo, id_materia, id_anio_lectivo)
         VALUES ('1° B Inglés', 1, 1, 2, 1, 1, 1)",
        [],
    );
    let err = before.expect_err("el INSERT debe fallar mientras la FK apunte a ciclos_old");
    assert!(err.to_string().contains("ciclos_old"), "error inesperado: {err}");

    prepare_connection(&mut Base::nueva(&conn)).unwrap();

    conn.execute(
        "INSERT INTO cursos (nombre, id_escuela, id_turno, id_division, id_ciclo, id_materia, id_anio_lectivo)
         VALUES ('1° B Inglés', 1, 1, 2, 1, 1, 1)",
        [],
    )
    .expect("guardar curso después de reparar FK");
    let n: i64 = conn.query_row("SELECT COUNT(*) FROM cursos", [], |row| row.get(0)).unwrap();
    assert_eq!(n, 2);
    let cursos_sql: String = conn
        .query_row("SELECT sql FROM sqlite_master WHERE type = 'table' AND name = 'cursos'", [], |row| row.get(0))
        .unwrap();
    assert!(!cursos_sql.to_ascii_lowercase().contains("ciclos_old"));
}

#[test]
fn unique_active_year_is_enforced() {
    let conn = memory();
    let err = conn.execute("INSERT INTO anios_lectivos (anio, activo) VALUES (2027, 1)", []);
    assert!(err.is_err(), "un solo año lectivo activo");
}

#[test]
fn foreign_keys_block_orphan_curso() {
    let conn = memory();
    let err = conn.execute(
        "INSERT INTO cursos (nombre, id_escuela, id_turno, id_division, id_ciclo, id_materia, id_anio_lectivo)
         VALUES ('x', 999, 1, 1, 1, 1, 1)",
        [],
    );
    assert!(err.is_err(), "FK escuela debe fallar con foreign_keys=ON");
}

#[test]
fn prepare_does_not_drop_existing_data() {
    let conn = memory();
    conn.execute("INSERT INTO materias (nombre) VALUES ('Matemática')", []).unwrap();
    prepare_connection(&mut Base::nueva(&conn)).unwrap();
    let n: i64 = conn.query_row("SELECT COUNT(*) FROM materias", [], |row| row.get(0)).unwrap();
    assert_eq!(n, 1);
}

#[test]
fn migrate_alumnos_v12_tira_dni_y_conserva_id() {
    let conn = Connection::open_in_memory().unwrap();
    apply_pragmas(&mut Base::nueva(&conn)).unwrap();
    conn.execute_batch(
        "
        CREATE TABLE alumnos (
            id INTEGER PRIMARY KEY AUTOINCREMENT,
            nombre TEXT NOT NULL,
            apellido TEXT NOT NULL,
            dni TEXT UNIQUE,
            email TEXT,
            telefono TEXT,
            fecha_nacimiento TEXT
        );
        INSERT INTO alumnos (id, nombre, apellido, dni, email, telefono, fecha_nacimiento)
        VALUES (7, 'Lucía', 'García', '30111222', 'a@b.com', '111', '2012-03-01');
        CREATE TABLE notas (
            id INTEGER PRIMARY KEY AUTOINCREMENT,
            id_alumno INTEGER NOT NULL,
            valor TEXT,
            FOREIGN KEY (id_alumno) REFERENCES alumnos (id) ON DELETE CASCADE
        );
        INSERT INTO notas (id_alumno, valor) VALUES (7, '8');
        ",
    )
    .unwrap();
    prepare_connection(&mut Base::nueva(&conn)).unwrap();
    assert!(!column_exists(&mut Base::nueva(&conn), "alumnos", "dni").unwrap());
    assert!(!column_exists(&mut Base::nueva(&conn), "alumnos", "email").unwrap());
    assert!(!column_exists(&mut Base::nueva(&conn), "alumnos", "telefono").unwrap());
    assert!(!column_exists(&mut Base::nueva(&conn), "alumnos", "fecha_nacimiento").unwrap());
    let (id, nombre, apellido): (i64, String, String) = conn
        .query_row("SELECT id, nombre, apellido FROM alumnos WHERE id = 7", [], |row| {
            Ok((row.get(0)?, row.get(1)?, row.get(2)?))
        })
        .unwrap();
    assert_eq!(id, 7);
    assert_eq!(nombre, "Lucía");
    assert_eq!(apellido, "García");
    let n_notas: i64 = conn.query_row("SELECT COUNT(*) FROM notas WHERE id_alumno = 7", [], |row| row.get(0)).unwrap();
    assert_eq!(n_notas, 1);
    conn.execute("INSERT INTO alumnos (nombre, apellido) VALUES ('Lucía', 'García')", [])
        .expect("homónimos permitidos tras sacar unique de DNI");
    prepare_connection(&mut Base::nueva(&conn)).unwrap();
    let n: i64 = conn.query_row("SELECT COUNT(*) FROM alumnos", [], |row| row.get(0)).unwrap();
    assert_eq!(n, 2);
}

#[test]
fn esquema_sin_lineas_pragma() {
    let sin = schema_without_pragmas();
    assert!(SCHEMA_SQL.contains("PRAGMA foreign_keys"));
    assert!(!sin.to_ascii_uppercase().lines().any(|l| l.trim_start().starts_with("PRAGMA ")));
    assert!(sin.contains("CREATE TABLE jurisdicciones"));
    let esperado = SCHEMA_SQL
        .lines()
        .filter(|line| !line.trim_start().to_ascii_uppercase().starts_with("PRAGMA "))
        .collect::<Vec<_>>()
        .join("\n");
    assert_eq!(sin, esperado);
}

#[test]
fn estado_de_la_base() {
    let conn = memory();
    let st = status_of(&mut Base::nueva(&conn), None).unwrap();
    assert_eq!(st.path, ":memory:");
    assert_eq!(st.foreign_keys, 1);
    assert_eq!(st.journal_mode, "MEMORY");
    assert!(st.tables >= 20);
    assert_eq!(status_of(&mut Base::nueva(&conn), Some("/tmp/x.sqlite")).unwrap().path, "/tmp/x.sqlite");
    assert_eq!(db_status(None, "x").unwrap_err(), "El cuaderno está cerrado. Ingresá la clave.");
    assert!(table_exists(&mut Base::nueva(&conn), "cursos").unwrap());
    assert!(!table_exists(&mut Base::nueva(&conn), "ciclos_old").unwrap());
    assert!(column_exists(&mut Base::nueva(&conn), "CURSOS", "Orientacion").unwrap());
}

#[test]
fn reparacion_de_ciclos_segun_tablas() {
    assert_eq!(ciclos_semilla().len(), 14);
    assert!(matches!(reparacion_ciclos(false, false, false), ReparacionCiclos::Nada));
    assert!(matches!(reparacion_ciclos(true, false, false), ReparacionCiclos::Nada));
    assert!(matches!(reparacion_ciclos(false, true, false), ReparacionCiclos::Renombrar));
    assert!(matches!(reparacion_ciclos(true, true, true), ReparacionCiclos::BorrarVieja));
    assert!(matches!(reparacion_ciclos(true, true, false), ReparacionCiclos::Nada));
    assert_eq!(map_sql_error(ErrorDb::NoEncontrado), "No se encontró el registro.");
}
