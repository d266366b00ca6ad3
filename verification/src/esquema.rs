//! Esquema del cuaderno (v1.3): tablas, índices y catálogos iniciales.

use vstd::prelude::*;
use vstd::string::StringExecFns;
use crate::cadena::{
    caracteres, cadena, contiene, contiene_en, en_minusculas, a_minusculas, es_blanco, blanco,
    sin_blancos_izq, lema_izq_desde,
};
use crate::validar::{primer_indice, lema_primer_indice, lema_primer_indice_rango};
use crate::db::{
    Base, Envio, Dato, datos, comienzo, args0, args1, args3, respuesta_con, para_docente,
    CERRADO, falla_de_base, Valor, ErrorDb, ejecuta, consulta, ejecuta_lote, consulta_entero,
    existe, col_texto,
};
use crate::domain::DbStatus;

verus! {

/// DDL y semillas de una base nueva. Las líneas `PRAGMA` documentan el uso suelto del archivo;
/// al abrir la base, los pragmas los pone la conexión.
pub const SCHEMA_SQL: &'static str = "-- Adm Cursos Secundaria, esquema v1.3 (SQLite)
PRAGMA foreign_keys = ON;
PRAGMA journal_mode = WAL;

CREATE TABLE jurisdicciones (
    id INTEGER PRIMARY KEY AUTOINCREMENT,
    codigo TEXT NOT NULL UNIQUE,
    nombre TEXT NOT NULL UNIQUE
);

CREATE TABLE turnos (
    id INTEGER PRIMARY KEY AUTOINCREMENT,
    nombre TEXT NOT NULL UNIQUE
);

CREATE TABLE divisiones (
    id INTEGER PRIMARY KEY AUTOINCREMENT,
    nombre TEXT NOT NULL UNIQUE
);

CREATE TABLE niveles (
    id INTEGER PRIMARY KEY AUTOINCREMENT,
    codigo TEXT NOT NULL UNIQUE,
    nombre TEXT NOT NULL UNIQUE
);

CREATE TABLE ciclos (
    id INTEGER PRIMARY KEY AUTOINCREMENT,
    id_nivel INTEGER NOT NULL,
    nombre TEXT NOT NULL,
    orden INTEGER NOT NULL,
    FOREIGN KEY (id_nivel) REFERENCES niveles (id) ON DELETE RESTRICT,
    UNIQUE (id_nivel, nombre),
    UNIQUE (id_nivel, orden)
);
CREATE INDEX ix_ciclos_nivel ON ciclos (id_nivel);

CREATE TABLE anios_lectivos (
    id INTEGER PRIMARY KEY AUTOINCREMENT,
    anio INTEGER NOT NULL UNIQUE,
    activo INTEGER NOT NULL DEFAULT 0 CHECK (activo IN (0, 1))
);
CREATE UNIQUE INDEX ux_anios_lectivos_activo ON anios_lectivos (activo) WHERE activo = 1;

CREATE TABLE tipos_evento (
    id INTEGER PRIMARY KEY AUTOINCREMENT,
    codigo TEXT NOT NULL UNIQUE,
    nombre TEXT NOT NULL
);

CREATE TABLE tipos_evaluacion (
    id INTEGER PRIMARY KEY AUTOINCREMENT,
    codigo TEXT NOT NULL UNIQUE,
    nombre TEXT NOT NULL
);

CREATE TABLE tipos_observacion (
    id INTEGER PRIMARY KEY AUTOINCREMENT,
    codigo TEXT NOT NULL UNIQUE,
    nombre TEXT NOT NULL
);

CREATE TABLE estados_asistencia (
    id INTEGER PRIMARY KEY AUTOINCREMENT,
    codigo TEXT NOT NULL UNIQUE,
    nombre TEXT NOT NULL
);

CREATE TABLE escuelas (
    id INTEGER PRIMARY KEY AUTOINCREMENT,
    id_jurisdiccion INTEGER NOT NULL,
    nombre TEXT NOT NULL,
    nombre_corto TEXT,
    direccion TEXT,
    telefono TEXT,
    email TEXT,
    FOREIGN KEY (id_jurisdiccion) REFERENCES jurisdicciones (id) ON DELETE RESTRICT,
    UNIQUE (id_jurisdiccion, nombre)
);

CREATE TABLE materias (
    id INTEGER PRIMARY KEY AUTOINCREMENT,
    nombre TEXT NOT NULL UNIQUE
);

CREATE TABLE cursos (
    id INTEGER PRIMARY KEY AUTOINCREMENT,
    nombre TEXT NOT NULL,
    id_escuela INTEGER NOT NULL,
    id_turno INTEGER NOT NULL,
    id_division INTEGER NOT NULL,
    id_ciclo INTEGER NOT NULL,
    id_materia INTEGER NOT NULL,
    id_anio_lectivo INTEGER NOT NULL,
    orientacion TEXT,
    FOREIGN KEY (id_escuela) REFERENCES escuelas (id) ON DELETE RESTRICT,
    FOREIGN KEY (id_turno) REFERENCES turnos (id) ON DELETE RESTRICT,
    FOREIGN KEY (id_division) REFERENCES divisiones (id) ON DELETE RESTRICT,
    FOREIGN KEY (id_ciclo) REFERENCES ciclos (id) ON DELETE RESTRICT,
    FOREIGN KEY (id_materia) REFERENCES materias (id) ON DELETE RESTRICT,
    FOREIGN KEY (id_anio_lectivo) REFERENCES anios_lectivos (id) ON DELETE RESTRICT,
    UNIQUE (id_escuela, id_turno, id_division, id_ciclo, id_materia, id_anio_lectivo)
);
CREATE INDEX ix_cursos_anio ON cursos (id_anio_lectivo);
CREATE INDEX ix_cursos_escuela ON cursos (id_escuela);

CREATE TABLE alumnos (
    id INTEGER PRIMARY KEY AUTOINCREMENT,
    nombre TEXT NOT NULL,
    apellido TEXT NOT NULL
);
CREATE INDEX ix_alumnos_apellido_nombre ON alumnos (apellido, nombre);

CREATE TABLE alumnos_cursos (
    id INTEGER PRIMARY KEY AUTOINCREMENT,
    id_alumno INTEGER NOT NULL,
    id_curso INTEGER NOT NULL,
    FOREIGN KEY (id_alumno) REFERENCES alumnos (id) ON DELETE CASCADE,
    FOREIGN KEY (id_curso) REFERENCES cursos (id) ON DELETE CASCADE,
    UNIQUE (id_alumno, id_curso)
);
CREATE INDEX ix_alumnos_cursos_curso ON alumnos_cursos (id_curso);

CREATE TABLE horarios (
    id INTEGER PRIMARY KEY AUTOINCREMENT,
    id_curso INTEGER NOT NULL,
    dia_semana INTEGER NOT NULL CHECK (dia_semana BETWEEN 1 AND 7),
    hora_inicio TEXT NOT NULL,
    hora_fin TEXT NOT NULL,
    aula TEXT,
    FOREIGN KEY (id_curso) REFERENCES cursos (id) ON DELETE CASCADE,
    UNIQUE (id_curso, dia_semana, hora_inicio)
);

CREATE TABLE eventos (
    id INTEGER PRIMARY KEY AUTOINCREMENT,
    id_curso INTEGER,
    id_tipo_evento INTEGER NOT NULL,
    fecha TEXT NOT NULL,
    hora TEXT,
    titulo TEXT NOT NULL,
    descripcion TEXT,
    FOREIGN KEY (id_curso) REFERENCES cursos (id) ON DELETE CASCADE,
    FOREIGN KEY (id_tipo_evento) REFERENCES tipos_evento (id) ON DELETE RESTRICT
);
CREATE INDEX ix_eventos_fecha ON eventos (fecha);

CREATE TABLE evaluaciones (
    id INTEGER PRIMARY KEY AUTOINCREMENT,
    id_curso INTEGER NOT NULL,
    id_tipo_evaluacion INTEGER NOT NULL,
    id_evaluacion_origen INTEGER,
    titulo TEXT NOT NULL,
    fecha TEXT NOT NULL,
    tema TEXT,
    ponderacion TEXT NOT NULL DEFAULT '1',
    FOREIGN KEY (id_curso) REFERENCES cursos (id) ON DELETE RESTRICT,
    FOREIGN KEY (id_tipo_evaluacion) REFERENCES tipos_evaluacion (id) ON DELETE RESTRICT,
    FOREIGN KEY (id_evaluacion_origen) REFERENCES evaluaciones (id) ON DELETE SET NULL
);
CREATE INDEX ix_evaluaciones_curso_fecha ON evaluaciones (id_curso, fecha);

CREATE TABLE notas (
    id INTEGER PRIMARY KEY AUTOINCREMENT,
    id_evaluacion INTEGER NOT NULL,
    id_alumno INTEGER NOT NULL,
    valor TEXT,
    ausente INTEGER NOT NULL DEFAULT 0 CHECK (ausente IN (0, 1)),
    comentario TEXT,
    FOREIGN KEY (id_evaluacion) REFERENCES evaluaciones (id) ON DELETE CASCADE,
    FOREIGN KEY (id_alumno) REFERENCES alumnos (id) ON DELETE CASCADE,
    UNIQUE (id_evaluacion, id_alumno),
    CONSTRAINT ck_notas_ausente_sin_valor CHECK (ausente = 0 OR valor IS NULL)
);

CREATE TABLE observaciones (
    id INTEGER PRIMARY KEY AUTOINCREMENT,
    id_alumno INTEGER NOT NULL,
    id_curso INTEGER NOT NULL,
    id_tipo_observacion INTEGER NOT NULL,
    fecha TEXT NOT NULL,
    texto TEXT NOT NULL,
    FOREIGN KEY (id_alumno) REFERENCES alumnos (id) ON DELETE CASCADE,
    FOREIGN KEY (id_curso) REFERENCES cursos (id) ON DELETE RESTRICT,
    FOREIGN KEY (id_tipo_observacion) REFERENCES tipos_observacion (id) ON DELETE RESTRICT
);

CREATE TABLE asistencias (
    id INTEGER PRIMARY KEY AUTOINCREMENT,
    id_curso INTEGER NOT NULL,
    id_alumno INTEGER NOT NULL,
    fecha TEXT NOT NULL,
    id_estado_asistencia INTEGER NOT NULL,
    FOREIGN KEY (id_curso) REFERENCES cursos (id) ON DELETE RESTRICT,
    FOREIGN KEY (id_alumno) REFERENCES alumnos (id) ON DELETE CASCADE,
    FOREIGN KEY (id_estado_asistencia) REFERENCES estados_asistencia (id) ON DELETE RESTRICT,
    UNIQUE (id_curso, id_alumno, fecha)
);

INSERT INTO jurisdicciones (codigo, nombre) VALUES
    ('pba', 'Provincia de Buenos Aires'),
    ('caba', 'Ciudad de Buenos Aires'),
    ('otra', 'Otra');

INSERT INTO turnos (nombre) VALUES ('Mañana'), ('Tarde'), ('Vespertino'), ('Noche');

INSERT INTO divisiones (nombre) VALUES ('A'), ('B'), ('C'), ('D');

INSERT INTO niveles (codigo, nombre) VALUES ('primaria', 'Primaria'), ('secundaria', 'Secundaria');

INSERT INTO ciclos (id_nivel, nombre, orden) VALUES
    (1, 'Primer Grado', 1),
    (1, 'Segundo Grado', 2),
    (1, 'Tercer Grado', 3),
    (1, 'Cuarto Grado', 4),
    (1, 'Quinto Grado', 5),
    (1, 'Sexto Grado', 6),
    (1, 'Séptimo Grado', 7),
    (2, 'Primer Año', 1),
    (2, 'Segundo Año', 2),
    (2, 'Tercer Año', 3),
    (2, 'Cuarto Año', 4),
    (2, 'Quinto Año', 5),
    (2, 'Sexto Año', 6),
    (2, 'Séptimo Año', 7);

INSERT INTO anios_lectivos (anio, activo) VALUES (2026, 1);

INSERT INTO tipos_evento (codigo, nombre) VALUES
    ('tema', 'Tema'),
    ('entrega', 'Entrega'),
    ('reunion', 'Reunión'),
    ('junta', 'Junta'),
    ('acto', 'Acto'),
    ('otro', 'Otro');

INSERT INTO tipos_evaluacion (codigo, nombre) VALUES
    ('escrito', 'Escrito'),
    ('oral', 'Oral'),
    ('tp', 'Trabajo práctico'),
    ('integrador', 'Integrador'),
    ('recuperatorio', 'Recuperatorio');

INSERT INTO tipos_observacion (codigo, nombre) VALUES
    ('academica', 'Académica'),
    ('conducta', 'Conducta'),
    ('seguimiento', 'Seguimiento'),
    ('reunion_familia', 'Reunión con familia');

INSERT INTO estados_asistencia (codigo, nombre) VALUES
    ('presente', 'Presente'),
    ('ausente', 'Ausente'),
    ('tarde', 'Tarde'),
    ('justificado', 'Justificado');
";


/// Mayúscula ASCII (lo que hace `char::to_ascii_uppercase`).
pub open spec fn mayuscula(c: char) -> char {
    if 'a' <= c <= 'z' {
        ((c as u32) - 32) as char
    } else {
        c
    }
}

/// Línea que, sin blancos al principio y en mayúsculas ASCII, empieza con `PRAGMA `.
pub open spec fn es_pragma(l: Seq<char>) -> bool {
    let t = sin_blancos_izq(l);
    t.len() >= 7 && t.take(7).map_values(|c: char| mayuscula(c)) == seq!['P', 'R', 'A', 'G', 'M', 'A', ' ']
}

/// Las líneas de `s` (lo que da `str::lines`): se corta en cada `\n`, se quita un `\r` justo
/// antes del `\n`, y no hay línea vacía después del último `\n`.
pub open spec fn lineas(s: Seq<char>) -> Seq<Seq<char>>
    decreases s.len(),
{
    if s.len() == 0 {
        Seq::empty()
    } else {
        let i = crate::validar::primer_indice(s, '\n');
        proof {
            crate::validar::lema_primer_indice_rango(s, '\n');
        }
        if i < 0 {
            seq![s]
        } else {
            let l = s.take(i);
            let l2 = if l.len() > 0 && l.last() == '\r' { l.drop_last() } else { l };
            seq![l2] + lineas(s.skip(i + 1))
        }
    }
}

/// Las líneas que no son `PRAGMA`, en orden.
pub open spec fn no_pragmas(ls: Seq<Seq<char>>) -> Seq<Seq<char>>
    decreases ls.len(),
{
    if ls.len() == 0 {
        Seq::empty()
    } else if es_pragma(ls[0]) {
        no_pragmas(ls.drop_first())
    } else {
        seq![ls[0]] + no_pragmas(ls.drop_first())
    }
}

/// Líneas unidas con `\n` (lo que hace `join("\n")`).
pub open spec fn unidas(ls: Seq<Seq<char>>) -> Seq<char>
    decreases ls.len(),
{
    if ls.len() == 0 {
        Seq::empty()
    } else if ls.len() == 1 {
        ls[0]
    } else {
        ls[0] + seq!['\n'] + unidas(ls.drop_first())
    }
}

/// El esquema sin sus líneas `PRAGMA`.
pub open spec fn esquema_sin_pragmas(s: Seq<char>) -> Seq<char> {
    unidas(no_pragmas(lineas(s)))
}


/// Los pragmas de cada conexión: espera si está ocupada, claves foráneas encendidas y diario WAL.
pub open spec fn pragmas(antes: Seq<Envio>) -> Seq<Envio> {
    antes.push(Envio::Consulta(ESPERA_OCUPADA@, Seq::<Dato>::empty())).push(
        Envio::Ejecuta(CLAVES_FORANEAS_ON@, Seq::<Dato>::empty()),
    ).push(Envio::Consulta(DIARIO_WAL@, Seq::<Dato>::empty()))
}

pub const ESPERA_OCUPADA: &'static str = "PRAGMA busy_timeout = 5000";
pub const CLAVES_FORANEAS_ON: &'static str = "PRAGMA foreign_keys = ON";
pub const DIARIO_WAL: &'static str = "PRAGMA journal_mode = WAL";

/// Lo mandado de `pragmas`, hasta donde se llegó: solo la espera, la espera y las claves
/// foráneas, o los tres.
pub open spec fn pragmas_en_parte(antes: Seq<Envio>, despues: Seq<Envio>) -> bool {
    let a = antes.push(Envio::Consulta(ESPERA_OCUPADA@, Seq::<Dato>::empty()));
    despues == a || despues == a.push(Envio::Ejecuta(CLAVES_FORANEAS_ON@, Seq::<Dato>::empty())) || despues == pragmas(antes)
}

/// Cada conexión: espera de 5 s si la base está ocupada, claves foráneas y diario WAL.
pub fn apply_pragmas(conn: &mut Base) -> (r: Result<(), ErrorDb>)
    ensures
        r is Ok ==> final(conn).enviadas@ == pragmas(old(conn).enviadas@),
        pragmas_en_parte(old(conn).enviadas@, final(conn).enviadas@),
        falla_de_base(r),
{
    consulta(conn, ESPERA_OCUPADA, &args0())?;
    ejecuta(conn, CLAVES_FORANEAS_ON, &args0())?;
    consulta(conn, DIARIO_WAL, &args0())?;
    Ok(())
}

/// Prepara una conexión nueva: pragmas, esquema (o migraciones) y de nuevo las claves foráneas.
pub fn prepare_connection(conn: &mut Base) -> (r: Result<(), ErrorDb>)
    ensures
        conexion_en_parte(old(conn).enviadas@, final(conn).enviadas@),
        r is Ok ==> exists|m: Seq<Envio>|
            esquema_listo(pragmas(old(conn).enviadas@), m) && final(conn).enviadas@ == #[trigger] pragmas(m),
        falla_de_base(r),
{
    apply_pragmas(conn)?;
    ensure_schema(conn)?;
    apply_pragmas(conn)?;
    Ok(())
}

pub const CONTAR_TABLAS: &'static str = "SELECT COUNT(*) FROM sqlite_master WHERE type = 'table' AND name NOT LIKE 'sqlite_%'";

/// Cantidad de tablas propias (sin las `sqlite_*`).
pub fn user_table_count(conn: &mut Base) -> (r: Result<i64, ErrorDb>)
    ensures
        final(conn).enviadas@ == old(conn).enviadas@.push(Envio::Consulta(CONTAR_TABLAS@, Seq::<Dato>::empty())),
        falla_de_base(r),
{
    consulta_entero(
        conn,
        CONTAR_TABLAS,
        &args0(),
    )
}

/// Base vacía: se crea el esquema. Si no, se reparan y migran versiones anteriores.
fn ensure_schema(conn: &mut Base) -> (r: Result<(), ErrorDb>)
    ensures
        esquema_en_parte(old(conn).enviadas@, final(conn).enviadas@),
        falla_de_base(r),
        r is Ok ==> esquema_listo(old(conn).enviadas@, final(conn).enviadas@),
{
    let tables = user_table_count(conn)?;
    esquema_segun(conn, tables)
}

/// Con la cantidad de tablas propias que se leyó: en una base vacía se manda el esquema (sin sus
/// líneas `PRAGMA`) y nada más; en otra, nunca el esquema, solo las reparaciones y migraciones.
pub fn esquema_segun(conn: &mut Base, tablas: i64) -> (r: Result<(), ErrorDb>)
    ensures
        falla_de_base(r),
        tablas == 0 ==> final(conn).enviadas@ == old(conn).enviadas@.push(Envio::Lote(esquema_sin_pragmas(SCHEMA_SQL@))),
        tablas != 0 && r is Ok ==> migraciones(old(conn).enviadas@, final(conn).enviadas@),
        tablas != 0 ==> migraciones_en_parte(old(conn).enviadas@, final(conn).enviadas@),
{
    if tablas == 0 {
        let sql = schema_without_pragmas();
        return ejecuta_lote(conn, sql.as_str());
    }
    let ghost m0 = conn.enviadas@;
    heal_ciclos_rename_leftovers(conn)?;
    let ghost m1 = conn.enviadas@;
    migrate_niveles_y_ciclos(conn)?;
    let ghost m2 = conn.enviadas@;
    repair_cursos_fk_ciclos_old(conn)?;
    let ghost m3 = conn.enviadas@;
    migrate_alumnos_ficha_minima(conn)?;
    assert(ciclos_sanados(m0, m1) && niveles_migrados(m1, m2) && cursos_reparados(m2, m3) && alumnos_migrados(m3, conn.enviadas@));
    Ok(())
}

/// Lo mandado a una base con tablas: la reparación de `ciclos`, la migración a niveles, la
/// reparación de `cursos` y la de la ficha de alumnos, en ese orden.
pub open spec fn migraciones(antes: Seq<Envio>, despues: Seq<Envio>) -> bool {
    exists|m1: Seq<Envio>, m2: Seq<Envio>, m3: Seq<Envio>|
        #![trigger ciclos_sanados(antes, m1), niveles_migrados(m1, m2), cursos_reparados(m2, m3)]
        ciclos_sanados(antes, m1) && niveles_migrados(m1, m2) && cursos_reparados(m2, m3) && alumnos_migrados(m3, despues)
}

/// Lo mandado a una base con tablas, hasta donde se llegó: cada migración completa, en orden, y
/// la siguiente hasta donde llegó.
pub open spec fn migraciones_en_parte(antes: Seq<Envio>, despues: Seq<Envio>) -> bool {
    ||| sanado_en_parte(antes, despues)
    ||| exists|m1: Seq<Envio>|
        #![trigger ciclos_sanados(antes, m1)]
        ciclos_sanados(antes, m1) && (niveles_en_parte(m1, despues) || exists|m2: Seq<Envio>|
            #![trigger niveles_migrados(m1, m2)]
            niveles_migrados(m1, m2) && (reparacion_cursos_en_parte(m2, despues) || exists|m3: Seq<Envio>|
                #![trigger cursos_reparados(m2, m3)]
                cursos_reparados(m2, m3) && ficha_en_parte(m3, despues)))
}

/// Lo mandado para dejar listo el esquema, hasta donde se llegó: la cuenta de tablas y el esquema
/// entero, o las migraciones hasta donde llegaron.
pub open spec fn esquema_en_parte(antes: Seq<Envio>, despues: Seq<Envio>) -> bool {
    let a = antes.push(Envio::Consulta(CONTAR_TABLAS@, Seq::<Dato>::empty()));
    despues == a || despues == a.push(Envio::Lote(esquema_sin_pragmas(SCHEMA_SQL@))) || migraciones_en_parte(a, despues)
}

/// Lo mandado al preparar una conexión, hasta donde se llegó: los pragmas, el esquema y otra vez
/// los pragmas.
pub open spec fn conexion_en_parte(antes: Seq<Envio>, despues: Seq<Envio>) -> bool {
    ||| pragmas_en_parte(antes, despues)
    ||| esquema_en_parte(pragmas(antes), despues)
    ||| exists|m: Seq<Envio>|
        #![trigger esquema_listo(pragmas(antes), m)]
        esquema_listo(pragmas(antes), m) && pragmas_en_parte(m, despues)
}

/// Lo mandado para dejar listo el esquema: la cuenta de tablas y, según ella, el esquema entero
/// (base vacía) o las migraciones.
pub open spec fn esquema_listo(antes: Seq<Envio>, despues: Seq<Envio>) -> bool {
    let a = antes.push(Envio::Consulta(CONTAR_TABLAS@, Seq::<Dato>::empty()));
    despues == a.push(Envio::Lote(esquema_sin_pragmas(SCHEMA_SQL@))) || migraciones(a, despues)
}

pub const TABLA_EXISTE: &'static str = "SELECT COUNT(*) FROM sqlite_master WHERE type = 'table' AND name = ?1";

/// Hay una tabla con ese nombre.
pub fn table_exists(conn: &mut Base, name: &str) -> (r: Result<bool, ErrorDb>)
    ensures
        final(conn).enviadas@ == old(conn).enviadas@.push(Envio::Consulta(TABLA_EXISTE@, seq![Dato::Texto(name@)])),
        falla_de_base(r),
{
    existe(
        conn,
        TABLA_EXISTE,
        &args1(Valor::Texto(name.to_owned())),
    )
}

/// Dos nombres iguales sin distinguir mayúsculas ASCII.
fn igual_sin_mayusculas(a: &Vec<char>, b: &Vec<char>) -> (r: bool)
    ensures
        r == (en_minusculas(a@) == en_minusculas(b@)),
{
    let x = a_minusculas(a);
    let y = a_minusculas(b);
    if x.len() != y.len() {
        return false;
    }
    let mut i: usize = 0;
    while i < x.len()
        invariant
            i <= x.len() == y.len(),
            x@ == en_minusculas(a@),
            y@ == en_minusculas(b@),
            forall|k: int| 0 <= k < i ==> x@[k] == y@[k],
        decreases x.len() - i,
    {
        if x[i] != y[i] {
            assert(x@[i as int] != y@[i as int]);
            return false;
        }
        i = i + 1;
    }
    assert(x@ =~= y@);
    true
}

/// La tabla tiene una columna con ese nombre (sin distinguir mayúsculas).
pub fn column_exists(conn: &mut Base, table: &str, column: &str) -> (r: Result<bool, ErrorDb>)
    ensures
        final(conn).enviadas@ == old(conn).enviadas@.push(Envio::Consulta("PRAGMA table_info("@ + table@ + ")"@, Seq::<Dato>::empty())),
        falla_de_base(r),
{
    let mut sql = "PRAGMA table_info(".to_owned();
    sql.append(table);
    sql.append(")");
    let filas = consulta(conn, sql.as_str(), &args0())?;
    let col = caracteres(column);
    let mut i: usize = 0;
    while i < filas.len()
        invariant
            conn.enviadas@ == old(conn).enviadas@.push(Envio::Consulta("PRAGMA table_info("@ + table@ + ")"@, Seq::<Dato>::empty())),
            i <= filas@.len(),
        decreases filas@.len() - i,
    {
        if filas[i].len() > 1 {
            let name = col_texto(&filas[i], 1)?;
            if igual_sin_mayusculas(&caracteres(name.as_str()), &col) {
                return Ok(true);
            }
        }
        i = i + 1;
    }
    Ok(false)
}

pub const SQL_DE_TABLA: &'static str = "SELECT sql FROM sqlite_master WHERE type = 'table' AND name = ?1";

/// El SQL de creación de la tabla contiene `needle` (sin distinguir mayúsculas ASCII).
fn table_sql_contains(conn: &mut Base, table: &str, needle: &str) -> (r: Result<bool, ErrorDb>)
    ensures
        final(conn).enviadas@ == old(conn).enviadas@.push(Envio::Consulta(SQL_DE_TABLA@, seq![Dato::Texto(table@)])),
        falla_de_base(r),
{
    let filas = consulta(
        conn,
        SQL_DE_TABLA,
        &args1(Valor::Texto(table.to_owned())),
    )?;
    if filas.len() == 0 || filas[0].len() == 0 {
        return Ok(false);
    }
    match &filas[0][0] {
        Valor::Texto(sql) => {
            let a = a_minusculas(&caracteres(sql.as_str()));
            let b = a_minusculas(&caracteres(needle));
            Ok(contiene_en(&a, &b))
        },
        _ => Ok(false),
    }
}

/// Lo mandado al dejar el contador de `table` en su mayor `id`: si existe `sqlite_sequence`
/// (`hay`), se borra la fila de la tabla y se vuelve a poner con `MAX(id)`.
pub open spec fn reiniciar_secuencia(antes: Seq<Envio>, table: Seq<char>, hay: bool) -> Seq<Envio> {
    let a = antes.push(Envio::Consulta(TABLA_EXISTE@, seq![Dato::Texto("sqlite_sequence"@)]));
    if hay {
        a.push(Envio::Ejecuta(BORRAR_SECUENCIA@, seq![Dato::Texto(table)])).push(
            Envio::Ejecuta(PONER_SECUENCIA@ + table, seq![Dato::Texto(table)]),
        )
    } else {
        a
    }
}

pub const BORRAR_SECUENCIA: &'static str = "DELETE FROM sqlite_sequence WHERE name = ?1";
pub const PONER_SECUENCIA: &'static str = "INSERT INTO sqlite_sequence (name, seq) SELECT ?1, COALESCE(MAX(id), 0) FROM ";

/// Lo mandado de `reiniciar_secuencia(antes, table, true)`, hasta donde se llegó (con solo la
/// primera consulta, también es el caso sin `sqlite_sequence`).
pub open spec fn reinicio_en_parte(antes: Seq<Envio>, despues: Seq<Envio>, table: Seq<char>) -> bool {
    let a = reiniciar_secuencia(antes, table, false);
    despues == a || despues == a.push(Envio::Ejecuta(BORRAR_SECUENCIA@, seq![Dato::Texto(table)]))
        || despues == reiniciar_secuencia(antes, table, true)
}

/// Deja el contador de `AUTOINCREMENT` de la tabla en su mayor `id`.
fn reset_sqlite_sequence(conn: &mut Base, table: &str) -> (r: Result<(), ErrorDb>)
    ensures
        reinicio_en_parte(old(conn).enviadas@, final(conn).enviadas@, table@),
        r is Ok ==> final(conn).enviadas@ == reiniciar_secuencia(old(conn).enviadas@, table@, false) || final(conn).enviadas@ == reiniciar_secuencia(old(conn).enviadas@, table@, true),
        falla_de_base(r),
{
    if !table_exists(conn, "sqlite_sequence")? {
        return Ok(());
    }
    ejecuta(conn, BORRAR_SECUENCIA, &args1(Valor::Texto(table.to_owned())))?;
    let mut sql = PONER_SECUENCIA.to_owned();
    sql.append(table);
    ejecuta(conn, sql.as_str(), &args1(Valor::Texto(table.to_owned())))?;
    Ok(())
}

/// Antes de reconstruir: claves foráneas apagadas y `legacy_alter_table` encendido.
pub open spec fn entrar(antes: Seq<Envio>) -> Seq<Envio> {
    antes.push(Envio::Ejecuta(CLAVES_FORANEAS_OFF@, Seq::<Dato>::empty())).push(
        Envio::Ejecuta(ALTER_LEGADO_ON@, Seq::<Dato>::empty()),
    )
}

/// Después de reconstruir: `legacy_alter_table` apagado y claves foráneas encendidas.
pub open spec fn salir(antes: Seq<Envio>) -> Seq<Envio> {
    antes.push(Envio::Ejecuta(ALTER_LEGADO_OFF@, Seq::<Dato>::empty())).push(
        Envio::Ejecuta(CLAVES_FORANEAS_ON@, Seq::<Dato>::empty()),
    )
}

pub const CLAVES_FORANEAS_OFF: &'static str = "PRAGMA foreign_keys = OFF";
pub const ALTER_LEGADO_ON: &'static str = "PRAGMA legacy_alter_table = ON";

/// Lo mandado de `entrar`, hasta donde se llegó.
pub open spec fn entrada_en_parte(antes: Seq<Envio>, despues: Seq<Envio>) -> bool {
    despues == antes.push(Envio::Ejecuta(CLAVES_FORANEAS_OFF@, Seq::<Dato>::empty())) || despues == entrar(antes)
}

/// Antes de reconstruir una tabla: sin claves foráneas y con `legacy_alter_table`, para que un
/// `RENAME` no reescriba las claves foráneas de otras tablas.
fn entrar_reconstruccion(conn: &mut Base) -> (r: Result<(), ErrorDb>)
    ensures
        r is Ok ==> final(conn).enviadas@ == entrar(old(conn).enviadas@),
        entrada_en_parte(old(conn).enviadas@, final(conn).enviadas@),
        falla_de_base(r),
{
    ejecuta(conn, CLAVES_FORANEAS_OFF, &args0())?;
    ejecuta(conn, ALTER_LEGADO_ON, &args0())?;
    Ok(())
}

pub const ALTER_LEGADO_OFF: &'static str = "PRAGMA legacy_alter_table = OFF";

/// Después de reconstruir (haya salido bien o no): vuelven las claves foráneas.
fn salir_reconstruccion(conn: &mut Base)
    ensures
        final(conn).enviadas@ == salir(old(conn).enviadas@),
{
    let _ = ejecuta(conn, ALTER_LEGADO_OFF, &args0());
    let _ = ejecuta(conn, CLAVES_FORANEAS_ON, &args0());
}

/// Reparación que pide una migración de `ciclos` que quedó a medias.
#[derive(Debug, Clone, Copy, PartialEq, Eq, Structural)]
pub enum ReparacionCiclos {
    Nada,
    /// Solo quedó `ciclos_old`: vuelve a llamarse `ciclos`.
    Renombrar,
    /// Quedaron las dos y `ciclos` ya tiene nivel: sobra `ciclos_old`.
    BorrarVieja,
}

/// Qué reparar según qué tablas de ciclos hay.
pub fn reparacion_ciclos(has_ciclos: bool, has_old: bool, ciclos_con_nivel: bool) -> (r: ReparacionCiclos)
    ensures
        has_old && !has_ciclos ==> r == ReparacionCiclos::Renombrar,
        has_old && has_ciclos && ciclos_con_nivel ==> r == ReparacionCiclos::BorrarVieja,
        !(has_old && !has_ciclos) && !(has_old && has_ciclos && ciclos_con_nivel) ==> r == ReparacionCiclos::Nada,
{
    if has_old && !has_ciclos {
        ReparacionCiclos::Renombrar
    } else if has_old && has_ciclos && ciclos_con_nivel {
        ReparacionCiclos::BorrarVieja
    } else {
        ReparacionCiclos::Nada
    }
}

/// La consulta de si existe la tabla `nombre`.
pub open spec fn existe_tabla(nombre: Seq<char>) -> Envio {
    Envio::Consulta(TABLA_EXISTE@, seq![Dato::Texto(nombre)])
}

/// La consulta de las columnas de la tabla `nombre`.
pub open spec fn info_tabla(nombre: Seq<char>) -> Envio {
    Envio::Consulta("PRAGMA table_info("@ + nombre + ")"@, Seq::<Dato>::empty())
}

/// Qué reparar según qué tablas de ciclos hay (lo que decide `reparacion_ciclos`).
pub open spec fn reparacion_spec(has_ciclos: bool, has_old: bool, con_nivel: bool) -> ReparacionCiclos {
    if has_old && !has_ciclos {
        ReparacionCiclos::Renombrar
    } else if has_old && has_ciclos && con_nivel {
        ReparacionCiclos::BorrarVieja
    } else {
        ReparacionCiclos::Nada
    }
}

/// Las lecturas de la reparación de `ciclos`: si existen `ciclos` y `ciclos_old` y, si existen las
/// dos (`ambas`), las columnas de `ciclos`.
pub open spec fn lecturas_ciclos(antes: Seq<Envio>, ambas: bool) -> Seq<Envio> {
    let a = antes.push(existe_tabla("ciclos"@)).push(existe_tabla("ciclos_old"@));
    if ambas { a.push(info_tabla("ciclos"@)) } else { a }
}

/// Lo que manda cada reparación: nada; o, dentro de una reconstrucción, renombrar `ciclos_old` o
/// borrarla.
pub open spec fn reparar_ciclos(antes: Seq<Envio>, rep: ReparacionCiclos) -> Seq<Envio> {
    match rep {
        ReparacionCiclos::Nada => antes,
        ReparacionCiclos::Renombrar => salir(entrar(antes).push(Envio::Ejecuta(RENOMBRAR_CICLOS_OLD@, Seq::<Dato>::empty()))),
        ReparacionCiclos::BorrarVieja => salir(entrar(antes).push(Envio::Ejecuta(BORRAR_CICLOS_OLD@, Seq::<Dato>::empty()))),
    }
}

/// Las claves foráneas quedan encendidas: lo último que se manda al preparar una conexión
/// (`pragmas`) las enciende y después solo pide el diario WAL; al salir de una reconstrucción
/// (`salir`), lo último que se manda las enciende.
pub proof fn ley_claves_foraneas_encendidas(m: Seq<Envio>)
    ensures
        pragmas(m)[pragmas(m).len() - 2] == Envio::Ejecuta(CLAVES_FORANEAS_ON@, Seq::<Dato>::empty()),
        pragmas(m).last() == Envio::Consulta(DIARIO_WAL@, Seq::<Dato>::empty()),
        salir(m).last() == Envio::Ejecuta(CLAVES_FORANEAS_ON@, Seq::<Dato>::empty()),
{
}

/// Lo mandado al reparar una migración de `ciclos` a medias.
pub open spec fn ciclos_sanados(antes: Seq<Envio>, despues: Seq<Envio>) -> bool {
    exists|hc: bool, ho: bool, n: bool|
        despues == reparar_ciclos(lecturas_ciclos(antes, hc && ho), #[trigger] reparacion_spec(hc, ho, n))
}

pub const RENOMBRAR_CICLOS_OLD: &'static str = "ALTER TABLE ciclos_old RENAME TO ciclos";
pub const BORRAR_CICLOS_OLD: &'static str = "DROP TABLE ciclos_old";

/// Lo mandado al reparar `ciclos`, hasta donde se llegó: las lecturas y, con lo leído, nada, o la
/// entrada a la reconstrucción y, si se entró, la reparación y la salida.
pub open spec fn sanado_en_parte(antes: Seq<Envio>, despues: Seq<Envio>) -> bool {
    let a1 = antes.push(existe_tabla("ciclos"@));
    ||| despues == a1
    ||| despues == a1.push(existe_tabla("ciclos_old"@))
    ||| despues == lecturas_ciclos(antes, true)
    ||| exists|ambas: bool|
        #![trigger lecturas_ciclos(antes, ambas)]
        entrada_en_parte(lecturas_ciclos(antes, ambas), despues)
            || despues == reparar_ciclos(lecturas_ciclos(antes, ambas), ReparacionCiclos::Nada)
            || despues == reparar_ciclos(lecturas_ciclos(antes, ambas), ReparacionCiclos::Renombrar)
            || despues == reparar_ciclos(lecturas_ciclos(antes, ambas), ReparacionCiclos::BorrarVieja)
}

/// Si una migración anterior quedó a medias (`ciclos` renombrada y no restaurada).
fn heal_ciclos_rename_leftovers(conn: &mut Base) -> (r: Result<(), ErrorDb>)
    ensures
        sanado_en_parte(old(conn).enviadas@, final(conn).enviadas@),
        falla_de_base(r),
        r is Ok ==> ciclos_sanados(old(conn).enviadas@, final(conn).enviadas@),
{
    let has_ciclos = table_exists(conn, "ciclos")?;
    let has_old = table_exists(conn, "ciclos_old")?;
    let con_nivel = if has_old && has_ciclos {
        column_exists(conn, "ciclos", "id_nivel")?
    } else {
        false
    };
    let ghost leidas = conn.enviadas@;
    assert(leidas == lecturas_ciclos(old(conn).enviadas@, has_ciclos && has_old));
    let rep = reparacion_ciclos(has_ciclos, has_old, con_nivel);
    assert(rep == reparacion_spec(has_ciclos, has_old, con_nivel));
    match rep {
        ReparacionCiclos::Nada => Ok(()),
        ReparacionCiclos::Renombrar => {
            entrar_reconstruccion(conn)?;
            let r = ejecuta(conn, RENOMBRAR_CICLOS_OLD, &args0());
            salir_reconstruccion(conn);
            r?;
            Ok(())
        },
        ReparacionCiclos::BorrarVieja => {
            entrar_reconstruccion(conn)?;
            let r = ejecuta(conn, BORRAR_CICLOS_OLD, &args0());
            salir_reconstruccion(conn);
            r?;
            Ok(())
        },
    }
}

pub const CREAR_NIVELES: &'static str = "CREATE TABLE niveles (
                id INTEGER PRIMARY KEY AUTOINCREMENT,
                codigo TEXT NOT NULL UNIQUE,
                nombre TEXT NOT NULL UNIQUE
            );";
pub const NIVEL_PRIMARIA: &'static str = "INSERT OR IGNORE INTO niveles (codigo, nombre) VALUES ('primaria', 'Primaria')";
pub const NIVEL_SECUNDARIA: &'static str = "INSERT OR IGNORE INTO niveles (codigo, nombre) VALUES ('secundaria', 'Secundaria')";

/// Tras ver que hay `ciclos`: si existe `niveles` (`hay`); si no, se crea; los dos niveles si
/// faltan; y las columnas de `ciclos`.
pub open spec fn niveles_base(antes: Seq<Envio>, hay: bool) -> Seq<Envio> {
    let a = antes.push(existe_tabla("niveles"@));
    let b = if hay { a } else { a.push(Envio::Lote(CREAR_NIVELES@)) };
    b.push(Envio::Ejecuta(NIVEL_PRIMARIA@, Seq::<Dato>::empty())).push(Envio::Ejecuta(NIVEL_SECUNDARIA@, Seq::<Dato>::empty())).push(
        info_tabla("ciclos"@),
    )
}

/// Lo mandado al migrar a niveles y ciclos por nivel: si existe `ciclos`; si existe,
/// `niveles_base`, la reconstrucción de `ciclos` si no tenía nivel, y la siembra de ciclos.
pub open spec fn niveles_migrados(antes: Seq<Envio>, despues: Seq<Envio>) -> bool {
    let a = antes.push(existe_tabla("ciclos"@));
    ||| despues == a
    ||| exists|hay: bool| #[trigger] ciclos_sembrados(niveles_base(a, hay), despues)
    ||| exists|hay: bool, m: Seq<Envio>|
        #![trigger ciclos_reconstruidos(niveles_base(a, hay), m)]
        ciclos_reconstruidos(niveles_base(a, hay), m) && ciclos_sembrados(m, despues)
}

/// Lo mandado de `niveles_base(antes, hay)`, hasta donde se llegó.
pub open spec fn base_en_parte(antes: Seq<Envio>, hay: bool, despues: Seq<Envio>) -> bool {
    let a1 = antes.push(existe_tabla("niveles"@));
    let b = if hay { a1 } else { a1.push(Envio::Lote(CREAR_NIVELES@)) };
    let c = b.push(Envio::Ejecuta(NIVEL_PRIMARIA@, Seq::<Dato>::empty()));
    ||| despues == a1
    ||| despues == b
    ||| despues == c
    ||| despues == c.push(Envio::Ejecuta(NIVEL_SECUNDARIA@, Seq::<Dato>::empty()))
    ||| despues == niveles_base(antes, hay)
}

/// Lo mandado al migrar a niveles y ciclos por nivel, hasta donde se llegó.
pub open spec fn niveles_en_parte(antes: Seq<Envio>, despues: Seq<Envio>) -> bool {
    let a = antes.push(existe_tabla("ciclos"@));
    ||| despues == a
    ||| exists|hay: bool|
        #![trigger niveles_base(a, hay)]
        base_en_parte(a, hay, despues) || reconstruccion_ciclos_en_parte(niveles_base(a, hay), despues)
            || siembra_en_parte(niveles_base(a, hay), despues)
            || exists|m: Seq<Envio>|
            #![trigger ciclos_reconstruidos(niveles_base(a, hay), m)]
            ciclos_reconstruidos(niveles_base(a, hay), m) && siembra_en_parte(m, despues)
}

/// v1.1 a v1.2: niveles (primaria y secundaria) y ciclos por nivel (grado distinto de año).
/// Conserva los `id` de los ciclos existentes (eran años de secundaria).
fn migrate_niveles_y_ciclos(conn: &mut Base) -> (r: Result<(), ErrorDb>)
    ensures
        niveles_en_parte(old(conn).enviadas@, final(conn).enviadas@),
        falla_de_base(r),
        r is Ok ==> niveles_migrados(old(conn).enviadas@, final(conn).enviadas@),
{
    if !table_exists(conn, "ciclos")? {
        return Ok(());
    }
    let ghost a = conn.enviadas@;
    let ghost nb0 = niveles_base(a, true);
    let hay_niveles = table_exists(conn, "niveles")?;
    let ghost nb = niveles_base(a, hay_niveles);
    if !hay_niveles {
        ejecuta_lote(conn, CREAR_NIVELES)?;
    }
    ejecuta(conn, NIVEL_PRIMARIA, &args0())?;
    ejecuta(conn, NIVEL_SECUNDARIA, &args0())?;
    let con_nivel = column_exists(conn, "ciclos", "id_nivel")?;
    let ghost b = conn.enviadas@;
    assert(b == niveles_base(a, hay_niveles));
    if !con_nivel {
        rebuild_ciclos_con_nivel(conn)?;
    }
    let ghost m = conn.enviadas@;
    seed_ciclos_por_nivel(conn)?;
    assert(con_nivel ==> ciclos_sembrados(niveles_base(a, hay_niveles), conn.enviadas@));
    assert(!con_nivel ==> ciclos_reconstruidos(niveles_base(a, hay_niveles), m) && ciclos_sembrados(m, conn.enviadas@));
    Ok(())
}

pub const SECUNDARIA_ID: &'static str = "SELECT id FROM niveles WHERE codigo = 'secundaria'";

/// Lo mandado al reconstruir `ciclos` con nivel: el id de secundaria, la entrada a la
/// reconstrucción, `pasos_ciclos` con ese id, el contador y la salida.
pub open spec fn ciclos_reconstruidos(antes: Seq<Envio>, despues: Seq<Envio>) -> bool {
    exists|sec: i64, hay: bool| despues == salir(#[trigger] reiniciar_secuencia(pasos_ciclos(entrar(antes.push(Envio::Consulta(SECUNDARIA_ID@, Seq::<Dato>::empty()))), sec), "ciclos"@, hay))
}

/// Lo mandado al reconstruir `ciclos` con nivel, hasta donde se llegó: el id de secundaria; la
/// entrada a la reconstrucción; y, si se entró, los pasos y siempre la salida.
pub open spec fn reconstruccion_ciclos_en_parte(antes: Seq<Envio>, despues: Seq<Envio>) -> bool {
    let a = antes.push(Envio::Consulta(SECUNDARIA_ID@, Seq::<Dato>::empty()));
    ||| despues == a
    ||| entrada_en_parte(a, despues)
    ||| exists|sec: i64, m: Seq<Envio>| #[trigger] pasos_ciclos_en_parte(entrar(a), m, sec) && despues == salir(m)
}

fn rebuild_ciclos_con_nivel(conn: &mut Base) -> (r: Result<(), ErrorDb>)
    ensures
        reconstruccion_ciclos_en_parte(old(conn).enviadas@, final(conn).enviadas@),
        r is Ok ==> ciclos_reconstruidos(old(conn).enviadas@, final(conn).enviadas@),
        falla_de_base(r),
{
    let secundaria_id = consulta_entero(conn, SECUNDARIA_ID, &args0())?;
    entrar_reconstruccion(conn)?;
    let r = rebuild_ciclos_pasos(conn, secundaria_id);
    salir_reconstruccion(conn);
    r
}

/// Reconstruir `ciclos` con nivel: tabla nueva, copia de cada ciclo con su `id`, nombre y orden
/// (y el nivel `secundaria_id`), y cambio de tabla.
pub open spec fn pasos_ciclos(antes: Seq<Envio>, secundaria_id: i64) -> Seq<Envio> {
    antes.push(Envio::Lote(CICLOS_NUEVA@)).push(Envio::Ejecuta(COPIAR_CICLOS@, seq![Dato::Entero(secundaria_id)])).push(
        Envio::Lote(CICLOS_CAMBIO@),
    )
}

pub const CICLOS_NUEVA: &'static str = "CREATE TABLE ciclos_new (
            id INTEGER PRIMARY KEY AUTOINCREMENT,
            id_nivel INTEGER NOT NULL,
            nombre TEXT NOT NULL,
            orden INTEGER NOT NULL,
            FOREIGN KEY (id_nivel) REFERENCES niveles (id) ON DELETE RESTRICT,
            UNIQUE (id_nivel, nombre),
            UNIQUE (id_nivel, orden)
        );";
pub const COPIAR_CICLOS: &'static str = "INSERT INTO ciclos_new (id, id_nivel, nombre, orden) SELECT id, ?1, nombre, orden FROM ciclos";
pub const CICLOS_CAMBIO: &'static str = "DROP TABLE ciclos;
        ALTER TABLE ciclos_new RENAME TO ciclos;
        CREATE INDEX IF NOT EXISTS ix_ciclos_nivel ON ciclos (id_nivel);";

/// Lo mandado al reconstruir `ciclos` con nivel `sec`, hasta donde se llegó.
pub open spec fn pasos_ciclos_en_parte(antes: Seq<Envio>, despues: Seq<Envio>, sec: i64) -> bool {
    let a1 = antes.push(Envio::Lote(CICLOS_NUEVA@));
    let a2 = a1.push(Envio::Ejecuta(COPIAR_CICLOS@, seq![Dato::Entero(sec)]));
    despues == a1 || despues == a2 || despues == pasos_ciclos(antes, sec) || reinicio_en_parte(pasos_ciclos(antes, sec), despues, "ciclos"@)
}

fn rebuild_ciclos_pasos(conn: &mut Base, secundaria_id: i64) -> (r: Result<(), ErrorDb>)
    ensures
        pasos_ciclos_en_parte(old(conn).enviadas@, final(conn).enviadas@, secundaria_id),
        r is Ok ==> final(conn).enviadas@ == reiniciar_secuencia(pasos_ciclos(old(conn).enviadas@, secundaria_id), "ciclos"@, false) || final(conn).enviadas@ == reiniciar_secuencia(pasos_ciclos(old(conn).enviadas@, secundaria_id), "ciclos"@, true),
        falla_de_base(r),
{
    ejecuta_lote(
        conn,
        CICLOS_NUEVA,
    )?;
    ejecuta(
        conn,
        COPIAR_CICLOS,
        &args1(Valor::Entero(secundaria_id)),
    )?;
    ejecuta_lote(
        conn,
        CICLOS_CAMBIO,
    )?;
    reset_sqlite_sequence(conn, "ciclos")
}

/// Lo mandado al reparar `cursos`: si existe; si existe, su SQL; y, si apunta a `ciclos_old`, su
/// reconstrucción.
pub open spec fn cursos_reparados(antes: Seq<Envio>, despues: Seq<Envio>) -> bool {
    let a = antes.push(existe_tabla("cursos"@));
    let b = a.push(Envio::Consulta(SQL_DE_TABLA@, seq![Dato::Texto("cursos"@)]));
    despues == a || despues == b || cursos_reconstruidos(b, despues)
}

/// Lo mandado al reparar `cursos`, hasta donde se llegó.
pub open spec fn reparacion_cursos_en_parte(antes: Seq<Envio>, despues: Seq<Envio>) -> bool {
    let a = antes.push(existe_tabla("cursos"@));
    let b = a.push(Envio::Consulta(SQL_DE_TABLA@, seq![Dato::Texto("cursos"@)]));
    despues == a || despues == b || reconstruccion_cursos_en_parte(b, despues)
}

/// Bases migradas con el `RENAME` viejo: `cursos` sigue apuntando a `ciclos_old`.
fn repair_cursos_fk_ciclos_old(conn: &mut Base) -> (r: Result<(), ErrorDb>)
    ensures
        reparacion_cursos_en_parte(old(conn).enviadas@, final(conn).enviadas@),
        falla_de_base(r),
        r is Ok ==> cursos_reparados(old(conn).enviadas@, final(conn).enviadas@),
{
    if !table_exists(conn, "cursos")? {
        return Ok(());
    }
    if !table_sql_contains(conn, "cursos", "ciclos_old")? {
        return Ok(());
    }
    rebuild_cursos_fk_a_ciclos(conn)
}

/// Lo mandado al reconstruir `cursos` con la clave foránea a `ciclos`: si tiene orientación, la
/// entrada a la reconstrucción, `pasos_cursos`, el contador y la salida.
pub open spec fn cursos_reconstruidos(antes: Seq<Envio>, despues: Seq<Envio>) -> bool {
    exists|h: bool, hay: bool| despues == salir(#[trigger] reiniciar_secuencia(pasos_cursos(entrar(antes.push(Envio::Consulta("PRAGMA table_info("@ + "cursos"@ + ")"@, Seq::<Dato>::empty()))), h), "cursos"@, hay))
}

/// Lo mandado al reconstruir `cursos` con la clave foránea a `ciclos`, hasta donde se llegó: las
/// columnas de `cursos`; la entrada a la reconstrucción; y, si se entró, los pasos y siempre la
/// salida.
pub open spec fn reconstruccion_cursos_en_parte(antes: Seq<Envio>, despues: Seq<Envio>) -> bool {
    let a = antes.push(info_tabla("cursos"@));
    ||| despues == a
    ||| entrada_en_parte(a, despues)
    ||| exists|h: bool, m: Seq<Envio>| #[trigger] pasos_cursos_en_parte(entrar(a), m, h) && despues == salir(m)
}

fn rebuild_cursos_fk_a_ciclos(conn: &mut Base) -> (r: Result<(), ErrorDb>)
    ensures
        reconstruccion_cursos_en_parte(old(conn).enviadas@, final(conn).enviadas@),
        r is Ok ==> cursos_reconstruidos(old(conn).enviadas@, final(conn).enviadas@),
        falla_de_base(r),
{
    let has_orientacion = column_exists(conn, "cursos", "orientacion")?;
    entrar_reconstruccion(conn)?;
    let r = rebuild_cursos_pasos(conn, has_orientacion);
    salir_reconstruccion(conn);
    r
}

/// Reconstruir `cursos` con la clave foránea a `ciclos`: tabla nueva, copia de cada curso con su
/// `id` y sus columnas (orientación `NULL` si la tabla vieja no la tenía), y cambio de tabla.
pub open spec fn pasos_cursos(antes: Seq<Envio>, con_orientacion: bool) -> Seq<Envio> {
    antes.push(Envio::Lote(CURSOS_NUEVA@)).push(
        Envio::Ejecuta(
            if con_orientacion { COPIAR_CURSOS_CON_ORIENTACION@ } else { COPIAR_CURSOS_SIN_ORIENTACION@ },
            Seq::<Dato>::empty(),
        ),
    ).push(Envio::Lote(CURSOS_CAMBIO@))
}

pub const CURSOS_NUEVA: &'static str = "CREATE TABLE cursos_new (
            id INTEGER PRIMARY KEY AUTOINCREMENT,
            nombre TEXT NOT NULL,
            id_escuela INTEGER NOT NULL,
            id_turno INTEGER NOT NULL,
            id_division INTEGER NOT NULL,
            id_ciclo INTEGER NOT NULL,
            id_materia INTEGER NOT NULL,
            id_anio_lectivo INTEGER NOT NULL,
            orientacion TEXT,
            FOREIGN KEY (id_escuela) REFERENCES escuelas (id) ON DELETE RESTRICT,
            FOREIGN KEY (id_turno) REFERENCES turnos (id) ON DELETE RESTRICT,
            FOREIGN KEY (id_division) REFERENCES divisiones (id) ON DELETE RESTRICT,
            FOREIGN KEY (id_ciclo) REFERENCES ciclos (id) ON DELETE RESTRICT,
            FOREIGN KEY (id_materia) REFERENCES materias (id) ON DELETE RESTRICT,
            FOREIGN KEY (id_anio_lectivo) REFERENCES anios_lectivos (id) ON DELETE RESTRICT,
            UNIQUE (id_escuela, id_turno, id_division, id_ciclo, id_materia, id_anio_lectivo)
        );";
pub const COPIAR_CURSOS_CON_ORIENTACION: &'static str = "INSERT INTO cursos_new (
                id, nombre, id_escuela, id_turno, id_division, id_ciclo, id_materia, id_anio_lectivo, orientacion
             )
             SELECT id, nombre, id_escuela, id_turno, id_division, id_ciclo, id_materia, id_anio_lectivo, orientacion
             FROM cursos";
pub const COPIAR_CURSOS_SIN_ORIENTACION: &'static str = "INSERT INTO cursos_new (
                id, nombre, id_escuela, id_turno, id_division, id_ciclo, id_materia, id_anio_lectivo, orientacion
             )
             SELECT id, nombre, id_escuela, id_turno, id_division, id_ciclo, id_materia, id_anio_lectivo, NULL
             FROM cursos";
pub const CURSOS_CAMBIO: &'static str = "DROP TABLE cursos;
        ALTER TABLE cursos_new RENAME TO cursos;
        CREATE INDEX IF NOT EXISTS ix_cursos_anio ON cursos (id_anio_lectivo);
        CREATE INDEX IF NOT EXISTS ix_cursos_escuela ON cursos (id_escuela);";

/// Lo mandado al reconstruir `cursos` (con orientación o sin ella), hasta donde se llegó.
pub open spec fn pasos_cursos_en_parte(antes: Seq<Envio>, despues: Seq<Envio>, con_orientacion: bool) -> bool {
    let a1 = antes.push(Envio::Lote(CURSOS_NUEVA@));
    let a2 = a1.push(
        Envio::Ejecuta(
            if con_orientacion { COPIAR_CURSOS_CON_ORIENTACION@ } else { COPIAR_CURSOS_SIN_ORIENTACION@ },
            Seq::<Dato>::empty(),
        ),
    );
    despues == a1 || despues == a2 || despues == pasos_cursos(antes, con_orientacion)
        || reinicio_en_parte(pasos_cursos(antes, con_orientacion), despues, "cursos"@)
}

fn rebuild_cursos_pasos(conn: &mut Base, has_orientacion: bool) -> (r: Result<(), ErrorDb>)
    ensures
        pasos_cursos_en_parte(old(conn).enviadas@, final(conn).enviadas@, has_orientacion),
        r is Ok ==> final(conn).enviadas@ == reiniciar_secuencia(pasos_cursos(old(conn).enviadas@, has_orientacion), "cursos"@, false) || final(conn).enviadas@ == reiniciar_secuencia(pasos_cursos(old(conn).enviadas@, has_orientacion), "cursos"@, true),
        falla_de_base(r),
{
    ejecuta_lote(
        conn,
        CURSOS_NUEVA,
    )?;
    if has_orientacion {
        ejecuta(
            conn,
            COPIAR_CURSOS_CON_ORIENTACION,
            &args0(),
        )?;
    } else {
        ejecuta(
            conn,
            COPIAR_CURSOS_SIN_ORIENTACION,
            &args0(),
        )?;
    }
    ejecuta_lote(
        conn,
        CURSOS_CAMBIO,
    )?;
    reset_sqlite_sequence(conn, "cursos")
}

/// `k` consultas seguidas de las columnas de `alumnos`.
pub open spec fn infos_alumnos(antes: Seq<Envio>, k: nat) -> Seq<Envio>
    decreases k,
{
    if k == 0 {
        antes
    } else {
        infos_alumnos(antes, (k - 1) as nat).push(info_tabla("alumnos"@))
    }
}

/// Lo mandado al migrar la ficha de alumnos: si existe la tabla; si existe, de una a cuatro
/// consultas de sus columnas (hasta encontrar una de las que se tiran); y, si encontró una, la
/// reconstrucción.
pub open spec fn alumnos_migrados(antes: Seq<Envio>, despues: Seq<Envio>) -> bool {
    let a = antes.push(existe_tabla("alumnos"@));
    ||| despues == a
    ||| exists|k: nat| 1 <= k <= 4 && (despues == #[trigger] infos_alumnos(a, k) || alumnos_reconstruidos(infos_alumnos(a, k), despues))
}

/// Lo mandado al migrar la ficha de alumnos, hasta donde se llegó.
pub open spec fn ficha_en_parte(antes: Seq<Envio>, despues: Seq<Envio>) -> bool {
    let a = antes.push(existe_tabla("alumnos"@));
    ||| despues == a
    ||| exists|k: nat|
        1 <= k <= 4 && (despues == #[trigger] infos_alumnos(a, k) || reconstruccion_alumnos_en_parte(infos_alumnos(a, k), despues))
}

/// v1.2 a v1.3: ficha de alumno con nombre y apellido; se tiran DNI, email, teléfono y
/// nacimiento. Conserva el `id` para no dejar huérfanas notas, asistencias ni observaciones.
fn migrate_alumnos_ficha_minima(conn: &mut Base) -> (r: Result<(), ErrorDb>)
    ensures
        ficha_en_parte(old(conn).enviadas@, final(conn).enviadas@),
        falla_de_base(r),
        r is Ok ==> alumnos_migrados(old(conn).enviadas@, final(conn).enviadas@),
{
    if !table_exists(conn, "alumnos")? {
        return Ok(());
    }
    let ghost a = conn.enviadas@;
    let r1 = column_exists(conn, "alumnos", "dni");
    assert(conn.enviadas@ == infos_alumnos(a, 1)) by {
        reveal_with_fuel(infos_alumnos, 2);
    }
    let mut ancha = r1?;
    let ghost mut k: nat = 1;
    if !ancha {
        let r2 = column_exists(conn, "alumnos", "email");
        assert(conn.enviadas@ == infos_alumnos(a, 2)) by {
            reveal_with_fuel(infos_alumnos, 3);
        }
        ancha = r2?;
        proof { k = 2; }
    }
    if !ancha {
        let r3 = column_exists(conn, "alumnos", "telefono");
        assert(conn.enviadas@ == infos_alumnos(a, 3)) by {
            reveal_with_fuel(infos_alumnos, 4);
        }
        ancha = r3?;
        proof { k = 3; }
    }
    if !ancha {
        let r4 = column_exists(conn, "alumnos", "fecha_nacimiento");
        assert(conn.enviadas@ == infos_alumnos(a, 4)) by {
            reveal_with_fuel(infos_alumnos, 5);
        }
        ancha = r4?;
        proof { k = 4; }
    }
    assert(conn.enviadas@ == infos_alumnos(a, k));
    if !ancha {
        return Ok(());
    }
    rebuild_alumnos_ficha_minima(conn)
}

/// Lo mandado al reconstruir `alumnos` con `id`, nombre y apellido: la entrada a la
/// reconstrucción, la reconstrucción, el contador y la salida.
pub open spec fn alumnos_reconstruidos(antes: Seq<Envio>, despues: Seq<Envio>) -> bool {
    despues == salir(reiniciar_secuencia(entrar(antes).push(Envio::Lote(RECONSTRUIR_ALUMNOS@)), "alumnos"@, false)) || despues == salir(reiniciar_secuencia(entrar(antes).push(Envio::Lote(RECONSTRUIR_ALUMNOS@)), "alumnos"@, true))
}

/// Lo mandado al reconstruir `alumnos`, hasta donde se llegó: la entrada a la reconstrucción y,
/// si se entró, los pasos y siempre la salida.
pub open spec fn reconstruccion_alumnos_en_parte(antes: Seq<Envio>, despues: Seq<Envio>) -> bool {
    ||| entrada_en_parte(antes, despues)
    ||| exists|m: Seq<Envio>| #[trigger] pasos_alumnos_en_parte(entrar(antes), m) && despues == salir(m)
}

/// Reconstruye `alumnos` con `id`, nombre y apellido, con las claves foráneas apagadas.
fn rebuild_alumnos_ficha_minima(conn: &mut Base) -> (r: Result<(), ErrorDb>)
    ensures
        reconstruccion_alumnos_en_parte(old(conn).enviadas@, final(conn).enviadas@),
        r is Ok ==> alumnos_reconstruidos(old(conn).enviadas@, final(conn).enviadas@),
        falla_de_base(r),
{
    entrar_reconstruccion(conn)?;
    let r = rebuild_alumnos_pasos(conn);
    salir_reconstruccion(conn);
    r
}

pub const RECONSTRUIR_ALUMNOS: &'static str = "CREATE TABLE alumnos_new (
            id INTEGER PRIMARY KEY AUTOINCREMENT,
            nombre TEXT NOT NULL,
            apellido TEXT NOT NULL
        );
        INSERT INTO alumnos_new (id, nombre, apellido)
        SELECT id, nombre, apellido FROM alumnos;
        DROP TABLE alumnos;
        ALTER TABLE alumnos_new RENAME TO alumnos;
        CREATE INDEX IF NOT EXISTS ix_alumnos_apellido_nombre ON alumnos (apellido, nombre);";

/// Lo mandado al reconstruir `alumnos`, hasta donde se llegó.
pub open spec fn pasos_alumnos_en_parte(antes: Seq<Envio>, despues: Seq<Envio>) -> bool {
    let a1 = antes.push(Envio::Lote(RECONSTRUIR_ALUMNOS@));
    despues == a1 || reinicio_en_parte(a1, despues, "alumnos"@)
}

fn rebuild_alumnos_pasos(conn: &mut Base) -> (r: Result<(), ErrorDb>)
    ensures
        pasos_alumnos_en_parte(old(conn).enviadas@, final(conn).enviadas@),
        r is Ok ==> final(conn).enviadas@ == reiniciar_secuencia(old(conn).enviadas@.push(Envio::Lote(RECONSTRUIR_ALUMNOS@)), "alumnos"@, false) || final(conn).enviadas@ == reiniciar_secuencia(old(conn).enviadas@.push(Envio::Lote(RECONSTRUIR_ALUMNOS@)), "alumnos"@, true),
        falla_de_base(r),
{
    ejecuta_lote(
        conn,
        RECONSTRUIR_ALUMNOS,
    )?;
    reset_sqlite_sequence(conn, "alumnos")
}

/// Los ciclos de la semilla: de primaria o no, nombre y orden.
pub open spec fn semilla_spec() -> Seq<(bool, Seq<char>, i64)> {
    seq![
        (true, "Primer Grado"@, 1i64),
        (true, "Segundo Grado"@, 2i64),
        (true, "Tercer Grado"@, 3i64),
        (true, "Cuarto Grado"@, 4i64),
        (true, "Quinto Grado"@, 5i64),
        (true, "Sexto Grado"@, 6i64),
        (true, "Séptimo Grado"@, 7i64),
        (false, "Primer Año"@, 1i64),
        (false, "Segundo Año"@, 2i64),
        (false, "Tercer Año"@, 3i64),
        (false, "Cuarto Año"@, 4i64),
        (false, "Quinto Año"@, 5i64),
        (false, "Sexto Año"@, 6i64),
        (false, "Séptimo Año"@, 7i64),
    ]
}

/// Los siete grados de primaria y los siete años de secundaria, cada uno con su orden.
pub fn ciclos_semilla() -> (r: Vec<(bool, &'static str, i64)>)
    ensures
        r@.len() == 14,
        forall|i: int| 0 <= i < 14 ==> (r@[i].0, r@[i].1@, r@[i].2) == #[trigger] semilla_spec()[i],
        forall|i: int| 0 <= i < 7 ==> r@[i].0 && r@[i].2 == i + 1,
        forall|i: int| 7 <= i < 14 ==> !r@[i].0 && r@[i].2 == i - 6,
{
    let r = vec![
        (true, "Primer Grado", 1),
        (true, "Segundo Grado", 2),
        (true, "Tercer Grado", 3),
        (true, "Cuarto Grado", 4),
        (true, "Quinto Grado", 5),
        (true, "Sexto Grado", 6),
        (true, "Séptimo Grado", 7),
        (false, "Primer Año", 1),
        (false, "Segundo Año", 2),
        (false, "Tercer Año", 3),
        (false, "Cuarto Año", 4),
        (false, "Quinto Año", 5),
        (false, "Sexto Año", 6),
        (false, "Séptimo Año", 7),
    ];
    assert(forall|i: int| 0 <= i < 14 ==> (r@[i].0, r@[i].1@, r@[i].2) == #[trigger] semilla_spec()[i]);
    r
}

pub const SEMBRAR_CICLO: &'static str = "INSERT OR IGNORE INTO ciclos (id_nivel, nombre, orden) VALUES (?1, ?2, ?3)";

/// Los parámetros de cada ciclo de la semilla: el nivel (primaria o secundaria), el nombre y el
/// orden.
pub open spec fn fila_semilla(c: (bool, Seq<char>, i64), primaria_id: i64, secundaria_id: i64) -> Seq<Dato> {
    seq![Dato::Entero(if c.0 { primaria_id } else { secundaria_id }), Dato::Texto(c.1), Dato::Entero(c.2)]
}

/// Cada ciclo de la semilla sembrado con `SEMBRAR_CICLO`, en orden.
pub open spec fn sembrado(primaria_id: i64, secundaria_id: i64) -> Seq<Envio> {
    Seq::new(14, |i: int| Envio::Ejecuta(SEMBRAR_CICLO@, fila_semilla(semilla_spec()[i], primaria_id, secundaria_id)))
}

/// Los parámetros de `SEMBRAR_CICLO` para cada ciclo de la semilla, en orden.
pub fn filas_semilla(primaria_id: i64, secundaria_id: i64) -> (r: Vec<Vec<Valor>>)
    ensures
        r@.len() == 14,
        forall|i: int| 0 <= i < 14 ==> datos(#[trigger] r@[i]@) == fila_semilla(semilla_spec()[i], primaria_id, secundaria_id),
{
    let semilla = ciclos_semilla();
    let mut r: Vec<Vec<Valor>> = Vec::new();
    let mut i: usize = 0;
    while i < semilla.len()
        invariant
            i <= semilla@.len() == 14,
            r@.len() == i,
            forall|k: int| 0 <= k < 14 ==> (semilla@[k].0, semilla@[k].1@, semilla@[k].2) == #[trigger] semilla_spec()[k],
            forall|k: int| 0 <= k < i ==> datos(#[trigger] r@[k]@) == fila_semilla(semilla_spec()[k], primaria_id, secundaria_id),
        decreases semilla@.len() - i,
    {
        let (es_primaria, nombre, orden) = semilla[i];
        let nivel = if es_primaria {
            primaria_id
        } else {
            secundaria_id
        };
        let f = args3(Valor::Entero(nivel), Valor::Texto(nombre.to_owned()), Valor::Entero(orden));
        assert((semilla@[i as int].0, semilla@[i as int].1@, semilla@[i as int].2) == semilla_spec()[i as int]);
        assert(datos(f@) == fila_semilla(semilla_spec()[i as int], primaria_id, secundaria_id));
        r.push(f);
        i = i + 1;
    }
    r
}

/// Carga los ciclos que falten de cada nivel (los que ya están quedan como están): una vez
/// `SEMBRAR_CICLO` con cada fila de `filas_semilla`.
/// Las lecturas de los ids de los niveles primaria y secundaria.
pub open spec fn lecturas_niveles(antes: Seq<Envio>) -> Seq<Envio> {
    antes.push(Envio::Consulta(PRIMARIA_ID@, Seq::<Dato>::empty())).push(Envio::Consulta(SECUNDARIA_ID@, Seq::<Dato>::empty()))
}

pub const PRIMARIA_ID: &'static str = "SELECT id FROM niveles WHERE codigo = 'primaria'";

/// Lo mandado al sembrar los ciclos: los ids de los niveles y un `SEMBRAR_CICLO` por ciclo de la
/// semilla.
pub open spec fn ciclos_sembrados(antes: Seq<Envio>, despues: Seq<Envio>) -> bool {
    exists|p: i64, q: i64| despues == lecturas_niveles(antes) + #[trigger] sembrado(p, q)
}

/// Lo mandado al sembrar los ciclos, hasta donde se llegó: el id de primaria, los dos ids y un
/// comienzo de la siembra.
pub open spec fn siembra_en_parte(antes: Seq<Envio>, despues: Seq<Envio>) -> bool {
    ||| despues == antes.push(Envio::Consulta(PRIMARIA_ID@, Seq::<Dato>::empty()))
    ||| despues == lecturas_niveles(antes)
    ||| exists|p: i64, q: i64| comienzo(lecturas_niveles(antes), despues, #[trigger] sembrado(p, q))
}

fn seed_ciclos_por_nivel(conn: &mut Base) -> (r: Result<(), ErrorDb>)
    ensures
        siembra_en_parte(old(conn).enviadas@, final(conn).enviadas@),
        r is Ok ==> ciclos_sembrados(old(conn).enviadas@, final(conn).enviadas@),
        falla_de_base(r),
{
    let primaria_id = consulta_entero(conn, PRIMARIA_ID, &args0())?;
    let secundaria_id = consulta_entero(conn, SECUNDARIA_ID, &args0())?;
    let ghost base = conn.enviadas@;
    let ghost plan = sembrado(primaria_id, secundaria_id);
    let filas = filas_semilla(primaria_id, secundaria_id);
    let mut i: usize = 0;
    assert(base + plan.take(0) =~= base);
    while i < filas.len()
        invariant
            i <= filas@.len() == 14,
            plan == sembrado(primaria_id, secundaria_id),
            base == lecturas_niveles(old(conn).enviadas@),
            conn.enviadas@ == base + plan.take(i as int),
            forall|k: int| 0 <= k < 14 ==> datos(#[trigger] filas@[k]@) == fila_semilla(semilla_spec()[k], primaria_id, secundaria_id),
        decreases filas@.len() - i,
    {
        let r = ejecuta(conn, SEMBRAR_CICLO, &filas[i]);
        assert(plan[i as int] == Envio::Ejecuta(SEMBRAR_CICLO@, datos(filas@[i as int]@)));
        assert(plan.take(i as int + 1) =~= plan.take(i as int).push(plan[i as int]));
        assert(conn.enviadas@ =~= base + plan.take(i as int + 1));
        r?;
        i = i + 1;
    }
    assert(plan.take(14) =~= plan);
    Ok(())
}

/// La ruta que se informa: la del archivo, o `:memory:` si no hay.
pub open spec fn ruta_de(path: Option<&str>) -> Seq<char> {
    match path {
        Some(p) => p@,
        None => ":memory:"@,
    }
}

/// Ningún carácter es una minúscula ASCII.
pub open spec fn sin_minusculas(s: Seq<char>) -> bool {
    forall|i: int| 0 <= i < s.len() ==> !('a' <= #[trigger] s[i] <= 'z')
}

/// Una mayúscula ASCII ya no es minúscula.
pub proof fn lema_mayuscula_no_minuscula(c: char)
    ensures
        !('a' <= mayuscula(c) <= 'z'),
{
}

pub const CONSULTA_CLAVES_FORANEAS: &'static str = "PRAGMA foreign_keys";
pub const CONSULTA_DIARIO: &'static str = "PRAGMA journal_mode";

/// Lo mandado al pedir el estado, hasta donde se llegó: `foreign_keys`, el diario y la cuenta de
/// tablas.
pub open spec fn estado_en_parte(antes: Seq<Envio>, despues: Seq<Envio>) -> bool {
    let a = antes.push(Envio::Consulta(CONSULTA_CLAVES_FORANEAS@, Seq::<Dato>::empty()));
    let b = a.push(Envio::Consulta(CONSULTA_DIARIO@, Seq::<Dato>::empty()));
    despues == a || despues == b || despues == b.push(Envio::Consulta(CONTAR_TABLAS@, Seq::<Dato>::empty()))
}

/// Estado de la base: ruta (o `:memory:`), `foreign_keys`, modo de diario en mayúsculas y
/// cantidad de tablas.
pub fn status_of(conn: &mut Base, path: Option<&str>) -> (r: Result<DbStatus, ErrorDb>)
    ensures
        estado_en_parte(old(conn).enviadas@, final(conn).enviadas@),
        r is Ok ==> final(conn).enviadas@ == old(conn).enviadas@.push(Envio::Consulta(CONSULTA_CLAVES_FORANEAS@, Seq::<Dato>::empty())).push(Envio::Consulta(CONSULTA_DIARIO@, Seq::<Dato>::empty())).push(Envio::Consulta(CONTAR_TABLAS@, Seq::<Dato>::empty())),
        falla_de_base(r),
        r matches Ok(st) ==> st.path@ == ruta_de(path),
        r matches Ok(st) ==> sin_minusculas(st.journal_mode@),
{
    let foreign_keys = consulta_entero(conn, CONSULTA_CLAVES_FORANEAS, &args0())?;
    let filas = consulta(conn, CONSULTA_DIARIO, &args0())?;
    if filas.len() == 0 || filas[0].len() == 0 {
        return Err(ErrorDb::NoEncontrado);
    }
    let modo = col_texto(&filas[0], 0)?;
    let mayus = a_mayusculas(&caracteres(modo.as_str()));
    let tables = user_table_count(conn)?;
    let ruta = match path {
        Some(p) => p.to_owned(),
        None => ":memory:".to_owned(),
    };
    let journal_mode = cadena(&mayus);
    proof {
        assert forall|i: int| 0 <= i < journal_mode@.len() implies !('a' <= #[trigger] journal_mode@[i] <= 'z') by {
            lema_mayuscula_no_minuscula(modo@[i]);
        }
    }
    Ok(DbStatus { path: ruta, foreign_keys, journal_mode, tables })
}

/// Estado de la base abierta (ruta del archivo, `foreign_keys`, diario y tablas).
pub fn db_status(conn: Option<&mut Base>, path: &str) -> (r: Result<DbStatus, String>)
    ensures
        conn is None ==> (r matches Err(m) && m@ == CERRADO@),
        conn is Some ==> respuesta_con(r, Set::empty()),
        conn matches Some(b) ==> (r is Ok ==> final(b).enviadas@ == (*b).enviadas@.push(Envio::Consulta(CONSULTA_CLAVES_FORANEAS@, Seq::<Dato>::empty())).push(Envio::Consulta(CONSULTA_DIARIO@, Seq::<Dato>::empty())).push(Envio::Consulta(CONTAR_TABLAS@, Seq::<Dato>::empty()))),
        conn matches Some(b) ==> estado_en_parte((*b).enviadas@, final(b).enviadas@),
{
    match conn {
        None => Err(CERRADO.to_owned()),
        Some(c) => para_docente(status_of(c, Some(path))),
    }
}

/// Mayúsculas ASCII.
pub fn a_mayusculas(v: &Vec<char>) -> (r: Vec<char>)
    ensures
        r@ == v@.map_values(|c: char| mayuscula(c)),
{
    let mut r: Vec<char> = Vec::new();
    let mut i: usize = 0;
    while i < v.len()
        invariant
            i <= v.len(),
            r@ == v@.take(i as int).map_values(|c: char| mayuscula(c)),
        decreases v.len() - i,
    {
        let c = v[i];
        r.push(mayus(c));
        assert(v@.take(i as int + 1).map_values(|c: char| mayuscula(c)) == v@.take(i as int).map_values(
            |c: char| mayuscula(c),
        ).push(mayuscula(c)));
        i = i + 1;
    }
    assert(v@.take(v.len() as int) == v@);
    r
}

/// Mayúscula ASCII de un carácter.
fn mayus(c: char) -> (r: char)
    ensures
        r == mayuscula(c),
{
    if 'a' <= c && c <= 'z' {
        let b = (c as u8) - 32;
        b as char
    } else {
        c
    }
}

/// Posición del primer `c` de `v` a partir de `p`, o `v.len()` si no hay.
fn siguiente(v: &Vec<char>, p: usize, c: char) -> (r: usize)
    requires
        p <= v.len(),
    ensures
        p <= r <= v.len(),
        r < v.len() ==> primer_indice(v@.skip(p as int), c) == r - p,
        r == v.len() ==> primer_indice(v@.skip(p as int), c) == -1,
{
    let ghost t = v@.skip(p as int);
    let mut i: usize = p;
    while i < v.len()
        invariant
            p <= i <= v.len(),
            t == v@.skip(p as int),
            forall|k: int| p <= k < i ==> v@[k] != c,
        decreases v.len() - i,
    {
        if v[i] == c {
            proof {
                assert forall|k: int| 0 <= k < i - p implies t[k] != c by {
                    assert(t[k] == v@[k + p]);
                }
                assert(t[i - p] == v@[i as int]);
                lema_primer_indice(t, c, i - p);
            }
            return i;
        }
        i = i + 1;
    }
    proof {
        assert forall|k: int| 0 <= k < v.len() - p implies t[k] != c by {
            assert(t[k] == v@[k + p]);
        }
        lema_primer_indice(t, c, v.len() - p);
    }
    v.len()
}

/// La línea `v[p..e]` es una línea `PRAGMA`.
fn linea_es_pragma(v: &Vec<char>, p: usize, e: usize) -> (r: bool)
    requires
        p <= e <= v.len(),
    ensures
        r == es_pragma(v@.subrange(p as int, e as int)),
{
    let ghost l = v@.subrange(p as int, e as int);
    let mut k: usize = p;
    while k < e && blanco(v[k])
        invariant
            p <= k <= e <= v.len(),
            l == v@.subrange(p as int, e as int),
            forall|m: int| p <= m < k ==> es_blanco(#[trigger] v@[m]),
        decreases e - k,
    {
        k = k + 1;
    }
    let ghost t = l.subrange(k - p, l.len() as int);
    proof {
        assert forall|m: int| 0 <= m < k - p implies es_blanco(#[trigger] l[m]) by {
            assert(l[m] == v@[m + p]);
        }
        lema_izq_desde(l, k - p);
        assert(t =~= v@.subrange(k as int, e as int));
        if k < e {
            assert(t[0] == v@[k as int]);
        }
        assert(sin_blancos_izq(t) == t);
    }
    if e - k < 7 {
        return false;
    }
    let pat: Vec<char> = vec!['P', 'R', 'A', 'G', 'M', 'A', ' '];
    let mut i: usize = 0;
    while i < 7
        invariant
            i <= 7,
            k + 7 <= e <= v.len(),
            l == v@.subrange(p as int, e as int),
            t == v@.subrange(k as int, e as int),
            sin_blancos_izq(l) == t,
            pat@ == seq!['P', 'R', 'A', 'G', 'M', 'A', ' '],
            forall|m: int| 0 <= m < i ==> mayuscula(#[trigger] v@[k + m]) == pat@[m],
        decreases 7 - i,
    {
        if mayus(v[k + i]) != pat[i] {
            proof {
                let a = t.take(7).map_values(|c: char| mayuscula(c));
                assert(t[i as int] == v@[k + i]);
                assert(a[i as int] == mayuscula(v@[k + i]));
                assert(a != pat@);
            }
            return false;
        }
        i = i + 1;
    }
    proof {
        let a = t.take(7).map_values(|c: char| mayuscula(c));
        assert forall|m: int| 0 <= m < 7 implies a[m] == pat@[m] by {
            assert(t[m] == v@[k + m]);
            assert(a[m] == mayuscula(v@[k + m]));
        }
        assert(a =~= pat@);
    }
    true
}

/// Lo que falta unir cuando ya se unió `hecho` (vacío si `alguna` es falso) y quedan `ls`.
pub open spec fn tras(hecho: Seq<char>, alguna: bool, ls: Seq<Seq<char>>) -> Seq<char> {
    if !alguna {
        unidas(ls)
    } else if ls.len() == 0 {
        hecho
    } else {
        hecho + seq!['\n'] + unidas(ls)
    }
}

proof fn lema_unidas_cons(l: Seq<char>, ls: Seq<Seq<char>>)
    ensures
        unidas(seq![l] + ls) == (if ls.len() == 0 { l } else { l + seq!['\n'] + unidas(ls) }),
{
    let x = seq![l] + ls;
    assert(x.drop_first() =~= ls);
    assert(x[0] == l);
}

proof fn lema_no_pragmas_cons(l: Seq<char>, ls: Seq<Seq<char>>)
    ensures
        no_pragmas(seq![l] + ls) == (if es_pragma(l) { no_pragmas(ls) } else { seq![l] + no_pragmas(ls) }),
{
    let x = seq![l] + ls;
    assert(x.drop_first() =~= ls);
    assert(x[0] == l);
}

/// Las líneas de `s` que no son `PRAGMA`, unidas con `\n`.
#[verifier::rlimit(50)]
pub fn sin_lineas_pragma(s: &Vec<char>) -> (r: Vec<char>)
    ensures
        r@ == esquema_sin_pragmas(s@),
{
    let mut out: Vec<char> = Vec::new();
    let mut alguna = false;
    let mut p: usize = 0;
    proof {
        assert(s@.skip(0) =~= s@);
    }
    while p < s.len()
        invariant
            p <= s.len(),
            !alguna ==> out@.len() == 0,
            tras(out@, alguna, no_pragmas(lineas(s@.skip(p as int)))) == esquema_sin_pragmas(s@),
        decreases s.len() - p,
    {
        let j = siguiente(s, p, '\n');
        let e = if j < s.len() && j > p && s[j - 1] == '\r' {
            j - 1
        } else {
            j
        };
        let ghost t = s@.skip(p as int);
        let ghost l = s@.subrange(p as int, e as int);
        let ghost resto: Seq<Seq<char>> = if j < s.len() {
            lineas(s@.skip(j + 1))
        } else {
            Seq::empty()
        };
        proof {
            lema_primer_indice_rango(t, '\n');
            if j < s.len() {
                let lt = t.take(j - p);
                assert(lt =~= s@.subrange(p as int, j as int));
                if lt.len() > 0 && lt.last() == '\r' {
                    assert(lt.drop_last() =~= l);
                } else {
                    assert(lt =~= l);
                }
                assert(t.skip(j - p + 1) =~= s@.skip(j + 1));
            } else {
                assert(t =~= l);
            }
            assert(lineas(t) == seq![l] + resto);
            lema_no_pragmas_cons(l, resto);
            lema_unidas_cons(l, no_pragmas(resto));
            if alguna {
                lema_unidas_cons(l, no_pragmas(resto));
            }
        }
        let pr = linea_es_pragma(s, p, e);
        if !pr {
            let ghost antes = out@;
            if alguna {
                out.push('\n');
            }
            let ghost base = out@;
            let mut k: usize = p;
            while k < e
                invariant
                    p <= k <= e <= s.len(),
                    out@ == base + s@.subrange(p as int, k as int),
                decreases e - k,
            {
                out.push(s[k]);
                assert(s@.subrange(p as int, k + 1) =~= s@.subrange(p as int, k as int).push(s@[k as int]));
                k = k + 1;
            }
            proof {
                if alguna {
                    assert(base =~= antes + seq!['\n']);
                    assert(out@ =~= antes + seq!['\n'] + l);
                    let np = no_pragmas(resto);
                    if np.len() > 0 {
                        assert(antes + seq!['\n'] + (l + seq!['\n'] + unidas(np)) =~= out@ + seq!['\n'] + unidas(np));
                    } else {
                        assert(antes + seq!['\n'] + l =~= out@);
                    }
                } else {
                    assert(base =~= Seq::<char>::empty());
                    assert(out@ =~= l);
                }
            }
            alguna = true;
        }
        if j < s.len() {
            p = j + 1;
        } else {
            p = s.len();
            proof {
                assert(s@.skip(p as int) =~= Seq::<char>::empty());
            }
        }
    }
    proof {
        assert(s@.skip(p as int) =~= Seq::<char>::empty());
        if !alguna {
            assert(out@ =~= Seq::<char>::empty());
        }
    }
    out
}

/// El esquema sin las líneas `PRAGMA`.
pub fn schema_without_pragmas() -> (r: String)
    ensures
        r@ == esquema_sin_pragmas(SCHEMA_SQL@),
{
    let v = caracteres(SCHEMA_SQL);
    let sin = sin_lineas_pragma(&v);
    cadena(&sin)
}

/// Ninguna línea que queda es `PRAGMA`, y las que quedan son las que no lo eran, en el mismo
/// orden: quitar las líneas `PRAGMA` de lo que ya no las tiene no cambia nada.
pub proof fn ley_sin_pragmas(ls: Seq<Seq<char>>)
    ensures
        forall|i: int| 0 <= i < no_pragmas(ls).len() ==> !es_pragma(#[trigger] no_pragmas(ls)[i]),
        no_pragmas(no_pragmas(ls)) == no_pragmas(ls),
        (forall|i: int| 0 <= i < ls.len() ==> !es_pragma(#[trigger] ls[i])) ==> no_pragmas(ls) == ls,
    decreases ls.len(),
{
    if ls.len() > 0 {
        let resto = ls.drop_first();
        ley_sin_pragmas(resto);
        assert(ls =~= seq![ls[0]] + resto);
        lema_no_pragmas_cons(ls[0], resto);
        if !es_pragma(ls[0]) {
            let np = no_pragmas(resto);
            lema_no_pragmas_cons(ls[0], np);
            assert forall|i: int| 0 <= i < no_pragmas(ls).len() implies !es_pragma(#[trigger] no_pragmas(ls)[i]) by {
                if i > 0 {
                    assert(no_pragmas(ls)[i] == np[i - 1]);
                }
            }
            if forall|i: int| 0 <= i < ls.len() ==> !es_pragma(#[trigger] ls[i]) {
                assert forall|i: int| 0 <= i < resto.len() implies !es_pragma(#[trigger] resto[i]) by {
                    assert(resto[i] == ls[i + 1]);
                }
            }
        } else {
            if forall|i: int| 0 <= i < ls.len() ==> !es_pragma(#[trigger] ls[i]) {
                assert(!es_pragma(ls[0]));
            }
        }
    } else {
        assert(no_pragmas(ls) =~= ls);
    }
}

} // verus!
