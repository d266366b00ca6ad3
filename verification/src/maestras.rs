//! Catálogos (niveles, ciclos, jurisdicciones, turnos, divisiones, tipos y estados), escuelas,
//! materias y años lectivos.

use vstd::prelude::*;
use crate::db::{
    Base, Envio, Dato, datos, lectura, sentencia_por_id, alta, cambio, comienzo, transaccion, args0,
    args1, args2, respuesta_con, valor_texto_opt, falla_de_base, falla_con, vista_pasos, Valor,
    ErrorDb, ejecuta, consulta, ultimo_id, changes_or_missing, para_docente, texto_o_nulo,
    en_transaccion, consulta_entero_opcional, CERRADO,
};
use crate::domain::{
    AnioLectivo, Ciclo, Division, Escuela, EscuelaWrite, EstadoAsistencia, Jurisdiccion, Materia, MateriaWrite,
    Nivel, TipoEvaluacion, TipoEvento, TipoObservacion, Turno,
};
use crate::filas::{
    filas_nivel, filas_ciclo, filas_jurisdiccion, filas_turno, filas_division, filas_tipo_evento,
    filas_tipo_evaluacion, filas_tipo_observacion, filas_estado_asistencia, filas_escuela, primera_escuela,
    filas_materia, primera_materia, filas_anio_lectivo, primera_anio_lectivo,
};
use crate::validar::{
    require_nombre, opt_text, obligatorio, texto_opcional, vista_opt, ley_obligatorio_estable,
    ley_texto_opcional_estable,
};

verus! {

pub const ANIO_FUERA_DE_RANGO: &'static str = "El año lectivo debe estar entre 2000 y 2100.";
pub const LIMPIAR_ACTIVO: &'static str = "No se puede limpiar el año lectivo activo. Activá otro año antes.";

pub const LIST_NIVELES: &'static str = "SELECT id, codigo, nombre FROM niveles ORDER BY id";

pub fn list_niveles_sql(conn: &mut Base) -> (r: Result<Vec<Nivel>, ErrorDb>)
    ensures
        final(conn).enviadas@ == old(conn).enviadas@.push(Envio::Consulta(LIST_NIVELES@, Seq::<Dato>::empty())),
        falla_de_base(r),
{
    let filas = consulta(conn, LIST_NIVELES, &args0())?;
    filas_nivel(&filas)
}

pub const LIST_CICLOS: &'static str = "SELECT c.id, c.id_nivel, c.nombre, c.orden
         FROM ciclos c
         JOIN niveles n ON n.id = c.id_nivel
         ORDER BY n.id, c.orden";

/// Ciclos por nivel y orden.
pub fn list_ciclos_sql(conn: &mut Base) -> (r: Result<Vec<Ciclo>, ErrorDb>)
    ensures
        final(conn).enviadas@ == old(conn).enviadas@.push(Envio::Consulta(LIST_CICLOS@, Seq::<Dato>::empty())),
        falla_de_base(r),
{
    let filas = consulta(
        conn,
        LIST_CICLOS,
        &args0(),
    )?;
    filas_ciclo(&filas)
}

pub const LIST_JURISDICCIONES: &'static str = "SELECT id, codigo, nombre FROM jurisdicciones ORDER BY id";

pub fn list_jurisdicciones_sql(conn: &mut Base) -> (r: Result<Vec<Jurisdiccion>, ErrorDb>)
    ensures
        final(conn).enviadas@ == old(conn).enviadas@.push(Envio::Consulta(LIST_JURISDICCIONES@, Seq::<Dato>::empty())),
        falla_de_base(r),
{
    let filas = consulta(conn, LIST_JURISDICCIONES, &args0())?;
    filas_jurisdiccion(&filas)
}

pub const LIST_TURNOS: &'static str = "SELECT id, nombre FROM turnos ORDER BY id";

pub fn list_turnos_sql(conn: &mut Base) -> (r: Result<Vec<Turno>, ErrorDb>)
    ensures
        final(conn).enviadas@ == old(conn).enviadas@.push(Envio::Consulta(LIST_TURNOS@, Seq::<Dato>::empty())),
        falla_de_base(r),
{
    let filas = consulta(conn, LIST_TURNOS, &args0())?;
    filas_turno(&filas)
}

pub const LIST_DIVISIONES: &'static str = "SELECT id, nombre FROM divisiones ORDER BY id";

pub fn list_divisiones_sql(conn: &mut Base) -> (r: Result<Vec<Division>, ErrorDb>)
    ensures
        final(conn).enviadas@ == old(conn).enviadas@.push(Envio::Consulta(LIST_DIVISIONES@, Seq::<Dato>::empty())),
        falla_de_base(r),
{
    let filas = consulta(conn, LIST_DIVISIONES, &args0())?;
    filas_division(&filas)
}

pub const LIST_TIPOS_EVENTO: &'static str = "SELECT id, codigo, nombre FROM tipos_evento ORDER BY id";

pub fn list_tipos_evento_sql(conn: &mut Base) -> (r: Result<Vec<TipoEvento>, ErrorDb>)
    ensures
        final(conn).enviadas@ == old(conn).enviadas@.push(Envio::Consulta(LIST_TIPOS_EVENTO@, Seq::<Dato>::empty())),
        falla_de_base(r),
{
    let filas = consulta(conn, LIST_TIPOS_EVENTO, &args0())?;
    filas_tipo_evento(&filas)
}

pub const LIST_TIPOS_EVALUACION: &'static str = "SELECT id, codigo, nombre FROM tipos_evaluacion ORDER BY id";

pub fn list_tipos_evaluacion_sql(conn: &mut Base) -> (r: Result<Vec<TipoEvaluacion>, ErrorDb>)
    ensures
        final(conn).enviadas@ == old(conn).enviadas@.push(Envio::Consulta(LIST_TIPOS_EVALUACION@, Seq::<Dato>::empty())),
        falla_de_base(r),
{
    let filas = consulta(conn, LIST_TIPOS_EVALUACION, &args0())?;
    filas_tipo_evaluacion(&filas)
}

pub const LIST_TIPOS_OBSERVACION: &'static str = "SELECT id, codigo, nombre FROM tipos_observacion ORDER BY id";

pub fn list_tipos_observacion_sql(conn: &mut Base) -> (r: Result<Vec<TipoObservacion>, ErrorDb>)
    ensures
        final(conn).enviadas@ == old(conn).enviadas@.push(Envio::Consulta(LIST_TIPOS_OBSERVACION@, Seq::<Dato>::empty())),
        falla_de_base(r),
{
    let filas = consulta(conn, LIST_TIPOS_OBSERVACION, &args0())?;
    filas_tipo_observacion(&filas)
}

pub const LIST_ESTADOS_ASISTENCIA: &'static str = "SELECT id, codigo, nombre FROM estados_asistencia ORDER BY id";

pub fn list_estados_asistencia_sql(conn: &mut Base) -> (r: Result<Vec<EstadoAsistencia>, ErrorDb>)
    ensures
        final(conn).enviadas@ == old(conn).enviadas@.push(Envio::Consulta(LIST_ESTADOS_ASISTENCIA@, Seq::<Dato>::empty())),
        falla_de_base(r),
{
    let filas = consulta(conn, LIST_ESTADOS_ASISTENCIA, &args0())?;
    filas_estado_asistencia(&filas)
}

/// El primer error de una escuela (el nombre) y los opcionales recortados.
pub open spec fn escuela_write_ok(r: Result<EscuelaWrite, String>, e: EscuelaWrite) -> bool {
    match r {
        Ok(x) => {
            &&& obligatorio(e.nombre@, "nombre"@) == Ok::<Seq<char>, Seq<char>>(x.nombre@)
            &&& vista_opt(x.nombre_corto) == texto_opcional(vista_opt(e.nombre_corto))
            &&& vista_opt(x.direccion) == texto_opcional(vista_opt(e.direccion))
            &&& vista_opt(x.telefono) == texto_opcional(vista_opt(e.telefono))
            &&& vista_opt(x.email) == texto_opcional(vista_opt(e.email))
            &&& x.id_jurisdiccion == e.id_jurisdiccion
        },
        Err(m) => obligatorio(e.nombre@, "nombre"@) == Err::<Seq<char>, Seq<char>>(m@),
    }
}

/// Nombre obligatorio; nombre corto, dirección, teléfono y email vacíos quedan en `NULL`.
pub fn escuela_from_write(escuela: EscuelaWrite) -> (r: Result<EscuelaWrite, String>)
    ensures
        escuela_write_ok(r, escuela),
{
    let nombre = require_nombre(escuela.nombre.as_str(), "nombre")?;
    Ok(EscuelaWrite {
        id_jurisdiccion: escuela.id_jurisdiccion,
        nombre,
        nombre_corto: opt_text(escuela.nombre_corto),
        direccion: opt_text(escuela.direccion),
        telefono: opt_text(escuela.telefono),
        email: opt_text(escuela.email),
    })
}

pub const GET_ESCUELA: &'static str = "SELECT id, id_jurisdiccion, nombre, nombre_corto, direccion, telefono, email
         FROM escuelas WHERE id = ?1";

pub fn get_escuela(conn: &mut Base, id: i64) -> (r: Result<Escuela, ErrorDb>)
    ensures
        final(conn).enviadas@ == old(conn).enviadas@.push(lectura(GET_ESCUELA@, id)),
        falla_de_base(r),
{
    let filas = consulta(
        conn,
        GET_ESCUELA,
        &args1(Valor::Entero(id)),
    )?;
    primera_escuela(&filas)
}

pub const LIST_ESCUELAS: &'static str = "SELECT id, id_jurisdiccion, nombre, nombre_corto, direccion, telefono, email
         FROM escuelas ORDER BY nombre COLLATE NOCASE";

pub fn list_escuelas_sql(conn: &mut Base) -> (r: Result<Vec<Escuela>, ErrorDb>)
    ensures
        final(conn).enviadas@ == old(conn).enviadas@.push(Envio::Consulta(LIST_ESCUELAS@, Seq::<Dato>::empty())),
        falla_de_base(r),
{
    let filas = consulta(
        conn,
        LIST_ESCUELAS,
        &args0(),
    )?;
    filas_escuela(&filas)
}

/// Los parámetros de una escuela, en el orden de las columnas.
pub open spec fn parametros_escuela(w: EscuelaWrite) -> Seq<Valor> {
    seq![
        Valor::Entero(w.id_jurisdiccion),
        Valor::Texto(w.nombre),
        valor_texto_opt(w.nombre_corto),
        valor_texto_opt(w.direccion),
        valor_texto_opt(w.telefono),
        valor_texto_opt(w.email),
    ]
}

fn valores_escuela(w: &EscuelaWrite) -> (r: Vec<Valor>)
    ensures
        r@ == parametros_escuela(*w),
{
    vec![
        Valor::Entero(w.id_jurisdiccion),
        Valor::Texto(w.nombre.clone()),
        texto_o_nulo(&w.nombre_corto),
        texto_o_nulo(&w.direccion),
        texto_o_nulo(&w.telefono),
        texto_o_nulo(&w.email),
    ]
}

pub const INSERT_ESCUELA: &'static str = "INSERT INTO escuelas (id_jurisdiccion, nombre, nombre_corto, direccion, telefono, email)
         VALUES (?1, ?2, ?3, ?4, ?5, ?6)";

pub fn insert_escuela_sql(conn: &mut Base, w: &EscuelaWrite) -> (r: Result<Escuela, ErrorDb>)
    ensures
        alta(old(conn).enviadas@, final(conn).enviadas@, Envio::Ejecuta(INSERT_ESCUELA@, datos(parametros_escuela(*w))), GET_ESCUELA@, r is Ok),
        falla_de_base(r),
{
    ejecuta(
        conn,
        INSERT_ESCUELA,
        &valores_escuela(w),
    )?;
    let id = ultimo_id(conn);
    get_escuela(conn, id)
}

pub const UPDATE_ESCUELA: &'static str = "UPDATE escuelas
         SET id_jurisdiccion = ?1, nombre = ?2, nombre_corto = ?3,
             direccion = ?4, telefono = ?5, email = ?6
         WHERE id = ?7";

pub fn update_escuela_sql(conn: &mut Base, id: i64, w: &EscuelaWrite) -> (r: Result<Escuela, ErrorDb>)
    ensures
        cambio(old(conn).enviadas@, final(conn).enviadas@, Envio::Ejecuta(UPDATE_ESCUELA@, datos(parametros_escuela(*w).push(Valor::Entero(id)))), GET_ESCUELA@, id, r is Ok),
        falla_de_base(r),
{
    let mut args = valores_escuela(w);
    args.push(Valor::Entero(id));
    let n = ejecuta(
        conn,
        UPDATE_ESCUELA,
        &args,
    )?;
    changes_or_missing(n)?;
    get_escuela(conn, id)
}

pub const DELETE_ESCUELA: &'static str = "DELETE FROM escuelas WHERE id = ?1";

pub fn delete_escuela_sql(conn: &mut Base, id: i64) -> (r: Result<(), ErrorDb>)
    ensures
        final(conn).enviadas@ == old(conn).enviadas@.push(sentencia_por_id(DELETE_ESCUELA@, id)),
        falla_de_base(r),
{
    let n = ejecuta(conn, DELETE_ESCUELA, &args1(Valor::Entero(id)))?;
    changes_or_missing(n)
}

pub const GET_MATERIA: &'static str = "SELECT id, nombre FROM materias WHERE id = ?1";

pub fn get_materia(conn: &mut Base, id: i64) -> (r: Result<Materia, ErrorDb>)
    ensures
        final(conn).enviadas@ == old(conn).enviadas@.push(lectura(GET_MATERIA@, id)),
        falla_de_base(r),
{
    let filas = consulta(conn, GET_MATERIA, &args1(Valor::Entero(id)))?;
    primera_materia(&filas)
}

pub const LIST_MATERIAS: &'static str = "SELECT id, nombre FROM materias ORDER BY nombre COLLATE NOCASE";

pub fn list_materias_sql(conn: &mut Base) -> (r: Result<Vec<Materia>, ErrorDb>)
    ensures
        final(conn).enviadas@ == old(conn).enviadas@.push(Envio::Consulta(LIST_MATERIAS@, Seq::<Dato>::empty())),
        falla_de_base(r),
{
    let filas = consulta(conn, LIST_MATERIAS, &args0())?;
    filas_materia(&filas)
}

pub const INSERT_MATERIA: &'static str = "INSERT INTO materias (nombre) VALUES (?1)";

pub fn insert_materia_sql(conn: &mut Base, nombre: &str) -> (r: Result<Materia, ErrorDb>)
    ensures
        alta(old(conn).enviadas@, final(conn).enviadas@, Envio::Ejecuta(INSERT_MATERIA@, seq![Dato::Texto(nombre@)]), GET_MATERIA@, r is Ok),
        falla_de_base(r),
{
    ejecuta(conn, INSERT_MATERIA, &args1(Valor::Texto(nombre.to_owned())))?;
    let id = ultimo_id(conn);
    get_materia(conn, id)
}

pub const UPDATE_MATERIA: &'static str = "UPDATE materias SET nombre = ?1 WHERE id = ?2";

pub fn update_materia_sql(conn: &mut Base, id: i64, nombre: &str) -> (r: Result<Materia, ErrorDb>)
    ensures
        cambio(old(conn).enviadas@, final(conn).enviadas@, Envio::Ejecuta(UPDATE_MATERIA@, seq![Dato::Texto(nombre@), Dato::Entero(id)]), GET_MATERIA@, id, r is Ok),
        falla_de_base(r),
{
    let n = ejecuta(
        conn,
        UPDATE_MATERIA,
        &args2(Valor::Texto(nombre.to_owned()), Valor::Entero(id)),
    )?;
    changes_or_missing(n)?;
    get_materia(conn, id)
}

pub const DELETE_MATERIA: &'static str = "DELETE FROM materias WHERE id = ?1";

pub fn delete_materia_sql(conn: &mut Base, id: i64) -> (r: Result<(), ErrorDb>)
    ensures
        final(conn).enviadas@ == old(conn).enviadas@.push(sentencia_por_id(DELETE_MATERIA@, id)),
        falla_de_base(r),
{
    let n = ejecuta(conn, DELETE_MATERIA, &args1(Valor::Entero(id)))?;
    changes_or_missing(n)
}

pub const LIST_ANIOS: &'static str = "SELECT id, anio, activo FROM anios_lectivos ORDER BY anio DESC";

/// Años lectivos, del más nuevo al más viejo.
pub fn list_anios_sql(conn: &mut Base) -> (r: Result<Vec<AnioLectivo>, ErrorDb>)
    ensures
        final(conn).enviadas@ == old(conn).enviadas@.push(Envio::Consulta(LIST_ANIOS@, Seq::<Dato>::empty())),
        falla_de_base(r),
{
    let filas = consulta(conn, LIST_ANIOS, &args0())?;
    filas_anio_lectivo(&filas)
}

pub const GET_ANIO: &'static str = "SELECT id, anio, activo FROM anios_lectivos WHERE id = ?1";

pub fn get_anio(conn: &mut Base, id: i64) -> (r: Result<AnioLectivo, ErrorDb>)
    ensures
        final(conn).enviadas@ == old(conn).enviadas@.push(lectura(GET_ANIO@, id)),
        falla_de_base(r),
{
    let filas = consulta(conn, GET_ANIO, &args1(Valor::Entero(id)))?;
    primera_anio_lectivo(&filas)
}

pub const INSERT_ANIO: &'static str = "INSERT INTO anios_lectivos (anio, activo) VALUES (?1, 0)";

/// Un año nuevo entra inactivo.
pub fn insert_anio_sql(conn: &mut Base, anio: i64) -> (r: Result<AnioLectivo, ErrorDb>)
    ensures
        alta(old(conn).enviadas@, final(conn).enviadas@, Envio::Ejecuta(INSERT_ANIO@, seq![Dato::Entero(anio)]), GET_ANIO@, r is Ok),
        falla_de_base(r),
{
    ejecuta(conn, INSERT_ANIO, &args1(Valor::Entero(anio)))?;
    let id = ultimo_id(conn);
    get_anio(conn, id)
}

/// Un año lectivo de 2000 a 2100.
pub fn validar_anio(anio: i64) -> (r: Result<i64, String>)
    ensures
        2000 <= anio <= 2100 ==> r == Ok::<i64, String>(anio),
        !(2000 <= anio <= 2100) ==> (r matches Err(m) && m@ == ANIO_FUERA_DE_RANGO@),
{
    if 2000 <= anio && anio <= 2100 {
        Ok(anio)
    } else {
        Err(ANIO_FUERA_DE_RANGO.to_owned())
    }
}

/// Solo se limpia un año que no está activo.
pub fn puede_limpiar(activo: i64) -> (r: Result<(), ErrorDb>)
    ensures
        activo == 1 ==> (r matches Err(ErrorDb::App(m)) && m@ == LIMPIAR_ACTIVO@),
        activo != 1 ==> r is Ok,
{
    if activo == 1 {
        Err(ErrorDb::App(LIMPIAR_ACTIVO.to_owned()))
    } else {
        Ok(())
    }
}

pub const LIMPIAR_NOTAS: &'static str = "DELETE FROM notas WHERE id_evaluacion IN (
                SELECT e.id FROM evaluaciones e
                JOIN cursos c ON c.id = e.id_curso
                WHERE c.id_anio_lectivo = ?1
            )";
pub const LIMPIAR_OBSERVACIONES: &'static str = "DELETE FROM observaciones WHERE id_curso IN (SELECT id FROM cursos WHERE id_anio_lectivo = ?1)";
pub const LIMPIAR_ASISTENCIAS: &'static str = "DELETE FROM asistencias WHERE id_curso IN (SELECT id FROM cursos WHERE id_anio_lectivo = ?1)";
pub const LIMPIAR_EVALUACIONES: &'static str = "DELETE FROM evaluaciones WHERE id_curso IN (SELECT id FROM cursos WHERE id_anio_lectivo = ?1)";
pub const LIMPIAR_EVENTOS: &'static str = "DELETE FROM eventos WHERE id_curso IN (SELECT id FROM cursos WHERE id_anio_lectivo = ?1)";
pub const LIMPIAR_HORARIOS: &'static str = "DELETE FROM horarios WHERE id_curso IN (SELECT id FROM cursos WHERE id_anio_lectivo = ?1)";
pub const LIMPIAR_INSCRIPCIONES: &'static str = "DELETE FROM alumnos_cursos WHERE id_curso IN (SELECT id FROM cursos WHERE id_anio_lectivo = ?1)";

/// Lo que borra la limpieza de un año, en orden: notas, observaciones, asistencia, evaluaciones,
/// eventos con curso, horarios e inscripciones de sus dictados; cada sentencia con el id del año.
pub open spec fn pasos_limpiar_spec(id: i64) -> Seq<(Seq<char>, Seq<Valor>)> {
    let par = seq![Valor::Entero(id)];
    seq![(LIMPIAR_NOTAS@, par), (LIMPIAR_OBSERVACIONES@, par), (LIMPIAR_ASISTENCIAS@, par), (LIMPIAR_EVALUACIONES@, par), (LIMPIAR_EVENTOS@, par), (LIMPIAR_HORARIOS@, par), (LIMPIAR_INSCRIPCIONES@, par)]
}

/// Las sentencias que vacían lo operativo de un año.
pub fn pasos_limpiar(id: i64) -> (r: Vec<(&'static str, Vec<Valor>)>)
    ensures
        vista_pasos(r@) == pasos_limpiar_spec(id),
{
    let r = vec![
        (LIMPIAR_NOTAS, vec![Valor::Entero(id)]),
        (LIMPIAR_OBSERVACIONES, vec![Valor::Entero(id)]),
        (LIMPIAR_ASISTENCIAS, vec![Valor::Entero(id)]),
        (LIMPIAR_EVALUACIONES, vec![Valor::Entero(id)]),
        (LIMPIAR_EVENTOS, vec![Valor::Entero(id)]),
        (LIMPIAR_HORARIOS, vec![Valor::Entero(id)]),
        (LIMPIAR_INSCRIPCIONES, vec![Valor::Entero(id)]),
    ];
    assert(r@.len() == 7);
    assert(r@[0].1@ == seq![Valor::Entero(id)]);
    assert(r@[1].1@ == seq![Valor::Entero(id)]);
    assert(r@[2].1@ == seq![Valor::Entero(id)]);
    assert(r@[3].1@ == seq![Valor::Entero(id)]);
    assert(r@[4].1@ == seq![Valor::Entero(id)]);
    assert(r@[5].1@ == seq![Valor::Entero(id)]);
    assert(r@[6].1@ == seq![Valor::Entero(id)]);
    assert(vista_pasos(r@) =~= pasos_limpiar_spec(id));
    r
}

/// La limpieza, con la marca `activo` que se leyó del año: el año activo se rechaza y no se toca
/// nada; si no, se borran en una transacción las filas de `pasos_limpiar`.
pub fn limpiar_con(conn: &mut Base, id: i64, activo: i64) -> (r: Result<(), ErrorDb>)
    ensures
        activo == 1 ==> (r matches Err(ErrorDb::App(m)) && m@ == LIMPIAR_ACTIVO@),
        activo == 1 ==> final(conn).enviadas@ == old(conn).enviadas@,
        activo != 1 ==> falla_de_base(r),
        activo != 1 && r is Ok ==> final(conn).enviadas@ == old(conn).enviadas@ + transaccion(pasos_limpiar_spec(id)),
        activo != 1 && r is Err ==> comienzo(old(conn).enviadas@, final(conn).enviadas@, transaccion(pasos_limpiar_spec(id))),
{
    puede_limpiar(activo)?;
    en_transaccion(conn, &pasos_limpiar(id))
}

/// Vacía lo operativo de un año inactivo, en una transacción: notas, observaciones, asistencia,
/// evaluaciones, eventos con curso, horarios e inscripciones de sus dictados. Quedan los alumnos,
/// las escuelas, las materias, el año, los dictados y los eventos sueltos.
pub fn limpiar_anio_sql(conn: &mut Base, id: i64) -> (r: Result<(), ErrorDb>)
    ensures
        r is Ok ==> final(conn).enviadas@ == old(conn).enviadas@.push(lectura(GET_ANIO@, id)) + transaccion(pasos_limpiar_spec(id)),
        r is Err ==> final(conn).enviadas@ == old(conn).enviadas@.push(lectura(GET_ANIO@, id)) || comienzo(old(conn).enviadas@.push(lectura(GET_ANIO@, id)), final(conn).enviadas@, transaccion(pasos_limpiar_spec(id))),
        r matches Err(ErrorDb::App(_)) ==> final(conn).enviadas@ == old(conn).enviadas@.push(lectura(GET_ANIO@, id)),
        falla_con(r, set![LIMPIAR_ACTIVO@]),
{
    let anio = get_anio(conn, id)?;
    limpiar_con(conn, id, anio.activo)
}

pub const APAGAR_ANIOS: &'static str = "UPDATE anios_lectivos SET activo = 0 WHERE activo = 1";
pub const PRENDER_ANIO: &'static str = "UPDATE anios_lectivos SET activo = 1 WHERE id = ?1";

/// Activar un año: se apagan todos los activos y se prende ese.
pub open spec fn pasos_activar_spec(id: i64) -> Seq<(Seq<char>, Seq<Valor>)> {
    seq![(APAGAR_ANIOS@, Seq::<Valor>::empty()), (PRENDER_ANIO@, seq![Valor::Entero(id)])]
}

/// Activar un año manda, dentro de una sola transacción, primero el apagado de todos los años
/// activos y después el encendido de ese año, y nada más: la transacción se confirma al final.
pub proof fn ley_un_solo_activo(id: i64)
    ensures
        transaccion(pasos_activar_spec(id)) == seq![
            Envio::Empieza,
            Envio::Ejecuta(APAGAR_ANIOS@, Seq::<Dato>::empty()),
            Envio::Ejecuta(PRENDER_ANIO@, seq![Dato::Entero(id)]),
            Envio::Confirma,
        ],
{
    assert(datos(Seq::<Valor>::empty()) =~= Seq::<Dato>::empty());
    assert(datos(seq![Valor::Entero(id)]) =~= seq![Dato::Entero(id)]);
    assert(transaccion(pasos_activar_spec(id)) =~= seq![
        Envio::Empieza,
        Envio::Ejecuta(APAGAR_ANIOS@, Seq::<Dato>::empty()),
        Envio::Ejecuta(PRENDER_ANIO@, seq![Dato::Entero(id)]),
        Envio::Confirma,
    ]);
}

/// Las sentencias que dejan activo solo ese año.
pub fn pasos_activar(id: i64) -> (r: Vec<(&'static str, Vec<Valor>)>)
    ensures
        vista_pasos(r@) == pasos_activar_spec(id),
{
    let r = vec![(APAGAR_ANIOS, Vec::new()), (PRENDER_ANIO, vec![Valor::Entero(id)])];
    assert(r@.len() == 2);
    assert(r@[0].1@ == Seq::<Valor>::empty());
    assert(r@[1].1@ == seq![Valor::Entero(id)]);
    assert(vista_pasos(r@) =~= pasos_activar_spec(id));
    r
}

/// La activación, con lo que se leyó de la base (`existe`: si el año está): sin el año es "no
/// encontrado" y no se toca nada; si no, `pasos_activar` en una transacción y el año releído.
pub fn activar_con(conn: &mut Base, id: i64, existe: bool) -> (r: Result<AnioLectivo, ErrorDb>)
    ensures
        !existe ==> r == Err::<AnioLectivo, ErrorDb>(ErrorDb::NoEncontrado),
        !existe ==> final(conn).enviadas@ == old(conn).enviadas@,
        existe ==> falla_de_base(r),
        existe && r is Ok ==> final(conn).enviadas@ == (old(conn).enviadas@ + transaccion(pasos_activar_spec(id))).push(lectura(GET_ANIO@, id)),
        existe && r is Err ==> comienzo(old(conn).enviadas@, final(conn).enviadas@, transaccion(pasos_activar_spec(id)))
            || final(conn).enviadas@ == (old(conn).enviadas@ + transaccion(pasos_activar_spec(id))).push(lectura(GET_ANIO@, id)),
{
    if !existe {
        return Err(ErrorDb::NoEncontrado);
    }
    en_transaccion(conn, &pasos_activar(id))?;
    get_anio(conn, id)
}

pub const EXISTE_ANIO: &'static str = "SELECT id FROM anios_lectivos WHERE id = ?1";

/// Deja activo solo ese año: en una transacción se apagan todos y se prende el elegido.
pub fn activar_anio_sql(conn: &mut Base, id: i64) -> (r: Result<AnioLectivo, ErrorDb>)
    ensures
        r is Ok ==> final(conn).enviadas@ == (old(conn).enviadas@.push(lectura(EXISTE_ANIO@, id)) + transaccion(pasos_activar_spec(id))).push(lectura(GET_ANIO@, id)),
        r is Err ==> final(conn).enviadas@ == old(conn).enviadas@.push(lectura(EXISTE_ANIO@, id)) || comienzo(old(conn).enviadas@.push(lectura(EXISTE_ANIO@, id)), final(conn).enviadas@, transaccion(pasos_activar_spec(id))) || final(conn).enviadas@ == (old(conn).enviadas@.push(lectura(EXISTE_ANIO@, id)) + transaccion(pasos_activar_spec(id))).push(lectura(GET_ANIO@, id)),
        falla_de_base(r),
{
    let hay = consulta_entero_opcional(conn, EXISTE_ANIO, &args1(Valor::Entero(id)))?;
    activar_con(conn, id, hay.is_some())
}

pub fn list_niveles(conn: Option<&mut Base>) -> (r: Result<Vec<Nivel>, String>)
    ensures
        conn is None ==> (r matches Err(m) && m@ == CERRADO@),
        conn is Some ==> respuesta_con(r, Set::empty()),
        conn matches Some(b) ==> (final(b).enviadas@ == (*b).enviadas@.push(Envio::Consulta(LIST_NIVELES@, Seq::<Dato>::empty()))),
{
    match conn {
        None => Err(CERRADO.to_owned()),
        Some(c) => para_docente(list_niveles_sql(c)),
    }
}

pub fn list_ciclos(conn: Option<&mut Base>) -> (r: Result<Vec<Ciclo>, String>)
    ensures
        conn is None ==> (r matches Err(m) && m@ == CERRADO@),
        conn is Some ==> respuesta_con(r, Set::empty()),
        conn matches Some(b) ==> (final(b).enviadas@ == (*b).enviadas@.push(Envio::Consulta(LIST_CICLOS@, Seq::<Dato>::empty()))),
{
    match conn {
        None => Err(CERRADO.to_owned()),
        Some(c) => para_docente(list_ciclos_sql(c)),
    }
}

pub fn list_jurisdicciones(conn: Option<&mut Base>) -> (r: Result<Vec<Jurisdiccion>, String>)
    ensures
        conn is None ==> (r matches Err(m) && m@ == CERRADO@),
        conn is Some ==> respuesta_con(r, Set::empty()),
        conn matches Some(b) ==> (final(b).enviadas@ == (*b).enviadas@.push(Envio::Consulta(LIST_JURISDICCIONES@, Seq::<Dato>::empty()))),
{
    match conn {
        None => Err(CERRADO.to_owned()),
        Some(c) => para_docente(list_jurisdicciones_sql(c)),
    }
}

pub fn list_turnos(conn: Option<&mut Base>) -> (r: Result<Vec<Turno>, String>)
    ensures
        conn is None ==> (r matches Err(m) && m@ == CERRADO@),
        conn is Some ==> respuesta_con(r, Set::empty()),
        conn matches Some(b) ==> (final(b).enviadas@ == (*b).enviadas@.push(Envio::Consulta(LIST_TURNOS@, Seq::<Dato>::empty()))),
{
    match conn {
        None => Err(CERRADO.to_owned()),
        Some(c) => para_docente(list_turnos_sql(c)),
    }
}

pub fn list_divisiones(conn: Option<&mut Base>) -> (r: Result<Vec<Division>, String>)
    ensures
        conn is None ==> (r matches Err(m) && m@ == CERRADO@),
        conn is Some ==> respuesta_con(r, Set::empty()),
        conn matches Some(b) ==> (final(b).enviadas@ == (*b).enviadas@.push(Envio::Consulta(LIST_DIVISIONES@, Seq::<Dato>::empty()))),
{
    match conn {
        None => Err(CERRADO.to_owned()),
        Some(c) => para_docente(list_divisiones_sql(c)),
    }
}

pub fn list_tipos_evaluacion(conn: Option<&mut Base>) -> (r: Result<Vec<TipoEvaluacion>, String>)
    ensures
        conn is None ==> (r matches Err(m) && m@ == CERRADO@),
        conn is Some ==> respuesta_con(r, Set::empty()),
        conn matches Some(b) ==> (final(b).enviadas@ == (*b).enviadas@.push(Envio::Consulta(LIST_TIPOS_EVALUACION@, Seq::<Dato>::empty()))),
{
    match conn {
        None => Err(CERRADO.to_owned()),
        Some(c) => para_docente(list_tipos_evaluacion_sql(c)),
    }
}

pub fn list_tipos_evento(conn: Option<&mut Base>) -> (r: Result<Vec<TipoEvento>, String>)
    ensures
        conn is None ==> (r matches Err(m) && m@ == CERRADO@),
        conn is Some ==> respuesta_con(r, Set::empty()),
        conn matches Some(b) ==> (final(b).enviadas@ == (*b).enviadas@.push(Envio::Consulta(LIST_TIPOS_EVENTO@, Seq::<Dato>::empty()))),
{
    match conn {
        None => Err(CERRADO.to_owned()),
        Some(c) => para_docente(list_tipos_evento_sql(c)),
    }
}

pub fn list_estados_asistencia(conn: Option<&mut Base>) -> (r: Result<Vec<EstadoAsistencia>, String>)
    ensures
        conn is None ==> (r matches Err(m) && m@ == CERRADO@),
        conn is Some ==> respuesta_con(r, Set::empty()),
        conn matches Some(b) ==> (final(b).enviadas@ == (*b).enviadas@.push(Envio::Consulta(LIST_ESTADOS_ASISTENCIA@, Seq::<Dato>::empty()))),
{
    match conn {
        None => Err(CERRADO.to_owned()),
        Some(c) => para_docente(list_estados_asistencia_sql(c)),
    }
}

pub fn list_tipos_observacion(conn: Option<&mut Base>) -> (r: Result<Vec<TipoObservacion>, String>)
    ensures
        conn is None ==> (r matches Err(m) && m@ == CERRADO@),
        conn is Some ==> respuesta_con(r, Set::empty()),
        conn matches Some(b) ==> (final(b).enviadas@ == (*b).enviadas@.push(Envio::Consulta(LIST_TIPOS_OBSERVACION@, Seq::<Dato>::empty()))),
{
    match conn {
        None => Err(CERRADO.to_owned()),
        Some(c) => para_docente(list_tipos_observacion_sql(c)),
    }
}

pub fn list_escuelas(conn: Option<&mut Base>) -> (r: Result<Vec<Escuela>, String>)
    ensures
        conn is None ==> (r matches Err(m) && m@ == CERRADO@),
        conn is Some ==> respuesta_con(r, Set::empty()),
        conn matches Some(b) ==> (final(b).enviadas@ == (*b).enviadas@.push(Envio::Consulta(LIST_ESCUELAS@, Seq::<Dato>::empty()))),
{
    match conn {
        None => Err(CERRADO.to_owned()),
        Some(c) => para_docente(list_escuelas_sql(c)),
    }
}

pub fn create_escuela(conn: Option<&mut Base>, escuela: EscuelaWrite) -> (r: Result<Escuela, String>)
    ensures
        obligatorio(escuela.nombre@, "nombre"@) matches Err(e) ==> (r matches Err(m) && m@ == e),
        obligatorio(escuela.nombre@, "nombre"@) is Ok && conn is None ==> (r matches Err(m) && m@ == CERRADO@),
        obligatorio(escuela.nombre@, "nombre"@) is Ok && conn is Some ==> respuesta_con(r, Set::empty()),
        !(obligatorio(escuela.nombre@, "nombre"@) is Ok) ==> (conn matches Some(b) ==> final(b).enviadas@ == (*b).enviadas@),
        obligatorio(escuela.nombre@, "nombre"@) is Ok ==> (conn matches Some(b) ==> exists|v: EscuelaWrite| #[trigger] escuela_write_ok(Ok::<EscuelaWrite, String>(v), escuela) && (alta((*b).enviadas@, final(b).enviadas@, Envio::Ejecuta(INSERT_ESCUELA@, datos(parametros_escuela(v))), GET_ESCUELA@, r is Ok))),
{
    let w = escuela_from_write(escuela)?;
    assert(escuela_write_ok(Ok::<EscuelaWrite, String>(w), escuela));
    match conn {
        None => Err(CERRADO.to_owned()),
        Some(c) => para_docente(insert_escuela_sql(c, &w)),
    }
}

pub fn update_escuela(conn: Option<&mut Base>, id: i64, escuela: EscuelaWrite) -> (r: Result<Escuela, String>)
    ensures
        obligatorio(escuela.nombre@, "nombre"@) matches Err(e) ==> (r matches Err(m) && m@ == e),
        obligatorio(escuela.nombre@, "nombre"@) is Ok && conn is None ==> (r matches Err(m) && m@ == CERRADO@),
        obligatorio(escuela.nombre@, "nombre"@) is Ok && conn is Some ==> respuesta_con(r, Set::empty()),
        !(obligatorio(escuela.nombre@, "nombre"@) is Ok) ==> (conn matches Some(b) ==> final(b).enviadas@ == (*b).enviadas@),
        obligatorio(escuela.nombre@, "nombre"@) is Ok ==> (conn matches Some(b) ==> exists|v: EscuelaWrite| #[trigger] escuela_write_ok(Ok::<EscuelaWrite, String>(v), escuela) && (cambio((*b).enviadas@, final(b).enviadas@, Envio::Ejecuta(UPDATE_ESCUELA@, datos(parametros_escuela(v).push(Valor::Entero(id)))), GET_ESCUELA@, id, r is Ok))),
{
    let w = escuela_from_write(escuela)?;
    assert(escuela_write_ok(Ok::<EscuelaWrite, String>(w), escuela));
    match conn {
        None => Err(CERRADO.to_owned()),
        Some(c) => para_docente(update_escuela_sql(c, id, &w)),
    }
}

pub fn delete_escuela(conn: Option<&mut Base>, id: i64) -> (r: Result<(), String>)
    ensures
        conn is None ==> (r matches Err(m) && m@ == CERRADO@),
        conn is Some ==> respuesta_con(r, Set::empty()),
        conn matches Some(b) ==> (final(b).enviadas@ == (*b).enviadas@.push(sentencia_por_id(DELETE_ESCUELA@, id))),
{
    match conn {
        None => Err(CERRADO.to_owned()),
        Some(c) => para_docente(delete_escuela_sql(c, id)),
    }
}

pub fn list_materias(conn: Option<&mut Base>) -> (r: Result<Vec<Materia>, String>)
    ensures
        conn is None ==> (r matches Err(m) && m@ == CERRADO@),
        conn is Some ==> respuesta_con(r, Set::empty()),
        conn matches Some(b) ==> (final(b).enviadas@ == (*b).enviadas@.push(Envio::Consulta(LIST_MATERIAS@, Seq::<Dato>::empty()))),
{
    match conn {
        None => Err(CERRADO.to_owned()),
        Some(c) => para_docente(list_materias_sql(c)),
    }
}

pub fn create_materia(conn: Option<&mut Base>, materia: MateriaWrite) -> (r: Result<Materia, String>)
    ensures
        obligatorio(materia.nombre@, "nombre"@) matches Err(e) ==> (r matches Err(m) && m@ == e),
        obligatorio(materia.nombre@, "nombre"@) is Ok && conn is None ==> (r matches Err(m) && m@ == CERRADO@),
        obligatorio(materia.nombre@, "nombre"@) is Ok && conn is Some ==> respuesta_con(r, Set::empty()),
        !(obligatorio(materia.nombre@, "nombre"@) is Ok) ==> (conn matches Some(b) ==> final(b).enviadas@ == (*b).enviadas@),
        obligatorio(materia.nombre@, "nombre"@) matches Ok(n) ==> (conn matches Some(b) ==> alta((*b).enviadas@, final(b).enviadas@, Envio::Ejecuta(INSERT_MATERIA@, seq![Dato::Texto(n)]), GET_MATERIA@, r is Ok)),
{
    let nombre = require_nombre(materia.nombre.as_str(), "nombre")?;
    match conn {
        None => Err(CERRADO.to_owned()),
        Some(c) => para_docente(insert_materia_sql(c, nombre.as_str())),
    }
}

pub fn update_materia(conn: Option<&mut Base>, id: i64, materia: MateriaWrite) -> (r: Result<Materia, String>)
    ensures
        obligatorio(materia.nombre@, "nombre"@) matches Err(e) ==> (r matches Err(m) && m@ == e),
        obligatorio(materia.nombre@, "nombre"@) is Ok && conn is None ==> (r matches Err(m) && m@ == CERRADO@),
        obligatorio(materia.nombre@, "nombre"@) is Ok && conn is Some ==> respuesta_con(r, Set::empty()),
        !(obligatorio(materia.nombre@, "nombre"@) is Ok) ==> (conn matches Some(b) ==> final(b).enviadas@ == (*b).enviadas@),
        obligatorio(materia.nombre@, "nombre"@) matches Ok(n) ==> (conn matches Some(b) ==> cambio((*b).enviadas@, final(b).enviadas@, Envio::Ejecuta(UPDATE_MATERIA@, seq![Dato::Texto(n), Dato::Entero(id)]), GET_MATERIA@, id, r is Ok)),
{
    let nombre = require_nombre(materia.nombre.as_str(), "nombre")?;
    match conn {
        None => Err(CERRADO.to_owned()),
        Some(c) => para_docente(update_materia_sql(c, id, nombre.as_str())),
    }
}

pub fn delete_materia(conn: Option<&mut Base>, id: i64) -> (r: Result<(), String>)
    ensures
        conn is None ==> (r matches Err(m) && m@ == CERRADO@),
        conn is Some ==> respuesta_con(r, Set::empty()),
        conn matches Some(b) ==> (final(b).enviadas@ == (*b).enviadas@.push(sentencia_por_id(DELETE_MATERIA@, id))),
{
    match conn {
        None => Err(CERRADO.to_owned()),
        Some(c) => para_docente(delete_materia_sql(c, id)),
    }
}

pub fn list_anios_lectivos(conn: Option<&mut Base>) -> (r: Result<Vec<AnioLectivo>, String>)
    ensures
        conn is None ==> (r matches Err(m) && m@ == CERRADO@),
        conn is Some ==> respuesta_con(r, Set::empty()),
        conn matches Some(b) ==> (final(b).enviadas@ == (*b).enviadas@.push(Envio::Consulta(LIST_ANIOS@, Seq::<Dato>::empty()))),
{
    match conn {
        None => Err(CERRADO.to_owned()),
        Some(c) => para_docente(list_anios_sql(c)),
    }
}

/// Alta de un año (inactivo): de 2000 a 2100.
pub fn create_anio_lectivo(conn: Option<&mut Base>, anio: i64) -> (r: Result<AnioLectivo, String>)
    ensures
        !(2000 <= anio <= 2100) ==> (r matches Err(m) && m@ == ANIO_FUERA_DE_RANGO@),
        2000 <= anio <= 2100 && conn is None ==> (r matches Err(m) && m@ == CERRADO@),
        2000 <= anio <= 2100 && conn is Some ==> respuesta_con(r, Set::empty()),
        !(2000 <= anio <= 2100) ==> (conn matches Some(b) ==> final(b).enviadas@ == (*b).enviadas@),
        2000 <= anio <= 2100 ==> (conn matches Some(b) ==> alta((*b).enviadas@, final(b).enviadas@, Envio::Ejecuta(INSERT_ANIO@, seq![Dato::Entero(anio)]), GET_ANIO@, r is Ok)),
{
    let a = validar_anio(anio)?;
    match conn {
        None => Err(CERRADO.to_owned()),
        Some(c) => para_docente(insert_anio_sql(c, a)),
    }
}

pub fn activar_anio_lectivo(conn: Option<&mut Base>, id: i64) -> (r: Result<AnioLectivo, String>)
    ensures
        conn is None ==> (r matches Err(m) && m@ == CERRADO@),
        conn is Some ==> respuesta_con(r, Set::empty()),
        conn matches Some(b) ==> (r is Ok ==> final(b).enviadas@ == ((*b).enviadas@.push(lectura(EXISTE_ANIO@, id)) + transaccion(pasos_activar_spec(id))).push(lectura(GET_ANIO@, id))),
        conn matches Some(b) ==> (r is Err ==> final(b).enviadas@ == (*b).enviadas@.push(lectura(EXISTE_ANIO@, id)) || comienzo((*b).enviadas@.push(lectura(EXISTE_ANIO@, id)), final(b).enviadas@, transaccion(pasos_activar_spec(id))) || final(b).enviadas@ == ((*b).enviadas@.push(lectura(EXISTE_ANIO@, id)) + transaccion(pasos_activar_spec(id))).push(lectura(GET_ANIO@, id))),
{
    match conn {
        None => Err(CERRADO.to_owned()),
        Some(c) => para_docente(activar_anio_sql(c, id)),
    }
}

pub fn limpiar_anio_lectivo(conn: Option<&mut Base>, id: i64) -> (r: Result<(), String>)
    ensures
        conn is None ==> (r matches Err(m) && m@ == CERRADO@),
        conn is Some ==> respuesta_con(r, set![LIMPIAR_ACTIVO@]),
        conn matches Some(b) ==> (r is Ok ==> final(b).enviadas@ == (*b).enviadas@.push(lectura(GET_ANIO@, id)) + transaccion(pasos_limpiar_spec(id))),
        conn matches Some(b) ==> (r is Err ==> final(b).enviadas@ == (*b).enviadas@.push(lectura(GET_ANIO@, id)) || comienzo((*b).enviadas@.push(lectura(GET_ANIO@, id)), final(b).enviadas@, transaccion(pasos_limpiar_spec(id)))),
{
    match conn {
        None => Err(CERRADO.to_owned()),
        Some(c) => para_docente(limpiar_anio_sql(c, id)),
    }
}

/// Volver a validar una escuela ya validada la deja igual.
pub proof fn ley_escuela_estable(e: EscuelaWrite, x: EscuelaWrite)
    requires
        escuela_write_ok(Ok(x), e),
    ensures
        escuela_write_ok(Ok(x), x),
{
    ley_obligatorio_estable(e.nombre@, "nombre"@);
    ley_texto_opcional_estable(vista_opt(e.nombre_corto));
    ley_texto_opcional_estable(vista_opt(e.direccion));
    ley_texto_opcional_estable(vista_opt(e.telefono));
    ley_texto_opcional_estable(vista_opt(e.email));
}

} // verus!
