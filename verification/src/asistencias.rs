//! Pase de lista de una hora de clase: un estado por (curso, alumno, fecha). El alumno tiene que
//! estar inscripto en el curso.

use vstd::prelude::*;
use crate::db::{
    Base, Envio, Dato, datos, lectura, sentencia_por_id, args0, args1, args2, args3, sigue,
    respuesta_con, falla_de_base, falla_con, Valor, ErrorDb, ejecuta, consulta, changes_or_missing,
    existe, para_docente, col_entero, consulta_entero_opcional, CERRADO,
};
use crate::domain::{Asistencia, AsistenciaWrite};
use crate::filas::{filas_asistencia, primera_asistencia_opcional};
use crate::validar::{require_fecha, fecha_valida, ley_fecha_estable};

verus! {

pub const CURSO_NO_ENCONTRADO: &'static str = "No se encontró el curso.";
pub const ESTADO_INVALIDO: &'static str = "El estado de asistencia no es válido.";
pub const NO_INSCRIPTO_LISTA: &'static str = "El alumno tiene que estar inscripto en el curso para pasar lista.";
pub const SIN_PRESENTE: &'static str = "No se encontró el estado presente.";
pub const NO_GUARDADA: &'static str = "No se pudo guardar la asistencia.";

/// Datos de un pase de lista: la fecha se valida; el resto pasa igual.
pub open spec fn asistencia_write_ok(r: Result<AsistenciaWrite, String>, a: AsistenciaWrite) -> bool {
    match r {
        Ok(x) => fecha_valida(a.fecha@) == Ok::<Seq<char>, Seq<char>>(x.fecha@) && x.id_curso == a.id_curso
            && x.id_alumno == a.id_alumno && x.id_estado_asistencia == a.id_estado_asistencia,
        Err(e) => fecha_valida(a.fecha@) == Err::<Seq<char>, Seq<char>>(e@),
    }
}

pub fn asistencia_from_write(a: AsistenciaWrite) -> (r: Result<AsistenciaWrite, String>)
    ensures
        asistencia_write_ok(r, a),
{
    let fecha = require_fecha(a.fecha.as_str())?;
    Ok(AsistenciaWrite {
        id_curso: a.id_curso,
        id_alumno: a.id_alumno,
        fecha,
        id_estado_asistencia: a.id_estado_asistencia,
    })
}

/// Por qué no se puede pasar lista, en el orden en que se revisa: curso, estado, inscripción.
pub open spec fn rechazo_asistencia(curso: bool, estado: bool, inscripto: bool) -> Option<Seq<char>> {
    if !curso {
        Some(CURSO_NO_ENCONTRADO@)
    } else if !estado {
        Some(ESTADO_INVALIDO@)
    } else if !inscripto {
        Some(NO_INSCRIPTO_LISTA@)
    } else {
        None
    }
}

/// Decide con lo que se averiguó en la base si el pase de lista sigue.
pub fn decidir_asistencia(curso: bool, estado: bool, inscripto: bool) -> (r: Result<(), ErrorDb>)
    ensures
        rechazo_asistencia(curso, estado, inscripto) is None ==> r is Ok,
        rechazo_asistencia(curso, estado, inscripto) matches Some(m) ==> (r matches Err(ErrorDb::App(e)) && e@ == m),
{
    if !curso {
        Err(ErrorDb::App(CURSO_NO_ENCONTRADO.to_owned()))
    } else if !estado {
        Err(ErrorDb::App(ESTADO_INVALIDO.to_owned()))
    } else if !inscripto {
        Err(ErrorDb::App(NO_INSCRIPTO_LISTA.to_owned()))
    } else {
        Ok(())
    }
}

/// La lectura del pase de lista de (curso, alumno, fecha).
pub open spec fn leer_par(id_curso: i64, id_alumno: i64, fecha: Seq<char>) -> Envio {
    Envio::Consulta(GET_ASISTENCIA_PAR@, seq![Dato::Entero(id_curso), Dato::Entero(id_alumno), Dato::Texto(fecha)])
}

pub const GET_ASISTENCIA_PAR: &'static str = "SELECT id, id_curso, id_alumno, fecha, id_estado_asistencia FROM asistencias
         WHERE id_curso = ?1 AND id_alumno = ?2 AND fecha = ?3";

pub fn get_asistencia_par_sql(conn: &mut Base, id_curso: i64, id_alumno: i64, fecha: &str) -> (r: Result<Option<Asistencia>, ErrorDb>)
    ensures
        final(conn).enviadas@ == old(conn).enviadas@.push(leer_par(id_curso, id_alumno, fecha@)),
        falla_de_base(r),
{
    let filas = consulta(
        conn,
        GET_ASISTENCIA_PAR,
        &args3(Valor::Entero(id_curso), Valor::Entero(id_alumno), Valor::Texto(fecha.to_owned())),
    )?;
    primera_asistencia_opcional(&filas)
}

pub const LIST_ASISTENCIAS: &'static str = "SELECT id, id_curso, id_alumno, fecha, id_estado_asistencia
         FROM asistencias
         WHERE id_curso = ?1 AND fecha = ?2
         ORDER BY id";

/// Asistencia de un curso en una fecha, en orden de carga.
pub fn list_asistencias_sql(conn: &mut Base, id_curso: i64, fecha: &str) -> (r: Result<Vec<Asistencia>, ErrorDb>)
    ensures
        final(conn).enviadas@ == old(conn).enviadas@.push(Envio::Consulta(LIST_ASISTENCIAS@, seq![Dato::Entero(id_curso), Dato::Texto(fecha@)])),
        falla_de_base(r),
{
    let filas = consulta(
        conn,
        LIST_ASISTENCIAS,
        &args2(Valor::Entero(id_curso), Valor::Texto(fecha.to_owned())),
    )?;
    filas_asistencia(&filas)
}

pub const CURSO_EXISTE: &'static str = "SELECT COUNT(*) FROM cursos WHERE id = ?1";

pub fn curso_existe(conn: &mut Base, id_curso: i64) -> (r: Result<bool, ErrorDb>)
    ensures
        final(conn).enviadas@ == old(conn).enviadas@.push(lectura(CURSO_EXISTE@, id_curso)),
        falla_de_base(r),
{
    existe(conn, CURSO_EXISTE, &args1(Valor::Entero(id_curso)))
}

/// La consulta que cuenta la inscripción de un alumno en un curso.
pub open spec fn leer_inscripcion(id_alumno: i64, id_curso: i64) -> Envio {
    Envio::Consulta(ALUMNO_INSCRIPTO@, seq![Dato::Entero(id_alumno), Dato::Entero(id_curso)])
}

pub const ALUMNO_INSCRIPTO: &'static str = "SELECT COUNT(*) FROM alumnos_cursos WHERE id_alumno = ?1 AND id_curso = ?2";

pub fn alumno_inscripto(conn: &mut Base, id_alumno: i64, id_curso: i64) -> (r: Result<bool, ErrorDb>)
    ensures
        final(conn).enviadas@ == old(conn).enviadas@.push(leer_inscripcion(id_alumno, id_curso)),
        falla_de_base(r),
{
    existe(
        conn,
        ALUMNO_INSCRIPTO,
        &args2(Valor::Entero(id_alumno), Valor::Entero(id_curso)),
    )
}

pub const ESTADO_EXISTE: &'static str = "SELECT COUNT(*) FROM estados_asistencia WHERE id = ?1";

fn estado_existe(conn: &mut Base, id: i64) -> (r: Result<bool, ErrorDb>)
    ensures
        final(conn).enviadas@ == old(conn).enviadas@.push(lectura(ESTADO_EXISTE@, id)),
        falla_de_base(r),
{
    existe(conn, ESTADO_EXISTE, &args1(Valor::Entero(id)))
}

pub const IDS_NOMINA: &'static str = "SELECT a.id
         FROM alumnos a
         JOIN alumnos_cursos ac ON ac.id_alumno = a.id
         WHERE ac.id_curso = ?1
         ORDER BY a.apellido COLLATE NOCASE, a.nombre COLLATE NOCASE";

/// Ids de la nómina del curso, por apellido y nombre.
fn ids_nomina(conn: &mut Base, id_curso: i64) -> (r: Result<Vec<i64>, ErrorDb>)
    ensures
        final(conn).enviadas@ == old(conn).enviadas@.push(lectura(IDS_NOMINA@, id_curso)),
        falla_de_base(r),
{
    let filas = consulta(
        conn,
        IDS_NOMINA,
        &args1(Valor::Entero(id_curso)),
    )?;
    let mut ids: Vec<i64> = Vec::new();
    let mut i: usize = 0;
    while i < filas.len()
        invariant
            conn.enviadas@ == old(conn).enviadas@.push(lectura(IDS_NOMINA@, id_curso)),
            i <= filas@.len(),
        decreases filas@.len() - i,
    {
        if filas[i].len() == 0 {
            return Err(ErrorDb::Sql(crate::filas::FILA_CORTA.to_owned()));
        }
        let id = col_entero(&filas[i], 0)?;
        ids.push(id);
        i = i + 1;
    }
    Ok(ids)
}

pub const ESTADO_PRESENTE: &'static str = "SELECT id FROM estados_asistencia WHERE codigo = 'presente'";

pub fn id_estado_presente(conn: &mut Base) -> (r: Result<i64, ErrorDb>)
    ensures
        final(conn).enviadas@ == old(conn).enviadas@.push(Envio::Consulta(ESTADO_PRESENTE@, Seq::<Dato>::empty())),
        falla_con(r, set![SIN_PRESENTE@]),
{
    let id = consulta_entero_opcional(conn, ESTADO_PRESENTE, &args0())?;
    match id {
        Some(x) => Ok(x),
        None => Err(ErrorDb::App(SIN_PRESENTE.to_owned())),
    }
}

/// Lo mandado tras las lecturas de un pase de lista: el curso; si existe, el estado; si los dos
/// existen, la inscripción.
pub open spec fn lecturas_asistencia(antes: Seq<Envio>, w: AsistenciaWrite, curso: bool, estado: bool) -> Seq<Envio> {
    let a = antes.push(lectura(CURSO_EXISTE@, w.id_curso));
    let b = if curso { a.push(lectura(ESTADO_EXISTE@, w.id_estado_asistencia)) } else { a };
    if curso && estado { b.push(leer_inscripcion(w.id_alumno, w.id_curso)) } else { b }
}

/// Solo se mandaron lecturas de `lecturas_asistencia`, hasta donde se llegó.
pub open spec fn solo_lecturas_asistencia(antes: Seq<Envio>, despues: Seq<Envio>, w: AsistenciaWrite) -> bool {
    ||| despues == lecturas_asistencia(antes, w, false, false)
    ||| despues == lecturas_asistencia(antes, w, true, false)
    ||| despues == lecturas_asistencia(antes, w, true, true)
}

/// Lee de la base, en orden y solo lo necesario, si existen el curso y el estado y si el alumno
/// está inscripto: lo que no se llega a leer queda en `false`.
fn prepare_write(conn: &mut Base, w: &AsistenciaWrite) -> (r: Result<(bool, bool, bool), ErrorDb>)
    ensures
        falla_de_base(r),
        r matches Ok((c, e, i)) ==> final(conn).enviadas@ == lecturas_asistencia(old(conn).enviadas@, *w, c, e)
            && (!c ==> !e) && (!e ==> !i),
        r is Err ==> solo_lecturas_asistencia(old(conn).enviadas@, final(conn).enviadas@, *w),
{
    let curso = curso_existe(conn, w.id_curso)?;
    let estado = if curso {
        estado_existe(conn, w.id_estado_asistencia)?
    } else {
        false
    };
    let inscripto = if curso && estado {
        alumno_inscripto(conn, w.id_alumno, w.id_curso)?
    } else {
        false
    };
    Ok((curso, estado, inscripto))
}

/// Los parámetros del pase de lista, en el orden de las columnas.
pub open spec fn parametros_asistencia(w: AsistenciaWrite) -> Seq<Valor> {
    seq![Valor::Entero(w.id_curso), Valor::Entero(w.id_alumno), Valor::Texto(w.fecha), Valor::Entero(w.id_estado_asistencia)]
}

fn valores_asistencia(w: &AsistenciaWrite) -> (r: Vec<Valor>)
    ensures
        r@ == parametros_asistencia(*w),
{
    vec![
        Valor::Entero(w.id_curso),
        Valor::Entero(w.id_alumno),
        Valor::Texto(w.fecha.clone()),
        Valor::Entero(w.id_estado_asistencia),
    ]
}

/// El alta o cambio del estado de (curso, alumno, fecha).
pub open spec fn escribir_asistencia(w: AsistenciaWrite) -> Envio {
    Envio::Ejecuta(
        UPSERT_ASISTENCIA@,
        seq![Dato::Entero(w.id_curso), Dato::Entero(w.id_alumno), Dato::Texto(w.fecha@), Dato::Entero(w.id_estado_asistencia)],
    )
}

/// Un pase de lista que se guardó: las tres lecturas, la escritura y la relectura de
/// (curso, alumno, fecha) con ese estado.
pub open spec fn marca(antes: Seq<Envio>, id_curso: i64, id_alumno: i64, fecha: Seq<char>, estado: i64) -> Seq<Envio> {
    antes.push(lectura(CURSO_EXISTE@, id_curso)).push(lectura(ESTADO_EXISTE@, estado)).push(
        leer_inscripcion(id_alumno, id_curso),
    ).push(
        Envio::Ejecuta(
            UPSERT_ASISTENCIA@,
            seq![Dato::Entero(id_curso), Dato::Entero(id_alumno), Dato::Texto(fecha), Dato::Entero(estado)],
        ),
    ).push(leer_par(id_curso, id_alumno, fecha))
}

/// Un pase de lista guardado para cada alumno de `ids`, en orden.
pub open spec fn marcas(antes: Seq<Envio>, id_curso: i64, fecha: Seq<char>, estado: i64, ids: Seq<i64>) -> Seq<Envio>
    decreases ids.len(),
{
    if ids.len() == 0 {
        antes
    } else {
        marca(marcas(antes, id_curso, fecha, estado, ids.drop_last()), id_curso, ids.last(), fecha, estado)
    }
}

pub const UPSERT_ASISTENCIA: &'static str = "INSERT INTO asistencias (id_curso, id_alumno, fecha, id_estado_asistencia)
         VALUES (?1, ?2, ?3, ?4)
         ON CONFLICT(id_curso, id_alumno, fecha) DO UPDATE SET
           id_estado_asistencia = excluded.id_estado_asistencia";

/// El pase de lista con lo que se leyó de la base (curso, estado, inscripción): el primer rechazo
/// de `rechazo_asistencia` es el error y no se escribe nada; si no hay, se guarda (alta o cambio
/// del estado) y se devuelve la fila releída.
pub fn guardar_asistencia(conn: &mut Base, w: AsistenciaWrite, curso: bool, estado: bool, inscripto: bool) -> (r: Result<Asistencia, ErrorDb>)
    ensures
        rechazo_asistencia(curso, estado, inscripto) is Some ==> final(conn).enviadas@ == old(conn).enviadas@,
        rechazo_asistencia(curso, estado, inscripto) is None ==> final(conn).enviadas@ == old(conn).enviadas@.push(escribir_asistencia(w)) || final(conn).enviadas@ == old(conn).enviadas@.push(escribir_asistencia(w)).push(leer_par(w.id_curso, w.id_alumno, w.fecha@)),
        r is Ok ==> final(conn).enviadas@ == old(conn).enviadas@.push(escribir_asistencia(w)).push(leer_par(w.id_curso, w.id_alumno, w.fecha@)),
        rechazo_asistencia(curso, estado, inscripto) matches Some(m) ==> (r matches Err(ErrorDb::App(e)) && e@ == m),
        rechazo_asistencia(curso, estado, inscripto) is None ==> falla_con(r, set![NO_GUARDADA@]),
{
    decidir_asistencia(curso, estado, inscripto)?;
    let args = valores_asistencia(&w);
    assert(datos(args@) =~= seq![
        Dato::Entero(w.id_curso),
        Dato::Entero(w.id_alumno),
        Dato::Texto(w.fecha@),
        Dato::Entero(w.id_estado_asistencia),
    ]);
    ejecuta(conn, UPSERT_ASISTENCIA, &args)?;
    let guardada = get_asistencia_par_sql(conn, w.id_curso, w.id_alumno, w.fecha.as_str())?;
    match guardada {
        Some(a) => Ok(a),
        None => Err(ErrorDb::App(NO_GUARDADA.to_owned())),
    }
}

/// Lo mandado de un pase de lista de (curso, alumno, fecha) con ese estado, hasta donde se llegó:
/// las lecturas, y solo si todas dieron bien, la escritura y la relectura.
pub open spec fn marca_en_parte(antes: Seq<Envio>, despues: Seq<Envio>, id_curso: i64, id_alumno: i64, fecha: Seq<char>, estado: i64) -> bool {
    let l1 = antes.push(lectura(CURSO_EXISTE@, id_curso));
    let l2 = l1.push(lectura(ESTADO_EXISTE@, estado));
    let l3 = l2.push(leer_inscripcion(id_alumno, id_curso));
    let e = Envio::Ejecuta(
        UPSERT_ASISTENCIA@,
        seq![Dato::Entero(id_curso), Dato::Entero(id_alumno), Dato::Texto(fecha), Dato::Entero(estado)],
    );
    despues == l1 || despues == l2 || despues == l3 || despues == l3.push(e) || despues == marca(antes, id_curso, id_alumno, fecha, estado)
}

/// Alta o cambio del estado de (curso, alumno, fecha).
pub fn upsert_asistencia_sql(conn: &mut Base, raw: AsistenciaWrite) -> (r: Result<Asistencia, ErrorDb>)
    ensures
        marca_en_parte(old(conn).enviadas@, final(conn).enviadas@, raw.id_curso, raw.id_alumno, raw.fecha@, raw.id_estado_asistencia),
        r is Ok ==> final(conn).enviadas@ == lecturas_asistencia(old(conn).enviadas@, raw, true, true).push(escribir_asistencia(raw)).push(leer_par(raw.id_curso, raw.id_alumno, raw.fecha@)),
        r matches Err(ErrorDb::App(m)) && m@ != NO_GUARDADA@ ==> solo_lecturas_asistencia(old(conn).enviadas@, final(conn).enviadas@, raw),
        falla_con(r, set![CURSO_NO_ENCONTRADO@, ESTADO_INVALIDO@, NO_INSCRIPTO_LISTA@, NO_GUARDADA@]),
{
    let (curso, estado, inscripto) = prepare_write(conn, &raw)?;
    guardar_asistencia(conn, raw, curso, estado, inscripto)
}

pub const DELETE_ASISTENCIA: &'static str = "DELETE FROM asistencias WHERE id = ?1";

pub fn delete_asistencia_sql(conn: &mut Base, id: i64) -> (r: Result<(), ErrorDb>)
    ensures
        final(conn).enviadas@ == old(conn).enviadas@.push(sentencia_por_id(DELETE_ASISTENCIA@, id)),
        falla_de_base(r),
{
    let n = ejecuta(conn, DELETE_ASISTENCIA, &args1(Valor::Entero(id)))?;
    changes_or_missing(n)
}

/// Lo mandado al marcar presentes a todo un curso: la revisión del curso, el estado presente, la
/// nómina, un pase de lista guardado (con ese estado) por cada alumno, en orden, y la lista del día.
pub open spec fn presentes_enviados(antes: Seq<Envio>, despues: Seq<Envio>, id_curso: i64, fecha: Seq<char>) -> bool {
    exists|estado: i64, ids: Seq<i64>|
        despues == (#[trigger] marcas(
            lecturas_presentes(antes.push(lectura(CURSO_EXISTE@, id_curso)), id_curso),
            id_curso,
            fecha,
            estado,
            ids,
        )).push(Envio::Consulta(LIST_ASISTENCIAS@, seq![Dato::Entero(id_curso), Dato::Texto(fecha)]))
}

/// Todos los de la nómina presentes en esa fecha; devuelve la lista del día.
pub fn marcar_presentes_sql(conn: &mut Base, id_curso: i64, fecha: &str) -> (r: Result<Vec<Asistencia>, ErrorDb>)
    ensures
        final(conn).enviadas@ == old(conn).enviadas@.push(lectura(CURSO_EXISTE@, id_curso)) || presentes_en_parte(old(conn).enviadas@.push(lectura(CURSO_EXISTE@, id_curso)), final(conn).enviadas@, id_curso, fecha@),
        falla_con(r, set![CURSO_NO_ENCONTRADO@, SIN_PRESENTE@, ESTADO_INVALIDO@, NO_INSCRIPTO_LISTA@, NO_GUARDADA@]),
        r is Ok ==> presentes_enviados(old(conn).enviadas@, final(conn).enviadas@, id_curso, fecha@),
{
    let curso = curso_existe(conn, id_curso)?;
    marcar_con(conn, id_curso, fecha, curso)
}

/// Marcar presentes, con lo que se leyó de la base (`curso`: si el curso existe): sin curso es
/// el error del curso y no se escribe nada; si no, cada alumno de la nómina queda presente en
/// esa fecha y se devuelve la lista del día.
pub fn marcar_con(conn: &mut Base, id_curso: i64, fecha: &str, curso: bool) -> (r: Result<Vec<Asistencia>, ErrorDb>)
    ensures
        curso ==> presentes_en_parte(old(conn).enviadas@, final(conn).enviadas@, id_curso, fecha@),
        !curso ==> (r matches Err(ErrorDb::App(m)) && m@ == CURSO_NO_ENCONTRADO@),
        !curso ==> final(conn).enviadas@ == old(conn).enviadas@,
        curso ==> falla_con(r, set![SIN_PRESENTE@, ESTADO_INVALIDO@, NO_INSCRIPTO_LISTA@, NO_GUARDADA@, CURSO_NO_ENCONTRADO@]),
        curso && r is Ok ==> exists|estado: i64, ids: Seq<i64>|
            final(conn).enviadas@ == (#[trigger] marcas(lecturas_presentes(old(conn).enviadas@, id_curso), id_curso, fecha@, estado, ids)).push(
                Envio::Consulta(LIST_ASISTENCIAS@, seq![Dato::Entero(id_curso), Dato::Texto(fecha@)]),
            ),
{
    if !curso {
        return Err(ErrorDb::App(CURSO_NO_ENCONTRADO.to_owned()));
    }
    let presente = id_estado_presente(conn)?;
    let nomina = ids_nomina(conn, id_curso)?;
    let ghost base = conn.enviadas@;
    assert(nomina@.take(0) =~= Seq::<i64>::empty());
    let mut i: usize = 0;
    while i < nomina.len()
        invariant
            i <= nomina@.len(),
            curso,
            base == lecturas_presentes(old(conn).enviadas@, id_curso),
            conn.enviadas@ == marcas(base, id_curso, fecha@, presente, nomina@.take(i as int)),
        decreases nomina@.len() - i,
    {
        let w = AsistenciaWrite {
            id_curso,
            id_alumno: nomina[i],
            fecha: fecha.to_owned(),
            id_estado_asistencia: presente,
        };
        upsert_asistencia_sql(conn, w)?;
        assert(nomina@.take(i as int + 1).drop_last() =~= nomina@.take(i as int));
        i = i + 1;
    }
    assert(nomina@.take(nomina@.len() as int) =~= nomina@);
    list_asistencias_sql(conn, id_curso, fecha)
}

/// Lo mandado al marcar presentes (con el curso ya revisado), hasta donde se llegó: el estado
/// presente, la nómina, los pases de lista completos de los primeros alumnos y el siguiente hasta
/// donde llegó, o todos y la lista del día.
pub open spec fn presentes_en_parte(antes: Seq<Envio>, despues: Seq<Envio>, id_curso: i64, fecha: Seq<char>) -> bool {
    let l = lecturas_presentes(antes, id_curso);
    ||| despues == antes.push(Envio::Consulta(ESTADO_PRESENTE@, Seq::<Dato>::empty()))
    ||| despues == l
    ||| exists|estado: i64, ids: Seq<i64>|
        #![trigger marcas(l, id_curso, fecha, estado, ids)]
        despues == marcas(l, id_curso, fecha, estado, ids).push(
            Envio::Consulta(LIST_ASISTENCIAS@, seq![Dato::Entero(id_curso), Dato::Texto(fecha)]),
        ) || exists|a: i64| #[trigger] marca_en_parte(marcas(l, id_curso, fecha, estado, ids), despues, id_curso, a, fecha, estado)
}

/// Antes de marcar: el id del estado presente y la nómina del curso.
pub open spec fn lecturas_presentes(antes: Seq<Envio>, id_curso: i64) -> Seq<Envio> {
    antes.push(Envio::Consulta(ESTADO_PRESENTE@, Seq::<Dato>::empty())).push(lectura(IDS_NOMINA@, id_curso))
}

pub fn list_asistencias(conn: Option<&mut Base>, id_curso: i64, fecha: String) -> (r: Result<Vec<Asistencia>, String>)
    ensures
        fecha_valida(fecha@) matches Err(e) ==> (r matches Err(m) && m@ == e),
        fecha_valida(fecha@) is Ok && conn is None ==> (r matches Err(m) && m@ == CERRADO@),
        fecha_valida(fecha@) is Ok && conn is Some ==> respuesta_con(r, Set::empty()),
        !(fecha_valida(fecha@) is Ok) ==> (conn matches Some(b) ==> final(b).enviadas@ == (*b).enviadas@),
        fecha_valida(fecha@) matches Ok(f) ==> (conn matches Some(b) ==> final(b).enviadas@ == (*b).enviadas@.push(Envio::Consulta(LIST_ASISTENCIAS@, seq![Dato::Entero(id_curso), Dato::Texto(f)]))),
{
    let f = require_fecha(fecha.as_str())?;
    match conn {
        None => Err(CERRADO.to_owned()),
        Some(c) => para_docente(list_asistencias_sql(c, id_curso, f.as_str())),
    }
}

pub fn upsert_asistencia(conn: Option<&mut Base>, asistencia: AsistenciaWrite) -> (r: Result<Asistencia, String>)
    ensures
        fecha_valida(asistencia.fecha@) matches Err(e) ==> (r matches Err(m) && m@ == e),
        fecha_valida(asistencia.fecha@) is Ok && conn is None ==> (r matches Err(m) && m@ == CERRADO@),
        fecha_valida(asistencia.fecha@) is Ok && conn is Some ==> respuesta_con(r, set![CURSO_NO_ENCONTRADO@, ESTADO_INVALIDO@, NO_INSCRIPTO_LISTA@, NO_GUARDADA@]),
        !(fecha_valida(asistencia.fecha@) is Ok) ==> (conn matches Some(b) ==> final(b).enviadas@ == (*b).enviadas@),
        fecha_valida(asistencia.fecha@) is Ok ==> (conn matches Some(b) ==> exists|v: AsistenciaWrite| #[trigger] asistencia_write_ok(Ok::<AsistenciaWrite, String>(v), asistencia) && (marca_en_parte((*b).enviadas@, final(b).enviadas@, v.id_curso, v.id_alumno, v.fecha@, v.id_estado_asistencia)) && (r is Ok ==> final(b).enviadas@ == lecturas_asistencia((*b).enviadas@, v, true, true).push(escribir_asistencia(v)).push(leer_par(v.id_curso, v.id_alumno, v.fecha@)))),
{
    let w = asistencia_from_write(asistencia)?;
    assert(asistencia_write_ok(Ok::<AsistenciaWrite, String>(w), asistencia));
    match conn {
        None => Err(CERRADO.to_owned()),
        Some(c) => para_docente(upsert_asistencia_sql(c, w)),
    }
}

pub fn marcar_asistencias_presentes(conn: Option<&mut Base>, id_curso: i64, fecha: String) -> (r: Result<Vec<Asistencia>, String>)
    ensures
        fecha_valida(fecha@) matches Err(e) ==> (r matches Err(m) && m@ == e),
        fecha_valida(fecha@) is Ok && conn is None ==> (r matches Err(m) && m@ == CERRADO@),
        fecha_valida(fecha@) is Ok && conn is Some ==> respuesta_con(r, set![CURSO_NO_ENCONTRADO@, SIN_PRESENTE@, ESTADO_INVALIDO@, NO_INSCRIPTO_LISTA@, NO_GUARDADA@]),
        !(fecha_valida(fecha@) is Ok) ==> (conn matches Some(b) ==> final(b).enviadas@ == (*b).enviadas@),
        fecha_valida(fecha@) matches Ok(f) ==> (conn matches Some(b) ==> (r is Ok ==> presentes_enviados((*b).enviadas@, final(b).enviadas@, id_curso, f))),
        fecha_valida(fecha@) matches Ok(f) ==> (conn matches Some(b) ==> (final(b).enviadas@ == (*b).enviadas@.push(lectura(CURSO_EXISTE@, id_curso))
            || presentes_en_parte((*b).enviadas@.push(lectura(CURSO_EXISTE@, id_curso)), final(b).enviadas@, id_curso, f))),
{
    let f = require_fecha(fecha.as_str())?;
    match conn {
        None => Err(CERRADO.to_owned()),
        Some(c) => para_docente(marcar_presentes_sql(c, id_curso, f.as_str())),
    }
}

pub fn delete_asistencia(conn: Option<&mut Base>, id: i64) -> (r: Result<(), String>)
    ensures
        conn is None ==> (r matches Err(m) && m@ == CERRADO@),
        conn is Some ==> respuesta_con(r, Set::empty()),
        conn matches Some(b) ==> (final(b).enviadas@ == (*b).enviadas@.push(sentencia_por_id(DELETE_ASISTENCIA@, id))),
{
    match conn {
        None => Err(CERRADO.to_owned()),
        Some(c) => para_docente(delete_asistencia_sql(c, id)),
    }
}

/// Volver a validar un pase de lista ya validado lo deja igual.
pub proof fn ley_asistencia_estable(a: AsistenciaWrite, x: AsistenciaWrite)
    requires
        asistencia_write_ok(Ok(x), a),
    ensures
        asistencia_write_ok(Ok(x), x),
{
    ley_fecha_estable(a.fecha@);
}

} // verus!
