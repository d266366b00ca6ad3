//! Notas de un dictado: una por evaluación y alumno inscripto. El valor es un decimal de 1 a 10,
//! o vacío si estuvo ausente o no se cargó todavía. El promedio no se guarda.

use vstd::prelude::*;
use crate::cadena::{recortado, recortar};
use crate::db::{
    Base, Envio, Dato, datos, lectura, sentencia_por_id, args1, args2, respuesta_con, falla_de_base,
    falla_con, valor_texto_opt, Valor, ErrorDb, ejecuta, consulta, changes_or_missing, para_docente,
    texto_o_nulo, consulta_entero_opcional, CERRADO, AUSENTE_CON_NOTA,
};
use crate::domain::{Nota, NotaWrite};
use crate::filas::{filas_nota, primera_nota_opcional};
use crate::asistencias::{alumno_inscripto, leer_inscripcion};
use crate::validar::{
    require_valor_1_10, opt_text, nota_valor_spec, texto_opcional, vista_opt, ley_texto_opcional_estable, ley_nota_estable,
    lema_decimal_estable,
};

verus! {

pub const EVALUACION_NO_ENCONTRADA: &'static str = "No se encontró la evaluación.";
pub const NO_INSCRIPTO_NOTA: &'static str = "El alumno tiene que estar inscripto en el curso de la evaluación.";

/// Valor de una nota presente: vacío (o solo blancos) es sin nota; si no, un decimal de 1 a 10.
pub open spec fn valor_presente(v: Option<Seq<char>>) -> Result<Option<Seq<char>>, Seq<char>> {
    match v {
        None => Ok(None),
        Some(s) => if recortado(s).len() == 0 {
            Ok(None)
        } else {
            match nota_valor_spec(s) {
                Ok(t) => Ok(Some(t)),
                Err(e) => Err(e),
            }
        },
    }
}

/// Una nota como se guarda: valor, ausente (0 o 1) y comentario; ausente no lleva valor.
pub open spec fn nota_write_spec(n: NotaWrite) -> Result<(Option<Seq<char>>, i64, Option<Seq<char>>), Seq<char>> {
    let comentario = texto_opcional(vista_opt(n.comentario));
    if n.ausente != 0 {
        if n.valor matches Some(s) && recortado(s@).len() > 0 {
            Err(AUSENTE_CON_NOTA@)
        } else {
            Ok((None, 1, comentario))
        }
    } else {
        match valor_presente(vista_opt(n.valor)) {
            Err(e) => Err(e),
            Ok(v) => Ok((v, 0, comentario)),
        }
    }
}

pub open spec fn nota_write_ok(r: Result<NotaWrite, String>, n: NotaWrite) -> bool {
    match r {
        Ok(x) => nota_write_spec(n) == Ok::<(Option<Seq<char>>, i64, Option<Seq<char>>), Seq<char>>(
            (vista_opt(x.valor), x.ausente, vista_opt(x.comentario)),
        ) && x.id_evaluacion == n.id_evaluacion && x.id_alumno == n.id_alumno,
        Err(e) => nota_write_spec(n) == Err::<(Option<Seq<char>>, i64, Option<Seq<char>>), Seq<char>>(e@),
    }
}

pub fn nota_from_write(n: NotaWrite) -> (r: Result<NotaWrite, String>)
    ensures
        nota_write_ok(r, n),
{
    let comentario = opt_text(n.comentario);
    if n.ausente != 0 {
        let con_valor = match &n.valor {
            Some(s) => recortar(s.as_str()).len() > 0,
            None => false,
        };
        if con_valor {
            return Err(AUSENTE_CON_NOTA.to_owned());
        }
        return Ok(NotaWrite { id_evaluacion: n.id_evaluacion, id_alumno: n.id_alumno, valor: None, ausente: 1, comentario });
    }
    let valor = match n.valor {
        None => None,
        Some(s) => {
            if recortar(s.as_str()).len() == 0 {
                None
            } else {
                Some(require_valor_1_10(s.as_str())?)
            }
        },
    };
    Ok(NotaWrite { id_evaluacion: n.id_evaluacion, id_alumno: n.id_alumno, valor, ausente: 0, comentario })
}

/// Una nota sin nada: ni ausente, ni valor, ni comentario.
pub open spec fn vacia(w: NotaWrite) -> bool {
    w.ausente == 0 && w.valor is None && w.comentario is None
}

pub fn es_vacia(w: &NotaWrite) -> (r: bool)
    ensures
        r == vacia(*w),
{
    w.ausente == 0 && w.valor.is_none() && w.comentario.is_none()
}

/// La lectura de la nota de (evaluación, alumno).
pub open spec fn leer_nota(id_evaluacion: i64, id_alumno: i64) -> Envio {
    Envio::Consulta(GET_NOTA_PAR@, seq![Dato::Entero(id_evaluacion), Dato::Entero(id_alumno)])
}

pub const GET_NOTA_PAR: &'static str = "SELECT id, id_evaluacion, id_alumno, valor, ausente, comentario FROM notas WHERE id_evaluacion = ?1 AND id_alumno = ?2";

pub fn get_nota_par_sql(conn: &mut Base, id_evaluacion: i64, id_alumno: i64) -> (r: Result<Option<Nota>, ErrorDb>)
    ensures
        final(conn).enviadas@ == old(conn).enviadas@.push(leer_nota(id_evaluacion, id_alumno)),
        falla_de_base(r),
{
    let filas = consulta(
        conn,
        GET_NOTA_PAR,
        &args2(Valor::Entero(id_evaluacion), Valor::Entero(id_alumno)),
    )?;
    primera_nota_opcional(&filas)
}

pub const LIST_NOTAS_DE_CURSO: &'static str = "SELECT n.id, n.id_evaluacion, n.id_alumno, n.valor, n.ausente, n.comentario
         FROM notas n
         JOIN evaluaciones e ON e.id = n.id_evaluacion
         WHERE e.id_curso = ?1
         ORDER BY n.id";

/// Notas de las evaluaciones de un curso, en orden de carga.
pub fn list_notas_de_curso_sql(conn: &mut Base, id_curso: i64) -> (r: Result<Vec<Nota>, ErrorDb>)
    ensures
        final(conn).enviadas@ == old(conn).enviadas@.push(lectura(LIST_NOTAS_DE_CURSO@, id_curso)),
        falla_de_base(r),
{
    let filas = consulta(
        conn,
        LIST_NOTAS_DE_CURSO,
        &args1(Valor::Entero(id_curso)),
    )?;
    filas_nota(&filas)
}

pub const CURSO_DE_EVALUACION: &'static str = "SELECT id_curso FROM evaluaciones WHERE id = ?1";

fn curso_de_evaluacion(conn: &mut Base, id_evaluacion: i64) -> (r: Result<i64, ErrorDb>)
    ensures
        final(conn).enviadas@ == old(conn).enviadas@.push(lectura(CURSO_DE_EVALUACION@, id_evaluacion)),
        falla_con(r, set![EVALUACION_NO_ENCONTRADA@]),
{
    let c = consulta_entero_opcional(conn, CURSO_DE_EVALUACION, &args1(Valor::Entero(id_evaluacion)))?;
    match c {
        Some(x) => Ok(x),
        None => Err(ErrorDb::App(EVALUACION_NO_ENCONTRADA.to_owned())),
    }
}

/// Por qué no se puede cargar la nota: el alumno no está inscripto en el curso de la evaluación.
pub open spec fn rechazo_nota(inscripto: bool) -> Option<Seq<char>> {
    if !inscripto {
        Some(NO_INSCRIPTO_NOTA@)
    } else {
        None
    }
}

pub fn decidir_nota(inscripto: bool) -> (r: Result<(), ErrorDb>)
    ensures
        rechazo_nota(inscripto) is None ==> r is Ok,
        rechazo_nota(inscripto) matches Some(m) ==> (r matches Err(ErrorDb::App(e)) && e@ == m),
{
    if !inscripto {
        Err(ErrorDb::App(NO_INSCRIPTO_NOTA.to_owned()))
    } else {
        Ok(())
    }
}

/// Lo mandado tras las lecturas de una nota: el curso de la evaluación y la inscripción del
/// alumno en ese curso (`id_curso`, que da la base).
pub open spec fn lecturas_nota(antes: Seq<Envio>, w: NotaWrite, id_curso: i64) -> Seq<Envio> {
    antes.push(lectura(CURSO_DE_EVALUACION@, w.id_evaluacion)).push(leer_inscripcion(w.id_alumno, id_curso))
}

/// Lo mandado tras guardar una nota: una vacía borra la de (evaluación, alumno); otra se escribe
/// (alta o cambio) y se relee.
pub open spec fn tras_escritura_nota(antes: Seq<Envio>, w: NotaWrite) -> Seq<Envio> {
    if vacia(w) {
        antes.push(Envio::Ejecuta(BORRAR_NOTA_PAR@, seq![Dato::Entero(w.id_evaluacion), Dato::Entero(w.id_alumno)]))
    } else {
        antes.push(Envio::Ejecuta(UPSERT_NOTA@, datos(parametros_nota(w)))).push(leer_nota(w.id_evaluacion, w.id_alumno))
    }
}

/// Lee de la base el curso de la evaluación (que tiene que existir) y si el alumno está inscripto
/// en él.
fn prepare_write(conn: &mut Base, w: &NotaWrite) -> (r: Result<bool, ErrorDb>)
    ensures
        r is Ok ==> exists|c: i64| final(conn).enviadas@ == #[trigger] lecturas_nota(old(conn).enviadas@, *w, c),
        r is Err ==> final(conn).enviadas@ == old(conn).enviadas@.push(lectura(CURSO_DE_EVALUACION@, w.id_evaluacion)) || exists|c: i64| final(conn).enviadas@ == #[trigger] lecturas_nota(old(conn).enviadas@, *w, c),
        falla_con(r, set![EVALUACION_NO_ENCONTRADA@]),
{
    let id_curso = curso_de_evaluacion(conn, w.id_evaluacion)?;
    let r = alumno_inscripto(conn, w.id_alumno, id_curso);
    assert(conn.enviadas@ == lecturas_nota(old(conn).enviadas@, *w, id_curso));
    r
}

/// Los parámetros de una nota, en el orden de las columnas.
pub open spec fn parametros_nota(w: NotaWrite) -> Seq<Valor> {
    seq![
        Valor::Entero(w.id_evaluacion),
        Valor::Entero(w.id_alumno),
        valor_texto_opt(w.valor),
        Valor::Entero(w.ausente),
        valor_texto_opt(w.comentario),
    ]
}

fn valores_nota(w: &NotaWrite) -> (r: Vec<Valor>)
    ensures
        r@ == parametros_nota(*w),
{
    vec![
        Valor::Entero(w.id_evaluacion),
        Valor::Entero(w.id_alumno),
        texto_o_nulo(&w.valor),
        Valor::Entero(w.ausente),
        texto_o_nulo(&w.comentario),
    ]
}

pub const BORRAR_NOTA_PAR: &'static str = "DELETE FROM notas WHERE id_evaluacion = ?1 AND id_alumno = ?2";
pub const UPSERT_NOTA: &'static str = "INSERT INTO notas (id_evaluacion, id_alumno, valor, ausente, comentario)
         VALUES (?1, ?2, ?3, ?4, ?5)
         ON CONFLICT(id_evaluacion, id_alumno) DO UPDATE SET
           valor = excluded.valor,
           ausente = excluded.ausente,
           comentario = excluded.comentario";

/// La nota, con lo que se leyó de la base (`inscripto`: si el alumno está en el curso de la
/// evaluación): sin inscripción es el error de inscripción y no se escribe nada; si no, una nota
/// vacía borra la que hubiera y devuelve `None`, y otra se guarda y se devuelve releída.
pub fn guardar_nota(conn: &mut Base, w: NotaWrite, inscripto: bool) -> (r: Result<Option<Nota>, ErrorDb>)
    ensures
        rechazo_nota(inscripto) is Some ==> final(conn).enviadas@ == old(conn).enviadas@,
        rechazo_nota(inscripto) is None && r is Ok ==> final(conn).enviadas@ == tras_escritura_nota(old(conn).enviadas@, w),
        rechazo_nota(inscripto) is None && r is Err ==> (final(conn).enviadas@ == tras_escritura_nota(old(conn).enviadas@, w) || (!vacia(w) && final(conn).enviadas@ == old(conn).enviadas@.push(Envio::Ejecuta(UPSERT_NOTA@, datos(parametros_nota(w)))))),
        rechazo_nota(inscripto) matches Some(m) ==> (r matches Err(ErrorDb::App(e)) && e@ == m),
        rechazo_nota(inscripto) is None ==> falla_de_base(r),
        rechazo_nota(inscripto) is None && vacia(w) ==> (r matches Ok(o) ==> o is None),
{
    decidir_nota(inscripto)?;
    if es_vacia(&w) {
        ejecuta(
            conn,
            BORRAR_NOTA_PAR,
            &args2(Valor::Entero(w.id_evaluacion), Valor::Entero(w.id_alumno)),
        )?;
        return Ok(None);
    }
    ejecuta(
        conn,
        UPSERT_NOTA,
        &valores_nota(&w),
    )?;
    get_nota_par_sql(conn, w.id_evaluacion, w.id_alumno)
}

/// Guarda la nota de (evaluación, alumno); una nota vacía borra la que hubiera y devuelve `None`.
pub fn upsert_nota_sql(conn: &mut Base, raw: NotaWrite) -> (r: Result<Option<Nota>, ErrorDb>)
    ensures
        final(conn).enviadas@ == old(conn).enviadas@.push(lectura(CURSO_DE_EVALUACION@, raw.id_evaluacion)) || exists|c: i64| (final(conn).enviadas@ == #[trigger] lecturas_nota(old(conn).enviadas@, raw, c) || final(conn).enviadas@ == tras_escritura_nota(lecturas_nota(old(conn).enviadas@, raw, c), raw) || (!vacia(raw) && final(conn).enviadas@ == lecturas_nota(old(conn).enviadas@, raw, c).push(Envio::Ejecuta(UPSERT_NOTA@, datos(parametros_nota(raw)))))),
        r is Ok ==> exists|c: i64| final(conn).enviadas@ == tras_escritura_nota(#[trigger] lecturas_nota(old(conn).enviadas@, raw, c), raw),
        r matches Err(ErrorDb::App(_)) ==> final(conn).enviadas@ == old(conn).enviadas@.push(lectura(CURSO_DE_EVALUACION@, raw.id_evaluacion)) || exists|c: i64| final(conn).enviadas@ == #[trigger] lecturas_nota(old(conn).enviadas@, raw, c),
        vacia(raw) ==> (r matches Ok(o) ==> o is None),
        falla_con(r, set![EVALUACION_NO_ENCONTRADA@, NO_INSCRIPTO_NOTA@]),
{
    let inscripto = prepare_write(conn, &raw)?;
    guardar_nota(conn, raw, inscripto)
}

pub const DELETE_NOTA: &'static str = "DELETE FROM notas WHERE id = ?1";

pub fn delete_nota_sql(conn: &mut Base, id: i64) -> (r: Result<(), ErrorDb>)
    ensures
        final(conn).enviadas@ == old(conn).enviadas@.push(sentencia_por_id(DELETE_NOTA@, id)),
        falla_de_base(r),
{
    let n = ejecuta(conn, DELETE_NOTA, &args1(Valor::Entero(id)))?;
    changes_or_missing(n)
}

pub fn list_notas_de_curso(conn: Option<&mut Base>, id_curso: i64) -> (r: Result<Vec<Nota>, String>)
    ensures
        conn is None ==> (r matches Err(m) && m@ == CERRADO@),
        conn is Some ==> respuesta_con(r, Set::empty()),
        conn matches Some(b) ==> (final(b).enviadas@ == (*b).enviadas@.push(lectura(LIST_NOTAS_DE_CURSO@, id_curso))),
{
    match conn {
        None => Err(CERRADO.to_owned()),
        Some(c) => para_docente(list_notas_de_curso_sql(c, id_curso)),
    }
}

pub fn upsert_nota(conn: Option<&mut Base>, nota: NotaWrite) -> (r: Result<Option<Nota>, String>)
    ensures
        nota_write_spec(nota) matches Err(e) ==> (r matches Err(m) && m@ == e),
        nota_write_spec(nota) is Ok && conn is None ==> (r matches Err(m) && m@ == CERRADO@),
        nota_write_spec(nota) is Ok && conn is Some ==> respuesta_con(r, set![EVALUACION_NO_ENCONTRADA@, NO_INSCRIPTO_NOTA@]),
        !(nota_write_spec(nota) is Ok) ==> (conn matches Some(b) ==> final(b).enviadas@ == (*b).enviadas@),
        nota_write_spec(nota) is Ok ==> (conn matches Some(b) ==> exists|v: NotaWrite| #[trigger] nota_write_ok(Ok::<NotaWrite, String>(v), nota) && (final(b).enviadas@ == (*b).enviadas@.push(lectura(CURSO_DE_EVALUACION@, v.id_evaluacion)) || exists|c: i64| (final(b).enviadas@ == #[trigger] lecturas_nota((*b).enviadas@, v, c) || final(b).enviadas@ == tras_escritura_nota(lecturas_nota((*b).enviadas@, v, c), v) || (!vacia(v) && final(b).enviadas@ == lecturas_nota((*b).enviadas@, v, c).push(Envio::Ejecuta(UPSERT_NOTA@, datos(parametros_nota(v))))))) && (r is Ok ==> exists|c: i64| final(b).enviadas@ == tras_escritura_nota(#[trigger] lecturas_nota((*b).enviadas@, v, c), v))),
{
    let w = nota_from_write(nota)?;
    assert(nota_write_ok(Ok::<NotaWrite, String>(w), nota));
    match conn {
        None => Err(CERRADO.to_owned()),
        Some(c) => para_docente(upsert_nota_sql(c, w)),
    }
}

pub fn delete_nota(conn: Option<&mut Base>, id: i64) -> (r: Result<(), String>)
    ensures
        conn is None ==> (r matches Err(m) && m@ == CERRADO@),
        conn is Some ==> respuesta_con(r, Set::empty()),
        conn matches Some(b) ==> (final(b).enviadas@ == (*b).enviadas@.push(sentencia_por_id(DELETE_NOTA@, id))),
{
    match conn {
        None => Err(CERRADO.to_owned()),
        Some(c) => para_docente(delete_nota_sql(c, id)),
    }
}

/// Una nota que se guarda tiene `ausente` 0 o 1, y si está ausente no tiene valor.
pub proof fn ley_ausente_sin_valor(n: NotaWrite)
    ensures
        nota_write_spec(n) matches Ok((v, a, c)) ==> (a == 0 || a == 1) && (a == 1 ==> v is None),
        nota_write_spec(n) matches Ok((v, a, c)) ==> (a == 1 <==> n.ausente != 0),
{
}

/// Volver a validar una nota ya validada la deja igual.
pub proof fn ley_nota_write_estable(n: NotaWrite, x: NotaWrite)
    requires
        nota_write_ok(Ok(x), n),
    ensures
        nota_write_ok(Ok(x), x),
{
    ley_texto_opcional_estable(vista_opt(n.comentario));
    if x.ausente == 0 {
        match vista_opt(n.valor) {
            Some(s) => {
                if recortado(s).len() > 0 {
                    ley_nota_estable(s);
                    lema_decimal_estable(s);
                }
            },
            None => {},
        }
    }
}


/// Una nota con valor, con ausente marcado o con comentario nunca se toma por vacía: se escribe
/// (alta o cambio, con todos sus datos) y se relee; solo la que no tiene nada de eso borra la de
/// (evaluación, alumno).
pub proof fn ley_nota_con_algo_se_guarda(antes: Seq<Envio>, w: NotaWrite)
    ensures
        (w.valor is Some || w.ausente != 0 || w.comentario is Some) ==> tras_escritura_nota(antes, w)
            == antes.push(Envio::Ejecuta(UPSERT_NOTA@, datos(parametros_nota(w)))).push(leer_nota(w.id_evaluacion, w.id_alumno)),
        (w.valor is None && w.ausente == 0 && w.comentario is None) ==> tras_escritura_nota(antes, w)
            == antes.push(Envio::Ejecuta(BORRAR_NOTA_PAR@, seq![Dato::Entero(w.id_evaluacion), Dato::Entero(w.id_alumno)])),
{
}

} // verus!
