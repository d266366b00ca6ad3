//! Evaluaciones de un curso: escrito, oral, TP, integrador o recuperatorio. Un recuperatorio
//! apunta a otra evaluación del mismo curso.

use vstd::prelude::*;
use crate::db::{
    Base, Envio, datos, lectura, sentencia_por_id, alta, cambio, args1, respuesta_con,
    valor_texto_opt, valor_entero_opt, falla_de_base, falla_con, Valor, ErrorDb, ejecuta, consulta,
    ultimo_id, changes_or_missing, para_docente, texto_o_nulo, entero_o_nulo, consulta_texto,
    CERRADO,
};
use crate::domain::{Evaluacion, EvaluacionWrite};
use crate::filas::{filas_evaluacion, primera_evaluacion, primera_evaluacion_opcional};
use crate::validar::{
    require_nombre, require_fecha, require_ponderacion, opt_text, obligatorio, fecha_valida, ponderacion_spec,
    texto_opcional, vista_opt, ley_obligatorio_estable, ley_fecha_estable, ley_ponderacion_estable,
    ley_texto_opcional_estable,
};

verus! {

pub const ELEGIR_ORIGEN: &'static str = "Elegí la evaluación que se recupera.";
pub const ORIGEN_PROPIO: &'static str = "Un recuperatorio no puede apuntar a sí mismo.";
pub const ORIGEN_NO_ENCONTRADO: &'static str = "No se encontró la evaluación de origen.";
pub const ORIGEN_OTRO_CURSO: &'static str = "El recuperatorio tiene que ser del mismo curso que la evaluación de origen.";

/// Solo un id positivo cuenta como evaluación de origen.
pub open spec fn origen_positivo(o: Option<i64>) -> Option<i64> {
    match o {
        Some(id) => if id > 0 {
            Some(id)
        } else {
            None
        },
        None => None,
    }
}

/// El primer error de los datos: título, fecha, ponderación.
pub open spec fn evaluacion_write_error(e: EvaluacionWrite) -> Option<Seq<char>> {
    match obligatorio(e.titulo@, "título"@) {
        Err(m) => Some(m),
        Ok(_) => match fecha_valida(e.fecha@) {
            Err(m) => Some(m),
            Ok(_) => match ponderacion_spec(e.ponderacion@) {
                Err(m) => Some(m),
                Ok(_) => None,
            },
        },
    }
}

pub open spec fn evaluacion_write_ok(r: Result<EvaluacionWrite, String>, e: EvaluacionWrite) -> bool {
    match r {
        Ok(x) => {
            &&& obligatorio(e.titulo@, "título"@) == Ok::<Seq<char>, Seq<char>>(x.titulo@)
            &&& fecha_valida(e.fecha@) == Ok::<Seq<char>, Seq<char>>(x.fecha@)
            &&& ponderacion_spec(e.ponderacion@) == Ok::<Seq<char>, Seq<char>>(x.ponderacion@)
            &&& vista_opt(x.tema) == texto_opcional(vista_opt(e.tema))
            &&& x.id_evaluacion_origen == origen_positivo(e.id_evaluacion_origen)
            &&& x.id_curso == e.id_curso && x.id_tipo_evaluacion == e.id_tipo_evaluacion
        },
        Err(m) => evaluacion_write_error(e) == Some(m@),
    }
}

pub fn evaluacion_from_write(e: EvaluacionWrite) -> (r: Result<EvaluacionWrite, String>)
    ensures
        evaluacion_write_ok(r, e),
{
    let origen = match e.id_evaluacion_origen {
        Some(id) => if id > 0 {
            Some(id)
        } else {
            None
        },
        None => None,
    };
    let titulo = require_nombre(e.titulo.as_str(), "título")?;
    let fecha = require_fecha(e.fecha.as_str())?;
    let tema = opt_text(e.tema);
    let ponderacion = require_ponderacion(e.ponderacion.as_str())?;
    Ok(EvaluacionWrite {
        id_curso: e.id_curso,
        id_tipo_evaluacion: e.id_tipo_evaluacion,
        id_evaluacion_origen: origen,
        titulo,
        fecha,
        tema,
        ponderacion,
    })
}

/// Qué origen hay que buscar: ninguno si no es recuperatorio; si lo es, el elegido, que no
/// puede ser la misma evaluación que se edita.
pub open spec fn origen_pedido(es_recuperatorio: bool, origen: Option<i64>, editando: Option<i64>) -> Result<Option<i64>, Seq<char>> {
    if !es_recuperatorio {
        Ok(None)
    } else {
        match origen {
            None => Err(ELEGIR_ORIGEN@),
            Some(o) => if editando == Some(o) {
                Err(ORIGEN_PROPIO@)
            } else {
                Ok(Some(o))
            },
        }
    }
}

pub fn pedir_origen(es_recuperatorio: bool, origen: Option<i64>, editando: Option<i64>) -> (r: Result<Option<i64>, ErrorDb>)
    ensures
        origen_pedido(es_recuperatorio, origen, editando) matches Ok(o) ==> r == Ok::<Option<i64>, ErrorDb>(o),
        origen_pedido(es_recuperatorio, origen, editando) matches Err(m) ==> (r matches Err(ErrorDb::App(e)) && e@ == m),
{
    if !es_recuperatorio {
        return Ok(None);
    }
    match origen {
        None => Err(ErrorDb::App(ELEGIR_ORIGEN.to_owned())),
        Some(o) => {
            let propio = match editando {
                Some(id) => id == o,
                None => false,
            };
            if propio {
                Err(ErrorDb::App(ORIGEN_PROPIO.to_owned()))
            } else {
                Ok(Some(o))
            }
        },
    }
}

/// Con el curso de la evaluación de origen (`None` si no existe): tiene que existir y ser del
/// mismo curso.
pub open spec fn origen_rechazo(curso_origen: Option<i64>, id_curso: i64) -> Option<Seq<char>> {
    match curso_origen {
        None => Some(ORIGEN_NO_ENCONTRADO@),
        Some(c) => if c != id_curso {
            Some(ORIGEN_OTRO_CURSO@)
        } else {
            None
        },
    }
}

pub fn validar_origen(curso_origen: Option<i64>, id_curso: i64) -> (r: Result<(), ErrorDb>)
    ensures
        origen_rechazo(curso_origen, id_curso) is None ==> r is Ok,
        origen_rechazo(curso_origen, id_curso) matches Some(m) ==> (r matches Err(ErrorDb::App(e)) && e@ == m),
{
    match curso_origen {
        None => Err(ErrorDb::App(ORIGEN_NO_ENCONTRADO.to_owned())),
        Some(c) => if c != id_curso {
            Err(ErrorDb::App(ORIGEN_OTRO_CURSO.to_owned()))
        } else {
            Ok(())
        },
    }
}

pub const GET_EVALUACION: &'static str = "SELECT id, id_curso, id_tipo_evaluacion, id_evaluacion_origen, titulo, fecha, tema, ponderacion
         FROM evaluaciones WHERE id = ?1";

pub fn get_evaluacion_sql(conn: &mut Base, id: i64) -> (r: Result<Evaluacion, ErrorDb>)
    ensures
        final(conn).enviadas@ == old(conn).enviadas@.push(lectura(GET_EVALUACION@, id)),
        falla_de_base(r),
{
    let filas = consulta(
        conn,
        GET_EVALUACION,
        &args1(Valor::Entero(id)),
    )?;
    primera_evaluacion(&filas)
}

fn get_evaluacion_opcional_sql(conn: &mut Base, id: i64) -> (r: Result<Option<Evaluacion>, ErrorDb>)
    ensures
        final(conn).enviadas@ == old(conn).enviadas@.push(lectura(GET_EVALUACION@, id)),
        falla_de_base(r),
{
    let filas = consulta(
        conn,
        GET_EVALUACION,
        &args1(Valor::Entero(id)),
    )?;
    primera_evaluacion_opcional(&filas)
}

pub const LIST_EVALUACIONES: &'static str = "SELECT e.id, e.id_curso, e.id_tipo_evaluacion, e.id_evaluacion_origen,
                e.titulo, e.fecha, e.tema, e.ponderacion
         FROM evaluaciones e
         JOIN cursos c ON c.id = e.id_curso
         WHERE c.id_anio_lectivo = ?1
         ORDER BY e.fecha DESC, e.titulo COLLATE NOCASE";

/// Evaluaciones de los dictados de un año, de la más nueva a la más vieja y por título.
pub fn list_evaluaciones_sql(conn: &mut Base, id_anio_lectivo: i64) -> (r: Result<Vec<Evaluacion>, ErrorDb>)
    ensures
        final(conn).enviadas@ == old(conn).enviadas@.push(lectura(LIST_EVALUACIONES@, id_anio_lectivo)),
        falla_de_base(r),
{
    let filas = consulta(
        conn,
        LIST_EVALUACIONES,
        &args1(Valor::Entero(id_anio_lectivo)),
    )?;
    filas_evaluacion(&filas)
}

pub const LIST_EVALUACIONES_DE_CURSO: &'static str = "SELECT id, id_curso, id_tipo_evaluacion, id_evaluacion_origen, titulo, fecha, tema, ponderacion
         FROM evaluaciones
         WHERE id_curso = ?1
         ORDER BY fecha DESC, titulo COLLATE NOCASE";

pub fn list_evaluaciones_de_curso_sql(conn: &mut Base, id_curso: i64) -> (r: Result<Vec<Evaluacion>, ErrorDb>)
    ensures
        final(conn).enviadas@ == old(conn).enviadas@.push(lectura(LIST_EVALUACIONES_DE_CURSO@, id_curso)),
        falla_de_base(r),
{
    let filas = consulta(
        conn,
        LIST_EVALUACIONES_DE_CURSO,
        &args1(Valor::Entero(id_curso)),
    )?;
    filas_evaluacion(&filas)
}

pub const TIPO_EVALUACION_CODIGO: &'static str = "SELECT codigo FROM tipos_evaluacion WHERE id = ?1";

fn tipo_codigo_sql(conn: &mut Base, id: i64) -> (r: Result<String, ErrorDb>)
    ensures
        final(conn).enviadas@ == old(conn).enviadas@.push(lectura(TIPO_EVALUACION_CODIGO@, id)),
        falla_de_base(r),
{
    consulta_texto(conn, TIPO_EVALUACION_CODIGO, &args1(Valor::Entero(id)))
}

/// Los datos quedan igual salvo la evaluación de origen, que se borra o se confirma.
pub open spec fn igual_salvo_origen(x: EvaluacionWrite, w: EvaluacionWrite) -> bool {
    &&& x.id_curso == w.id_curso && x.id_tipo_evaluacion == w.id_tipo_evaluacion
    &&& x.titulo == w.titulo && x.fecha == w.fecha && x.tema == w.tema && x.ponderacion == w.ponderacion
    &&& (x.id_evaluacion_origen is None || x.id_evaluacion_origen == w.id_evaluacion_origen)
}

/// El tipo que pide una evaluación de origen.
pub open spec fn es_recuperatorio(codigo: Seq<char>) -> bool {
    codigo == "recuperatorio"@
}

/// La evaluación de origen que se guarda, con el código del tipo y el curso de la evaluación de
/// origen pedida (`None` si no existe): un recuperatorio necesita una de su mismo curso, y no a
/// sí mismo; otro tipo pierde el origen.
pub open spec fn origen_decidido(codigo: Seq<char>, w: EvaluacionWrite, editando: Option<i64>, curso_origen: Option<i64>) -> Result<Option<i64>, Seq<char>> {
    match origen_pedido(es_recuperatorio(codigo), w.id_evaluacion_origen, editando) {
        Err(m) => Err(m),
        Ok(None) => Ok(None),
        Ok(Some(o)) => match origen_rechazo(curso_origen, w.id_curso) {
            Some(m) => Err(m),
            None => Ok(Some(o)),
        },
    }
}

/// Decide con lo que se leyó de la base la evaluación que se guarda.
pub fn decidir_evaluacion(w: EvaluacionWrite, editando: Option<i64>, codigo: &String, curso_origen: Option<i64>) -> (r: Result<EvaluacionWrite, ErrorDb>)
    ensures
        origen_decidido(codigo@, w, editando, curso_origen) matches Err(m) ==> (r matches Err(ErrorDb::App(e)) && e@ == m),
        origen_decidido(codigo@, w, editando, curso_origen) matches Ok(o) ==> (r matches Ok(x) && igual_salvo_origen(x, w)
            && x.id_evaluacion_origen == o),
{
    let recuperatorio = "recuperatorio".to_owned();
    let es_rec = *codigo == recuperatorio;
    let pedido = pedir_origen(es_rec, w.id_evaluacion_origen, editando)?;
    match pedido {
        None => Ok(EvaluacionWrite { id_evaluacion_origen: None, ..w }),
        Some(origen) => {
            validar_origen(curso_origen, w.id_curso)?;
            Ok(EvaluacionWrite { id_evaluacion_origen: Some(origen), ..w })
        },
    }
}

/// Si hay que leer la evaluación de origen: un recuperatorio que pide un origen que no es él mismo.
pub open spec fn lee_origen(codigo: Seq<char>, w: EvaluacionWrite, editando: Option<i64>) -> bool {
    match w.id_evaluacion_origen {
        Some(o) => es_recuperatorio(codigo) && editando != Some(o),
        None => false,
    }
}

/// Lo mandado tras las lecturas de una evaluación: el código del tipo y, si `lee`, la evaluación
/// de origen pedida.
pub open spec fn lecturas_evaluacion(antes: Seq<Envio>, w: EvaluacionWrite, lee: bool) -> Seq<Envio> {
    let a = antes.push(lectura(TIPO_EVALUACION_CODIGO@, w.id_tipo_evaluacion));
    if lee {
        a.push(lectura(GET_EVALUACION@, w.id_evaluacion_origen.unwrap_or(0)))
    } else {
        a
    }
}

/// La evaluación con otro origen.
pub open spec fn con_origen(w: EvaluacionWrite, o: Option<i64>) -> EvaluacionWrite {
    EvaluacionWrite { id_evaluacion_origen: o, ..w }
}

/// Lee de la base el código del tipo y, si es un recuperatorio que pide un origen que no es él
/// mismo, el curso de esa evaluación (`None` si no existe, o si no hace falta leerlo).
fn prepare_write(conn: &mut Base, w: &EvaluacionWrite, editing_id: Option<i64>) -> (r: Result<(String, Option<i64>), ErrorDb>)
    ensures
        r matches Ok((c, co)) ==> final(conn).enviadas@ == lecturas_evaluacion(old(conn).enviadas@, *w, lee_origen(c@, *w, editing_id)) && (!lee_origen(c@, *w, editing_id) ==> co is None),
        r is Err ==> final(conn).enviadas@ == lecturas_evaluacion(old(conn).enviadas@, *w, false) || final(conn).enviadas@ == lecturas_evaluacion(old(conn).enviadas@, *w, true),
        falla_de_base(r),
{
    let codigo = tipo_codigo_sql(conn, w.id_tipo_evaluacion)?;
    let recuperatorio = "recuperatorio".to_owned();
    let leer = match w.id_evaluacion_origen {
        Some(o) => codigo == recuperatorio && editing_id != Some(o),
        None => false,
    };
    if !leer {
        return Ok((codigo, None));
    }
    let origen = match w.id_evaluacion_origen {
        Some(o) => o,
        None => 0,
    };
    let orig = get_evaluacion_opcional_sql(conn, origen)?;
    let curso_origen = match orig {
        Some(o) => Some(o.id_curso),
        None => None,
    };
    Ok((codigo, curso_origen))
}

/// Los parámetros de una evaluación, en el orden de las columnas.
pub open spec fn parametros_evaluacion(w: EvaluacionWrite) -> Seq<Valor> {
    seq![
        Valor::Entero(w.id_curso),
        Valor::Entero(w.id_tipo_evaluacion),
        valor_entero_opt(w.id_evaluacion_origen),
        Valor::Texto(w.titulo),
        Valor::Texto(w.fecha),
        valor_texto_opt(w.tema),
        Valor::Texto(w.ponderacion),
    ]
}

fn valores_evaluacion(w: &EvaluacionWrite) -> (r: Vec<Valor>)
    ensures
        r@ == parametros_evaluacion(*w),
{
    vec![
        Valor::Entero(w.id_curso),
        Valor::Entero(w.id_tipo_evaluacion),
        entero_o_nulo(w.id_evaluacion_origen),
        Valor::Texto(w.titulo.clone()),
        Valor::Texto(w.fecha.clone()),
        texto_o_nulo(&w.tema),
        Valor::Texto(w.ponderacion.clone()),
    ]
}

pub const INSERT_EVALUACION: &'static str = "INSERT INTO evaluaciones (
            id_curso, id_tipo_evaluacion, id_evaluacion_origen, titulo, fecha, tema, ponderacion
         ) VALUES (?1, ?2, ?3, ?4, ?5, ?6, ?7)";

/// El alta, con lo que se leyó de la base (código del tipo, curso del origen): si
/// `origen_decidido` rechaza, no se escribe nada; si no, se inserta con ese origen y se devuelve
/// releída.
pub fn insertar_evaluacion(conn: &mut Base, raw: EvaluacionWrite, codigo: String, curso_origen: Option<i64>) -> (r: Result<Evaluacion, ErrorDb>)
    ensures
        origen_decidido(codigo@, raw, None, curso_origen) is Err ==> final(conn).enviadas@ == old(conn).enviadas@,
        origen_decidido(codigo@, raw, None, curso_origen) matches Ok(o) ==> alta(old(conn).enviadas@, final(conn).enviadas@, Envio::Ejecuta(INSERT_EVALUACION@, datos(parametros_evaluacion(con_origen(raw, o)))), GET_EVALUACION@, r is Ok),
        origen_decidido(codigo@, raw, None, curso_origen) matches Err(m) ==> (r matches Err(ErrorDb::App(e)) && e@ == m),
        origen_decidido(codigo@, raw, None, curso_origen) is Ok ==> falla_de_base(r),
{
    let w = decidir_evaluacion(raw, None, &codigo, curso_origen)?;
    ejecuta(
        conn,
        INSERT_EVALUACION,
        &valores_evaluacion(&w),
    )?;
    let id = ultimo_id(conn);
    get_evaluacion_sql(conn, id)
}

pub fn insert_evaluacion_sql(conn: &mut Base, raw: EvaluacionWrite) -> (r: Result<Evaluacion, ErrorDb>)
    ensures
        final(conn).enviadas@ == lecturas_evaluacion(old(conn).enviadas@, raw, false) || final(conn).enviadas@ == lecturas_evaluacion(old(conn).enviadas@, raw, true) || alta(lecturas_evaluacion(old(conn).enviadas@, raw, false), final(conn).enviadas@, Envio::Ejecuta(INSERT_EVALUACION@, datos(parametros_evaluacion(con_origen(raw, None)))), GET_EVALUACION@, r is Ok) || alta(lecturas_evaluacion(old(conn).enviadas@, raw, true), final(conn).enviadas@, Envio::Ejecuta(INSERT_EVALUACION@, datos(parametros_evaluacion(raw))), GET_EVALUACION@, r is Ok),
        r is Ok ==> alta(lecturas_evaluacion(old(conn).enviadas@, raw, false), final(conn).enviadas@, Envio::Ejecuta(INSERT_EVALUACION@, datos(parametros_evaluacion(con_origen(raw, None)))), GET_EVALUACION@, true) || alta(lecturas_evaluacion(old(conn).enviadas@, raw, true), final(conn).enviadas@, Envio::Ejecuta(INSERT_EVALUACION@, datos(parametros_evaluacion(raw))), GET_EVALUACION@, true),
        r matches Err(ErrorDb::App(_)) ==> final(conn).enviadas@ == lecturas_evaluacion(old(conn).enviadas@, raw, false) || final(conn).enviadas@ == lecturas_evaluacion(old(conn).enviadas@, raw, true),
        falla_con(r, set![ELEGIR_ORIGEN@, ORIGEN_PROPIO@, ORIGEN_NO_ENCONTRADO@, ORIGEN_OTRO_CURSO@]),
{
    let (codigo, curso_origen) = prepare_write(conn, &raw, None)?;
    insertar_evaluacion(conn, raw, codigo, curso_origen)
}

pub const UPDATE_EVALUACION: &'static str = "UPDATE evaluaciones
         SET id_curso = ?1, id_tipo_evaluacion = ?2, id_evaluacion_origen = ?3,
             titulo = ?4, fecha = ?5, tema = ?6, ponderacion = ?7
         WHERE id = ?8";

/// El cambio, con lo que se leyó de la base (código del tipo, curso del origen): si
/// `origen_decidido` rechaza, no se escribe nada; si no, se actualiza con ese origen (sin fila es
/// "no encontrado") y se devuelve releída.
pub fn actualizar_evaluacion(conn: &mut Base, id: i64, raw: EvaluacionWrite, codigo: String, curso_origen: Option<i64>) -> (r: Result<Evaluacion, ErrorDb>)
    ensures
        origen_decidido(codigo@, raw, Some(id), curso_origen) is Err ==> final(conn).enviadas@ == old(conn).enviadas@,
        origen_decidido(codigo@, raw, Some(id), curso_origen) matches Ok(o) ==> cambio(old(conn).enviadas@, final(conn).enviadas@, Envio::Ejecuta(UPDATE_EVALUACION@, datos(parametros_evaluacion(con_origen(raw, o)).push(Valor::Entero(id)))), GET_EVALUACION@, id, r is Ok),
        origen_decidido(codigo@, raw, Some(id), curso_origen) matches Err(m) ==> (r matches Err(ErrorDb::App(e)) && e@ == m),
        origen_decidido(codigo@, raw, Some(id), curso_origen) is Ok ==> falla_de_base(r),
{
    let w = decidir_evaluacion(raw, Some(id), &codigo, curso_origen)?;
    let mut args = valores_evaluacion(&w);
    args.push(Valor::Entero(id));
    let n = ejecuta(
        conn,
        UPDATE_EVALUACION,
        &args,
    )?;
    changes_or_missing(n)?;
    get_evaluacion_sql(conn, id)
}

pub fn update_evaluacion_sql(conn: &mut Base, id: i64, raw: EvaluacionWrite) -> (r: Result<Evaluacion, ErrorDb>)
    ensures
        final(conn).enviadas@ == lecturas_evaluacion(old(conn).enviadas@, raw, false) || final(conn).enviadas@ == lecturas_evaluacion(old(conn).enviadas@, raw, true) || cambio(lecturas_evaluacion(old(conn).enviadas@, raw, false), final(conn).enviadas@, Envio::Ejecuta(UPDATE_EVALUACION@, datos(parametros_evaluacion(con_origen(raw, None)).push(Valor::Entero(id)))), GET_EVALUACION@, id, r is Ok) || cambio(lecturas_evaluacion(old(conn).enviadas@, raw, true), final(conn).enviadas@, Envio::Ejecuta(UPDATE_EVALUACION@, datos(parametros_evaluacion(raw).push(Valor::Entero(id)))), GET_EVALUACION@, id, r is Ok),
        r is Ok ==> cambio(lecturas_evaluacion(old(conn).enviadas@, raw, false), final(conn).enviadas@, Envio::Ejecuta(UPDATE_EVALUACION@, datos(parametros_evaluacion(con_origen(raw, None)).push(Valor::Entero(id)))), GET_EVALUACION@, id, true) || cambio(lecturas_evaluacion(old(conn).enviadas@, raw, true), final(conn).enviadas@, Envio::Ejecuta(UPDATE_EVALUACION@, datos(parametros_evaluacion(raw).push(Valor::Entero(id)))), GET_EVALUACION@, id, true),
        r matches Err(ErrorDb::App(_)) ==> final(conn).enviadas@ == lecturas_evaluacion(old(conn).enviadas@, raw, false) || final(conn).enviadas@ == lecturas_evaluacion(old(conn).enviadas@, raw, true),
        falla_con(r, set![ELEGIR_ORIGEN@, ORIGEN_PROPIO@, ORIGEN_NO_ENCONTRADO@, ORIGEN_OTRO_CURSO@]),
{
    let (codigo, curso_origen) = prepare_write(conn, &raw, Some(id))?;
    actualizar_evaluacion(conn, id, raw, codigo, curso_origen)
}

pub const DELETE_EVALUACION: &'static str = "DELETE FROM evaluaciones WHERE id = ?1";

/// Baja de una evaluación; sus notas se van con ella (`ON DELETE CASCADE`).
pub fn delete_evaluacion_sql(conn: &mut Base, id: i64) -> (r: Result<(), ErrorDb>)
    ensures
        final(conn).enviadas@ == old(conn).enviadas@.push(sentencia_por_id(DELETE_EVALUACION@, id)),
        falla_de_base(r),
{
    let n = ejecuta(conn, DELETE_EVALUACION, &args1(Valor::Entero(id)))?;
    changes_or_missing(n)
}

pub fn list_evaluaciones(conn: Option<&mut Base>, id_anio_lectivo: i64) -> (r: Result<Vec<Evaluacion>, String>)
    ensures
        conn is None ==> (r matches Err(m) && m@ == CERRADO@),
        conn is Some ==> respuesta_con(r, Set::empty()),
        conn matches Some(b) ==> (final(b).enviadas@ == (*b).enviadas@.push(lectura(LIST_EVALUACIONES@, id_anio_lectivo))),
{
    match conn {
        None => Err(CERRADO.to_owned()),
        Some(c) => para_docente(list_evaluaciones_sql(c, id_anio_lectivo)),
    }
}

pub fn list_evaluaciones_de_curso(conn: Option<&mut Base>, id_curso: i64) -> (r: Result<Vec<Evaluacion>, String>)
    ensures
        conn is None ==> (r matches Err(m) && m@ == CERRADO@),
        conn is Some ==> respuesta_con(r, Set::empty()),
        conn matches Some(b) ==> (final(b).enviadas@ == (*b).enviadas@.push(lectura(LIST_EVALUACIONES_DE_CURSO@, id_curso))),
{
    match conn {
        None => Err(CERRADO.to_owned()),
        Some(c) => para_docente(list_evaluaciones_de_curso_sql(c, id_curso)),
    }
}

pub fn get_evaluacion(conn: Option<&mut Base>, id: i64) -> (r: Result<Evaluacion, String>)
    ensures
        conn is None ==> (r matches Err(m) && m@ == CERRADO@),
        conn is Some ==> respuesta_con(r, Set::empty()),
        conn matches Some(b) ==> (final(b).enviadas@ == (*b).enviadas@.push(lectura(GET_EVALUACION@, id))),
{
    match conn {
        None => Err(CERRADO.to_owned()),
        Some(c) => para_docente(get_evaluacion_sql(c, id)),
    }
}

pub fn create_evaluacion(conn: Option<&mut Base>, evaluacion: EvaluacionWrite) -> (r: Result<Evaluacion, String>)
    ensures
        evaluacion_write_error(evaluacion) matches Some(e) ==> (r matches Err(m) && m@ == e),
        evaluacion_write_error(evaluacion) is None && conn is None ==> (r matches Err(m) && m@ == CERRADO@),
        evaluacion_write_error(evaluacion) is None && conn is Some ==> respuesta_con(r, set![ELEGIR_ORIGEN@, ORIGEN_PROPIO@, ORIGEN_NO_ENCONTRADO@, ORIGEN_OTRO_CURSO@]),
        !(evaluacion_write_error(evaluacion) is None) ==> (conn matches Some(b) ==> final(b).enviadas@ == (*b).enviadas@),
        evaluacion_write_error(evaluacion) is None ==> (conn matches Some(b) ==> exists|v: EvaluacionWrite| #[trigger] evaluacion_write_ok(Ok::<EvaluacionWrite, String>(v), evaluacion) && (final(b).enviadas@ == lecturas_evaluacion((*b).enviadas@, v, false) || final(b).enviadas@ == lecturas_evaluacion((*b).enviadas@, v, true) || alta(lecturas_evaluacion((*b).enviadas@, v, false), final(b).enviadas@, Envio::Ejecuta(INSERT_EVALUACION@, datos(parametros_evaluacion(con_origen(v, None)))), GET_EVALUACION@, r is Ok) || alta(lecturas_evaluacion((*b).enviadas@, v, true), final(b).enviadas@, Envio::Ejecuta(INSERT_EVALUACION@, datos(parametros_evaluacion(v))), GET_EVALUACION@, r is Ok)) && (r is Ok ==> alta(lecturas_evaluacion((*b).enviadas@, v, false), final(b).enviadas@, Envio::Ejecuta(INSERT_EVALUACION@, datos(parametros_evaluacion(con_origen(v, None)))), GET_EVALUACION@, true) || alta(lecturas_evaluacion((*b).enviadas@, v, true), final(b).enviadas@, Envio::Ejecuta(INSERT_EVALUACION@, datos(parametros_evaluacion(v))), GET_EVALUACION@, true))),
{
    let w = evaluacion_from_write(evaluacion)?;
    assert(evaluacion_write_ok(Ok::<EvaluacionWrite, String>(w), evaluacion));
    match conn {
        None => Err(CERRADO.to_owned()),
        Some(c) => para_docente(insert_evaluacion_sql(c, w)),
    }
}

pub fn update_evaluacion(conn: Option<&mut Base>, id: i64, evaluacion: EvaluacionWrite) -> (r: Result<Evaluacion, String>)
    ensures
        evaluacion_write_error(evaluacion) matches Some(e) ==> (r matches Err(m) && m@ == e),
        evaluacion_write_error(evaluacion) is None && conn is None ==> (r matches Err(m) && m@ == CERRADO@),
        evaluacion_write_error(evaluacion) is None && conn is Some ==> respuesta_con(r, set![ELEGIR_ORIGEN@, ORIGEN_PROPIO@, ORIGEN_NO_ENCONTRADO@, ORIGEN_OTRO_CURSO@]),
        !(evaluacion_write_error(evaluacion) is None) ==> (conn matches Some(b) ==> final(b).enviadas@ == (*b).enviadas@),
        evaluacion_write_error(evaluacion) is None ==> (conn matches Some(b) ==> exists|v: EvaluacionWrite| #[trigger] evaluacion_write_ok(Ok::<EvaluacionWrite, String>(v), evaluacion) && (final(b).enviadas@ == lecturas_evaluacion((*b).enviadas@, v, false) || final(b).enviadas@ == lecturas_evaluacion((*b).enviadas@, v, true) || cambio(lecturas_evaluacion((*b).enviadas@, v, false), final(b).enviadas@, Envio::Ejecuta(UPDATE_EVALUACION@, datos(parametros_evaluacion(con_origen(v, None)).push(Valor::Entero(id)))), GET_EVALUACION@, id, r is Ok) || cambio(lecturas_evaluacion((*b).enviadas@, v, true), final(b).enviadas@, Envio::Ejecuta(UPDATE_EVALUACION@, datos(parametros_evaluacion(v).push(Valor::Entero(id)))), GET_EVALUACION@, id, r is Ok)) && (r is Ok ==> cambio(lecturas_evaluacion((*b).enviadas@, v, false), final(b).enviadas@, Envio::Ejecuta(UPDATE_EVALUACION@, datos(parametros_evaluacion(con_origen(v, None)).push(Valor::Entero(id)))), GET_EVALUACION@, id, true) || cambio(lecturas_evaluacion((*b).enviadas@, v, true), final(b).enviadas@, Envio::Ejecuta(UPDATE_EVALUACION@, datos(parametros_evaluacion(v).push(Valor::Entero(id)))), GET_EVALUACION@, id, true))),
{
    let w = evaluacion_from_write(evaluacion)?;
    assert(evaluacion_write_ok(Ok::<EvaluacionWrite, String>(w), evaluacion));
    match conn {
        None => Err(CERRADO.to_owned()),
        Some(c) => para_docente(update_evaluacion_sql(c, id, w)),
    }
}

pub fn delete_evaluacion(conn: Option<&mut Base>, id: i64) -> (r: Result<(), String>)
    ensures
        conn is None ==> (r matches Err(m) && m@ == CERRADO@),
        conn is Some ==> respuesta_con(r, Set::empty()),
        conn matches Some(b) ==> (final(b).enviadas@ == (*b).enviadas@.push(sentencia_por_id(DELETE_EVALUACION@, id))),
{
    match conn {
        None => Err(CERRADO.to_owned()),
        Some(c) => para_docente(delete_evaluacion_sql(c, id)),
    }
}

/// Solo un recuperatorio guarda evaluación de origen, y nunca la misma evaluación que se edita;
/// el origen aceptado es del mismo curso.
pub proof fn ley_origen_del_recuperatorio(
    es_recuperatorio: bool,
    origen: Option<i64>,
    editando: Option<i64>,
    curso_origen: Option<i64>,
    id_curso: i64,
)
    ensures
        !es_recuperatorio ==> origen_pedido(es_recuperatorio, origen, editando) == Ok::<Option<i64>, Seq<char>>(None),
        origen_pedido(es_recuperatorio, origen, editando) matches Ok(Some(o)) ==> es_recuperatorio && origen == Some(o)
            && editando != Some(o),
        origen_rechazo(curso_origen, id_curso) is None ==> curso_origen == Some(id_curso),
{
}

/// Volver a validar una evaluación ya validada la deja igual.
pub proof fn ley_evaluacion_estable(e: EvaluacionWrite, x: EvaluacionWrite)
    requires
        evaluacion_write_ok(Ok(x), e),
    ensures
        evaluacion_write_ok(Ok(x), x),
{
    ley_obligatorio_estable(e.titulo@, "título"@);
    ley_fecha_estable(e.fecha@);
    ley_ponderacion_estable(e.ponderacion@);
    ley_texto_opcional_estable(vista_opt(e.tema));
}

} // verus!
