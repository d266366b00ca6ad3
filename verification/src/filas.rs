//! Filas de la base como tipos del dominio: una columna por campo, en el orden de la consulta.

use vstd::prelude::*;
use crate::db::{
    falla_de_base, Valor, ErrorDb, col_entero, col_texto, col_texto_opt, col_entero_opt, entero_de,
    texto_de, texto_opt_de, entero_opt_de,
};
use crate::domain::{
    Turno, Division, Nivel, Ciclo, AnioLectivo, Jurisdiccion, TipoEvento, TipoEvaluacion, TipoObservacion, EstadoAsistencia, Escuela, Materia, Curso, Alumno, AlumnoCurso, Horario, Evento, Evaluacion, Nota, Observacion, Asistencia,
};
use crate::validar::vista_opt;

verus! {

pub const FILA_CORTA: &'static str = "La fila no tiene todas las columnas.";

/// La fila tiene las 2 columnas de `Turno` con sus tipos.
pub open spec fn fila_turno_ok(f: Seq<Valor>) -> bool {
    f.len() >= 2 && entero_de(f[0]) is Some && texto_de(f[1]) is Some
}

/// `x` tiene los valores de la fila.
pub open spec fn es_fila_turno(x: Turno, f: Seq<Valor>) -> bool {
    Some(x.id) == entero_de(f[0])
    && Some(x.nombre@) == texto_de(f[1])
}

/// `Turno` de una fila.
pub fn fila_turno(f: &Vec<Valor>) -> (r: Result<Turno, ErrorDb>)
    ensures
        falla_de_base(r),
        r is Ok <==> fila_turno_ok(f@),
        r matches Ok(x) ==> es_fila_turno(x, f@),
{
    if f.len() < 2 {
        return Err(ErrorDb::Sql(FILA_CORTA.to_owned()));
    }
    let id = match col_entero(f, 0) {
        Ok(v) => v,
        Err(e) => return Err(e),
    };
    let nombre = match col_texto(f, 1) {
        Ok(v) => v,
        Err(e) => return Err(e),
    };
    Ok(Turno { id, nombre })
}

/// `Turno` de cada fila, en orden.
pub fn filas_turno(filas: &Vec<Vec<Valor>>) -> (r: Result<Vec<Turno>, ErrorDb>)
    ensures
        falla_de_base(r),
        r is Ok <==> forall|i: int| 0 <= i < filas@.len() ==> fila_turno_ok(#[trigger] filas@[i]@),
        r matches Ok(v) ==> v@.len() == filas@.len() && forall|i: int| 0 <= i < v@.len() ==> es_fila_turno(#[trigger] v@[i], filas@[i]@),
{
    let mut v: Vec<Turno> = Vec::new();
    let mut i: usize = 0;
    while i < filas.len()
        invariant
            i <= filas@.len(),
            v@.len() == i,
            forall|k: int| 0 <= k < i ==> fila_turno_ok(#[trigger] filas@[k]@),
            forall|k: int| 0 <= k < i ==> es_fila_turno(#[trigger] v@[k], filas@[k]@),
        decreases filas@.len() - i,
    {
        match fila_turno(&filas[i]) {
            Ok(x) => v.push(x),
            Err(e) => return Err(e),
        }
        i = i + 1;
    }
    Ok(v)
}

/// La fila tiene las 2 columnas de `Division` con sus tipos.
pub open spec fn fila_division_ok(f: Seq<Valor>) -> bool {
    f.len() >= 2 && entero_de(f[0]) is Some && texto_de(f[1]) is Some
}

/// `x` tiene los valores de la fila.
pub open spec fn es_fila_division(x: Division, f: Seq<Valor>) -> bool {
    Some(x.id) == entero_de(f[0])
    && Some(x.nombre@) == texto_de(f[1])
}

/// `Division` de una fila.
pub fn fila_division(f: &Vec<Valor>) -> (r: Result<Division, ErrorDb>)
    ensures
        falla_de_base(r),
        r is Ok <==> fila_division_ok(f@),
        r matches Ok(x) ==> es_fila_division(x, f@),
{
    if f.len() < 2 {
        return Err(ErrorDb::Sql(FILA_CORTA.to_owned()));
    }
    let id = match col_entero(f, 0) {
        Ok(v) => v,
        Err(e) => return Err(e),
    };
    let nombre = match col_texto(f, 1) {
        Ok(v) => v,
        Err(e) => return Err(e),
    };
    Ok(Division { id, nombre })
}

/// `Division` de cada fila, en orden.
pub fn filas_division(filas: &Vec<Vec<Valor>>) -> (r: Result<Vec<Division>, ErrorDb>)
    ensures
        falla_de_base(r),
        r is Ok <==> forall|i: int| 0 <= i < filas@.len() ==> fila_division_ok(#[trigger] filas@[i]@),
        r matches Ok(v) ==> v@.len() == filas@.len() && forall|i: int| 0 <= i < v@.len() ==> es_fila_division(#[trigger] v@[i], filas@[i]@),
{
    let mut v: Vec<Division> = Vec::new();
    let mut i: usize = 0;
    while i < filas.len()
        invariant
            i <= filas@.len(),
            v@.len() == i,
            forall|k: int| 0 <= k < i ==> fila_division_ok(#[trigger] filas@[k]@),
            forall|k: int| 0 <= k < i ==> es_fila_division(#[trigger] v@[k], filas@[k]@),
        decreases filas@.len() - i,
    {
        match fila_division(&filas[i]) {
            Ok(x) => v.push(x),
            Err(e) => return Err(e),
        }
        i = i + 1;
    }
    Ok(v)
}

/// La fila tiene las 3 columnas de `Nivel` con sus tipos.
pub open spec fn fila_nivel_ok(f: Seq<Valor>) -> bool {
    f.len() >= 3 && entero_de(f[0]) is Some && texto_de(f[1]) is Some && texto_de(f[2]) is Some
}

/// `x` tiene los valores de la fila.
pub open spec fn es_fila_nivel(x: Nivel, f: Seq<Valor>) -> bool {
    Some(x.id) == entero_de(f[0])
    && Some(x.codigo@) == texto_de(f[1])
    && Some(x.nombre@) == texto_de(f[2])
}

/// `Nivel` de una fila.
pub fn fila_nivel(f: &Vec<Valor>) -> (r: Result<Nivel, ErrorDb>)
    ensures
        falla_de_base(r),
        r is Ok <==> fila_nivel_ok(f@),
        r matches Ok(x) ==> es_fila_nivel(x, f@),
{
    if f.len() < 3 {
        return Err(ErrorDb::Sql(FILA_CORTA.to_owned()));
    }
    let id = match col_entero(f, 0) {
        Ok(v) => v,
        Err(e) => return Err(e),
    };
    let codigo = match col_texto(f, 1) {
        Ok(v) => v,
        Err(e) => return Err(e),
    };
    let nombre = match col_texto(f, 2) {
        Ok(v) => v,
        Err(e) => return Err(e),
    };
    Ok(Nivel { id, codigo, nombre })
}

/// `Nivel` de cada fila, en orden.
pub fn filas_nivel(filas: &Vec<Vec<Valor>>) -> (r: Result<Vec<Nivel>, ErrorDb>)
    ensures
        falla_de_base(r),
        r is Ok <==> forall|i: int| 0 <= i < filas@.len() ==> fila_nivel_ok(#[trigger] filas@[i]@),
        r matches Ok(v) ==> v@.len() == filas@.len() && forall|i: int| 0 <= i < v@.len() ==> es_fila_nivel(#[trigger] v@[i], filas@[i]@),
{
    let mut v: Vec<Nivel> = Vec::new();
    let mut i: usize = 0;
    while i < filas.len()
        invariant
            i <= filas@.len(),
            v@.len() == i,
            forall|k: int| 0 <= k < i ==> fila_nivel_ok(#[trigger] filas@[k]@),
            forall|k: int| 0 <= k < i ==> es_fila_nivel(#[trigger] v@[k], filas@[k]@),
        decreases filas@.len() - i,
    {
        match fila_nivel(&filas[i]) {
            Ok(x) => v.push(x),
            Err(e) => return Err(e),
        }
        i = i + 1;
    }
    Ok(v)
}

/// La fila tiene las 4 columnas de `Ciclo` con sus tipos.
pub open spec fn fila_ciclo_ok(f: Seq<Valor>) -> bool {
    f.len() >= 4 && entero_de(f[0]) is Some && entero_de(f[1]) is Some && texto_de(f[2]) is Some && entero_de(f[3]) is Some
}

/// `x` tiene los valores de la fila.
pub open spec fn es_fila_ciclo(x: Ciclo, f: Seq<Valor>) -> bool {
    Some(x.id) == entero_de(f[0])
    && Some(x.id_nivel) == entero_de(f[1])
    && Some(x.nombre@) == texto_de(f[2])
    && Some(x.orden) == entero_de(f[3])
}

/// `Ciclo` de una fila.
pub fn fila_ciclo(f: &Vec<Valor>) -> (r: Result<Ciclo, ErrorDb>)
    ensures
        falla_de_base(r),
        r is Ok <==> fila_ciclo_ok(f@),
        r matches Ok(x) ==> es_fila_ciclo(x, f@),
{
    if f.len() < 4 {
        return Err(ErrorDb::Sql(FILA_CORTA.to_owned()));
    }
    let id = match col_entero(f, 0) {
        Ok(v) => v,
        Err(e) => return Err(e),
    };
    let id_nivel = match col_entero(f, 1) {
        Ok(v) => v,
        Err(e) => return Err(e),
    };
    let nombre = match col_texto(f, 2) {
        Ok(v) => v,
        Err(e) => return Err(e),
    };
    let orden = match col_entero(f, 3) {
        Ok(v) => v,
        Err(e) => return Err(e),
    };
    Ok(Ciclo { id, id_nivel, nombre, orden })
}

/// `Ciclo` de cada fila, en orden.
pub fn filas_ciclo(filas: &Vec<Vec<Valor>>) -> (r: Result<Vec<Ciclo>, ErrorDb>)
    ensures
        falla_de_base(r),
        r is Ok <==> forall|i: int| 0 <= i < filas@.len() ==> fila_ciclo_ok(#[trigger] filas@[i]@),
        r matches Ok(v) ==> v@.len() == filas@.len() && forall|i: int| 0 <= i < v@.len() ==> es_fila_ciclo(#[trigger] v@[i], filas@[i]@),
{
    let mut v: Vec<Ciclo> = Vec::new();
    let mut i: usize = 0;
    while i < filas.len()
        invariant
            i <= filas@.len(),
            v@.len() == i,
            forall|k: int| 0 <= k < i ==> fila_ciclo_ok(#[trigger] filas@[k]@),
            forall|k: int| 0 <= k < i ==> es_fila_ciclo(#[trigger] v@[k], filas@[k]@),
        decreases filas@.len() - i,
    {
        match fila_ciclo(&filas[i]) {
            Ok(x) => v.push(x),
            Err(e) => return Err(e),
        }
        i = i + 1;
    }
    Ok(v)
}

/// La fila tiene las 3 columnas de `AnioLectivo` con sus tipos.
pub open spec fn fila_anio_lectivo_ok(f: Seq<Valor>) -> bool {
    f.len() >= 3 && entero_de(f[0]) is Some && entero_de(f[1]) is Some && entero_de(f[2]) is Some
}

/// `x` tiene los valores de la fila.
pub open spec fn es_fila_anio_lectivo(x: AnioLectivo, f: Seq<Valor>) -> bool {
    Some(x.id) == entero_de(f[0])
    && Some(x.anio) == entero_de(f[1])
    && Some(x.activo) == entero_de(f[2])
}

/// `AnioLectivo` de una fila.
pub fn fila_anio_lectivo(f: &Vec<Valor>) -> (r: Result<AnioLectivo, ErrorDb>)
    ensures
        falla_de_base(r),
        r is Ok <==> fila_anio_lectivo_ok(f@),
        r matches Ok(x) ==> es_fila_anio_lectivo(x, f@),
{
    if f.len() < 3 {
        return Err(ErrorDb::Sql(FILA_CORTA.to_owned()));
    }
    let id = match col_entero(f, 0) {
        Ok(v) => v,
        Err(e) => return Err(e),
    };
    let anio = match col_entero(f, 1) {
        Ok(v) => v,
        Err(e) => return Err(e),
    };
    let activo = match col_entero(f, 2) {
        Ok(v) => v,
        Err(e) => return Err(e),
    };
    Ok(AnioLectivo { id, anio, activo })
}

/// `AnioLectivo` de cada fila, en orden.
pub fn filas_anio_lectivo(filas: &Vec<Vec<Valor>>) -> (r: Result<Vec<AnioLectivo>, ErrorDb>)
    ensures
        falla_de_base(r),
        r is Ok <==> forall|i: int| 0 <= i < filas@.len() ==> fila_anio_lectivo_ok(#[trigger] filas@[i]@),
        r matches Ok(v) ==> v@.len() == filas@.len() && forall|i: int| 0 <= i < v@.len() ==> es_fila_anio_lectivo(#[trigger] v@[i], filas@[i]@),
{
    let mut v: Vec<AnioLectivo> = Vec::new();
    let mut i: usize = 0;
    while i < filas.len()
        invariant
            i <= filas@.len(),
            v@.len() == i,
            forall|k: int| 0 <= k < i ==> fila_anio_lectivo_ok(#[trigger] filas@[k]@),
            forall|k: int| 0 <= k < i ==> es_fila_anio_lectivo(#[trigger] v@[k], filas@[k]@),
        decreases filas@.len() - i,
    {
        match fila_anio_lectivo(&filas[i]) {
            Ok(x) => v.push(x),
            Err(e) => return Err(e),
        }
        i = i + 1;
    }
    Ok(v)
}

/// `AnioLectivo` de la primera fila; "no encontrado" si no hay filas.
pub fn primera_anio_lectivo(filas: &Vec<Vec<Valor>>) -> (r: Result<AnioLectivo, ErrorDb>)
    ensures
        falla_de_base(r),
        filas@.len() == 0 ==> r == Err::<AnioLectivo, ErrorDb>(ErrorDb::NoEncontrado),
        filas@.len() > 0 ==> (r is Ok <==> fila_anio_lectivo_ok(filas@[0]@)),
        r matches Ok(x) ==> filas@.len() > 0 && es_fila_anio_lectivo(x, filas@[0]@),
{
    if filas.len() == 0 {
        return Err(ErrorDb::NoEncontrado);
    }
    fila_anio_lectivo(&filas[0])
}

/// La fila tiene las 3 columnas de `Jurisdiccion` con sus tipos.
pub open spec fn fila_jurisdiccion_ok(f: Seq<Valor>) -> bool {
    f.len() >= 3 && entero_de(f[0]) is Some && texto_de(f[1]) is Some && texto_de(f[2]) is Some
}

/// `x` tiene los valores de la fila.
pub open spec fn es_fila_jurisdiccion(x: Jurisdiccion, f: Seq<Valor>) -> bool {
    Some(x.id) == entero_de(f[0])
    && Some(x.codigo@) == texto_de(f[1])
    && Some(x.nombre@) == texto_de(f[2])
}

/// `Jurisdiccion` de una fila.
pub fn fila_jurisdiccion(f: &Vec<Valor>) -> (r: Result<Jurisdiccion, ErrorDb>)
    ensures
        falla_de_base(r),
        r is Ok <==> fila_jurisdiccion_ok(f@),
        r matches Ok(x) ==> es_fila_jurisdiccion(x, f@),
{
    if f.len() < 3 {
        return Err(ErrorDb::Sql(FILA_CORTA.to_owned()));
    }
    let id = match col_entero(f, 0) {
        Ok(v) => v,
        Err(e) => return Err(e),
    };
    let codigo = match col_texto(f, 1) {
        Ok(v) => v,
        Err(e) => return Err(e),
    };
    let nombre = match col_texto(f, 2) {
        Ok(v) => v,
        Err(e) => return Err(e),
    };
    Ok(Jurisdiccion { id, codigo, nombre })
}

/// `Jurisdiccion` de cada fila, en orden.
pub fn filas_jurisdiccion(filas: &Vec<Vec<Valor>>) -> (r: Result<Vec<Jurisdiccion>, ErrorDb>)
    ensures
        falla_de_base(r),
        r is Ok <==> forall|i: int| 0 <= i < filas@.len() ==> fila_jurisdiccion_ok(#[trigger] filas@[i]@),
        r matches Ok(v) ==> v@.len() == filas@.len() && forall|i: int| 0 <= i < v@.len() ==> es_fila_jurisdiccion(#[trigger] v@[i], filas@[i]@),
{
    let mut v: Vec<Jurisdiccion> = Vec::new();
    let mut i: usize = 0;
    while i < filas.len()
        invariant
            i <= filas@.len(),
            v@.len() == i,
            forall|k: int| 0 <= k < i ==> fila_jurisdiccion_ok(#[trigger] filas@[k]@),
            forall|k: int| 0 <= k < i ==> es_fila_jurisdiccion(#[trigger] v@[k], filas@[k]@),
        decreases filas@.len() - i,
    {
        match fila_jurisdiccion(&filas[i]) {
            Ok(x) => v.push(x),
            Err(e) => return Err(e),
        }
        i = i + 1;
    }
    Ok(v)
}

/// La fila tiene las 3 columnas de `TipoEvento` con sus tipos.
pub open spec fn fila_tipo_evento_ok(f: Seq<Valor>) -> bool {
    f.len() >= 3 && entero_de(f[0]) is Some && texto_de(f[1]) is Some && texto_de(f[2]) is Some
}

/// `x` tiene los valores de la fila.
pub open spec fn es_fila_tipo_evento(x: TipoEvento, f: Seq<Valor>) -> bool {
    Some(x.id) == entero_de(f[0])
    && Some(x.codigo@) == texto_de(f[1])
    && Some(x.nombre@) == texto_de(f[2])
}

/// `TipoEvento` de una fila.
pub fn fila_tipo_evento(f: &Vec<Valor>) -> (r: Result<TipoEvento, ErrorDb>)
    ensures
        falla_de_base(r),
        r is Ok <==> fila_tipo_evento_ok(f@),
        r matches Ok(x) ==> es_fila_tipo_evento(x, f@),
{
    if f.len() < 3 {
        return Err(ErrorDb::Sql(FILA_CORTA.to_owned()));
    }
    let id = match col_entero(f, 0) {
        Ok(v) => v,
        Err(e) => return Err(e),
    };
    let codigo = match col_texto(f, 1) {
        Ok(v) => v,
        Err(e) => return Err(e),
    };
    let nombre = match col_texto(f, 2) {
        Ok(v) => v,
        Err(e) => return Err(e),
    };
    Ok(TipoEvento { id, codigo, nombre })
}

/// `TipoEvento` de cada fila, en orden.
pub fn filas_tipo_evento(filas: &Vec<Vec<Valor>>) -> (r: Result<Vec<TipoEvento>, ErrorDb>)
    ensures
        falla_de_base(r),
        r is Ok <==> forall|i: int| 0 <= i < filas@.len() ==> fila_tipo_evento_ok(#[trigger] filas@[i]@),
        r matches Ok(v) ==> v@.len() == filas@.len() && forall|i: int| 0 <= i < v@.len() ==> es_fila_tipo_evento(#[trigger] v@[i], filas@[i]@),
{
    let mut v: Vec<TipoEvento> = Vec::new();
    let mut i: usize = 0;
    while i < filas.len()
        invariant
            i <= filas@.len(),
            v@.len() == i,
            forall|k: int| 0 <= k < i ==> fila_tipo_evento_ok(#[trigger] filas@[k]@),
            forall|k: int| 0 <= k < i ==> es_fila_tipo_evento(#[trigger] v@[k], filas@[k]@),
        decreases filas@.len() - i,
    {
        match fila_tipo_evento(&filas[i]) {
            Ok(x) => v.push(x),
            Err(e) => return Err(e),
        }
        i = i + 1;
    }
    Ok(v)
}

/// La fila tiene las 3 columnas de `TipoEvaluacion` con sus tipos.
pub open spec fn fila_tipo_evaluacion_ok(f: Seq<Valor>) -> bool {
    f.len() >= 3 && entero_de(f[0]) is Some && texto_de(f[1]) is Some && texto_de(f[2]) is Some
}

/// `x` tiene los valores de la fila.
pub open spec fn es_fila_tipo_evaluacion(x: TipoEvaluacion, f: Seq<Valor>) -> bool {
    Some(x.id) == entero_de(f[0])
    && Some(x.codigo@) == texto_de(f[1])
    && Some(x.nombre@) == texto_de(f[2])
}

/// `TipoEvaluacion` de una fila.
pub fn fila_tipo_evaluacion(f: &Vec<Valor>) -> (r: Result<TipoEvaluacion, ErrorDb>)
    ensures
        falla_de_base(r),
        r is Ok <==> fila_tipo_evaluacion_ok(f@),
        r matches Ok(x) ==> es_fila_tipo_evaluacion(x, f@),
{
    if f.len() < 3 {
        return Err(ErrorDb::Sql(FILA_CORTA.to_owned()));
    }
    let id = match col_entero(f, 0) {
        Ok(v) => v,
        Err(e) => return Err(e),
    };
    let codigo = match col_texto(f, 1) {
        Ok(v) => v,
        Err(e) => return Err(e),
    };
    let nombre = match col_texto(f, 2) {
        Ok(v) => v,
        Err(e) => return Err(e),
    };
    Ok(TipoEvaluacion { id, codigo, nombre })
}

/// `TipoEvaluacion` de cada fila, en orden.
pub fn filas_tipo_evaluacion(filas: &Vec<Vec<Valor>>) -> (r: Result<Vec<TipoEvaluacion>, ErrorDb>)
    ensures
        falla_de_base(r),
        r is Ok <==> forall|i: int| 0 <= i < filas@.len() ==> fila_tipo_evaluacion_ok(#[trigger] filas@[i]@),
        r matches Ok(v) ==> v@.len() == filas@.len() && forall|i: int| 0 <= i < v@.len() ==> es_fila_tipo_evaluacion(#[trigger] v@[i], filas@[i]@),
{
    let mut v: Vec<TipoEvaluacion> = Vec::new();
    let mut i: usize = 0;
    while i < filas.len()
        invariant
            i <= filas@.len(),
            v@.len() == i,
            forall|k: int| 0 <= k < i ==> fila_tipo_evaluacion_ok(#[trigger] filas@[k]@),
            forall|k: int| 0 <= k < i ==> es_fila_tipo_evaluacion(#[trigger] v@[k], filas@[k]@),
        decreases filas@.len() - i,
    {
        match fila_tipo_evaluacion(&filas[i]) {
            Ok(x) => v.push(x),
            Err(e) => return Err(e),
        }
        i = i + 1;
    }
    Ok(v)
}

/// La fila tiene las 3 columnas de `TipoObservacion` con sus tipos.
pub open spec fn fila_tipo_observacion_ok(f: Seq<Valor>) -> bool {
    f.len() >= 3 && entero_de(f[0]) is Some && texto_de(f[1]) is Some && texto_de(f[2]) is Some
}

/// `x` tiene los valores de la fila.
pub open spec fn es_fila_tipo_observacion(x: TipoObservacion, f: Seq<Valor>) -> bool {
    Some(x.id) == entero_de(f[0])
    && Some(x.codigo@) == texto_de(f[1])
    && Some(x.nombre@) == texto_de(f[2])
}

/// `TipoObservacion` de una fila.
pub fn fila_tipo_observacion(f: &Vec<Valor>) -> (r: Result<TipoObservacion, ErrorDb>)
    ensures
        falla_de_base(r),
        r is Ok <==> fila_tipo_observacion_ok(f@),
        r matches Ok(x) ==> es_fila_tipo_observacion(x, f@),
{
    if f.len() < 3 {
        return Err(ErrorDb::Sql(FILA_CORTA.to_owned()));
    }
    let id = match col_entero(f, 0) {
        Ok(v) => v,
        Err(e) => return Err(e),
    };
    let codigo = match col_texto(f, 1) {
        Ok(v) => v,
        Err(e) => return Err(e),
    };
    let nombre = match col_texto(f, 2) {
        Ok(v) => v,
        Err(e) => return Err(e),
    };
    Ok(TipoObservacion { id, codigo, nombre })
}

/// `TipoObservacion` de cada fila, en orden.
pub fn filas_tipo_observacion(filas: &Vec<Vec<Valor>>) -> (r: Result<Vec<TipoObservacion>, ErrorDb>)
    ensures
        falla_de_base(r),
        r is Ok <==> forall|i: int| 0 <= i < filas@.len() ==> fila_tipo_observacion_ok(#[trigger] filas@[i]@),
        r matches Ok(v) ==> v@.len() == filas@.len() && forall|i: int| 0 <= i < v@.len() ==> es_fila_tipo_observacion(#[trigger] v@[i], filas@[i]@),
{
    let mut v: Vec<TipoObservacion> = Vec::new();
    let mut i: usize = 0;
    while i < filas.len()
        invariant
            i <= filas@.len(),
            v@.len() == i,
            forall|k: int| 0 <= k < i ==> fila_tipo_observacion_ok(#[trigger] filas@[k]@),
            forall|k: int| 0 <= k < i ==> es_fila_tipo_observacion(#[trigger] v@[k], filas@[k]@),
        decreases filas@.len() - i,
    {
        match fila_tipo_observacion(&filas[i]) {
            Ok(x) => v.push(x),
            Err(e) => return Err(e),
        }
        i = i + 1;
    }
    Ok(v)
}

/// La fila tiene las 3 columnas de `EstadoAsistencia` con sus tipos.
pub open spec fn fila_estado_asistencia_ok(f: Seq<Valor>) -> bool {
    f.len() >= 3 && entero_de(f[0]) is Some && texto_de(f[1]) is Some && texto_de(f[2]) is Some
}

/// `x` tiene los valores de la fila.
pub open spec fn es_fila_estado_asistencia(x: EstadoAsistencia, f: Seq<Valor>) -> bool {
    Some(x.id) == entero_de(f[0])
    && Some(x.codigo@) == texto_de(f[1])
    && Some(x.nombre@) == texto_de(f[2])
}

/// `EstadoAsistencia` de una fila.
pub fn fila_estado_asistencia(f: &Vec<Valor>) -> (r: Result<EstadoAsistencia, ErrorDb>)
    ensures
        falla_de_base(r),
        r is Ok <==> fila_estado_asistencia_ok(f@),
        r matches Ok(x) ==> es_fila_estado_asistencia(x, f@),
{
    if f.len() < 3 {
        return Err(ErrorDb::Sql(FILA_CORTA.to_owned()));
    }
    let id = match col_entero(f, 0) {
        Ok(v) => v,
        Err(e) => return Err(e),
    };
    let codigo = match col_texto(f, 1) {
        Ok(v) => v,
        Err(e) => return Err(e),
    };
    let nombre = match col_texto(f, 2) {
        Ok(v) => v,
        Err(e) => return Err(e),
    };
    Ok(EstadoAsistencia { id, codigo, nombre })
}

/// `EstadoAsistencia` de cada fila, en orden.
pub fn filas_estado_asistencia(filas: &Vec<Vec<Valor>>) -> (r: Result<Vec<EstadoAsistencia>, ErrorDb>)
    ensures
        falla_de_base(r),
        r is Ok <==> forall|i: int| 0 <= i < filas@.len() ==> fila_estado_asistencia_ok(#[trigger] filas@[i]@),
        r matches Ok(v) ==> v@.len() == filas@.len() && forall|i: int| 0 <= i < v@.len() ==> es_fila_estado_asistencia(#[trigger] v@[i], filas@[i]@),
{
    let mut v: Vec<EstadoAsistencia> = Vec::new();
    let mut i: usize = 0;
    while i < filas.len()
        invariant
            i <= filas@.len(),
            v@.len() == i,
            forall|k: int| 0 <= k < i ==> fila_estado_asistencia_ok(#[trigger] filas@[k]@),
            forall|k: int| 0 <= k < i ==> es_fila_estado_asistencia(#[trigger] v@[k], filas@[k]@),
        decreases filas@.len() - i,
    {
        match fila_estado_asistencia(&filas[i]) {
            Ok(x) => v.push(x),
            Err(e) => return Err(e),
        }
        i = i + 1;
    }
    Ok(v)
}

/// La fila tiene las 7 columnas de `Escuela` con sus tipos.
pub open spec fn fila_escuela_ok(f: Seq<Valor>) -> bool {
    f.len() >= 7 && entero_de(f[0]) is Some && entero_de(f[1]) is Some && texto_de(f[2]) is Some && texto_opt_de(f[3]) is Some && texto_opt_de(f[4]) is Some && texto_opt_de(f[5]) is Some && texto_opt_de(f[6]) is Some
}

/// `x` tiene los valores de la fila.
pub open spec fn es_fila_escuela(x: Escuela, f: Seq<Valor>) -> bool {
    Some(x.id) == entero_de(f[0])
    && Some(x.id_jurisdiccion) == entero_de(f[1])
    && Some(x.nombre@) == texto_de(f[2])
    && Some(vista_opt(x.nombre_corto)) == texto_opt_de(f[3])
    && Some(vista_opt(x.direccion)) == texto_opt_de(f[4])
    && Some(vista_opt(x.telefono)) == texto_opt_de(f[5])
    && Some(vista_opt(x.email)) == texto_opt_de(f[6])
}

/// `Escuela` de una fila.
pub fn fila_escuela(f: &Vec<Valor>) -> (r: Result<Escuela, ErrorDb>)
    ensures
        falla_de_base(r),
        r is Ok <==> fila_escuela_ok(f@),
        r matches Ok(x) ==> es_fila_escuela(x, f@),
{
    if f.len() < 7 {
        return Err(ErrorDb::Sql(FILA_CORTA.to_owned()));
    }
    let id = match col_entero(f, 0) {
        Ok(v) => v,
        Err(e) => return Err(e),
    };
    let id_jurisdiccion = match col_entero(f, 1) {
        Ok(v) => v,
        Err(e) => return Err(e),
    };
    let nombre = match col_texto(f, 2) {
        Ok(v) => v,
        Err(e) => return Err(e),
    };
    let nombre_corto = match col_texto_opt(f, 3) {
        Ok(v) => v,
        Err(e) => return Err(e),
    };
    let direccion = match col_texto_opt(f, 4) {
        Ok(v) => v,
        Err(e) => return Err(e),
    };
    let telefono = match col_texto_opt(f, 5) {
        Ok(v) => v,
        Err(e) => return Err(e),
    };
    let email = match col_texto_opt(f, 6) {
        Ok(v) => v,
        Err(e) => return Err(e),
    };
    Ok(Escuela { id, id_jurisdiccion, nombre, nombre_corto, direccion, telefono, email })
}

/// `Escuela` de cada fila, en orden.
pub fn filas_escuela(filas: &Vec<Vec<Valor>>) -> (r: Result<Vec<Escuela>, ErrorDb>)
    ensures
        falla_de_base(r),
        r is Ok <==> forall|i: int| 0 <= i < filas@.len() ==> fila_escuela_ok(#[trigger] filas@[i]@),
        r matches Ok(v) ==> v@.len() == filas@.len() && forall|i: int| 0 <= i < v@.len() ==> es_fila_escuela(#[trigger] v@[i], filas@[i]@),
{
    let mut v: Vec<Escuela> = Vec::new();
    let mut i: usize = 0;
    while i < filas.len()
        invariant
            i <= filas@.len(),
            v@.len() == i,
            forall|k: int| 0 <= k < i ==> fila_escuela_ok(#[trigger] filas@[k]@),
            forall|k: int| 0 <= k < i ==> es_fila_escuela(#[trigger] v@[k], filas@[k]@),
        decreases filas@.len() - i,
    {
        match fila_escuela(&filas[i]) {
            Ok(x) => v.push(x),
            Err(e) => return Err(e),
        }
        i = i + 1;
    }
    Ok(v)
}

/// `Escuela` de la primera fila; "no encontrado" si no hay filas.
pub fn primera_escuela(filas: &Vec<Vec<Valor>>) -> (r: Result<Escuela, ErrorDb>)
    ensures
        falla_de_base(r),
        filas@.len() == 0 ==> r == Err::<Escuela, ErrorDb>(ErrorDb::NoEncontrado),
        filas@.len() > 0 ==> (r is Ok <==> fila_escuela_ok(filas@[0]@)),
        r matches Ok(x) ==> filas@.len() > 0 && es_fila_escuela(x, filas@[0]@),
{
    if filas.len() == 0 {
        return Err(ErrorDb::NoEncontrado);
    }
    fila_escuela(&filas[0])
}

/// La fila tiene las 2 columnas de `Materia` con sus tipos.
pub open spec fn fila_materia_ok(f: Seq<Valor>) -> bool {
    f.len() >= 2 && entero_de(f[0]) is Some && texto_de(f[1]) is Some
}

/// `x` tiene los valores de la fila.
pub open spec fn es_fila_materia(x: Materia, f: Seq<Valor>) -> bool {
    Some(x.id) == entero_de(f[0])
    && Some(x.nombre@) == texto_de(f[1])
}

/// `Materia` de una fila.
pub fn fila_materia(f: &Vec<Valor>) -> (r: Result<Materia, ErrorDb>)
    ensures
        falla_de_base(r),
        r is Ok <==> fila_materia_ok(f@),
        r matches Ok(x) ==> es_fila_materia(x, f@),
{
    if f.len() < 2 {
        return Err(ErrorDb::Sql(FILA_CORTA.to_owned()));
    }
    let id = match col_entero(f, 0) {
        Ok(v) => v,
        Err(e) => return Err(e),
    };
    let nombre = match col_texto(f, 1) {
        Ok(v) => v,
        Err(e) => return Err(e),
    };
    Ok(Materia { id, nombre })
}

/// `Materia` de cada fila, en orden.
pub fn filas_materia(filas: &Vec<Vec<Valor>>) -> (r: Result<Vec<Materia>, ErrorDb>)
    ensures
        falla_de_base(r),
        r is Ok <==> forall|i: int| 0 <= i < filas@.len() ==> fila_materia_ok(#[trigger] filas@[i]@),
        r matches Ok(v) ==> v@.len() == filas@.len() && forall|i: int| 0 <= i < v@.len() ==> es_fila_materia(#[trigger] v@[i], filas@[i]@),
{
    let mut v: Vec<Materia> = Vec::new();
    let mut i: usize = 0;
    while i < filas.len()
        invariant
            i <= filas@.len(),
            v@.len() == i,
            forall|k: int| 0 <= k < i ==> fila_materia_ok(#[trigger] filas@[k]@),
            forall|k: int| 0 <= k < i ==> es_fila_materia(#[trigger] v@[k], filas@[k]@),
        decreases filas@.len() - i,
    {
        match fila_materia(&filas[i]) {
            Ok(x) => v.push(x),
            Err(e) => return Err(e),
        }
        i = i + 1;
    }
    Ok(v)
}

/// `Materia` de la primera fila; "no encontrado" si no hay filas.
pub fn primera_materia(filas: &Vec<Vec<Valor>>) -> (r: Result<Materia, ErrorDb>)
    ensures
        falla_de_base(r),
        filas@.len() == 0 ==> r == Err::<Materia, ErrorDb>(ErrorDb::NoEncontrado),
        filas@.len() > 0 ==> (r is Ok <==> fila_materia_ok(filas@[0]@)),
        r matches Ok(x) ==> filas@.len() > 0 && es_fila_materia(x, filas@[0]@),
{
    if filas.len() == 0 {
        return Err(ErrorDb::NoEncontrado);
    }
    fila_materia(&filas[0])
}

/// La fila tiene las 9 columnas de `Curso` con sus tipos.
pub open spec fn fila_curso_ok(f: Seq<Valor>) -> bool {
    f.len() >= 9 && entero_de(f[0]) is Some && texto_de(f[1]) is Some && entero_de(f[2]) is Some && entero_de(f[3]) is Some && entero_de(f[4]) is Some && entero_de(f[5]) is Some && entero_de(f[6]) is Some && entero_de(f[7]) is Some && texto_opt_de(f[8]) is Some
}

/// `x` tiene los valores de la fila.
pub open spec fn es_fila_curso(x: Curso, f: Seq<Valor>) -> bool {
    Some(x.id) == entero_de(f[0])
    && Some(x.nombre@) == texto_de(f[1])
    && Some(x.id_escuela) == entero_de(f[2])
    && Some(x.id_turno) == entero_de(f[3])
    && Some(x.id_division) == entero_de(f[4])
    && Some(x.id_ciclo) == entero_de(f[5])
    && Some(x.id_materia) == entero_de(f[6])
    && Some(x.id_anio_lectivo) == entero_de(f[7])
    && Some(vista_opt(x.orientacion)) == texto_opt_de(f[8])
}

/// `Curso` de una fila.
pub fn fila_curso(f: &Vec<Valor>) -> (r: Result<Curso, ErrorDb>)
    ensures
        falla_de_base(r),
        r is Ok <==> fila_curso_ok(f@),
        r matches Ok(x) ==> es_fila_curso(x, f@),
{
    if f.len() < 9 {
        return Err(ErrorDb::Sql(FILA_CORTA.to_owned()));
    }
    let id = match col_entero(f, 0) {
        Ok(v) => v,
        Err(e) => return Err(e),
    };
    let nombre = match col_texto(f, 1) {
        Ok(v) => v,
        Err(e) => return Err(e),
    };
    let id_escuela = match col_entero(f, 2) {
        Ok(v) => v,
        Err(e) => return Err(e),
    };
    let id_turno = match col_entero(f, 3) {
        Ok(v) => v,
        Err(e) => return Err(e),
    };
    let id_division = match col_entero(f, 4) {
        Ok(v) => v,
        Err(e) => return Err(e),
    };
    let id_ciclo = match col_entero(f, 5) {
        Ok(v) => v,
        Err(e) => return Err(e),
    };
    let id_materia = match col_entero(f, 6) {
        Ok(v) => v,
        Err(e) => return Err(e),
    };
    let id_anio_lectivo = match col_entero(f, 7) {
        Ok(v) => v,
        Err(e) => return Err(e),
    };
    let orientacion = match col_texto_opt(f, 8) {
        Ok(v) => v,
        Err(e) => return Err(e),
    };
    Ok(Curso { id, nombre, id_escuela, id_turno, id_division, id_ciclo, id_materia, id_anio_lectivo, orientacion })
}

/// `Curso` de cada fila, en orden.
pub fn filas_curso(filas: &Vec<Vec<Valor>>) -> (r: Result<Vec<Curso>, ErrorDb>)
    ensures
        falla_de_base(r),
        r is Ok <==> forall|i: int| 0 <= i < filas@.len() ==> fila_curso_ok(#[trigger] filas@[i]@),
        r matches Ok(v) ==> v@.len() == filas@.len() && forall|i: int| 0 <= i < v@.len() ==> es_fila_curso(#[trigger] v@[i], filas@[i]@),
{
    let mut v: Vec<Curso> = Vec::new();
    let mut i: usize = 0;
    while i < filas.len()
        invariant
            i <= filas@.len(),
            v@.len() == i,
            forall|k: int| 0 <= k < i ==> fila_curso_ok(#[trigger] filas@[k]@),
            forall|k: int| 0 <= k < i ==> es_fila_curso(#[trigger] v@[k], filas@[k]@),
        decreases filas@.len() - i,
    {
        match fila_curso(&filas[i]) {
            Ok(x) => v.push(x),
            Err(e) => return Err(e),
        }
        i = i + 1;
    }
    Ok(v)
}

/// `Curso` de la primera fila; "no encontrado" si no hay filas.
pub fn primera_curso(filas: &Vec<Vec<Valor>>) -> (r: Result<Curso, ErrorDb>)
    ensures
        falla_de_base(r),
        filas@.len() == 0 ==> r == Err::<Curso, ErrorDb>(ErrorDb::NoEncontrado),
        filas@.len() > 0 ==> (r is Ok <==> fila_curso_ok(filas@[0]@)),
        r matches Ok(x) ==> filas@.len() > 0 && es_fila_curso(x, filas@[0]@),
{
    if filas.len() == 0 {
        return Err(ErrorDb::NoEncontrado);
    }
    fila_curso(&filas[0])
}

/// La fila tiene las 3 columnas de `Alumno` con sus tipos.
pub open spec fn fila_alumno_ok(f: Seq<Valor>) -> bool {
    f.len() >= 3 && entero_de(f[0]) is Some && texto_de(f[1]) is Some && texto_de(f[2]) is Some
}

/// `x` tiene los valores de la fila.
pub open spec fn es_fila_alumno(x: Alumno, f: Seq<Valor>) -> bool {
    Some(x.id) == entero_de(f[0])
    && Some(x.nombre@) == texto_de(f[1])
    && Some(x.apellido@) == texto_de(f[2])
}

/// `Alumno` de una fila.
pub fn fila_alumno(f: &Vec<Valor>) -> (r: Result<Alumno, ErrorDb>)
    ensures
        falla_de_base(r),
        r is Ok <==> fila_alumno_ok(f@),
        r matches Ok(x) ==> es_fila_alumno(x, f@),
{
    if f.len() < 3 {
        return Err(ErrorDb::Sql(FILA_CORTA.to_owned()));
    }
    let id = match col_entero(f, 0) {
        Ok(v) => v,
        Err(e) => return Err(e),
    };
    let nombre = match col_texto(f, 1) {
        Ok(v) => v,
        Err(e) => return Err(e),
    };
    let apellido = match col_texto(f, 2) {
        Ok(v) => v,
        Err(e) => return Err(e),
    };
    Ok(Alumno { id, nombre, apellido })
}

/// `Alumno` de cada fila, en orden.
pub fn filas_alumno(filas: &Vec<Vec<Valor>>) -> (r: Result<Vec<Alumno>, ErrorDb>)
    ensures
        falla_de_base(r),
        r is Ok <==> forall|i: int| 0 <= i < filas@.len() ==> fila_alumno_ok(#[trigger] filas@[i]@),
        r matches Ok(v) ==> v@.len() == filas@.len() && forall|i: int| 0 <= i < v@.len() ==> es_fila_alumno(#[trigger] v@[i], filas@[i]@),
{
    let mut v: Vec<Alumno> = Vec::new();
    let mut i: usize = 0;
    while i < filas.len()
        invariant
            i <= filas@.len(),
            v@.len() == i,
            forall|k: int| 0 <= k < i ==> fila_alumno_ok(#[trigger] filas@[k]@),
            forall|k: int| 0 <= k < i ==> es_fila_alumno(#[trigger] v@[k], filas@[k]@),
        decreases filas@.len() - i,
    {
        match fila_alumno(&filas[i]) {
            Ok(x) => v.push(x),
            Err(e) => return Err(e),
        }
        i = i + 1;
    }
    Ok(v)
}

/// `Alumno` de la primera fila; "no encontrado" si no hay filas.
pub fn primera_alumno(filas: &Vec<Vec<Valor>>) -> (r: Result<Alumno, ErrorDb>)
    ensures
        falla_de_base(r),
        filas@.len() == 0 ==> r == Err::<Alumno, ErrorDb>(ErrorDb::NoEncontrado),
        filas@.len() > 0 ==> (r is Ok <==> fila_alumno_ok(filas@[0]@)),
        r matches Ok(x) ==> filas@.len() > 0 && es_fila_alumno(x, filas@[0]@),
{
    if filas.len() == 0 {
        return Err(ErrorDb::NoEncontrado);
    }
    fila_alumno(&filas[0])
}

/// La fila tiene las 3 columnas de `AlumnoCurso` con sus tipos.
pub open spec fn fila_alumno_curso_ok(f: Seq<Valor>) -> bool {
    f.len() >= 3 && entero_de(f[0]) is Some && entero_de(f[1]) is Some && entero_de(f[2]) is Some
}

/// `x` tiene los valores de la fila.
pub open spec fn es_fila_alumno_curso(x: AlumnoCurso, f: Seq<Valor>) -> bool {
    Some(x.id) == entero_de(f[0])
    && Some(x.id_alumno) == entero_de(f[1])
    && Some(x.id_curso) == entero_de(f[2])
}

/// `AlumnoCurso` de una fila.
pub fn fila_alumno_curso(f: &Vec<Valor>) -> (r: Result<AlumnoCurso, ErrorDb>)
    ensures
        falla_de_base(r),
        r is Ok <==> fila_alumno_curso_ok(f@),
        r matches Ok(x) ==> es_fila_alumno_curso(x, f@),
{
    if f.len() < 3 {
        return Err(ErrorDb::Sql(FILA_CORTA.to_owned()));
    }
    let id = match col_entero(f, 0) {
        Ok(v) => v,
        Err(e) => return Err(e),
    };
    let id_alumno = match col_entero(f, 1) {
        Ok(v) => v,
        Err(e) => return Err(e),
    };
    let id_curso = match col_entero(f, 2) {
        Ok(v) => v,
        Err(e) => return Err(e),
    };
    Ok(AlumnoCurso { id, id_alumno, id_curso })
}

/// `AlumnoCurso` de cada fila, en orden.
pub fn filas_alumno_curso(filas: &Vec<Vec<Valor>>) -> (r: Result<Vec<AlumnoCurso>, ErrorDb>)
    ensures
        falla_de_base(r),
        r is Ok <==> forall|i: int| 0 <= i < filas@.len() ==> fila_alumno_curso_ok(#[trigger] filas@[i]@),
        r matches Ok(v) ==> v@.len() == filas@.len() && forall|i: int| 0 <= i < v@.len() ==> es_fila_alumno_curso(#[trigger] v@[i], filas@[i]@),
{
    let mut v: Vec<AlumnoCurso> = Vec::new();
    let mut i: usize = 0;
    while i < filas.len()
        invariant
            i <= filas@.len(),
            v@.len() == i,
            forall|k: int| 0 <= k < i ==> fila_alumno_curso_ok(#[trigger] filas@[k]@),
            forall|k: int| 0 <= k < i ==> es_fila_alumno_curso(#[trigger] v@[k], filas@[k]@),
        decreases filas@.len() - i,
    {
        match fila_alumno_curso(&filas[i]) {
            Ok(x) => v.push(x),
            Err(e) => return Err(e),
        }
        i = i + 1;
    }
    Ok(v)
}

/// `AlumnoCurso` de la primera fila; "no encontrado" si no hay filas.
pub fn primera_alumno_curso(filas: &Vec<Vec<Valor>>) -> (r: Result<AlumnoCurso, ErrorDb>)
    ensures
        falla_de_base(r),
        filas@.len() == 0 ==> r == Err::<AlumnoCurso, ErrorDb>(ErrorDb::NoEncontrado),
        filas@.len() > 0 ==> (r is Ok <==> fila_alumno_curso_ok(filas@[0]@)),
        r matches Ok(x) ==> filas@.len() > 0 && es_fila_alumno_curso(x, filas@[0]@),
{
    if filas.len() == 0 {
        return Err(ErrorDb::NoEncontrado);
    }
    fila_alumno_curso(&filas[0])
}

/// La fila tiene las 6 columnas de `Horario` con sus tipos.
pub open spec fn fila_horario_ok(f: Seq<Valor>) -> bool {
    f.len() >= 6 && entero_de(f[0]) is Some && entero_de(f[1]) is Some && entero_de(f[2]) is Some && texto_de(f[3]) is Some && texto_de(f[4]) is Some && texto_opt_de(f[5]) is Some
}

/// `x` tiene los valores de la fila.
pub open spec fn es_fila_horario(x: Horario, f: Seq<Valor>) -> bool {
    Some(x.id) == entero_de(f[0])
    && Some(x.id_curso) == entero_de(f[1])
    && Some(x.dia_semana) == entero_de(f[2])
    && Some(x.hora_inicio@) == texto_de(f[3])
    && Some(x.hora_fin@) == texto_de(f[4])
    && Some(vista_opt(x.aula)) == texto_opt_de(f[5])
}

/// `Horario` de una fila.
pub fn fila_horario(f: &Vec<Valor>) -> (r: Result<Horario, ErrorDb>)
    ensures
        falla_de_base(r),
        r is Ok <==> fila_horario_ok(f@),
        r matches Ok(x) ==> es_fila_horario(x, f@),
{
    if f.len() < 6 {
        return Err(ErrorDb::Sql(FILA_CORTA.to_owned()));
    }
    let id = match col_entero(f, 0) {
        Ok(v) => v,
        Err(e) => return Err(e),
    };
    let id_curso = match col_entero(f, 1) {
        Ok(v) => v,
        Err(e) => return Err(e),
    };
    let dia_semana = match col_entero(f, 2) {
        Ok(v) => v,
        Err(e) => return Err(e),
    };
    let hora_inicio = match col_texto(f, 3) {
        Ok(v) => v,
        Err(e) => return Err(e),
    };
    let hora_fin = match col_texto(f, 4) {
        Ok(v) => v,
        Err(e) => return Err(e),
    };
    let aula = match col_texto_opt(f, 5) {
        Ok(v) => v,
        Err(e) => return Err(e),
    };
    Ok(Horario { id, id_curso, dia_semana, hora_inicio, hora_fin, aula })
}

/// `Horario` de cada fila, en orden.
pub fn filas_horario(filas: &Vec<Vec<Valor>>) -> (r: Result<Vec<Horario>, ErrorDb>)
    ensures
        falla_de_base(r),
        r is Ok <==> forall|i: int| 0 <= i < filas@.len() ==> fila_horario_ok(#[trigger] filas@[i]@),
        r matches Ok(v) ==> v@.len() == filas@.len() && forall|i: int| 0 <= i < v@.len() ==> es_fila_horario(#[trigger] v@[i], filas@[i]@),
{
    let mut v: Vec<Horario> = Vec::new();
    let mut i: usize = 0;
    while i < filas.len()
        invariant
            i <= filas@.len(),
            v@.len() == i,
            forall|k: int| 0 <= k < i ==> fila_horario_ok(#[trigger] filas@[k]@),
            forall|k: int| 0 <= k < i ==> es_fila_horario(#[trigger] v@[k], filas@[k]@),
        decreases filas@.len() - i,
    {
        match fila_horario(&filas[i]) {
            Ok(x) => v.push(x),
            Err(e) => return Err(e),
        }
        i = i + 1;
    }
    Ok(v)
}

/// `Horario` de la primera fila; "no encontrado" si no hay filas.
pub fn primera_horario(filas: &Vec<Vec<Valor>>) -> (r: Result<Horario, ErrorDb>)
    ensures
        falla_de_base(r),
        filas@.len() == 0 ==> r == Err::<Horario, ErrorDb>(ErrorDb::NoEncontrado),
        filas@.len() > 0 ==> (r is Ok <==> fila_horario_ok(filas@[0]@)),
        r matches Ok(x) ==> filas@.len() > 0 && es_fila_horario(x, filas@[0]@),
{
    if filas.len() == 0 {
        return Err(ErrorDb::NoEncontrado);
    }
    fila_horario(&filas[0])
}

/// La fila tiene las 7 columnas de `Evento` con sus tipos.
pub open spec fn fila_evento_ok(f: Seq<Valor>) -> bool {
    f.len() >= 7 && entero_de(f[0]) is Some && entero_opt_de(f[1]) is Some && entero_de(f[2]) is Some && texto_de(f[3]) is Some && texto_opt_de(f[4]) is Some && texto_de(f[5]) is Some && texto_opt_de(f[6]) is Some
}

/// `x` tiene los valores de la fila.
pub open spec fn es_fila_evento(x: Evento, f: Seq<Valor>) -> bool {
    Some(x.id) == entero_de(f[0])
    && Some(x.id_curso) == entero_opt_de(f[1])
    && Some(x.id_tipo_evento) == entero_de(f[2])
    && Some(x.fecha@) == texto_de(f[3])
    && Some(vista_opt(x.hora)) == texto_opt_de(f[4])
    && Some(x.titulo@) == texto_de(f[5])
    && Some(vista_opt(x.descripcion)) == texto_opt_de(f[6])
}

/// `Evento` de una fila.
pub fn fila_evento(f: &Vec<Valor>) -> (r: Result<Evento, ErrorDb>)
    ensures
        falla_de_base(r),
        r is Ok <==> fila_evento_ok(f@),
        r matches Ok(x) ==> es_fila_evento(x, f@),
{
    if f.len() < 7 {
        return Err(ErrorDb::Sql(FILA_CORTA.to_owned()));
    }
    let id = match col_entero(f, 0) {
        Ok(v) => v,
        Err(e) => return Err(e),
    };
    let id_curso = match col_entero_opt(f, 1) {
        Ok(v) => v,
        Err(e) => return Err(e),
    };
    let id_tipo_evento = match col_entero(f, 2) {
        Ok(v) => v,
        Err(e) => return Err(e),
    };
    let fecha = match col_texto(f, 3) {
        Ok(v) => v,
        Err(e) => return Err(e),
    };
    let hora = match col_texto_opt(f, 4) {
        Ok(v) => v,
        Err(e) => return Err(e),
    };
    let titulo = match col_texto(f, 5) {
        Ok(v) => v,
        Err(e) => return Err(e),
    };
    let descripcion = match col_texto_opt(f, 6) {
        Ok(v) => v,
        Err(e) => return Err(e),
    };
    Ok(Evento { id, id_curso, id_tipo_evento, fecha, hora, titulo, descripcion })
}

/// `Evento` de cada fila, en orden.
pub fn filas_evento(filas: &Vec<Vec<Valor>>) -> (r: Result<Vec<Evento>, ErrorDb>)
    ensures
        falla_de_base(r),
        r is Ok <==> forall|i: int| 0 <= i < filas@.len() ==> fila_evento_ok(#[trigger] filas@[i]@),
        r matches Ok(v) ==> v@.len() == filas@.len() && forall|i: int| 0 <= i < v@.len() ==> es_fila_evento(#[trigger] v@[i], filas@[i]@),
{
    let mut v: Vec<Evento> = Vec::new();
    let mut i: usize = 0;
    while i < filas.len()
        invariant
            i <= filas@.len(),
            v@.len() == i,
            forall|k: int| 0 <= k < i ==> fila_evento_ok(#[trigger] filas@[k]@),
            forall|k: int| 0 <= k < i ==> es_fila_evento(#[trigger] v@[k], filas@[k]@),
        decreases filas@.len() - i,
    {
        match fila_evento(&filas[i]) {
            Ok(x) => v.push(x),
            Err(e) => return Err(e),
        }
        i = i + 1;
    }
    Ok(v)
}

/// `Evento` de la primera fila; "no encontrado" si no hay filas.
pub fn primera_evento(filas: &Vec<Vec<Valor>>) -> (r: Result<Evento, ErrorDb>)
    ensures
        falla_de_base(r),
        filas@.len() == 0 ==> r == Err::<Evento, ErrorDb>(ErrorDb::NoEncontrado),
        filas@.len() > 0 ==> (r is Ok <==> fila_evento_ok(filas@[0]@)),
        r matches Ok(x) ==> filas@.len() > 0 && es_fila_evento(x, filas@[0]@),
{
    if filas.len() == 0 {
        return Err(ErrorDb::NoEncontrado);
    }
    fila_evento(&filas[0])
}

/// La fila tiene las 8 columnas de `Evaluacion` con sus tipos.
pub open spec fn fila_evaluacion_ok(f: Seq<Valor>) -> bool {
    f.len() >= 8 && entero_de(f[0]) is Some && entero_de(f[1]) is Some && entero_de(f[2]) is Some && entero_opt_de(f[3]) is Some && texto_de(f[4]) is Some && texto_de(f[5]) is Some && texto_opt_de(f[6]) is Some && texto_de(f[7]) is Some
}

/// `x` tiene los valores de la fila.
pub open spec fn es_fila_evaluacion(x: Evaluacion, f: Seq<Valor>) -> bool {
    Some(x.id) == entero_de(f[0])
    && Some(x.id_curso) == entero_de(f[1])
    && Some(x.id_tipo_evaluacion) == entero_de(f[2])
    && Some(x.id_evaluacion_origen) == entero_opt_de(f[3])
    && Some(x.titulo@) == texto_de(f[4])
    && Some(x.fecha@) == texto_de(f[5])
    && Some(vista_opt(x.tema)) == texto_opt_de(f[6])
    && Some(x.ponderacion@) == texto_de(f[7])
}

/// `Evaluacion` de una fila.
pub fn fila_evaluacion(f: &Vec<Valor>) -> (r: Result<Evaluacion, ErrorDb>)
    ensures
        falla_de_base(r),
        r is Ok <==> fila_evaluacion_ok(f@),
        r matches Ok(x) ==> es_fila_evaluacion(x, f@),
{
    if f.len() < 8 {
        return Err(ErrorDb::Sql(FILA_CORTA.to_owned()));
    }
    let id = match col_entero(f, 0) {
        Ok(v) => v,
        Err(e) => return Err(e),
    };
    let id_curso = match col_entero(f, 1) {
        Ok(v) => v,
        Err(e) => return Err(e),
    };
    let id_tipo_evaluacion = match col_entero(f, 2) {
        Ok(v) => v,
        Err(e) => return Err(e),
    };
    let id_evaluacion_origen = match col_entero_opt(f, 3) {
        Ok(v) => v,
        Err(e) => return Err(e),
    };
    let titulo = match col_texto(f, 4) {
        Ok(v) => v,
        Err(e) => return Err(e),
    };
    let fecha = match col_texto(f, 5) {
        Ok(v) => v,
        Err(e) => return Err(e),
    };
    let tema = match col_texto_opt(f, 6) {
        Ok(v) => v,
        Err(e) => return Err(e),
    };
    let ponderacion = match col_texto(f, 7) {
        Ok(v) => v,
        Err(e) => return Err(e),
    };
    Ok(Evaluacion { id, id_curso, id_tipo_evaluacion, id_evaluacion_origen, titulo, fecha, tema, ponderacion })
}

/// `Evaluacion` de cada fila, en orden.
pub fn filas_evaluacion(filas: &Vec<Vec<Valor>>) -> (r: Result<Vec<Evaluacion>, ErrorDb>)
    ensures
        falla_de_base(r),
        r is Ok <==> forall|i: int| 0 <= i < filas@.len() ==> fila_evaluacion_ok(#[trigger] filas@[i]@),
        r matches Ok(v) ==> v@.len() == filas@.len() && forall|i: int| 0 <= i < v@.len() ==> es_fila_evaluacion(#[trigger] v@[i], filas@[i]@),
{
    let mut v: Vec<Evaluacion> = Vec::new();
    let mut i: usize = 0;
    while i < filas.len()
        invariant
            i <= filas@.len(),
            v@.len() == i,
            forall|k: int| 0 <= k < i ==> fila_evaluacion_ok(#[trigger] filas@[k]@),
            forall|k: int| 0 <= k < i ==> es_fila_evaluacion(#[trigger] v@[k], filas@[k]@),
        decreases filas@.len() - i,
    {
        match fila_evaluacion(&filas[i]) {
            Ok(x) => v.push(x),
            Err(e) => return Err(e),
        }
        i = i + 1;
    }
    Ok(v)
}

/// `Evaluacion` de la primera fila; "no encontrado" si no hay filas.
pub fn primera_evaluacion(filas: &Vec<Vec<Valor>>) -> (r: Result<Evaluacion, ErrorDb>)
    ensures
        falla_de_base(r),
        filas@.len() == 0 ==> r == Err::<Evaluacion, ErrorDb>(ErrorDb::NoEncontrado),
        filas@.len() > 0 ==> (r is Ok <==> fila_evaluacion_ok(filas@[0]@)),
        r matches Ok(x) ==> filas@.len() > 0 && es_fila_evaluacion(x, filas@[0]@),
{
    if filas.len() == 0 {
        return Err(ErrorDb::NoEncontrado);
    }
    fila_evaluacion(&filas[0])
}

/// `Evaluacion` de la primera fila, o `None` si no hay filas.
pub fn primera_evaluacion_opcional(filas: &Vec<Vec<Valor>>) -> (r: Result<Option<Evaluacion>, ErrorDb>)
    ensures
        falla_de_base(r),
        filas@.len() == 0 ==> r == Ok::<Option<Evaluacion>, ErrorDb>(None),
        filas@.len() > 0 ==> (r is Ok <==> fila_evaluacion_ok(filas@[0]@)),
        r matches Ok(Some(x)) ==> filas@.len() > 0 && es_fila_evaluacion(x, filas@[0]@),
{
    if filas.len() == 0 {
        return Ok(None);
    }
    match fila_evaluacion(&filas[0]) {
        Ok(x) => Ok(Some(x)),
        Err(e) => Err(e),
    }
}

/// La fila tiene las 6 columnas de `Nota` con sus tipos.
pub open spec fn fila_nota_ok(f: Seq<Valor>) -> bool {
    f.len() >= 6 && entero_de(f[0]) is Some && entero_de(f[1]) is Some && entero_de(f[2]) is Some && texto_opt_de(f[3]) is Some && entero_de(f[4]) is Some && texto_opt_de(f[5]) is Some
}

/// `x` tiene los valores de la fila.
pub open spec fn es_fila_nota(x: Nota, f: Seq<Valor>) -> bool {
    Some(x.id) == entero_de(f[0])
    && Some(x.id_evaluacion) == entero_de(f[1])
    && Some(x.id_alumno) == entero_de(f[2])
    && Some(vista_opt(x.valor)) == texto_opt_de(f[3])
    && Some(x.ausente) == entero_de(f[4])
    && Some(vista_opt(x.comentario)) == texto_opt_de(f[5])
}

/// `Nota` de una fila.
pub fn fila_nota(f: &Vec<Valor>) -> (r: Result<Nota, ErrorDb>)
    ensures
        falla_de_base(r),
        r is Ok <==> fila_nota_ok(f@),
        r matches Ok(x) ==> es_fila_nota(x, f@),
{
    if f.len() < 6 {
        return Err(ErrorDb::Sql(FILA_CORTA.to_owned()));
    }
    let id = match col_entero(f, 0) {
        Ok(v) => v,
        Err(e) => return Err(e),
    };
    let id_evaluacion = match col_entero(f, 1) {
        Ok(v) => v,
        Err(e) => return Err(e),
    };
    let id_alumno = match col_entero(f, 2) {
        Ok(v) => v,
        Err(e) => return Err(e),
    };
    let valor = match col_texto_opt(f, 3) {
        Ok(v) => v,
        Err(e) => return Err(e),
    };
    let ausente = match col_entero(f, 4) {
        Ok(v) => v,
        Err(e) => return Err(e),
    };
    let comentario = match col_texto_opt(f, 5) {
        Ok(v) => v,
        Err(e) => return Err(e),
    };
    Ok(Nota { id, id_evaluacion, id_alumno, valor, ausente, comentario })
}

/// `Nota` de cada fila, en orden.
pub fn filas_nota(filas: &Vec<Vec<Valor>>) -> (r: Result<Vec<Nota>, ErrorDb>)
    ensures
        falla_de_base(r),
        r is Ok <==> forall|i: int| 0 <= i < filas@.len() ==> fila_nota_ok(#[trigger] filas@[i]@),
        r matches Ok(v) ==> v@.len() == filas@.len() && forall|i: int| 0 <= i < v@.len() ==> es_fila_nota(#[trigger] v@[i], filas@[i]@),
{
    let mut v: Vec<Nota> = Vec::new();
    let mut i: usize = 0;
    while i < filas.len()
        invariant
            i <= filas@.len(),
            v@.len() == i,
            forall|k: int| 0 <= k < i ==> fila_nota_ok(#[trigger] filas@[k]@),
            forall|k: int| 0 <= k < i ==> es_fila_nota(#[trigger] v@[k], filas@[k]@),
        decreases filas@.len() - i,
    {
        match fila_nota(&filas[i]) {
            Ok(x) => v.push(x),
            Err(e) => return Err(e),
        }
        i = i + 1;
    }
    Ok(v)
}

/// `Nota` de la primera fila, o `None` si no hay filas.
pub fn primera_nota_opcional(filas: &Vec<Vec<Valor>>) -> (r: Result<Option<Nota>, ErrorDb>)
    ensures
        falla_de_base(r),
        filas@.len() == 0 ==> r == Ok::<Option<Nota>, ErrorDb>(None),
        filas@.len() > 0 ==> (r is Ok <==> fila_nota_ok(filas@[0]@)),
        r matches Ok(Some(x)) ==> filas@.len() > 0 && es_fila_nota(x, filas@[0]@),
{
    if filas.len() == 0 {
        return Ok(None);
    }
    match fila_nota(&filas[0]) {
        Ok(x) => Ok(Some(x)),
        Err(e) => Err(e),
    }
}

/// La fila tiene las 6 columnas de `Observacion` con sus tipos.
pub open spec fn fila_observacion_ok(f: Seq<Valor>) -> bool {
    f.len() >= 6 && entero_de(f[0]) is Some && entero_de(f[1]) is Some && entero_de(f[2]) is Some && entero_de(f[3]) is Some && texto_de(f[4]) is Some && texto_de(f[5]) is Some
}

/// `x` tiene los valores de la fila.
pub open spec fn es_fila_observacion(x: Observacion, f: Seq<Valor>) -> bool {
    Some(x.id) == entero_de(f[0])
    && Some(x.id_alumno) == entero_de(f[1])
    && Some(x.id_curso) == entero_de(f[2])
    && Some(x.id_tipo_observacion) == entero_de(f[3])
    && Some(x.fecha@) == texto_de(f[4])
    && Some(x.texto@) == texto_de(f[5])
}

/// `Observacion` de una fila.
pub fn fila_observacion(f: &Vec<Valor>) -> (r: Result<Observacion, ErrorDb>)
    ensures
        falla_de_base(r),
        r is Ok <==> fila_observacion_ok(f@),
        r matches Ok(x) ==> es_fila_observacion(x, f@),
{
    if f.len() < 6 {
        return Err(ErrorDb::Sql(FILA_CORTA.to_owned()));
    }
    let id = match col_entero(f, 0) {
        Ok(v) => v,
        Err(e) => return Err(e),
    };
    let id_alumno = match col_entero(f, 1) {
        Ok(v) => v,
        Err(e) => return Err(e),
    };
    let id_curso = match col_entero(f, 2) {
        Ok(v) => v,
        Err(e) => return Err(e),
    };
    let id_tipo_observacion = match col_entero(f, 3) {
        Ok(v) => v,
        Err(e) => return Err(e),
    };
    let fecha = match col_texto(f, 4) {
        Ok(v) => v,
        Err(e) => return Err(e),
    };
    let texto = match col_texto(f, 5) {
        Ok(v) => v,
        Err(e) => return Err(e),
    };
    Ok(Observacion { id, id_alumno, id_curso, id_tipo_observacion, fecha, texto })
}

/// `Observacion` de cada fila, en orden.
pub fn filas_observacion(filas: &Vec<Vec<Valor>>) -> (r: Result<Vec<Observacion>, ErrorDb>)
    ensures
        falla_de_base(r),
        r is Ok <==> forall|i: int| 0 <= i < filas@.len() ==> fila_observacion_ok(#[trigger] filas@[i]@),
        r matches Ok(v) ==> v@.len() == filas@.len() && forall|i: int| 0 <= i < v@.len() ==> es_fila_observacion(#[trigger] v@[i], filas@[i]@),
{
    let mut v: Vec<Observacion> = Vec::new();
    let mut i: usize = 0;
    while i < filas.len()
        invariant
            i <= filas@.len(),
            v@.len() == i,
            forall|k: int| 0 <= k < i ==> fila_observacion_ok(#[trigger] filas@[k]@),
            forall|k: int| 0 <= k < i ==> es_fila_observacion(#[trigger] v@[k], filas@[k]@),
        decreases filas@.len() - i,
    {
        match fila_observacion(&filas[i]) {
            Ok(x) => v.push(x),
            Err(e) => return Err(e),
        }
        i = i + 1;
    }
    Ok(v)
}

/// `Observacion` de la primera fila; "no encontrado" si no hay filas.
pub fn primera_observacion(filas: &Vec<Vec<Valor>>) -> (r: Result<Observacion, ErrorDb>)
    ensures
        falla_de_base(r),
        filas@.len() == 0 ==> r == Err::<Observacion, ErrorDb>(ErrorDb::NoEncontrado),
        filas@.len() > 0 ==> (r is Ok <==> fila_observacion_ok(filas@[0]@)),
        r matches Ok(x) ==> filas@.len() > 0 && es_fila_observacion(x, filas@[0]@),
{
    if filas.len() == 0 {
        return Err(ErrorDb::NoEncontrado);
    }
    fila_observacion(&filas[0])
}

/// La fila tiene las 5 columnas de `Asistencia` con sus tipos.
pub open spec fn fila_asistencia_ok(f: Seq<Valor>) -> bool {
    f.len() >= 5 && entero_de(f[0]) is Some && entero_de(f[1]) is Some && entero_de(f[2]) is Some && texto_de(f[3]) is Some && entero_de(f[4]) is Some
}

/// `x` tiene los valores de la fila.
pub open spec fn es_fila_asistencia(x: Asistencia, f: Seq<Valor>) -> bool {
    Some(x.id) == entero_de(f[0])
    && Some(x.id_curso) == entero_de(f[1])
    && Some(x.id_alumno) == entero_de(f[2])
    && Some(x.fecha@) == texto_de(f[3])
    && Some(x.id_estado_asistencia) == entero_de(f[4])
}

/// `Asistencia` de una fila.
pub fn fila_asistencia(f: &Vec<Valor>) -> (r: Result<Asistencia, ErrorDb>)
    ensures
        falla_de_base(r),
        r is Ok <==> fila_asistencia_ok(f@),
        r matches Ok(x) ==> es_fila_asistencia(x, f@),
{
    if f.len() < 5 {
        return Err(ErrorDb::Sql(FILA_CORTA.to_owned()));
    }
    let id = match col_entero(f, 0) {
        Ok(v) => v,
        Err(e) => return Err(e),
    };
    let id_curso = match col_entero(f, 1) {
        Ok(v) => v,
        Err(e) => return Err(e),
    };
    let id_alumno = match col_entero(f, 2) {
        Ok(v) => v,
        Err(e) => return Err(e),
    };
    let fecha = match col_texto(f, 3) {
        Ok(v) => v,
        Err(e) => return Err(e),
    };
    let id_estado_asistencia = match col_entero(f, 4) {
        Ok(v) => v,
        Err(e) => return Err(e),
    };
    Ok(Asistencia { id, id_curso, id_alumno, fecha, id_estado_asistencia })
}

/// `Asistencia` de cada fila, en orden.
pub fn filas_asistencia(filas: &Vec<Vec<Valor>>) -> (r: Result<Vec<Asistencia>, ErrorDb>)
    ensures
        falla_de_base(r),
        r is Ok <==> forall|i: int| 0 <= i < filas@.len() ==> fila_asistencia_ok(#[trigger] filas@[i]@),
        r matches Ok(v) ==> v@.len() == filas@.len() && forall|i: int| 0 <= i < v@.len() ==> es_fila_asistencia(#[trigger] v@[i], filas@[i]@),
{
    let mut v: Vec<Asistencia> = Vec::new();
    let mut i: usize = 0;
    while i < filas.len()
        invariant
            i <= filas@.len(),
            v@.len() == i,
            forall|k: int| 0 <= k < i ==> fila_asistencia_ok(#[trigger] filas@[k]@),
            forall|k: int| 0 <= k < i ==> es_fila_asistencia(#[trigger] v@[k], filas@[k]@),
        decreases filas@.len() - i,
    {
        match fila_asistencia(&filas[i]) {
            Ok(x) => v.push(x),
            Err(e) => return Err(e),
        }
        i = i + 1;
    }
    Ok(v)
}

/// `Asistencia` de la primera fila, o `None` si no hay filas.
pub fn primera_asistencia_opcional(filas: &Vec<Vec<Valor>>) -> (r: Result<Option<Asistencia>, ErrorDb>)
    ensures
        falla_de_base(r),
        filas@.len() == 0 ==> r == Ok::<Option<Asistencia>, ErrorDb>(None),
        filas@.len() > 0 ==> (r is Ok <==> fila_asistencia_ok(filas@[0]@)),
        r matches Ok(Some(x)) ==> filas@.len() > 0 && es_fila_asistencia(x, filas@[0]@),
{
    if filas.len() == 0 {
        return Ok(None);
    }
    match fila_asistencia(&filas[0]) {
        Ok(x) => Ok(Some(x)),
        Err(e) => Err(e),
    }
}

} // verus!
