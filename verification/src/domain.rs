//! Tipos del dominio: filas de la base y datos de alta o edición.

use vstd::prelude::*;

verus! {

pub const JURISDICCION_CODIGOS: [&'static str; 3] = ["pba", "caba", "otra"];
pub const NIVEL_CODIGOS: [&'static str; 2] = ["primaria", "secundaria"];
pub const TIPO_EVENTO_CODIGOS: [&'static str; 6] = ["tema", "entrega", "reunion", "junta", "acto", "otro"];
pub const TIPO_EVALUACION_CODIGOS: [&'static str; 5] = ["escrito", "oral", "tp", "integrador", "recuperatorio"];
pub const TIPO_OBSERVACION_CODIGOS: [&'static str; 4] = ["academica", "conducta", "seguimiento", "reunion_familia"];
pub const ESTADO_ASISTENCIA_CODIGOS: [&'static str; 4] = ["presente", "ausente", "tarde", "justificado"];

/// 0 o 1, como INTEGER en SQLite (activo, ausente).
pub type Flag01 = i64;

/// Estado de la base abierta: ruta, `foreign_keys`, modo de diario y cantidad de tablas.
#[derive(Debug, Clone, PartialEq)]
pub struct DbStatus {
    pub path: String,
    pub foreign_keys: i64,
    pub journal_mode: String,
    pub tables: i64,
}

#[derive(Debug, Clone, PartialEq)]
pub struct Turno {
    pub id: i64,
    pub nombre: String,
}

#[derive(Debug, Clone, PartialEq)]
pub struct Division {
    pub id: i64,
    pub nombre: String,
}

#[derive(Debug, Clone, PartialEq)]
pub struct Nivel {
    pub id: i64,
    pub codigo: String,
    pub nombre: String,
}

#[derive(Debug, Clone, PartialEq)]
pub struct Ciclo {
    pub id: i64,
    pub id_nivel: i64,
    pub nombre: String,
    pub orden: i64,
}

#[derive(Debug, Clone, PartialEq)]
pub struct AnioLectivo {
    pub id: i64,
    pub anio: i64,
    pub activo: i64,
}

#[derive(Debug, Clone, PartialEq)]
pub struct Jurisdiccion {
    pub id: i64,
    pub codigo: String,
    pub nombre: String,
}

#[derive(Debug, Clone, PartialEq)]
pub struct TipoEvento {
    pub id: i64,
    pub codigo: String,
    pub nombre: String,
}

#[derive(Debug, Clone, PartialEq)]
pub struct TipoEvaluacion {
    pub id: i64,
    pub codigo: String,
    pub nombre: String,
}

#[derive(Debug, Clone, PartialEq)]
pub struct TipoObservacion {
    pub id: i64,
    pub codigo: String,
    pub nombre: String,
}

#[derive(Debug, Clone, PartialEq)]
pub struct EstadoAsistencia {
    pub id: i64,
    pub codigo: String,
    pub nombre: String,
}

/// Lugar donde dicta el docente.
#[derive(Debug, Clone, PartialEq)]
pub struct Escuela {
    pub id: i64,
    pub id_jurisdiccion: i64,
    pub nombre: String,
    pub nombre_corto: Option<String>,
    pub direccion: Option<String>,
    pub telefono: Option<String>,
    pub email: Option<String>,
}

/// Datos de alta o edición de una escuela.
#[derive(Debug, Clone, PartialEq)]
pub struct EscuelaWrite {
    pub id_jurisdiccion: i64,
    pub nombre: String,
    pub nombre_corto: Option<String>,
    pub direccion: Option<String>,
    pub telefono: Option<String>,
    pub email: Option<String>,
}

#[derive(Debug, Clone, PartialEq)]
pub struct Materia {
    pub id: i64,
    pub nombre: String,
}

#[derive(Debug, Clone, PartialEq)]
pub struct MateriaWrite {
    pub nombre: String,
}

/// Un dictado: escuela, turno, división, ciclo, materia y año lectivo.
#[derive(Debug, Clone, PartialEq)]
pub struct Curso {
    pub id: i64,
    pub nombre: String,
    pub id_escuela: i64,
    pub id_turno: i64,
    pub id_division: i64,
    pub id_ciclo: i64,
    pub id_materia: i64,
    pub id_anio_lectivo: i64,
    pub orientacion: Option<String>,
}

/// Datos de alta o edición de un dictado.
#[derive(Debug, Clone, PartialEq)]
pub struct CursoWrite {
    pub nombre: String,
    pub id_escuela: i64,
    pub id_turno: i64,
    pub id_division: i64,
    pub id_ciclo: i64,
    pub id_materia: i64,
    pub id_anio_lectivo: i64,
    pub orientacion: Option<String>,
}

/// Persona en los cursos del docente: solo nombre y apellido.
#[derive(Debug, Clone, PartialEq)]
pub struct Alumno {
    pub id: i64,
    pub nombre: String,
    pub apellido: String,
}

/// Datos de alta o edición de un alumno.
#[derive(Debug, Clone, PartialEq)]
pub struct AlumnoWrite {
    pub nombre: String,
    pub apellido: String,
}

/// Inscripción de un alumno en un dictado.
#[derive(Debug, Clone, PartialEq)]
pub struct AlumnoCurso {
    pub id: i64,
    pub id_alumno: i64,
    pub id_curso: i64,
}

/// Bloque de la grilla semanal del docente (día ISO 1 a 7).
#[derive(Debug, Clone, PartialEq)]
pub struct Horario {
    pub id: i64,
    pub id_curso: i64,
    pub dia_semana: i64,
    pub hora_inicio: String,
    pub hora_fin: String,
    pub aula: Option<String>,
}

#[derive(Debug, Clone, PartialEq)]
pub struct HorarioWrite {
    pub id_curso: i64,
    pub dia_semana: i64,
    pub hora_inicio: String,
    pub hora_fin: String,
    pub aula: Option<String>,
}

/// Fecha del quehacer que no es evaluación; sin curso afecta a todos los dictados.
#[derive(Debug, Clone, PartialEq)]
pub struct Evento {
    pub id: i64,
    pub id_curso: Option<i64>,
    pub id_tipo_evento: i64,
    pub fecha: String,
    pub hora: Option<String>,
    pub titulo: String,
    pub descripcion: Option<String>,
}

#[derive(Debug, Clone, PartialEq)]
pub struct EventoWrite {
    pub id_curso: Option<i64>,
    pub id_tipo_evento: i64,
    pub fecha: String,
    pub hora: Option<String>,
    pub titulo: String,
    pub descripcion: Option<String>,
}

/// Escrito, oral, TP, integrador o recuperatorio de un curso.
#[derive(Debug, Clone, PartialEq)]
pub struct Evaluacion {
    pub id: i64,
    pub id_curso: i64,
    pub id_tipo_evaluacion: i64,
    pub id_evaluacion_origen: Option<i64>,
    pub titulo: String,
    pub fecha: String,
    pub tema: Option<String>,
    pub ponderacion: String,
}

#[derive(Debug, Clone, PartialEq)]
pub struct EvaluacionWrite {
    pub id_curso: i64,
    pub id_tipo_evaluacion: i64,
    pub id_evaluacion_origen: Option<i64>,
    pub titulo: String,
    pub fecha: String,
    pub tema: Option<String>,
    pub ponderacion: String,
}

/// Nota de un alumno en una evaluación: valor decimal 1 a 10, o vacía si estuvo ausente.
#[derive(Debug, Clone, PartialEq)]
pub struct Nota {
    pub id: i64,
    pub id_evaluacion: i64,
    pub id_alumno: i64,
    pub valor: Option<String>,
    pub ausente: Flag01,
    pub comentario: Option<String>,
}

#[derive(Debug, Clone, PartialEq)]
pub struct NotaWrite {
    pub id_evaluacion: i64,
    pub id_alumno: i64,
    pub valor: Option<String>,
    pub ausente: Flag01,
    pub comentario: Option<String>,
}

/// Anotación del docente sobre un alumno en un dictado.
#[derive(Debug, Clone, PartialEq)]
pub struct Observacion {
    pub id: i64,
    pub id_alumno: i64,
    pub id_curso: i64,
    pub id_tipo_observacion: i64,
    pub fecha: String,
    pub texto: String,
}

#[derive(Debug, Clone, PartialEq)]
pub struct ObservacionWrite {
    pub id_alumno: i64,
    pub id_curso: i64,
    pub id_tipo_observacion: i64,
    pub fecha: String,
    pub texto: String,
}

/// Estado de asistencia de un alumno en un curso y una fecha.
#[derive(Debug, Clone, PartialEq)]
pub struct Asistencia {
    pub id: i64,
    pub id_curso: i64,
    pub id_alumno: i64,
    pub fecha: String,
    pub id_estado_asistencia: i64,
}

#[derive(Debug, Clone, PartialEq)]
pub struct AsistenciaWrite {
    pub id_curso: i64,
    pub id_alumno: i64,
    pub fecha: String,
    pub id_estado_asistencia: i64,
}

/// Fase del candado (`crear`, `desbloquear`, `abierto`), intentos que quedan y si hay que cifrar un archivo en claro.
#[derive(Debug, Clone, PartialEq)]
pub struct CandadoEstado {
    pub fase: String,
    pub intentos_restantes: i64,
    pub migra: i64,
}

/// Si el docente ya aceptó el aviso de alcance (0 o 1).
#[derive(Debug, Clone, PartialEq)]
pub struct AvisoPrivacidad {
    pub aceptado: i64,
}

} // verus!
