//! Cuaderno de dictados de un docente: reglas de validación, candado del archivo y acceso a la base.

pub mod cadena;
pub mod domain;
pub mod validar;
pub mod candado;
pub mod db;
pub mod filas;
pub mod esquema;
pub mod alumnos;
pub mod asistencias;
pub mod cursos;
pub mod evaluaciones;
pub mod eventos;
pub mod horarios;
pub mod maestras;
pub mod notas;
pub mod observaciones;
pub mod privacidad;

use vstd::prelude::*;
use vstd::string::StringExecFns;
use crate::asistencias::rechazo_asistencia;
use crate::notas::rechazo_nota;
use crate::observaciones::rechazo_observacion;

verus! {

/// El saludo de prueba de la ventana.
pub fn greet(name: &str) -> (r: String)
    ensures
        r@ == "Hello, "@ + name@ + "! You've been greeted from Rust!"@,
{
    let mut r = "Hello, ".to_owned();
    r.append(name);
    r.append("! You've been greeted from Rust!");
    r
}

/// Notas, asistencia y observaciones son solo de alumnos inscriptos en el curso: sin inscripción
/// se rechazan siempre, con el mensaje de cada una.
pub proof fn ley_solo_inscriptos(curso: bool, estado: bool, tipo: bool)
    ensures
        rechazo_nota(false) == Some(notas::NO_INSCRIPTO_NOTA@),
        rechazo_asistencia(curso, estado, false) is Some,
        rechazo_observacion(curso, tipo, false) is Some,
        curso && estado ==> rechazo_asistencia(curso, estado, false) == Some(asistencias::NO_INSCRIPTO_LISTA@),
        curso && tipo ==> rechazo_observacion(curso, tipo, false) == Some(observaciones::NO_INSCRIPTO_OBSERVACION@),
{
}

} // verus!
