//! Aviso de alcance: un archivo junto a la base (no una tabla), que se lee antes de abrir el
//! cuaderno.

use vstd::prelude::*;
use vstd::string::StringExecFns;
use crate::cadena::caracteres;
use crate::domain::AvisoPrivacidad;

verus! {

/// Nombre del archivo del aviso.
pub const ARCHIVO: &'static str = "privacidad.json";

/// `nombre` dentro de la carpeta `dir`, como `Path::join` con un nombre relativo y `/` como
/// separador: sin separador si la carpeta está vacía o ya termina en `/`.
pub open spec fn unir_ruta(dir: Seq<char>, nombre: Seq<char>) -> Seq<char> {
    if dir.len() == 0 {
        nombre
    } else if dir.last() == '/' {
        dir + nombre
    } else {
        dir + seq!['/'] + nombre
    }
}

/// La ruta del aviso dentro de la carpeta de datos.
pub fn path_aviso(dir: &str) -> (r: String)
    ensures
        r@ == unir_ruta(dir@, ARCHIVO@),
{
    let v = caracteres(dir);
    let mut r = dir.to_owned();
    assert(r@ == dir@);
    proof {
        reveal_strlit("/");
    }
    if v.len() > 0 && v[v.len() - 1] != '/' {
        r.append("/");
    }
    assert(v.len() > 0 ==> v@[v.len() - 1] == dir@.last());
    r.append(ARCHIVO);
    r
}

/// El aviso según lo leído del archivo: `None` si no se pudo leer o no es JSON del aviso;
/// si no, el campo `aceptado` (que puede faltar). Solo `aceptado: 1` cuenta.
pub fn aviso_de_lectura(leido: Option<Option<i64>>) -> (r: AvisoPrivacidad)
    ensures
        r.aceptado == (if leido == Some(Some(1i64)) { 1i64 } else { 0i64 }),
{
    match leido {
        Some(Some(1)) => AvisoPrivacidad { aceptado: 1 },
        _ => AvisoPrivacidad { aceptado: 0 },
    }
}

/// El aviso aceptado, como se escribe.
pub fn aviso_aceptado() -> (r: AvisoPrivacidad)
    ensures
        r.aceptado == 1,
{
    AvisoPrivacidad { aceptado: 1 }
}

} // verus!
