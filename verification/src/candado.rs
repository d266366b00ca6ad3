//! Candado del cuaderno: la clave del docente, su derivación con Argon2id y el sobre cifrado
//! con AES-256-GCM que reemplaza al archivo SQLite en disco.

use vstd::prelude::*;
use vstd::string::StringSliceAdditionalSpecFns;
use aes_gcm::aead::{Aead, KeyInit};
use aes_gcm::{Aes256Gcm, Nonce};
use argon2::{Algorithm, Argon2, Params, Version};
use rand::RngCore;
use zeroize::Zeroize;
use crate::cadena::{caracteres, largo_utf8, largo_utf8_hasta, lema_largo_utf8_bytes};
use crate::domain::CandadoEstado;

verus! {

#[verifier::external_type_specification]
#[verifier::external_body]
pub struct ExArgon2Error(argon2::Error);

#[verifier::external_type_specification]
#[verifier::external_body]
pub struct ExAeadError(aes_gcm::Error);

/// Cabecera de un cuaderno cifrado: `TMSTDB01`.
pub const MAGIC: [u8; 8] = [84, 77, 83, 84, 68, 66, 48, 49];
/// Largo mínimo de la clave, en caracteres.
pub const MIN_CLAVE: usize = 8;
pub const SALT_LEN: usize = 16;
pub const NONCE_LEN: usize = 12;
pub const KEY_LEN: usize = 32;
pub const HEADER_LEN: usize = 36;
/// Costo de memoria de Argon2id, en KiB.
pub const ARGON_M: u32 = 19456;
pub const ARGON_T: u32 = 2;
pub const ARGON_P: u32 = 1;
/// Intentos de clave antes de bloquear.
pub const MAX_INTENTOS: u8 = 3;

pub const CLAVE_CORTA: &'static str = "La clave tiene que tener al menos 8 caracteres.";
pub const CLAVE_LARGA: &'static str = "La clave es demasiado larga.";
pub const CLAVES_DISTINTAS: &'static str = "Las dos claves no coinciden.";
pub const NO_DERIVA: &'static str = "No se pudo derivar la clave.";
pub const NO_CIFRA: &'static str = "No se pudo cifrar el cuaderno.";
pub const INCOMPLETO: &'static str = "El archivo cifrado está incompleto.";
pub const NO_ES_CUADERNO: &'static str = "Ese archivo no es un cuaderno cifrado.";
pub const CLAVE_INCORRECTA: &'static str = "Clave incorrecta.";
pub const DEMASIADOS_INTENTOS: &'static str = "Demasiados intentos. Cerrá la app y volvé a abrir.";
pub const NO_SE_RECONOCE: &'static str = "El archivo del cuaderno no se reconoce.";
pub const YA_ABIERTO: &'static str = "El cuaderno ya está abierto.";
pub const YA_HAY_CLAVE: &'static str = "Ya hay una clave. Abrí el cuaderno.";
pub const SIN_CIFRADO: &'static str = "No hay un cuaderno cifrado para abrir.";

/// Un archivo al lado de otro: la misma ruta con `suffix` al final (`.new`, `-wal`, ...).
pub fn sidecar(path: &str, suffix: &str) -> (r: String)
    ensures
        r@ == path@ + suffix@,
{
    let mut r = path.to_owned();
    r.append(suffix);
    r
}

/// Lo que hay en la ruta del cuaderno.
#[derive(Debug, Clone, Copy, PartialEq, Eq, Structural)]
pub enum TipoArchivo {
    Ausente,
    Cifrado,
    SqliteEnClaro,
    Desconocido,
}

/// Los 8 bytes de `MAGIC`.
pub open spec fn magia() -> Seq<u8> {
    seq![84u8, 77u8, 83u8, 84u8, 68u8, 66u8, 48u8, 49u8]
}

/// `SQLite format 3` en bytes: el comienzo de un archivo SQLite en claro.
pub open spec fn firma_sqlite() -> Seq<u8> {
    seq![83u8, 81u8, 76u8, 105u8, 116u8, 101u8, 32u8, 102u8, 111u8, 114u8, 109u8, 97u8, 116u8, 32u8, 51u8]
}

/// Resultado de Argon2id (versión 0x13, 32 bytes de salida) con esos costos, clave y sal.
pub uninterp spec fn argon2id(pwd: Seq<u8>, salt: Seq<u8>, m_cost: u32, t_cost: u32, p_cost: u32) -> Seq<u8>;

/// Texto cifrado y etiqueta (al final, 16 bytes) de AES-256-GCM sin datos asociados.
pub uninterp spec fn aes_gcm_sellado(key: Seq<u8>, nonce: Seq<u8>, plano: Seq<u8>) -> Seq<u8>;

/// Lo que devuelve el descifrado AES-256-GCM sin datos asociados: el texto plano, o nada si la
/// etiqueta no verifica.
pub uninterp spec fn aes_gcm_abierto(key: Seq<u8>, nonce: Seq<u8>, cuerpo: Seq<u8>) -> Option<Seq<u8>>;

/// `Params::new(m_cost, t_cost, p_cost, Some(32))`, `Argon2::new(Argon2id, V0x13, ..)` y
/// `Argon2::hash_password_into`. Según el código de `argon2` 0.5, con esos costos válidos
/// falla solo si la clave pasa de 2^32 - 1 bytes o la sal no tiene entre 8 y 2^32 - 1 bytes;
/// si no, la salida es la función Argon2id de sus argumentos.
#[verifier::external_body]
fn hash_argon2id(pwd: &[u8], salt: &[u8], m_cost: u32, t_cost: u32, p_cost: u32) -> (r: Result<[u8; 32], argon2::Error>)
    requires
        m_cost >= 8,
        t_cost >= 1,
        1 <= p_cost <= 0xffffff,
        m_cost >= p_cost * 8,
    ensures
        r is Ok <==> (pwd@.len() <= 0xffff_ffff && 8 <= salt@.len() <= 0xffff_ffff),
        r matches Ok(k) ==> k@ == argon2id(pwd@, salt@, m_cost, t_cost, p_cost),
{
    let params = Params::new(m_cost, t_cost, p_cost, Some(32))?;
    let mut out = [0u8; 32];
    Argon2::new(Algorithm::Argon2id, Version::V0x13, params).hash_password_into(pwd, salt, &mut out)?;
    Ok(out)
}

/// `Aes256Gcm::new` y `Aead::encrypt` sin datos asociados. Según `aes-gcm` 0.10 falla solo si el
/// texto plano pasa de 2^36 bytes; si no, devuelve el texto cifrado con la etiqueta de 16 bytes
/// al final, que el descifrado con la misma clave y nonce devuelve intacto.
#[verifier::external_body]
fn sellar(key: &[u8; 32], nonce: &[u8; 12], plano: &[u8]) -> (r: Result<Vec<u8>, aes_gcm::Error>)
    ensures
        r is Ok <==> plano@.len() <= 0x10_0000_0000,
        r matches Ok(c) ==> c@ == aes_gcm_sellado(key@, nonce@, plano@),
        r matches Ok(c) ==> c@.len() == plano@.len() + 16,
        r matches Ok(c) ==> aes_gcm_abierto(key@, nonce@, c@) == Some(plano@),
{
    Aes256Gcm::new(key.into()).encrypt(Nonce::from_slice(nonce), plano)
}

/// `Aes256Gcm::new` y `Aead::decrypt` sin datos asociados: el texto plano si la etiqueta verifica.
#[verifier::external_body]
fn abrir(key: &[u8; 32], nonce: &[u8], cuerpo: &[u8]) -> (r: Result<Vec<u8>, aes_gcm::Error>)
    requires
        nonce@.len() == 12,
    ensures
        r matches Ok(p) ==> aes_gcm_abierto(key@, nonce@, cuerpo@) == Some(p@),
        r is Err ==> aes_gcm_abierto(key@, nonce@, cuerpo@) is None,
{
    Aes256Gcm::new(key.into()).decrypt(Nonce::from_slice(nonce), cuerpo)
}

/// `rand::thread_rng().fill_bytes`: `n` bytes al azar; de su valor no se dice nada.
#[verifier::external_body]
fn al_azar(n: usize) -> (v: Vec<u8>)
    ensures
        v@.len() == n,
{
    let mut v = vec![0u8; n];
    rand::thread_rng().fill_bytes(&mut v);
    v
}

/// `Zeroize::zeroize` sobre la llave: la deja en ceros.
#[verifier::external_body]
fn borrar_llave(key: &mut [u8; 32])
    ensures
        final(key)@ == Seq::new(32, |i: int| 0u8),
{
    key.zeroize();
}

/// Qué dice la clave elegida (y su repetición, si se pidió).
pub open spec fn clave_spec(clave: Seq<char>, repetir: Option<Seq<char>>) -> Result<(), Seq<char>> {
    if clave.len() < MIN_CLAVE {
        Err(CLAVE_CORTA@)
    } else if largo_utf8(clave) > 128 {
        Err(CLAVE_LARGA@)
    } else if repetir matches Some(r) && r != clave {
        Err(CLAVES_DISTINTAS@)
    } else {
        Ok(())
    }
}

pub open spec fn vista_err(r: Result<(), String>) -> Result<(), Seq<char>> {
    match r {
        Ok(()) => Ok(()),
        Err(e) => Err(e@),
    }
}

fn iguales(a: &Vec<char>, b: &Vec<char>) -> (r: bool)
    ensures
        r == (a@ == b@),
{
    if a.len() != b.len() {
        return false;
    }
    let mut i: usize = 0;
    while i < a.len()
        invariant
            i <= a.len() == b.len(),
            forall|k: int| 0 <= k < i ==> a@[k] == b@[k],
        decreases a.len() - i,
    {
        if a[i] != b[i] {
            return false;
        }
        i = i + 1;
    }
    assert(a@ =~= b@);
    true
}

/// Clave de al menos 8 caracteres, de a lo sumo 128 bytes, e igual a su repetición si la hay.
pub fn validar_clave(clave: &str, repetir: Option<&str>) -> (r: Result<(), String>)
    ensures
        vista_err(r) == clave_spec(clave@, match repetir {
            Some(s) => Some(s@),
            None => None,
        }),
{
    let v = caracteres(clave);
    if v.len() < MIN_CLAVE {
        return Err(CLAVE_CORTA.to_owned());
    }
    if largo_utf8_hasta(&v, 128) > 128 {
        return Err(CLAVE_LARGA.to_owned());
    }
    match repetir {
        Some(r) => {
            let w = caracteres(r);
            if !iguales(&v, &w) {
                return Err(CLAVES_DISTINTAS.to_owned());
            }
        },
        None => {},
    }
    Ok(())
}

/// La llave que sale de una clave y una sal.
pub open spec fn llave_de(clave: Seq<u8>, salt: Seq<u8>) -> Seq<u8> {
    argon2id(clave, salt, ARGON_M, ARGON_T, ARGON_P)
}

/// Llave AES de 32 bytes derivada de la clave y la sal con Argon2id (19 MiB, 2 pasadas, 1 hilo).
pub fn derivar_clave(clave: &str, salt: &[u8; 16]) -> (r: Result<[u8; 32], String>)
    ensures
        r is Ok <==> clave.spec_bytes().len() <= 0xffff_ffff,
        r matches Ok(k) ==> k@ == llave_de(clave.spec_bytes(), salt@),
        r matches Err(e) ==> e@ == NO_DERIVA@,
{
    match hash_argon2id(clave.as_bytes(), salt, ARGON_M, ARGON_T, ARGON_P) {
        Ok(k) => Ok(k),
        Err(_) => Err(NO_DERIVA.to_owned()),
    }
}

/// Sobre cifrado: `MAGIC`, sal, nonce y cuerpo.
pub open spec fn sobre(salt: Seq<u8>, nonce: Seq<u8>, cuerpo: Seq<u8>) -> Seq<u8> {
    magia() + salt + nonce + cuerpo
}

/// Lo que se recupera de un sobre con una llave: el texto plano y la sal, si el sobre está
/// completo, tiene la cabecera y la etiqueta verifica.
pub open spec fn abrir_sobre(blob: Seq<u8>, key: Seq<u8>) -> Option<(Seq<u8>, Seq<u8>)> {
    if blob.len() < HEADER_LEN + 16 || blob.take(8) != magia() {
        None
    } else {
        match aes_gcm_abierto(key, blob.subrange(24, 36), blob.skip(36)) {
            Some(p) => Some((p, blob.subrange(8, 24))),
            None => None,
        }
    }
}

/// Cifra `plano` en un sobre: `MAGIC`, la sal, un nonce al azar y el texto cifrado con su etiqueta.
pub fn cifrar(plano: &[u8], key: &[u8; 32], salt: &[u8; 16]) -> (r: Result<Vec<u8>, String>)
    ensures
        r is Ok <==> plano@.len() <= 0x10_0000_0000,
        r matches Ok(blob) ==> exists|nonce: Seq<u8>|
            nonce.len() == 12 && blob@ == sobre(salt@, nonce, aes_gcm_sellado(key@, nonce, plano@)),
        r matches Ok(blob) ==> abrir_sobre(blob@, key@) == Some((plano@, salt@)),
        r matches Ok(blob) ==> blob@.len() == plano@.len() + 52,
        r matches Err(e) ==> e@ == NO_CIFRA@,
{
    let azar = al_azar(12);
    let nonce: [u8; 12] = [
        azar[0],
        azar[1],
        azar[2],
        azar[3],
        azar[4],
        azar[5],
        azar[6],
        azar[7],
        azar[8],
        azar[9],
        azar[10],
        azar[11],
    ];
    assert(nonce@ == azar@);
    let cuerpo = match sellar(key, &nonce, plano) {
        Ok(c) => c,
        Err(_) => return Err(NO_CIFRA.to_owned()),
    };
    let m = bytes_magia();
    let mut out: Vec<u8> = Vec::new();
    let mut i: usize = 0;
    while i < 8
        invariant
            i <= 8,
            m@ == magia(),
            out@ == magia().take(i as int),
        decreases 8 - i,
    {
        out.push(m[i]);
        assert(magia().take(i as int + 1) == magia().take(i as int).push(magia()[i as int]));
        i = i + 1;
    }
    assert(magia().take(8) == magia());
    let mut i: usize = 0;
    while i < 16
        invariant
            i <= 16,
            out@ == magia() + salt@.take(i as int),
        decreases 16 - i,
    {
        out.push(salt[i]);
        assert(salt@.take(i as int + 1) == salt@.take(i as int).push(salt@[i as int]));
        i = i + 1;
    }
    assert(salt@.take(16) == salt@);
    let mut i: usize = 0;
    while i < 12
        invariant
            i <= 12,
            out@ == magia() + salt@ + nonce@.take(i as int),
        decreases 12 - i,
    {
        out.push(nonce[i]);
        assert(nonce@.take(i as int + 1) == nonce@.take(i as int).push(nonce@[i as int]));
        i = i + 1;
    }
    assert(nonce@.take(12) == nonce@);
    let mut i: usize = 0;
    while i < cuerpo.len()
        invariant
            i <= cuerpo.len(),
            out@ == magia() + salt@ + nonce@ + cuerpo@.take(i as int),
        decreases cuerpo.len() - i,
    {
        out.push(cuerpo[i]);
        assert(cuerpo@.take(i as int + 1) == cuerpo@.take(i as int).push(cuerpo@[i as int]));
        i = i + 1;
    }
    assert(cuerpo@.take(cuerpo.len() as int) == cuerpo@);
    proof {
        let blob = out@;
        assert(blob == sobre(salt@, nonce@, cuerpo@));
        assert(blob.take(8) == magia());
        assert(blob.subrange(8, 24) == salt@);
        assert(blob.subrange(24, 36) == nonce@);
        assert(blob.skip(36) == cuerpo@);
    }
    Ok(out)
}

/// Lo que da descifrar un sobre con una clave: texto plano, llave y sal, o el error.
pub open spec fn descifrado_spec(blob: Seq<u8>, clave: Seq<u8>) -> Result<(Seq<u8>, Seq<u8>, Seq<u8>), Seq<char>> {
    if blob.len() < HEADER_LEN + 16 {
        Err(INCOMPLETO@)
    } else if blob.take(8) != magia() {
        Err(NO_ES_CUADERNO@)
    } else if clave.len() > 0xffff_ffff {
        Err(NO_DERIVA@)
    } else {
        let salt = blob.subrange(8, 24);
        let key = llave_de(clave, salt);
        match aes_gcm_abierto(key, blob.subrange(24, 36), blob.skip(36)) {
            Some(p) => Ok((p, key, salt)),
            None => Err(CLAVE_INCORRECTA@),
        }
    }
}

pub open spec fn vista_descifrado(r: Result<(Vec<u8>, [u8; 32], [u8; 16]), String>) -> Result<(Seq<u8>, Seq<u8>, Seq<u8>), Seq<char>> {
    match r {
        Ok((p, k, s)) => Ok((p@, k@, s@)),
        Err(e) => Err(e@),
    }
}

fn copia(v: &[u8], desde: usize, hasta: usize) -> (r: Vec<u8>)
    requires
        desde <= hasta <= v@.len(),
    ensures
        r@ == v@.subrange(desde as int, hasta as int),
{
    let mut r: Vec<u8> = Vec::new();
    let mut i = desde;
    while i < hasta
        invariant
            desde <= i <= hasta <= v@.len(),
            r@ == v@.subrange(desde as int, i as int),
        decreases hasta - i,
    {
        r.push(v[i]);
        assert(v@.subrange(desde as int, i as int + 1) == v@.subrange(desde as int, i as int).push(
            v@[i as int],
        ));
        i = i + 1;
    }
    r
}

/// Abre un sobre con la clave del docente: devuelve el texto plano, la llave y la sal.
pub fn descifrar(blob: &[u8], clave: &str) -> (r: Result<(Vec<u8>, [u8; 32], [u8; 16]), String>)
    ensures
        vista_descifrado(r) == descifrado_spec(blob@, clave.spec_bytes()),
{
    if blob.len() < HEADER_LEN + 16 {
        return Err(INCOMPLETO.to_owned());
    }
    let m = bytes_magia();
    let mut i: usize = 0;
    while i < 8
        invariant
            i <= 8,
            m@ == magia(),
            blob@.len() >= 52,
            forall|k: int| 0 <= k < i ==> blob@[k] == magia()[k],
        decreases 8 - i,
    {
        if blob[i] != m[i] {
            assert(blob@.take(8)[i as int] != magia()[i as int]);
            return Err(NO_ES_CUADERNO.to_owned());
        }
        i = i + 1;
    }
    assert(blob@.take(8) =~= magia());
    let s = copia(blob, 8, 24);
    let salt: [u8; 16] = [
        s[0],
        s[1],
        s[2],
        s[3],
        s[4],
        s[5],
        s[6],
        s[7],
        s[8],
        s[9],
        s[10],
        s[11],
        s[12],
        s[13],
        s[14],
        s[15],
    ];
    assert(salt@ =~= blob@.subrange(8, 24));
    let nonce = copia(blob, 24, 36);
    let cuerpo = copia(blob, 36, blob.len());
    assert(cuerpo@ =~= blob@.skip(36));
    let mut key = match derivar_clave(clave, &salt) {
        Ok(k) => k,
        Err(e) => return Err(e),
    };
    match abrir(&key, nonce.as_slice(), cuerpo.as_slice()) {
        Ok(plano) => Ok((plano, key, salt)),
        Err(_) => {
            borrar_llave(&mut key);
            Err(CLAVE_INCORRECTA.to_owned())
        },
    }
}

/// Sal nueva de 16 bytes al azar.
pub fn nuevo_salt() -> (s: [u8; 16])
{
    let v = al_azar(16);
    [
        v[0],
        v[1],
        v[2],
        v[3],
        v[4],
        v[5],
        v[6],
        v[7],
        v[8],
        v[9],
        v[10],
        v[11],
        v[12],
        v[13],
        v[14],
        v[15],
    ]
}

/// Qué hay en el archivo del cuaderno según sus primeros bytes (hasta 16) leídos de una vez:
/// `None` si no existe; `Some(None)` si no se pudo leer.
pub open spec fn tipo_spec(leido: Option<Option<Seq<u8>>>) -> TipoArchivo {
    match leido {
        None => TipoArchivo::Ausente,
        Some(None) => TipoArchivo::Desconocido,
        Some(Some(b)) => if b.len() >= 8 && b.take(8) == magia() {
            TipoArchivo::Cifrado
        } else if b.len() >= 16 && b.take(15) == firma_sqlite() {
            TipoArchivo::SqliteEnClaro
        } else if b.len() == 0 {
            TipoArchivo::Ausente
        } else {
            TipoArchivo::Desconocido
        },
    }
}

fn bytes_magia() -> (r: [u8; 8])
    ensures
        r@ == magia(),
{
    let t: [u8; 8] = [84, 77, 83, 84, 68, 66, 48, 49];
    assert(t@ =~= magia());
    t
}

fn bytes_sqlite() -> (r: [u8; 15])
    ensures
        r@ == firma_sqlite(),
{
    let t: [u8; 15] = [83, 81, 76, 105, 116, 101, 32, 102, 111, 114, 109, 97, 116, 32, 51];
    assert(t@ =~= firma_sqlite());
    t
}

/// `b` empieza con los bytes de `p`.
fn empieza_con(b: &Vec<u8>, p: &[u8]) -> (r: bool)
    ensures
        r == (b@.len() >= p@.len() && b@.take(p@.len() as int) == p@),
{
    if b.len() < p.len() {
        return false;
    }
    let mut i: usize = 0;
    while i < p.len()
        invariant
            i <= p@.len() <= b@.len(),
            forall|k: int| 0 <= k < i ==> b@[k] == p@[k],
        decreases p@.len() - i,
    {
        if b[i] != p[i] {
            assert(b@.take(p@.len() as int)[i as int] != p@[i as int]);
            return false;
        }
        i = i + 1;
    }
    assert(b@.take(p@.len() as int) =~= p@);
    true
}

/// Clasifica el archivo del cuaderno por los bytes leídos de su comienzo.
pub fn tipo_de_lectura(leido: Option<Option<Vec<u8>>>) -> (t: TipoArchivo)
    ensures
        t == tipo_spec(match leido {
            None => None,
            Some(None) => Some(None),
            Some(Some(b)) => Some(Some(b@)),
        }),
{
    match leido {
        None => TipoArchivo::Ausente,
        Some(None) => TipoArchivo::Desconocido,
        Some(Some(b)) => {
            let m = bytes_magia();
            let q = bytes_sqlite();
            if empieza_con(&b, m.as_slice()) {
                TipoArchivo::Cifrado
            } else if b.len() >= 16 && empieza_con(&b, q.as_slice()) {
                TipoArchivo::SqliteEnClaro
            } else if b.len() == 0 {
                TipoArchivo::Ausente
            } else {
                TipoArchivo::Desconocido
            }
        },
    }
}


/// Los intentos que quedan antes del bloqueo.
pub open spec fn restantes(intentos: u8) -> i64 {
    if intentos >= MAX_INTENTOS {
        0
    } else {
        (MAX_INTENTOS - intentos) as i64
    }
}

/// Fase del candado: `abierto`; `desbloquear` si hay un cuaderno cifrado; `crear` si no hay
/// archivo o si hay uno en claro (que entonces hay que migrar).
pub open spec fn estado_spec(abierto: bool, intentos: u8, tipo: TipoArchivo) -> Result<(Seq<char>, i64, i64), Seq<char>> {
    if abierto {
        Ok(("abierto"@, MAX_INTENTOS as i64, 0))
    } else {
        match tipo {
            TipoArchivo::Cifrado => Ok(("desbloquear"@, restantes(intentos), 0)),
            TipoArchivo::SqliteEnClaro => Ok(("crear"@, restantes(intentos), 1)),
            TipoArchivo::Ausente => Ok(("crear"@, restantes(intentos), 0)),
            TipoArchivo::Desconocido => Err(NO_SE_RECONOCE@),
        }
    }
}

pub open spec fn vista_estado(r: Result<CandadoEstado, String>) -> Result<(Seq<char>, i64, i64), Seq<char>> {
    match r {
        Ok(e) => Ok((e.fase@, e.intentos_restantes, e.migra)),
        Err(e) => Err(e@),
    }
}

fn estado(fase: &str, intentos_restantes: i64, migra: i64) -> (e: CandadoEstado)
    ensures
        e.fase@ == fase@,
        e.intentos_restantes == intentos_restantes,
        e.migra == migra,
{
    CandadoEstado { fase: fase.to_owned(), intentos_restantes, migra }
}

/// El estado abierto del candado.
pub fn estado_abierto() -> (e: CandadoEstado)
    ensures
        e.fase@ == "abierto"@,
        e.intentos_restantes == MAX_INTENTOS as i64,
        e.migra == 0,
{
    estado("abierto", MAX_INTENTOS as i64, 0)
}

/// Estado del candado para mostrar antes de pedir la clave.
pub fn estado_del_candado(abierto: bool, intentos: u8, tipo: TipoArchivo) -> (r: Result<CandadoEstado, String>)
    ensures
        vista_estado(r) == estado_spec(abierto, intentos, tipo),
{
    if abierto {
        return Ok(estado_abierto());
    }
    let quedan: i64 = if intentos >= MAX_INTENTOS {
        0
    } else {
        (MAX_INTENTOS - intentos) as i64
    };
    match tipo {
        TipoArchivo::Cifrado => Ok(estado("desbloquear", quedan, 0)),
        TipoArchivo::SqliteEnClaro => Ok(estado("crear", quedan, 1)),
        TipoArchivo::Ausente => Ok(estado("crear", quedan, 0)),
        TipoArchivo::Desconocido => Err(NO_SE_RECONOCE.to_owned()),
    }
}

/// Qué hay que hacer para crear la clave.
#[derive(Debug, Clone, Copy, PartialEq, Eq, Structural)]
pub enum AccionCrear {
    /// Cuaderno nuevo: base vacía, cifrada con la clave.
    Nuevo,
    /// Hay un SQLite en claro: se cifra una vez y se reemplaza.
    Migrar,
}

/// Crear la clave: la clave tiene que ser válida e igual a su repetición, el cuaderno cerrado,
/// y no puede haber ya un archivo cifrado ni uno irreconocible.
pub open spec fn crear_spec(abierto: bool, tipo: TipoArchivo, clave: Seq<char>, repetir: Seq<char>) -> Result<AccionCrear, Seq<char>> {
    match clave_spec(clave, Some(repetir)) {
        Err(e) => Err(e),
        Ok(()) => if abierto {
            Err(YA_ABIERTO@)
        } else {
            match tipo {
                TipoArchivo::Cifrado => Err(YA_HAY_CLAVE@),
                TipoArchivo::Desconocido => Err(NO_SE_RECONOCE@),
                TipoArchivo::Ausente => Ok(AccionCrear::Nuevo),
                TipoArchivo::SqliteEnClaro => Ok(AccionCrear::Migrar),
            }
        },
    }
}

/// Decide cómo crear la clave.
pub fn decidir_crear_clave(abierto: bool, tipo: TipoArchivo, clave: &str, repetir: &str) -> (r: Result<AccionCrear, String>)
    ensures
        match r {
            Ok(a) => crear_spec(abierto, tipo, clave@, repetir@) == Ok::<AccionCrear, Seq<char>>(a),
            Err(e) => crear_spec(abierto, tipo, clave@, repetir@) == Err::<AccionCrear, Seq<char>>(e@),
        },
{
    match validar_clave(clave, Some(repetir)) {
        Err(e) => return Err(e),
        Ok(()) => {},
    }
    if abierto {
        return Err(YA_ABIERTO.to_owned());
    }
    match tipo {
        TipoArchivo::Cifrado => Err(YA_HAY_CLAVE.to_owned()),
        TipoArchivo::Desconocido => Err(NO_SE_RECONOCE.to_owned()),
        TipoArchivo::Ausente => Ok(AccionCrear::Nuevo),
        TipoArchivo::SqliteEnClaro => Ok(AccionCrear::Migrar),
    }
}

/// Llave y sal nuevas para una clave: sal al azar y llave derivada de ella.
pub fn llave_nueva(clave: &str) -> (r: Result<([u8; 32], [u8; 16]), String>)
    ensures
        r is Ok <==> clave.spec_bytes().len() <= 0xffff_ffff,
        r matches Ok((k, s)) ==> k@ == llave_de(clave.spec_bytes(), s@),
        r matches Err(e) ==> e@ == NO_DERIVA@,
{
    let salt = nuevo_salt();
    match derivar_clave(clave, &salt) {
        Ok(k) => Ok((k, salt)),
        Err(e) => Err(e),
    }
}

/// Qué hacer ante un pedido de desbloqueo.
#[derive(Debug, Clone, Copy, PartialEq, Eq, Structural)]
pub enum PasoDesbloqueo {
    /// Ya estaba abierto.
    YaAbierto,
    /// Leer el archivo cifrado e intentar abrirlo.
    Descifrar,
}

/// Desbloquear: la clave tiene que tener forma válida; si está abierto no se hace nada; con
/// tres intentos fallidos se rechaza; solo se abre un archivo cifrado.
pub open spec fn desbloqueo_spec(abierto: bool, intentos: u8, tipo: TipoArchivo, clave: Seq<char>) -> Result<PasoDesbloqueo, Seq<char>> {
    match clave_spec(clave, None) {
        Err(e) => Err(e),
        Ok(()) => if abierto {
            Ok(PasoDesbloqueo::YaAbierto)
        } else if intentos >= MAX_INTENTOS {
            Err(DEMASIADOS_INTENTOS@)
        } else if tipo != TipoArchivo::Cifrado {
            Err(SIN_CIFRADO@)
        } else {
            Ok(PasoDesbloqueo::Descifrar)
        },
    }
}

/// Decide qué hacer ante un pedido de desbloqueo.
pub fn decidir_desbloqueo(abierto: bool, intentos: u8, tipo: TipoArchivo, clave: &str) -> (r: Result<PasoDesbloqueo, String>)
    ensures
        match r {
            Ok(p) => desbloqueo_spec(abierto, intentos, tipo, clave@) == Ok::<PasoDesbloqueo, Seq<char>>(p),
            Err(e) => desbloqueo_spec(abierto, intentos, tipo, clave@) == Err::<PasoDesbloqueo, Seq<char>>(e@),
        },
{
    match validar_clave(clave, None) {
        Err(e) => return Err(e),
        Ok(()) => {},
    }
    if abierto {
        return Ok(PasoDesbloqueo::YaAbierto);
    }
    if intentos >= MAX_INTENTOS {
        return Err(DEMASIADOS_INTENTOS.to_owned());
    }
    if tipo != TipoArchivo::Cifrado {
        return Err(SIN_CIFRADO.to_owned());
    }
    Ok(PasoDesbloqueo::Descifrar)
}

/// Intentos fallidos después de un intento.
pub open spec fn intentos_tras(intentos: u8, blob: Seq<u8>, clave: Seq<u8>) -> u8 {
    if descifrado_spec(blob, clave) is Ok {
        intentos
    } else {
        (intentos + 1) as u8
    }
}

/// Resultado de un intento: lo descifrado, o el error (que pasa a ser el de bloqueo al tercero).
pub open spec fn intento_spec(intentos: u8, blob: Seq<u8>, clave: Seq<u8>) -> Result<(Seq<u8>, Seq<u8>, Seq<u8>), Seq<char>> {
    match descifrado_spec(blob, clave) {
        Ok(x) => Ok(x),
        Err(e) => if intentos + 1 >= MAX_INTENTOS {
            Err(DEMASIADOS_INTENTOS@)
        } else {
            Err(e)
        },
    }
}

/// Un intento de desbloqueo sobre el contenido del archivo: devuelve los intentos fallidos que
/// quedan contados y lo descifrado o el error.
pub fn intentar_desbloqueo(intentos: u8, blob: &[u8], clave: &str) -> (r: (u8, Result<(Vec<u8>, [u8; 32], [u8; 16]), String>))
    requires
        intentos < MAX_INTENTOS,
    ensures
        r.0 == intentos_tras(intentos, blob@, clave.spec_bytes()),
        vista_descifrado(r.1) == intento_spec(intentos, blob@, clave.spec_bytes()),
{
    match descifrar(blob, clave) {
        Ok(x) => (intentos, Ok(x)),
        Err(e) => {
            let n = intentos + 1;
            if n >= MAX_INTENTOS {
                (n, Err(DEMASIADOS_INTENTOS.to_owned()))
            } else {
                (n, Err(e))
            }
        },
    }
}

/// Una clave aceptada ocupa a lo sumo 128 bytes en UTF-8, así que siempre se puede derivar su
/// llave.
pub proof fn ley_clave_valida_cabe(clave: &str, repetir: Option<Seq<char>>)
    requires
        clave_spec(clave@, repetir) is Ok,
    ensures
        clave.spec_bytes().len() <= 128,
{
    lema_largo_utf8_bytes(clave@);
}

/// Lo que se cifra con la llave derivada de una clave y una sal se abre con esa misma clave:
/// descifrar devuelve el texto plano, la llave y la sal.
pub proof fn ley_lo_cifrado_se_descifra(blob: Seq<u8>, plano: Seq<u8>, clave: Seq<u8>, salt: Seq<u8>)
    requires
        clave.len() <= 0xffff_ffff,
        abrir_sobre(blob, llave_de(clave, salt)) == Some((plano, salt)),
    ensures
        descifrado_spec(blob, clave) == Ok::<(Seq<u8>, Seq<u8>, Seq<u8>), Seq<char>>(
            (plano, llave_de(clave, salt), salt),
        ),
{
}

/// Con la clave que se eligió (una clave aceptada), el sobre que se cifró con su llave se abre en
/// cualquier intento que todavía se permita, y el intento no se cuenta como fallido.
pub proof fn ley_la_clave_abre(clave: &str, intentos: u8, blob: Seq<u8>, plano: Seq<u8>, salt: Seq<u8>)
    requires
        clave_spec(clave@, None) is Ok,
        intentos < MAX_INTENTOS,
        abrir_sobre(blob, llave_de(clave.spec_bytes(), salt)) == Some((plano, salt)),
    ensures
        intento_spec(intentos, blob, clave.spec_bytes()) == Ok::<(Seq<u8>, Seq<u8>, Seq<u8>), Seq<char>>(
            (plano, llave_de(clave.spec_bytes(), salt), salt),
        ),
        intentos_tras(intentos, blob, clave.spec_bytes()) == intentos,
{
    ley_clave_valida_cabe(clave, None);
    ley_lo_cifrado_se_descifra(blob, plano, clave.spec_bytes(), salt);
}

/// Un sobre cifrado se reconoce como cuaderno cifrado por sus primeros bytes, sea cual sea la
/// cantidad (8 o más) que se haya leído, y no empieza como un archivo SQLite.
pub proof fn ley_sobre_se_reconoce(salt: Seq<u8>, nonce: Seq<u8>, cuerpo: Seq<u8>, n: int)
    requires
        8 <= n <= sobre(salt, nonce, cuerpo).len(),
    ensures
        tipo_spec(Some(Some(sobre(salt, nonce, cuerpo).take(n)))) == TipoArchivo::Cifrado,
        sobre(salt, nonce, cuerpo).len() >= 15 ==> sobre(salt, nonce, cuerpo).take(15) != firma_sqlite(),
{
    let b = sobre(salt, nonce, cuerpo);
    assert(b.take(n).take(8) =~= magia());
    assert(b[0] == magia()[0]);
    if b.len() >= 15 {
        assert(b.take(15)[0] != firma_sqlite()[0]);
    }
}

/// Tres intentos fallidos seguidos bloquean el candado: a partir de ahí cualquier clave, aun la
/// correcta, se rechaza con el aviso de demasiados intentos.
pub proof fn ley_tres_fallos_bloquean(
    b1: Seq<u8>,
    c1: Seq<u8>,
    b2: Seq<u8>,
    c2: Seq<u8>,
    b3: Seq<u8>,
    c3: Seq<u8>,
    tipo: TipoArchivo,
    clave: Seq<char>,
)
    requires
        descifrado_spec(b1, c1) is Err,
        descifrado_spec(b2, c2) is Err,
        descifrado_spec(b3, c3) is Err,
        clave_spec(clave, None) is Ok,
    ensures
        intento_spec(intentos_tras(intentos_tras(0, b1, c1), b2, c2), b3, c3)
            == Err::<(Seq<u8>, Seq<u8>, Seq<u8>), Seq<char>>(DEMASIADOS_INTENTOS@),
        desbloqueo_spec(
            false,
            intentos_tras(intentos_tras(intentos_tras(0, b1, c1), b2, c2), b3, c3),
            tipo,
            clave,
        ) == Err::<PasoDesbloqueo, Seq<char>>(DEMASIADOS_INTENTOS@),
{
}


/// Con repetición, la clave se acepta solo si la repetición es la misma clave, carácter por
/// carácter; una repetición distinta de una clave de largo válido da el aviso de claves distintas.
pub proof fn ley_repeticion_igual(clave: Seq<char>, repetir: Seq<char>)
    ensures
        clave_spec(clave, Some(repetir)) is Ok ==> repetir == clave,
        clave.len() >= MIN_CLAVE && largo_utf8(clave) <= 128 && repetir != clave ==> clave_spec(clave, Some(repetir))
            == Err::<(), Seq<char>>(CLAVES_DISTINTAS@),
        clave.len() >= MIN_CLAVE && largo_utf8(clave) <= 128 ==> clave_spec(clave, Some(clave)) is Ok,
{
}


/// Una clave de menos de 8 caracteres se rechaza por corta, y una que pasa de 128 bytes en
/// UTF-8, por larga, con o sin repetición; una de 8 o más caracteres y hasta 128 bytes se acepta
/// sin repetición.
pub proof fn ley_largo_de_clave(clave: Seq<char>, repetir: Option<Seq<char>>)
    ensures
        clave.len() < 8 ==> clave_spec(clave, repetir) == Err::<(), Seq<char>>(CLAVE_CORTA@),
        clave.len() >= 8 && largo_utf8(clave) > 128 ==> clave_spec(clave, repetir) == Err::<(), Seq<char>>(CLAVE_LARGA@),
        clave.len() >= 8 && largo_utf8(clave) <= 128 ==> clave_spec(clave, None) is Ok,
{
}

} // verus!
