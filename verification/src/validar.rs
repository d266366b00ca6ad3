//! Reglas de validación y normalización de los datos que carga el docente.

use vstd::prelude::*;
use vstd::string::StringExecFns;
use crate::cadena::{
    ley_recorte_idempotente, lema_bordes_recortado, lema_sin_bordes, es_blanco,
    caracteres, cadena, recortar, digito, tiene, recortado, todos_ascii, es_ascii, ascii, todos_digitos, es_digito,
    valor_digito, valor_digitos, valor_tramo, cifras, largo_utf8,
    largo_utf8_hasta,
};

verus! {

pub const FECHA_FORMATO: &'static str = "La fecha debe ser YYYY-MM-DD.";
pub const FECHA_INVALIDA: &'static str = "La fecha no es válida.";
pub const TEXTO_OBLIGATORIO: &'static str = "El texto es obligatorio.";

/// Vista de un resultado de texto.
pub open spec fn vista_res(r: Result<String, String>) -> Result<Seq<char>, Seq<char>> {
    match r {
        Ok(s) => Ok(s@),
        Err(e) => Err(e@),
    }
}

/// Vista de un texto opcional.
pub open spec fn vista_opt(o: Option<String>) -> Option<Seq<char>> {
    match o {
        Some(s) => Some(s@),
        None => None,
    }
}

/// Un texto opcional recortado; vacío cuenta como ausente.
pub open spec fn texto_opcional(v: Option<Seq<char>>) -> Option<Seq<char>> {
    match v {
        Some(s) => if recortado(s).len() == 0 {
            None
        } else {
            Some(recortado(s))
        },
        None => None,
    }
}

/// Mensaje de campo obligatorio: `El {campo} es obligatorio.`
pub open spec fn mensaje_obligatorio(campo: Seq<char>) -> Seq<char> {
    "El "@ + campo + " es obligatorio."@
}

/// Texto obligatorio: recortado, y error si queda vacío.
pub open spec fn obligatorio(valor: Seq<char>, campo: Seq<char>) -> Result<Seq<char>, Seq<char>> {
    if recortado(valor).len() == 0 {
        Err(mensaje_obligatorio(campo))
    } else {
        Ok(recortado(valor))
    }
}

/// Los tres tramos numéricos de una fecha `YYYY-MM-DD` ya recortada.
pub open spec fn fecha_spec(t: Seq<char>) -> Result<Seq<char>, Seq<char>> {
    if !(t.len() == 10 && todos_ascii(t) && t[4] == '-' && t[7] == '-') {
        Err(FECHA_FORMATO@)
    } else {
        match (cifras(t.subrange(0, 4)), cifras(t.subrange(5, 7)), cifras(t.subrange(8, 10))) {
            (Some(y), Some(m), Some(d)) => if 2000 <= y <= 2100 && 1 <= m <= 12 && 1 <= d <= 31 {
                Ok(t)
            } else {
                Err(FECHA_INVALIDA@)
            },
            _ => Err(FECHA_FORMATO@),
        }
    }
}

/// Una fecha tal como la carga el docente: se recorta y se valida.
pub open spec fn fecha_valida(valor: Seq<char>) -> Result<Seq<char>, Seq<char>> {
    fecha_spec(recortado(valor))
}

/// Vuelve a armar un texto opcional recortado.
pub fn opt_text(value: Option<String>) -> (r: Option<String>)
    ensures
        vista_opt(r) == texto_opcional(vista_opt(value)),
{
    match value {
        None => None,
        Some(s) => {
            let t = recortar(s.as_str());
            if t.len() == 0 {
                None
            } else {
                Some(cadena(&t))
            }
        },
    }
}

/// Texto obligatorio recortado; si queda vacío, `El {campo} es obligatorio.`
pub fn require_nombre(nombre: &str, campo: &str) -> (r: Result<String, String>)
    ensures
        vista_res(r) == obligatorio(nombre@, campo@),
{
    let t = recortar(nombre);
    if t.len() == 0 {
        let mut m = "El ".to_owned();
        m.append(campo);
        m.append(" es obligatorio.");
        Err(m)
    } else {
        Ok(cadena(&t))
    }
}

/// Texto de una observación: recortado y obligatorio.
pub fn require_texto(value: &str) -> (r: Result<String, String>)
    ensures
        recortado(value@).len() == 0 ==> (r matches Err(e) && e@ == TEXTO_OBLIGATORIO@),
        recortado(value@).len() > 0 ==> (r matches Ok(s) && s@ == recortado(value@)),
{
    let t = recortar(value);
    if t.len() == 0 {
        Err(TEXTO_OBLIGATORIO.to_owned())
    } else {
        Ok(cadena(&t))
    }
}

/// Todos los caracteres de `v` son ASCII.
pub fn todo_ascii(v: &Vec<char>) -> (r: bool)
    ensures
        r == todos_ascii(v@),
{
    let mut i: usize = 0;
    while i < v.len()
        invariant
            i <= v.len(),
            forall|k: int| 0 <= k < i ==> es_ascii(#[trigger] v@[k]),
        decreases v.len() - i,
    {
        if !ascii(v[i]) {
            return false;
        }
        i = i + 1;
    }
    true
}

pub open spec fn potencia10(n: nat) -> nat
    decreases n,
{
    if n == 0 {
        1
    } else {
        10 * potencia10((n - 1) as nat)
    }
}

pub proof fn lema_potencias()
    ensures
        potencia10(1) == 10,
        potencia10(2) == 100,
        potencia10(3) == 1000,
        potencia10(4) == 10000,
{
    assert(potencia10(0) == 1);
    assert(potencia10(1) == 10);
    assert(potencia10(2) == 100);
    assert(potencia10(3) == 1000);
    assert(potencia10(4) == 10000);
}

pub proof fn lema_cota_digitos(s: Seq<char>)
    requires
        todos_digitos(s),
    ensures
        valor_digitos(s) < potencia10(s.len()),
    decreases s.len(),
{
    if s.len() > 0 {
        let t = s.drop_last();
        assert forall|i: int| 0 <= i < t.len() implies es_digito(#[trigger] t[i]) by {
            assert(t[i] == s[i]);
        }
        lema_cota_digitos(t);
        assert(es_digito(s[s.len() - 1]));
        assert(valor_digito(s.last()) < 10);
        assert(valor_digitos(s) == valor_digitos(t) * 10 + valor_digito(s.last()));
    }
}

/// Las cifras de `v[desde..hasta]`, un tramo de uno a cuatro caracteres.
pub fn cifras_tramo(v: &Vec<char>, desde: usize, hasta: usize) -> (r: Option<u64>)
    requires
        desde < hasta <= v.len(),
        hasta - desde <= 4,
    ensures
        r matches Some(n) ==> cifras(v@.subrange(desde as int, hasta as int)) == Some(n as nat),
        r is None ==> cifras(v@.subrange(desde as int, hasta as int)) is None,
{
    let ghost s = v@.subrange(desde as int, hasta as int);
    proof {
        if todos_digitos(s) {
            lema_cota_digitos(s);
            lema_potencias();
            assert(potencia10(s.len()) <= 10000);
        }
    }
    valor_tramo(v, desde, hasta, 9999)
}

/// `require_fecha` sobre caracteres ya recortados.
pub fn fecha_de(t: &Vec<char>) -> (r: Result<(), &'static str>)
    ensures
        r matches Ok(_) ==> fecha_spec(t@) == Ok::<Seq<char>, Seq<char>>(t@),
        r matches Err(e) ==> fecha_spec(t@) == Err::<Seq<char>, Seq<char>>(e@),
{
    if !(t.len() == 10 && todo_ascii(t) && t[4] == '-' && t[7] == '-') {
        return Err(FECHA_FORMATO);
    }
    let y = cifras_tramo(t, 0, 4);
    let m = cifras_tramo(t, 5, 7);
    let d = cifras_tramo(t, 8, 10);
    match (y, m, d) {
        (Some(yv), Some(mv), Some(dv)) => {
            if 2000 <= yv && yv <= 2100 && 1 <= mv && mv <= 12 && 1 <= dv && dv <= 31 {
                Ok(())
            } else {
                Err(FECHA_INVALIDA)
            }
        },
        _ => Err(FECHA_FORMATO),
    }
}

/// Fecha `YYYY-MM-DD` recortada; año entre 2000 y 2100, mes 1 a 12, día 1 a 31.
pub fn require_fecha(value: &str) -> (r: Result<String, String>)
    ensures
        vista_res(r) == fecha_valida(value@),
{
    let t = recortar(value);
    match fecha_de(&t) {
        Ok(()) => Ok(cadena(&t)),
        Err(e) => Err(e.to_owned()),
    }
}


pub const HORA_FORMATO: &'static str = "La hora debe ser HH:MM.";
pub const HORA_INVALIDA: &'static str = "La hora no es válida.";
pub const DIA_INVALIDO: &'static str = "El día debe ser entre 1 (lunes) y 7 (domingo).";
pub const FIN_ANTES_DE_INICIO: &'static str = "La hora de fin debe ser posterior a la de inicio.";

/// Hora `HH:MM` ya recortada: exactamente un `:`, dos caracteres a cada lado, hora 0 a 23 y minutos 0 a 59.
pub open spec fn hhmm_spec(t: Seq<char>) -> Option<(nat, nat)> {
    if t.len() == 5 && t[2] == ':' {
        match (cifras(t.subrange(0, 2)), cifras(t.subrange(3, 5))) {
            (Some(h), Some(m)) => if h <= 23 && m <= 59 {
                Some((h, m))
            } else {
                None
            },
            _ => None,
        }
    } else {
        None
    }
}

/// Dígito decimal `d` como carácter.
pub open spec fn char_digito(d: nat) -> char {
    (('0' as u32) + d) as char
}

/// `n` con dos cifras (`{n:02}`).
pub open spec fn dos_cifras(n: nat) -> Seq<char> {
    seq![char_digito(n / 10), char_digito(n % 10)]
}

/// `HH:MM` con dos cifras cada parte.
pub open spec fn hora_texto(h: nat, m: nat) -> Seq<char> {
    dos_cifras(h) + seq![':'] + dos_cifras(m)
}

/// Inicio y fin de un bloque: las dos horas válidas y el fin estrictamente después del inicio.
pub open spec fn rango_spec(inicio: Seq<char>, fin: Seq<char>) -> Result<(Seq<char>, Seq<char>), Seq<char>> {
    match (hhmm_spec(recortado(inicio)), hhmm_spec(recortado(fin))) {
        (Some((ih, im)), Some((fh, fm))) => if fh * 60 + fm <= ih * 60 + im {
            Err(FIN_ANTES_DE_INICIO@)
        } else {
            Ok((hora_texto(ih, im), hora_texto(fh, fm)))
        },
        _ => Err(HORA_FORMATO@),
    }
}

/// Hora y minutos de `HH:MM` (se recorta antes).
pub fn parse_hhmm(value: &str) -> (r: Result<(u8, u8), String>)
    ensures
        r matches Ok((h, m)) ==> hhmm_spec(recortado(value@)) == Some((h as nat, m as nat)),
        r matches Err(e) ==> hhmm_spec(recortado(value@)) is None && e@ == HORA_FORMATO@,
{
    let t = recortar(value);
    if !(t.len() == 5 && t[2] == ':') {
        return Err(HORA_FORMATO.to_owned());
    }
    let h = cifras_tramo(&t, 0, 2);
    let m = cifras_tramo(&t, 3, 5);
    match (h, m) {
        (Some(h), Some(m)) => {
            if h <= 23 && m <= 59 {
                Ok((h as u8, m as u8))
            } else {
                Err(HORA_FORMATO.to_owned())
            }
        },
        _ => Err(HORA_FORMATO.to_owned()),
    }
}

fn char_de_digito(d: u8) -> (c: char)
    requires
        d < 10,
    ensures
        c == char_digito(d as nat),
{
    let b: u8 = 48 + d;
    b as char
}

fn texto_hora(h: u8, m: u8) -> (s: String)
    requires
        h < 100,
        m < 100,
    ensures
        s@ == hora_texto(h as nat, m as nat),
{
    let mut v: Vec<char> = Vec::new();
    v.push(char_de_digito(h / 10));
    v.push(char_de_digito(h % 10));
    v.push(':');
    v.push(char_de_digito(m / 10));
    v.push(char_de_digito(m % 10));
    assert(v@ == hora_texto(h as nat, m as nat));
    cadena(&v)
}

/// Normaliza inicio y fin de un bloque a `HH:MM`; el fin tiene que ser posterior al inicio.
pub fn require_rango(inicio: &str, fin: &str) -> (r: Result<(String, String), String>)
    ensures
        match r {
            Ok((a, b)) => rango_spec(inicio@, fin@) == Ok::<(Seq<char>, Seq<char>), Seq<char>>((a@, b@)),
            Err(e) => rango_spec(inicio@, fin@) == Err::<(Seq<char>, Seq<char>), Seq<char>>(e@),
        },
{
    let (ih, im) = match parse_hhmm(inicio) {
        Ok(x) => x,
        Err(e) => return Err(e),
    };
    let (fh, fm) = match parse_hhmm(fin) {
        Ok(x) => x,
        Err(e) => return Err(e),
    };
    let start: u16 = (ih as u16) * 60 + (im as u16);
    let end: u16 = (fh as u16) * 60 + (fm as u16);
    if end <= start {
        return Err(FIN_ANTES_DE_INICIO.to_owned());
    }
    Ok((texto_hora(ih, im), texto_hora(fh, fm)))
}

/// Día de la semana ISO: 1 (lunes) a 7 (domingo).
pub fn require_dia(dia: i64) -> (r: Result<i64, String>)
    ensures
        1 <= dia <= 7 ==> r == Ok::<i64, String>(dia),
        !(1 <= dia <= 7) ==> (r matches Err(e) && e@ == DIA_INVALIDO@),
{
    if 1 <= dia && dia <= 7 {
        Ok(dia)
    } else {
        Err(DIA_INVALIDO.to_owned())
    }
}

/// Hora opcional de un evento: vacía es `None`; `HH:MM:SS` se corta a `HH:MM`.
pub open spec fn hora_opcional(v: Option<Seq<char>>) -> Result<Option<Seq<char>>, Seq<char>> {
    match texto_opcional(v) {
        None => Ok(None),
        Some(r) => {
            let t = if r.len() > 5 && todos_ascii(r.take(5)) && r[5] == ':' && largo_utf8(r) >= 8 {
                r.take(5)
            } else {
                r
            };
            if !(t.len() == 5 && todos_ascii(t) && t[2] == ':') {
                Err(HORA_FORMATO@)
            } else {
                match (cifras(t.subrange(0, 2)), cifras(t.subrange(3, 5))) {
                    (Some(h), Some(m)) => if h > 23 || m > 59 {
                        Err(HORA_INVALIDA@)
                    } else {
                        Ok(Some(t))
                    },
                    _ => Err(HORA_FORMATO@),
                }
            }
        },
    }
}

pub open spec fn vista_res_opt(r: Result<Option<String>, String>) -> Result<Option<Seq<char>>, Seq<char>> {
    match r {
        Ok(o) => Ok(vista_opt(o)),
        Err(e) => Err(e@),
    }
}

/// Hora opcional `HH:MM` (o `HH:MM:SS`, que se corta).
pub fn opt_hora(value: Option<String>) -> (r: Result<Option<String>, String>)
    ensures
        vista_res_opt(r) == hora_opcional(vista_opt(value)),
{
    let raw = match value {
        None => return Ok(None),
        Some(s) => recortar(s.as_str()),
    };
    if raw.len() == 0 {
        return Ok(None);
    }
    let largo = largo_utf8_hasta(&raw, 8);
    let mut pre: Vec<char> = Vec::new();
    if raw.len() > 5 {
        let mut i: usize = 0;
        while i < 5
            invariant
                i <= 5 < raw.len(),
                pre@ == raw@.take(i as int),
            decreases 5 - i,
        {
            pre.push(raw[i]);
            assert(raw@.take(i as int + 1) == raw@.take(i as int).push(raw@[i as int]));
            i = i + 1;
        }
    }
    let corta = raw.len() > 5 && todo_ascii(&pre) && raw[5] == ':' && largo >= 8;
    let t: Vec<char> = if corta {
        pre
    } else {
        raw
    };
    if !(t.len() == 5 && todo_ascii(&t) && t[2] == ':') {
        return Err(HORA_FORMATO.to_owned());
    }
    let h = cifras_tramo(&t, 0, 2);
    let m = cifras_tramo(&t, 3, 5);
    match (h, m) {
        (Some(h), Some(m)) => {
            if h > 23 || m > 59 {
                Err(HORA_INVALIDA.to_owned())
            } else {
                Ok(Some(cadena(&t)))
            }
        },
        _ => Err(HORA_FORMATO.to_owned()),
    }
}


pub const POND_INVALIDA: &'static str = "La ponderación no es un decimal válido.";
pub const POND_CERO: &'static str = "La ponderación debe ser mayor que 0.";
pub const NOTA_INVALIDA: &'static str = "La nota no es un decimal válido.";
pub const NOTA_RANGO: &'static str = "La nota tiene que estar entre 1 y 10.";

/// Posición del primer `c` en `s`, o -1 si no está.
pub open spec fn primer_indice(s: Seq<char>, c: char) -> int
    decreases s.len(),
{
    if s.len() == 0 {
        -1
    } else if s[0] == c {
        0
    } else if primer_indice(s.drop_first(), c) < 0 {
        -1
    } else {
        primer_indice(s.drop_first(), c) + 1
    }
}

/// La parte antes del primer `.` (todo, si no hay punto).
pub open spec fn parte_entera(t: Seq<char>) -> Seq<char> {
    if primer_indice(t, '.') < 0 {
        t
    } else {
        t.take(primer_indice(t, '.'))
    }
}

/// La parte después del primer `.` (vacía, si no hay punto).
pub open spec fn parte_decimal(t: Seq<char>) -> Seq<char> {
    if primer_indice(t, '.') < 0 {
        Seq::empty()
    } else {
        t.skip(primer_indice(t, '.') + 1)
    }
}

/// Coma decimal cambiada por punto.
pub open spec fn coma_a_punto(s: Seq<char>) -> Seq<char> {
    s.map_values(|c: char| if c == ',' { '.' } else { c })
}

/// Texto decimal tal como se guarda: recortado y con punto.
pub open spec fn decimal_normalizado(raw: Seq<char>) -> Seq<char> {
    coma_a_punto(recortado(raw))
}

pub open spec fn tiene_exponente(t: Seq<char>) -> bool {
    t.contains('e') || t.contains('E') || t.contains('+')
}

/// Dígitos, opcionalmente un punto y más dígitos; al menos un dígito antes del punto.
pub open spec fn forma_decimal(t: Seq<char>) -> bool {
    parte_entera(t).len() > 0 && todos_digitos(parte_entera(t)) && todos_digitos(parte_decimal(t))
}

pub open spec fn solo_ceros(s: Seq<char>) -> bool {
    forall|i: int| 0 <= i < s.len() ==> s[i] == '0'
}

/// Ponderación de una evaluación: vacía vale `1`; si no, un decimal mayor que cero.
pub open spec fn ponderacion_spec(raw: Seq<char>) -> Result<Seq<char>, Seq<char>> {
    let t = decimal_normalizado(raw);
    if t.len() == 0 {
        Ok("1"@)
    } else if tiene_exponente(t) || !forma_decimal(t) {
        Err(POND_INVALIDA@)
    } else if solo_ceros(parte_entera(t)) && solo_ceros(parte_decimal(t)) {
        Err(POND_CERO@)
    } else {
        Ok(t)
    }
}

/// Un decimal no negativo escrito con dígitos y a lo sumo un punto.
pub open spec fn decimal_spec(raw: Seq<char>) -> Result<Seq<char>, Seq<char>> {
    let t = decimal_normalizado(raw);
    if t.len() == 0 || tiene_exponente(t) || !forma_decimal(t) {
        Err(NOTA_INVALIDA@)
    } else {
        Ok(t)
    }
}

/// Nota de 1 a 10 (10 sin decimales distintos de cero).
pub open spec fn nota_valor_spec(raw: Seq<char>) -> Result<Seq<char>, Seq<char>> {
    match decimal_spec(raw) {
        Err(e) => Err(e),
        Ok(t) => {
            let n = valor_digitos(parte_entera(t));
            if n > u32::MAX {
                Err(NOTA_INVALIDA@)
            } else if n > 10 || (n == 10 && !solo_ceros(parte_decimal(t))) || n < 1 {
                Err(NOTA_RANGO@)
            } else {
                Ok(t)
            }
        },
    }
}

pub proof fn lema_primer_indice_rango(s: Seq<char>, c: char)
    ensures
        -1 <= primer_indice(s, c) < s.len(),
        primer_indice(s, c) >= 0 ==> s[primer_indice(s, c)] == c,
    decreases s.len(),
{
    if s.len() > 0 {
        lema_primer_indice_rango(s.drop_first(), c);
    }
}

pub proof fn lema_primer_indice(s: Seq<char>, c: char, i: int)
    requires
        0 <= i <= s.len(),
        forall|k: int| 0 <= k < i ==> s[k] != c,
        i < s.len() ==> s[i] == c,
    ensures
        i < s.len() ==> primer_indice(s, c) == i,
        i == s.len() ==> primer_indice(s, c) == -1,
    decreases i,
{
    if i > 0 {
        let t = s.drop_first();
        assert forall|k: int| 0 <= k < i - 1 implies t[k] != c by {
            assert(t[k] == s[k + 1]);
        }
        if i < s.len() {
            assert(t[i - 1] == s[i]);
        }
        lema_primer_indice(t, c, i - 1);
    }
}

/// Recorta y cambia comas por puntos.
fn normalizar_decimal(raw: &str) -> (t: Vec<char>)
    ensures
        t@ == decimal_normalizado(raw@),
{
    let v = recortar(raw);
    let mut t: Vec<char> = Vec::new();
    let mut i: usize = 0;
    while i < v.len()
        invariant
            i <= v.len(),
            t@ == coma_a_punto(v@.take(i as int)),
        decreases v.len() - i,
    {
        let c = v[i];
        t.push(if c == ',' { '.' } else { c });
        assert(coma_a_punto(v@.take(i as int + 1)) == coma_a_punto(v@.take(i as int)).push(
            if c == ',' { '.' } else { c },
        ));
        i = i + 1;
    }
    assert(v@.take(v.len() as int) == v@);
    t
}

/// Posición del primer `c` en `v`, o `v.len()` si no está.
fn posicion(v: &Vec<char>, c: char) -> (r: usize)
    ensures
        r <= v.len(),
        r < v.len() ==> primer_indice(v@, c) == r,
        r == v.len() ==> primer_indice(v@, c) == -1,
{
    let mut i: usize = 0;
    while i < v.len() && v[i] != c
        invariant
            i <= v.len(),
            forall|k: int| 0 <= k < i ==> v@[k] != c,
        decreases v.len() - i,
    {
        i = i + 1;
    }
    proof {
        lema_primer_indice(v@, c, i as int);
    }
    i
}

fn tramo_digitos(v: &Vec<char>, desde: usize, hasta: usize) -> (r: bool)
    requires
        desde <= hasta <= v.len(),
    ensures
        r == todos_digitos(v@.subrange(desde as int, hasta as int)),
{
    let mut i = desde;
    while i < hasta
        invariant
            desde <= i <= hasta <= v.len(),
            forall|k: int| desde <= k < i ==> es_digito(#[trigger] v@[k]),
        decreases hasta - i,
    {
        if !digito(v[i]) {
            assert(v@.subrange(desde as int, hasta as int)[i - desde] == v@[i as int]);
            return false;
        }
        i = i + 1;
    }
    assert forall|k: int| 0 <= k < hasta - desde implies es_digito(
        #[trigger] v@.subrange(desde as int, hasta as int)[k],
    ) by {
        assert(v@.subrange(desde as int, hasta as int)[k] == v@[k + desde]);
    }
    true
}

fn tramo_ceros(v: &Vec<char>, desde: usize, hasta: usize) -> (r: bool)
    requires
        desde <= hasta <= v.len(),
    ensures
        r == solo_ceros(v@.subrange(desde as int, hasta as int)),
{
    let mut i = desde;
    while i < hasta
        invariant
            desde <= i <= hasta <= v.len(),
            forall|k: int| desde <= k < i ==> v@[k] == '0',
        decreases hasta - i,
    {
        if v[i] != '0' {
            assert(v@.subrange(desde as int, hasta as int)[i - desde] == v@[i as int]);
            return false;
        }
        i = i + 1;
    }
    assert forall|k: int| 0 <= k < hasta - desde implies v@.subrange(desde as int, hasta as int)[k]
        == '0' by {
        assert(v@.subrange(desde as int, hasta as int)[k] == v@[k + desde]);
    }
    true
}

/// Dónde termina la parte entera y dónde empieza la decimal.
fn cortes_decimal(t: &Vec<char>) -> (r: (usize, usize))
    ensures
        r.0 <= r.1 <= t.len(),
        t@.subrange(0, r.0 as int) == parte_entera(t@),
        t@.subrange(r.1 as int, t.len() as int) == parte_decimal(t@),
{
    let p = posicion(t, '.');
    if p < t.len() {
        assert(t@.subrange(0, p as int) == t@.take(p as int));
        assert(t@.subrange(p + 1, t.len() as int) == t@.skip(p + 1));
        (p, p + 1)
    } else {
        assert(t@.subrange(0, p as int) == t@);
        assert(t@.subrange(p as int, t.len() as int) == Seq::<char>::empty());
        (p, p)
    }
}

fn con_exponente(t: &Vec<char>) -> (r: bool)
    ensures
        r == tiene_exponente(t@),
{
    tiene(t, 'e') || tiene(t, 'E') || tiene(t, '+')
}

/// Ponderación decimal (coma o punto); vacía vale `1`; tiene que ser mayor que cero.
pub fn require_ponderacion(raw: &str) -> (r: Result<String, String>)
    ensures
        vista_res(r) == ponderacion_spec(raw@),
{
    let t = normalizar_decimal(raw);
    if t.len() == 0 {
        return Ok("1".to_owned());
    }
    if con_exponente(&t) {
        return Err(POND_INVALIDA.to_owned());
    }
    let (a, b) = cortes_decimal(&t);
    if !(a > 0 && tramo_digitos(&t, 0, a) && tramo_digitos(&t, b, t.len())) {
        return Err(POND_INVALIDA.to_owned());
    }
    if tramo_ceros(&t, 0, a) && tramo_ceros(&t, b, t.len()) {
        return Err(POND_CERO.to_owned());
    }
    Ok(cadena(&t))
}

/// Decimal no negativo con coma o punto.
pub fn parse_decimal(raw: &str) -> (r: Result<String, String>)
    ensures
        vista_res(r) == decimal_spec(raw@),
{
    let t = normalizar_decimal(raw);
    if t.len() == 0 || con_exponente(&t) {
        return Err(NOTA_INVALIDA.to_owned());
    }
    let (a, b) = cortes_decimal(&t);
    if !(a > 0 && tramo_digitos(&t, 0, a) && tramo_digitos(&t, b, t.len())) {
        return Err(NOTA_INVALIDA.to_owned());
    }
    Ok(cadena(&t))
}

/// Nota decimal de 1 a 10.
pub fn require_valor_1_10(raw: &str) -> (r: Result<String, String>)
    ensures
        vista_res(r) == nota_valor_spec(raw@),
{
    let s = match parse_decimal(raw) {
        Ok(s) => s,
        Err(e) => return Err(e),
    };
    let t = caracteres(s.as_str());
    let (a, b) = cortes_decimal(&t);
    let n = match valor_tramo(&t, 0, a, 0xffff_ffff) {
        Some(n) => n,
        None => return Err(NOTA_INVALIDA.to_owned()),
    };
    if n > 10 || (n == 10 && !tramo_ceros(&t, b, t.len())) || n < 1 {
        return Err(NOTA_RANGO.to_owned());
    }
    Ok(s)
}

/// `n` en decimal, sin ceros a la izquierda.
pub open spec fn en_decimal(n: nat) -> Seq<char>
    decreases n,
{
    if n < 10 {
        seq![char_digito(n)]
    } else {
        en_decimal(n / 10) + seq![char_digito(n % 10)]
    }
}

/// `k` ceros.
pub open spec fn ceros(k: nat) -> Seq<char> {
    Seq::new(k, |i: int| '0')
}

/// `s` con ceros a la izquierda hasta `ancho` caracteres.
pub open spec fn relleno(s: Seq<char>, ancho: nat) -> Seq<char> {
    if s.len() < ancho {
        ceros((ancho - s.len()) as nat) + s
    } else {
        s
    }
}

/// Un año con al menos cuatro caracteres, contando el signo (`{a:04}`).
pub open spec fn cuatro_cifras(a: int) -> Seq<char> {
    if a >= 0 {
        relleno(en_decimal(a as nat), 4)
    } else {
        seq!['-'] + relleno(en_decimal((-a) as nat), 3)
    }
}

fn decimal_de(n: u64) -> (r: Vec<char>)
    ensures
        r@ == en_decimal(n as nat),
    decreases n,
{
    if n < 10 {
        let mut v: Vec<char> = Vec::new();
        v.push(char_de_digito(n as u8));
        v
    } else {
        let mut v = decimal_de(n / 10);
        v.push(char_de_digito((n % 10) as u8));
        v
    }
}

fn rellenar(s: Vec<char>, ancho: usize) -> (r: Vec<char>)
    ensures
        r@ == relleno(s@, ancho as nat),
{
    if s.len() >= ancho {
        return s;
    }
    let k = ancho - s.len();
    let mut r: Vec<char> = Vec::new();
    let mut i: usize = 0;
    while i < k
        invariant
            i <= k,
            r@ == ceros(i as nat),
        decreases k - i,
    {
        r.push('0');
        assert(r@ =~= ceros((i + 1) as nat));
        i = i + 1;
    }
    let mut j: usize = 0;
    while j < s.len()
        invariant
            j <= s.len(),
            r@ == ceros(k as nat) + s@.take(j as int),
        decreases s.len() - j,
    {
        r.push(s[j]);
        assert(s@.take(j as int + 1) =~= s@.take(j as int).push(s@[j as int]));
        assert(r@ =~= ceros(k as nat) + s@.take(j as int + 1));
        j = j + 1;
    }
    assert(s@.take(s.len() as int) =~= s@);
    r
}

/// El año como texto de al menos cuatro caracteres (`{a:04}`).
pub fn anio_cuatro_cifras(a: i64) -> (r: String)
    ensures
        r@ == cuatro_cifras(a as int),
{
    if a >= 0 {
        let v = rellenar(decimal_de(a as u64), 4);
        cadena(&v)
    } else {
        let m: u64 = ((-(a + 1)) as u64) + 1;
        let v = rellenar(decimal_de(m), 3);
        let mut w: Vec<char> = Vec::new();
        w.push('-');
        let mut j: usize = 0;
        while j < v.len()
            invariant
                j <= v.len(),
                w@ == seq!['-'] + v@.take(j as int),
            decreases v.len() - j,
        {
            w.push(v[j]);
            assert(v@.take(j as int + 1) =~= v@.take(j as int).push(v@[j as int]));
            assert(w@ =~= seq!['-'] + v@.take(j as int + 1));
            j = j + 1;
        }
        assert(v@.take(v.len() as int) =~= v@);
        cadena(&w)
    }
}

/// Numerador del número que escribe un decimal `t` (parte entera, punto, parte decimal), sobre
/// `denominador(t)`.
pub open spec fn numerador(t: Seq<char>) -> nat {
    valor_digitos(parte_entera(t)) * potencia10(parte_decimal(t).len()) + valor_digitos(parte_decimal(t))
}

/// `10^k`, con `k` la cantidad de cifras decimales de `t`.
pub open spec fn denominador(t: Seq<char>) -> nat {
    potencia10(parte_decimal(t).len())
}

proof fn lema_potencia_positiva(n: nat)
    ensures
        potencia10(n) >= 1,
    decreases n,
{
    if n > 0 {
        lema_potencia_positiva((n - 1) as nat);
    }
}

proof fn lema_ceros(s: Seq<char>)
    requires
        todos_digitos(s),
    ensures
        (valor_digitos(s) == 0) <==> solo_ceros(s),
    decreases s.len(),
{
    if s.len() > 0 {
        let t = s.drop_last();
        assert forall|i: int| 0 <= i < t.len() implies es_digito(#[trigger] t[i]) by {
            assert(t[i] == s[i]);
        }
        lema_ceros(t);
        assert(es_digito(s[s.len() - 1]));
        if solo_ceros(s) {
            assert forall|i: int| 0 <= i < t.len() implies t[i] == '0' by {
                assert(t[i] == s[i]);
            }
            assert(s.last() == '0');
        }
        if solo_ceros(t) && s.last() == '0' {
            assert forall|i: int| 0 <= i < s.len() implies s[i] == '0' by {
                if i < t.len() {
                    assert(t[i] == s[i]);
                }
            }
        }
    }
}

proof fn lema_partes(t: Seq<char>)
    requires
        forma_decimal(t),
    ensures
        valor_digitos(parte_decimal(t)) < denominador(t),
        denominador(t) >= 1,
        (valor_digitos(parte_entera(t)) == 0) <==> solo_ceros(parte_entera(t)),
        (valor_digitos(parte_decimal(t)) == 0) <==> solo_ceros(parte_decimal(t)),
{
    lema_cota_digitos(parte_decimal(t));
    lema_potencia_positiva(parte_decimal(t).len());
    lema_ceros(parte_entera(t));
    lema_ceros(parte_decimal(t));
}

/// Una nota se acepta si y solo si es un decimal bien escrito cuyo valor está entre 1 y 10
/// (ambos incluidos); lo que se guarda es ese decimal.
pub proof fn ley_nota_en_escala(raw: Seq<char>)
    ensures
        nota_valor_spec(raw) is Ok <==> (decimal_spec(raw) matches Ok(t) && denominador(t) <= numerador(t)
            <= 10 * denominador(t)),
        nota_valor_spec(raw) is Ok ==> nota_valor_spec(raw) == decimal_spec(raw),
{
    match decimal_spec(raw) {
        Err(_) => {},
        Ok(t) => {
            lema_partes(t);
            let e = valor_digitos(parte_entera(t));
            let f = valor_digitos(parte_decimal(t));
            let d = denominador(t);
            assert(numerador(t) == e * d + f);
            if e >= 11 {
                assert(e * d + f > 10 * d) by (nonlinear_arith)
                    requires
                        e >= 11,
                        d >= 1,
                ;
            } else if e == 10 {
                assert(e * d == 10 * d);
            } else if e == 0 {
                assert(e * d == 0) by (nonlinear_arith)
                    requires
                        e == 0,
                ;
            } else {
                assert(d <= e * d <= 9 * d) by (nonlinear_arith)
                    requires
                        1 <= e <= 9,
                        d >= 1,
                ;
            }
        },
    }
}

/// Una ponderación vacía vale `1`; si no, se acepta si y solo si es un decimal bien escrito mayor
/// que cero, y lo que se guarda es ese decimal.
pub proof fn ley_ponderacion_positiva(raw: Seq<char>)
    ensures
        decimal_normalizado(raw).len() == 0 ==> ponderacion_spec(raw) == Ok::<Seq<char>, Seq<char>>("1"@),
        decimal_normalizado(raw).len() > 0 ==> (ponderacion_spec(raw) is Ok <==> (decimal_spec(raw) matches Ok(t)
            && numerador(t) > 0)),
        decimal_normalizado(raw).len() > 0 && ponderacion_spec(raw) is Ok ==> ponderacion_spec(raw) == decimal_spec(raw),
{
    match decimal_spec(raw) {
        Err(_) => {},
        Ok(t) => {
            lema_partes(t);
            let e = valor_digitos(parte_entera(t));
            let f = valor_digitos(parte_decimal(t));
            let d = denominador(t);
            if e > 0 {
                assert(e * d >= 1) by (nonlinear_arith)
                    requires
                        e >= 1,
                        d >= 1,
                ;
            } else {
                assert(e * d == 0) by (nonlinear_arith)
                    requires
                        e == 0,
                ;
            }
        },
    }
}

/// Un texto obligatorio ya aceptado se vuelve a aceptar igual.
pub proof fn ley_obligatorio_estable(v: Seq<char>, campo: Seq<char>)
    ensures
        obligatorio(v, campo) matches Ok(t) ==> obligatorio(t, campo) == Ok::<Seq<char>, Seq<char>>(t),
{
    ley_recorte_idempotente(v);
}

/// Un texto opcional ya normalizado queda igual.
pub proof fn ley_texto_opcional_estable(o: Option<Seq<char>>)
    ensures
        texto_opcional(texto_opcional(o)) == texto_opcional(o),
{
    match o {
        Some(s) => ley_recorte_idempotente(s),
        None => {},
    }
}

/// Una fecha ya aceptada se vuelve a aceptar igual.
pub proof fn ley_fecha_estable(v: Seq<char>)
    ensures
        fecha_valida(v) matches Ok(t) ==> fecha_valida(t) == Ok::<Seq<char>, Seq<char>>(t),
{
    ley_recorte_idempotente(v);
}

/// Un decimal ya normalizado (recortado y con punto) queda igual al normalizarlo otra vez.
proof fn lema_normalizado_estable(raw: Seq<char>)
    ensures
        decimal_normalizado(decimal_normalizado(raw)) == decimal_normalizado(raw),
{
    let r = recortado(raw);
    let t = coma_a_punto(r);
    lema_bordes_recortado(raw);
    if t.len() > 0 {
        assert(t[0] == (if r[0] == ',' { '.' } else { r[0] }));
        assert(t.last() == (if r.last() == ',' { '.' } else { r.last() }));
    }
    lema_sin_bordes(t);
    assert(coma_a_punto(t) =~= t);
}

/// Una ponderación ya aceptada se vuelve a aceptar igual.
pub proof fn ley_ponderacion_estable(raw: Seq<char>)
    ensures
        ponderacion_spec(raw) matches Ok(t) ==> ponderacion_spec(t) == Ok::<Seq<char>, Seq<char>>(t),
{
    lema_normalizado_estable(raw);
    if decimal_normalizado(raw).len() == 0 {
        reveal_strlit("1");
        assert(recortado("1"@) == "1"@) by {
            lema_sin_bordes("1"@);
        }
        assert(coma_a_punto("1"@) =~= "1"@);
        assert(forma_decimal("1"@)) by {
            assert(primer_indice("1"@, '.') == -1) by {
                assert(primer_indice("1"@.drop_first(), '.') == -1);
            }
        }
        assert(!solo_ceros(parte_entera("1"@)));
    }
}

/// Una nota aceptada no es vacía y ya está recortada.
pub proof fn lema_decimal_estable(raw: Seq<char>)
    ensures
        nota_valor_spec(raw) matches Ok(t) ==> recortado(t) == t && t.len() > 0,
{
    lema_normalizado_estable(raw);
    if nota_valor_spec(raw) is Ok {
        let t = decimal_normalizado(raw);
        lema_bordes_recortado(raw);
        let r = recortado(raw);
        if t.len() > 0 {
            assert(t[0] == (if r[0] == ',' { '.' } else { r[0] }));
            assert(t.last() == (if r.last() == ',' { '.' } else { r.last() }));
        }
        lema_sin_bordes(t);
    }
}

/// Una nota ya aceptada se vuelve a aceptar igual.
pub proof fn ley_nota_estable(raw: Seq<char>)
    ensures
        nota_valor_spec(raw) matches Ok(t) ==> nota_valor_spec(t) == Ok::<Seq<char>, Seq<char>>(t),
{
    lema_normalizado_estable(raw);
}

proof fn lema_dos_cifras(n: nat)
    requires
        n < 100,
    ensures
        dos_cifras(n).len() == 2,
        cifras(dos_cifras(n)) == Some(n),
        !es_blanco(dos_cifras(n)[0]) && !es_blanco(dos_cifras(n)[1]),
        todos_ascii(dos_cifras(n)),
{
    let d = dos_cifras(n);
    let a = n / 10;
    let b = n % 10;
    assert(a < 10 && b < 10);
    assert(char_digito(a) as u32 == 48 + a);
    assert(char_digito(b) as u32 == 48 + b);
    assert(valor_digito(d[0]) == a);
    assert(valor_digito(d[1]) == b);
    assert(es_digito(d[0]) && es_digito(d[1]));
    assert(d.drop_last() =~= seq![d[0]]);
    assert(seq![d[0]].drop_last() =~= Seq::<char>::empty());
    assert(valor_digitos(Seq::<char>::empty()) == 0);
    assert(seq![d[0]].last() == d[0]);
    assert(valor_digitos(seq![d[0]]) == valor_digitos(Seq::<char>::empty()) * 10 + valor_digito(d[0]));
    assert(valor_digitos(seq![d[0]]) == a);
    assert(valor_digitos(d) == a * 10 + b);
}

/// Inicio y fin ya normalizados (`HH:MM`) se vuelven a aceptar iguales.
pub proof fn ley_rango_estable(inicio: Seq<char>, fin: Seq<char>)
    ensures
        rango_spec(inicio, fin) matches Ok((a, b)) ==> rango_spec(a, b)
            == Ok::<(Seq<char>, Seq<char>), Seq<char>>((a, b)),
{
    match (hhmm_spec(recortado(inicio)), hhmm_spec(recortado(fin))) {
        (Some((ih, im)), Some((fh, fm))) => {
            if !(fh * 60 + fm <= ih * 60 + im) {
                lema_hora_texto(ih, im);
                lema_hora_texto(fh, fm);
            }
        },
        _ => {},
    }
}

proof fn lema_hora_texto(h: nat, m: nat)
    requires
        h <= 23,
        m <= 59,
    ensures
        recortado(hora_texto(h, m)) == hora_texto(h, m),
        hhmm_spec(hora_texto(h, m)) == Some((h, m)),
{
    let t = hora_texto(h, m);
    lema_dos_cifras(h);
    lema_dos_cifras(m);
    assert(t.subrange(0, 2) =~= dos_cifras(h));
    assert(t.subrange(3, 5) =~= dos_cifras(m));
    assert(t[0] == dos_cifras(h)[0]);
    assert(t[4] == dos_cifras(m)[1]);
    lema_sin_bordes(t);
}

/// Una hora de evento ya aceptada se vuelve a aceptar igual.
pub proof fn ley_hora_estable(o: Option<Seq<char>>)
    ensures
        hora_opcional(o) matches Ok(Some(t)) ==> hora_opcional(Some(t))
            == Ok::<Option<Seq<char>>, Seq<char>>(Some(t)),
{
    match hora_opcional(o) {
        Ok(Some(t)) => {
            let a = t.subrange(0, 2);
            let b = t.subrange(3, 5);
            assert(a[0] == t[0]);
            assert(b[1] == t[4]);
            assert(b[0] == t[3]);
            assert(es_digito(a[0]));
            assert(es_digito(b[1]));
            lema_sin_bordes(t);
        },
        _ => {},
    }
}


/// Un texto `YYYY-MM-DD` escrito solo con dígitos y guiones, con año `y`, mes `m` y día `d`.
pub open spec fn fecha_en_cifras(t: Seq<char>, y: nat, m: nat, d: nat) -> bool {
    &&& t.len() == 10 && t[4] == '-' && t[7] == '-'
    &&& todos_digitos(t.subrange(0, 4)) && valor_digitos(t.subrange(0, 4)) == y
    &&& todos_digitos(t.subrange(5, 7)) && valor_digitos(t.subrange(5, 7)) == m
    &&& todos_digitos(t.subrange(8, 10)) && valor_digitos(t.subrange(8, 10)) == d
}

/// Una fecha `YYYY-MM-DD` bien escrita se acepta tal cual exactamente cuando el año va de 2000 a
/// 2100, el mes de 1 a 12 y el día de 1 a 31; si no, el error es el de fecha no válida.
pub proof fn ley_fecha_en_rango(t: Seq<char>, y: nat, m: nat, d: nat)
    requires
        fecha_en_cifras(t, y, m, d),
    ensures
        (2000 <= y <= 2100 && 1 <= m <= 12 && 1 <= d <= 31) ==> fecha_spec(t) == Ok::<Seq<char>, Seq<char>>(t),
        !(2000 <= y <= 2100 && 1 <= m <= 12 && 1 <= d <= 31) ==> fecha_spec(t) == Err::<Seq<char>, Seq<char>>(FECHA_INVALIDA@),
{
    assert forall|i: int| 0 <= i < t.len() implies es_ascii(#[trigger] t[i]) by {
        if i < 4 {
            assert(t.subrange(0, 4)[i] == t[i]);
        } else if 5 <= i < 7 {
            assert(t.subrange(5, 7)[i - 5] == t[i]);
        } else if 8 <= i {
            assert(t.subrange(8, 10)[i - 8] == t[i]);
        }
    }
}

/// Un texto `HH:MM` escrito solo con dígitos y dos puntos, con hora `h` y minutos `m`.
pub open spec fn hora_en_cifras(t: Seq<char>, h: nat, m: nat) -> bool {
    &&& t.len() == 5 && t[2] == ':'
    &&& todos_digitos(t.subrange(0, 2)) && valor_digitos(t.subrange(0, 2)) == h
    &&& todos_digitos(t.subrange(3, 5)) && valor_digitos(t.subrange(3, 5)) == m
}

/// Un bloque con inicio `HH:MM` (`ih`, `im`) y fin `HH:MM` (`fh`, `fm`) válidos se acepta
/// exactamente cuando el fin cae después del inicio, contando horas y minutos; si no, el error
/// es el de fin antes del inicio.
pub proof fn ley_rango_fin_despues(inicio: Seq<char>, fin: Seq<char>, ih: nat, im: nat, fh: nat, fm: nat)
    requires
        hora_en_cifras(recortado(inicio), ih, im),
        hora_en_cifras(recortado(fin), fh, fm),
        ih <= 23 && im <= 59 && fh <= 23 && fm <= 59,
    ensures
        rango_spec(inicio, fin) is Ok <==> fh * 60 + fm > ih * 60 + im,
        fh * 60 + fm <= ih * 60 + im ==> rango_spec(inicio, fin) == Err::<(Seq<char>, Seq<char>), Seq<char>>(FIN_ANTES_DE_INICIO@),
{
    assert(hhmm_spec(recortado(inicio)) == Some((ih, im)));
    assert(hhmm_spec(recortado(fin)) == Some((fh, fm)));
}


/// La hora de un evento escrita `HH:MM` con cifras se guarda tal cual (recortada) exactamente
/// cuando la hora va de 0 a 23 y los minutos de 0 a 59; si no, el error es el de hora no válida.
pub proof fn ley_hora_de_evento(v: Seq<char>, h: nat, m: nat)
    requires
        hora_en_cifras(recortado(v), h, m),
    ensures
        (h <= 23 && m <= 59) ==> hora_opcional(Some(v)) == Ok::<Option<Seq<char>>, Seq<char>>(Some(recortado(v))),
        !(h <= 23 && m <= 59) ==> hora_opcional(Some(v)) == Err::<Option<Seq<char>>, Seq<char>>(HORA_INVALIDA@),
{
    let t = recortado(v);
    assert forall|i: int| 0 <= i < t.len() implies es_ascii(#[trigger] t[i]) by {
        if i < 2 {
            assert(t.subrange(0, 2)[i] == t[i]);
        } else if 3 <= i {
            assert(t.subrange(3, 5)[i - 3] == t[i]);
        }
    }
}

} // verus!
