//! Texto como secuencia de caracteres: conversión, recorte de blancos, dígitos y búsqueda.

use vstd::prelude::*;

verus! {

/// Agrega un carácter al final de `s` (`String::push`).
#[verifier::external_body]
fn empujar(s: &mut String, c: char)
    ensures
        final(s)@ == old(s)@.push(c),
{
    s.push(c)
}

/// Los caracteres de `s`, en orden.
pub fn caracteres(s: &str) -> (v: Vec<char>)
    ensures
        v@ == s@,
{
    let mut v: Vec<char> = Vec::new();
    for c in it: s.chars()
        invariant
            v@ == it.seq().take(it.index() as int),
    {
        v.push(c);
    }
    v
}

/// Una cadena con los caracteres de `v`.
pub fn cadena(v: &Vec<char>) -> (s: String)
    ensures
        s@ == v@,
{
    let mut s = String::new();
    let mut i: usize = 0;
    while i < v.len()
        invariant
            i <= v.len(),
            s@ == v@.take(i as int),
        decreases v.len() - i,
    {
        empujar(&mut s, v[i]);
        assert(v@.take(i as int + 1) == v@.take(i as int).push(v@[i as int]));
        i = i + 1;
    }
    assert(v@.take(v.len() as int) == v@);
    s
}

/// Carácter blanco según la propiedad Unicode `White_Space` (la que usa `str::trim`).
pub open spec fn es_blanco(c: char) -> bool {
    let n = c as u32;
    ||| 0x9 <= n <= 0xd
    ||| n == 0x20
    ||| n == 0x85
    ||| n == 0xa0
    ||| n == 0x1680
    ||| 0x2000 <= n <= 0x200a
    ||| n == 0x2028
    ||| n == 0x2029
    ||| n == 0x202f
    ||| n == 0x205f
    ||| n == 0x3000
}

pub fn blanco(c: char) -> (r: bool)
    ensures
        r == es_blanco(c),
{
    let n = c as u32;
    (0x9 <= n && n <= 0xd) || n == 0x20 || n == 0x85 || n == 0xa0 || n == 0x1680 || (0x2000 <= n
        && n <= 0x200a) || n == 0x2028 || n == 0x2029 || n == 0x202f || n == 0x205f || n == 0x3000
}

/// Sin los blancos del principio.
pub open spec fn sin_blancos_izq(s: Seq<char>) -> Seq<char>
    decreases s.len(),
{
    if s.len() > 0 && es_blanco(s[0]) {
        sin_blancos_izq(s.drop_first())
    } else {
        s
    }
}

/// Sin los blancos del final.
pub open spec fn sin_blancos_der(s: Seq<char>) -> Seq<char>
    decreases s.len(),
{
    if s.len() > 0 && es_blanco(s.last()) {
        sin_blancos_der(s.drop_last())
    } else {
        s
    }
}

/// `s` sin blancos al principio ni al final (lo que hace `str::trim`).
pub open spec fn recortado(s: Seq<char>) -> Seq<char> {
    sin_blancos_der(sin_blancos_izq(s))
}

pub proof fn lema_izq_desde(s: Seq<char>, i: int)
    requires
        0 <= i <= s.len(),
        forall|k: int| 0 <= k < i ==> es_blanco(#[trigger] s[k]),
    ensures
        sin_blancos_izq(s) == sin_blancos_izq(s.subrange(i, s.len() as int)),
    decreases i,
{
    if i > 0 {
        assert(s.drop_first() == s.subrange(1, s.len() as int));
        let t = s.drop_first();
        assert forall|k: int| 0 <= k < i - 1 implies es_blanco(#[trigger] t[k]) by {
            assert(t[k] == s[k + 1]);
        }
        lema_izq_desde(t, i - 1);
        assert(t.subrange(i - 1, t.len() as int) == s.subrange(i, s.len() as int));
    } else {
        assert(s.subrange(0, s.len() as int) == s);
    }
}

proof fn lema_der_hasta(s: Seq<char>, j: int)
    requires
        0 <= j <= s.len(),
        forall|k: int| j <= k < s.len() ==> es_blanco(#[trigger] s[k]),
    ensures
        sin_blancos_der(s) == sin_blancos_der(s.subrange(0, j)),
    decreases s.len() - j,
{
    if j < s.len() {
        let t = s.drop_last();
        assert forall|k: int| j <= k < t.len() implies es_blanco(#[trigger] t[k]) by {
            assert(t[k] == s[k]);
        }
        lema_der_hasta(t, j);
        assert(t.subrange(0, j) == s.subrange(0, j));
    } else {
        assert(s.subrange(0, j) == s);
    }
}

/// Posiciones `(desde, hasta)` del tramo de `v` sin blancos en los bordes.
pub fn limites_recorte(v: &Vec<char>) -> (r: (usize, usize))
    ensures
        r.0 <= r.1 <= v.len(),
        v@.subrange(r.0 as int, r.1 as int) == recortado(v@),
{
    let n = v.len();
    let mut i: usize = 0;
    while i < n && blanco(v[i])
        invariant
            i <= n == v.len(),
            forall|k: int| 0 <= k < i ==> es_blanco(#[trigger] v@[k]),
        decreases n - i,
    {
        i = i + 1;
    }
    proof {
        lema_izq_desde(v@, i as int);
    }
    let ghost u = v@.subrange(i as int, n as int);
    assert(sin_blancos_izq(u) == u);
    let mut j: usize = n;
    while j > i && blanco(v[j - 1])
        invariant
            i <= j <= n == v.len(),
            u == v@.subrange(i as int, n as int),
            forall|k: int| j <= k < n ==> es_blanco(#[trigger] v@[k]),
        decreases j - i,
    {
        j = j - 1;
    }
    proof {
        assert forall|k: int| j - i <= k < u.len() implies es_blanco(#[trigger] u[k]) by {
            assert(u[k] == v@[k + i]);
        }
        lema_der_hasta(u, j - i);
        assert(u.subrange(0, j - i) == v@.subrange(i as int, j as int));
    }
    (i, j)
}

/// Los caracteres de `s` sin blancos en los bordes.
pub fn recortar(s: &str) -> (v: Vec<char>)
    ensures
        v@ == recortado(s@),
{
    let todo = caracteres(s);
    let (a, b) = limites_recorte(&todo);
    let mut v: Vec<char> = Vec::new();
    let mut i = a;
    while i < b
        invariant
            a <= i <= b <= todo.len(),
            v@ == todo@.subrange(a as int, i as int),
        decreases b - i,
    {
        v.push(todo[i]);
        assert(todo@.subrange(a as int, i as int + 1) == todo@.subrange(a as int, i as int).push(
            todo@[i as int],
        ));
        i = i + 1;
    }
    v
}

/// Dígito decimal ASCII.
pub open spec fn es_digito(c: char) -> bool {
    '0' <= c <= '9'
}

pub open spec fn es_ascii(c: char) -> bool {
    (c as u32) < 0x80
}

pub open spec fn todos_digitos(s: Seq<char>) -> bool {
    forall|i: int| 0 <= i < s.len() ==> es_digito(#[trigger] s[i])
}

pub open spec fn todos_ascii(s: Seq<char>) -> bool {
    forall|i: int| 0 <= i < s.len() ==> es_ascii(#[trigger] s[i])
}

pub open spec fn valor_digito(c: char) -> nat {
    ((c as u32) - ('0' as u32)) as nat
}

/// Valor decimal de una secuencia de dígitos.
pub open spec fn valor_digitos(s: Seq<char>) -> nat
    decreases s.len(),
{
    if s.len() == 0 {
        0
    } else {
        valor_digitos(s.drop_last()) * 10 + valor_digito(s.last())
    }
}

/// Un tramo de ancho fijo hecho solo de dígitos, con su valor.
pub open spec fn cifras(s: Seq<char>) -> Option<nat> {
    if s.len() > 0 && todos_digitos(s) {
        Some(valor_digitos(s))
    } else {
        None
    }
}

pub fn digito(c: char) -> (r: bool)
    ensures
        r == es_digito(c),
{
    '0' <= c && c <= '9'
}

pub fn ascii(c: char) -> (r: bool)
    ensures
        r == es_ascii(c),
{
    (c as u32) < 0x80
}

pub proof fn lema_valor_monotono(s: Seq<char>, i: int)
    requires
        0 <= i <= s.len(),
        todos_digitos(s),
    ensures
        valor_digitos(s.take(i)) <= valor_digitos(s),
    decreases s.len() - i,
{
    if i < s.len() {
        let t = s.drop_last();
        assert(t.take(i) == s.take(i));
        lema_valor_monotono(t, i);
        assert(valor_digitos(t) <= valor_digitos(s));
    } else {
        assert(s.take(i) == s);
    }
}

/// Valor de `v[desde..hasta]` si son todos dígitos y el valor no pasa de `tope`.
pub fn valor_tramo(v: &Vec<char>, desde: usize, hasta: usize, tope: u64) -> (r: Option<u64>)
    requires
        desde <= hasta <= v.len(),
        tope < 0x1_0000_0000,
    ensures
        r matches Some(n) ==> todos_digitos(v@.subrange(desde as int, hasta as int)) && n
            == valor_digitos(v@.subrange(desde as int, hasta as int)) && n <= tope,
        r is None ==> !todos_digitos(v@.subrange(desde as int, hasta as int)) || valor_digitos(
            v@.subrange(desde as int, hasta as int),
        ) > tope,
{
    let ghost s = v@.subrange(desde as int, hasta as int);
    let mut n: u64 = 0;
    let mut i = desde;
    while i < hasta
        invariant
            desde <= i <= hasta <= v.len(),
            s == v@.subrange(desde as int, hasta as int),
            tope < 0x1_0000_0000,
            todos_digitos(s.take(i - desde)),
            n == valor_digitos(s.take(i - desde)),
            n <= tope,
        decreases hasta - i,
    {
        let c = v[i];
        if !digito(c) {
            assert(s[i - desde] == c);
            return None;
        }
        let ghost p = s.take(i - desde + 1);
        assert(p.drop_last() == s.take(i - desde));
        assert(p.last() == c);
        let d = ((c as u32) - ('0' as u32)) as u64;
        n = n * 10 + d;
        i = i + 1;
        if n > tope {
            proof {
                assert forall|k: int| 0 <= k < i - desde implies es_digito(#[trigger] p[k]) by {
                    if k < i - 1 - desde {
                        assert(p[k] == s.take(i - 1 - desde)[k]);
                    }
                }
                if todos_digitos(s) {
                    assert(s.take(i - desde) == p);
                    lema_valor_monotono(s, i - desde);
                }
            }
            return None;
        }
        proof {
            assert forall|k: int| 0 <= k < i - desde implies es_digito(#[trigger] s.take(i - desde)[k]) by {
                if k < i - 1 - desde {
                    assert(s.take(i - desde)[k] == s.take(i - 1 - desde)[k]);
                }
            }
        }
    }
    assert(s.take(hasta - desde) == s);
    Some(n)
}

/// `true` si algún carácter de `v` es `c`.
pub fn tiene(v: &Vec<char>, c: char) -> (r: bool)
    ensures
        r == v@.contains(c),
{
    let mut i: usize = 0;
    while i < v.len()
        invariant
            i <= v.len(),
            forall|k: int| 0 <= k < i ==> v@[k] != c,
        decreases v.len() - i,
    {
        if v[i] == c {
            return true;
        }
        i = i + 1;
    }
    false
}

/// `s` aparece en `t` a partir de la posición `i`.
pub open spec fn aparece_en(t: Seq<char>, s: Seq<char>, i: int) -> bool {
    0 <= i && i + s.len() <= t.len() && t.subrange(i, i + s.len()) == s
}

/// `s` es un tramo de `t` (lo que responde `str::contains`).
pub open spec fn contiene(t: Seq<char>, s: Seq<char>) -> bool {
    exists|i: int| aparece_en(t, s, i)
}

fn aparece_desde(t: &Vec<char>, s: &Vec<char>, i: usize) -> (r: bool)
    requires
        i + s.len() <= t.len(),
    ensures
        r == aparece_en(t@, s@, i as int),
{
    let mut k: usize = 0;
    while k < s.len()
        invariant
            k <= s.len(),
            i + s.len() <= t.len(),
            forall|q: int| 0 <= q < k ==> t@[i + q] == s@[q],
        decreases s.len() - k,
    {
        if t[i + k] != s[k] {
            assert(t@.subrange(i as int, i + s.len())[k as int] == t@[i + k]);
            return false;
        }
        k = k + 1;
    }
    assert(t@.subrange(i as int, i + s.len()) == s@);
    true
}

/// `true` si `s` aparece dentro de `t`.
pub fn contiene_en(t: &Vec<char>, s: &Vec<char>) -> (r: bool)
    ensures
        r == contiene(t@, s@),
{
    if s.len() > t.len() {
        return false;
    }
    let mut i: usize = 0;
    let tope = t.len() - s.len();
    loop
        invariant
            tope == t.len() - s.len(),
            i <= tope,
            forall|q: int| 0 <= q < i ==> !aparece_en(t@, s@, q),
        decreases tope - i,
    {
        if aparece_desde(t, s, i) {
            return true;
        }
        if i == tope {
            return false;
        }
        i = i + 1;
    }
}

/// Minúscula ASCII (lo que hace `char::to_ascii_lowercase`).
pub open spec fn minuscula(c: char) -> char {
    if 'A' <= c <= 'Z' {
        ((c as u32) + 32) as char
    } else {
        c
    }
}

pub open spec fn en_minusculas(s: Seq<char>) -> Seq<char> {
    s.map_values(|c: char| minuscula(c))
}

pub fn a_minusculas(v: &Vec<char>) -> (r: Vec<char>)
    ensures
        r@ == en_minusculas(v@),
{
    let mut r: Vec<char> = Vec::new();
    let mut i: usize = 0;
    while i < v.len()
        invariant
            i <= v.len(),
            r@ == en_minusculas(v@.take(i as int)),
        decreases v.len() - i,
    {
        let c = v[i];
        let m = if 'A' <= c && c <= 'Z' {
            let b = (c as u8) + 32;
            b as char
        } else {
            c
        };
        r.push(m);
        assert(en_minusculas(v@.take(i as int + 1)) == en_minusculas(v@.take(i as int)).push(
            minuscula(c),
        ));
        i = i + 1;
    }
    assert(v@.take(v.len() as int) == v@);
    r
}

/// Bytes que ocupa `c` en UTF-8.
pub open spec fn ancho_utf8(c: char) -> nat {
    let n = c as u32;
    if n < 0x80 {
        1
    } else if n < 0x800 {
        2
    } else if n < 0x10000 {
        3
    } else {
        4
    }
}

/// Bytes que ocupa `s` en UTF-8 (lo que devuelve `str::len`).
pub open spec fn largo_utf8(s: Seq<char>) -> nat
    decreases s.len(),
{
    if s.len() == 0 {
        0
    } else {
        largo_utf8(s.drop_last()) + ancho_utf8(s.last())
    }
}

proof fn lema_largo_utf8_primero(s: Seq<char>)
    requires
        s.len() > 0,
    ensures
        largo_utf8(s) == ancho_utf8(s[0]) + largo_utf8(s.drop_first()),
    decreases s.len(),
{
    if s.len() == 1 {
        assert(s.drop_last() =~= Seq::<char>::empty());
        assert(s.drop_first() =~= Seq::<char>::empty());
    } else {
        lema_largo_utf8_primero(s.drop_last());
        assert(s.drop_last().drop_first() =~= s.drop_first().drop_last());
        assert(s.drop_last()[0] == s[0]);
        assert(s.drop_first().last() == s.last());
    }
}

/// Lo que cuenta `largo_utf8` es el largo de la codificación UTF-8.
pub proof fn lema_largo_utf8_bytes(s: Seq<char>)
    ensures
        largo_utf8(s) == vstd::utf8::encode_utf8(s).len(),
    decreases s.len(),
{
    if s.len() > 0 {
        lema_largo_utf8_primero(s);
        lema_largo_utf8_bytes(s.drop_first());
        vstd::utf8::char_is_scalar(s[0]);
    }
}

pub proof fn lema_largo_utf8_ascii(s: Seq<char>)
    requires
        todos_ascii(s),
    ensures
        largo_utf8(s) == s.len(),
    decreases s.len(),
{
    if s.len() > 0 {
        let t = s.drop_last();
        assert forall|i: int| 0 <= i < t.len() implies es_ascii(#[trigger] t[i]) by {
            assert(t[i] == s[i]);
        }
        lema_largo_utf8_ascii(t);
        assert(es_ascii(s[s.len() - 1]));
    }
}

pub proof fn lema_largo_utf8_crece(s: Seq<char>)
    ensures
        largo_utf8(s) >= s.len(),
    decreases s.len(),
{
    if s.len() > 0 {
        lema_largo_utf8_crece(s.drop_last());
    }
}

/// `largo_utf8(v)` cuando no pasa de `tope`; `tope + 1` si pasa.
pub fn largo_utf8_hasta(v: &Vec<char>, tope: usize) -> (r: usize)
    requires
        tope < 0x1000_0000,
    ensures
        largo_utf8(v@) <= tope ==> r == largo_utf8(v@),
        largo_utf8(v@) > tope ==> r == tope + 1,
{
    let mut n: usize = 0;
    let mut i: usize = 0;
    while i < v.len()
        invariant
            i <= v.len(),
            tope < 0x1000_0000,
            n == largo_utf8(v@.take(i as int)),
            n <= tope,
        decreases v.len() - i,
    {
        let c = v[i];
        let x = c as u32;
        let w: usize = if x < 0x80 {
            1
        } else if x < 0x800 {
            2
        } else if x < 0x10000 {
            3
        } else {
            4
        };
        assert(v@.take(i as int + 1).drop_last() == v@.take(i as int));
        n = n + w;
        i = i + 1;
        if n > tope {
            proof {
                lema_prefijo_utf8(v@, i as int);
            }
            return tope + 1;
        }
    }
    assert(v@.take(v.len() as int) == v@);
    n
}

pub proof fn lema_prefijo_utf8(s: Seq<char>, i: int)
    requires
        0 <= i <= s.len(),
    ensures
        largo_utf8(s.take(i)) <= largo_utf8(s),
    decreases s.len() - i,
{
    if i < s.len() {
        let t = s.drop_last();
        assert(t.take(i) == s.take(i));
        lema_prefijo_utf8(t, i);
    } else {
        assert(s.take(i) == s);
    }
}

proof fn lema_izq_empieza(x: Seq<char>)
    ensures
        sin_blancos_izq(x).len() > 0 ==> !es_blanco(sin_blancos_izq(x)[0]),
    decreases x.len(),
{
    if x.len() > 0 && es_blanco(x[0]) {
        lema_izq_empieza(x.drop_first());
    }
}

proof fn lema_der_prefijo(y: Seq<char>)
    ensures
        sin_blancos_der(y).len() <= y.len(),
        sin_blancos_der(y) == y.take(sin_blancos_der(y).len() as int),
        sin_blancos_der(y).len() > 0 ==> !es_blanco(sin_blancos_der(y).last()),
        y.len() > 0 && !es_blanco(y[0]) ==> sin_blancos_der(y).len() > 0,
    decreases y.len(),
{
    if y.len() > 0 && es_blanco(y.last()) {
        let z = y.drop_last();
        lema_der_prefijo(z);
        assert(z.take(sin_blancos_der(z).len() as int) =~= y.take(sin_blancos_der(z).len() as int));
        if !es_blanco(y[0]) {
            assert(y.len() > 1);
            assert(z[0] == y[0]);
        }
    } else {
        assert(y.take(y.len() as int) =~= y);
    }
}

/// Lo recortado no empieza ni termina con un blanco.
pub proof fn lema_bordes_recortado(s: Seq<char>)
    ensures
        recortado(s).len() > 0 ==> !es_blanco(recortado(s)[0]) && !es_blanco(recortado(s).last()),
{
    let x = sin_blancos_izq(s);
    let r = sin_blancos_der(x);
    lema_izq_empieza(s);
    lema_der_prefijo(x);
    if r.len() > 0 {
        assert(r[0] == x[0]);
    }
}

/// Un texto que no empieza ni termina con un blanco queda igual al recortarlo.
pub proof fn lema_sin_bordes(s: Seq<char>)
    requires
        s.len() > 0 ==> !es_blanco(s[0]) && !es_blanco(s.last()),
    ensures
        recortado(s) == s,
{
    assert(sin_blancos_izq(s) == s);
    assert(sin_blancos_der(s) == s);
}

/// Recortar lo ya recortado no cambia nada.
pub proof fn ley_recorte_idempotente(s: Seq<char>)
    ensures
        recortado(recortado(s)) == recortado(s),
{
    lema_bordes_recortado(s);
    lema_sin_bordes(recortado(s));
}

} // verus!
