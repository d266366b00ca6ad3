use adm_cursos::candado::{
    cifrar, decidir_crear_clave, decidir_desbloqueo, derivar_clave, descifrar, estado_del_candado, intentar_desbloqueo,
    nuevo_salt, sidecar, tipo_de_lectura, validar_clave, AccionCrear, PasoDesbloqueo, TipoArchivo, MAGIC, MAX_INTENTOS,
};

#[test]
fn roundtrip_cifra_y_no_parece_sqlite() {
    let salt = nuevo_salt();
    let key = derivar_clave("clave-de-prueba", &salt).unwrap();
    let plano = b"SQLite format 3\0payload-de-prueba";
    let blob = cifrar(plano, &key, &salt).unwrap();
    assert_eq!(&blob[..8], &MAGIC);
    assert!(!blob.starts_with(b"SQLite format 3"));
    let (out, _, salt2) = descifrar(&blob, "clave-de-prueba").unwrap();
    assert_eq!(out, plano);
    assert_eq!(salt, salt2);
}

#[test]
fn clave_incorrecta_falla() {
    let salt = nuevo_salt();
    let key = derivar_clave("clave-buena-ok", &salt).unwrap();
    let blob = cifrar(b"hola-cuaderno", &key, &salt).unwrap();
    let err = descifrar(&blob, "clave-mala-ok").unwrap_err();
    assert_eq!(err, "Clave incorrecta.");
}

#[test]
fn validar_clave_minimo_y_repetir() {
    assert!(validar_clave("corta", Some("corta")).is_err());
    assert!(validar_clave("ochochar", Some("distinta")).is_err());
    assert!(validar_clave("ochochar", Some("ochochar")).is_ok());
}

#[test]
fn mensajes_de_clave() {
    assert_eq!(validar_clave("corta", None).unwrap_err(), "La clave tiene que tener al menos 8 caracteres.");
    assert_eq!(validar_clave("ñññññññ", None).unwrap_err(), "La clave tiene que tener al menos 8 caracteres.");
    assert!(validar_clave("ññññññññ", None).is_ok());
    let larga = "a".repeat(129);
    assert_eq!(validar_clave(&larga, None).unwrap_err(), "La clave es demasiado larga.");
    assert!(validar_clave(&"a".repeat(128), None).is_ok());
    let larga_en_bytes = "ñ".repeat(65);
    assert_eq!(validar_clave(&larga_en_bytes, None).unwrap_err(), "La clave es demasiado larga.");
    assert_eq!(validar_clave("ochochar", Some("ochochaR")).unwrap_err(), "Las dos claves no coinciden.");
}

#[test]
fn descifrar_archivos_que_no_son_cuadernos() {
    assert_eq!(descifrar(b"corto", "clave-de-prueba").unwrap_err(), "El archivo cifrado está incompleto.");
    let mut falso = vec![0u8; 60];
    falso[..8].copy_from_slice(b"NOMAGIA!");
    assert_eq!(descifrar(&falso, "clave-de-prueba").unwrap_err(), "Ese archivo no es un cuaderno cifrado.");
    let mut magia = vec![0u8; 51];
    magia[..8].copy_from_slice(&MAGIC);
    assert_eq!(descifrar(&magia, "clave-de-prueba").unwrap_err(), "El archivo cifrado está incompleto.");
    let mut magia = vec![0u8; 52];
    magia[..8].copy_from_slice(&MAGIC);
    assert_eq!(descifrar(&magia, "clave-de-prueba").unwrap_err(), "Clave incorrecta.");
}

#[test]
fn misma_clave_y_sal_misma_llave() {
    let salt = [7u8; 16];
    let a = derivar_clave("clave-de-prueba", &salt).unwrap();
    let b = derivar_clave("clave-de-prueba", &salt).unwrap();
    let c = derivar_clave("otra-clave-de-prueba", &salt).unwrap();
    let d = derivar_clave("clave-de-prueba", &[8u8; 16]).unwrap();
    assert_eq!(a, b);
    assert_ne!(a, c);
    assert_ne!(a, d);
    assert_ne!(a, [0u8; 32]);
}

#[test]
fn cifrado_distinto_cada_vez() {
    let salt = nuevo_salt();
    let key = derivar_clave("clave-de-prueba", &salt).unwrap();
    let a = cifrar(b"mismo texto", &key, &salt).unwrap();
    let b = cifrar(b"mismo texto", &key, &salt).unwrap();
    assert_eq!(a.len(), 36 + 11 + 16);
    assert_eq!(&a[8..24], &salt);
    assert_ne!(&a[36..47], b"mismo texto");
    assert_ne!(a, b);
}

#[test]
fn tipo_detecta_cifrado_y_ausente() {
    let salt = nuevo_salt();
    let key = derivar_clave("clave-de-prueba", &salt).unwrap();
    let blob = cifrar(b"x", &key, &salt).unwrap();
    assert_eq!(tipo_de_lectura(None), TipoArchivo::Ausente);
    assert_eq!(tipo_de_lectura(Some(None)), TipoArchivo::Desconocido);
    assert_eq!(tipo_de_lectura(Some(Some(Vec::new()))), TipoArchivo::Ausente);
    assert_eq!(tipo_de_lectura(Some(Some(blob[..16].to_vec()))), TipoArchivo::Cifrado);
    assert_eq!(tipo_de_lectura(Some(Some(blob[..8].to_vec()))), TipoArchivo::Cifrado);
    assert_eq!(tipo_de_lectura(Some(Some(b"SQLite format 3\0".to_vec()))), TipoArchivo::SqliteEnClaro);
    assert_eq!(tipo_de_lectura(Some(Some(b"SQLite format 3".to_vec()))), TipoArchivo::Desconocido);
    assert_eq!(tipo_de_lectura(Some(Some(b"hola".to_vec()))), TipoArchivo::Desconocido);
}

#[test]
fn fases_del_candado() {
    let e = estado_del_candado(false, 0, TipoArchivo::Ausente).unwrap();
    assert_eq!((e.fase.as_str(), e.intentos_restantes, e.migra), ("crear", 3, 0));
    let e = estado_del_candado(false, 1, TipoArchivo::SqliteEnClaro).unwrap();
    assert_eq!((e.fase.as_str(), e.intentos_restantes, e.migra), ("crear", 2, 1));
    let e = estado_del_candado(false, 5, TipoArchivo::Cifrado).unwrap();
    assert_eq!((e.fase.as_str(), e.intentos_restantes, e.migra), ("desbloquear", 0, 0));
    let e = estado_del_candado(true, 2, TipoArchivo::Desconocido).unwrap();
    assert_eq!((e.fase.as_str(), e.intentos_restantes, e.migra), ("abierto", 3, 0));
    assert_eq!(estado_del_candado(false, 0, TipoArchivo::Desconocido).unwrap_err(), "El archivo del cuaderno no se reconoce.");
}

#[test]
fn crear_clave_segun_archivo() {
    assert_eq!(decidir_crear_clave(false, TipoArchivo::Ausente, "clave-test-ok", "clave-test-ok").unwrap(), AccionCrear::Nuevo);
    assert_eq!(decidir_crear_clave(false, TipoArchivo::SqliteEnClaro, "clave-test-ok", "clave-test-ok").unwrap(), AccionCrear::Migrar);
    assert_eq!(
        decidir_crear_clave(false, TipoArchivo::Cifrado, "clave-test-ok", "clave-test-ok").unwrap_err(),
        "Ya hay una clave. Abrí el cuaderno."
    );
    assert_eq!(
        decidir_crear_clave(false, TipoArchivo::Desconocido, "clave-test-ok", "clave-test-ok").unwrap_err(),
        "El archivo del cuaderno no se reconoce."
    );
    assert_eq!(decidir_crear_clave(true, TipoArchivo::Ausente, "clave-test-ok", "clave-test-ok").unwrap_err(), "El cuaderno ya está abierto.");
    assert_eq!(decidir_crear_clave(true, TipoArchivo::Ausente, "corta", "corta").unwrap_err(), "La clave tiene que tener al menos 8 caracteres.");
}

#[test]
fn desbloqueo_segun_estado() {
    assert_eq!(decidir_desbloqueo(true, 3, TipoArchivo::Ausente, "clave-test-ok").unwrap(), PasoDesbloqueo::YaAbierto);
    assert_eq!(decidir_desbloqueo(false, 0, TipoArchivo::Cifrado, "clave-test-ok").unwrap(), PasoDesbloqueo::Descifrar);
    assert_eq!(
        decidir_desbloqueo(false, 3, TipoArchivo::Cifrado, "clave-test-ok").unwrap_err(),
        "Demasiados intentos. Cerrá la app y volvé a abrir."
    );
    assert_eq!(
        decidir_desbloqueo(false, 0, TipoArchivo::Ausente, "clave-test-ok").unwrap_err(),
        "No hay un cuaderno cifrado para abrir."
    );
    assert_eq!(decidir_desbloqueo(true, 0, TipoArchivo::Cifrado, "x").unwrap_err(), "La clave tiene que tener al menos 8 caracteres.");
}

#[test]
fn candado_tres_intentos_y_activo_no_se_limpia() {
    let salt = nuevo_salt();
    let key = derivar_clave("clave-test-ok", &salt).unwrap();
    let blob = cifrar(b"cuaderno", &key, &salt).unwrap();
    let mut intentos = 0u8;
    for _ in 0..2 {
        let (n, r) = intentar_desbloqueo(intentos, &blob, "clave-mala-ok");
        assert_eq!(r.unwrap_err(), "Clave incorrecta.");
        intentos = n;
    }
    let (n, r) = intentar_desbloqueo(intentos, &blob, "clave-mala-ok");
    assert!(r.unwrap_err().contains("Demasiados intentos"));
    assert_eq!(n, MAX_INTENTOS);
    let err = decidir_desbloqueo(false, n, TipoArchivo::Cifrado, "clave-test-ok").unwrap_err();
    assert!(err.contains("Demasiados intentos"));
    let (n, r) = intentar_desbloqueo(1, &blob, "clave-test-ok");
    assert_eq!(n, 1);
    assert_eq!(r.unwrap().0, b"cuaderno");
}

#[test]
fn archivos_al_lado() {
    assert_eq!(sidecar("/datos/adm-cursos.sqlite", ".new"), "/datos/adm-cursos.sqlite.new");
    assert_eq!(sidecar("x", "-wal"), "x-wal");
}
