use adm_cursos::greet;
use adm_cursos::privacidad::{aviso_aceptado, aviso_de_lectura, path_aviso};

#[test]
fn ruta_del_aviso() {
    assert_eq!(path_aviso("/home/ana/.local/share/app"), "/home/ana/.local/share/app/privacidad.json");
    assert_eq!(path_aviso("/datos/"), "/datos/privacidad.json");
    assert_eq!(path_aviso(""), "privacidad.json");
}

#[test]
fn sin_archivo_no_esta_aceptado() {
    assert_eq!(aviso_de_lectura(None).aceptado, 0);
}

#[test]
fn json_roto_o_cero_no_cuenta() {
    assert_eq!(aviso_de_lectura(None).aceptado, 0);
    assert_eq!(aviso_de_lectura(Some(Some(0))).aceptado, 0);
}

#[test]
fn solo_aceptado_uno_cuenta() {
    assert_eq!(aviso_de_lectura(Some(None)).aceptado, 0);
    assert_eq!(aviso_de_lectura(Some(Some(2))).aceptado, 0);
    assert_eq!(aviso_de_lectura(Some(Some(1))).aceptado, 1);
    assert_eq!(aviso_aceptado().aceptado, 1);
}

#[test]
fn saludo() {
    assert_eq!(greet("Ana"), "Hello, Ana! You've been greeted from Rust!");
}
