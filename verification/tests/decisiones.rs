use adm_cursos::alumnos::{desinscribir_con, pasos_desinscribir, BAJA_NOTAS, BAJA_INSCRIPCION};
use adm_cursos::asistencias::{guardar_asistencia, marcar_con};
use adm_cursos::db::{en_transaccion, Base, ErrorDb, Valor};
use adm_cursos::domain::{AsistenciaWrite, EvaluacionWrite, EventoWrite, NotaWrite, ObservacionWrite};
use adm_cursos::esquema::{ciclos_semilla, filas_semilla, prepare_connection};
use adm_cursos::evaluaciones::{decidir_evaluacion, insertar_evaluacion};
use adm_cursos::eventos::{decidir_evento, insertar_evento};
use adm_cursos::maestras::{activar_con, limpiar_con, pasos_activar, pasos_limpiar};
use adm_cursos::notas::guardar_nota;
use adm_cursos::observaciones::insertar_observacion;
use rusqlite::Connection;

fn memory() -> Connection {
    let conn = Connection::open_in_memory().expect("memory sqlite");
    prepare_connection(&mut Base::nueva(&conn)).expect("prepare");
    conn
}

fn app(m: &str) -> ErrorDb {
    ErrorDb::App(m.to_string())
}

fn evaluacion(origen: Option<i64>) -> EvaluacionWrite {
    EvaluacionWrite {
        id_curso: 7,
        id_tipo_evaluacion: 1,
        id_evaluacion_origen: origen,
        titulo: "Parcial".into(),
        fecha: "2026-05-04".into(),
        tema: None,
        ponderacion: "1".into(),
    }
}

fn evento(id_curso: Option<i64>) -> EventoWrite {
    EventoWrite {
        id_curso,
        id_tipo_evento: 1,
        fecha: "2026-05-04".into(),
        hora: None,
        titulo: "Tema".into(),
        descripcion: None,
    }
}

#[test]
fn baja_sin_inscripcion_no_encontrada() {
    let conn = memory();
    assert_eq!(desinscribir_con(&mut Base::nueva(&conn), 1, 2, false), Err(ErrorDb::NoEncontrado));
}

#[test]
fn baja_borra_notas_primero_e_inscripcion_al_final() {
    let p = pasos_desinscribir(3, 9);
    assert_eq!(p.len(), 4);
    assert_eq!(p[0].0, BAJA_NOTAS);
    assert_eq!(p[3].0, BAJA_INSCRIPCION);
    for (_, args) in &p {
        assert_eq!(args, &vec![Valor::Entero(3), Valor::Entero(9)]);
    }
}

#[test]
fn limpiar_activo_se_rechaza() {
    let conn = memory();
    assert_eq!(
        limpiar_con(&mut Base::nueva(&conn), 1, 1),
        Err(app("No se puede limpiar el año lectivo activo. Activá otro año antes."))
    );
    let p = pasos_limpiar(5);
    assert_eq!(p.len(), 7);
    assert!(p.iter().all(|(_, a)| a == &vec![Valor::Entero(5)]));
}

#[test]
fn activar_sin_anio_no_encontrado() {
    let conn = memory();
    assert_eq!(activar_con(&mut Base::nueva(&conn), 99, false).unwrap_err(), ErrorDb::NoEncontrado);
    let p = pasos_activar(4);
    assert_eq!(p.len(), 2);
    assert!(p[0].1.is_empty());
    assert_eq!(p[1].1, vec![Valor::Entero(4)]);
}

#[test]
fn marcar_sin_curso_se_rechaza() {
    let conn = memory();
    assert_eq!(marcar_con(&mut Base::nueva(&conn), 99, "2026-05-04", false).unwrap_err(), app("No se encontró el curso."));
}

#[test]
fn guardar_exige_inscripcion() {
    let conn = memory();
    let a = AsistenciaWrite { id_curso: 1, id_alumno: 2, fecha: "2026-05-04".into(), id_estado_asistencia: 1 };
    assert_eq!(
        guardar_asistencia(&mut Base::nueva(&conn), a, true, true, false).unwrap_err(),
        app("El alumno tiene que estar inscripto en el curso para pasar lista.")
    );
    let n = NotaWrite { id_evaluacion: 1, id_alumno: 2, valor: Some("8".into()), ausente: 0, comentario: None };
    assert_eq!(
        guardar_nota(&mut Base::nueva(&conn), n, false).unwrap_err(),
        app("El alumno tiene que estar inscripto en el curso de la evaluación.")
    );
    let o = ObservacionWrite { id_alumno: 2, id_curso: 1, id_tipo_observacion: 1, fecha: "2026-05-04".into(), texto: "x".into() };
    assert_eq!(
        insertar_observacion(&mut Base::nueva(&conn), o, true, false, false).unwrap_err(),
        app("El tipo de observación no es válido.")
    );
}

#[test]
fn evento_tema_sin_curso_se_rechaza() {
    assert_eq!(decidir_evento(&"tema".to_string(), None, true), Err(app("Tema y entrega van siempre con un curso.")));
    assert_eq!(decidir_evento(&"entrega".to_string(), None, true), Err(app("Tema y entrega van siempre con un curso.")));
    assert_eq!(decidir_evento(&"acto".to_string(), None, true), Ok(()));
    assert_eq!(decidir_evento(&"acto".to_string(), Some(3), false), Err(app("No se encontró el curso.")));
    let conn = memory();
    assert_eq!(
        insertar_evento(&mut Base::nueva(&conn), evento(None), "tema".to_string(), true).unwrap_err(),
        app("Tema y entrega van siempre con un curso.")
    );
}

#[test]
fn recuperatorio_decide_su_origen() {
    let rec = "recuperatorio".to_string();
    assert_eq!(decidir_evaluacion(evaluacion(None), None, &rec, None), Err(app("Elegí la evaluación que se recupera.")));
    assert_eq!(decidir_evaluacion(evaluacion(Some(4)), Some(4), &rec, Some(7)), Err(app("Un recuperatorio no puede apuntar a sí mismo.")));
    assert_eq!(decidir_evaluacion(evaluacion(Some(4)), None, &rec, None), Err(app("No se encontró la evaluación de origen.")));
    assert_eq!(
        decidir_evaluacion(evaluacion(Some(4)), None, &rec, Some(8)),
        Err(app("El recuperatorio tiene que ser del mismo curso que la evaluación de origen."))
    );
    assert_eq!(decidir_evaluacion(evaluacion(Some(4)), None, &rec, Some(7)).unwrap().id_evaluacion_origen, Some(4));
    assert_eq!(decidir_evaluacion(evaluacion(Some(4)), None, &"escrito".to_string(), None).unwrap().id_evaluacion_origen, None);
    let conn = memory();
    assert_eq!(
        insertar_evaluacion(&mut Base::nueva(&conn), evaluacion(None), rec, None).unwrap_err(),
        app("Elegí la evaluación que se recupera.")
    );
}

#[test]
fn semilla_con_su_nivel() {
    let f = filas_semilla(10, 20);
    let s = ciclos_semilla();
    assert_eq!(f.len(), 14);
    assert_eq!(f[0], vec![Valor::Entero(10), Valor::Texto("Primer Grado".into()), Valor::Entero(1)]);
    assert_eq!(f[13], vec![Valor::Entero(20), Valor::Texto("Séptimo Año".into()), Valor::Entero(7)]);
    assert_eq!(s[7].1, "Primer Año");
}

#[test]
fn transaccion_que_falla_no_deja_nada() {
    let conn = Connection::open_in_memory().unwrap();
    conn.execute("CREATE TABLE t (x INTEGER)", []).unwrap();
    let pasos = vec![
        ("INSERT INTO t (x) VALUES (?1)", vec![Valor::Entero(1)]),
        ("INSERT INTO no_existe (x) VALUES (?1)", vec![Valor::Entero(2)]),
    ];
    assert!(en_transaccion(&mut Base::nueva(&conn), &pasos).is_err());
    let n: i64 = conn.query_row("SELECT COUNT(*) FROM t", [], |f| f.get(0)).unwrap();
    assert_eq!(n, 0);
    let bien = vec![("INSERT INTO t (x) VALUES (?1)", vec![Valor::Entero(3)])];
    assert!(en_transaccion(&mut Base::nueva(&conn), &bien).is_ok());
    let n: i64 = conn.query_row("SELECT COUNT(*) FROM t", [], |f| f.get(0)).unwrap();
    assert_eq!(n, 1);
}
