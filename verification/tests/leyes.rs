use adm_cursos::alumnos::alumno_from_write;
use adm_cursos::db::{map_sql_error, ErrorDb};
use adm_cursos::domain::{AlumnoWrite, EvaluacionWrite, EventoWrite, HorarioWrite, NotaWrite, ObservacionWrite};
use adm_cursos::evaluaciones::evaluacion_from_write;
use adm_cursos::eventos::{evento_from_write, revisar_curso};
use adm_cursos::horarios::horario_from_write;
use adm_cursos::notas::nota_from_write;
use adm_cursos::observaciones::observacion_from_write;
use adm_cursos::validar::{opt_text, require_fecha, require_nombre, require_ponderacion, require_valor_1_10};

#[test]
fn normalizar_dos_veces_no_cambia() {
    let a = alumno_from_write(AlumnoWrite { nombre: "\t Ana ".into(), apellido: " Gómez\n".into() }).unwrap();
    assert_eq!(alumno_from_write(a.clone()).unwrap(), a);

    let e = evaluacion_from_write(EvaluacionWrite {
        id_curso: 1,
        id_tipo_evaluacion: 1,
        id_evaluacion_origen: Some(0),
        titulo: " Escrito ".into(),
        fecha: " 2026-05-12".into(),
        tema: Some("  ".into()),
        ponderacion: " 1,50 ".into(),
    })
    .unwrap();
    assert_eq!(e.ponderacion, "1.50");
    assert_eq!(evaluacion_from_write(e.clone()).unwrap(), e);

    let ev = evento_from_write(EventoWrite {
        id_curso: None,
        id_tipo_evento: 5,
        fecha: "2026-05-25".into(),
        hora: Some(" 09:30:15 ".into()),
        titulo: " Acto ".into(),
        descripcion: Some(" patio ".into()),
    })
    .unwrap();
    assert_eq!(ev.hora.as_deref(), Some("09:30"));
    assert_eq!(evento_from_write(ev.clone()).unwrap(), ev);

    let signo = horario_from_write(HorarioWrite {
        id_curso: 1,
        dia_semana: 2,
        hora_inicio: " 08:00".into(),
        hora_fin: "+9:20".into(),
        aula: Some(" 12 ".into()),
    });
    assert_eq!(signo.unwrap_err(), "La hora debe ser HH:MM.");
    let h = horario_from_write(HorarioWrite {
        id_curso: 1,
        dia_semana: 2,
        hora_inicio: " 08:00".into(),
        hora_fin: "09:20 ".into(),
        aula: Some(" 12 ".into()),
    })
    .unwrap();
    assert_eq!(horario_from_write(h.clone()).unwrap(), h);

    let n = nota_from_write(NotaWrite {
        id_evaluacion: 1,
        id_alumno: 2,
        valor: Some(" 9,75 ".into()),
        ausente: 0,
        comentario: Some(" bien ".into()),
    })
    .unwrap();
    assert_eq!(n.valor.as_deref(), Some("9.75"));
    assert_eq!(nota_from_write(n.clone()).unwrap(), n);

    let o = observacion_from_write(ObservacionWrite {
        id_alumno: 1,
        id_curso: 2,
        id_tipo_observacion: 3,
        fecha: "2026-09-09 ".into(),
        texto: "  trabajó bien ".into(),
    })
    .unwrap();
    assert_eq!(observacion_from_write(o.clone()).unwrap(), o);
}

#[test]
fn textos_estables() {
    let t = require_nombre("  x  ", "nombre").unwrap();
    assert_eq!(require_nombre(&t, "nombre").unwrap(), t);
    assert_eq!(opt_text(opt_text(Some(" a b ".into()))), Some("a b".into()));
    let f = require_fecha("\u{3000}2026-01-31 ").unwrap();
    assert_eq!(f, "2026-01-31");
    assert_eq!(require_fecha(&f).unwrap(), f);
    assert_eq!(require_ponderacion("").unwrap(), "1");
    assert_eq!(require_ponderacion("1").unwrap(), "1");
    let v = require_valor_1_10(" 7,25").unwrap();
    assert_eq!(require_valor_1_10(&v).unwrap(), v);
}

#[test]
fn escala_por_valor() {
    assert!(require_valor_1_10("0.99").is_err());
    assert!(require_valor_1_10("1.0").is_ok());
    assert!(require_valor_1_10("9.999").is_ok());
    assert!(require_valor_1_10("10.000").is_ok());
    assert!(require_valor_1_10("010").is_ok());
    assert!(require_valor_1_10("99999999999").is_err());
    assert!(require_ponderacion("0.001").is_ok());
    assert!(require_ponderacion("000.000").is_err());
}

#[test]
fn tema_sin_curso_y_mensajes_de_app() {
    assert!(matches!(revisar_curso(true, None), Err(ErrorDb::App(m)) if m == "Tema y entrega van siempre con un curso."));
    assert!(matches!(revisar_curso(true, Some(3)), Ok(Some(3))));
    assert!(matches!(revisar_curso(false, None), Ok(None)));
    assert_eq!(map_sql_error(ErrorDb::App("lo que diga la regla".into())), "lo que diga la regla");
    assert_eq!(map_sql_error(ErrorDb::Sql("UNIQUE constraint failed: materias.nombre".into())), "Ya existe una materia con ese nombre.");
    assert_eq!(map_sql_error(ErrorDb::Sql("CHECK constraint failed: AUSENTE".into())), "Si está ausente, la nota tiene que quedar vacía.");
    assert_eq!(map_sql_error(ErrorDb::Sql("otra cosa".into())), "otra cosa");
}
