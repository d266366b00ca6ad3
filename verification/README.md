# adm_cursos

Cuaderno de dictados de un docente (primaria y secundaria): escuelas, materias, años lectivos,
cursos, alumnos e inscripciones, grilla semanal, evaluaciones y notas, asistencia, eventos y
observaciones, sobre SQLite; el archivo en disco va cifrado con una clave del docente.

La biblioteca (`src/`) está escrita en Verus y verificada:

| Módulo | Qué tiene |
|--------|-----------|
| `cadena` | Texto como secuencia de caracteres: recorte de blancos Unicode, dígitos, búsqueda. |
| `validar` | Reglas de los datos que carga el docente (fechas, horas, decimales, escala 1 a 10) y sus leyes. |
| `candado` | Clave, derivación Argon2id, sobre AES-256-GCM, reconocimiento del archivo y las decisiones del candado. |
| `db` | Sentencias y consultas sobre `rusqlite`, transacciones y el mensaje que ve el docente por cada error. |
| `filas` | Filas de la base como tipos del dominio. |
| `esquema` | El DDL con sus semillas y las migraciones de bases anteriores. |
| `alumnos`, `cursos`, `maestras`, `horarios`, `evaluaciones`, `notas`, `asistencias`, `eventos`, `observaciones` | Validación de lo que se carga, reglas que dependen de la base y comandos. |
| `privacidad` | Ruta y lectura del aviso de alcance. |

`app/` es lo que rodea a la biblioteca: el estado abierto o cerrado del cuaderno detrás de un
`Mutex`, la lectura y escritura del archivo cifrado, el volcado de la base en memoria, el aviso en
disco y los tipos con `serde` que viajan a la ventana.

Las funciones que hablan con SQLite reciben una `Base`: la conexión y, como dato fantasma, lo que
se le fue mandando (cada consulta y sentencia con sus parámetros, y el comienzo y la confirmación
de cada transacción). Sus contratos dicen qué se manda en cada caso. Los comandos reciben
`Option<&mut Base>`: `None` es el cuaderno cerrado, y entonces responden con el error de los datos
(si los hay) o con el de cuaderno cerrado, sin mandar nada.
