use patito::analizador::{analizar, es_reservada};
use patito::arbol::{Estatuto, Factor};
use patito::lexico::{tokenizar, Token};
use patito::programa::compilar;
use patito::tipos::Operador;

const FACTORIAL: &str = r#"
programa test;

vars:
resultado: entero;

entero fact(n: entero) {
    si (n <= 1) {
        return 1;
    } sino {
        return n * fact(n - 1);
    }
}

inicio

resultado = fact(5);
escribe(resultado);

fin
"#;

fn textos(ts: &[Token]) -> Vec<String> {
    ts.iter()
        .map(|t| match t {
            Token::Palabra(s) => format!("P:{}", s),
            Token::Numero(s) => format!("N:{}", s),
            Token::Simbolo(s) => format!("S:{}", s),
        })
        .collect()
}

#[test]
fn lexemas_de_una_asignacion() {
    let ts = tokenizar("x1_a = 3.25*(y>=2)!=z;").unwrap();
    assert_eq!(
        textos(&ts),
        vec![
            "P:x1_a", "S:=", "N:3.25", "S:*", "S:(", "P:y", "S:>=", "N:2", "S:)", "S:!=", "P:z",
            "S:;"
        ]
    );
}

#[test]
fn numero_sin_decimales_tras_el_punto() {
    // "7." no es un número con parte decimal: queda "7" y el punto es un error.
    assert_eq!(tokenizar("7.").err(), Some("Error de sintaxis".to_string()));
    let ts = tokenizar("12 .5").err();
    assert_eq!(ts, Some("Error de sintaxis".to_string()));
}

#[test]
fn espacios_separan_lexemas() {
    let ts = tokenizar(" a\tb\n\r<\n=").unwrap();
    assert_eq!(textos(&ts), vec!["P:a", "P:b", "S:<", "S:="]);
    assert!(tokenizar("").unwrap().is_empty());
}

#[test]
fn caracter_fuera_del_lenguaje() {
    assert_eq!(tokenizar("a # b").err(), Some("Error de sintaxis".to_string()));
    assert_eq!(tokenizar("a ! b").err(), Some("Error de sintaxis".to_string()));
    assert_eq!(tokenizar("año").err(), Some("Error de sintaxis".to_string()));
}

#[test]
fn palabras_reservadas() {
    for w in ["programa", "vars", "entero", "flotante", "nula", "inicio", "fin", "si", "sino",
        "mientras", "escribe", "return"]
    {
        assert!(es_reservada(w));
    }
    assert!(!es_reservada("fact"));
    assert!(!es_reservada("Si"));
}

#[test]
fn analiza_el_factorial() {
    let p = analizar(FACTORIAL).unwrap();
    assert_eq!(p.variables, vec![("resultado".to_string(), "entero".to_string())]);
    assert_eq!(p.funciones.len(), 1);
    let f = &p.funciones[0];
    assert_eq!(f.nombre, "fact");
    assert_eq!(f.tipo_retorno, Some("entero".to_string()));
    assert_eq!(f.parametros, vec![("n".to_string(), "entero".to_string())]);
    let cuerpo = f.cuerpo.as_ref().unwrap();
    assert_eq!(cuerpo.estatutos.len(), 1);
    match &cuerpo.estatutos[0] {
        Estatuto::Condicion(c, entonces, Some(sino)) => {
            assert_eq!(c.relacional.as_ref().unwrap().0, "<=");
            assert_eq!(entonces.estatutos.len(), 1);
            assert_eq!(sino.estatutos.len(), 1);
        },
        _ => panic!("se esperaba un si con sino"),
    }
    assert_eq!(p.cuerpo.estatutos.len(), 2);
    match &p.cuerpo.estatutos[0] {
        Estatuto::Asigna(v, e) => {
            assert_eq!(v, "resultado");
            match &e.izquierda.primero.primero {
                Factor::Llamada(l) => {
                    assert_eq!(l.nombre, "fact");
                    assert_eq!(l.argumentos.len(), 1);
                },
                _ => panic!("se esperaba una llamada"),
            }
        },
        _ => panic!("se esperaba una asignación"),
    }
    match &p.cuerpo.estatutos[1] {
        Estatuto::Imprime(e) => match &e.izquierda.primero.primero {
            Factor::Id(n) => assert_eq!(n, "resultado"),
            _ => panic!("se esperaba una variable"),
        },
        _ => panic!("se esperaba escribe"),
    }
}

#[test]
fn compila_el_factorial_desde_el_texto() {
    let c = compilar(FACTORIAL).unwrap();
    let q = &c.generador.cuadruplos;
    let esperado: Vec<(Operador, Option<&str>, Option<&str>, Option<&str>)> = vec![
        (Operador::Goto, None, None, Some("12")),
        (Operador::MenorIgual, Some("3000"), Some("9000"), Some("7000")),
        (Operador::GotoF, Some("7000"), None, Some("5")),
        (Operador::Return, Some("9000"), None, None),
        (Operador::Goto, None, None, Some("11")),
        (Operador::Era, None, None, Some("fact")),
        (Operador::Resta, Some("3000"), Some("9000"), Some("5000")),
        (Operador::Param, Some("5000"), None, Some("3000")),
        (Operador::Gosub, Some("fact"), Some("5001"), Some("1")),
        (Operador::Multiplicacion, Some("3000"), Some("5001"), Some("5002")),
        (Operador::Return, Some("5002"), None, None),
        (Operador::EndFunc, None, None, None),
        (Operador::Era, None, None, Some("fact")),
        (Operador::Param, Some("9001"), None, Some("3000")),
        (Operador::Gosub, Some("fact"), Some("5003"), Some("1")),
        (Operador::Asignacion, Some("5003"), None, Some("1000")),
        (Operador::Print, None, None, Some("1000")),
    ];
    assert_eq!(q.len(), esperado.len());
    for (c, (op, i, d, r)) in q.iter().zip(esperado.iter()) {
        assert_eq!(c.operador, *op);
        assert_eq!(c.izquierda.as_deref(), *i);
        assert_eq!(c.derecha.as_deref(), *d);
        assert_eq!(c.resultado.as_deref(), *r);
    }
}

#[test]
fn precedencia_y_asociatividad() {
    let c = compilar("programa p; vars: a: entero; b: entero; inicio a = a - b - 2 * (a + b); fin")
        .unwrap();
    let q = &c.generador.cuadruplos;
    assert_eq!(q.len(), 6);
    // a - b primero (izquierda a derecha), luego a + b, luego 2 * (a + b), al final la resta.
    assert_eq!(q[1].operador, Operador::Resta);
    assert_eq!(q[1].izquierda.as_deref(), Some("1000"));
    assert_eq!(q[1].derecha.as_deref(), Some("1001"));
    assert_eq!(q[2].operador, Operador::Suma);
    assert_eq!(q[3].operador, Operador::Multiplicacion);
    assert_eq!(q[3].izquierda.as_deref(), Some("9000"));
    assert_eq!(q[4].operador, Operador::Resta);
    assert_eq!(q[4].izquierda.as_deref(), Some("5000"));
    assert_eq!(q[5].operador, Operador::Asignacion);
}

#[test]
fn programa_minimo_y_funcion_nula() {
    let p = analizar("programa p; inicio fin").unwrap();
    assert!(p.variables.is_empty());
    assert!(p.funciones.is_empty());
    assert!(p.cuerpo.estatutos.is_empty());
    let p = analizar("programa p; nula f() { } inicio f(); fin").unwrap();
    assert_eq!(p.funciones[0].tipo_retorno, None);
    assert!(p.funciones[0].parametros.is_empty());
    match &p.cuerpo.estatutos[0] {
        Estatuto::Llamada(l) => assert!(l.argumentos.is_empty()),
        _ => panic!("se esperaba una llamada"),
    }
}

#[test]
fn ciclo_y_si_sin_sino() {
    let p = analizar(
        "programa p; vars: x: flotante; inicio mientras (x < 10) { si (x > 2) { escribe(x); } x = x + 0.5; } fin",
    )
    .unwrap();
    match &p.cuerpo.estatutos[0] {
        Estatuto::Ciclo(_, cuerpo) => {
            assert_eq!(cuerpo.estatutos.len(), 2);
            assert!(matches!(&cuerpo.estatutos[0], Estatuto::Condicion(_, _, None)));
        },
        _ => panic!("se esperaba un ciclo"),
    }
}

#[test]
fn errores_de_sintaxis() {
    let e = Some("Error de sintaxis".to_string());
    // falta el punto y coma
    assert_eq!(analizar("programa p; inicio x = 1 fin").err(), e);
    // una palabra reservada no nombra una variable
    assert_eq!(analizar("programa p; vars: si: entero; inicio fin").err(), e);
    // el bloque de variables no puede quedar vacío
    assert_eq!(analizar("programa p; vars: inicio fin").err(), e);
    // algo después de fin
    assert_eq!(analizar("programa p; inicio fin fin").err(), e);
    // tipo desconocido
    assert_eq!(analizar("programa p; vars: x: bool; inicio fin").err(), e);
    // paréntesis sin cerrar
    assert_eq!(analizar("programa p; inicio escribe((1); fin").err(), e);
    // argumentos sin cerrar
    assert_eq!(analizar("programa p; inicio f(1, 2; fin").err(), e);
    // error léxico
    assert_eq!(analizar("programa p; inicio x = 1 % 2; fin").err(), e);
    // la compilación también lo reporta
    assert_eq!(compilar("programa p inicio fin").err(), e);
}

#[test]
fn errores_semanticos_desde_el_texto() {
    assert_eq!(
        compilar("programa p; inicio z = 1; fin").err(),
        Some("Variable 'z' no declarada".to_string())
    );
    assert_eq!(
        compilar("programa p; vars: x: entero; inicio si (x + 1) { } fin").err(),
        Some("La condición debe ser booleana".to_string())
    );
}

#[test]
fn lexemas_guardan_el_texto() {
    let ts = tokenizar(FACTORIAL).unwrap();
    let unidos: String = ts
        .iter()
        .map(|t| match t {
            Token::Palabra(s) | Token::Numero(s) | Token::Simbolo(s) => s.as_str(),
        })
        .collect();
    let sin_espacios: String = FACTORIAL.chars().filter(|c| !c.is_whitespace()).collect();
    assert_eq!(unidos, sin_espacios);
}

#[test]
fn nombre_del_programa() {
    assert_eq!(analizar(FACTORIAL).unwrap().nombre, "test");
}

#[test]
fn llamada_a_una_funcion_declarada_despues() {
    let c = compilar(
        "programa p; nula f() { g(); } nula g() { f(); } inicio f(); fin",
    )
    .unwrap();
    // f: Era g, Gosub g, EndFunc (1..3); g: Era f, Gosub f, EndFunc (4..6); main desde 7.
    assert_eq!(c.funciones.obtener("f").unwrap().inicio, 1);
    assert_eq!(c.funciones.obtener("g").unwrap().inicio, 4);
    let q = &c.generador.cuadruplos;
    assert_eq!(q[0].resultado.as_deref(), Some("7"));
    assert_eq!(q[1].operador, Operador::Era);
    assert_eq!(q[1].resultado.as_deref(), Some("g"));
    assert_eq!(q[2].operador, Operador::Gosub);
    assert_eq!(q[2].izquierda.as_deref(), Some("g"));
    // la llamada a g se generó antes de conocer su inicio y quedó dirigida a él
    assert_eq!(q[2].resultado.as_deref(), Some("4"));
    assert_eq!(q[3].operador, Operador::EndFunc);
    assert_eq!(q[5].operador, Operador::Gosub);
    assert_eq!(q[5].resultado.as_deref(), Some("1"));
    assert_eq!(q[6].operador, Operador::EndFunc);
    assert_eq!(q[7].operador, Operador::Era);
    assert_eq!(q[8].resultado.as_deref(), Some("1"));
    assert_eq!(
        c.avisos,
        vec![
            "Función 'f' inicia en cuádruplo 1".to_string(),
            "Función 'g' inicia en cuádruplo 4".to_string()
        ]
    );
}

#[test]
fn segunda_funcion_con_cuerpo_empieza_tras_el_endfunc_de_la_primera() {
    let c = compilar(
        "programa p; vars: x: entero; entero uno() { return 1; } entero dos() { return uno() + 1; } \
         inicio x = dos(); fin",
    )
    .unwrap();
    let q = &c.generador.cuadruplos;
    let inicio_dos = c.funciones.obtener("dos").unwrap().inicio;
    assert_eq!(c.funciones.obtener("uno").unwrap().inicio, 1);
    assert_eq!(q[inicio_dos - 1].operador, Operador::EndFunc);
    assert_eq!(q[2].operador, Operador::EndFunc);
    assert_eq!(inicio_dos, 3);
    for c in q.iter().filter(|c| c.operador == Operador::Gosub) {
        match c.izquierda.as_deref() {
            Some("uno") => assert_eq!(c.resultado.as_deref(), Some("1")),
            Some("dos") => assert_eq!(c.resultado.as_deref(), Some("3")),
            otra => panic!("llamada inesperada: {:?}", otra),
        }
    }
}
