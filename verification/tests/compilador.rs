use patito::arbol::{Cuerpo, Estatuto, Exp, Expresion, Factor, Funcion, Llamada, Programa, Termino};
use patito::compilador::tipo_desde_str;
use patito::programa::compilar_arbol;
use patito::tipos::{Cuadruplo, Operador, Tipo};

fn factor_exp(f: Factor) -> Exp {
    Exp { primero: Termino { primero: f, resto: vec![] }, resto: vec![] }
}

fn expr(f: Factor) -> Expresion {
    Expresion { izquierda: factor_exp(f), relacional: None }
}

fn id(s: &str) -> Factor {
    Factor::Id(s.to_string())
}

fn cte(s: &str) -> Factor {
    Factor::Cte(s.to_string())
}

fn llamada(nombre: &str, argumentos: Vec<Expresion>) -> Llamada {
    Llamada { nombre: nombre.to_string(), argumentos }
}

fn es(c: &Cuadruplo, op: Operador, i: Option<&str>, d: Option<&str>, r: Option<&str>) -> bool {
    c.operador == op
        && c.izquierda.as_deref() == i
        && c.derecha.as_deref() == d
        && c.resultado.as_deref() == r
}

/// programa test; vars: resultado: entero;
/// entero fact(n: entero) { si (n <= 1) { return 1; } sino { return n * fact(n - 1); } }
/// inicio resultado = fact(5); escribe(resultado); fin
fn factorial() -> Programa {
    let condicion = Expresion {
        izquierda: factor_exp(id("n")),
        relacional: Some(("<=".to_string(), factor_exp(cte("1")))),
    };
    let n_menos_1 = Expresion {
        izquierda: Exp {
            primero: Termino { primero: id("n"), resto: vec![] },
            resto: vec![("-".to_string(), Termino { primero: cte("1"), resto: vec![] })],
        },
        relacional: None,
    };
    let producto = Expresion {
        izquierda: Exp {
            primero: Termino {
                primero: id("n"),
                resto: vec![("*".to_string(), Factor::Llamada(llamada("fact", vec![n_menos_1])))],
            },
            resto: vec![],
        },
        relacional: None,
    };
    let cuerpo_fact = Cuerpo {
        estatutos: vec![Estatuto::Condicion(
            condicion,
            Cuerpo { estatutos: vec![Estatuto::Retorno(expr(cte("1")))] },
            Some(Cuerpo { estatutos: vec![Estatuto::Retorno(producto)] }),
        )],
    };
    Programa {
        nombre: "p".to_string(),
        variables: vec![("resultado".to_string(), "entero".to_string())],
        funciones: vec![Funcion {
            tipo_retorno: Some("entero".to_string()),
            nombre: "fact".to_string(),
            parametros: vec![("n".to_string(), "entero".to_string())],
            cuerpo: Some(cuerpo_fact),
        }],
        cuerpo: Cuerpo {
            estatutos: vec![
                Estatuto::Asigna(
                    "resultado".to_string(),
                    expr(Factor::Llamada(llamada("fact", vec![expr(cte("5"))]))),
                ),
                Estatuto::Imprime(expr(id("resultado"))),
            ],
        },
    }
}

#[test]
fn tipo_desde_texto() {
    assert_eq!(tipo_desde_str("entero"), Tipo::Entero);
    assert_eq!(tipo_desde_str("flotante"), Tipo::Flotante);
    assert_eq!(tipo_desde_str("bool"), Tipo::Error);
    assert_eq!(tipo_desde_str("Entero"), Tipo::Error);
}

#[test]
fn compila_factorial() {
    let c = compilar_arbol(&factorial()).unwrap();
    let q = &c.generador.cuadruplos;
    assert_eq!(q.len(), 17);
    assert!(es(&q[0], Operador::Goto, None, None, Some("12")));
    assert!(es(&q[1], Operador::MenorIgual, Some("3000"), Some("9000"), Some("7000")));
    assert!(es(&q[2], Operador::GotoF, Some("7000"), None, Some("5")));
    assert!(es(&q[3], Operador::Return, Some("9000"), None, None));
    assert!(es(&q[4], Operador::Goto, None, None, Some("11")));
    assert!(es(&q[5], Operador::Era, None, None, Some("fact")));
    assert!(es(&q[6], Operador::Resta, Some("3000"), Some("9000"), Some("5000")));
    assert!(es(&q[7], Operador::Param, Some("5000"), None, Some("3000")));
    assert!(es(&q[8], Operador::Gosub, Some("fact"), Some("5001"), Some("1")));
    assert!(es(&q[9], Operador::Multiplicacion, Some("3000"), Some("5001"), Some("5002")));
    assert!(es(&q[10], Operador::Return, Some("5002"), None, None));
    assert!(es(&q[11], Operador::EndFunc, None, None, None));
    assert!(es(&q[12], Operador::Era, None, None, Some("fact")));
    assert!(es(&q[13], Operador::Param, Some("9001"), None, Some("3000")));
    assert!(es(&q[14], Operador::Gosub, Some("fact"), Some("5003"), Some("1")));
    assert!(es(&q[15], Operador::Asignacion, Some("5003"), None, Some("1000")));
    assert!(es(&q[16], Operador::Print, None, None, Some("1000")));
    assert!(c.generador.operandos.is_empty());
    assert!(c.generador.tipos.is_empty());
}

#[test]
fn compila_factorial_tablas() {
    let c = compilar_arbol(&factorial()).unwrap();
    let v = c.variables.obtener("resultado").unwrap();
    assert_eq!(v.tipo, Tipo::Entero);
    assert_eq!(v.direccion, Some(1000));
    assert_eq!(c.variables.entradas().len(), 1);
    assert_eq!(c.constantes.obtener("1").unwrap().direccion, Some(9000));
    assert_eq!(c.constantes.obtener("5").unwrap().direccion, Some(9001));
    assert_eq!(c.constantes.entradas().len(), 2);
    let f = c.funciones.obtener("fact").unwrap();
    assert_eq!(f.inicio, 1);
    assert_eq!(f.tipo_retorno, Tipo::Entero);
    assert_eq!(f.parametros.len(), 1);
    assert_eq!(f.parametros[0].nombre, "n");
    assert_eq!(f.parametros[0].direccion, 3000);
    assert_eq!(c.avisos, vec!["Función 'fact' inicia en cuádruplo 1".to_string()]);
}

#[test]
fn ciclo_y_flotantes() {
    // vars: x: flotante; inicio mientras (x < 10) { x = x + 0.5; } fin
    let cond = Expresion {
        izquierda: factor_exp(id("x")),
        relacional: Some(("<".to_string(), factor_exp(cte("10")))),
    };
    let suma = Expresion {
        izquierda: Exp {
            primero: Termino { primero: id("x"), resto: vec![] },
            resto: vec![("+".to_string(), Termino { primero: cte("0.5"), resto: vec![] })],
        },
        relacional: None,
    };
    let p = Programa {
        nombre: "p".to_string(),
        variables: vec![("x".to_string(), "flotante".to_string())],
        funciones: vec![],
        cuerpo: Cuerpo {
            estatutos: vec![Estatuto::Ciclo(
                cond,
                Cuerpo { estatutos: vec![Estatuto::Asigna("x".to_string(), suma)] },
            )],
        },
    };
    let c = compilar_arbol(&p).unwrap();
    let q = &c.generador.cuadruplos;
    assert_eq!(q.len(), 6);
    assert!(es(&q[0], Operador::Goto, None, None, Some("1")));
    assert!(es(&q[1], Operador::Menor, Some("2000"), Some("9000"), Some("7000")));
    assert!(es(&q[2], Operador::GotoF, Some("7000"), None, Some("6")));
    assert!(es(&q[3], Operador::Suma, Some("2000"), Some("10000"), Some("6000")));
    assert!(es(&q[4], Operador::Asignacion, Some("6000"), None, Some("2000")));
    assert!(es(&q[5], Operador::Goto, None, None, Some("1")));
    assert_eq!(c.constantes.obtener("0.5").unwrap().tipo, Tipo::Flotante);
    assert_eq!(c.constantes.obtener("10").unwrap().tipo, Tipo::Entero);
}

#[test]
fn si_sin_sino_y_variable_repetida() {
    let cond = Expresion {
        izquierda: factor_exp(id("a")),
        relacional: Some((">".to_string(), factor_exp(cte("0")))),
    };
    let p = Programa {
        nombre: "p".to_string(),
        variables: vec![
            ("a".to_string(), "entero".to_string()),
            ("a".to_string(), "flotante".to_string()),
        ],
        funciones: vec![],
        cuerpo: Cuerpo {
            estatutos: vec![Estatuto::Condicion(
                cond,
                Cuerpo { estatutos: vec![Estatuto::Imprime(expr(id("a")))] },
                None,
            )],
        },
    };
    let c = compilar_arbol(&p).unwrap();
    assert_eq!(c.avisos, vec!["Error: variable 'a' duplicada".to_string()]);
    assert_eq!(c.variables.obtener("a").unwrap().tipo, Tipo::Entero);
    let q = &c.generador.cuadruplos;
    assert_eq!(q.len(), 4);
    assert!(es(&q[1], Operador::Mayor, Some("1000"), Some("9000"), Some("7000")));
    assert!(es(&q[2], Operador::GotoF, Some("7000"), None, Some("4")));
    assert!(es(&q[3], Operador::Print, None, None, Some("1000")));
}

#[test]
fn cada_funcion_empieza_tras_la_anterior() {
    let f = |nombre: &str| Funcion {
        tipo_retorno: None,
        nombre: nombre.to_string(),
        parametros: vec![],
        cuerpo: Some(Cuerpo { estatutos: vec![] }),
    };
    let p = Programa {
        nombre: "p".to_string(),
        variables: vec![],
        funciones: vec![f("uno"), f("dos")],
        cuerpo: Cuerpo { estatutos: vec![Estatuto::Llamada(llamada("dos", vec![]))] },
    };
    let c = compilar_arbol(&p).unwrap();
    assert_eq!(c.funciones.obtener("uno").unwrap().inicio, 1);
    assert_eq!(c.funciones.obtener("dos").unwrap().inicio, 2);
    assert_eq!(c.funciones.obtener("dos").unwrap().tipo_retorno, Tipo::Void);
    let q = &c.generador.cuadruplos;
    assert!(es(&q[0], Operador::Goto, None, None, Some("3")));
    assert!(es(&q[1], Operador::EndFunc, None, None, None));
    assert!(es(&q[2], Operador::EndFunc, None, None, None));
    assert!(es(&q[3], Operador::Era, None, None, Some("dos")));
    assert!(es(&q[4], Operador::Gosub, Some("dos"), None, Some("2")));
    assert_eq!(
        c.avisos,
        vec![
            "Función 'uno' inicia en cuádruplo 1".to_string(),
            "Función 'dos' inicia en cuádruplo 2".to_string()
        ]
    );
}

#[test]
fn errores_semanticos() {
    // variable no declarada
    let p = Programa {
        nombre: "p".to_string(),
        variables: vec![],
        funciones: vec![],
        cuerpo: Cuerpo { estatutos: vec![Estatuto::Imprime(expr(id("z")))] },
    };
    assert_eq!(compilar_arbol(&p).err(), Some("Variable 'z' no declarada".to_string()));
    // condición no booleana
    let p = Programa {
        nombre: "p".to_string(),
        variables: vec![],
        funciones: vec![],
        cuerpo: Cuerpo {
            estatutos: vec![Estatuto::Ciclo(expr(cte("1")), Cuerpo { estatutos: vec![] })],
        },
    };
    assert_eq!(compilar_arbol(&p).err(), Some("La condición debe ser booleana".to_string()));
    // función no declarada
    let p = Programa {
        nombre: "p".to_string(),
        variables: vec![],
        funciones: vec![],
        cuerpo: Cuerpo { estatutos: vec![Estatuto::Llamada(llamada("g", vec![]))] },
    };
    assert_eq!(compilar_arbol(&p).err(), Some("Función 'g' no declarada".to_string()));
    // asignación de flotante a entero
    let p = Programa {
        nombre: "p".to_string(),
        variables: vec![("i".to_string(), "entero".to_string())],
        funciones: vec![],
        cuerpo: Cuerpo { estatutos: vec![Estatuto::Asigna("i".to_string(), expr(cte("1.5")))] },
    };
    assert_eq!(
        compilar_arbol(&p).err(),
        Some("Asignación inválida: variable Entero = valor Flotante".to_string())
    );
    // variable de tipo desconocido
    let p = Programa {
        nombre: "p".to_string(),
        variables: vec![("b".to_string(), "bool".to_string())],
        funciones: vec![],
        cuerpo: Cuerpo { estatutos: vec![] },
    };
    assert_eq!(compilar_arbol(&p).err(), Some("Tipo global no soportado".to_string()));
    // llamada a función sin valor de retorno dentro de una expresión
    let p = Programa {
        nombre: "p".to_string(),
        variables: vec![("i".to_string(), "entero".to_string())],
        funciones: vec![Funcion {
            tipo_retorno: None,
            nombre: "h".to_string(),
            parametros: vec![],
            cuerpo: None,
        }],
        cuerpo: Cuerpo {
            estatutos: vec![Estatuto::Asigna(
                "i".to_string(),
                expr(Factor::Llamada(llamada("h", vec![]))),
            )],
        },
    };
    assert_eq!(compilar_arbol(&p).err(), Some("Tipo temporal no soportado".to_string()));
    // argumentos de más y de menos
    let f = Funcion {
        tipo_retorno: Some("entero".to_string()),
        nombre: "k".to_string(),
        parametros: vec![("p".to_string(), "entero".to_string())],
        cuerpo: None,
    };
    let con = |argumentos: Vec<Expresion>| Programa {
        nombre: "p".to_string(),
        variables: vec![],
        funciones: vec![Funcion {
            tipo_retorno: f.tipo_retorno.clone(),
            nombre: f.nombre.clone(),
            parametros: f.parametros.clone(),
            cuerpo: None,
        }],
        cuerpo: Cuerpo { estatutos: vec![Estatuto::Llamada(llamada("k", argumentos))] },
    };
    assert_eq!(
        compilar_arbol(&con(vec![expr(cte("1")), expr(cte("2"))])).err(),
        Some("Demasiados argumentos para función 'k'".to_string())
    );
    assert_eq!(
        compilar_arbol(&con(vec![])).err(),
        Some("Cantidad incorrecta de argumentos para función 'k': esperados 1, recibidos 0".to_string())
    );
    // función sin nombre
    let p = Programa {
        nombre: "p".to_string(),
        variables: vec![],
        funciones: vec![Funcion { tipo_retorno: None, nombre: String::new(), parametros: vec![], cuerpo: None }],
        cuerpo: Cuerpo { estatutos: vec![] },
    };
    assert_eq!(compilar_arbol(&p).err(), Some("Función sin nombre".to_string()));
    // operación con un booleano
    let p = Programa {
        nombre: "p".to_string(),
        variables: vec![("i".to_string(), "entero".to_string())],
        funciones: vec![],
        cuerpo: Cuerpo {
            estatutos: vec![Estatuto::Asigna(
                "i".to_string(),
                Expresion {
                    izquierda: Exp {
                        primero: Termino {
                            primero: Factor::Expresion(Box::new(Expresion {
                                izquierda: factor_exp(id("i")),
                                relacional: Some(("<".to_string(), factor_exp(cte("2")))),
                            })),
                            resto: vec![],
                        },
                        resto: vec![("+".to_string(), Termino { primero: cte("1"), resto: vec![] })],
                    },
                    relacional: None,
                },
            )],
        },
    };
    assert_eq!(compilar_arbol(&p).err(), Some("Operación inválida: Bool + Entero".to_string()));
}
