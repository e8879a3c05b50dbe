//! La gramática de Patito, como especificación: el árbol abstracto de un
//! programa, la forma abstracta del árbol concreto, y el análisis descendente
//! que de una lista de lexemas da el árbol (o nada, si no sigue la gramática).
//!
//! ```text
//! programa    = "programa" id ";" [ "vars" ":" decl { decl } ] { funcion } "inicio" cuerpo "fin"
//! decl        = id ":" tipo ";"
//! funcion     = ( tipo | "nula" ) id "(" [ param { "," param } ] ")" "{" cuerpo "}"
//! param       = id ":" tipo
//! tipo        = "entero" | "flotante"
//! cuerpo      = { estatuto }
//! estatuto    = id "=" expresion ";" | "escribe" "(" expresion ")" ";"
//!             | "si" "(" expresion ")" "{" cuerpo "}" [ "sino" "{" cuerpo "}" ]
//!             | "mientras" "(" expresion ")" "{" cuerpo "}"
//!             | "return" expresion ";" | id "(" argumentos ";"
//! argumentos  = ")" | expresion { "," expresion } ")"
//! expresion   = exp [ ( ">" | "<" | ">=" | "<=" | "==" | "!=" ) exp ]
//! exp         = termino { ( "+" | "-" ) termino }
//! termino     = factor { ( "*" | "/" ) factor }
//! factor      = "(" expresion ")" | numero | id "(" argumentos | id
//! ```

use vstd::prelude::*;

use crate::arbol::{Cuerpo, Estatuto, Exp, Expresion, Factor, Funcion, Llamada, Programa, Termino};
use crate::lexico::{lexemas_de, Lexema};

verus! {

/// Un factor, visto por su contenido.
pub enum FactorV {
    Llamada(LlamadaV),
    Id(Seq<char>),
    Cte(Seq<char>),
    Expresion(Box<ExpresionV>),
}

/// Una llamada, vista por su contenido.
pub struct LlamadaV {
    pub nombre: Seq<char>,
    pub argumentos: Seq<ExpresionV>,
}

/// Un término, visto por su contenido.
pub struct TerminoV {
    pub primero: FactorV,
    pub resto: Seq<(Seq<char>, FactorV)>,
}

/// Una expresión aritmética, vista por su contenido.
pub struct ExpV {
    pub primero: TerminoV,
    pub resto: Seq<(Seq<char>, TerminoV)>,
}

/// Una expresión, vista por su contenido.
pub struct ExpresionV {
    pub izquierda: ExpV,
    pub relacional: Option<(Seq<char>, ExpV)>,
}

/// Un estatuto, visto por su contenido.
pub enum EstatutoV {
    Asigna(Seq<char>, ExpresionV),
    Imprime(ExpresionV),
    Condicion(ExpresionV, CuerpoV, Option<CuerpoV>),
    Ciclo(ExpresionV, CuerpoV),
    Retorno(ExpresionV),
    Llamada(LlamadaV),
}

/// Un cuerpo, visto por su contenido.
pub struct CuerpoV {
    pub estatutos: Seq<EstatutoV>,
}

/// Una función, vista por su contenido.
pub struct FuncionV {
    pub tipo_retorno: Option<Seq<char>>,
    pub nombre: Seq<char>,
    pub parametros: Seq<(Seq<char>, Seq<char>)>,
    pub cuerpo: Option<CuerpoV>,
}

/// Un programa, visto por su contenido.
pub struct ProgramaV {
    pub nombre: Seq<char>,
    pub variables: Seq<(Seq<char>, Seq<char>)>,
    pub funciones: Seq<FuncionV>,
    pub cuerpo: CuerpoV,
}

// ---------------------------------------------------------------------------
// La forma abstracta del árbol concreto: cada texto por su contenido.

pub open spec fn forma_factor(f: Factor) -> FactorV
    decreases f,
{
    match f {
        Factor::Llamada(l) => FactorV::Llamada(forma_llamada(l)),
        Factor::Id(s) => FactorV::Id(s@),
        Factor::Cte(s) => FactorV::Cte(s@),
        Factor::Expresion(e) => FactorV::Expresion(Box::new(forma_expresion(*e))),
    }
}

pub open spec fn forma_llamada(l: Llamada) -> LlamadaV
    decreases l,
{
    LlamadaV { nombre: l.nombre@, argumentos: forma_expresiones(l.argumentos@) }
}

pub open spec fn forma_expresiones(s: Seq<Expresion>) -> Seq<ExpresionV>
    decreases s,
{
    if s.len() == 0 {
        Seq::empty()
    } else {
        forma_expresiones(s.subrange(0, s.len() - 1)).push(forma_expresion(s[s.len() - 1]))
    }
}

pub open spec fn forma_termino(t: Termino) -> TerminoV
    decreases t,
{
    TerminoV { primero: forma_factor(t.primero), resto: forma_resto_termino(t.resto@) }
}

pub open spec fn forma_resto_termino(s: Seq<(String, Factor)>) -> Seq<(Seq<char>, FactorV)>
    decreases s,
{
    if s.len() == 0 {
        Seq::empty()
    } else {
        forma_resto_termino(s.subrange(0, s.len() - 1)).push(
            (s[s.len() - 1].0@, forma_factor(s[s.len() - 1].1)),
        )
    }
}

pub open spec fn forma_exp(x: Exp) -> ExpV
    decreases x,
{
    ExpV { primero: forma_termino(x.primero), resto: forma_resto_exp(x.resto@) }
}

pub open spec fn forma_resto_exp(s: Seq<(String, Termino)>) -> Seq<(Seq<char>, TerminoV)>
    decreases s,
{
    if s.len() == 0 {
        Seq::empty()
    } else {
        forma_resto_exp(s.subrange(0, s.len() - 1)).push(
            (s[s.len() - 1].0@, forma_termino(s[s.len() - 1].1)),
        )
    }
}

pub open spec fn forma_expresion(e: Expresion) -> ExpresionV
    decreases e,
{
    ExpresionV {
        izquierda: forma_exp(e.izquierda),
        relacional: match e.relacional {
            Some(par) => Some((par.0@, forma_exp(par.1))),
            None => None,
        },
    }
}

pub open spec fn forma_estatuto(st: Estatuto) -> EstatutoV
    decreases st,
{
    match st {
        Estatuto::Asigna(n, e) => EstatutoV::Asigna(n@, forma_expresion(e)),
        Estatuto::Imprime(e) => EstatutoV::Imprime(forma_expresion(e)),
        Estatuto::Condicion(e, c, o) => EstatutoV::Condicion(
            forma_expresion(e),
            forma_cuerpo(c),
            match o {
                Some(c2) => Some(forma_cuerpo(c2)),
                None => None,
            },
        ),
        Estatuto::Ciclo(e, c) => EstatutoV::Ciclo(forma_expresion(e), forma_cuerpo(c)),
        Estatuto::Retorno(e) => EstatutoV::Retorno(forma_expresion(e)),
        Estatuto::Llamada(l) => EstatutoV::Llamada(forma_llamada(l)),
    }
}

pub open spec fn forma_cuerpo(c: Cuerpo) -> CuerpoV
    decreases c,
{
    CuerpoV { estatutos: forma_estatutos(c.estatutos@) }
}

pub open spec fn forma_estatutos(s: Seq<Estatuto>) -> Seq<EstatutoV>
    decreases s,
{
    if s.len() == 0 {
        Seq::empty()
    } else {
        forma_estatutos(s.subrange(0, s.len() - 1)).push(forma_estatuto(s[s.len() - 1]))
    }
}

/// Los pares de textos (nombre y tipo) por su contenido.
pub open spec fn forma_pares(s: Seq<(String, String)>) -> Seq<(Seq<char>, Seq<char>)> {
    s.map_values(|x: (String, String)| (x.0@, x.1@))
}

pub open spec fn forma_funcion(f: Funcion) -> FuncionV {
    FuncionV {
        tipo_retorno: match f.tipo_retorno {
            Some(t) => Some(t@),
            None => None,
        },
        nombre: f.nombre@,
        parametros: forma_pares(f.parametros@),
        cuerpo: match f.cuerpo {
            Some(c) => Some(forma_cuerpo(c)),
            None => None,
        },
    }
}

pub open spec fn forma_funciones(s: Seq<Funcion>) -> Seq<FuncionV> {
    s.map_values(|f: Funcion| forma_funcion(f))
}

pub open spec fn forma_programa(p: Programa) -> ProgramaV {
    ProgramaV {
        nombre: p.nombre@,
        variables: forma_pares(p.variables@),
        funciones: forma_funciones(p.funciones@),
        cuerpo: forma_cuerpo(p.cuerpo),
    }
}

// ---------------------------------------------------------------------------
// Consultas sobre la lista de lexemas.

/// En `p` está el símbolo `s`.
pub open spec fn simbolo_en(ts: Seq<Lexema>, p: nat, s: Seq<char>) -> bool {
    p < ts.len() && ts[p as int] == Lexema::Simbolo(s)
}

/// En `p` está la palabra `w`.
pub open spec fn palabra_en(ts: Seq<Lexema>, p: nat, w: Seq<char>) -> bool {
    p < ts.len() && ts[p as int] == Lexema::Palabra(w)
}

/// Las palabras reservadas, que no pueden nombrar variables ni funciones.
pub open spec fn reservada(w: Seq<char>) -> bool {
    w == "programa"@ || w == "vars"@ || w == "entero"@ || w == "flotante"@ || w == "nula"@
        || w == "inicio"@ || w == "fin"@ || w == "si"@ || w == "sino"@ || w == "mientras"@
        || w == "escribe"@ || w == "return"@
}

/// El identificador que está en `p`, si lo hay.
pub open spec fn identificador_en(ts: Seq<Lexema>, p: nat) -> Option<Seq<char>> {
    if p < ts.len() {
        match ts[p as int] {
            Lexema::Palabra(w) => if reservada(w) {
                None
            } else {
                Some(w)
            },
            _ => None,
        }
    } else {
        None
    }
}

/// El número que está en `p`, si lo hay.
pub open spec fn numero_en(ts: Seq<Lexema>, p: nat) -> Option<Seq<char>> {
    if p < ts.len() {
        match ts[p as int] {
            Lexema::Numero(w) => Some(w),
            _ => None,
        }
    } else {
        None
    }
}

/// El tipo que está en `p`, si lo hay.
pub open spec fn tipo_en(ts: Seq<Lexema>, p: nat) -> Option<Seq<char>> {
    if palabra_en(ts, p, "entero"@) {
        Some("entero"@)
    } else if palabra_en(ts, p, "flotante"@) {
        Some("flotante"@)
    } else {
        None
    }
}

/// El operador multiplicativo que está en `p`, si lo hay.
pub open spec fn op_mult_en(ts: Seq<Lexema>, p: nat) -> Option<Seq<char>> {
    if simbolo_en(ts, p, "*"@) {
        Some("*"@)
    } else if simbolo_en(ts, p, "/"@) {
        Some("/"@)
    } else {
        None
    }
}

/// El operador aditivo que está en `p`, si lo hay.
pub open spec fn op_suma_en(ts: Seq<Lexema>, p: nat) -> Option<Seq<char>> {
    if simbolo_en(ts, p, "+"@) {
        Some("+"@)
    } else if simbolo_en(ts, p, "-"@) {
        Some("-"@)
    } else {
        None
    }
}

/// El operador relacional que está en `p`, si lo hay.
pub open spec fn op_rel_en(ts: Seq<Lexema>, p: nat) -> Option<Seq<char>> {
    if simbolo_en(ts, p, ">"@) {
        Some(">"@)
    } else if simbolo_en(ts, p, "<"@) {
        Some("<"@)
    } else if simbolo_en(ts, p, ">="@) {
        Some(">="@)
    } else if simbolo_en(ts, p, "<="@) {
        Some("<="@)
    } else if simbolo_en(ts, p, "=="@) {
        Some("=="@)
    } else if simbolo_en(ts, p, "!="@) {
        Some("!="@)
    } else {
        None
    }
}

/// `q` está después de `p` y dentro de la lista.
pub open spec fn avanza(ts: Seq<Lexema>, p: nat, q: nat) -> bool {
    p < q <= ts.len()
}

// ---------------------------------------------------------------------------
// Expresiones. Cada regla, desde la posición `p`, da lo que reconoce y la
// posición que sigue, o nada.

pub open spec fn p_factor(ts: Seq<Lexema>, p: nat) -> Option<(FactorV, nat)>
    decreases ts.len() - p, 0nat,
{
    if simbolo_en(ts, p, "("@) {
        match p_expresion(ts, p + 1) {
            Some((e, q)) => if simbolo_en(ts, q, ")"@) {
                Some((FactorV::Expresion(Box::new(e)), q + 1))
            } else {
                None
            },
            None => None,
        }
    } else if numero_en(ts, p) is Some {
        Some((FactorV::Cte(numero_en(ts, p)->0), p + 1))
    } else if identificador_en(ts, p) is Some {
        let n = identificador_en(ts, p)->0;
        if simbolo_en(ts, p + 1, "("@) {
            match p_argumentos(ts, p + 2) {
                Some((a, q)) => Some((FactorV::Llamada(LlamadaV { nombre: n, argumentos: a }), q)),
                None => None,
            }
        } else {
            Some((FactorV::Id(n), p + 1))
        }
    } else {
        None
    }
}

pub open spec fn p_resto_termino(
    ts: Seq<Lexema>,
    p: nat,
    acc: Seq<(Seq<char>, FactorV)>,
) -> Option<(Seq<(Seq<char>, FactorV)>, nat)>
    decreases ts.len() - p, 0nat,
{
    match op_mult_en(ts, p) {
        Some(op) => match p_factor(ts, p + 1) {
            Some((f, q)) => if avanza(ts, p, q) {
                p_resto_termino(ts, q, acc.push((op, f)))
            } else {
                None
            },
            None => None,
        },
        None => Some((acc, p)),
    }
}

pub open spec fn p_termino(ts: Seq<Lexema>, p: nat) -> Option<(TerminoV, nat)>
    decreases ts.len() - p, 1nat,
{
    match p_factor(ts, p) {
        Some((f, q)) => if avanza(ts, p, q) {
            match p_resto_termino(ts, q, Seq::empty()) {
                Some((r, q2)) => Some((TerminoV { primero: f, resto: r }, q2)),
                None => None,
            }
        } else {
            None
        },
        None => None,
    }
}

pub open spec fn p_resto_exp(
    ts: Seq<Lexema>,
    p: nat,
    acc: Seq<(Seq<char>, TerminoV)>,
) -> Option<(Seq<(Seq<char>, TerminoV)>, nat)>
    decreases ts.len() - p, 0nat,
{
    match op_suma_en(ts, p) {
        Some(op) => match p_termino(ts, p + 1) {
            Some((t, q)) => if avanza(ts, p, q) {
                p_resto_exp(ts, q, acc.push((op, t)))
            } else {
                None
            },
            None => None,
        },
        None => Some((acc, p)),
    }
}

pub open spec fn p_exp(ts: Seq<Lexema>, p: nat) -> Option<(ExpV, nat)>
    decreases ts.len() - p, 2nat,
{
    match p_termino(ts, p) {
        Some((t, q)) => if avanza(ts, p, q) {
            match p_resto_exp(ts, q, Seq::empty()) {
                Some((r, q2)) => Some((ExpV { primero: t, resto: r }, q2)),
                None => None,
            }
        } else {
            None
        },
        None => None,
    }
}

pub open spec fn p_expresion(ts: Seq<Lexema>, p: nat) -> Option<(ExpresionV, nat)>
    decreases ts.len() - p, 3nat,
{
    match p_exp(ts, p) {
        Some((x, q)) => match op_rel_en(ts, q) {
            Some(op) => if avanza(ts, p, q) {
                match p_exp(ts, q + 1) {
                    Some((y, q2)) => Some(
                        (ExpresionV { izquierda: x, relacional: Some((op, y)) }, q2),
                    ),
                    None => None,
                }
            } else {
                None
            },
            None => Some((ExpresionV { izquierda: x, relacional: None }, q)),
        },
        None => None,
    }
}

/// Los argumentos de una llamada, ya pasado su paréntesis de apertura,
/// hasta su paréntesis de cierre.
pub open spec fn p_argumentos(ts: Seq<Lexema>, p: nat) -> Option<(Seq<ExpresionV>, nat)>
    decreases ts.len() - p, 4nat,
{
    if simbolo_en(ts, p, ")"@) {
        Some((Seq::empty(), p + 1))
    } else {
        match p_expresion(ts, p) {
            Some((e, q)) => if avanza(ts, p, q) {
                p_mas_argumentos(ts, q, seq![e])
            } else {
                None
            },
            None => None,
        }
    }
}

pub open spec fn p_mas_argumentos(
    ts: Seq<Lexema>,
    p: nat,
    acc: Seq<ExpresionV>,
) -> Option<(Seq<ExpresionV>, nat)>
    decreases ts.len() - p, 0nat,
{
    if simbolo_en(ts, p, ","@) {
        match p_expresion(ts, p + 1) {
            Some((e, q)) => if avanza(ts, p, q) {
                p_mas_argumentos(ts, q, acc.push(e))
            } else {
                None
            },
            None => None,
        }
    } else if simbolo_en(ts, p, ")"@) {
        Some((acc, p + 1))
    } else {
        None
    }
}

// ---------------------------------------------------------------------------
// Estatutos y cuerpos.

/// En `p` empieza un estatuto: un identificador o `escribe`, `si`,
/// `mientras` o `return`.
pub open spec fn empieza_estatuto(ts: Seq<Lexema>, p: nat) -> bool {
    identificador_en(ts, p) is Some || palabra_en(ts, p, "escribe"@) || palabra_en(ts, p, "si"@)
        || palabra_en(ts, p, "mientras"@) || palabra_en(ts, p, "return"@)
}

pub open spec fn p_estatuto(ts: Seq<Lexema>, p: nat) -> Option<(EstatutoV, nat)>
    decreases ts.len() - p, 0nat,
{
    if palabra_en(ts, p, "escribe"@) {
        if simbolo_en(ts, p + 1, "("@) {
            match p_expresion(ts, p + 2) {
                Some((e, q)) => if simbolo_en(ts, q, ")"@) && simbolo_en(ts, q + 1, ";"@) {
                    Some((EstatutoV::Imprime(e), q + 2))
                } else {
                    None
                },
                None => None,
            }
        } else {
            None
        }
    } else if palabra_en(ts, p, "return"@) {
        match p_expresion(ts, p + 1) {
            Some((e, q)) => if simbolo_en(ts, q, ";"@) {
                Some((EstatutoV::Retorno(e), q + 1))
            } else {
                None
            },
            None => None,
        }
    } else if palabra_en(ts, p, "si"@) || palabra_en(ts, p, "mientras"@) {
        if simbolo_en(ts, p + 1, "("@) {
            match p_expresion(ts, p + 2) {
                Some((e, q)) => if avanza(ts, p, q) && simbolo_en(ts, q, ")"@) && simbolo_en(
                    ts,
                    q + 1,
                    "{"@,
                ) {
                    match p_cuerpo(ts, q + 2, Seq::empty()) {
                        Some((c, q2)) => if simbolo_en(ts, q2, "}"@) && q + 2 <= q2 {
                            if palabra_en(ts, p, "mientras"@) {
                                Some((EstatutoV::Ciclo(e, c), q2 + 1))
                            } else if palabra_en(ts, q2 + 1, "sino"@) {
                                if simbolo_en(ts, q2 + 2, "{"@) {
                                    match p_cuerpo(ts, q2 + 3, Seq::empty()) {
                                        Some((c2, q3)) => if simbolo_en(ts, q3, "}"@) {
                                            Some((EstatutoV::Condicion(e, c, Some(c2)), q3 + 1))
                                        } else {
                                            None
                                        },
                                        None => None,
                                    }
                                } else {
                                    None
                                }
                            } else {
                                Some((EstatutoV::Condicion(e, c, None), q2 + 1))
                            }
                        } else {
                            None
                        },
                        None => None,
                    }
                } else {
                    None
                },
                None => None,
            }
        } else {
            None
        }
    } else if identificador_en(ts, p) is Some {
        let n = identificador_en(ts, p)->0;
        if simbolo_en(ts, p + 1, "="@) {
            match p_expresion(ts, p + 2) {
                Some((e, q)) => if simbolo_en(ts, q, ";"@) {
                    Some((EstatutoV::Asigna(n, e), q + 1))
                } else {
                    None
                },
                None => None,
            }
        } else if simbolo_en(ts, p + 1, "("@) {
            match p_argumentos(ts, p + 2) {
                Some((a, q)) => if simbolo_en(ts, q, ";"@) {
                    Some((EstatutoV::Llamada(LlamadaV { nombre: n, argumentos: a }), q + 1))
                } else {
                    None
                },
                None => None,
            }
        } else {
            None
        }
    } else {
        None
    }
}

/// Los estatutos que siguen, en orden, hasta donde ya no empieza ninguno.
pub open spec fn p_cuerpo(ts: Seq<Lexema>, p: nat, acc: Seq<EstatutoV>) -> Option<(CuerpoV, nat)>
    decreases ts.len() - p, 1nat,
{
    if empieza_estatuto(ts, p) {
        match p_estatuto(ts, p) {
            Some((st, q)) => if avanza(ts, p, q) {
                p_cuerpo(ts, q, acc.push(st))
            } else {
                None
            },
            None => None,
        }
    } else {
        Some((CuerpoV { estatutos: acc }, p))
    }
}

// ---------------------------------------------------------------------------
// Declaraciones, funciones y programa.

/// Declaraciones `id : tipo ;` mientras empiecen con un identificador.
pub open spec fn p_declaraciones(
    ts: Seq<Lexema>,
    p: nat,
    acc: Seq<(Seq<char>, Seq<char>)>,
) -> Option<(Seq<(Seq<char>, Seq<char>)>, nat)>
    decreases ts.len() - p,
{
    if identificador_en(ts, p) is Some {
        if simbolo_en(ts, p + 1, ":"@) && tipo_en(ts, p + 2) is Some && simbolo_en(ts, p + 3, ";"@) {
            p_declaraciones(
                ts,
                p + 4,
                acc.push((identificador_en(ts, p)->0, tipo_en(ts, p + 2)->0)),
            )
        } else {
            None
        }
    } else {
        Some((acc, p))
    }
}

/// Parámetros `id : tipo` separados por comas, hasta el paréntesis de cierre.
pub open spec fn p_lista_parametros(
    ts: Seq<Lexema>,
    p: nat,
    acc: Seq<(Seq<char>, Seq<char>)>,
) -> Option<(Seq<(Seq<char>, Seq<char>)>, nat)>
    decreases ts.len() - p,
{
    if identificador_en(ts, p) is Some && simbolo_en(ts, p + 1, ":"@) && tipo_en(ts, p + 2) is Some {
        let acc2 = acc.push((identificador_en(ts, p)->0, tipo_en(ts, p + 2)->0));
        if simbolo_en(ts, p + 3, ","@) {
            p_lista_parametros(ts, p + 4, acc2)
        } else if simbolo_en(ts, p + 3, ")"@) {
            Some((acc2, p + 4))
        } else {
            None
        }
    } else {
        None
    }
}

/// Los parámetros de una función, ya pasado su paréntesis de apertura.
pub open spec fn p_parametros(ts: Seq<Lexema>, p: nat) -> Option<(Seq<(Seq<char>, Seq<char>)>, nat)> {
    if simbolo_en(ts, p, ")"@) {
        Some((Seq::empty(), p + 1))
    } else {
        p_lista_parametros(ts, p, Seq::empty())
    }
}

/// En `p` empieza una función: un tipo o `nula`.
pub open spec fn empieza_funcion(ts: Seq<Lexema>, p: nat) -> bool {
    tipo_en(ts, p) is Some || palabra_en(ts, p, "nula"@)
}

pub open spec fn p_funcion(ts: Seq<Lexema>, p: nat) -> Option<(FuncionV, nat)> {
    if empieza_funcion(ts, p) && identificador_en(ts, p + 1) is Some && simbolo_en(ts, p + 2, "("@) {
        match p_parametros(ts, p + 3) {
            Some((ps, q)) => if simbolo_en(ts, q, "{"@) {
                match p_cuerpo(ts, q + 1, Seq::empty()) {
                    Some((c, q2)) => if simbolo_en(ts, q2, "}"@) {
                        Some(
                            (
                                FuncionV {
                                    tipo_retorno: tipo_en(ts, p),
                                    nombre: identificador_en(ts, p + 1)->0,
                                    parametros: ps,
                                    cuerpo: Some(c),
                                },
                                q2 + 1,
                            ),
                        )
                    } else {
                        None
                    },
                    None => None,
                }
            } else {
                None
            },
            None => None,
        }
    } else {
        None
    }
}

/// Las funciones que siguen, mientras empiece alguna.
pub open spec fn p_funciones(ts: Seq<Lexema>, p: nat, acc: Seq<FuncionV>) -> Option<(Seq<FuncionV>, nat)>
    decreases ts.len() - p,
{
    if empieza_funcion(ts, p) {
        match p_funcion(ts, p) {
            Some((f, q)) => if avanza(ts, p, q) {
                p_funciones(ts, q, acc.push(f))
            } else {
                None
            },
            None => None,
        }
    } else {
        Some((acc, p))
    }
}

/// El bloque de variables, si lo hay, desde `p`: `vars :` y al menos una
/// declaración.
pub open spec fn p_bloque_variables(ts: Seq<Lexema>, p: nat) -> Option<(Seq<(Seq<char>, Seq<char>)>, nat)> {
    if palabra_en(ts, p, "vars"@) {
        if simbolo_en(ts, p + 1, ":"@) {
            match p_declaraciones(ts, p + 2, Seq::empty()) {
                Some((vs, q)) => if vs.len() > 0 {
                    Some((vs, q))
                } else {
                    None
                },
                None => None,
            }
        } else {
            None
        }
    } else {
        Some((Seq::empty(), p))
    }
}

/// El programa que forman todos los lexemas, si siguen la gramática.
pub open spec fn p_programa(ts: Seq<Lexema>) -> Option<ProgramaV> {
    if palabra_en(ts, 0, "programa"@) && identificador_en(ts, 1) is Some && simbolo_en(ts, 2, ";"@) {
        match p_bloque_variables(ts, 3) {
            Some((vs, q)) => match p_funciones(ts, q, Seq::empty()) {
                Some((fs, q2)) => if palabra_en(ts, q2, "inicio"@) {
                    match p_cuerpo(ts, q2 + 1, Seq::empty()) {
                        Some((c, q3)) => if palabra_en(ts, q3, "fin"@) && q3 + 1 == ts.len() {
                            Some(
                                ProgramaV {
                                    nombre: identificador_en(ts, 1)->0,
                                    variables: vs,
                                    funciones: fs,
                                    cuerpo: c,
                                },
                            )
                        } else {
                            None
                        },
                        None => None,
                    }
                } else {
                    None
                },
                None => None,
            },
            None => None,
        }
    } else {
        None
    }
}

/// El programa que describe un texto, si es un programa Patito.
pub open spec fn sp_analizar(texto: Seq<char>) -> Option<ProgramaV> {
    match lexemas_de(texto) {
        Some(ts) => p_programa(ts),
        None => None,
    }
}

} // verus!
