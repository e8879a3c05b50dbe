//! Análisis sintáctico de un programa Patito: de lexemas al árbol del
//! programa, siguiendo la gramática de `gramatica`.

use vstd::prelude::*;

use crate::arbol::{Cuerpo, Estatuto, Exp, Expresion, Factor, Funcion, Llamada, Programa, Termino};
use crate::gramatica::{
    avanza, empieza_estatuto, empieza_funcion, forma_cuerpo, forma_estatuto, forma_estatutos,
    forma_exp, forma_expresion, forma_expresiones, forma_factor, forma_funcion, forma_funciones,
    forma_pares, forma_programa, forma_resto_exp, forma_resto_termino, forma_termino,
    identificador_en, numero_en, op_mult_en, op_rel_en, op_suma_en, p_argumentos, p_cuerpo,
    p_declaraciones, p_estatuto, p_exp, p_expresion, p_factor, p_funcion, p_funciones,
    p_lista_parametros, p_mas_argumentos, p_parametros, p_programa, p_resto_exp, p_resto_termino,
    p_termino, palabra_en, reservada, simbolo_en, sp_analizar, tipo_en, ExpresionV,
};
use crate::lexico::{lexemas, mensaje_sintaxis, tokenizar, Token};
use crate::texto::mismo_texto;

verus! {

/// Si en `p` está el símbolo `s`.
fn simbolo(ts: &Vec<Token>, p: usize, s: &str) -> (r: bool)
    ensures
        r == simbolo_en(lexemas(ts@), p as nat, s@),
{
    if p < ts.len() {
        match &ts[p] {
            Token::Simbolo(x) => mismo_texto(x.as_str(), s),
            _ => false,
        }
    } else {
        false
    }
}

/// Si en `p` está la palabra `w`.
fn palabra(ts: &Vec<Token>, p: usize, w: &str) -> (r: bool)
    ensures
        r == palabra_en(lexemas(ts@), p as nat, w@),
{
    if p < ts.len() {
        match &ts[p] {
            Token::Palabra(x) => mismo_texto(x.as_str(), w),
            _ => false,
        }
    } else {
        false
    }
}

/// Si `w` es una palabra reservada.
pub fn es_reservada(w: &str) -> (r: bool)
    ensures
        r == reservada(w@),
{
    mismo_texto(w, "programa") || mismo_texto(w, "vars") || mismo_texto(w, "entero")
        || mismo_texto(w, "flotante") || mismo_texto(w, "nula") || mismo_texto(w, "inicio")
        || mismo_texto(w, "fin") || mismo_texto(w, "si") || mismo_texto(w, "sino")
        || mismo_texto(w, "mientras") || mismo_texto(w, "escribe") || mismo_texto(w, "return")
}

/// El identificador que está en `p`, si lo hay.
fn identificador(ts: &Vec<Token>, p: usize) -> (r: Option<String>)
    ensures
        match r {
            Some(n) => identificador_en(lexemas(ts@), p as nat) == Some(n@),
            None => identificador_en(lexemas(ts@), p as nat) is None,
        },
{
    if p < ts.len() {
        match &ts[p] {
            Token::Palabra(x) => if es_reservada(x.as_str()) {
                None
            } else {
                Some(x.clone())
            },
            _ => None,
        }
    } else {
        None
    }
}

/// El número que está en `p`, si lo hay.
fn numero(ts: &Vec<Token>, p: usize) -> (r: Option<String>)
    ensures
        match r {
            Some(n) => numero_en(lexemas(ts@), p as nat) == Some(n@),
            None => numero_en(lexemas(ts@), p as nat) is None,
        },
{
    if p < ts.len() {
        match &ts[p] {
            Token::Numero(x) => Some(x.clone()),
            _ => None,
        }
    } else {
        None
    }
}

/// El tipo que está en `p`, si lo hay.
fn tipo(ts: &Vec<Token>, p: usize) -> (r: Option<String>)
    ensures
        match r {
            Some(t) => tipo_en(lexemas(ts@), p as nat) == Some(t@),
            None => tipo_en(lexemas(ts@), p as nat) is None,
        },
{
    if palabra(ts, p, "entero") {
        Some("entero".to_owned())
    } else if palabra(ts, p, "flotante") {
        Some("flotante".to_owned())
    } else {
        None
    }
}

/// El operador multiplicativo que está en `p`, si lo hay.
fn op_mult(ts: &Vec<Token>, p: usize) -> (r: Option<String>)
    ensures
        match r {
            Some(o) => op_mult_en(lexemas(ts@), p as nat) == Some(o@),
            None => op_mult_en(lexemas(ts@), p as nat) is None,
        },
{
    if simbolo(ts, p, "*") {
        Some("*".to_owned())
    } else if simbolo(ts, p, "/") {
        Some("/".to_owned())
    } else {
        None
    }
}

/// El operador aditivo que está en `p`, si lo hay.
fn op_suma(ts: &Vec<Token>, p: usize) -> (r: Option<String>)
    ensures
        match r {
            Some(o) => op_suma_en(lexemas(ts@), p as nat) == Some(o@),
            None => op_suma_en(lexemas(ts@), p as nat) is None,
        },
{
    if simbolo(ts, p, "+") {
        Some("+".to_owned())
    } else if simbolo(ts, p, "-") {
        Some("-".to_owned())
    } else {
        None
    }
}

/// El operador relacional que está en `p`, si lo hay.
fn op_rel(ts: &Vec<Token>, p: usize) -> (r: Option<String>)
    ensures
        match r {
            Some(o) => op_rel_en(lexemas(ts@), p as nat) == Some(o@),
            None => op_rel_en(lexemas(ts@), p as nat) is None,
        },
{
    if simbolo(ts, p, ">") {
        Some(">".to_owned())
    } else if simbolo(ts, p, "<") {
        Some("<".to_owned())
    } else if simbolo(ts, p, ">=") {
        Some(">=".to_owned())
    } else if simbolo(ts, p, "<=") {
        Some("<=".to_owned())
    } else if simbolo(ts, p, "==") {
        Some("==".to_owned())
    } else if simbolo(ts, p, "!=") {
        Some("!=".to_owned())
    } else {
        None
    }
}

proof fn lema_forma_expresiones_push(s: Seq<Expresion>, e: Expresion)
    ensures
        forma_expresiones(s.push(e)) == forma_expresiones(s).push(forma_expresion(e)),
{
    assert(s.push(e).subrange(0, s.len() as int) =~= s);
}

proof fn lema_forma_resto_termino_push(s: Seq<(String, Factor)>, x: (String, Factor))
    ensures
        forma_resto_termino(s.push(x)) == forma_resto_termino(s).push((x.0@, forma_factor(x.1))),
{
    assert(s.push(x).subrange(0, s.len() as int) =~= s);
}

proof fn lema_forma_resto_exp_push(s: Seq<(String, Termino)>, x: (String, Termino))
    ensures
        forma_resto_exp(s.push(x)) == forma_resto_exp(s).push((x.0@, forma_termino(x.1))),
{
    assert(s.push(x).subrange(0, s.len() as int) =~= s);
}

/// Un factor desde `p`.
fn a_factor(ts: &Vec<Token>, p: usize) -> (r: Option<(Factor, usize)>)
    requires
        p <= ts.len(),
    ensures
        match r {
            Some((f, q)) => {
                &&& p_factor(lexemas(ts@), p as nat) == Some((forma_factor(f), q as nat))
                &&& avanza(lexemas(ts@), p as nat, q as nat)
            },
            None => p_factor(lexemas(ts@), p as nat) is None,
        },
    decreases ts.len() - p, 0nat,
{
    if simbolo(ts, p, "(") {
        match a_expresion(ts, p + 1) {
            Some((e, q)) => if simbolo(ts, q, ")") {
                Some((Factor::Expresion(Box::new(e)), q + 1))
            } else {
                None
            },
            None => None,
        }
    } else {
        match numero(ts, p) {
            Some(v) => {
                return Some((Factor::Cte(v), p + 1));
            },
            None => {},
        }
        match identificador(ts, p) {
            Some(n) => if simbolo(ts, p + 1, "(") {
                match a_argumentos(ts, p + 2) {
                    Some((a, q)) => Some((Factor::Llamada(Llamada { nombre: n, argumentos: a }), q)),
                    None => None,
                }
            } else {
                Some((Factor::Id(n), p + 1))
            },
            None => None,
        }
    }
}

/// Un término desde `p`: un factor y los que le siguen con `*` o `/`.
fn a_termino(ts: &Vec<Token>, p: usize) -> (r: Option<(Termino, usize)>)
    requires
        p <= ts.len(),
    ensures
        match r {
            Some((t, q)) => {
                &&& p_termino(lexemas(ts@), p as nat) == Some((forma_termino(t), q as nat))
                &&& avanza(lexemas(ts@), p as nat, q as nat)
            },
            None => p_termino(lexemas(ts@), p as nat) is None,
        },
    decreases ts.len() - p, 1nat,
{
    let ghost l = lexemas(ts@);
    let (primero, q0) = match a_factor(ts, p) {
        Some(x) => x,
        None => {
            return None;
        },
    };
    let mut resto: Vec<(String, Factor)> = Vec::new();
    let mut q = q0;
    loop
        invariant
            l == lexemas(ts@),
            p_factor(l, p as nat) == Some((forma_factor(primero), q0 as nat)),
            avanza(l, p as nat, q0 as nat),
            q0 <= q <= ts.len(),
            p_resto_termino(l, q0 as nat, Seq::empty()) == p_resto_termino(
                l,
                q as nat,
                forma_resto_termino(resto@),
            ),
        decreases ts.len() - q,
    {
        match op_mult(ts, q) {
            None => {
                return Some((Termino { primero, resto }, q));
            },
            Some(op) => match a_factor(ts, q + 1) {
                Some((f, q2)) => {
                    proof {
                        lema_forma_resto_termino_push(resto@, (op, f));
                    }
                    resto.push((op, f));
                    q = q2;
                },
                None => {
                    return None;
                },
            },
        }
    }
}

/// Una expresión aritmética desde `p`: un término y los que le siguen con `+` o `-`.
fn a_exp(ts: &Vec<Token>, p: usize) -> (r: Option<(Exp, usize)>)
    requires
        p <= ts.len(),
    ensures
        match r {
            Some((x, q)) => {
                &&& p_exp(lexemas(ts@), p as nat) == Some((forma_exp(x), q as nat))
                &&& avanza(lexemas(ts@), p as nat, q as nat)
            },
            None => p_exp(lexemas(ts@), p as nat) is None,
        },
    decreases ts.len() - p, 2nat,
{
    let ghost l = lexemas(ts@);
    let (primero, q0) = match a_termino(ts, p) {
        Some(x) => x,
        None => {
            return None;
        },
    };
    let mut resto: Vec<(String, Termino)> = Vec::new();
    let mut q = q0;
    loop
        invariant
            l == lexemas(ts@),
            p_termino(l, p as nat) == Some((forma_termino(primero), q0 as nat)),
            avanza(l, p as nat, q0 as nat),
            q0 <= q <= ts.len(),
            p_resto_exp(l, q0 as nat, Seq::empty()) == p_resto_exp(
                l,
                q as nat,
                forma_resto_exp(resto@),
            ),
        decreases ts.len() - q,
    {
        match op_suma(ts, q) {
            None => {
                return Some((Exp { primero, resto }, q));
            },
            Some(op) => match a_termino(ts, q + 1) {
                Some((t, q2)) => {
                    proof {
                        lema_forma_resto_exp_push(resto@, (op, t));
                    }
                    resto.push((op, t));
                    q = q2;
                },
                None => {
                    return None;
                },
            },
        }
    }
}

/// Una expresión desde `p`: una expresión aritmética, o dos comparadas.
fn a_expresion(ts: &Vec<Token>, p: usize) -> (r: Option<(Expresion, usize)>)
    requires
        p <= ts.len(),
    ensures
        match r {
            Some((e, q)) => {
                &&& p_expresion(lexemas(ts@), p as nat) == Some((forma_expresion(e), q as nat))
                &&& avanza(lexemas(ts@), p as nat, q as nat)
            },
            None => p_expresion(lexemas(ts@), p as nat) is None,
        },
    decreases ts.len() - p, 3nat,
{
    let (izquierda, q) = match a_exp(ts, p) {
        Some(x) => x,
        None => {
            return None;
        },
    };
    match op_rel(ts, q) {
        Some(op) => match a_exp(ts, q + 1) {
            Some((derecha, q2)) => Some(
                (Expresion { izquierda, relacional: Some((op, derecha)) }, q2),
            ),
            None => None,
        },
        None => Some((Expresion { izquierda, relacional: None }, q)),
    }
}

/// Los argumentos de una llamada, ya pasado su paréntesis de apertura.
fn a_argumentos(ts: &Vec<Token>, p: usize) -> (r: Option<(Vec<Expresion>, usize)>)
    requires
        p <= ts.len(),
    ensures
        match r {
            Some((a, q)) => {
                &&& p_argumentos(lexemas(ts@), p as nat) == Some((forma_expresiones(a@), q as nat))
                &&& avanza(lexemas(ts@), p as nat, q as nat)
            },
            None => p_argumentos(lexemas(ts@), p as nat) is None,
        },
    decreases ts.len() - p, 4nat,
{
    let ghost l = lexemas(ts@);
    if simbolo(ts, p, ")") {
        let v: Vec<Expresion> = Vec::new();
        assert(forma_expresiones(v@) =~= Seq::<ExpresionV>::empty());
        return Some((v, p + 1));
    }
    let (e, q0) = match a_expresion(ts, p) {
        Some(x) => x,
        None => {
            return None;
        },
    };
    let mut args: Vec<Expresion> = Vec::new();
    proof {
        lema_forma_expresiones_push(args@, e);
        assert(forma_expresiones(args@) =~= Seq::<ExpresionV>::empty());
        assert(forma_expresiones(args@).push(forma_expresion(e)) =~= seq![forma_expresion(e)]);
    }
    args.push(e);
    let mut q = q0;
    loop
        invariant
            l == lexemas(ts@),
            p < q <= ts.len(),
            p_argumentos(l, p as nat) == p_mas_argumentos(l, q as nat, forma_expresiones(args@)),
        decreases ts.len() - q,
    {
        if simbolo(ts, q, ",") {
            match a_expresion(ts, q + 1) {
                Some((e2, q2)) => {
                    proof {
                        lema_forma_expresiones_push(args@, e2);
                    }
                    args.push(e2);
                    q = q2;
                },
                None => {
                    return None;
                },
            }
        } else if simbolo(ts, q, ")") {
            return Some((args, q + 1));
        } else {
            return None;
        }
    }
}

/// Si en `p` empieza un estatuto.
fn empieza(ts: &Vec<Token>, p: usize) -> (r: bool)
    ensures
        r == empieza_estatuto(lexemas(ts@), p as nat),
{
    identificador(ts, p).is_some() || palabra(ts, p, "escribe") || palabra(ts, p, "si")
        || palabra(ts, p, "mientras") || palabra(ts, p, "return")
}

proof fn lema_forma_estatutos_push(s: Seq<Estatuto>, st: Estatuto)
    ensures
        forma_estatutos(s.push(st)) == forma_estatutos(s).push(forma_estatuto(st)),
{
    assert(s.push(st).subrange(0, s.len() as int) =~= s);
}

/// Un estatuto desde `p`.
fn a_estatuto(ts: &Vec<Token>, p: usize) -> (r: Option<(Estatuto, usize)>)
    requires
        p <= ts.len(),
    ensures
        match r {
            Some((st, q)) => {
                &&& p_estatuto(lexemas(ts@), p as nat) == Some((forma_estatuto(st), q as nat))
                &&& avanza(lexemas(ts@), p as nat, q as nat)
            },
            None => p_estatuto(lexemas(ts@), p as nat) is None,
        },
    decreases ts.len() - p, 0nat,
{
    if palabra(ts, p, "escribe") {
        if simbolo(ts, p + 1, "(") {
            match a_expresion(ts, p + 2) {
                Some((e, q)) => if simbolo(ts, q, ")") && simbolo(ts, q + 1, ";") {
                    Some((Estatuto::Imprime(e), q + 2))
                } else {
                    None
                },
                None => None,
            }
        } else {
            None
        }
    } else if palabra(ts, p, "return") {
        match a_expresion(ts, p + 1) {
            Some((e, q)) => if simbolo(ts, q, ";") {
                Some((Estatuto::Retorno(e), q + 1))
            } else {
                None
            },
            None => None,
        }
    } else if palabra(ts, p, "si") || palabra(ts, p, "mientras") {
        if !simbolo(ts, p + 1, "(") {
            return None;
        }
        let (e, q) = match a_expresion(ts, p + 2) {
            Some(x) => x,
            None => {
                return None;
            },
        };
        if !(simbolo(ts, q, ")") && simbolo(ts, q + 1, "{")) {
            return None;
        }
        let (c, q2) = match a_cuerpo(ts, q + 2) {
            Some(x) => x,
            None => {
                return None;
            },
        };
        if !simbolo(ts, q2, "}") {
            return None;
        }
        if palabra(ts, p, "mientras") {
            Some((Estatuto::Ciclo(e, c), q2 + 1))
        } else if palabra(ts, q2 + 1, "sino") {
            if !simbolo(ts, q2 + 2, "{") {
                return None;
            }
            match a_cuerpo(ts, q2 + 3) {
                Some((c2, q3)) => if simbolo(ts, q3, "}") {
                    Some((Estatuto::Condicion(e, c, Some(c2)), q3 + 1))
                } else {
                    None
                },
                None => None,
            }
        } else {
            Some((Estatuto::Condicion(e, c, None), q2 + 1))
        }
    } else {
        match identificador(ts, p) {
            Some(n) => if simbolo(ts, p + 1, "=") {
                match a_expresion(ts, p + 2) {
                    Some((e, q)) => if simbolo(ts, q, ";") {
                        Some((Estatuto::Asigna(n, e), q + 1))
                    } else {
                        None
                    },
                    None => None,
                }
            } else if simbolo(ts, p + 1, "(") {
                match a_argumentos(ts, p + 2) {
                    Some((a, q)) => if simbolo(ts, q, ";") {
                        Some((Estatuto::Llamada(Llamada { nombre: n, argumentos: a }), q + 1))
                    } else {
                        None
                    },
                    None => None,
                }
            } else {
                None
            },
            None => None,
        }
    }
}

/// Los estatutos desde `p`, en orden, hasta donde ya no empieza ninguno.
fn a_cuerpo(ts: &Vec<Token>, p: usize) -> (r: Option<(Cuerpo, usize)>)
    requires
        p <= ts.len(),
    ensures
        match r {
            Some((c, q)) => {
                &&& p_cuerpo(lexemas(ts@), p as nat, Seq::empty()) == Some(
                    (forma_cuerpo(c), q as nat),
                )
                &&& p <= q <= ts.len()
            },
            None => p_cuerpo(lexemas(ts@), p as nat, Seq::empty()) is None,
        },
    decreases ts.len() - p, 1nat,
{
    let ghost l = lexemas(ts@);
    let mut estatutos: Vec<Estatuto> = Vec::new();
    assert(forma_estatutos(estatutos@) =~= Seq::empty());
    let mut q = p;
    loop
        invariant
            l == lexemas(ts@),
            p <= q <= ts.len(),
            p_cuerpo(l, p as nat, Seq::empty()) == p_cuerpo(
                l,
                q as nat,
                forma_estatutos(estatutos@),
            ),
        decreases ts.len() - q,
    {
        if !empieza(ts, q) {
            return Some((Cuerpo { estatutos }, q));
        }
        match a_estatuto(ts, q) {
            Some((st, q2)) => {
                proof {
                    lema_forma_estatutos_push(estatutos@, st);
                }
                estatutos.push(st);
                q = q2;
            },
            None => {
                return None;
            },
        }
    }
}

proof fn lema_forma_pares_push(s: Seq<(String, String)>, x: (String, String))
    ensures
        forma_pares(s.push(x)) == forma_pares(s).push((x.0@, x.1@)),
{
    assert(forma_pares(s.push(x)) =~= forma_pares(s).push((x.0@, x.1@)));
}

proof fn lema_forma_funciones_push(s: Seq<Funcion>, f: Funcion)
    ensures
        forma_funciones(s.push(f)) == forma_funciones(s).push(forma_funcion(f)),
{
    assert(forma_funciones(s.push(f)) =~= forma_funciones(s).push(forma_funcion(f)));
}

/// Las declaraciones `id : tipo ;` desde `p`, mientras empiecen con un identificador.
fn a_declaraciones(ts: &Vec<Token>, p: usize) -> (r: Option<(Vec<(String, String)>, usize)>)
    requires
        p <= ts.len(),
    ensures
        match r {
            Some((vs, q)) => {
                &&& p_declaraciones(lexemas(ts@), p as nat, Seq::empty()) == Some(
                    (forma_pares(vs@), q as nat),
                )
                &&& p <= q <= ts.len()
            },
            None => p_declaraciones(lexemas(ts@), p as nat, Seq::empty()) is None,
        },
{
    let ghost l = lexemas(ts@);
    let mut vs: Vec<(String, String)> = Vec::new();
    assert(forma_pares(vs@) =~= Seq::empty());
    let mut q = p;
    loop
        invariant
            l == lexemas(ts@),
            p <= q <= ts.len(),
            p_declaraciones(l, p as nat, Seq::empty()) == p_declaraciones(
                l,
                q as nat,
                forma_pares(vs@),
            ),
        decreases ts.len() - q,
    {
        let n = match identificador(ts, q) {
            Some(n) => n,
            None => {
                return Some((vs, q));
            },
        };
        if !simbolo(ts, q + 1, ":") {
            return None;
        }
        let t = match tipo(ts, q + 2) {
            Some(t) => t,
            None => {
                return None;
            },
        };
        if !simbolo(ts, q + 3, ";") {
            return None;
        }
        proof {
            lema_forma_pares_push(vs@, (n, t));
        }
        vs.push((n, t));
        q = q + 4;
    }
}

/// Los parámetros de una función, ya pasado su paréntesis de apertura.
fn a_parametros(ts: &Vec<Token>, p: usize) -> (r: Option<(Vec<(String, String)>, usize)>)
    requires
        p <= ts.len(),
    ensures
        match r {
            Some((ps, q)) => {
                &&& p_parametros(lexemas(ts@), p as nat) == Some((forma_pares(ps@), q as nat))
                &&& p < q <= ts.len()
            },
            None => p_parametros(lexemas(ts@), p as nat) is None,
        },
{
    let ghost l = lexemas(ts@);
    let mut ps: Vec<(String, String)> = Vec::new();
    assert(forma_pares(ps@) =~= Seq::empty());
    if simbolo(ts, p, ")") {
        return Some((ps, p + 1));
    }
    let mut q = p;
    loop
        invariant
            l == lexemas(ts@),
            p <= q <= ts.len(),
            p_parametros(l, p as nat) == p_lista_parametros(l, q as nat, forma_pares(ps@)),
        decreases ts.len() - q,
    {
        let n = match identificador(ts, q) {
            Some(n) => n,
            None => {
                return None;
            },
        };
        if !simbolo(ts, q + 1, ":") {
            return None;
        }
        let t = match tipo(ts, q + 2) {
            Some(t) => t,
            None => {
                return None;
            },
        };
        proof {
            lema_forma_pares_push(ps@, (n, t));
        }
        ps.push((n, t));
        if simbolo(ts, q + 3, ",") {
            q = q + 4;
        } else if simbolo(ts, q + 3, ")") {
            return Some((ps, q + 4));
        } else {
            return None;
        }
    }
}

/// Si en `p` empieza una función.
fn empieza_fn(ts: &Vec<Token>, p: usize) -> (r: bool)
    ensures
        r == empieza_funcion(lexemas(ts@), p as nat),
{
    tipo(ts, p).is_some() || palabra(ts, p, "nula")
}

/// Una función desde `p`.
fn a_funcion(ts: &Vec<Token>, p: usize) -> (r: Option<(Funcion, usize)>)
    requires
        p <= ts.len(),
    ensures
        match r {
            Some((f, q)) => {
                &&& p_funcion(lexemas(ts@), p as nat) == Some((forma_funcion(f), q as nat))
                &&& p < q <= ts.len()
            },
            None => p_funcion(lexemas(ts@), p as nat) is None,
        },
{
    if !empieza_fn(ts, p) {
        return None;
    }
    let tipo_retorno = tipo(ts, p);
    let nombre = match identificador(ts, p + 1) {
        Some(n) => n,
        None => {
            return None;
        },
    };
    if !simbolo(ts, p + 2, "(") {
        return None;
    }
    let (parametros, q) = match a_parametros(ts, p + 3) {
        Some(x) => x,
        None => {
            return None;
        },
    };
    if !simbolo(ts, q, "{") {
        return None;
    }
    let (cuerpo, q2) = match a_cuerpo(ts, q + 1) {
        Some(x) => x,
        None => {
            return None;
        },
    };
    if !simbolo(ts, q2, "}") {
        return None;
    }
    Some((Funcion { tipo_retorno, nombre, parametros, cuerpo: Some(cuerpo) }, q2 + 1))
}

/// Las funciones desde `p`, mientras empiece alguna.
fn a_funciones(ts: &Vec<Token>, p: usize) -> (r: Option<(Vec<Funcion>, usize)>)
    requires
        p <= ts.len(),
    ensures
        match r {
            Some((fs, q)) => {
                &&& p_funciones(lexemas(ts@), p as nat, Seq::empty()) == Some(
                    (forma_funciones(fs@), q as nat),
                )
                &&& p <= q <= ts.len()
            },
            None => p_funciones(lexemas(ts@), p as nat, Seq::empty()) is None,
        },
{
    let ghost l = lexemas(ts@);
    let mut fs: Vec<Funcion> = Vec::new();
    assert(forma_funciones(fs@) =~= Seq::empty());
    let mut q = p;
    loop
        invariant
            l == lexemas(ts@),
            p <= q <= ts.len(),
            p_funciones(l, p as nat, Seq::empty()) == p_funciones(
                l,
                q as nat,
                forma_funciones(fs@),
            ),
        decreases ts.len() - q,
    {
        if !empieza_fn(ts, q) {
            return Some((fs, q));
        }
        match a_funcion(ts, q) {
            Some((f, q2)) => {
                proof {
                    lema_forma_funciones_push(fs@, f);
                }
                fs.push(f);
                q = q2;
            },
            None => {
                return None;
            },
        }
    }
}

/// El árbol del programa que forman todos los lexemas, si siguen la gramática.
pub fn analizar_lexemas(ts: &Vec<Token>) -> (r: Option<Programa>)
    ensures
        match r {
            Some(prog) => p_programa(lexemas(ts@)) == Some(forma_programa(prog)),
            None => p_programa(lexemas(ts@)) is None,
        },
{
    if !palabra(ts, 0, "programa") {
        return None;
    }
    let nombre = match identificador(ts, 1) {
        Some(n) => n,
        None => {
            return None;
        },
    };
    if !simbolo(ts, 2, ";") {
        return None;
    }
    let (variables, q) = if palabra(ts, 3, "vars") {
        if !simbolo(ts, 4, ":") {
            return None;
        }
        match a_declaraciones(ts, 5) {
            Some((vs, q)) => if vs.len() > 0 {
                (vs, q)
            } else {
                return None;
            },
            None => {
                return None;
            },
        }
    } else {
        let vs: Vec<(String, String)> = Vec::new();
        assert(forma_pares(vs@) =~= Seq::empty());
        (vs, 3)
    };
    let (funciones, q2) = match a_funciones(ts, q) {
        Some(x) => x,
        None => {
            return None;
        },
    };
    if !palabra(ts, q2, "inicio") {
        return None;
    }
    let (cuerpo, q3) = match a_cuerpo(ts, q2 + 1) {
        Some(x) => x,
        None => {
            return None;
        },
    };
    if !(palabra(ts, q3, "fin") && q3 + 1 == ts.len()) {
        return None;
    }
    Some(Programa { nombre, variables, funciones, cuerpo })
}

/// El árbol de un programa Patito escrito como texto, o el error de sintaxis
/// si el texto no sigue la gramática.
pub fn analizar(texto: &str) -> (r: Result<Programa, String>)
    ensures
        match r {
            Ok(prog) => sp_analizar(texto@) == Some(forma_programa(prog)),
            Err(m) => sp_analizar(texto@) is None && m@ == mensaje_sintaxis(),
        },
{
    let ts = tokenizar(texto)?;
    match analizar_lexemas(&ts) {
        Some(prog) => Ok(prog),
        None => Err("Error de sintaxis".to_owned()),
    }
}

} // verus!
