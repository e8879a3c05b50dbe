//! Leyes del análisis léxico y sintáctico.

use vstd::prelude::*;

use crate::gramatica::{
    avanza, empieza_funcion, identificador_en, op_mult_en, op_rel_en, op_suma_en, p_argumentos,
    p_bloque_variables, p_cuerpo, p_declaraciones, p_estatuto, p_exp, p_expresion, p_factor,
    p_funcion, p_funciones, p_lista_parametros, p_mas_argumentos, p_parametros, p_programa,
    p_resto_exp, p_resto_termino, p_termino, palabra_en, simbolo_en, sp_analizar, tipo_en, CuerpoV,
    EstatutoV, ExpV, ExpresionV, FactorV, FuncionV, LlamadaV, ProgramaV, TerminoV,
};
use crate::lexico::{
    es_digito, es_espacio, es_letra, fin_digitos, fin_numero, fin_palabra, largo_simbolo,
    lema_fin_digitos, lema_fin_numero, lema_fin_palabra, lexemas_de, lexemas_desde, sigue_palabra,
    Lexema,
};

verus! {

/// Los caracteres de `s` desde `i` que no son espacios, en orden.
pub open spec fn sin_espacios_desde(s: Seq<char>, i: nat) -> Seq<char>
    decreases s.len() - i,
{
    if i >= s.len() {
        Seq::empty()
    } else if es_espacio(s[i as int]) {
        sin_espacios_desde(s, i + 1)
    } else {
        seq![s[i as int]] + sin_espacios_desde(s, i + 1)
    }
}

/// Los caracteres de un texto que no son espacios, en orden.
pub open spec fn sin_espacios(s: Seq<char>) -> Seq<char> {
    sin_espacios_desde(s, 0)
}

/// El texto de un lexema.
pub open spec fn texto_lexema(l: Lexema) -> Seq<char> {
    match l {
        Lexema::Palabra(w) => w,
        Lexema::Numero(w) => w,
        Lexema::Simbolo(w) => w,
    }
}

/// Los textos de una lista de lexemas, uno tras otro.
pub open spec fn texto_lexemas(ts: Seq<Lexema>) -> Seq<char>
    decreases ts.len(),
{
    if ts.len() == 0 {
        Seq::empty()
    } else {
        texto_lexema(ts[0]) + texto_lexemas(ts.subrange(1, ts.len() as int))
    }
}

proof fn lema_tramo_sin_espacios(s: Seq<char>, i: nat, j: nat)
    requires
        i <= j <= s.len(),
        forall|k: int| i <= k < j ==> !es_espacio(#[trigger] s[k]),
    ensures
        sin_espacios_desde(s, i) == s.subrange(i as int, j as int) + sin_espacios_desde(s, j),
    decreases j - i,
{
    if i < j {
        lema_tramo_sin_espacios(s, i + 1, j);
        assert(s.subrange(i as int, j as int) =~= seq![s[i as int]] + s.subrange(
            (i + 1) as int,
            j as int,
        ));
        assert(seq![s[i as int]] + (s.subrange((i + 1) as int, j as int) + sin_espacios_desde(s, j))
            =~= s.subrange(i as int, j as int) + sin_espacios_desde(s, j));
    } else {
        assert(s.subrange(i as int, j as int) =~= Seq::<char>::empty());
        assert(Seq::<char>::empty() + sin_espacios_desde(s, j) =~= sin_espacios_desde(s, j));
    }
}

proof fn lema_rango_palabra(s: Seq<char>, i: nat)
    ensures
        forall|k: int| i <= k < fin_palabra(s, i) ==> sigue_palabra(#[trigger] s[k]),
    decreases s.len() - i,
{
    if i < s.len() && sigue_palabra(s[i as int]) {
        lema_rango_palabra(s, i + 1);
    }
}

proof fn lema_rango_digitos(s: Seq<char>, i: nat)
    ensures
        forall|k: int| i <= k < fin_digitos(s, i) ==> es_digito(#[trigger] s[k]),
    decreases s.len() - i,
{
    if i < s.len() && es_digito(s[i as int]) {
        lema_rango_digitos(s, i + 1);
    }
}

proof fn lema_texto_anteponer(l: Lexema, t: Seq<Lexema>)
    ensures
        texto_lexemas(seq![l] + t) == texto_lexema(l) + texto_lexemas(t),
{
    assert((seq![l] + t).subrange(1, (seq![l] + t).len() as int) =~= t);
}

/// Los lexemas de `s` desde `i`, si los hay, guardan todos sus caracteres que
/// no son espacios.
pub proof fn lema_lexemas_guardan_texto(s: Seq<char>, i: nat)
    requires
        lexemas_desde(s, i) is Some,
    ensures
        texto_lexemas(lexemas_desde(s, i)->0) == sin_espacios_desde(s, i),
    decreases s.len() - i,
{
    if i >= s.len() {
    } else if es_espacio(s[i as int]) {
        lema_lexemas_guardan_texto(s, i + 1);
    } else {
        let j: nat = if es_letra(s[i as int]) {
            lema_fin_palabra(s, i + 1);
            lema_rango_palabra(s, i + 1);
            fin_palabra(s, i + 1)
        } else if es_digito(s[i as int]) {
            lema_fin_numero(s, i);
            lema_fin_digitos(s, i);
            lema_rango_digitos(s, i);
            let d = fin_digitos(s, i);
            if d + 1 < s.len() && s[d as int] == '.' && es_digito(s[(d + 1) as int]) {
                lema_fin_digitos(s, d + 1);
                lema_rango_digitos(s, d + 1);
            }
            fin_numero(s, i)
        } else {
            i + largo_simbolo(s, i)
        };
        assert(forall|k: int| i <= k < j ==> !es_espacio(#[trigger] s[k]));
        lema_lexemas_guardan_texto(s, j);
        lema_tramo_sin_espacios(s, i, j);
        let l = lexemas_desde(s, i)->0;
        let t = lexemas_desde(s, j)->0;
        assert(l == seq![l[0]] + t);
        lema_texto_anteponer(l[0], t);
    }
}

/// El análisis léxico sólo descarta espacios: los textos de los lexemas de un
/// programa, uno tras otro, son sus caracteres sin los espacios.
pub proof fn ley_lexemas_guardan_texto(s: Seq<char>)
    requires
        lexemas_de(s) is Some,
    ensures
        texto_lexemas(lexemas_de(s)->0) == sin_espacios(s),
{
    lema_lexemas_guardan_texto(s, 0);
}

// ---------------------------------------------------------------------------
// Los lexemas que escriben un árbol.

pub open spec fn sim(s: Seq<char>) -> Lexema {
    Lexema::Simbolo(s)
}

pub open spec fn pal(w: Seq<char>) -> Lexema {
    Lexema::Palabra(w)
}

pub open spec fn imp_factor(f: FactorV) -> Seq<Lexema>
    decreases f,
{
    match f {
        FactorV::Llamada(l) => imp_llamada(l),
        FactorV::Id(n) => seq![pal(n)],
        FactorV::Cte(v) => seq![Lexema::Numero(v)],
        FactorV::Expresion(e) => seq![sim("("@)] + imp_expresion(*e) + seq![sim(")"@)],
    }
}

pub open spec fn imp_llamada(l: LlamadaV) -> Seq<Lexema>
    decreases l,
{
    seq![pal(l.nombre), sim("("@)] + imp_lista(l.argumentos) + seq![sim(")"@)]
}

/// Expresiones separadas por comas.
pub open spec fn imp_lista(a: Seq<ExpresionV>) -> Seq<Lexema>
    decreases a,
{
    if a.len() == 0 {
        Seq::empty()
    } else if a.len() == 1 {
        imp_expresion(a[0])
    } else {
        imp_lista(a.subrange(0, a.len() - 1)) + seq![sim(","@)] + imp_expresion(a[a.len() - 1])
    }
}

pub open spec fn imp_termino(t: TerminoV) -> Seq<Lexema>
    decreases t,
{
    imp_factor(t.primero) + imp_resto_termino(t.resto)
}

pub open spec fn imp_resto_termino(s: Seq<(Seq<char>, FactorV)>) -> Seq<Lexema>
    decreases s,
{
    if s.len() == 0 {
        Seq::empty()
    } else {
        seq![sim(s[0].0)] + imp_factor(s[0].1) + imp_resto_termino(s.subrange(1, s.len() as int))
    }
}

pub open spec fn imp_exp(x: ExpV) -> Seq<Lexema>
    decreases x,
{
    imp_termino(x.primero) + imp_resto_exp(x.resto)
}

pub open spec fn imp_resto_exp(s: Seq<(Seq<char>, TerminoV)>) -> Seq<Lexema>
    decreases s,
{
    if s.len() == 0 {
        Seq::empty()
    } else {
        seq![sim(s[0].0)] + imp_termino(s[0].1) + imp_resto_exp(s.subrange(1, s.len() as int))
    }
}

pub open spec fn imp_expresion(e: ExpresionV) -> Seq<Lexema>
    decreases e,
{
    imp_exp(e.izquierda) + match e.relacional {
        Some(par) => seq![sim(par.0)] + imp_exp(par.1),
        None => Seq::empty(),
    }
}

// ---------------------------------------------------------------------------
// Lo que reconoce cada regla es exactamente lo que escribe su árbol.

pub proof fn lema_rt_factor(ts: Seq<Lexema>, p: nat)
    requires
        p_factor(ts, p) is Some,
    ensures
        avanza(ts, p, p_factor(ts, p).unwrap().1),
        ts.subrange(p as int, p_factor(ts, p).unwrap().1 as int) == imp_factor(p_factor(ts, p).unwrap().0),
    decreases ts.len() - p, 0nat,
{
    let (f, q) = p_factor(ts, p)->0;
    if simbolo_en(ts, p, "("@) {
        let (e, q1) = p_expresion(ts, p + 1)->0;
        lema_rt_expresion(ts, p + 1);
        assert(ts.subrange(p as int, q as int) =~= seq![ts[p as int]] + ts.subrange(
            (p + 1) as int,
            q1 as int,
        ) + seq![ts[q1 as int]]);
    } else if crate::gramatica::numero_en(ts, p) is Some {
        assert(ts.subrange(p as int, q as int) =~= seq![ts[p as int]]);
    } else {
        if simbolo_en(ts, p + 1, "("@) {
            let (a, q1) = p_argumentos(ts, p + 2)->0;
            lema_rt_argumentos(ts, p + 2);
            assert(ts.subrange(p as int, q as int) =~= seq![ts[p as int], ts[(p + 1) as int]]
                + ts.subrange((p + 2) as int, q as int));
        } else {
            assert(ts.subrange(p as int, q as int) =~= seq![ts[p as int]]);
        }
    }
}

pub proof fn lema_rt_resto_termino(ts: Seq<Lexema>, p: nat, acc: Seq<(Seq<char>, FactorV)>)
    requires
        p <= ts.len(),
        p_resto_termino(ts, p, acc) is Some,
    ensures
        ({
            let (r, q) = p_resto_termino(ts, p, acc)->0;
            &&& p <= q <= ts.len()
            &&& acc.len() <= r.len()
            &&& r.subrange(0, acc.len() as int) == acc
            &&& ts.subrange(p as int, q as int) == imp_resto_termino(
                r.subrange(acc.len() as int, r.len() as int),
            )
        }),
    decreases ts.len() - p, 0nat,
{
    let (r, q) = p_resto_termino(ts, p, acc)->0;
    match op_mult_en(ts, p) {
        Some(op) => {
            let (f, q1) = p_factor(ts, p + 1)->0;
            lema_rt_factor(ts, p + 1);
            lema_rt_resto_termino(ts, q1, acc.push((op, f)));
            let n = acc.len() as int;
            assert(r.subrange(0, n) =~= r.subrange(0, n + 1).subrange(0, n));
            assert(r[n] == r.subrange(0, n + 1)[n]);
            assert(r.subrange(n, r.len() as int).subrange(1, r.len() - n) =~= r.subrange(
                n + 1,
                r.len() as int,
            ));
            assert(ts.subrange(p as int, q as int) =~= seq![ts[p as int]] + ts.subrange(
                (p + 1) as int,
                q1 as int,
            ) + ts.subrange(q1 as int, q as int));
        },
        None => {
            assert(r.subrange(0, acc.len() as int) =~= acc);
            assert(ts.subrange(p as int, q as int) =~= Seq::<Lexema>::empty());
        },
    }
}

pub proof fn lema_rt_termino(ts: Seq<Lexema>, p: nat)
    requires
        p_termino(ts, p) is Some,
    ensures
        avanza(ts, p, p_termino(ts, p).unwrap().1),
        ts.subrange(p as int, p_termino(ts, p).unwrap().1 as int) == imp_termino(p_termino(ts, p).unwrap().0),
    decreases ts.len() - p, 1nat,
{
    let (t, q) = p_termino(ts, p)->0;
    let (f, q0) = p_factor(ts, p)->0;
    lema_rt_factor(ts, p);
    lema_rt_resto_termino(ts, q0, Seq::empty());
    let r = t.resto;
    assert(r.subrange(0, r.len() as int) =~= r);
    assert(ts.subrange(p as int, q as int) =~= ts.subrange(p as int, q0 as int) + ts.subrange(
        q0 as int,
        q as int,
    ));
}

pub proof fn lema_rt_resto_exp(ts: Seq<Lexema>, p: nat, acc: Seq<(Seq<char>, TerminoV)>)
    requires
        p <= ts.len(),
        p_resto_exp(ts, p, acc) is Some,
    ensures
        ({
            let (r, q) = p_resto_exp(ts, p, acc)->0;
            &&& p <= q <= ts.len()
            &&& acc.len() <= r.len()
            &&& r.subrange(0, acc.len() as int) == acc
            &&& ts.subrange(p as int, q as int) == imp_resto_exp(
                r.subrange(acc.len() as int, r.len() as int),
            )
        }),
    decreases ts.len() - p, 0nat,
{
    let (r, q) = p_resto_exp(ts, p, acc)->0;
    match op_suma_en(ts, p) {
        Some(op) => {
            let (t, q1) = p_termino(ts, p + 1)->0;
            lema_rt_termino(ts, p + 1);
            lema_rt_resto_exp(ts, q1, acc.push((op, t)));
            let n = acc.len() as int;
            assert(r.subrange(0, n) =~= r.subrange(0, n + 1).subrange(0, n));
            assert(r[n] == r.subrange(0, n + 1)[n]);
            assert(r.subrange(n, r.len() as int).subrange(1, r.len() - n) =~= r.subrange(
                n + 1,
                r.len() as int,
            ));
            assert(ts.subrange(p as int, q as int) =~= seq![ts[p as int]] + ts.subrange(
                (p + 1) as int,
                q1 as int,
            ) + ts.subrange(q1 as int, q as int));
        },
        None => {
            assert(r.subrange(0, acc.len() as int) =~= acc);
            assert(ts.subrange(p as int, q as int) =~= Seq::<Lexema>::empty());
        },
    }
}

pub proof fn lema_rt_exp(ts: Seq<Lexema>, p: nat)
    requires
        p_exp(ts, p) is Some,
    ensures
        avanza(ts, p, p_exp(ts, p).unwrap().1),
        ts.subrange(p as int, p_exp(ts, p).unwrap().1 as int) == imp_exp(p_exp(ts, p).unwrap().0),
    decreases ts.len() - p, 2nat,
{
    let (x, q) = p_exp(ts, p)->0;
    let (t, q0) = p_termino(ts, p)->0;
    lema_rt_termino(ts, p);
    lema_rt_resto_exp(ts, q0, Seq::empty());
    let r = x.resto;
    assert(r.subrange(0, r.len() as int) =~= r);
    assert(ts.subrange(p as int, q as int) =~= ts.subrange(p as int, q0 as int) + ts.subrange(
        q0 as int,
        q as int,
    ));
}

pub proof fn lema_rt_expresion(ts: Seq<Lexema>, p: nat)
    requires
        p_expresion(ts, p) is Some,
    ensures
        avanza(ts, p, p_expresion(ts, p).unwrap().1),
        ts.subrange(p as int, p_expresion(ts, p).unwrap().1 as int) == imp_expresion(
            p_expresion(ts, p).unwrap().0,
        ),
    decreases ts.len() - p, 3nat,
{
    let (e, q) = p_expresion(ts, p)->0;
    let (x, q0) = p_exp(ts, p)->0;
    lema_rt_exp(ts, p);
    match op_rel_en(ts, q0) {
        Some(op) => {
            let (y, q2) = p_exp(ts, q0 + 1)->0;
            lema_rt_exp(ts, q0 + 1);
            assert(ts.subrange(p as int, q as int) =~= ts.subrange(p as int, q0 as int)
                + seq![ts[q0 as int]] + ts.subrange((q0 + 1) as int, q as int));
        },
        None => {
            assert(ts.subrange(p as int, q as int) =~= ts.subrange(p as int, q0 as int)
                + Seq::<Lexema>::empty());
        },
    }
}

pub proof fn lema_rt_mas_argumentos(ts: Seq<Lexema>, p: nat, acc: Seq<ExpresionV>)
    requires
        acc.len() >= 1,
        p_mas_argumentos(ts, p, acc) is Some,
    ensures
        ({
            let (r, q) = p_mas_argumentos(ts, p, acc)->0;
            &&& p < q <= ts.len()
            &&& imp_lista(acc) + ts.subrange(p as int, q as int) == imp_lista(r) + seq![sim(")"@)]
        }),
    decreases ts.len() - p, 0nat,
{
    let (r, q) = p_mas_argumentos(ts, p, acc)->0;
    if simbolo_en(ts, p, ","@) {
        let (e, q1) = p_expresion(ts, p + 1)->0;
        lema_rt_expresion(ts, p + 1);
        lema_rt_mas_argumentos(ts, q1, acc.push(e));
        assert(acc.push(e).subrange(0, acc.len() as int) =~= acc);
        assert(imp_lista(acc.push(e)) == imp_lista(acc) + seq![sim(","@)] + imp_expresion(e));
        assert(ts.subrange(p as int, q as int) =~= seq![ts[p as int]] + ts.subrange(
            (p + 1) as int,
            q1 as int,
        ) + ts.subrange(q1 as int, q as int));
        assert(imp_lista(acc) + ts.subrange(p as int, q as int) =~= imp_lista(acc.push(e))
            + ts.subrange(q1 as int, q as int));
    } else {
        assert(ts.subrange(p as int, q as int) =~= seq![sim(")"@)]);
    }
}

pub proof fn lema_rt_argumentos(ts: Seq<Lexema>, p: nat)
    requires
        p_argumentos(ts, p) is Some,
    ensures
        avanza(ts, p, p_argumentos(ts, p).unwrap().1),
        ts.subrange(p as int, p_argumentos(ts, p).unwrap().1 as int) == imp_lista(
            p_argumentos(ts, p).unwrap().0,
        ) + seq![sim(")"@)],
    decreases ts.len() - p, 4nat,
{
    let (a, q) = p_argumentos(ts, p)->0;
    if simbolo_en(ts, p, ")"@) {
        assert(ts.subrange(p as int, q as int) =~= imp_lista(a) + seq![sim(")"@)]);
    } else {
        let (e, q0) = p_expresion(ts, p)->0;
        lema_rt_expresion(ts, p);
        lema_rt_mas_argumentos(ts, q0, seq![e]);
        assert(imp_lista(seq![e]) == imp_expresion(e));
        assert(ts.subrange(p as int, q as int) =~= ts.subrange(p as int, q0 as int) + ts.subrange(
            q0 as int,
            q as int,
        ));
    }
}

// ---------------------------------------------------------------------------
// Estatutos, funciones y programa.

pub open spec fn imp_bloque_cuerpo(c: CuerpoV) -> Seq<Lexema> {
    seq![sim("{"@)] + imp_cuerpo(c) + seq![sim("}"@)]
}

pub open spec fn imp_estatuto(st: EstatutoV) -> Seq<Lexema>
    decreases st,
{
    match st {
        EstatutoV::Asigna(n, e) => seq![pal(n), sim("="@)] + imp_expresion(e) + seq![sim(";"@)],
        EstatutoV::Imprime(e) => seq![pal("escribe"@), sim("("@)] + imp_expresion(e) + seq![
            sim(")"@),
            sim(";"@),
        ],
        EstatutoV::Condicion(e, c, o) => seq![pal("si"@), sim("("@)] + imp_expresion(e) + seq![
            sim(")"@),
            sim("{"@),
        ] + imp_cuerpo(c) + seq![sim("}"@)] + match o {
            Some(c2) => seq![pal("sino"@), sim("{"@)] + imp_cuerpo(c2) + seq![sim("}"@)],
            None => Seq::empty(),
        },
        EstatutoV::Ciclo(e, c) => seq![pal("mientras"@), sim("("@)] + imp_expresion(e) + seq![
            sim(")"@),
            sim("{"@),
        ] + imp_cuerpo(c) + seq![sim("}"@)],
        EstatutoV::Retorno(e) => seq![pal("return"@)] + imp_expresion(e) + seq![sim(";"@)],
        EstatutoV::Llamada(l) => imp_llamada(l) + seq![sim(";"@)],
    }
}

pub open spec fn imp_cuerpo(c: CuerpoV) -> Seq<Lexema>
    decreases c,
{
    imp_estatutos(c.estatutos)
}

pub open spec fn imp_estatutos(s: Seq<EstatutoV>) -> Seq<Lexema>
    decreases s,
{
    if s.len() == 0 {
        Seq::empty()
    } else {
        imp_estatuto(s[0]) + imp_estatutos(s.subrange(1, s.len() as int))
    }
}

/// Declaraciones `id : tipo ;`.
pub open spec fn imp_declaraciones(s: Seq<(Seq<char>, Seq<char>)>) -> Seq<Lexema>
    decreases s.len(),
{
    if s.len() == 0 {
        Seq::empty()
    } else {
        seq![pal(s[0].0), sim(":"@), pal(s[0].1), sim(";"@)] + imp_declaraciones(
            s.subrange(1, s.len() as int),
        )
    }
}

/// Parámetros `id : tipo` separados por comas, y el paréntesis de cierre.
pub open spec fn imp_lista_parametros(s: Seq<(Seq<char>, Seq<char>)>) -> Seq<Lexema>
    decreases s.len(),
{
    if s.len() <= 1 {
        if s.len() == 0 {
            seq![sim(")"@)]
        } else {
            seq![pal(s[0].0), sim(":"@), pal(s[0].1), sim(")"@)]
        }
    } else {
        seq![pal(s[0].0), sim(":"@), pal(s[0].1), sim(","@)] + imp_lista_parametros(
            s.subrange(1, s.len() as int),
        )
    }
}

pub open spec fn imp_funcion(f: FuncionV) -> Seq<Lexema> {
    seq![
        match f.tipo_retorno {
            Some(t) => pal(t),
            None => pal("nula"@),
        },
        pal(f.nombre),
        sim("("@),
    ] + imp_lista_parametros(f.parametros) + match f.cuerpo {
        Some(c) => imp_bloque_cuerpo(c),
        None => seq![sim("{"@), sim("}"@)],
    }
}

pub open spec fn imp_funciones(s: Seq<FuncionV>) -> Seq<Lexema>
    decreases s.len(),
{
    if s.len() == 0 {
        Seq::empty()
    } else {
        imp_funcion(s[0]) + imp_funciones(s.subrange(1, s.len() as int))
    }
}

/// Los lexemas de un programa.
pub open spec fn imp_programa(pv: ProgramaV) -> Seq<Lexema> {
    seq![pal("programa"@), pal(pv.nombre), sim(";"@)] + (if pv.variables.len() == 0 {
        Seq::empty()
    } else {
        seq![pal("vars"@), sim(":"@)] + imp_declaraciones(pv.variables)
    }) + imp_funciones(pv.funciones) + seq![pal("inicio"@)] + imp_cuerpo(pv.cuerpo) + seq![
        pal("fin"@),
    ]
}

#[verifier::spinoff_prover]
#[verifier::rlimit(80)]
pub proof fn lema_rt_estatuto(ts: Seq<Lexema>, p: nat)
    requires
        p_estatuto(ts, p) is Some,
    ensures
        avanza(ts, p, p_estatuto(ts, p).unwrap().1),
        ts.subrange(p as int, p_estatuto(ts, p).unwrap().1 as int) == imp_estatuto(
            p_estatuto(ts, p).unwrap().0,
        ),
    decreases ts.len() - p, 0nat,
{
    let (st, q) = p_estatuto(ts, p).unwrap();
    let pi = p as int;
    if palabra_en(ts, p, "escribe"@) {
        let (e, q1) = p_expresion(ts, p + 2).unwrap();
        lema_rt_expresion(ts, p + 2);
        assert(ts.subrange(pi, q as int) =~= seq![ts[pi], ts[pi + 1]] + ts.subrange(
            pi + 2,
            q1 as int,
        ) + seq![ts[q1 as int], ts[(q1 + 1) as int]]);
    } else if palabra_en(ts, p, "return"@) {
        let (e, q1) = p_expresion(ts, p + 1).unwrap();
        lema_rt_expresion(ts, p + 1);
        assert(ts.subrange(pi, q as int) =~= seq![ts[pi]] + ts.subrange(pi + 1, q1 as int)
            + seq![ts[q1 as int]]);
    } else if palabra_en(ts, p, "si"@) || palabra_en(ts, p, "mientras"@) {
        let (e, q1) = p_expresion(ts, p + 2).unwrap();
        lema_rt_expresion(ts, p + 2);
        let (c, q2) = p_cuerpo(ts, q1 + 2, Seq::empty()).unwrap();
        lema_rt_cuerpo(ts, q1 + 2, Seq::empty());
        assert(c.estatutos.subrange(0, c.estatutos.len() as int) =~= c.estatutos);
        let cabeza = seq![ts[pi], ts[pi + 1]] + ts.subrange(pi + 2, q1 as int) + seq![
            ts[q1 as int],
            ts[(q1 + 1) as int],
        ] + ts.subrange((q1 + 2) as int, q2 as int) + seq![ts[q2 as int]];
        assert(ts.subrange(pi, (q2 + 1) as int) =~= cabeza);
        if palabra_en(ts, p, "mientras"@) {
        } else if palabra_en(ts, q2 + 1, "sino"@) {
            let (c2, q3) = p_cuerpo(ts, q2 + 3, Seq::empty()).unwrap();
            lema_rt_cuerpo(ts, q2 + 3, Seq::empty());
            assert(c2.estatutos.subrange(0, c2.estatutos.len() as int) =~= c2.estatutos);
            assert(ts.subrange(pi, q as int) =~= cabeza + seq![ts[(q2 + 1) as int], ts[(q2 + 2) as int]]
                + ts.subrange((q2 + 3) as int, q3 as int) + seq![ts[q3 as int]]);
        } else {
            assert(cabeza + Seq::<Lexema>::empty() =~= cabeza);
        }
    } else {
        if simbolo_en(ts, p + 1, "="@) {
            let (e, q1) = p_expresion(ts, p + 2).unwrap();
            lema_rt_expresion(ts, p + 2);
            assert(ts.subrange(pi, q as int) =~= seq![ts[pi], ts[pi + 1]] + ts.subrange(
                pi + 2,
                q1 as int,
            ) + seq![ts[q1 as int]]);
        } else {
            let (a, q1) = p_argumentos(ts, p + 2).unwrap();
            lema_rt_argumentos(ts, p + 2);
            assert(ts.subrange(pi, q as int) =~= seq![ts[pi], ts[pi + 1]] + ts.subrange(
                pi + 2,
                q1 as int,
            ) + seq![ts[q1 as int]]);
        }
    }
}

pub proof fn lema_rt_cuerpo(ts: Seq<Lexema>, p: nat, acc: Seq<EstatutoV>)
    requires
        p <= ts.len(),
        p_cuerpo(ts, p, acc) is Some,
    ensures
        ({
            let (c, q) = p_cuerpo(ts, p, acc).unwrap();
            let r = c.estatutos;
            &&& p <= q <= ts.len()
            &&& acc.len() <= r.len()
            &&& r.subrange(0, acc.len() as int) == acc
            &&& ts.subrange(p as int, q as int) == imp_estatutos(
                r.subrange(acc.len() as int, r.len() as int),
            )
        }),
    decreases ts.len() - p, 1nat,
{
    let (c, q) = p_cuerpo(ts, p, acc).unwrap();
    let r = c.estatutos;
    if crate::gramatica::empieza_estatuto(ts, p) {
        let (st, q1) = p_estatuto(ts, p).unwrap();
        lema_rt_estatuto(ts, p);
        lema_rt_cuerpo(ts, q1, acc.push(st));
        let n = acc.len() as int;
        assert(r.subrange(0, n) =~= r.subrange(0, n + 1).subrange(0, n));
        assert(r[n] == r.subrange(0, n + 1)[n]);
        assert(r.subrange(n, r.len() as int).subrange(1, r.len() - n) =~= r.subrange(
            n + 1,
            r.len() as int,
        ));
        assert(ts.subrange(p as int, q as int) =~= ts.subrange(p as int, q1 as int) + ts.subrange(
            q1 as int,
            q as int,
        ));
    } else {
        assert(r.subrange(0, acc.len() as int) =~= acc);
        assert(ts.subrange(p as int, q as int) =~= Seq::<Lexema>::empty());
    }
}

proof fn lema_rt_declaraciones(ts: Seq<Lexema>, p: nat, acc: Seq<(Seq<char>, Seq<char>)>)
    requires
        p <= ts.len(),
        p_declaraciones(ts, p, acc) is Some,
    ensures
        ({
            let (r, q) = p_declaraciones(ts, p, acc).unwrap();
            &&& p <= q <= ts.len()
            &&& acc.len() <= r.len()
            &&& r.subrange(0, acc.len() as int) == acc
            &&& ts.subrange(p as int, q as int) == imp_declaraciones(
                r.subrange(acc.len() as int, r.len() as int),
            )
        }),
    decreases ts.len() - p,
{
    let (r, q) = p_declaraciones(ts, p, acc).unwrap();
    let pi = p as int;
    if identificador_en(ts, p) is Some {
        let x = (identificador_en(ts, p)->0, tipo_en(ts, p + 2)->0);
        lema_rt_declaraciones(ts, p + 4, acc.push(x));
        let n = acc.len() as int;
        assert(r.subrange(0, n) =~= r.subrange(0, n + 1).subrange(0, n));
        assert(r[n] == r.subrange(0, n + 1)[n]);
        assert(r.subrange(n, r.len() as int).subrange(1, r.len() - n) =~= r.subrange(
            n + 1,
            r.len() as int,
        ));
        assert(ts.subrange(pi, q as int) =~= seq![ts[pi], ts[pi + 1], ts[pi + 2], ts[pi + 3]]
            + ts.subrange(pi + 4, q as int));
    } else {
        assert(r.subrange(0, acc.len() as int) =~= acc);
        assert(ts.subrange(pi, q as int) =~= Seq::<Lexema>::empty());
    }
}

proof fn lema_rt_lista_parametros(ts: Seq<Lexema>, p: nat, acc: Seq<(Seq<char>, Seq<char>)>)
    requires
        p_lista_parametros(ts, p, acc) is Some,
    ensures
        ({
            let (r, q) = p_lista_parametros(ts, p, acc).unwrap();
            &&& p < q <= ts.len()
            &&& acc.len() < r.len()
            &&& r.subrange(0, acc.len() as int) == acc
            &&& ts.subrange(p as int, q as int) == imp_lista_parametros(
                r.subrange(acc.len() as int, r.len() as int),
            )
        }),
    decreases ts.len() - p,
{
    let (r, q) = p_lista_parametros(ts, p, acc).unwrap();
    let pi = p as int;
    let n = acc.len() as int;
    let x = (identificador_en(ts, p)->0, tipo_en(ts, p + 2)->0);
    if simbolo_en(ts, p + 3, ","@) {
        lema_rt_lista_parametros(ts, p + 4, acc.push(x));
        assert(r.subrange(0, n) =~= r.subrange(0, n + 1).subrange(0, n));
        assert(r[n] == r.subrange(0, n + 1)[n]);
        assert(r.subrange(n, r.len() as int).subrange(1, r.len() - n) =~= r.subrange(
            n + 1,
            r.len() as int,
        ));
        assert(ts.subrange(pi, q as int) =~= seq![ts[pi], ts[pi + 1], ts[pi + 2], ts[pi + 3]]
            + ts.subrange(pi + 4, q as int));
    } else {
        assert(r.subrange(0, n) =~= acc);
        assert(r.subrange(n, r.len() as int) =~= seq![x]);
        assert(ts.subrange(pi, q as int) =~= seq![ts[pi], ts[pi + 1], ts[pi + 2], ts[pi + 3]]);
    }
}

proof fn lema_rt_parametros(ts: Seq<Lexema>, p: nat)
    requires
        p_parametros(ts, p) is Some,
    ensures
        avanza(ts, p, p_parametros(ts, p).unwrap().1),
        ts.subrange(p as int, p_parametros(ts, p).unwrap().1 as int) == imp_lista_parametros(
            p_parametros(ts, p).unwrap().0,
        ),
{
    let (ps, q) = p_parametros(ts, p).unwrap();
    if simbolo_en(ts, p, ")"@) {
        assert(ts.subrange(p as int, q as int) =~= seq![sim(")"@)]);
    } else {
        lema_rt_lista_parametros(ts, p, Seq::empty());
        assert(ps.subrange(0, ps.len() as int) =~= ps);
    }
}

proof fn lema_rt_funcion(ts: Seq<Lexema>, p: nat)
    requires
        p_funcion(ts, p) is Some,
    ensures
        avanza(ts, p, p_funcion(ts, p).unwrap().1),
        ts.subrange(p as int, p_funcion(ts, p).unwrap().1 as int) == imp_funcion(
            p_funcion(ts, p).unwrap().0,
        ),
{
    let (f, q) = p_funcion(ts, p).unwrap();
    let pi = p as int;
    let (ps, q1) = p_parametros(ts, p + 3).unwrap();
    lema_rt_parametros(ts, p + 3);
    let (c, q2) = p_cuerpo(ts, q1 + 1, Seq::empty()).unwrap();
    lema_rt_cuerpo(ts, q1 + 1, Seq::empty());
    assert(c.estatutos.subrange(0, c.estatutos.len() as int) =~= c.estatutos);
    assert(ts.subrange(pi, q as int) =~= seq![ts[pi], ts[pi + 1], ts[pi + 2]] + ts.subrange(
        pi + 3,
        q1 as int,
    ) + seq![ts[q1 as int]] + ts.subrange((q1 + 1) as int, q2 as int) + seq![ts[q2 as int]]);
}

proof fn lema_rt_funciones(ts: Seq<Lexema>, p: nat, acc: Seq<FuncionV>)
    requires
        p <= ts.len(),
        p_funciones(ts, p, acc) is Some,
    ensures
        ({
            let (r, q) = p_funciones(ts, p, acc).unwrap();
            &&& p <= q <= ts.len()
            &&& acc.len() <= r.len()
            &&& r.subrange(0, acc.len() as int) == acc
            &&& ts.subrange(p as int, q as int) == imp_funciones(
                r.subrange(acc.len() as int, r.len() as int),
            )
        }),
    decreases ts.len() - p,
{
    let (r, q) = p_funciones(ts, p, acc).unwrap();
    if empieza_funcion(ts, p) {
        let (f, q1) = p_funcion(ts, p).unwrap();
        lema_rt_funcion(ts, p);
        lema_rt_funciones(ts, q1, acc.push(f));
        let n = acc.len() as int;
        assert(r.subrange(0, n) =~= r.subrange(0, n + 1).subrange(0, n));
        assert(r[n] == r.subrange(0, n + 1)[n]);
        assert(r.subrange(n, r.len() as int).subrange(1, r.len() - n) =~= r.subrange(
            n + 1,
            r.len() as int,
        ));
        assert(ts.subrange(p as int, q as int) =~= ts.subrange(p as int, q1 as int) + ts.subrange(
            q1 as int,
            q as int,
        ));
    } else {
        assert(r.subrange(0, acc.len() as int) =~= acc);
        assert(ts.subrange(p as int, q as int) =~= Seq::<Lexema>::empty());
    }
}

/// El análisis sintáctico no pierde nada: si una lista de lexemas es un
/// programa, escribir su árbol da exactamente esa lista.
pub proof fn ley_programa_se_reescribe(ts: Seq<Lexema>)
    requires
        p_programa(ts) is Some,
    ensures
        imp_programa(p_programa(ts)->0) == ts,
{
    let pv = p_programa(ts)->0;
    let (vs, q) = p_bloque_variables(ts, 3).unwrap();
    let bloque = if vs.len() == 0 {
        Seq::<Lexema>::empty()
    } else {
        seq![pal("vars"@), sim(":"@)] + imp_declaraciones(vs)
    };
    if palabra_en(ts, 3, "vars"@) {
        lema_rt_declaraciones(ts, 5, Seq::empty());
        assert(vs.subrange(0, vs.len() as int) =~= vs);
        assert(ts.subrange(3, q as int) =~= seq![ts[3], ts[4]] + ts.subrange(5, q as int));
    } else {
        assert(ts.subrange(3, q as int) =~= bloque);
    }
    assert(ts.subrange(3, q as int) == bloque);
    let (fs, q2) = p_funciones(ts, q, Seq::empty()).unwrap();
    lema_rt_funciones(ts, q, Seq::empty());
    assert(fs.subrange(0, fs.len() as int) =~= fs);
    let (c, q3) = p_cuerpo(ts, q2 + 1, Seq::empty()).unwrap();
    lema_rt_cuerpo(ts, q2 + 1, Seq::empty());
    assert(c.estatutos.subrange(0, c.estatutos.len() as int) =~= c.estatutos);
    assert(ts =~= seq![ts[0], ts[1], ts[2]] + ts.subrange(3, q as int) + ts.subrange(
        q as int,
        q2 as int,
    ) + seq![ts[q2 as int]] + ts.subrange((q2 + 1) as int, q3 as int) + seq![ts[q3 as int]]);
}

/// El árbol de un programa escrito como texto guarda todo el texto: escribir
/// sus lexemas, uno tras otro, da los caracteres del texto sin los espacios.
pub proof fn ley_analisis_guarda_texto(texto: Seq<char>)
    requires
        sp_analizar(texto) is Some,
    ensures
        texto_lexemas(imp_programa(sp_analizar(texto)->0)) == sin_espacios(texto),
{
    ley_lexemas_guardan_texto(texto);
    ley_programa_se_reescribe(lexemas_de(texto)->0);
}

// ---------------------------------------------------------------------------
// Precedencia: `*` y `/` unen términos; `+` y `-` unen expresiones aritméticas.

/// Un operador multiplicativo.
pub open spec fn es_op_mult(o: Seq<char>) -> bool {
    o == "*"@ || o == "/"@
}

/// Un operador aditivo.
pub open spec fn es_op_suma(o: Seq<char>) -> bool {
    o == "+"@ || o == "-"@
}

/// Un operador relacional.
pub open spec fn es_op_rel(o: Seq<char>) -> bool {
    o == ">"@ || o == "<"@ || o == ">="@ || o == "<="@ || o == "=="@ || o == "!="@
}

proof fn lema_resto_termino_mult(ts: Seq<Lexema>, p: nat, acc: Seq<(Seq<char>, FactorV)>)
    requires
        p_resto_termino(ts, p, acc) is Some,
        forall|k: int| 0 <= k < acc.len() ==> es_op_mult(#[trigger] acc[k].0),
    ensures
        ({
            let (r, q) = p_resto_termino(ts, p, acc).unwrap();
            &&& forall|k: int| 0 <= k < r.len() ==> es_op_mult(#[trigger] r[k].0)
            &&& !simbolo_en(ts, q, "*"@) && !simbolo_en(ts, q, "/"@)
        }),
    decreases ts.len() - p,
{
    match op_mult_en(ts, p) {
        Some(op) => {
            let (f, q1) = p_factor(ts, p + 1).unwrap();
            let acc2 = acc.push((op, f));
            assert forall|k: int| 0 <= k < acc2.len() implies es_op_mult(#[trigger] acc2[k].0) by {
                if k < acc.len() {
                    assert(acc2[k] == acc[k]);
                }
            }
            lema_resto_termino_mult(ts, q1, acc2);
        },
        None => {},
    }
}

proof fn lema_resto_exp_suma(ts: Seq<Lexema>, p: nat, acc: Seq<(Seq<char>, TerminoV)>)
    requires
        p_resto_exp(ts, p, acc) is Some,
        forall|k: int| 0 <= k < acc.len() ==> es_op_suma(#[trigger] acc[k].0),
    ensures
        ({
            let (r, q) = p_resto_exp(ts, p, acc).unwrap();
            &&& forall|k: int| 0 <= k < r.len() ==> es_op_suma(#[trigger] r[k].0)
            &&& !simbolo_en(ts, q, "+"@) && !simbolo_en(ts, q, "-"@)
        }),
    decreases ts.len() - p,
{
    match op_suma_en(ts, p) {
        Some(op) => {
            let (t, q1) = p_termino(ts, p + 1).unwrap();
            let acc2 = acc.push((op, t));
            assert forall|k: int| 0 <= k < acc2.len() implies es_op_suma(#[trigger] acc2[k].0) by {
                if k < acc.len() {
                    assert(acc2[k] == acc[k]);
                }
            }
            lema_resto_exp_suma(ts, q1, acc2);
        },
        None => {},
    }
}

/// Un término reconocido une sus factores sólo con `*` y `/`, y abarca todos
/// los que siguen: después de él no viene ni `*` ni `/`.
pub proof fn ley_termino_multiplicativo(ts: Seq<Lexema>, p: nat)
    requires
        p_termino(ts, p) is Some,
    ensures
        ({
            let (t, q) = p_termino(ts, p).unwrap();
            &&& forall|k: int| 0 <= k < t.resto.len() ==> es_op_mult(#[trigger] t.resto[k].0)
            &&& !simbolo_en(ts, q, "*"@) && !simbolo_en(ts, q, "/"@)
        }),
{
    let (f, q0) = p_factor(ts, p).unwrap();
    lema_resto_termino_mult(ts, q0, Seq::empty());
}

/// Una expresión aritmética reconocida une sus términos sólo con `+` y `-`, y
/// abarca todos los que siguen: después de ella no viene ni `+` ni `-`. Como
/// cada término ya abarcó sus `*` y `/`, éstos ligan más fuerte que `+` y `-`.
pub proof fn ley_exp_aditiva(ts: Seq<Lexema>, p: nat)
    requires
        p_exp(ts, p) is Some,
    ensures
        ({
            let (x, q) = p_exp(ts, p).unwrap();
            &&& forall|k: int| 0 <= k < x.resto.len() ==> es_op_suma(#[trigger] x.resto[k].0)
            &&& !simbolo_en(ts, q, "+"@) && !simbolo_en(ts, q, "-"@)
        }),
{
    let (t, q0) = p_termino(ts, p).unwrap();
    lema_resto_exp_suma(ts, q0, Seq::empty());
}

/// Una expresión reconocida compara, si compara, con un operador relacional.
pub proof fn ley_expresion_relacional(ts: Seq<Lexema>, p: nat)
    requires
        p_expresion(ts, p) is Some,
    ensures
        p_expresion(ts, p).unwrap().0.relacional matches Some(par) ==> es_op_rel(par.0),
{
}

// ---------------------------------------------------------------------------
// Un espacio separa lexemas; los operadores de dos caracteres son un lexema.

/// Dos listas de lexemas, una tras otra, si las hay.
pub open spec fn juntar(a: Option<Seq<Lexema>>, b: Option<Seq<Lexema>>) -> Option<Seq<Lexema>> {
    match (a, b) {
        (Some(x), Some(y)) => Some(x + y),
        _ => None,
    }
}

proof fn lema_fines_prefijo(a: Seq<char>, t: Seq<char>, i: nat)
    requires
        t.len() > 0,
        es_espacio(t[0]),
        i <= a.len(),
    ensures
        fin_palabra(a + t, i) == fin_palabra(a, i),
        fin_digitos(a + t, i) == fin_digitos(a, i),
    decreases a.len() - i,
{
    let s = a + t;
    assert(s[a.len() as int] == t[0]);
    if i < a.len() {
        assert(s[i as int] == a[i as int]);
        lema_fines_prefijo(a, t, i + 1);
    }
}

proof fn lema_fines_desplazados(pre: Seq<char>, b: Seq<char>, j: nat)
    requires
        j <= b.len(),
    ensures
        fin_palabra(pre + b, pre.len() + j) == pre.len() + fin_palabra(b, j),
        fin_digitos(pre + b, pre.len() + j) == pre.len() + fin_digitos(b, j),
    decreases b.len() - j,
{
    let s = pre + b;
    if j < b.len() {
        assert(s[(pre.len() + j) as int] == b[j as int]);
        lema_fines_desplazados(pre, b, j + 1);
    }
}

proof fn lema_lexemas_desplazados(pre: Seq<char>, b: Seq<char>, j: nat)
    requires
        j <= b.len(),
    ensures
        lexemas_desde(pre + b, pre.len() + j) == lexemas_desde(b, j),
    decreases b.len() - j,
{
    let s = pre + b;
    let i = pre.len() + j;
    if j < b.len() {
        assert(s[i as int] == b[j as int]);
        if es_espacio(b[j as int]) {
            lema_lexemas_desplazados(pre, b, j + 1);
        } else if es_letra(b[j as int]) {
            lema_fines_desplazados(pre, b, j + 1);
            lema_fin_palabra(b, j + 1);
            let k = fin_palabra(b, j + 1);
            lema_lexemas_desplazados(pre, b, k);
            assert(s.subrange(i as int, (pre.len() + k) as int) =~= b.subrange(j as int, k as int));
        } else if es_digito(b[j as int]) {
            lema_fines_desplazados(pre, b, j);
            lema_fin_numero(b, j);
            lema_fin_digitos(b, j);
            let d = fin_digitos(b, j);
            if d + 1 < b.len() {
                assert(s[(pre.len() + d) as int] == b[d as int]);
                assert(s[(pre.len() + d + 1) as int] == b[(d + 1) as int]);
            }
            if d + 1 < b.len() && b[d as int] == '.' && es_digito(b[(d + 1) as int]) {
                lema_fines_desplazados(pre, b, d + 1);
            }
            let k = fin_numero(b, j);
            assert(fin_numero(s, i) == pre.len() + k);
            lema_lexemas_desplazados(pre, b, k);
            assert(s.subrange(i as int, (pre.len() + k) as int) =~= b.subrange(j as int, k as int));
        } else {
            if j + 1 < b.len() {
                assert(s[(i + 1) as int] == b[(j + 1) as int]);
            }
            assert(largo_simbolo(s, i) == largo_simbolo(b, j));
            if largo_simbolo(b, j) > 0 {
                let k = j + largo_simbolo(b, j);
                lema_lexemas_desplazados(pre, b, k);
                assert(s.subrange(i as int, (pre.len() + k) as int) =~= b.subrange(j as int, k as int));
            }
        }
    }
}

proof fn lema_lexemas_prefijo(a: Seq<char>, t: Seq<char>, i: nat)
    requires
        t.len() > 0,
        es_espacio(t[0]),
        i <= a.len(),
    ensures
        lexemas_desde(a + t, i) == juntar(lexemas_desde(a, i), lexemas_desde(a + t, a.len())),
    decreases a.len() - i,
{
    let s = a + t;
    assert(s[a.len() as int] == t[0]);
    if i == a.len() {
        if let Some(x) = lexemas_desde(s, a.len()) {
            assert(Seq::<Lexema>::empty() + x =~= x);
        }
    } else {
        assert(s[i as int] == a[i as int]);
        if es_espacio(a[i as int]) {
            lema_lexemas_prefijo(a, t, i + 1);
        } else if es_letra(a[i as int]) {
            lema_fines_prefijo(a, t, i + 1);
            lema_fin_palabra(a, i + 1);
            let k = fin_palabra(a, i + 1);
            lema_lexemas_prefijo(a, t, k);
            assert(s.subrange(i as int, k as int) =~= a.subrange(i as int, k as int));
            lema_juntar_anteponer(
                Lexema::Palabra(a.subrange(i as int, k as int)),
                lexemas_desde(a, k),
                lexemas_desde(s, a.len()),
            );
        } else if es_digito(a[i as int]) {
            lema_fines_prefijo(a, t, i);
            lema_fin_numero(a, i);
            lema_fin_digitos(a, i);
            let d = fin_digitos(a, i);
            if d < a.len() {
                assert(s[d as int] == a[d as int]);
            }
            if d + 1 < a.len() {
                assert(s[(d + 1) as int] == a[(d + 1) as int]);
            }
            if d + 1 == a.len() {
                assert(s[(d + 1) as int] == t[0]);
            }
            if d + 1 < a.len() && a[d as int] == '.' && es_digito(a[(d + 1) as int]) {
                lema_fines_prefijo(a, t, d + 1);
            }
            let k = fin_numero(a, i);
            assert(fin_numero(s, i) == k);
            lema_lexemas_prefijo(a, t, k);
            assert(s.subrange(i as int, k as int) =~= a.subrange(i as int, k as int));
            lema_juntar_anteponer(
                Lexema::Numero(a.subrange(i as int, k as int)),
                lexemas_desde(a, k),
                lexemas_desde(s, a.len()),
            );
        } else {
            if i + 1 < a.len() {
                assert(s[(i + 1) as int] == a[(i + 1) as int]);
            }
            if i + 1 == a.len() {
                assert(s[(i + 1) as int] == t[0]);
            }
            assert(largo_simbolo(s, i) == largo_simbolo(a, i));
            if largo_simbolo(a, i) > 0 {
                let k = i + largo_simbolo(a, i);
                lema_lexemas_prefijo(a, t, k);
                assert(s.subrange(i as int, k as int) =~= a.subrange(i as int, k as int));
                lema_juntar_anteponer(
                    Lexema::Simbolo(a.subrange(i as int, k as int)),
                    lexemas_desde(a, k),
                    lexemas_desde(s, a.len()),
                );
            }
        }
    }
}

proof fn lema_juntar_anteponer(l: Lexema, x: Option<Seq<Lexema>>, y: Option<Seq<Lexema>>)
    ensures
        crate::lexico::anteponer(l, juntar(x, y)) == juntar(crate::lexico::anteponer(l, x), y),
{
    if let (Some(u), Some(v)) = (x, y) {
        assert(seq![l] + (u + v) =~= (seq![l] + u) + v);
    }
}

/// Un espacio separa lexemas: los lexemas de dos textos unidos por un espacio
/// son los del primero seguidos de los del segundo (y si uno de los dos tiene
/// un carácter fuera del lenguaje, el texto unido también).
pub proof fn ley_espacio_separa(a: Seq<char>, b: Seq<char>)
    ensures
        lexemas_de(a + seq![' '] + b) == juntar(lexemas_de(a), lexemas_de(b)),
{
    let t = seq![' '] + b;
    assert(a + seq![' '] + b =~= a + t);
    lema_lexemas_prefijo(a, t, 0);
    let s = a + t;
    assert(s[a.len() as int] == ' ');
    lema_lexemas_desplazados(a + seq![' '], b, 0);
    assert((a + seq![' ']) + b =~= s);
}

/// Los operadores de dos caracteres `<=`, `>=`, `==` y `!=` son cada uno un
/// solo lexema: rodeados de espacios entre dos textos cualesquiera, los
/// lexemas son los del primer texto, el símbolo completo y los del segundo.
pub proof fn ley_operadores_de_dos_caracteres(a: Seq<char>, c: char, b: Seq<char>)
    requires
        c == '<' || c == '>' || c == '=' || c == '!',
    ensures
        lexemas_de(a + seq![' ', c, '=', ' '] + b) == juntar(
            lexemas_de(a),
            juntar(Some(seq![Lexema::Simbolo(seq![c, '='])]), lexemas_de(b)),
        ),
{
    let op = seq![c, '='];
    assert(a + seq![' ', c, '=', ' '] + b =~= a + seq![' '] + (op + seq![' '] + b));
    ley_espacio_separa(a, op + seq![' '] + b);
    ley_espacio_separa(op, b);
    assert(largo_simbolo(op, 0) == 2);
    assert(op.subrange(0, 2) =~= op);
    assert(lexemas_desde(op, 2) == Some(Seq::<Lexema>::empty()));
    assert(seq![Lexema::Simbolo(op)] + Seq::<Lexema>::empty() =~= seq![Lexema::Simbolo(op)]);
}

} // verus!
