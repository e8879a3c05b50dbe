//! Propiedades del esquema de traducción: la disciplina de pilas y que el
//! código ya generado no cambia.

use vstd::prelude::*;

use crate::arbol::{Cuerpo, Estatuto, Exp, Expresion, Factor, Funcion, Llamada, Programa, Termino};
use crate::direcciones::AdministradorDirecciones;
use crate::texto::decimal;
use crate::tipos::Operador;
use crate::traduccion::{
    con_inicio, con_llamadas_corregidas, corregir_llamada, programa_inicial, sp_firmas, sp_funcion, sp_declaraciones, sp_funciones, sp_programa,
    sp_variables, Declaraciones, EstadoPrograma, siguiente, sp_ciclo, sp_condicion, sp_cuerpo,
    sp_estatuto, sp_estatutos, sp_goto, sp_gotof, sp_rellenar, emitir, sp_argumentos, sp_exp,
    sp_expresion, sp_factor, sp_llamada_expr, sp_operar, sp_param, sp_preparar_llamada,
    sp_resto_exp, sp_resto_termino, sp_termino, Contexto, Estado, MetaVista,
};

verus! {

/// `s2` tiene un operando (y un tipo) más que `s`; las demás pilas no cambian.
pub open spec fn apila_uno(s: Estado, s2: Estado) -> bool {
    let g = s.generador;
    let g2 = s2.generador;
    &&& g2.operandos.len() == g.operandos.len() + 1
    &&& g2.operandos.drop_last() == g.operandos
    &&& g2.tipos.len() == g.tipos.len() + 1
    &&& g2.tipos.drop_last() == g.tipos
    &&& g2.operadores == g.operadores
    &&& g2.saltos == g.saltos
    &&& g2.temporales == g.temporales
}

/// `s2` tiene las mismas pilas que `s`.
pub open spec fn mismas_pilas(s: Estado, s2: Estado) -> bool {
    let g = s.generador;
    let g2 = s2.generador;
    &&& g2.operandos == g.operandos
    &&& g2.tipos == g.tipos
    &&& g2.operadores == g.operadores
    &&& g2.saltos == g.saltos
    &&& g2.temporales == g.temporales
}

/// `s2` tiene las pilas de `s` salvo el último operando y su tipo, que cambian.
pub open spec fn cambia_tope(s: Estado, s2: Estado) -> bool {
    let g = s.generador;
    let g2 = s2.generador;
    &&& g.operandos.len() >= 1
    &&& g.tipos.len() >= 1
    &&& g2.operandos.len() == g.operandos.len()
    &&& g2.operandos.drop_last() == g.operandos.drop_last()
    &&& g2.tipos.len() == g.tipos.len()
    &&& g2.tipos.drop_last() == g.tipos.drop_last()
    &&& g2.operadores == g.operadores
    &&& g2.saltos == g.saltos
    &&& g2.temporales == g.temporales
}

/// El código de `s2` empieza con todo el código de `s`, sin cambios.
pub open spec fn extiende(s: Estado, s2: Estado) -> bool {
    &&& s2.generador.codigo.len() >= s.generador.codigo.len()
    &&& forall|i: int|
        0 <= i < s.generador.codigo.len() ==> s2.generador.codigo[i] == #[trigger] s.generador.codigo[i]
}

proof fn lema_extiende_transitivo(a: Estado, b: Estado, c: Estado)
    requires
        extiende(a, b),
        extiende(b, c),
    ensures
        extiende(a, c),
{
}

proof fn lema_operar(op: Seq<char>, s: Estado)
    requires
        sp_operar(op, s) is Ok,
    ensures
        s.generador.operandos.len() >= 2,
        s.generador.tipos.len() >= 2,
        extiende(s, sp_operar(op, s)->Ok_0),
        ({
            let g = s.generador;
            let g2 = sp_operar(op, s)->Ok_0.generador;
            &&& g2.operandos.len() == g.operandos.len() - 1
            &&& g2.operandos.drop_last() == g.operandos.drop_last().drop_last()
            &&& g2.tipos.len() == g.tipos.len() - 1
            &&& g2.tipos.drop_last() == g.tipos.drop_last().drop_last()
            &&& g2.operadores == g.operadores
            &&& g2.saltos == g.saltos
            &&& g2.temporales == g.temporales
        }),
{
    let g = s.generador;
    let g2 = sp_operar(op, s)->Ok_0.generador;
    assert(g2.operandos.drop_last() =~= g.operandos.drop_last().drop_last());
    assert(g2.tipos.drop_last() =~= g.tipos.drop_last().drop_last());
}

/// Un factor deja exactamente un operando más y sólo agrega código.
pub proof fn lema_factor(f: Factor, c: Contexto, s: Estado)
    requires
        sp_factor(f, c, s) is Ok,
    ensures
        apila_uno(s, sp_factor(f, c, s)->Ok_0),
        extiende(s, sp_factor(f, c, s)->Ok_0),
    decreases f, 0nat,
{
    match f {
        Factor::Llamada(l) => {
            lema_llamada_expr(l, c, s);
        },
        Factor::Id(n) => {
            assert(
                sp_factor(f, c, s)->Ok_0.generador.operandos.drop_last() =~= s.generador.operandos
            );
            assert(sp_factor(f, c, s)->Ok_0.generador.tipos.drop_last() =~= s.generador.tipos);
        },
        Factor::Cte(v) => {
            assert(
                sp_factor(f, c, s)->Ok_0.generador.operandos.drop_last() =~= s.generador.operandos
            );
            assert(sp_factor(f, c, s)->Ok_0.generador.tipos.drop_last() =~= s.generador.tipos);
        },
        Factor::Expresion(e) => {
            lema_expresion(*e, c, s);
        },
    }
}

/// Los pares (operador, factor) de un término sólo cambian el operando de arriba.
pub proof fn lema_resto_termino(r: Seq<(String, Factor)>, i: nat, c: Contexto, s: Estado)
    requires
        sp_resto_termino(r, i, c, s) is Ok,
        s.generador.operandos.len() >= 1,
        s.generador.tipos.len() >= 1,
    ensures
        cambia_tope(s, sp_resto_termino(r, i, c, s)->Ok_0),
        extiende(s, sp_resto_termino(r, i, c, s)->Ok_0),
    decreases r, i,
{
    if 0 < i <= r.len() {
        lema_resto_termino(r, (i - 1) as nat, c, s);
        let s1 = sp_resto_termino(r, (i - 1) as nat, c, s)->Ok_0;
        lema_factor(r[i - 1].1, c, s1);
        let s2 = sp_factor(r[i - 1].1, c, s1)->Ok_0;
        lema_operar(r[i - 1].0@, s2);
        let s3 = sp_operar(r[i - 1].0@, s2)->Ok_0;
        assert(s3.generador.operandos.drop_last() =~= s.generador.operandos.drop_last());
        assert(s3.generador.tipos.drop_last() =~= s.generador.tipos.drop_last());
        lema_extiende_transitivo(s, s1, s2);
        lema_extiende_transitivo(s, s2, s3);
    }
}

/// Un término deja exactamente un operando más y sólo agrega código.
pub proof fn lema_termino(t: Termino, c: Contexto, s: Estado)
    requires
        sp_termino(t, c, s) is Ok,
    ensures
        apila_uno(s, sp_termino(t, c, s)->Ok_0),
        extiende(s, sp_termino(t, c, s)->Ok_0),
    decreases t, 0nat,
{
    lema_factor(t.primero, c, s);
    let s1 = sp_factor(t.primero, c, s)->Ok_0;
    lema_resto_termino(t.resto@, t.resto@.len(), c, s1);
    let s2 = sp_termino(t, c, s)->Ok_0;
    assert(s2.generador.operandos.drop_last() =~= s.generador.operandos);
    assert(s2.generador.tipos.drop_last() =~= s.generador.tipos);
    lema_extiende_transitivo(s, s1, s2);
}

/// Los pares (operador, término) de una expresión aritmética sólo cambian el
/// operando de arriba.
pub proof fn lema_resto_exp(r: Seq<(String, Termino)>, i: nat, c: Contexto, s: Estado)
    requires
        sp_resto_exp(r, i, c, s) is Ok,
        s.generador.operandos.len() >= 1,
        s.generador.tipos.len() >= 1,
    ensures
        cambia_tope(s, sp_resto_exp(r, i, c, s)->Ok_0),
        extiende(s, sp_resto_exp(r, i, c, s)->Ok_0),
    decreases r, i,
{
    if 0 < i <= r.len() {
        lema_resto_exp(r, (i - 1) as nat, c, s);
        let s1 = sp_resto_exp(r, (i - 1) as nat, c, s)->Ok_0;
        lema_termino(r[i - 1].1, c, s1);
        let s2 = sp_termino(r[i - 1].1, c, s1)->Ok_0;
        lema_operar(r[i - 1].0@, s2);
        let s3 = sp_operar(r[i - 1].0@, s2)->Ok_0;
        assert(s3.generador.operandos.drop_last() =~= s.generador.operandos.drop_last());
        assert(s3.generador.tipos.drop_last() =~= s.generador.tipos.drop_last());
        lema_extiende_transitivo(s, s1, s2);
        lema_extiende_transitivo(s, s2, s3);
    }
}

/// Una expresión aritmética deja exactamente un operando más y sólo agrega código.
pub proof fn lema_exp(x: Exp, c: Contexto, s: Estado)
    requires
        sp_exp(x, c, s) is Ok,
    ensures
        apila_uno(s, sp_exp(x, c, s)->Ok_0),
        extiende(s, sp_exp(x, c, s)->Ok_0),
    decreases x, 0nat,
{
    lema_termino(x.primero, c, s);
    let s1 = sp_termino(x.primero, c, s)->Ok_0;
    lema_resto_exp(x.resto@, x.resto@.len(), c, s1);
    let s2 = sp_exp(x, c, s)->Ok_0;
    assert(s2.generador.operandos.drop_last() =~= s.generador.operandos);
    assert(s2.generador.tipos.drop_last() =~= s.generador.tipos);
    lema_extiende_transitivo(s, s1, s2);
}

/// Una expresión deja exactamente un operando más (su valor, con su tipo) y
/// sólo agrega código.
pub proof fn lema_expresion(e: Expresion, c: Contexto, s: Estado)
    requires
        sp_expresion(e, c, s) is Ok,
    ensures
        apila_uno(s, sp_expresion(e, c, s)->Ok_0),
        extiende(s, sp_expresion(e, c, s)->Ok_0),
    decreases e, 0nat,
{
    lema_exp(e.izquierda, c, s);
    let s1 = sp_exp(e.izquierda, c, s)->Ok_0;
    match e.relacional {
        Some(par) => {
            lema_exp(par.1, c, s1);
            let s2 = sp_exp(par.1, c, s1)->Ok_0;
            lema_operar(par.0@, s2);
            let s3 = sp_operar(par.0@, s2)->Ok_0;
            assert(s3.generador.operandos.drop_last() =~= s.generador.operandos);
            assert(s3.generador.tipos.drop_last() =~= s.generador.tipos);
            lema_extiende_transitivo(s, s1, s2);
            lema_extiende_transitivo(s, s2, s3);
        },
        None => {},
    }
}

/// Los argumentos de una llamada dejan las pilas como estaban: cada uno se
/// evalúa y se pasa como parámetro.
pub proof fn lema_argumentos(
    nombre: Seq<char>,
    a: Seq<Expresion>,
    i: nat,
    m: MetaVista,
    c: Contexto,
    s: Estado,
)
    requires
        sp_argumentos(nombre, a, i, m, c, s) is Ok,
    ensures
        mismas_pilas(s, sp_argumentos(nombre, a, i, m, c, s)->Ok_0),
        extiende(s, sp_argumentos(nombre, a, i, m, c, s)->Ok_0),
    decreases a, i,
{
    if 0 < i <= a.len() {
        lema_argumentos(nombre, a, (i - 1) as nat, m, c, s);
        let s1 = sp_argumentos(nombre, a, (i - 1) as nat, m, c, s)->Ok_0;
        lema_expresion(a[i - 1], c, s1);
        let s2 = sp_expresion(a[i - 1], c, s1)->Ok_0;
        let s3 = sp_param(m.parametros[i - 1].2, s2)->Ok_0;
        lema_extiende_transitivo(s, s1, s2);
        lema_extiende_transitivo(s, s2, s3);
    }
}

/// Preparar una llamada deja las pilas como estaban.
pub proof fn lema_preparar_llamada(l: Llamada, c: Contexto, s: Estado)
    requires
        sp_preparar_llamada(l, c, s) is Ok,
    ensures
        mismas_pilas(s, sp_preparar_llamada(l, c, s)->Ok_0),
        extiende(s, sp_preparar_llamada(l, c, s)->Ok_0),
    decreases l, 1nat,
{
    let m = c.funciones[l.nombre@];
    let s1 = emitir(
        s,
        crate::generador::cuadruplo(crate::tipos::Operador::Era, None, None, Some(l.nombre@)),
    );
    lema_argumentos(l.nombre@, l.argumentos@, l.argumentos@.len(), m, c, s1);
    lema_extiende_transitivo(s, s1, sp_preparar_llamada(l, c, s)->Ok_0);
}

/// Una llamada en una expresión deja exactamente un operando más: el temporal
/// con su valor de retorno.
pub proof fn lema_llamada_expr(l: Llamada, c: Contexto, s: Estado)
    requires
        sp_llamada_expr(l, c, s) is Ok,
    ensures
        apila_uno(s, sp_llamada_expr(l, c, s)->Ok_0),
        extiende(s, sp_llamada_expr(l, c, s)->Ok_0),
    decreases l, 2nat,
{
    lema_preparar_llamada(l, c, s);
    let r = sp_llamada_expr(l, c, s)->Ok_0;
    assert(r.generador.operandos.drop_last() =~= s.generador.operandos);
    assert(r.generador.tipos.drop_last() =~= s.generador.tipos);
}

proof fn lema_rellenar(s0: Estado, s: Estado, i: nat, d: nat)
    requires
        extiende(s0, s),
        i >= s0.generador.codigo.len(),
        sp_rellenar(s, i, d) is Ok,
    ensures
        extiende(s0, sp_rellenar(s, i, d)->Ok_0),
        mismas_pilas(s, sp_rellenar(s, i, d)->Ok_0),
        siguiente(sp_rellenar(s, i, d)->Ok_0) == siguiente(s),
{
}

proof fn lema_mismas_pilas_transitivo(a: Estado, b: Estado, c: Estado)
    requires
        mismas_pilas(a, b),
        mismas_pilas(b, c),
    ensures
        mismas_pilas(a, c),
{
}

/// Un `si` deja las pilas como estaban y no cambia el código ya generado.
pub proof fn lema_condicion(st: Estatuto, c: Contexto, s: Estado)
    requires
        sp_condicion(st, c, s) is Ok,
    ensures
        mismas_pilas(s, sp_condicion(st, c, s)->Ok_0),
        extiende(s, sp_condicion(st, c, s)->Ok_0),
    decreases st, 1nat,
{
    match st {
        Estatuto::Condicion(e, a, b) => {
            lema_expresion(e, c, s);
            let s1 = sp_expresion(e, c, s)->Ok_0;
            let s2 = sp_gotof(s1)->Ok_0;
            assert(s2.generador.operandos =~= s.generador.operandos);
            assert(s2.generador.tipos =~= s.generador.tipos);
            assert(extiende(s, s2));
            lema_cuerpo(a, c, s2);
            let s3 = sp_cuerpo(a, c, s2)->Ok_0;
            lema_extiende_transitivo(s, s2, s3);
            let falso = siguiente(s1);
            match b {
                Some(otro) => {
                    let salto_fin = siguiente(s3);
                    let s4 = sp_goto(s3, 0);
                    assert(extiende(s, s4));
                    lema_rellenar(s, s4, falso, siguiente(s4));
                    let s5 = sp_rellenar(s4, falso, siguiente(s4))->Ok_0;
                    lema_cuerpo(otro, c, s5);
                    let s6 = sp_cuerpo(otro, c, s5)->Ok_0;
                    lema_extiende_transitivo(s, s5, s6);
                    lema_rellenar(s, s6, salto_fin, siguiente(s6));
                },
                None => {
                    lema_rellenar(s, s3, falso, siguiente(s3));
                },
            }
        },
        _ => {},
    }
}

/// Un ciclo deja las pilas como estaban y no cambia el código ya generado.
pub proof fn lema_ciclo(st: Estatuto, c: Contexto, s: Estado)
    requires
        sp_ciclo(st, c, s) is Ok,
    ensures
        mismas_pilas(s, sp_ciclo(st, c, s)->Ok_0),
        extiende(s, sp_ciclo(st, c, s)->Ok_0),
    decreases st, 1nat,
{
    match st {
        Estatuto::Ciclo(e, cu) => {
            let inicio = siguiente(s);
            lema_expresion(e, c, s);
            let s1 = sp_expresion(e, c, s)->Ok_0;
            let s2 = sp_gotof(s1)->Ok_0;
            assert(s2.generador.operandos =~= s.generador.operandos);
            assert(s2.generador.tipos =~= s.generador.tipos);
            assert(extiende(s, s2));
            lema_cuerpo(cu, c, s2);
            let s3 = sp_cuerpo(cu, c, s2)->Ok_0;
            lema_extiende_transitivo(s, s2, s3);
            let s4 = sp_goto(s3, inicio);
            assert(extiende(s, s4));
            lema_rellenar(s, s4, siguiente(s1), siguiente(s4));
        },
        _ => {},
    }
}

/// Un estatuto deja las pilas como estaban y no cambia el código ya generado.
pub proof fn lema_estatuto(st: Estatuto, c: Contexto, s: Estado)
    requires
        sp_estatuto(st, c, s) is Ok,
    ensures
        mismas_pilas(s, sp_estatuto(st, c, s)->Ok_0),
        extiende(s, sp_estatuto(st, c, s)->Ok_0),
    decreases st, 2nat,
{
    match st {
        Estatuto::Asigna(v, e) => {
            lema_expresion(e, c, s);
            let s1 = sp_expresion(e, c, s)->Ok_0;
            let r = sp_estatuto(st, c, s)->Ok_0;
            assert(r.generador.operandos =~= s.generador.operandos);
            assert(r.generador.tipos =~= s.generador.tipos);
        },
        Estatuto::Imprime(e) => {
            lema_expresion(e, c, s);
            let r = sp_estatuto(st, c, s)->Ok_0;
            assert(r.generador.operandos =~= s.generador.operandos);
            assert(r.generador.tipos =~= s.generador.tipos);
        },
        Estatuto::Condicion(_, _, _) => {
            lema_condicion(st, c, s);
        },
        Estatuto::Ciclo(_, _) => {
            lema_ciclo(st, c, s);
        },
        Estatuto::Retorno(e) => {
            lema_expresion(e, c, s);
            let r = sp_estatuto(st, c, s)->Ok_0;
            assert(r.generador.operandos =~= s.generador.operandos);
            assert(r.generador.tipos =~= s.generador.tipos);
        },
        Estatuto::Llamada(l) => {
            lema_preparar_llamada(l, c, s);
        },
    }
}

/// Los primeros `i` estatutos dejan las pilas como estaban y no cambian el
/// código ya generado.
pub proof fn lema_estatutos(r: Seq<Estatuto>, i: nat, c: Contexto, s: Estado)
    requires
        sp_estatutos(r, i, c, s) is Ok,
    ensures
        mismas_pilas(s, sp_estatutos(r, i, c, s)->Ok_0),
        extiende(s, sp_estatutos(r, i, c, s)->Ok_0),
    decreases r, i,
{
    if 0 < i <= r.len() {
        lema_estatutos(r, (i - 1) as nat, c, s);
        let s1 = sp_estatutos(r, (i - 1) as nat, c, s)->Ok_0;
        lema_estatuto(r[i - 1], c, s1);
        lema_extiende_transitivo(s, s1, sp_estatutos(r, i, c, s)->Ok_0);
        lema_mismas_pilas_transitivo(s, s1, sp_estatutos(r, i, c, s)->Ok_0);
    }
}

/// Un cuerpo deja las pilas como estaban y no cambia el código ya generado.
pub proof fn lema_cuerpo(cu: Cuerpo, c: Contexto, s: Estado)
    requires
        sp_cuerpo(cu, c, s) is Ok,
    ensures
        mismas_pilas(s, sp_cuerpo(cu, c, s)->Ok_0),
        extiende(s, sp_cuerpo(cu, c, s)->Ok_0),
    decreases cu, 0nat,
{
    lema_estatutos(cu.estatutos@, cu.estatutos@.len(), c, s);
}

/// Una función sólo fija su inicio y agrega avisos y código: no cambia las
/// pilas, las variables, las demás funciones ni el código ya generado, y su
/// código termina con `EndFunc`.
pub proof fn lema_funcion(f: Funcion, p: EstadoPrograma)
    requires
        sp_funcion(f, p) is Ok,
    ensures
        ({
            let r = sp_funcion(f, p)->Ok_0;
            &&& p.funciones.dom().contains(f.nombre@)
            &&& mismas_pilas(p.estado, r.estado)
            &&& extiende(p.estado, r.estado)
            &&& siguiente(r.estado) > siguiente(p.estado)
            &&& r.estado.generador.codigo.last() == crate::generador::cuadruplo(Operador::EndFunc, None, None, None)
            &&& r.variables == p.variables
            &&& r.funciones == p.funciones.insert(
                f.nombre@,
                con_inicio(p.funciones[f.nombre@], siguiente(p.estado)),
            )
        }),
{
    let m = con_inicio(p.funciones[f.nombre@], siguiente(p.estado));
    let c = Contexto {
        variables: crate::traduccion::sp_locales(p.variables, m.parametros, m.parametros.len()),
        funciones: p.funciones.insert(f.nombre@, m),
    };
    match f.cuerpo {
        Some(cu) => {
            lema_cuerpo(cu, c, p.estado);
            let s1 = sp_cuerpo(cu, c, p.estado)->Ok_0;
            lema_extiende_transitivo(p.estado, s1, sp_funcion(f, p)->Ok_0.estado);
        },
        None => {},
    }
}

/// De las primeras `i` a las primeras `k` funciones sólo se agrega código y las
/// pilas, las variables y los nombres de las funciones no cambian.
pub proof fn lema_funciones_entre(fs: Seq<Funcion>, i: nat, k: nat, p: EstadoPrograma)
    requires
        i <= k <= fs.len(),
        sp_funciones(fs, k, p) is Ok,
    ensures
        sp_funciones(fs, i, p) is Ok,
        ({
            let a = sp_funciones(fs, i, p)->Ok_0;
            let b = sp_funciones(fs, k, p)->Ok_0;
            &&& mismas_pilas(a.estado, b.estado)
            &&& extiende(a.estado, b.estado)
            &&& b.variables == a.variables
            &&& b.funciones.dom() == a.funciones.dom()
        }),
    decreases k - i,
{
    if i < k {
        lema_funciones_entre(fs, i, (k - 1) as nat, p);
        let a1 = sp_funciones(fs, (k - 1) as nat, p)->Ok_0;
        lema_funcion(fs[k - 1], a1);
        lema_extiende_transitivo(
            sp_funciones(fs, i, p)->Ok_0.estado,
            a1.estado,
            sp_funciones(fs, k, p)->Ok_0.estado,
        );
        assert(sp_funciones(fs, k, p)->Ok_0.funciones.dom() =~= a1.funciones.dom());
    }
}

/// Las funciones sólo fijan inicios y agregan avisos y código.
pub proof fn lema_funciones(fs: Seq<Funcion>, i: nat, p: EstadoPrograma)
    requires
        sp_funciones(fs, i, p) is Ok,
    ensures
        ({
            let r = sp_funciones(fs, i, p)->Ok_0;
            &&& mismas_pilas(p.estado, r.estado)
            &&& extiende(p.estado, r.estado)
            &&& r.variables == p.variables
            &&& r.funciones.dom() == p.funciones.dom()
        }),
{
    if i <= fs.len() {
        lema_funciones_entre(fs, 0, i, p);
    }
}

/// Las primeras `i` firmas registran, cada una, el nombre de su función.
pub proof fn lema_firmas_nombres(
    fs: Seq<Funcion>,
    i: nat,
    m: Map<Seq<char>, MetaVista>,
    d: AdministradorDirecciones,
    inicio: usize,
)
    requires
        i <= fs.len(),
        sp_firmas(fs, i, m, d, inicio) is Ok,
    ensures
        forall|j: int|
            0 <= j < i ==> (sp_firmas(fs, i, m, d, inicio)->Ok_0).0.dom().contains(
                #[trigger] fs[j].nombre@,
            ),
    decreases i,
{
    if i > 0 {
        lema_firmas_nombres(fs, (i - 1) as nat, m, d, inicio);
    }
}

/// El estado del programa justo después de registrar las firmas, antes de
/// generar el cuerpo de cualquier función.
#[verifier::opaque]
pub open spec fn tras_firmas(prog: Programa) -> EstadoPrograma {
    let p0 = programa_inicial();
    let s1 = sp_goto(p0.estado, 0);
    let dcl = sp_variables(
        prog.variables@,
        prog.variables@.len(),
        Declaraciones { variables: Map::empty(), direcciones: s1.direcciones, avisos: Seq::empty() },
    )->Ok_0;
    let firmas = sp_firmas(
        prog.funciones@,
        prog.funciones@.len(),
        Map::empty(),
        dcl.direcciones,
        siguiente(s1) as usize,
    )->Ok_0;
    EstadoPrograma {
        variables: dcl.variables,
        funciones: firmas.0,
        avisos: dcl.avisos,
        estado: Estado { direcciones: firmas.1, ..s1 },
    }
}

/// El estado del programa justo antes de generar el cuerpo de su función `i`.
pub open spec fn antes_de_funcion(prog: Programa, i: nat) -> EstadoPrograma {
    sp_funciones(prog.funciones@, i, tras_firmas(prog))->Ok_0
}

/// Antes del cuerpo principal las pilas están vacías, el primer cuádruplo es
/// el salto inicial y las funciones son las registradas: una por cada nombre
/// de función del programa.
pub proof fn lema_declaraciones(prog: Programa)
    requires
        sp_declaraciones(prog) is Ok,
    ensures
        ({
            let p = sp_declaraciones(prog)->Ok_0;
            &&& sp_funciones(prog.funciones@, prog.funciones@.len(), tras_firmas(prog)) == sp_declaraciones(prog)
            &&& siguiente(tras_firmas(prog).estado) == 1
            &&& mismas_pilas(programa_inicial().estado, p.estado)
            &&& extiende(tras_firmas(prog).estado, p.estado)
            &&& p.estado.generador.codigo.len() >= 1
            &&& p.estado.generador.codigo[0] == crate::generador::cuadruplo(
                Operador::Goto,
                None,
                None,
                Some(decimal(0)),
            )
            &&& p.funciones.dom() == tras_firmas(prog).funciones.dom()
            &&& forall|j: int|
                0 <= j < prog.funciones@.len() ==> p.funciones.dom().contains(
                    #[trigger] prog.funciones@[j].nombre@,
                )
        }),
{
    let p0 = programa_inicial();
    let s1 = sp_goto(p0.estado, 0);
    let dcl = sp_variables(
        prog.variables@,
        prog.variables@.len(),
        Declaraciones { variables: Map::empty(), direcciones: s1.direcciones, avisos: Seq::empty() },
    )->Ok_0;
    let inicio = siguiente(s1) as usize;
    lema_firmas_nombres(prog.funciones@, prog.funciones@.len(), Map::empty(), dcl.direcciones, inicio);
    reveal(tras_firmas);
    let p3 = tras_firmas(prog);
    lema_funciones(prog.funciones@, prog.funciones@.len(), p3);
    let p4 = sp_declaraciones(prog)->Ok_0;
    assert(sp_declaraciones(prog) == sp_funciones(prog.funciones@, prog.funciones@.len(), p3));
    assert(mismas_pilas(p0.estado, s1));
    assert(
        s1.generador.codigo[0] == crate::generador::cuadruplo(
            Operador::Goto,
            None,
            None,
            Some(decimal(0)),
        )
    );
}

proof fn lema_nombres_antes(prog: Programa, i: nat)
    requires
        sp_declaraciones(prog) is Ok,
        i < prog.funciones@.len(),
    ensures
        antes_de_funcion(prog, i).funciones.dom() == sp_declaraciones(prog)->Ok_0.funciones.dom(),
{
    lema_declaraciones(prog);
    lema_funciones_entre(prog.funciones@, i, prog.funciones@.len(), tras_firmas(prog));
}

/// Las firmas de todas las funciones se registran antes de generar cualquier
/// cuerpo: la tabla de funciones con la que se compila el cuerpo de cada
/// función, y la que queda al final, ya tiene a cada función del programa, así
/// que una función puede llamarse a sí misma o llamar a una declarada después.
#[verifier::spinoff_prover]
pub proof fn ley_funciones_registradas_antes(prog: Programa)
    requires
        sp_programa(prog) is Ok,
    ensures
        forall|i: nat, j: int|
            i < prog.funciones@.len() && 0 <= j < prog.funciones@.len()
                ==> #[trigger] antes_de_funcion(prog, i).funciones.dom().contains(
                #[trigger] prog.funciones@[j].nombre@,
            ),
        forall|j: int|
            0 <= j < prog.funciones@.len() ==> sp_programa(prog)->Ok_0.funciones.dom().contains(
                #[trigger] prog.funciones@[j].nombre@,
            ),
{
    lema_declaraciones(prog);
    assert(sp_programa(prog)->Ok_0.funciones == sp_declaraciones(prog)->Ok_0.funciones);
    assert forall|i: nat, j: int|
        i < prog.funciones@.len() && 0 <= j < prog.funciones@.len() implies #[trigger] antes_de_funcion(
        prog,
        i,
    ).funciones.dom().contains(#[trigger] prog.funciones@[j].nombre@) by {
        lema_nombres_antes(prog, i);
    }
}

/// Un programa compilado deja vacías las pilas de operandos, tipos, operadores
/// y saltos; su primer cuádruplo es el salto al cuerpo principal, que empieza
/// justo después del código de las funciones.
#[verifier::spinoff_prover]
pub proof fn ley_programa_compilado(prog: Programa)
    requires
        sp_programa(prog) is Ok,
    ensures
        ({
            let p4 = sp_declaraciones(prog)->Ok_0;
            let g = sp_programa(prog)->Ok_0.estado.generador;
            &&& g.operandos.len() == 0
            &&& g.tipos.len() == 0
            &&& g.operadores.len() == 0
            &&& g.saltos.len() == 0
            &&& g.codigo.len() >= p4.estado.generador.codigo.len()
            &&& g.codigo[0] == crate::generador::cuadruplo(
                Operador::Goto,
                None,
                None,
                Some(decimal(p4.estado.generador.codigo.len())),
            )
        }),
{
    lema_declaraciones(prog);
    let p4 = sp_declaraciones(prog)->Ok_0;
    let k = siguiente(p4.estado);
    let s5 = sp_rellenar(p4.estado, 0, k)->Ok_0;
    let c = Contexto { variables: p4.variables, funciones: p4.funciones };
    lema_cuerpo(prog.cuerpo, c, s5);
    let s6 = sp_cuerpo(prog.cuerpo, c, s5)->Ok_0;
    assert(s6.generador.codigo[0] == s5.generador.codigo[0]);
    let g = sp_programa(prog)->Ok_0.estado.generador;
    assert(g == con_llamadas_corregidas(s6, p4.funciones).generador);
    assert(g.codigo[0] == corregir_llamada(s6.generador.codigo[0], p4.funciones));
}

proof fn lema_inicio_se_conserva(fs: Seq<Funcion>, i: nat, k: nat, p: EstadoPrograma)
    requires
        i < k <= fs.len(),
        sp_funciones(fs, k, p) is Ok,
        forall|j: int| i < j < fs.len() ==> (#[trigger] fs[j]).nombre@ != fs[i as int].nombre@,
    ensures
        sp_funciones(fs, (i + 1) as nat, p) is Ok,
        sp_funciones(fs, k, p)->Ok_0.funciones.dom().contains(fs[i as int].nombre@),
        sp_funciones(fs, k, p)->Ok_0.funciones[fs[i as int].nombre@] == sp_funciones(
            fs,
            (i + 1) as nat,
            p,
        )->Ok_0.funciones[fs[i as int].nombre@],
    decreases k - i,
{
    if k == i + 1 {
        lema_funciones_entre(fs, i, k, p);
        lema_funcion(fs[i as int], sp_funciones(fs, i, p)->Ok_0);
    } else {
        lema_inicio_se_conserva(fs, i, (k - 1) as nat, p);
        lema_funciones_entre(fs, (k - 1) as nat, k, p);
        lema_funcion(fs[k - 1], sp_funciones(fs, (k - 1) as nat, p)->Ok_0);
        assert(fs[k - 1].nombre@ != fs[i as int].nombre@);
    }
}

/// Cada función empieza donde empieza su código: el inicio con que queda
/// registrada (y con que se la llama) es el índice del primer cuádruplo que
/// se genera para su cuerpo. La primera empieza en el cuádruplo 1, justo
/// después del salto inicial, y cada una de las demás justo después del
/// `EndFunc` que cierra a la anterior. Si dos funciones tienen el mismo
/// nombre vale la última, que es la que queda en la tabla.
#[verifier::spinoff_prover]
#[verifier::rlimit(30)]
pub proof fn ley_inicio_de_cada_funcion(prog: Programa, i: nat)
    requires
        sp_programa(prog) is Ok,
        sp_programa(prog)->Ok_0.estado.generador.codigo.len() <= usize::MAX,
        i < prog.funciones@.len(),
        forall|j: int|
            i < j < prog.funciones@.len() ==> (#[trigger] prog.funciones@[j]).nombre@
                != prog.funciones@[i as int].nombre@,
    ensures
        ({
            let r = sp_programa(prog)->Ok_0;
            let nombre = prog.funciones@[i as int].nombre@;
            let inicio = r.funciones[nombre].inicio as int;
            let codigo = r.estado.generador.codigo;
            &&& r.funciones.dom().contains(nombre)
            &&& inicio == siguiente(antes_de_funcion(prog, i).estado)
            &&& 1 <= inicio < codigo.len()
            &&& i == 0 ==> inicio == 1
            &&& i > 0 ==> codigo[inicio - 1] == crate::generador::cuadruplo(
                Operador::EndFunc,
                None,
                None,
                None,
            )
        }),
{
    let fs = prog.funciones@;
    let n = fs.len();
    lema_declaraciones(prog);
    let p3 = tras_firmas(prog);
    let p4 = sp_declaraciones(prog)->Ok_0;
    let nombre = fs[i as int].nombre@;
    lema_inicio_se_conserva(fs, i, n, p3);
    let a = antes_de_funcion(prog, i);
    lema_funciones_entre(fs, i, n, p3);
    lema_funcion(fs[i as int], a);
    let b = sp_funciones(fs, (i + 1) as nat, p3)->Ok_0;
    assert(b == sp_funcion(fs[i as int], a)->Ok_0);
    assert(b.funciones[nombre] == con_inicio(a.funciones[nombre], siguiente(a.estado)));
    lema_funciones_entre(fs, (i + 1) as nat, n, p3);
    // del estado antes del cuerpo principal al final
    let k = siguiente(p4.estado);
    let s5 = sp_rellenar(p4.estado, 0, k)->Ok_0;
    let c = Contexto { variables: p4.variables, funciones: p4.funciones };
    lema_cuerpo(prog.cuerpo, c, s5);
    let s6 = sp_cuerpo(prog.cuerpo, c, s5)->Ok_0;
    let r = sp_programa(prog)->Ok_0;
    assert(r.funciones == p4.funciones);
    assert(r.estado == con_llamadas_corregidas(s6, p4.funciones));
    let codigo = r.estado.generador.codigo;
    assert(siguiente(a.estado) < siguiente(b.estado));
    assert(siguiente(b.estado) <= siguiente(p4.estado));
    if i == 0 {
        assert(a == p3);
    } else {
        lema_funciones_entre(fs, (i - 1) as nat, i, p3);
        let a0 = antes_de_funcion(prog, (i - 1) as nat);
        lema_funcion(fs[i - 1], a0);
        assert(a == sp_funcion(fs[i - 1], a0)->Ok_0);
        lema_funciones_entre(fs, 0, (i - 1) as nat, p3);
        let idx = siguiente(a.estado) - 1;
        assert(idx >= 1);
        assert(p4.estado.generador.codigo[idx] == a.estado.generador.codigo[idx]);
        assert(s5.generador.codigo[idx] == p4.estado.generador.codigo[idx]);
        assert(s6.generador.codigo[idx] == s5.generador.codigo[idx]);
        assert(codigo[idx] == corregir_llamada(s6.generador.codigo[idx], p4.funciones));
    }
}

/// Toda llamada del programa compilado salta al inicio de su función: cada
/// `Gosub` a una función de la tabla tiene como destino el inicio con que
/// esa función quedó registrada.
#[verifier::spinoff_prover]
pub proof fn ley_llamadas_a_su_inicio(prog: Programa)
    requires
        sp_programa(prog) is Ok,
    ensures
        ({
            let r = sp_programa(prog)->Ok_0;
            let codigo = r.estado.generador.codigo;
            forall|k: int|
                0 <= k < codigo.len() && (#[trigger] codigo[k]).operador == Operador::Gosub
                    && codigo[k].izquierda is Some && r.funciones.dom().contains(
                    codigo[k].izquierda->0,
                ) ==> codigo[k].resultado == Some(
                    decimal(r.funciones[codigo[k].izquierda->0].inicio as nat),
                )
        }),
{
    let p4 = sp_declaraciones(prog)->Ok_0;
    let k5 = siguiente(p4.estado);
    let s5 = sp_rellenar(p4.estado, 0, k5)->Ok_0;
    let c = Contexto { variables: p4.variables, funciones: p4.funciones };
    let s6 = sp_cuerpo(prog.cuerpo, c, s5)->Ok_0;
    let r = sp_programa(prog)->Ok_0;
    assert(r.funciones == p4.funciones);
    assert(r.estado == con_llamadas_corregidas(s6, p4.funciones));
}

} // verus!
