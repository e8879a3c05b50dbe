//! Leyes del código que se genera para llamadas, ciclos y cuerpos de funciones.

use vstd::prelude::*;

use crate::arbol::{Estatuto, Expresion, Factor, Funcion, Llamada};
use crate::generador::cuadruplo;
use crate::leyes_traduccion::{lema_cuerpo, lema_expresion};
use crate::semantica::mensaje_no_declarada;
use crate::texto::decimal;
use crate::tipos::Operador;
use crate::traduccion::{
    sp_argumentos, sp_ciclo, sp_cuerpo, sp_expresion, sp_funcion, sp_locales,
    sp_preparar_llamada, siguiente, Contexto, Estado, EstadoPrograma, MetaVista,
    ParametroVista, Registro,
};

verus! {

// ---------------------------------------------------------------------------
// Llamadas: el argumento `k` va al parámetro `k`.

/// El estado tras los primeros `i` argumentos de una llamada.
pub open spec fn tras_argumentos(
    nombre: Seq<char>,
    a: Seq<Expresion>,
    i: nat,
    m: MetaVista,
    c: Contexto,
    s: Estado,
) -> Estado {
    sp_argumentos(nombre, a, i, m, c, s)->Ok_0
}

/// Dónde queda el `Param` del argumento `k`: el último cuádruplo tras los
/// primeros `k + 1` argumentos.
pub open spec fn lugar_param(
    nombre: Seq<char>,
    a: Seq<Expresion>,
    k: nat,
    m: MetaVista,
    c: Contexto,
    s: Estado,
) -> int {
    tras_argumentos(nombre, a, k + 1, m, c, s).generador.codigo.len() - 1
}

proof fn lema_params(
    nombre: Seq<char>,
    a: Seq<Expresion>,
    i: nat,
    m: MetaVista,
    c: Contexto,
    s: Estado,
)
    requires
        i <= a.len(),
        sp_argumentos(nombre, a, i, m, c, s) is Ok,
    ensures
        i <= m.parametros.len(),
        s.generador.codigo.len() <= tras_argumentos(nombre, a, i, m, c, s).generador.codigo.len(),
        forall|j: int|
            0 <= j < s.generador.codigo.len() ==> tras_argumentos(nombre, a, i, m, c, s).generador.codigo[j]
                == s.generador.codigo[j],
        forall|k: nat|
            k < i ==> {
                let r = tras_argumentos(nombre, a, i, m, c, s).generador.codigo;
                let lugar = #[trigger] lugar_param(nombre, a, k, m, c, s);
                &&& sp_argumentos(nombre, a, k + 1, m, c, s) is Ok
                &&& s.generador.codigo.len() <= tras_argumentos(nombre, a, k, m, c, s).generador.codigo.len() <= lugar
                &&& lugar < r.len()
                &&& r[lugar].operador == Operador::Param
                &&& r[lugar].resultado == Some(decimal(m.parametros[k as int].2 as nat))
            },
    decreases i,
{
    if i > 0 {
        lema_params(nombre, a, (i - 1) as nat, m, c, s);
        let s1 = tras_argumentos(nombre, a, (i - 1) as nat, m, c, s);
        lema_expresion(a[i - 1], c, s1);
        let s2 = sp_expresion(a[i - 1], c, s1)->Ok_0;
        let r = tras_argumentos(nombre, a, i, m, c, s);
        assert(r.generador.codigo == s2.generador.codigo.push(
            cuadruplo(
                Operador::Param,
                Some(s2.generador.operandos.last()),
                None,
                Some(decimal(m.parametros[i - 1].2 as nat)),
            ),
        ));
        assert forall|k: nat| k < i implies {
            let rc = r.generador.codigo;
            let lugar = #[trigger] lugar_param(nombre, a, k, m, c, s);
            &&& sp_argumentos(nombre, a, k + 1, m, c, s) is Ok
            &&& s.generador.codigo.len() <= tras_argumentos(nombre, a, k, m, c, s).generador.codigo.len() <= lugar
            &&& lugar < rc.len()
            &&& rc[lugar].operador == Operador::Param
            &&& rc[lugar].resultado == Some(decimal(m.parametros[k as int].2 as nat))
        } by {
            if k + 1 == i {
                assert(lugar_param(nombre, a, k, m, c, s) == r.generador.codigo.len() - 1);
            } else {
                let l = lugar_param(nombre, a, k, m, c, s);
                assert(s1.generador.codigo[l] == r.generador.codigo[l]);
            }
        }
    }
}

/// Los argumentos de una llamada van a sus parámetros en orden: para una
/// llamada con argumentos e1..en a una función con parámetros p1..pn, el
/// código que se agrega tiene, en orden, un `Param` por argumento, y el del
/// argumento `k` lleva la dirección local del parámetro `k`.
#[verifier::spinoff_prover]
pub proof fn ley_argumento_k_al_parametro_k(l: Llamada, c: Contexto, s: Estado)
    requires
        sp_preparar_llamada(l, c, s) is Ok,
    ensures
        ({
            let m = c.funciones[l.nombre@];
            let r = sp_preparar_llamada(l, c, s)->Ok_0.generador.codigo;
            let n = m.parametros.len();
            &&& c.funciones.dom().contains(l.nombre@)
            &&& l.argumentos@.len() == n
            &&& exists|lugares: Seq<int>|
                {
                    &&& lugares.len() == n
                    &&& forall|k: int|
                        0 <= k < n ==> s.generador.codigo.len() < #[trigger] lugares[k] < r.len()
                    &&& forall|j: int, k: int| 0 <= j < k < n ==> lugares[j] < lugares[k]
                    &&& forall|k: int|
                        0 <= k < n ==> r[#[trigger] lugares[k]].operador == Operador::Param
                            && r[lugares[k]].resultado == Some(decimal(m.parametros[k].2 as nat))
                }
        }),
{
    let m = c.funciones[l.nombre@];
    let a = l.argumentos@;
    let n = a.len();
    let s1 = crate::traduccion::emitir(
        s,
        cuadruplo(Operador::Era, None, None, Some(l.nombre@)),
    );
    assert(c.funciones.dom().contains(l.nombre@));
    assert(sp_argumentos(l.nombre@, a, n, m, c, s1) is Ok);
    assert(n == m.parametros.len());
    let r = sp_preparar_llamada(l, c, s)->Ok_0.generador.codigo;
    assert(r == tras_argumentos(l.nombre@, a, n, m, c, s1).generador.codigo);
    lema_params(l.nombre@, a, n, m, c, s1);
    let lugares = Seq::new(n, |k: int| lugar_param(l.nombre@, a, k as nat, m, c, s1));
    assert forall|j: int, k: int| 0 <= j < k < n implies lugares[j] < lugares[k] by {
        assert(lugares[j] == lugar_param(l.nombre@, a, j as nat, m, c, s1));
        assert(lugares[k] == lugar_param(l.nombre@, a, k as nat, m, c, s1));
        lema_tras_crece(l.nombre@, a, (j + 1) as nat, k as nat, m, c, s1);
    }
    assert forall|k: int| 0 <= k < n implies s.generador.codigo.len() < #[trigger] lugares[k] < r.len() by {
        assert(lugar_param(l.nombre@, a, k as nat, m, c, s1) == lugares[k]);
    }
    assert forall|k: int| 0 <= k < n implies r[#[trigger] lugares[k]].operador == Operador::Param
        && r[lugares[k]].resultado == Some(decimal(m.parametros[k].2 as nat)) by {
        assert(lugar_param(l.nombre@, a, k as nat, m, c, s1) == lugares[k]);
    }
    assert(lugares.len() == n);
    assert({
        &&& lugares.len() == n
        &&& forall|k: int|
            0 <= k < n ==> s.generador.codigo.len() < #[trigger] lugares[k] < r.len()
        &&& forall|j: int, k: int| 0 <= j < k < n ==> lugares[j] < lugares[k]
        &&& forall|k: int|
            0 <= k < n ==> r[#[trigger] lugares[k]].operador == Operador::Param
                && r[lugares[k]].resultado == Some(decimal(m.parametros[k].2 as nat))
    });
}

proof fn lema_tras_crece(
    nombre: Seq<char>,
    a: Seq<Expresion>,
    i: nat,
    k: nat,
    m: MetaVista,
    c: Contexto,
    s: Estado,
)
    requires
        i <= k <= a.len(),
        sp_argumentos(nombre, a, k, m, c, s) is Ok,
    ensures
        sp_argumentos(nombre, a, i, m, c, s) is Ok,
        tras_argumentos(nombre, a, i, m, c, s).generador.codigo.len() <= tras_argumentos(
            nombre,
            a,
            k,
            m,
            c,
            s,
        ).generador.codigo.len(),
    decreases k - i,
{
    if i < k {
        lema_tras_crece(nombre, a, i, (k - 1) as nat, m, c, s);
        let s1 = tras_argumentos(nombre, a, (k - 1) as nat, m, c, s);
        lema_expresion(a[k - 1], c, s1);
    }
}

// ---------------------------------------------------------------------------
// Ciclos: se vuelve a evaluar la condición.

proof fn lema_codigo_ciclo(s: Estado, s1: Estado, s2: Estado, s3: Estado, s5: Estado)
    requires
        crate::leyes_traduccion::extiende(s, s1),
        crate::traduccion::sp_gotof(s1) is Ok,
        s2 == crate::traduccion::sp_gotof(s1)->Ok_0,
        crate::leyes_traduccion::extiende(s2, s3),
        crate::traduccion::sp_rellenar(
            crate::traduccion::sp_goto(s3, siguiente(s)),
            siguiente(s1),
            siguiente(crate::traduccion::sp_goto(s3, siguiente(s))),
        ) is Ok,
        s5 == crate::traduccion::sp_rellenar(
            crate::traduccion::sp_goto(s3, siguiente(s)),
            siguiente(s1),
            siguiente(crate::traduccion::sp_goto(s3, siguiente(s))),
        )->Ok_0,
    ensures
        ({
            let r = s5.generador.codigo;
            let inicio = siguiente(s);
            &&& r.len() >= inicio + 2
            &&& r[r.len() - 1] == cuadruplo(Operador::Goto, None, None, Some(decimal(inicio)))
            &&& exists|falso: int|
                inicio <= falso < r.len() - 1 && (#[trigger] r[falso]).operador == Operador::GotoF
                    && r[falso].resultado == Some(decimal(r.len() as nat))
            &&& forall|j: int| 0 <= j < inicio ==> r[j] == s.generador.codigo[j]
        }),
{
    let falso = siguiente(s1) as int;
    let r = s5.generador.codigo;
    assert(s2.generador.codigo[falso].operador == Operador::GotoF);
    assert(s3.generador.codigo[falso] == s2.generador.codigo[falso]);
    assert(r[falso].operador == Operador::GotoF);
    assert(r[falso].resultado == Some(decimal(r.len() as nat)));
    assert forall|j: int| 0 <= j < siguiente(s) implies r[j] == s.generador.codigo[j] by {
        assert(s1.generador.codigo[j] == s.generador.codigo[j]);
        assert(s2.generador.codigo[j] == s1.generador.codigo[j]);
        assert(s3.generador.codigo[j] == s2.generador.codigo[j]);
    }
}

/// Un ciclo vuelve a evaluar su condición en cada vuelta y sale al terminar:
/// su último cuádruplo es un `Goto` al primer cuádruplo que se generó para la
/// condición (el índice del siguiente cuádruplo antes de compilarla), y entre
/// ese punto y el `Goto` hay un salto en falso que lleva justo después del
/// ciclo. El código anterior al ciclo no cambia.
#[verifier::spinoff_prover]
pub proof fn ley_ciclo_vuelve_a_su_condicion(st: Estatuto, c: Contexto, s: Estado)
    requires
        sp_ciclo(st, c, s) is Ok,
    ensures
        ({
            let r = sp_ciclo(st, c, s)->Ok_0.generador.codigo;
            let inicio = siguiente(s);
            &&& r.len() >= inicio + 2
            &&& r[r.len() - 1] == cuadruplo(Operador::Goto, None, None, Some(decimal(inicio)))
            &&& exists|falso: int|
                inicio <= falso < r.len() - 1 && (#[trigger] r[falso]).operador == Operador::GotoF
                    && r[falso].resultado == Some(decimal(r.len() as nat))
            &&& forall|j: int| 0 <= j < inicio ==> r[j] == s.generador.codigo[j]
        }),
{
    match st {
        Estatuto::Ciclo(e, cu) => {
            lema_expresion(e, c, s);
            let s1 = sp_expresion(e, c, s)->Ok_0;
            let s2 = crate::traduccion::sp_gotof(s1)->Ok_0;
            lema_cuerpo(cu, c, s2);
            let s3 = sp_cuerpo(cu, c, s2)->Ok_0;
            let s5 = sp_ciclo(st, c, s)->Ok_0;
            lema_codigo_ciclo(s, s1, s2, s3, s5);
        },
        _ => {},
    }
}

// ---------------------------------------------------------------------------
// Condiciones: el salto en falso va al `sino` (o a lo que sigue), y el `si`
// salta por encima del `sino`.

proof fn lema_codigo_si(s: Estado, s1: Estado, s2: Estado, s3: Estado, r: Estado)
    requires
        crate::leyes_traduccion::extiende(s, s1),
        crate::traduccion::sp_gotof(s1) is Ok,
        s2 == crate::traduccion::sp_gotof(s1)->Ok_0,
        crate::leyes_traduccion::extiende(s2, s3),
        crate::traduccion::sp_rellenar(s3, siguiente(s1), siguiente(s3)) is Ok,
        r == crate::traduccion::sp_rellenar(s3, siguiente(s1), siguiente(s3))->Ok_0,
    ensures
        ({
            let q = r.generador.codigo;
            &&& exists|falso: int|
                siguiente(s) <= falso < q.len() && (#[trigger] q[falso]).operador == Operador::GotoF
                    && q[falso].resultado == Some(decimal(q.len() as nat))
            &&& forall|j: int| 0 <= j < siguiente(s) ==> q[j] == s.generador.codigo[j]
        }),
{
    let falso = siguiente(s1) as int;
    let q = r.generador.codigo;
    assert(s2.generador.codigo[falso].operador == Operador::GotoF);
    assert(s3.generador.codigo[falso] == s2.generador.codigo[falso]);
    assert(q[falso].operador == Operador::GotoF);
    assert forall|j: int| 0 <= j < siguiente(s) implies q[j] == s.generador.codigo[j] by {
        assert(s1.generador.codigo[j] == s.generador.codigo[j]);
        assert(s2.generador.codigo[j] == s1.generador.codigo[j]);
        assert(s3.generador.codigo[j] == s2.generador.codigo[j]);
    }
}

proof fn lema_codigo_si_sino(
    s: Estado,
    s1: Estado,
    s2: Estado,
    s3: Estado,
    s5: Estado,
    s6: Estado,
    r: Estado,
)
    requires
        crate::leyes_traduccion::extiende(s, s1),
        crate::traduccion::sp_gotof(s1) is Ok,
        s2 == crate::traduccion::sp_gotof(s1)->Ok_0,
        crate::leyes_traduccion::extiende(s2, s3),
        crate::traduccion::sp_rellenar(
            crate::traduccion::sp_goto(s3, 0),
            siguiente(s1),
            siguiente(s3) + 1,
        ) is Ok,
        s5 == crate::traduccion::sp_rellenar(
            crate::traduccion::sp_goto(s3, 0),
            siguiente(s1),
            siguiente(s3) + 1,
        )->Ok_0,
        crate::leyes_traduccion::extiende(s5, s6),
        crate::traduccion::sp_rellenar(s6, siguiente(s3), siguiente(s6)) is Ok,
        r == crate::traduccion::sp_rellenar(s6, siguiente(s3), siguiente(s6))->Ok_0,
    ensures
        ({
            let q = r.generador.codigo;
            &&& exists|falso: int, fin: int|
                siguiente(s) <= falso < fin < q.len() && (#[trigger] q[falso]).operador
                    == Operador::GotoF && q[falso].resultado == Some(decimal((fin + 1) as nat))
                    && (#[trigger] q[fin]).operador == Operador::Goto && q[fin].resultado == Some(
                    decimal(q.len() as nat),
                )
            &&& forall|j: int| 0 <= j < siguiente(s) ==> q[j] == s.generador.codigo[j]
        }),
{
    let falso = siguiente(s1) as int;
    let fin = siguiente(s3) as int;
    let q = r.generador.codigo;
    let s4 = crate::traduccion::sp_goto(s3, 0);
    assert(s2.generador.codigo[falso].operador == Operador::GotoF);
    assert(s3.generador.codigo[falso] == s2.generador.codigo[falso]);
    assert(s4.generador.codigo[falso] == s3.generador.codigo[falso]);
    assert(s5.generador.codigo[falso].operador == Operador::GotoF);
    assert(s6.generador.codigo[falso] == s5.generador.codigo[falso]);
    assert(q[falso] == s6.generador.codigo[falso]);
    assert(s5.generador.codigo[fin] == s4.generador.codigo[fin]);
    assert(s6.generador.codigo[fin] == s5.generador.codigo[fin]);
    assert(q[fin].operador == Operador::Goto);
    assert forall|j: int| 0 <= j < siguiente(s) implies q[j] == s.generador.codigo[j] by {
        assert(s1.generador.codigo[j] == s.generador.codigo[j]);
        assert(s2.generador.codigo[j] == s1.generador.codigo[j]);
        assert(s3.generador.codigo[j] == s2.generador.codigo[j]);
        assert(s5.generador.codigo[j] == s3.generador.codigo[j]);
        assert(s6.generador.codigo[j] == s5.generador.codigo[j]);
    }
}

/// Un `si` salta en falso por encima de su cuerpo: sin `sino`, el salto en
/// falso lleva a lo que sigue del `si`; con `sino`, lleva justo después del
/// `Goto` que cierra el cuerpo del `si` (al primer cuádruplo del `sino`), y
/// ese `Goto` lleva a lo que sigue de todo el estatuto. El código anterior no
/// cambia.
#[verifier::spinoff_prover]
pub proof fn ley_si_salta_sobre_su_cuerpo(st: Estatuto, c: Contexto, s: Estado)
    requires
        crate::traduccion::sp_condicion(st, c, s) is Ok,
    ensures
        ({
            let q = crate::traduccion::sp_condicion(st, c, s)->Ok_0.generador.codigo;
            &&& forall|j: int| 0 <= j < siguiente(s) ==> q[j] == s.generador.codigo[j]
            &&& st matches Estatuto::Condicion(_, _, None) ==> exists|falso: int|
                siguiente(s) <= falso < q.len() && (#[trigger] q[falso]).operador == Operador::GotoF
                    && q[falso].resultado == Some(decimal(q.len() as nat))
            &&& st matches Estatuto::Condicion(_, _, Some(_)) ==> exists|falso: int, fin: int|
                siguiente(s) <= falso < fin < q.len() && (#[trigger] q[falso]).operador
                    == Operador::GotoF && q[falso].resultado == Some(decimal((fin + 1) as nat))
                    && (#[trigger] q[fin]).operador == Operador::Goto && q[fin].resultado == Some(
                    decimal(q.len() as nat),
                )
        }),
{
    match st {
        Estatuto::Condicion(e, a, b) => {
            lema_expresion(e, c, s);
            let s1 = sp_expresion(e, c, s)->Ok_0;
            let s2 = crate::traduccion::sp_gotof(s1)->Ok_0;
            lema_cuerpo(a, c, s2);
            let s3 = sp_cuerpo(a, c, s2)->Ok_0;
            let r = crate::traduccion::sp_condicion(st, c, s)->Ok_0;
            match b {
                Some(otro) => {
                    let s4 = crate::traduccion::sp_goto(s3, 0);
                    let s5 = crate::traduccion::sp_rellenar(s4, siguiente(s1), siguiente(s4))->Ok_0;
                    lema_cuerpo(otro, c, s5);
                    let s6 = sp_cuerpo(otro, c, s5)->Ok_0;
                    lema_codigo_si_sino(s, s1, s2, s3, s5, s6, r);
                },
                None => {
                    lema_codigo_si(s, s1, s2, s3, r);
                },
            }
        },
        _ => {},
    }
}

// ---------------------------------------------------------------------------
// Cuerpos de funciones: ven las variables globales y sus parámetros.

/// El índice del último parámetro que se llama `n`, si lo hay.
pub open spec fn ultimo_con_nombre(ps: Seq<ParametroVista>, n: Seq<char>) -> Option<nat>
    decreases ps.len(),
{
    if ps.len() == 0 {
        None
    } else if ps.last().0 == n {
        Some((ps.len() - 1) as nat)
    } else {
        ultimo_con_nombre(ps.drop_last(), n)
    }
}

proof fn lema_locales(vars: Map<Seq<char>, Registro>, ps: Seq<ParametroVista>, i: nat, n: Seq<char>)
    requires
        i <= ps.len(),
    ensures
        match ultimo_con_nombre(ps.take(i as int), n) {
            Some(k) => k < i && ps[k as int].0 == n && sp_locales(vars, ps, i).dom().contains(n)
                && sp_locales(vars, ps, i)[n] == (ps[k as int].0, ps[k as int].1, Some(ps[k as int].2)),
            None => sp_locales(vars, ps, i).dom().contains(n) == vars.dom().contains(n) && (
            vars.dom().contains(n) ==> sp_locales(vars, ps, i)[n] == vars[n]),
        },
    decreases i,
{
    if i > 0 {
        lema_locales(vars, ps, (i - 1) as nat, n);
        assert(ps.take(i as int).drop_last() =~= ps.take(i - 1));
        assert(ps.take(i as int).last() == ps[i - 1]);
    }
}

/// El estatuto `return n;`.
pub open spec fn es_retorno_de_variable(st: Estatuto, n: Seq<char>) -> bool {
    match st {
        Estatuto::Retorno(e) => {
            &&& e.relacional is None
            &&& e.izquierda.resto@.len() == 0
            &&& e.izquierda.primero.resto@.len() == 0
            &&& match e.izquierda.primero.primero {
                Factor::Id(x) => x@ == n,
                _ => false,
            }
        },
        _ => false,
    }
}

/// Las variables que ve el cuerpo de una función son las globales y sus
/// parámetros: en una función cuyo cuerpo es `return n;`, `n` se resuelve al
/// último parámetro que se llama así, si lo hay; si no, a la variable global
/// `n`; y sólo si tampoco es global, la función falla con "no declarada".
/// El valor regresado es el penúltimo cuádruplo de la función (el último es
/// `EndFunc`).
#[verifier::spinoff_prover]
pub proof fn ley_cuerpo_ve_globales_y_parametros(f: Funcion, p: EstadoPrograma, n: Seq<char>)
    requires
        p.funciones.dom().contains(f.nombre@),
        f.cuerpo is Some,
        f.cuerpo->0.estatutos@.len() == 1,
        es_retorno_de_variable(f.cuerpo->0.estatutos@[0], n),
    ensures
        ({
            let ps = p.funciones[f.nombre@].parametros;
            let r = sp_funcion(f, p);
            let devuelto = |d: usize|
                {
                    &&& r is Ok
                    &&& r->Ok_0.estado.generador.codigo.len() >= 2
                    &&& r->Ok_0.estado.generador.codigo[r->Ok_0.estado.generador.codigo.len() - 2]
                        == cuadruplo(Operador::Return, Some(decimal(d as nat)), None, None)
                };
            match ultimo_con_nombre(ps, n) {
                Some(k) => devuelto(ps[k as int].2),
                None => if p.variables.dom().contains(n) && p.variables[n].2 is Some {
                    devuelto(p.variables[n].2->0)
                } else {
                    r == Err::<EstadoPrograma, Seq<char>>(mensaje_no_declarada(n))
                },
            }
        }),
{
    let m = crate::traduccion::con_inicio(p.funciones[f.nombre@], siguiente(p.estado));
    let ps = m.parametros;
    lema_locales(p.variables, ps, ps.len(), n);
    assert(ps.take(ps.len() as int) =~= ps);
    let c = Contexto {
        variables: sp_locales(p.variables, ps, ps.len()),
        funciones: p.funciones.insert(f.nombre@, m),
    };
    let cu = f.cuerpo->0;
    let st = cu.estatutos@[0];
    let s0 = p.estado;
    assert(sp_cuerpo(cu, c, s0) == crate::traduccion::sp_estatuto(st, c, s0));
}

} // verus!
