//! Propiedades de direcciones, cubo semántico, temporales, tablas y generador.

use vstd::prelude::*;

use crate::cubo::tipo_resultado;
use crate::direcciones::{AdministradorDirecciones, Segmento};
use crate::generador::{nombre_temporal, VistaGenerador};
use crate::tabla::Tabla;
use crate::texto::{decimal, texto_digito};
use crate::tipos::{es_numerico, operador_de_texto, ConstanteInfo, CuadruploVista, Operador, Tipo};

verus! {

/// Dos direcciones pedidas una tras otra al mismo segmento con el mismo tipo
/// son consecutivas: la segunda es la primera más uno.
pub proof fn ley_direcciones_consecutivas(a: AdministradorDirecciones, s: Segmento, t: Tipo)
    requires
        a.puede_dar(s, t),
    ensures
        a.tras_dar(s, t).contador(s, t) == Some((a.contador(s, t)->0 + 1) as usize),
{
}

/// Pedir una dirección a un segmento con un tipo no cambia ningún otro contador.
pub proof fn ley_contadores_independientes(
    a: AdministradorDirecciones,
    s: Segmento,
    t: Tipo,
    s2: Segmento,
    t2: Tipo,
)
    requires
        a.puede_dar(s, t),
        s != s2 || t != t2,
    ensures
        a.tras_dar(s, t).contador(s2, t2) == a.contador(s2, t2),
{
}

/// La primera dirección del segmento `s` para el tipo `t`.
pub open spec fn base(s: Segmento, t: Tipo) -> Option<nat> {
    match AdministradorDirecciones::inicial().contador(s, t) {
        Some(c) => Some(c as nat),
        None => None,
    }
}

/// Los rangos de los segmentos no se enciman: mientras cada uno dé menos de mil
/// direcciones, dos direcciones de segmentos o tipos distintos son distintas.
pub proof fn ley_segmentos_disjuntos(s: Segmento, t: Tipo, d: nat, s2: Segmento, t2: Tipo, d2: nat)
    requires
        base(s, t) is Some,
        base(s2, t2) is Some,
        s != s2 || t != t2,
        base(s, t)->0 <= d < base(s, t)->0 + 1000,
        base(s2, t2)->0 <= d2 < base(s2, t2)->0 + 1000,
    ensures
        d != d2,
{
}

/// Los operadores aritméticos y relacionales no dependen del orden de sus operandos.
pub proof fn ley_cubo_simetrico(izq: Tipo, op: Seq<char>, der: Tipo)
    requires
        op != "="@,
    ensures
        tipo_resultado(izq, op, der) == tipo_resultado(der, op, izq),
{
}

/// Sólo los tipos numéricos se combinan, y nunca dan `Void`.
pub proof fn ley_cubo_solo_numericos(izq: Tipo, op: Seq<char>, der: Tipo)
    ensures
        tipo_resultado(izq, op, der) != Tipo::Error ==> es_numerico(izq) && es_numerico(der),
        tipo_resultado(izq, op, der) != Tipo::Void,
{
}

/// Un operador relacional da `Bool` con dos números y `Error` con cualquier
/// otra cosa; uno aritmético da siempre un número o `Error`.
pub proof fn ley_cubo_relacionales(izq: Tipo, op: Seq<char>, der: Tipo)
    ensures
        operador_de_texto(op) matches Some(o) && (o == Operador::Mayor || o == Operador::Menor
            || o == Operador::MayorIgual || o == Operador::MenorIgual || o == Operador::IgualIgual
            || o == Operador::Diferente) ==> tipo_resultado(izq, op, der) == (if es_numerico(izq)
            && es_numerico(der) {
            Tipo::Bool
        } else {
            Tipo::Error
        }),
        operador_de_texto(op) matches Some(o) && (o == Operador::Suma || o == Operador::Resta
            || o == Operador::Multiplicacion || o == Operador::Division) ==> tipo_resultado(
            izq,
            op,
            der,
        ) != Tipo::Bool,
{
}

proof fn lema_digito(d: nat)
    requires
        d < 10,
    ensures
        texto_digito(d).len() == 1,
        forall|e: nat| e < 10 && e != d ==> texto_digito(e) != texto_digito(d),
{
    reveal_strlit("0");
    reveal_strlit("1");
    reveal_strlit("2");
    reveal_strlit("3");
    reveal_strlit("4");
    reveal_strlit("5");
    reveal_strlit("6");
    reveal_strlit("7");
    reveal_strlit("8");
    reveal_strlit("9");
    assert forall|e: nat| e < 10 && e != d implies texto_digito(e) != texto_digito(d) by {
        assert(texto_digito(e)[0] != texto_digito(d)[0]);
    }
}

proof fn lema_decimal_largo(n: nat)
    ensures
        decimal(n).len() >= 1,
        n >= 10 ==> decimal(n).len() >= 2,
        n >= 10 ==> decimal(n).drop_last() == decimal(n / 10),
        decimal(n).last() == texto_digito(n % 10)[0],
    decreases n,
{
    lema_digito(n % 10);
    if n >= 10 {
        lema_decimal_largo(n / 10);
        assert((decimal(n / 10) + texto_digito(n % 10)).drop_last() =~= decimal(n / 10));
    }
}

/// Dos números distintos se escriben distinto.
pub proof fn lema_decimal_inyectivo(a: nat, b: nat)
    requires
        decimal(a) == decimal(b),
    ensures
        a == b,
    decreases a,
{
    lema_decimal_largo(a);
    lema_decimal_largo(b);
    lema_digito(a % 10);
    lema_digito(b % 10);
    if a >= 10 && b >= 10 {
        lema_decimal_inyectivo(a / 10, b / 10);
    }
    if a % 10 != b % 10 {
        assert(texto_digito(a % 10) != texto_digito(b % 10));
        assert(texto_digito(a % 10) == seq![texto_digito(a % 10)[0]]);
        assert(texto_digito(b % 10) == seq![texto_digito(b % 10)[0]]);
    }
}

/// Dos temporales con número distinto tienen nombre distinto: los que da un
/// generador nunca se repiten.
pub proof fn ley_temporales_distintos(n: nat, m: nat)
    requires
        n != m,
    ensures
        nombre_temporal(n) != nombre_temporal(m),
{
    if nombre_temporal(n) == nombre_temporal(m) {
        reveal_strlit("t");
        assert(nombre_temporal(n).drop_first() =~= decimal(n));
        assert(nombre_temporal(m).drop_first() =~= decimal(m));
        lema_decimal_inyectivo(n, m);
    }
}

/// Lo que se inserta en una tabla es lo que después se obtiene de ella; las
/// demás claves no cambian.
pub proof fn ley_tabla_lee_lo_escrito<V>(t: Tabla<V>, k: Seq<char>, v: V, otra: Seq<char>)
    requires
        otra != k,
    ensures
        t.vista().insert(k, v).dom().contains(k),
        t.vista().insert(k, v)[k] == v,
        t.vista().insert(k, v).dom().contains(otra) == t.vista().dom().contains(otra),
        t.vista().dom().contains(otra) ==> t.vista().insert(k, v)[otra] == t.vista()[otra],
{
}

/// Una constante ya registrada conserva su dirección: registrarla otra vez
/// encuentra la misma dirección (y, por el contrato de `registrar_constante`,
/// no pide otra).
pub proof fn ley_constante_registrada(
    constantes: Map<Seq<char>, ConstanteInfo>,
    valor: String,
    tipo: Tipo,
    d: usize,
)
    ensures
        ({
            let despues = constantes.insert(valor@, ConstanteInfo { valor, tipo, direccion: Some(d) });
            &&& despues.dom().contains(valor@)
            &&& despues[valor@].direccion == Some(d)
        }),
{
}

/// Un salto generado y luego rellenado con `destino` salta a `destino`; los
/// demás cuádruplos no cambian.
pub proof fn ley_salto_rellenado(g: VistaGenerador, i: int, destino: nat, j: int)
    requires
        0 <= i < g.codigo.len(),
        g.codigo[i].operador == Operador::Goto || g.codigo[i].operador == Operador::GotoF,
        0 <= j < g.codigo.len(),
        j != i,
    ensures
        ({
            let c = g.codigo.update(
                i,
                CuadruploVista { resultado: Some(decimal(destino)), ..g.codigo[i] },
            );
            &&& c[i].operador == g.codigo[i].operador
            &&& c[i].izquierda == g.codigo[i].izquierda
            &&& c[i].resultado == Some(decimal(destino))
            &&& c[j] == g.codigo[j]
            &&& c.len() == g.codigo.len()
        }),
{
}

/// Los contadores tras atender, en orden, una lista de pedidos de dirección
/// (segmento y tipo).
pub open spec fn tras_pedidos(a: AdministradorDirecciones, ps: Seq<(Segmento, Tipo)>) -> AdministradorDirecciones
    decreases ps.len(),
{
    if ps.len() == 0 {
        a
    } else {
        tras_pedidos(a, ps.drop_last()).tras_dar(ps.last().0, ps.last().1)
    }
}

/// La dirección que recibe el pedido `i` de la lista, atendida desde `a`.
pub open spec fn direccion_pedida(a: AdministradorDirecciones, ps: Seq<(Segmento, Tipo)>, i: int) -> nat {
    tras_pedidos(a, ps.take(i)).contador(ps[i].0, ps[i].1)->0 as nat
}

/// Cuántas veces aparece el pedido `k` en la lista.
pub open spec fn veces(ps: Seq<(Segmento, Tipo)>, k: (Segmento, Tipo)) -> nat
    decreases ps.len(),
{
    if ps.len() == 0 {
        0
    } else {
        veces(ps.drop_last(), k) + if ps.last() == k {
            1nat
        } else {
            0nat
        }
    }
}

proof fn lema_veces_prefijo(ps: Seq<(Segmento, Tipo)>, k: (Segmento, Tipo), n: nat, m: nat)
    requires
        n <= m <= ps.len(),
    ensures
        veces(ps.take(n as int), k) <= veces(ps.take(m as int), k),
    decreases m - n,
{
    if n < m {
        lema_veces_prefijo(ps, k, n, (m - 1) as nat);
        assert(ps.take(m as int).drop_last() =~= ps.take(m - 1));
    }
}

proof fn lema_contador_pedidos(ps: Seq<(Segmento, Tipo)>, n: nat, s: Segmento, t: Tipo)
    requires
        n <= ps.len(),
        base(s, t) is Some,
        forall|i: int| 0 <= i < ps.len() ==> (#[trigger] base(ps[i].0, ps[i].1)) is Some,
        forall|k: (Segmento, Tipo)| #[trigger] veces(ps, k) < 1000,
    ensures
        tras_pedidos(AdministradorDirecciones::inicial(), ps.take(n as int)).contador(s, t) == Some(
            (base(s, t)->0 + veces(ps.take(n as int), (s, t))) as usize,
        ),
        veces(ps.take(n as int), (s, t)) < 1000,
    decreases n,
{
    let a0 = AdministradorDirecciones::inicial();
    lema_veces_prefijo(ps, (s, t), n, ps.len());
    assert(ps.take(ps.len() as int) =~= ps);
    assert(veces(ps, (s, t)) < 1000);
    if n == 0 {
        assert(ps.take(0) =~= Seq::<(Segmento, Tipo)>::empty());
    } else {
        let prev = ps.take(n - 1);
        assert(ps.take(n as int).drop_last() =~= prev);
        let (s2, t2) = ps[n - 1];
        assert(base(s2, t2) is Some);
        lema_contador_pedidos(ps, (n - 1) as nat, s, t);
        lema_contador_pedidos(ps, (n - 1) as nat, s2, t2);
        let a = tras_pedidos(a0, prev);
        assert(a.puede_dar(s2, t2));
        if s == s2 && t == t2 {
            ley_direcciones_consecutivas(a, s, t);
        } else {
            ley_contadores_independientes(a, s2, t2, s, t);
        }
    }
}

/// Todas las direcciones que se piden desde el comienzo son distintas y quedan
/// en el rango de su segmento y tipo: mientras cada contador dé menos de mil
/// direcciones, cualquier lista de pedidos a `nueva_global`, `nueva_local`,
/// `nueva_temporal` y `nueva_constante` (con tipos que el segmento admite)
/// puede atenderse, la dirección `i` está entre la base de su segmento y esa
/// base más mil, y dos pedidos distintos reciben direcciones distintas.
pub proof fn ley_direcciones_distintas(ps: Seq<(Segmento, Tipo)>)
    requires
        forall|i: int| 0 <= i < ps.len() ==> (#[trigger] base(ps[i].0, ps[i].1)) is Some,
        forall|k: (Segmento, Tipo)| #[trigger] veces(ps, k) < 1000,
    ensures
        forall|i: int|
            0 <= i < ps.len() ==> #[trigger] tras_pedidos(
                AdministradorDirecciones::inicial(),
                ps.take(i),
            ).puede_dar(ps[i].0, ps[i].1),
        forall|i: int|
            0 <= i < ps.len() ==> base(ps[i].0, ps[i].1)->0 <= #[trigger] direccion_pedida(
                AdministradorDirecciones::inicial(),
                ps,
                i,
            ) < base(ps[i].0, ps[i].1)->0 + 1000,
        forall|i: int, j: int|
            0 <= i < j < ps.len() ==> #[trigger] direccion_pedida(
                AdministradorDirecciones::inicial(),
                ps,
                i,
            ) != #[trigger] direccion_pedida(AdministradorDirecciones::inicial(), ps, j),
{
    let a0 = AdministradorDirecciones::inicial();
    assert forall|i: int| 0 <= i < ps.len() implies #[trigger] tras_pedidos(a0, ps.take(i)).puede_dar(
        ps[i].0,
        ps[i].1,
    ) by {
        assert(base(ps[i].0, ps[i].1) is Some);
        lema_contador_pedidos(ps, i as nat, ps[i].0, ps[i].1);
    }
    assert forall|i: int| 0 <= i < ps.len() implies base(ps[i].0, ps[i].1)->0
        <= #[trigger] direccion_pedida(a0, ps, i) < base(ps[i].0, ps[i].1)->0 + 1000 by {
        assert(base(ps[i].0, ps[i].1) is Some);
        lema_contador_pedidos(ps, i as nat, ps[i].0, ps[i].1);
    }
    assert forall|i: int, j: int| 0 <= i < j < ps.len() implies #[trigger] direccion_pedida(
        a0,
        ps,
        i,
    ) != #[trigger] direccion_pedida(a0, ps, j) by {
        let (s, t) = ps[i];
        let (s2, t2) = ps[j];
        assert(base(s, t) is Some);
        assert(base(s2, t2) is Some);
        lema_contador_pedidos(ps, i as nat, s, t);
        lema_contador_pedidos(ps, j as nat, s2, t2);
        if s == s2 && t == t2 {
            lema_contador_pedidos(ps, (i + 1) as nat, s, t);
            assert(ps.take(i + 1).drop_last() =~= ps.take(i));
            assert(ps.take(i + 1).last() == ps[i]);
            lema_veces_prefijo(ps, (s, t), (i + 1) as nat, j as nat);
        } else {
            ley_segmentos_disjuntos(
                s,
                t,
                direccion_pedida(a0, ps, i),
                s2,
                t2,
                direccion_pedida(a0, ps, j),
            );
        }
    }
}

} // verus!
