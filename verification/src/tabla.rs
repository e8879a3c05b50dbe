//! Tablas por nombre (variables, constantes, funciones).
//!
//! Una tabla guarda sus entradas en orden de llegada; insertar una clave que ya
//! está reemplaza su valor. Su vista es el mapa de cada clave a su valor.

use vstd::prelude::*;

verus! {

/// El mapa que describe una lista de entradas: cada clave va al valor de su
/// última aparición.
pub open spec fn mapa_de<V>(s: Seq<(String, V)>) -> Map<Seq<char>, V>
    decreases s.len(),
{
    if s.len() == 0 {
        Map::empty()
    } else {
        mapa_de(s.drop_last()).insert(s.last().0@, s.last().1)
    }
}

/// Agregar una entrada al final es insertarla en el mapa.
pub proof fn lema_mapa_push<V>(s: Seq<(String, V)>, e: (String, V))
    ensures
        mapa_de(s.push(e)) == mapa_de(s).insert(e.0@, e.1),
{
    assert(s.push(e).drop_last() =~= s);
}

/// La última aparición de una clave da su valor en el mapa.
pub proof fn lema_mapa_encontrada<V>(s: Seq<(String, V)>, i: int)
    requires
        0 <= i < s.len(),
        forall|j: int| i < j < s.len() ==> (#[trigger] s[j]).0@ != s[i].0@,
    ensures
        mapa_de(s).dom().contains(s[i].0@),
        mapa_de(s)[s[i].0@] == s[i].1,
    decreases s.len(),
{
    if i != s.len() - 1 {
        let t = s.drop_last();
        assert(forall|j: int| i < j < t.len() ==> t[j] == s[j]);
        lema_mapa_encontrada(t, i);
    }
}

/// Una clave que no aparece no está en el mapa.
pub proof fn lema_mapa_ausente<V>(s: Seq<(String, V)>, k: Seq<char>)
    requires
        forall|j: int| 0 <= j < s.len() ==> (#[trigger] s[j]).0@ != k,
    ensures
        !mapa_de(s).dom().contains(k),
    decreases s.len(),
{
    if s.len() > 0 {
        let t = s.drop_last();
        assert(forall|j: int| 0 <= j < t.len() ==> t[j] == s[j]);
        lema_mapa_ausente(t, k);
    }
}

/// Reemplazar la última aparición de una clave cambia sólo su valor.
pub proof fn lema_mapa_reemplazo<V>(s: Seq<(String, V)>, i: int, e: (String, V))
    requires
        0 <= i < s.len(),
        e.0@ == s[i].0@,
        forall|j: int| i < j < s.len() ==> (#[trigger] s[j]).0@ != s[i].0@,
    ensures
        mapa_de(s.update(i, e)) == mapa_de(s).insert(e.0@, e.1),
    decreases s.len(),
{
    let u = s.update(i, e);
    if i == s.len() - 1 {
        assert(u.drop_last() =~= s.drop_last());
        assert(mapa_de(u) =~= mapa_de(s).insert(e.0@, e.1));
    } else {
        let t = s.drop_last();
        assert(u.drop_last() =~= t.update(i, e));
        assert(forall|j: int| i < j < t.len() ==> t[j] == s[j]);
        lema_mapa_reemplazo(t, i, e);
        assert(mapa_de(u) =~= mapa_de(s).insert(e.0@, e.1));
    }
}

/// Una tabla de valores por nombre.
#[derive(Debug, Clone)]
pub struct Tabla<V> {
    entradas: Vec<(String, V)>,
}

impl<V> Tabla<V> {
    /// Las entradas, en orden de llegada.
    pub closed spec fn lista(&self) -> Seq<(String, V)> {
        self.entradas@
    }

    /// El contenido de la tabla: cada nombre con su valor.
    pub open spec fn vista(&self) -> Map<Seq<char>, V> {
        mapa_de(self.lista())
    }

    /// Una tabla vacía.
    pub fn nueva() -> (r: Self)
        ensures
            r.vista() == Map::<Seq<char>, V>::empty(),
            r.lista().len() == 0,
    {
        Tabla { entradas: Vec::new() }
    }

    /// Las entradas, en orden de llegada.
    pub fn entradas(&self) -> (r: &Vec<(String, V)>)
        ensures
            r@ == self.lista(),
    {
        &self.entradas
    }

    /// El lugar de la última aparición de `clave`, si aparece.
    fn posicion(&self, clave: &str) -> (r: Option<usize>)
        ensures
            match r {
                Some(i) => {
                    &&& i < self.lista().len()
                    &&& self.lista()[i as int].0@ == clave@
                    &&& forall|j: int|
                        i < j < self.lista().len() ==> (#[trigger] self.lista()[j]).0@ != clave@
                },
                None => forall|j: int|
                    0 <= j < self.lista().len() ==> (#[trigger] self.lista()[j]).0@ != clave@,
            },
    {
        let c: String = clave.to_owned();
        let mut i = self.entradas.len();
        while i > 0
            invariant
                i <= self.entradas@.len(),
                c@ == clave@,
                forall|j: int|
                    i <= j < self.entradas@.len() ==> (#[trigger] self.entradas@[j]).0@ != clave@,
            decreases i,
        {
            i = i - 1;
            if self.entradas[i].0 == c {
                return Some(i);
            }
        }
        None
    }

    /// Si `clave` tiene un valor en la tabla.
    pub fn contiene(&self, clave: &str) -> (r: bool)
        ensures
            r == self.vista().dom().contains(clave@),
    {
        match self.posicion(clave) {
            Some(i) => {
                proof {
                    lema_mapa_encontrada(self.lista(), i as int);
                }
                true
            },
            None => {
                proof {
                    lema_mapa_ausente(self.lista(), clave@);
                }
                false
            },
        }
    }

    /// El valor de `clave`, si lo tiene.
    pub fn obtener(&self, clave: &str) -> (r: Option<&V>)
        ensures
            match r {
                Some(v) => self.vista().dom().contains(clave@) && self.vista()[clave@] == *v,
                None => !self.vista().dom().contains(clave@),
            },
    {
        match self.posicion(clave) {
            Some(i) => {
                proof {
                    lema_mapa_encontrada(self.lista(), i as int);
                }
                Some(&self.entradas[i].1)
            },
            None => {
                proof {
                    lema_mapa_ausente(self.lista(), clave@);
                }
                None
            },
        }
    }

    /// Da a `clave` el valor `valor`: reemplaza el que tuviera, o la agrega al final.
    pub fn insertar(&mut self, clave: String, valor: V)
        ensures
            final(self).vista() == old(self).vista().insert(clave@, valor),
    {
        match self.posicion(clave.as_str()) {
            Some(i) => {
                proof {
                    lema_mapa_reemplazo(self.lista(), i as int, (clave, valor));
                }
                self.entradas.set(i, (clave, valor));
            },
            None => {
                proof {
                    lema_mapa_push(self.lista(), (clave, valor));
                }
                self.entradas.push((clave, valor));
            },
        }
    }
}

impl Tabla<crate::tipos::VariableInfo> {
    /// Una copia de la tabla, con el mismo contenido.
    pub fn copia(&self) -> (r: Self)
        ensures
            r.vista() == self.vista(),
            r.lista() == self.lista(),
    {
        let mut v: Vec<(String, crate::tipos::VariableInfo)> = Vec::new();
        let n = self.entradas.len();
        for i in 0..n
            invariant
                n == self.entradas@.len(),
                v@ == self.entradas@.take(i as int),
        {
            let e = &self.entradas[i];
            let c = (e.0.clone(), e.1.copia());
            v.push(c);
            assert(
                self.entradas@.take(i + 1) =~= self.entradas@.take(i as int).push(
                    self.entradas@[i as int],
                )
            );
        }
        assert(self.entradas@.take(n as int) =~= self.entradas@);
        Tabla { entradas: v }
    }
}

impl Tabla<crate::compilador::FuncionMeta> {
    /// Fija el inicio de la función `clave`, si está; lo demás no cambia.
    pub fn fijar_inicio(&mut self, clave: &str, inicio: usize)
        ensures
            old(self).vista().dom().contains(clave@) ==> final(self).vista() == old(self).vista().insert(
                clave@,
                crate::compilador::FuncionMeta { inicio, ..old(self).vista()[clave@] },
            ),
            !old(self).vista().dom().contains(clave@) ==> final(self).vista() == old(self).vista(),
    {
        match self.posicion(clave) {
            Some(i) => {
                proof {
                    let e = (self.lista()[i as int].0, crate::compilador::FuncionMeta {
                        inicio,
                        ..self.lista()[i as int].1
                    });
                    lema_mapa_encontrada(self.lista(), i as int);
                    lema_mapa_reemplazo(self.lista(), i as int, e);
                }
                self.entradas[i].1.inicio = inicio;
                assert(self.entradas@ =~= old(self).entradas@.update(
                    i as int,
                    (old(self).entradas@[i as int].0, crate::compilador::FuncionMeta {
                        inicio,
                        ..old(self).entradas@[i as int].1
                    }),
                ));
            },
            None => {
                proof {
                    lema_mapa_ausente(self.lista(), clave@);
                }
            },
        }
    }
}

} // verus!
