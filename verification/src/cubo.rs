//! El cubo semántico: el tipo que resulta de aplicar un operador a dos tipos.

use vstd::prelude::*;

use crate::tipos::{es_numerico, operador_de_texto, Operador, Tipo};

verus! {

/// El tipo que da el operador `op` con operandos de tipos `izq` y `der`, si la
/// combinación es válida.
///
/// - `+ - *`: entero con entero da entero; si alguno es flotante, flotante.
/// - `/`: siempre flotante.
/// - `> < >= <= == !=`: booleano.
/// - `=`: a un entero sólo se le asigna un entero; a un flotante, entero o flotante.
/// Sólo los tipos numéricos (entero y flotante) se combinan.
pub open spec fn regla_cubo(izq: Tipo, op: Operador, der: Tipo) -> Option<Tipo> {
    if !(es_numerico(izq) && es_numerico(der)) {
        None
    } else {
        match op {
            Operador::Suma | Operador::Resta | Operador::Multiplicacion => Some(
                if izq == Tipo::Entero && der == Tipo::Entero {
                    Tipo::Entero
                } else {
                    Tipo::Flotante
                },
            ),
            Operador::Division => Some(Tipo::Flotante),
            Operador::Mayor | Operador::Menor | Operador::MayorIgual | Operador::MenorIgual
            | Operador::IgualIgual | Operador::Diferente => Some(Tipo::Bool),
            Operador::Asignacion => if izq == Tipo::Entero && der == Tipo::Flotante {
                None
            } else {
                Some(izq)
            },
            _ => None,
        }
    }
}

/// El tipo resultante de `izq op der` con el operador escrito como símbolo, o
/// `Error` si la combinación no es válida o el símbolo no es un operador.
pub open spec fn tipo_resultado(izq: Tipo, op: Seq<char>, der: Tipo) -> Tipo {
    match operador_de_texto(op) {
        Some(o) => match regla_cubo(izq, o, der) {
            Some(t) => t,
            None => Tipo::Error,
        },
        None => Tipo::Error,
    }
}

/// Una regla del cubo: `izquierda operador derecha` da `resultado`.
#[derive(Debug, Clone, Copy)]
pub struct ReglaCubo {
    pub izquierda: Tipo,
    pub operador: Operador,
    pub derecha: Tipo,
    pub resultado: Tipo,
}

/// El mapa que describe una lista de reglas; una regla posterior reemplaza a una
/// anterior con la misma clave.
pub open spec fn mapa_reglas(s: Seq<ReglaCubo>) -> Map<(Tipo, Operador, Tipo), Tipo>
    decreases s.len(),
{
    if s.len() == 0 {
        Map::empty()
    } else {
        let r = s.last();
        mapa_reglas(s.drop_last()).insert((r.izquierda, r.operador, r.derecha), r.resultado)
    }
}

/// El cubo completo, como mapa.
pub open spec fn cubo_estandar() -> Map<(Tipo, Operador, Tipo), Tipo> {
    Map::new(
        |k: (Tipo, Operador, Tipo)| regla_cubo(k.0, k.1, k.2) is Some,
        |k: (Tipo, Operador, Tipo)| regla_cubo(k.0, k.1, k.2)->0,
    )
}

proof fn lema_reglas_encontrada(s: Seq<ReglaCubo>, i: int)
    requires
        0 <= i < s.len(),
        forall|j: int|
            i < j < s.len() ==> !((#[trigger] s[j]).izquierda == s[i].izquierda && s[j].operador
                == s[i].operador && s[j].derecha == s[i].derecha),
    ensures
        mapa_reglas(s).dom().contains((s[i].izquierda, s[i].operador, s[i].derecha)),
        mapa_reglas(s)[(s[i].izquierda, s[i].operador, s[i].derecha)] == s[i].resultado,
    decreases s.len(),
{
    if i != s.len() - 1 {
        let t = s.drop_last();
        assert(forall|j: int| i < j < t.len() ==> t[j] == s[j]);
        lema_reglas_encontrada(t, i);
    }
}

proof fn lema_reglas_ausente(s: Seq<ReglaCubo>, k: (Tipo, Operador, Tipo))
    requires
        forall|j: int|
            0 <= j < s.len() ==> !((#[trigger] s[j]).izquierda == k.0 && s[j].operador == k.1
                && s[j].derecha == k.2),
    ensures
        !mapa_reglas(s).dom().contains(k),
    decreases s.len(),
{
    if s.len() > 0 {
        let t = s.drop_last();
        assert(forall|j: int| 0 <= j < t.len() ==> t[j] == s[j]);
        lema_reglas_ausente(t, k);
    }
}

fn agregar(v: &mut Vec<ReglaCubo>, izquierda: Tipo, operador: Operador, derecha: Tipo, resultado: Tipo)
    ensures
        mapa_reglas(final(v)@) == mapa_reglas(old(v)@).insert((izquierda, operador, derecha), resultado),
{
    let r = ReglaCubo { izquierda, operador, derecha, resultado };
    v.push(r);
    assert(v@.drop_last() =~= old(v)@);
}

/// Agrega las cuatro combinaciones numéricas de `operador`.
fn agregar_numericas(
    v: &mut Vec<ReglaCubo>,
    operador: Operador,
    ee: Tipo,
    ef: Tipo,
    fe: Tipo,
    ff: Tipo,
)
    ensures
        mapa_reglas(final(v)@) == mapa_reglas(old(v)@).insert(
            (Tipo::Entero, operador, Tipo::Entero),
            ee,
        ).insert((Tipo::Entero, operador, Tipo::Flotante), ef).insert(
            (Tipo::Flotante, operador, Tipo::Entero),
            fe,
        ).insert((Tipo::Flotante, operador, Tipo::Flotante), ff),
{
    agregar(v, Tipo::Entero, operador, Tipo::Entero, ee);
    agregar(v, Tipo::Entero, operador, Tipo::Flotante, ef);
    agregar(v, Tipo::Flotante, operador, Tipo::Entero, fe);
    agregar(v, Tipo::Flotante, operador, Tipo::Flotante, ff);
}

/// Las reglas de tipos de los operadores.
pub struct CuboSemantico {
    reglas: Vec<ReglaCubo>,
}

impl CuboSemantico {
    /// Las reglas del cubo son exactamente las de `regla_cubo`.
    #[verifier::type_invariant]
    spec fn completo(self) -> bool {
        mapa_reglas(self.reglas@) == cubo_estandar()
    }

    /// El cubo con todas las reglas del lenguaje.
    pub fn nuevo() -> (r: Self)
        ensures
            forall|izq: Tipo, op: Seq<char>, der: Tipo|
                #![trigger tipo_resultado(izq, op, der)]
                r.regla(izq, op, der) == tipo_resultado(izq, op, der),
    {
        let e = Tipo::Entero;
        let f = Tipo::Flotante;
        let b = Tipo::Bool;
        let mut reglas: Vec<ReglaCubo> = Vec::new();
        // aritméticos
        agregar_numericas(&mut reglas, Operador::Suma, e, f, f, f);
        agregar_numericas(&mut reglas, Operador::Resta, e, f, f, f);
        agregar_numericas(&mut reglas, Operador::Multiplicacion, e, f, f, f);
        // división
        agregar_numericas(&mut reglas, Operador::Division, f, f, f, f);
        // relacionales
        agregar_numericas(&mut reglas, Operador::Mayor, b, b, b, b);
        agregar_numericas(&mut reglas, Operador::Menor, b, b, b, b);
        agregar_numericas(&mut reglas, Operador::MayorIgual, b, b, b, b);
        agregar_numericas(&mut reglas, Operador::MenorIgual, b, b, b, b);
        agregar_numericas(&mut reglas, Operador::IgualIgual, b, b, b, b);
        agregar_numericas(&mut reglas, Operador::Diferente, b, b, b, b);
        // asignación
        agregar(&mut reglas, e, Operador::Asignacion, e, e);
        agregar(&mut reglas, f, Operador::Asignacion, f, f);
        agregar(&mut reglas, f, Operador::Asignacion, e, f);
        assert(mapa_reglas(reglas@) =~= cubo_estandar());
        CuboSemantico { reglas }
    }

    /// El tipo que el cubo da a `izq op der`, o `Error` si no tiene regla.
    pub closed spec fn regla(&self, izq: Tipo, op: Seq<char>, der: Tipo) -> Tipo {
        match operador_de_texto(op) {
            Some(o) => if mapa_reglas(self.reglas@).dom().contains((izq, o, der)) {
                mapa_reglas(self.reglas@)[(izq, o, der)]
            } else {
                Tipo::Error
            },
            None => Tipo::Error,
        }
    }

    /// El tipo resultante de `izquierda operador derecha`, o `Error` si la
    /// combinación no es válida.
    pub fn validar(&self, izquierda: Tipo, operador: &str, derecha: Tipo) -> (r: Tipo)
        ensures
            r == tipo_resultado(izquierda, operador@, derecha),
    {
        proof {
            use_type_invariant(self);
        }
        let op = Operador::desde_texto(operador);
        match op {
            None => Tipo::Error,
            Some(o) => {
                let mut i = self.reglas.len();
                while i > 0
                    invariant
                        i <= self.reglas@.len(),
                        mapa_reglas(self.reglas@) == cubo_estandar(),
                        operador_de_texto(operador@) == Some(o),
                        forall|j: int|
                            i <= j < self.reglas@.len() ==> !((#[trigger] self.reglas@[j]).izquierda
                                == izquierda && self.reglas@[j].operador == o
                                && self.reglas@[j].derecha == derecha),
                    decreases i,
                {
                    i = i - 1;
                    let r = self.reglas[i];
                    if r.izquierda == izquierda && r.operador == o && r.derecha == derecha {
                        proof {
                            lema_reglas_encontrada(self.reglas@, i as int);
                        }
                        return r.resultado;
                    }
                }
                proof {
                    lema_reglas_ausente(self.reglas@, (izquierda, o, derecha));
                }
                Tipo::Error
            },
        }
    }
}

} // verus!
