//! El árbol de un programa Patito, tal como lo entrega el análisis sintáctico.

use vstd::prelude::*;

verus! {

/// Un factor: una llamada, una variable, una constante o una expresión entre paréntesis.
pub enum Factor {
    Llamada(Llamada),
    Id(String),
    Cte(String),
    Expresion(Box<Expresion>),
}

/// Una llamada a función con sus argumentos.
pub struct Llamada {
    pub nombre: String,
    pub argumentos: Vec<Expresion>,
}

/// Un término: factores unidos por `*` o `/`.
pub struct Termino {
    pub primero: Factor,
    pub resto: Vec<(String, Factor)>,
}

/// Una expresión aritmética: términos unidos por `+` o `-`.
pub struct Exp {
    pub primero: Termino,
    pub resto: Vec<(String, Termino)>,
}

/// Una expresión: una expresión aritmética, o dos comparadas con un operador relacional.
pub struct Expresion {
    pub izquierda: Exp,
    pub relacional: Option<(String, Exp)>,
}

/// Un estatuto.
pub enum Estatuto {
    /// `variable = expresión;`
    Asigna(String, Expresion),
    /// `escribe(expresión);`
    Imprime(Expresion),
    /// `si (condición) { ... } sino { ... }`
    Condicion(Expresion, Cuerpo, Option<Cuerpo>),
    /// `mientras (condición) { ... }`
    Ciclo(Expresion, Cuerpo),
    /// `return expresión;`
    Retorno(Expresion),
    /// `f(argumentos);`
    Llamada(Llamada),
}

/// Una secuencia de estatutos.
pub struct Cuerpo {
    pub estatutos: Vec<Estatuto>,
}

/// Una función: tipo de retorno (si lo escribe), nombre, parámetros con su tipo y cuerpo.
pub struct Funcion {
    pub tipo_retorno: Option<String>,
    pub nombre: String,
    pub parametros: Vec<(String, String)>,
    pub cuerpo: Option<Cuerpo>,
}

/// Un programa: su nombre, variables globales con su tipo, funciones y cuerpo
/// principal.
pub struct Programa {
    pub nombre: String,
    pub variables: Vec<(String, String)>,
    pub funciones: Vec<Funcion>,
    pub cuerpo: Cuerpo,
}

} // verus!
