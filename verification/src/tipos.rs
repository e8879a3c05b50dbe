//! Tipos semánticos, operadores, cuádruplos y la información que guardan las tablas.

use vstd::prelude::*;

use crate::tabla::Tabla;
use crate::texto::mismo_texto;

verus! {

/// Los tipos del lenguaje; `Error` marca una combinación de tipos inválida.
#[derive(Debug, Clone, Copy, PartialEq, Eq, Hash, Structural)]
pub enum Tipo {
    Entero,
    Flotante,
    Bool,
    Void,
    Error,
}

/// Un tipo numérico: entero o flotante.
pub open spec fn es_numerico(t: Tipo) -> bool {
    t == Tipo::Entero || t == Tipo::Flotante
}

/// El nombre de un tipo, como lo escribe su `Debug`.
pub open spec fn texto_tipo(t: Tipo) -> Seq<char> {
    match t {
        Tipo::Entero => "Entero"@,
        Tipo::Flotante => "Flotante"@,
        Tipo::Bool => "Bool"@,
        Tipo::Void => "Void"@,
        Tipo::Error => "Error"@,
    }
}

impl Tipo {
    /// El nombre del tipo, igual al que escribe su `Debug`.
    pub fn nombre(&self) -> (r: &'static str)
        ensures
            r@ == texto_tipo(*self),
    {
        match self {
            Tipo::Entero => "Entero",
            Tipo::Flotante => "Flotante",
            Tipo::Bool => "Bool",
            Tipo::Void => "Void",
            Tipo::Error => "Error",
        }
    }
}

/// Los operadores de los cuádruplos.
#[derive(Debug, Clone, Copy, PartialEq, Eq, Structural)]
pub enum Operador {
    Suma,
    Resta,
    Multiplicacion,
    Division,
    Mayor,
    Menor,
    MayorIgual,
    MenorIgual,
    IgualIgual,
    Diferente,
    Asignacion,
    Print,
    Goto,
    GotoF,
    Era,
    Param,
    Gosub,
    Return,
    EndFunc,
}

/// El operador que nombra un símbolo del lenguaje, si lo hay.
pub open spec fn operador_de_texto(s: Seq<char>) -> Option<Operador> {
    if s == "+"@ {
        Some(Operador::Suma)
    } else if s == "-"@ {
        Some(Operador::Resta)
    } else if s == "*"@ {
        Some(Operador::Multiplicacion)
    } else if s == "/"@ {
        Some(Operador::Division)
    } else if s == ">"@ {
        Some(Operador::Mayor)
    } else if s == "<"@ {
        Some(Operador::Menor)
    } else if s == ">="@ {
        Some(Operador::MayorIgual)
    } else if s == "<="@ {
        Some(Operador::MenorIgual)
    } else if s == "=="@ {
        Some(Operador::IgualIgual)
    } else if s == "!="@ {
        Some(Operador::Diferente)
    } else if s == "="@ {
        Some(Operador::Asignacion)
    } else {
        None
    }
}

/// Los operadores binarios de una expresión: aritméticos y relacionales.
pub open spec fn es_binario(op: Operador) -> bool {
    match op {
        Operador::Suma | Operador::Resta | Operador::Multiplicacion | Operador::Division
        | Operador::Mayor | Operador::Menor | Operador::MayorIgual | Operador::MenorIgual
        | Operador::IgualIgual | Operador::Diferente => true,
        _ => false,
    }
}

impl Operador {
    /// El operador que nombra un símbolo (`"+"`, `">="`, `"="`, ...), si lo hay.
    pub fn desde_texto(s: &str) -> (r: Option<Operador>)
        ensures
            r == operador_de_texto(s@),
    {
        if mismo_texto(s, "+") {
            Some(Operador::Suma)
        } else if mismo_texto(s, "-") {
            Some(Operador::Resta)
        } else if mismo_texto(s, "*") {
            Some(Operador::Multiplicacion)
        } else if mismo_texto(s, "/") {
            Some(Operador::Division)
        } else if mismo_texto(s, ">") {
            Some(Operador::Mayor)
        } else if mismo_texto(s, "<") {
            Some(Operador::Menor)
        } else if mismo_texto(s, ">=") {
            Some(Operador::MayorIgual)
        } else if mismo_texto(s, "<=") {
            Some(Operador::MenorIgual)
        } else if mismo_texto(s, "==") {
            Some(Operador::IgualIgual)
        } else if mismo_texto(s, "!=") {
            Some(Operador::Diferente)
        } else if mismo_texto(s, "=") {
            Some(Operador::Asignacion)
        } else {
            None
        }
    }
}

/// El contenido de un texto opcional.
pub open spec fn vista_opcional(o: Option<String>) -> Option<Seq<char>> {
    match o {
        Some(s) => Some(s@),
        None => None,
    }
}

/// Un cuádruplo visto por el contenido de sus textos.
pub struct CuadruploVista {
    pub operador: Operador,
    pub izquierda: Option<Seq<char>>,
    pub derecha: Option<Seq<char>>,
    pub resultado: Option<Seq<char>>,
}

/// Una instrucción de código intermedio: operador, dos operandos y un resultado.
#[derive(Debug, Clone)]
pub struct Cuadruplo {
    pub operador: Operador,
    pub izquierda: Option<String>,
    pub derecha: Option<String>,
    pub resultado: Option<String>,
}

impl View for Cuadruplo {
    type V = CuadruploVista;

    open spec fn view(&self) -> CuadruploVista {
        CuadruploVista {
            operador: self.operador,
            izquierda: vista_opcional(self.izquierda),
            derecha: vista_opcional(self.derecha),
            resultado: vista_opcional(self.resultado),
        }
    }
}

/// Lo que se sabe de una variable declarada.
#[derive(Debug, Clone)]
pub struct VariableInfo {
    pub nombre: String,
    pub tipo: Tipo,
    pub direccion: Option<usize>,
}

impl VariableInfo {
    /// Una copia idéntica.
    pub fn copia(&self) -> (r: VariableInfo)
        ensures
            r == *self,
    {
        VariableInfo { nombre: self.nombre.clone(), tipo: self.tipo, direccion: self.direccion }
    }
}

/// Lo que se sabe de una constante registrada.
#[derive(Debug, Clone)]
pub struct ConstanteInfo {
    pub valor: String,
    pub tipo: Tipo,
    pub direccion: Option<usize>,
}

/// Tabla de variables, por nombre.
pub type TablaVariables = Tabla<VariableInfo>;

/// Tabla de constantes, por su texto.
pub type TablaConstantes = Tabla<ConstanteInfo>;

/// Lo que se sabe de una función declarada.
#[derive(Debug)]
pub struct FuncionInfo {
    pub nombre: String,
    pub tipo_retorno: Tipo,
    pub parametros: Vec<Tipo>,
    pub variables: TablaVariables,
    pub inicio_cuadruplo: Option<usize>,
}

/// Directorio de funciones, por nombre.
pub type DirectorioFunciones = Tabla<FuncionInfo>;

/// El resultado de una operación semántica: su valor o un mensaje de error.
pub type SemanticResult<T> = Result<T, String>;

} // verus!
