//! Declaración y consulta de variables, constantes y funciones.

use vstd::prelude::*;

use crate::direcciones::{AdministradorDirecciones, Segmento};
use crate::tabla::Tabla;
use crate::texto::unir;
use crate::tipos::{
    ConstanteInfo, DirectorioFunciones, FuncionInfo, SemanticResult, TablaConstantes,
    TablaVariables, Tipo, VariableInfo,
};

verus! {

/// El mensaje de una variable no declarada.
pub open spec fn mensaje_no_declarada(nombre: Seq<char>) -> Seq<char> {
    "Variable '"@ + nombre + "' no declarada"@
}

/// El aviso de una variable declarada dos veces.
pub open spec fn mensaje_variable_duplicada(nombre: Seq<char>) -> Seq<char> {
    "Error: variable '"@ + nombre + "' duplicada"@
}

/// El aviso de una función declarada dos veces.
pub open spec fn mensaje_funcion_duplicada(nombre: Seq<char>) -> Seq<char> {
    "Error: función '"@ + nombre + "' duplicada"@
}

/// El texto de un mensaje de variable no declarada.
pub fn texto_no_declarada(nombre: &str) -> (r: String)
    ensures
        r@ == mensaje_no_declarada(nombre@),
{
    unir(unir("Variable '".to_owned(), nombre), "' no declarada")
}

/// El texto del aviso de variable duplicada.
pub fn texto_variable_duplicada(nombre: &str) -> (r: String)
    ensures
        r@ == mensaje_variable_duplicada(nombre@),
{
    unir(unir("Error: variable '".to_owned(), nombre), "' duplicada")
}

/// El texto del aviso de función duplicada.
pub fn texto_funcion_duplicada(nombre: &str) -> (r: String)
    ensures
        r@ == mensaje_funcion_duplicada(nombre@),
{
    unir(unir("Error: función '".to_owned(), nombre), "' duplicada")
}

/// Declara la variable `nombre` con una dirección global nueva. Si ya estaba
/// declarada no cambia nada y devuelve `false` (el llamador avisa con
/// `texto_variable_duplicada`).
pub fn agregar_variable(
    tabla: &mut TablaVariables,
    nombre: String,
    tipo: Tipo,
    direcciones: &mut AdministradorDirecciones,
) -> (r: bool)
    requires
        !old(tabla).vista().dom().contains(nombre@) ==> old(direcciones).puede_dar(
            Segmento::Global,
            tipo,
        ),
    ensures
        r == !old(tabla).vista().dom().contains(nombre@),
        !r ==> *final(tabla) == *old(tabla) && *final(direcciones) == *old(direcciones),
        r ==> {
            &&& *final(direcciones) == old(direcciones).tras_dar(Segmento::Global, tipo)
            &&& final(tabla).vista() == old(tabla).vista().insert(
                nombre@,
                VariableInfo {
                    nombre,
                    tipo,
                    direccion: old(direcciones).contador(Segmento::Global, tipo),
                },
            )
        },
{
    if tabla.contiene(nombre.as_str()) {
        return false;
    }
    let direccion = direcciones.nueva_global(&tipo);
    let clave = nombre.clone();
    tabla.insertar(clave, VariableInfo { nombre, tipo, direccion: Some(direccion) });
    true
}

/// El tipo de la variable `nombre`, o un error si no está declarada.
pub fn buscar_variable(tabla: &TablaVariables, nombre: &str) -> (r: SemanticResult<Tipo>)
    ensures
        tabla.vista().dom().contains(nombre@) ==> r == Ok::<Tipo, String>(
            tabla.vista()[nombre@].tipo,
        ),
        !tabla.vista().dom().contains(nombre@) ==> (r matches Err(m) && m@ == mensaje_no_declarada(
            nombre@,
        )),
{
    match tabla.obtener(nombre) {
        Some(v) => Ok(v.tipo),
        None => Err(texto_no_declarada(nombre)),
    }
}

/// Lo que se sabe de la variable `nombre`, o un error si no está declarada.
pub fn buscar_variable_info(tabla: &TablaVariables, nombre: &str) -> (r: SemanticResult<VariableInfo>)
    ensures
        tabla.vista().dom().contains(nombre@) ==> r == Ok::<VariableInfo, String>(
            tabla.vista()[nombre@],
        ),
        !tabla.vista().dom().contains(nombre@) ==> (r matches Err(m) && m@ == mensaje_no_declarada(
            nombre@,
        )),
{
    match tabla.obtener(nombre) {
        Some(v) => Ok(v.copia()),
        None => Err(texto_no_declarada(nombre)),
    }
}

/// La dirección de la constante `valor`: la que ya tenía, o una nueva del
/// segmento de constantes si es la primera vez que aparece.
pub fn registrar_constante(
    tabla: &mut TablaConstantes,
    valor: String,
    tipo: Tipo,
    direcciones: &mut AdministradorDirecciones,
) -> (r: usize)
    requires
        old(tabla).vista().dom().contains(valor@) ==> old(tabla).vista()[valor@].direccion is Some,
        !old(tabla).vista().dom().contains(valor@) ==> old(direcciones).puede_dar(
            Segmento::Constante,
            tipo,
        ),
    ensures
        old(tabla).vista().dom().contains(valor@) ==> {
            &&& r == old(tabla).vista()[valor@].direccion->0
            &&& *final(tabla) == *old(tabla)
            &&& *final(direcciones) == *old(direcciones)
        },
        !old(tabla).vista().dom().contains(valor@) ==> {
            &&& Some(r) == old(direcciones).contador(Segmento::Constante, tipo)
            &&& *final(direcciones) == old(direcciones).tras_dar(Segmento::Constante, tipo)
            &&& final(tabla).vista() == old(tabla).vista().insert(
                valor@,
                ConstanteInfo { valor, tipo, direccion: Some(r) },
            )
        },
{
    match tabla.obtener(valor.as_str()) {
        Some(info) => {
            return info.direccion.unwrap();
        },
        None => {},
    }
    let direccion = direcciones.nueva_constante(&tipo);
    let clave = valor.clone();
    tabla.insertar(clave, ConstanteInfo { valor, tipo, direccion: Some(direccion) });
    direccion
}

/// Declara la función `nombre`, sin parámetros ni variables y sin inicio aún.
/// Si ya estaba declarada no cambia nada y devuelve `false` (el llamador avisa
/// con `texto_funcion_duplicada`).
pub fn agregar_funcion(directorio: &mut DirectorioFunciones, nombre: String, tipo_retorno: Tipo) -> (r:
    bool)
    ensures
        r == !old(directorio).vista().dom().contains(nombre@),
        !r ==> *final(directorio) == *old(directorio),
        r ==> final(directorio).vista().dom() == old(directorio).vista().dom().insert(nombre@),
        r ==> forall|k: Seq<char>|
            k != nombre@ && #[trigger] old(directorio).vista().dom().contains(k)
                ==> final(directorio).vista()[k] == old(directorio).vista()[k],
        r ==> {
            let f = final(directorio).vista()[nombre@];
            &&& f.nombre == nombre
            &&& f.tipo_retorno == tipo_retorno
            &&& f.parametros@.len() == 0
            &&& f.variables.vista() == Map::<Seq<char>, VariableInfo>::empty()
            &&& f.inicio_cuadruplo is None
        },
{
    if directorio.contiene(nombre.as_str()) {
        return false;
    }
    let clave = nombre.clone();
    directorio.insertar(
        clave,
        FuncionInfo {
            nombre,
            tipo_retorno,
            parametros: Vec::new(),
            variables: Tabla::nueva(),
            inicio_cuadruplo: None,
        },
    );
    true
}

} // verus!
