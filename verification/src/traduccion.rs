//! El esquema de traducción: qué cuádruplos, constantes y direcciones produce
//! cada parte del árbol de un programa. Cada función da el estado que sigue, o
//! el mensaje del error semántico que detiene la compilación ahí.

use vstd::prelude::*;

use crate::arbol::{Cuerpo, Estatuto, Exp, Expresion, Factor, Funcion, Llamada, Programa, Termino};
use crate::cubo::tipo_resultado;
use crate::direcciones::{AdministradorDirecciones, Segmento};
use crate::generador::{
    cuadruplo, mensaje_asignacion_invalida, mensaje_condicion, mensaje_operacion_invalida,
    mensaje_operador_desconocido, quitar_ultimo, VistaGenerador,
};
use crate::texto::decimal;
use crate::semantica::{mensaje_no_declarada, mensaje_variable_duplicada};
use crate::tipos::{es_binario, operador_de_texto, CuadruploVista, Operador, Tipo};

verus! {

/// Lo que se sabe de una variable o constante: su texto, su tipo y su dirección.
pub type Registro = (Seq<char>, Tipo, Option<usize>);

/// Un parámetro de función: nombre, tipo y dirección local.
pub type ParametroVista = (Seq<char>, Tipo, usize);

/// Lo que se sabe de una función para llamarla.
pub struct MetaVista {
    pub inicio: usize,
    pub tipo_retorno: Tipo,
    pub parametros: Seq<ParametroVista>,
}

/// Lo que el código de un cuerpo consulta sin cambiarlo: variables y funciones.
pub struct Contexto {
    pub variables: Map<Seq<char>, Registro>,
    pub funciones: Map<Seq<char>, MetaVista>,
}

/// El estado que sigue a un paso de compilación, o el mensaje de su error.
pub type Paso = Result<Estado, Seq<char>>;

/// Lo que cambia al generar código: constantes, direcciones y generador.
pub struct Estado {
    pub constantes: Map<Seq<char>, Registro>,
    pub direcciones: AdministradorDirecciones,
    pub generador: VistaGenerador,
}

/// El tipo que nombra un texto: `entero`, `flotante`, o `Error` para cualquier otro.
pub open spec fn tipo_de_texto(s: Seq<char>) -> Tipo {
    if s == "entero"@ {
        Tipo::Entero
    } else if s == "flotante"@ {
        Tipo::Flotante
    } else {
        Tipo::Error
    }
}

/// El tipo de una constante: flotante si lleva punto decimal, si no entero.
pub open spec fn tipo_constante(v: Seq<char>) -> Tipo {
    if v.contains('.') {
        Tipo::Flotante
    } else {
        Tipo::Entero
    }
}

/// Apila un operando con su tipo.
pub open spec fn apilar(s: Estado, valor: Seq<char>, t: Tipo) -> Estado {
    Estado {
        generador: VistaGenerador {
            operandos: s.generador.operandos.push(valor),
            tipos: s.generador.tipos.push(t),
            ..s.generador
        },
        ..s
    }
}

/// Agrega un cuádruplo al código.
pub open spec fn emitir(s: Estado, q: CuadruploVista) -> Estado {
    Estado { generador: VistaGenerador { codigo: s.generador.codigo.push(q), ..s.generador }, ..s }
}

/// Saca el último operando (y su tipo, si lo hay) y agrega un cuádruplo que lo
/// usa: el operando va donde `q` lo pone.
pub open spec fn consumir(s: Estado, q: CuadruploVista) -> Estado {
    Estado {
        generador: VistaGenerador {
            operandos: s.generador.operandos.drop_last(),
            tipos: quitar_ultimo(s.generador.tipos),
            codigo: s.generador.codigo.push(q),
            ..s.generador
        },
        ..s
    }
}

/// El índice del próximo cuádruplo.
pub open spec fn siguiente(s: Estado) -> nat {
    s.generador.codigo.len()
}

/// El mensaje de una llamada a una función no declarada.
pub open spec fn mensaje_funcion_no_declarada(nombre: Seq<char>) -> Seq<char> {
    "Función '"@ + nombre + "' no declarada"@
}

/// El mensaje de una llamada con más argumentos que parámetros.
pub open spec fn mensaje_demasiados_argumentos(nombre: Seq<char>) -> Seq<char> {
    "Demasiados argumentos para función '"@ + nombre + "'"@
}

/// El mensaje de una llamada con menos argumentos que parámetros.
pub open spec fn mensaje_cantidad_argumentos(nombre: Seq<char>, esperados: nat, recibidos: nat) -> Seq<
    char,
> {
    "Cantidad incorrecta de argumentos para función '"@ + nombre + "': esperados "@ + decimal(
        esperados,
    ) + ", recibidos "@ + decimal(recibidos)
}

/// El mensaje de una función cuyo cuerpo se genera sin haber registrado su firma.
pub open spec fn mensaje_funcion_no_registrada(nombre: Seq<char>) -> Seq<char> {
    "Función '"@ + nombre + "' no registrada"@
}

/// Una variable como operando: su dirección, con su tipo.
pub open spec fn sp_variable(n: Seq<char>, c: Contexto, s: Estado) -> Paso {
    if c.variables.dom().contains(n) && c.variables[n].2 is Some {
        Ok(apilar(s, decimal(c.variables[n].2->0 as nat), c.variables[n].1))
    } else {
        Err(mensaje_no_declarada(n))
    }
}

/// Una constante como operando: la dirección que ya tenía, o una nueva.
pub open spec fn sp_constante(v: Seq<char>, s: Estado) -> Paso {
    let t = tipo_constante(v);
    if s.constantes.dom().contains(v) {
        match s.constantes[v].2 {
            Some(d) => Ok(apilar(s, decimal(d as nat), t)),
            None => Err("Constante sin dirección"@),
        }
    } else if s.direcciones.puede_dar(Segmento::Constante, t) {
        let d = s.direcciones.contador(Segmento::Constante, t)->0;
        Ok(
            apilar(
                Estado {
                    constantes: s.constantes.insert(v, (v, t, Some(d))),
                    direcciones: s.direcciones.tras_dar(Segmento::Constante, t),
                    ..s
                },
                decimal(d as nat),
                t,
            ),
        )
    } else {
        Err("Tipo constante no soportado"@)
    }
}

/// Aplica el operador `op` a los dos últimos operandos: el resultado va a un
/// temporal nuevo que queda como operando.
pub open spec fn sp_operar(op: Seq<char>, s: Estado) -> Paso {
    let g = s.generador;
    if g.operandos.len() < 2 || g.tipos.len() < 2 {
        Err("Faltan operandos"@)
    } else {
        let tizq = g.tipos[g.tipos.len() - 2];
        let tder = g.tipos.last();
        let t = tipo_resultado(tizq, op, tder);
        if t != Tipo::Error && !s.direcciones.puede_dar(Segmento::Temporal, t) {
            Err("Tipo temporal no soportado"@)
        } else if t == Tipo::Error {
            Err(mensaje_operacion_invalida(tizq, op, tder))
        } else if !es_binario(operador_de_texto(op)->0) {
            Err(mensaje_operador_desconocido(op))
        } else {
            let d = s.direcciones.contador(Segmento::Temporal, t)->0;
            Ok(
                Estado {
                    direcciones: s.direcciones.tras_dar(Segmento::Temporal, t),
                    generador: VistaGenerador {
                        operandos: g.operandos.drop_last().drop_last().push(decimal(d as nat)),
                        tipos: g.tipos.drop_last().drop_last().push(t),
                        codigo: g.codigo.push(
                            cuadruplo(
                                operador_de_texto(op)->0,
                                Some(g.operandos[g.operandos.len() - 2]),
                                Some(g.operandos.last()),
                                Some(decimal(d as nat)),
                            ),
                        ),
                        ..g
                    },
                    ..s
                },
            )
        }
    }
}

/// Un argumento ya evaluado se pasa en la dirección `direccion` de su parámetro.
pub open spec fn sp_param(direccion: usize, s: Estado) -> Paso {
    if s.generador.operandos.len() == 0 {
        Err("Falta el argumento"@)
    } else {
        Ok(
            consumir(
                s,
                cuadruplo(
                    Operador::Param,
                    Some(s.generador.operandos.last()),
                    None,
                    Some(decimal(direccion as nat)),
                ),
            ),
        )
    }
}

/// Un factor.
pub open spec fn sp_factor(f: Factor, c: Contexto, s: Estado) -> Paso
    decreases f, 0nat,
{
    match f {
        Factor::Llamada(l) => sp_llamada_expr(l, c, s),
        Factor::Id(n) => sp_variable(n@, c, s),
        Factor::Cte(v) => sp_constante(v@, s),
        Factor::Expresion(e) => sp_expresion(*e, c, s),
    }
}

/// Los primeros `i` pares (operador, factor) de un término.
pub open spec fn sp_resto_termino(r: Seq<(String, Factor)>, i: nat, c: Contexto, s: Estado) -> Paso
    decreases r, i,
{
    if i == 0 || i > r.len() {
        Ok(s)
    } else {
        match sp_resto_termino(r, (i - 1) as nat, c, s) {
            Ok(s1) => match sp_factor(r[i - 1].1, c, s1) {
                Ok(s2) => sp_operar(r[i - 1].0@, s2),
                Err(m) => Err(m),
            },
            Err(m) => Err(m),
        }
    }
}

/// Un término.
pub open spec fn sp_termino(t: Termino, c: Contexto, s: Estado) -> Paso
    decreases t, 0nat,
{
    match sp_factor(t.primero, c, s) {
        Ok(s1) => sp_resto_termino(t.resto@, t.resto@.len(), c, s1),
        Err(m) => Err(m),
    }
}

/// Los primeros `i` pares (operador, término) de una expresión aritmética.
pub open spec fn sp_resto_exp(r: Seq<(String, Termino)>, i: nat, c: Contexto, s: Estado) -> Paso
    decreases r, i,
{
    if i == 0 || i > r.len() {
        Ok(s)
    } else {
        match sp_resto_exp(r, (i - 1) as nat, c, s) {
            Ok(s1) => match sp_termino(r[i - 1].1, c, s1) {
                Ok(s2) => sp_operar(r[i - 1].0@, s2),
                Err(m) => Err(m),
            },
            Err(m) => Err(m),
        }
    }
}

/// Una expresión aritmética.
pub open spec fn sp_exp(x: Exp, c: Contexto, s: Estado) -> Paso
    decreases x, 0nat,
{
    match sp_termino(x.primero, c, s) {
        Ok(s1) => sp_resto_exp(x.resto@, x.resto@.len(), c, s1),
        Err(m) => Err(m),
    }
}

/// Una expresión, con su comparación si la tiene.
pub open spec fn sp_expresion(e: Expresion, c: Contexto, s: Estado) -> Paso
    decreases e, 0nat,
{
    match sp_exp(e.izquierda, c, s) {
        Ok(s1) => match e.relacional {
            Some(par) => match sp_exp(par.1, c, s1) {
                Ok(s2) => sp_operar(par.0@, s2),
                Err(m) => Err(m),
            },
            None => Ok(s1),
        },
        Err(m) => Err(m),
    }
}

/// Los primeros `i` argumentos de una llamada a `nombre`, cada uno evaluado y
/// pasado a su parámetro.
pub open spec fn sp_argumentos(
    nombre: Seq<char>,
    a: Seq<Expresion>,
    i: nat,
    m: MetaVista,
    c: Contexto,
    s: Estado,
) -> Paso
    decreases a, i,
{
    if i == 0 || i > a.len() {
        Ok(s)
    } else {
        match sp_argumentos(nombre, a, (i - 1) as nat, m, c, s) {
            Ok(s1) => match sp_expresion(a[i - 1], c, s1) {
                Ok(s2) => if i - 1 < m.parametros.len() {
                    sp_param(m.parametros[i - 1].2, s2)
                } else {
                    Err(mensaje_demasiados_argumentos(nombre))
                },
                Err(e) => Err(e),
            },
            Err(e) => Err(e),
        }
    }
}

/// La reserva y los argumentos de una llamada a una función declarada, con tantos
/// argumentos como parámetros.
pub open spec fn sp_preparar_llamada(l: Llamada, c: Contexto, s: Estado) -> Paso
    decreases l, 1nat,
{
    if !c.funciones.dom().contains(l.nombre@) {
        Err(mensaje_funcion_no_declarada(l.nombre@))
    } else {
        let m = c.funciones[l.nombre@];
        let s1 = emitir(s, cuadruplo(Operador::Era, None, None, Some(l.nombre@)));
        match sp_argumentos(l.nombre@, l.argumentos@, l.argumentos@.len(), m, c, s1) {
            Ok(s2) => if l.argumentos@.len() != m.parametros.len() {
                Err(
                    mensaje_cantidad_argumentos(
                        l.nombre@,
                        m.parametros.len(),
                        l.argumentos@.len(),
                    ),
                )
            } else {
                Ok(s2)
            },
            Err(e) => Err(e),
        }
    }
}

/// Una llamada dentro de una expresión: su valor de retorno queda en un temporal nuevo.
pub open spec fn sp_llamada_expr(l: Llamada, c: Contexto, s: Estado) -> Paso
    decreases l, 2nat,
{
    match sp_preparar_llamada(l, c, s) {
        Ok(s2) => {
            let m = c.funciones[l.nombre@];
            if !s2.direcciones.puede_dar(Segmento::Temporal, m.tipo_retorno) {
                Err("Tipo temporal no soportado"@)
            } else {
                let d = s2.direcciones.contador(Segmento::Temporal, m.tipo_retorno)->0;
                let s3 = Estado {
                    direcciones: s2.direcciones.tras_dar(Segmento::Temporal, m.tipo_retorno),
                    ..s2
                };
                Ok(
                    apilar(
                        emitir(
                            s3,
                            cuadruplo(
                                Operador::Gosub,
                                Some(l.nombre@),
                                Some(decimal(d as nat)),
                                Some(decimal(m.inicio as nat)),
                            ),
                        ),
                        decimal(d as nat),
                        m.tipo_retorno,
                    ),
                )
            }
        },
        Err(e) => Err(e),
    }
}

/// Saca el último valor y lo asigna a `destino`, si su tipo se puede asignar a
/// una variable de tipo `tipo_variable`.
pub open spec fn sp_asignar(destino: Seq<char>, tipo_variable: Tipo, s: Estado) -> Paso {
    let g = s.generador;
    if g.operandos.len() == 0 || g.tipos.len() == 0 {
        Err("Falta el valor a asignar"@)
    } else if tipo_resultado(tipo_variable, "="@, g.tipos.last()) == Tipo::Error {
        Err(mensaje_asignacion_invalida(tipo_variable, g.tipos.last()))
    } else {
        Ok(
            consumir(
                s,
                cuadruplo(Operador::Asignacion, Some(g.operandos.last()), None, Some(destino)),
            ),
        )
    }
}

/// Una asignación a una variable declarada.
pub open spec fn sp_asigna(v: Seq<char>, e: Expresion, c: Contexto, s: Estado) -> Paso {
    if !(c.variables.dom().contains(v) && c.variables[v].2 is Some) {
        Err(mensaje_no_declarada(v))
    } else {
        match sp_expresion(e, c, s) {
            Ok(s1) => sp_asignar(decimal(c.variables[v].2->0 as nat), c.variables[v].1, s1),
            Err(m) => Err(m),
        }
    }
}

/// Saca el último valor y agrega el cuádruplo `op` que lo usa como resultado
/// (si `como_resultado`) o como izquierda; `falta` es el mensaje si no hay valor.
pub open spec fn sp_usar_valor(op: Operador, como_resultado: bool, falta: Seq<char>, s: Estado) -> Paso {
    if s.generador.operandos.len() == 0 {
        Err(falta)
    } else if como_resultado {
        Ok(consumir(s, cuadruplo(op, None, None, Some(s.generador.operandos.last()))))
    } else {
        Ok(consumir(s, cuadruplo(op, Some(s.generador.operandos.last()), None, None)))
    }
}

/// Saca la condición y, si es booleana, agrega un salto en falso aún sin destino.
pub open spec fn sp_gotof(s: Estado) -> Paso {
    let g = s.generador;
    if g.operandos.len() == 0 || g.tipos.len() == 0 {
        Err("Falta la condición"@)
    } else if g.tipos.last() != Tipo::Bool {
        Err(mensaje_condicion())
    } else {
        Ok(
            Estado {
                generador: VistaGenerador {
                    operandos: g.operandos.drop_last(),
                    tipos: g.tipos.drop_last(),
                    codigo: g.codigo.push(
                        cuadruplo(Operador::GotoF, Some(g.operandos.last()), None, None),
                    ),
                    ..g
                },
                ..s
            },
        )
    }
}

/// Agrega un salto incondicional a `destino`.
pub open spec fn sp_goto(s: Estado, destino: nat) -> Estado {
    emitir(s, cuadruplo(Operador::Goto, None, None, Some(decimal(destino))))
}

/// Pone `destino` como destino del salto en el cuádruplo `i`.
pub open spec fn sp_rellenar(s: Estado, i: nat, destino: nat) -> Paso {
    let g = s.generador;
    if i < g.codigo.len() {
        Ok(
            Estado {
                generador: VistaGenerador {
                    codigo: g.codigo.update(
                        i as int,
                        CuadruploVista { resultado: Some(decimal(destino)), ..g.codigo[i as int] },
                    ),
                    ..g
                },
                ..s
            },
        )
    } else {
        Err("Salto fuera del código"@)
    }
}

/// Una llamada como estatuto: se descarta lo que devuelva.
pub open spec fn sp_llamada(l: Llamada, c: Contexto, s: Estado) -> Paso {
    match sp_preparar_llamada(l, c, s) {
        Ok(s2) => Ok(
            emitir(
                s2,
                cuadruplo(
                    Operador::Gosub,
                    Some(l.nombre@),
                    None,
                    Some(decimal(c.funciones[l.nombre@].inicio as nat)),
                ),
            ),
        ),
        Err(e) => Err(e),
    }
}

/// Un `si`: la condición, un salto en falso, el cuerpo y, si hay `sino`, un
/// salto al final y el otro cuerpo; los saltos se rellenan al conocer su destino.
pub open spec fn sp_condicion(st: Estatuto, c: Contexto, s: Estado) -> Paso
    decreases st, 1nat,
{
    match st {
        Estatuto::Condicion(e, a, b) => match sp_expresion(e, c, s) {
            Ok(s1) => match sp_gotof(s1) {
                Ok(s2) => {
                    let falso = siguiente(s1);
                    match sp_cuerpo(a, c, s2) {
                        Ok(s3) => match b {
                            Some(otro) => {
                                let salto_fin = siguiente(s3);
                                let s4 = sp_goto(s3, 0);
                                match sp_rellenar(s4, falso, siguiente(s4)) {
                                    Ok(s5) => match sp_cuerpo(otro, c, s5) {
                                        Ok(s6) => sp_rellenar(s6, salto_fin, siguiente(s6)),
                                        Err(m) => Err(m),
                                    },
                                    Err(m) => Err(m),
                                }
                            },
                            None => sp_rellenar(s3, falso, siguiente(s3)),
                        },
                        Err(m) => Err(m),
                    }
                },
                Err(m) => Err(m),
            },
            Err(m) => Err(m),
        },
        _ => Err("No es un si"@),
    }
}

/// Un ciclo: la condición, un salto en falso, el cuerpo y un salto de regreso a
/// la condición; el salto en falso va a lo que sigue del ciclo.
pub open spec fn sp_ciclo(st: Estatuto, c: Contexto, s: Estado) -> Paso
    decreases st, 1nat,
{
    match st {
        Estatuto::Ciclo(e, cu) => {
            let inicio = siguiente(s);
            match sp_expresion(e, c, s) {
                Ok(s1) => match sp_gotof(s1) {
                    Ok(s2) => {
                        let falso = siguiente(s1);
                        match sp_cuerpo(cu, c, s2) {
                            Ok(s3) => {
                                let s4 = sp_goto(s3, inicio);
                                sp_rellenar(s4, falso, siguiente(s4))
                            },
                            Err(m) => Err(m),
                        }
                    },
                    Err(m) => Err(m),
                },
                Err(m) => Err(m),
            }
        },
        _ => Err("No es un ciclo"@),
    }
}

/// Un estatuto.
pub open spec fn sp_estatuto(st: Estatuto, c: Contexto, s: Estado) -> Paso
    decreases st, 2nat,
{
    match st {
        Estatuto::Asigna(v, e) => sp_asigna(v@, e, c, s),
        Estatuto::Imprime(e) => match sp_expresion(e, c, s) {
            Ok(s1) => sp_usar_valor(Operador::Print, true, "Falta el valor a imprimir"@, s1),
            Err(m) => Err(m),
        },
        Estatuto::Condicion(_, _, _) => sp_condicion(st, c, s),
        Estatuto::Ciclo(_, _) => sp_ciclo(st, c, s),
        Estatuto::Retorno(e) => match sp_expresion(e, c, s) {
            Ok(s1) => sp_usar_valor(Operador::Return, false, "Falta el valor a regresar"@, s1),
            Err(m) => Err(m),
        },
        Estatuto::Llamada(l) => sp_llamada(l, c, s),
    }
}

/// Los primeros `i` estatutos de una lista.
pub open spec fn sp_estatutos(r: Seq<Estatuto>, i: nat, c: Contexto, s: Estado) -> Paso
    decreases r, i,
{
    if i == 0 || i > r.len() {
        Ok(s)
    } else {
        match sp_estatutos(r, (i - 1) as nat, c, s) {
            Ok(s1) => sp_estatuto(r[i - 1], c, s1),
            Err(m) => Err(m),
        }
    }
}

/// Un cuerpo: sus estatutos en orden.
pub open spec fn sp_cuerpo(cu: Cuerpo, c: Contexto, s: Estado) -> Paso
    decreases cu, 0nat,
{
    sp_estatutos(cu.estatutos@, cu.estatutos@.len(), c, s)
}

/// Lo que se sabe de un programa a media compilación.
pub struct EstadoPrograma {
    pub variables: Map<Seq<char>, Registro>,
    pub funciones: Map<Seq<char>, MetaVista>,
    pub avisos: Seq<Seq<char>>,
    pub estado: Estado,
}

/// El aviso de dónde empieza una función.
pub open spec fn mensaje_inicio_funcion(nombre: Seq<char>, inicio: nat) -> Seq<char> {
    "Función '"@ + nombre + "' inicia en cuádruplo "@ + decimal(inicio)
}

/// Las variables globales declaradas, las direcciones y los avisos.
pub struct Declaraciones {
    pub variables: Map<Seq<char>, Registro>,
    pub direcciones: AdministradorDirecciones,
    pub avisos: Seq<Seq<char>>,
}

/// Las primeras `i` declaraciones de variables globales; una repetida sólo deja un aviso.
pub open spec fn sp_variables(vs: Seq<(String, String)>, i: nat, d: Declaraciones) -> Result<
    Declaraciones,
    Seq<char>,
>
    decreases i,
{
    if i == 0 || i > vs.len() {
        Ok(d)
    } else {
        match sp_variables(vs, (i - 1) as nat, d) {
            Ok(d1) => {
                let n = vs[i - 1].0@;
                let t = tipo_de_texto(vs[i - 1].1@);
                if d1.variables.dom().contains(n) {
                    Ok(Declaraciones { avisos: d1.avisos.push(mensaje_variable_duplicada(n)), ..d1 })
                } else if d1.direcciones.puede_dar(Segmento::Global, t) {
                    Ok(
                        Declaraciones {
                            variables: d1.variables.insert(
                                n,
                                (n, t, d1.direcciones.contador(Segmento::Global, t)),
                            ),
                            direcciones: d1.direcciones.tras_dar(Segmento::Global, t),
                            ..d1
                        },
                    )
                } else {
                    Err("Tipo global no soportado"@)
                }
            },
            Err(m) => Err(m),
        }
    }
}

/// El tipo de retorno que declara una función: `Void` si no escribe ninguno.
pub open spec fn tipo_retorno_de(f: Funcion) -> Tipo {
    match f.tipo_retorno {
        Some(t) => tipo_de_texto(t@),
        None => Tipo::Void,
    }
}

/// Los primeros `i` parámetros de una función, cada uno con una dirección local nueva.
pub open spec fn sp_parametros(ps: Seq<(String, String)>, i: nat, d: AdministradorDirecciones) -> Result<
    (AdministradorDirecciones, Seq<ParametroVista>),
    Seq<char>,
>
    decreases i,
{
    if i == 0 || i > ps.len() {
        Ok((d, Seq::empty()))
    } else {
        match sp_parametros(ps, (i - 1) as nat, d) {
            Ok(par) => {
                let t = tipo_de_texto(ps[i - 1].1@);
                if par.0.puede_dar(Segmento::Local, t) {
                    Ok(
                        (
                            par.0.tras_dar(Segmento::Local, t),
                            par.1.push((ps[i - 1].0@, t, par.0.contador(Segmento::Local, t)->0)),
                        ),
                    )
                } else {
                    Err("Tipo local no soportado"@)
                }
            },
            Err(m) => Err(m),
        }
    }
}

/// La firma de una función con nombre: su inicio, su tipo de retorno y sus parámetros.
pub open spec fn sp_firma(f: Funcion, d: AdministradorDirecciones, inicio: usize) -> Result<
    (AdministradorDirecciones, MetaVista),
    Seq<char>,
> {
    match sp_parametros(f.parametros@, f.parametros@.len(), d) {
        Ok(par) => if f.nombre@.len() == 0 {
            Err("Función sin nombre"@)
        } else {
            Ok(
                (
                    par.0,
                    MetaVista { inicio, tipo_retorno: tipo_retorno_de(f), parametros: par.1 },
                ),
            )
        },
        Err(m) => Err(m),
    }
}

/// Las firmas de las primeras `i` funciones, todas con el inicio provisional
/// `inicio`; una firma posterior reemplaza a una anterior con el mismo nombre.
pub open spec fn sp_firmas(
    fs: Seq<Funcion>,
    i: nat,
    funciones: Map<Seq<char>, MetaVista>,
    d: AdministradorDirecciones,
    inicio: usize,
) -> Result<(Map<Seq<char>, MetaVista>, AdministradorDirecciones), Seq<char>>
    decreases i,
{
    if i == 0 || i > fs.len() {
        Ok((funciones, d))
    } else {
        match sp_firmas(fs, (i - 1) as nat, funciones, d, inicio) {
            Ok(par) => match sp_firma(fs[i - 1], par.1, inicio) {
                Ok(firma) => Ok((par.0.insert(fs[i - 1].nombre@, firma.1), firma.0)),
                Err(m) => Err(m),
            },
            Err(m) => Err(m),
        }
    }
}

/// Las variables que ve el cuerpo de una función: las globales y sus primeros
/// `i` parámetros.
pub open spec fn sp_locales(vars: Map<Seq<char>, Registro>, ps: Seq<ParametroVista>, i: nat) -> Map<
    Seq<char>,
    Registro,
>
    decreases i,
{
    if i == 0 || i > ps.len() {
        vars
    } else {
        sp_locales(vars, ps, (i - 1) as nat).insert(
            ps[i - 1].0,
            (ps[i - 1].0, ps[i - 1].1, Some(ps[i - 1].2)),
        )
    }
}

/// La firma de una función con su inicio fijado en `inicio`.
pub open spec fn con_inicio(m: MetaVista, inicio: nat) -> MetaVista {
    MetaVista { inicio: inicio as usize, ..m }
}

/// Una función registrada: fija su inicio en el cuádruplo que sigue, avisa
/// dónde empieza, genera su cuerpo con sus parámetros como variables y cierra
/// con `EndFunc`.
pub open spec fn sp_funcion(f: Funcion, p: EstadoPrograma) -> Result<EstadoPrograma, Seq<char>> {
    if !p.funciones.dom().contains(f.nombre@) {
        Err(mensaje_funcion_no_registrada(f.nombre@))
    } else {
        let m = con_inicio(p.funciones[f.nombre@], siguiente(p.estado));
        let funciones = p.funciones.insert(f.nombre@, m);
        let c = Contexto {
            variables: sp_locales(p.variables, m.parametros, m.parametros.len()),
            funciones,
        };
        let s1 = match f.cuerpo {
            Some(cu) => sp_cuerpo(cu, c, p.estado),
            None => Ok(p.estado),
        };
        match s1 {
            Ok(s1) => Ok(
                EstadoPrograma {
                    funciones,
                    avisos: p.avisos.push(mensaje_inicio_funcion(f.nombre@, m.inicio as nat)),
                    estado: emitir(s1, cuadruplo(Operador::EndFunc, None, None, None)),
                    ..p
                },
            ),
            Err(m) => Err(m),
        }
    }
}

/// Las primeras `i` funciones, en orden.
pub open spec fn sp_funciones(fs: Seq<Funcion>, i: nat, p: EstadoPrograma) -> Result<
    EstadoPrograma,
    Seq<char>,
>
    decreases i,
{
    if i == 0 || i > fs.len() {
        Ok(p)
    } else {
        match sp_funciones(fs, (i - 1) as nat, p) {
            Ok(p1) => sp_funcion(fs[i - 1], p1),
            Err(m) => Err(m),
        }
    }
}

/// El estado al empezar a compilar: todo vacío y las direcciones en su base.
pub open spec fn programa_inicial() -> EstadoPrograma {
    EstadoPrograma {
        variables: Map::empty(),
        funciones: Map::empty(),
        avisos: Seq::empty(),
        estado: Estado {
            constantes: Map::empty(),
            direcciones: AdministradorDirecciones::inicial(),
            generador: VistaGenerador {
                operadores: Seq::empty(),
                operandos: Seq::empty(),
                tipos: Seq::empty(),
                saltos: Seq::empty(),
                codigo: Seq::empty(),
                temporales: 0,
            },
        },
    }
}

/// Lo que se sabe de un programa antes de su cuerpo principal: el salto
/// inicial (aún sin destino), las variables globales, y las firmas y los
/// cuerpos de las funciones. Las firmas se registran antes de generar
/// cualquier cuerpo, con un inicio provisional (el cuádruplo que sigue al
/// salto inicial); el inicio de cada función se fija al empezar su cuerpo.
pub open spec fn sp_declaraciones(prog: Programa) -> Result<EstadoPrograma, Seq<char>> {
    let p0 = programa_inicial();
    let s1 = sp_goto(p0.estado, 0);
    match sp_variables(
        prog.variables@,
        prog.variables@.len(),
        Declaraciones { variables: Map::empty(), direcciones: s1.direcciones, avisos: Seq::empty() },
    ) {
        Ok(dcl) => match sp_firmas(
            prog.funciones@,
            prog.funciones@.len(),
            Map::empty(),
            dcl.direcciones,
            siguiente(s1) as usize,
        ) {
            Ok(firmas) => sp_funciones(
                prog.funciones@,
                prog.funciones@.len(),
                EstadoPrograma {
                    variables: dcl.variables,
                    funciones: firmas.0,
                    avisos: dcl.avisos,
                    estado: Estado { direcciones: firmas.1, ..s1 },
                },
            ),
            Err(m) => Err(m),
        },
        Err(m) => Err(m),
    }
}

/// Un `Gosub` a una función de la tabla salta a su inicio; los demás
/// cuádruplos quedan igual.
pub open spec fn corregir_llamada(q: CuadruploVista, funciones: Map<Seq<char>, MetaVista>) -> CuadruploVista {
    if q.operador == Operador::Gosub && q.izquierda is Some && funciones.dom().contains(
        q.izquierda->0,
    ) {
        CuadruploVista {
            resultado: Some(decimal(funciones[q.izquierda->0].inicio as nat)),
            ..q
        }
    } else {
        q
    }
}

/// El código con cada `Gosub` dirigido al inicio de su función.
pub open spec fn corregir_llamadas(
    codigo: Seq<CuadruploVista>,
    funciones: Map<Seq<char>, MetaVista>,
) -> Seq<CuadruploVista> {
    codigo.map_values(|q: CuadruploVista| corregir_llamada(q, funciones))
}

/// El estado con cada `Gosub` dirigido al inicio de su función.
pub open spec fn con_llamadas_corregidas(s: Estado, funciones: Map<Seq<char>, MetaVista>) -> Estado {
    Estado {
        generador: VistaGenerador {
            codigo: corregir_llamadas(s.generador.codigo, funciones),
            ..s.generador
        },
        ..s
    }
}

/// Un programa: sus declaraciones y funciones, y el cuerpo principal, al que
/// se rellena el salto inicial. Al final, las llamadas generadas antes de
/// conocer el inicio de su función se dirigen a ese inicio.
pub open spec fn sp_programa(prog: Programa) -> Result<EstadoPrograma, Seq<char>> {
    match sp_declaraciones(prog) {
        Ok(p4) => match sp_rellenar(p4.estado, 0, siguiente(p4.estado)) {
            Ok(s5) => match sp_cuerpo(
                prog.cuerpo,
                Contexto { variables: p4.variables, funciones: p4.funciones },
                s5,
            ) {
                Ok(s6) => Ok(
                    EstadoPrograma { estado: con_llamadas_corregidas(s6, p4.funciones), ..p4 },
                ),
                Err(m) => Err(m),
            },
            Err(m) => Err(m),
        },
        Err(m) => Err(m),
    }
}

} // verus!
