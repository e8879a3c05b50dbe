//! Compilación de un programa Patito: recorre su árbol, declara variables y
//! funciones, registra constantes y genera los cuádruplos.

use vstd::prelude::*;

use crate::arbol::{Cuerpo, Estatuto, Exp, Expresion, Factor, Llamada, Termino};
use crate::cubo::CuboSemantico;
use crate::direcciones::{AdministradorDirecciones, Segmento};
use crate::generador::GeneradorCuadruplos;
use crate::semantica::{buscar_variable_info, registrar_constante, texto_no_declarada};
use crate::tabla::Tabla;
use crate::texto::{a_decimal, decimal, mismo_texto, unir};
use crate::tipos::{ConstanteInfo, TablaConstantes, TablaVariables, Tipo, VariableInfo};
use crate::traduccion::{
    mensaje_cantidad_argumentos, mensaje_demasiados_argumentos, mensaje_funcion_no_declarada,
    sp_rellenar, sp_gotof, sp_asigna, sp_ciclo, sp_condicion, sp_cuerpo, sp_estatuto, sp_estatutos,
    sp_llamada, sp_argumentos, sp_exp, sp_expresion, sp_factor, sp_llamada_expr, sp_operar,
    sp_preparar_llamada, sp_resto_exp, sp_resto_termino, sp_termino, tipo_constante, tipo_de_texto,
    Contexto, Estado, MetaVista, Paso, Registro,
};

verus! {

/// Un parámetro de una función: su nombre, su tipo y su dirección local.
#[derive(Debug, Clone)]
pub struct ParamMeta {
    pub nombre: String,
    pub tipo: Tipo,
    pub direccion: usize,
}

/// Lo que se necesita para llamar a una función: dónde empieza, qué devuelve y
/// sus parámetros.
#[derive(Debug, Clone)]
pub struct FuncionMeta {
    pub inicio: usize,
    pub tipo_retorno: Tipo,
    pub parametros: Vec<ParamMeta>,
}

impl View for FuncionMeta {
    type V = MetaVista;

    open spec fn view(&self) -> MetaVista {
        MetaVista {
            inicio: self.inicio,
            tipo_retorno: self.tipo_retorno,
            parametros: self.parametros@.map_values(
                |p: ParamMeta| (p.nombre@, p.tipo, p.direccion),
            ),
        }
    }
}

/// Las funciones de un programa, por nombre.
pub type TablaFunciones = Tabla<FuncionMeta>;

/// Las variables de una tabla, vistas por su contenido.
pub open spec fn vista_variables(t: TablaVariables) -> Map<Seq<char>, Registro> {
    t.vista().map_values(|v: VariableInfo| (v.nombre@, v.tipo, v.direccion))
}

/// Las constantes de una tabla, vistas por su contenido.
pub open spec fn vista_constantes(t: TablaConstantes) -> Map<Seq<char>, Registro> {
    t.vista().map_values(|c: ConstanteInfo| (c.valor@, c.tipo, c.direccion))
}

/// Las funciones de una tabla, vistas por su contenido.
pub open spec fn vista_funciones(t: TablaFunciones) -> Map<Seq<char>, MetaVista> {
    t.vista().map_values(|m: FuncionMeta| m@)
}

/// El contexto que dan una tabla de variables y una de funciones.
pub open spec fn contexto(tabla: TablaVariables, funciones: TablaFunciones) -> Contexto {
    Contexto { variables: vista_variables(tabla), funciones: vista_funciones(funciones) }
}

/// El estado que forman las constantes, las direcciones y el generador.
pub open spec fn estado(
    constantes: TablaConstantes,
    direcciones: AdministradorDirecciones,
    generador: GeneradorCuadruplos,
) -> Estado {
    Estado { constantes: vista_constantes(constantes), direcciones, generador: generador@ }
}

/// El tipo que nombra un texto de tipo: `entero`, `flotante`, o `Error`.
pub fn tipo_desde_str(s: &str) -> (r: Tipo)
    ensures
        r == tipo_de_texto(s@),
{
    if mismo_texto(s, "entero") {
        Tipo::Entero
    } else if mismo_texto(s, "flotante") {
        Tipo::Flotante
    } else {
        Tipo::Error
    }
}

/// El tipo y la dirección (en texto) de una variable declarada.
pub fn obtener_variable(nombre: &str, tabla: &TablaVariables) -> (r: (Tipo, String))
    requires
        tabla.vista().dom().contains(nombre@),
        tabla.vista()[nombre@].direccion is Some,
    ensures
        r.0 == tabla.vista()[nombre@].tipo,
        r.1@ == decimal(tabla.vista()[nombre@].direccion->0 as nat),
{
    match buscar_variable_info(tabla, nombre) {
        Ok(info) => {
            let d = match info.direccion {
                Some(d) => d,
                None => 0,
            };
            (info.tipo, a_decimal(d))
        },
        Err(_) => (Tipo::Error, a_decimal(0)),
    }
}

/// Si el texto lleva un punto.
fn contiene_punto(s: &str) -> (r: bool)
    ensures
        r == s@.contains('.'),
{
    let n = s.unicode_len();
    let mut i: usize = 0;
    while i < n
        invariant
            n == s@.len(),
            i <= n,
            forall|j: int| 0 <= j < i ==> s@[j] != '.',
        decreases n - i,
    {
        if s.get_char(i) == '.' {
            return true;
        }
        i = i + 1;
    }
    false
}

/// Insertar y luego transformar los valores es transformar y luego insertar.
pub proof fn lema_mapa_insertar<K, V, W>(m: Map<K, V>, k: K, v: V, f: spec_fn(V) -> W)
    ensures
        m.insert(k, v).map_values(f) == m.map_values(f).insert(k, f(v)),
{
    assert(m.insert(k, v).map_values(f) =~= m.map_values(f).insert(k, f(v)));
}

proof fn lema_falla_termino(r: Seq<(String, Factor)>, i: nat, n: nat, c: Contexto, s: Estado)
    requires
        i <= n <= r.len(),
        sp_resto_termino(r, i, c, s) is Err,
    ensures
        sp_resto_termino(r, n, c, s) == sp_resto_termino(r, i, c, s),
    decreases n,
{
    if i < n {
        lema_falla_termino(r, i, (n - 1) as nat, c, s);
    }
}

proof fn lema_falla_exp(r: Seq<(String, Termino)>, i: nat, n: nat, c: Contexto, s: Estado)
    requires
        i <= n <= r.len(),
        sp_resto_exp(r, i, c, s) is Err,
    ensures
        sp_resto_exp(r, n, c, s) == sp_resto_exp(r, i, c, s),
    decreases n,
{
    if i < n {
        lema_falla_exp(r, i, (n - 1) as nat, c, s);
    }
}

proof fn lema_falla_argumentos(
    nombre: Seq<char>,
    a: Seq<Expresion>,
    i: nat,
    n: nat,
    m: MetaVista,
    c: Contexto,
    s: Estado,
)
    requires
        i <= n <= a.len(),
        sp_argumentos(nombre, a, i, m, c, s) is Err,
    ensures
        sp_argumentos(nombre, a, n, m, c, s) == sp_argumentos(nombre, a, i, m, c, s),
    decreases n,
{
    if i < n {
        lema_falla_argumentos(nombre, a, i, (n - 1) as nat, m, c, s);
    }
}

/// El resultado de un paso de compilación: si tuvo éxito, el estado final es
/// el que da el esquema; si no, el esquema no da ninguno.
pub open spec fn cumple(r: Result<(), String>, esperado: Paso, final_: Estado) -> bool {
    match r {
        Ok(_) => esperado == Ok::<_, Seq<char>>(final_),
        Err(m) => esperado == Err::<Estado, Seq<char>>(m@),
    }
}

/// Si una variable está declarada y tiene dirección.
fn variable_con_direccion(nombre: &str, tabla: &TablaVariables) -> (r: bool)
    ensures
        r == (tabla.vista().dom().contains(nombre@) && tabla.vista()[nombre@].direccion is Some),
{
    match tabla.obtener(nombre) {
        Some(v) => v.direccion.is_some(),
        None => false,
    }
}

/// Aplica el operador `operador` a los dos últimos operandos.
fn operar(
    operador: String,
    cubo: &CuboSemantico,
    constantes: &TablaConstantes,
    direcciones: &mut AdministradorDirecciones,
    generador: &mut GeneradorCuadruplos,
) -> (r: Result<(), String>)
    ensures
        cumple(
            r,
            sp_operar(operador@, estado(*constantes, *old(direcciones), *old(generador))),
            estado(*constantes, *final(direcciones), *final(generador)),
        ),
{
    let no = generador.operandos.len();
    let nt = generador.tipos.len();
    if no < 2 || nt < 2 {
        return Err("Faltan operandos".to_owned());
    }
    let tipo = cubo.validar(generador.tipos[nt - 2], operador.as_str(), generador.tipos[nt - 1]);
    if tipo != Tipo::Error && !direcciones.hay_direccion(Segmento::Temporal, &tipo) {
        return Err("Tipo temporal no soportado".to_owned());
    }
    generador.push_operador(operador);
    assert(generador@.operadores.drop_last() =~= old(generador)@.operadores);
    generador.generar_operacion(cubo, direcciones)
}

/// Genera el código de un factor: deja su valor como operando.
pub fn procesar_factor(
    f: &Factor,
    tabla: &TablaVariables,
    constantes: &mut TablaConstantes,
    direcciones: &mut AdministradorDirecciones,
    generador: &mut GeneradorCuadruplos,
    funciones: &TablaFunciones,
) -> (r: Result<(), String>)
    ensures
        cumple(
            r,
            sp_factor(
                *f,
                contexto(*tabla, *funciones),
                estado(*old(constantes), *old(direcciones), *old(generador)),
            ),
            estado(*final(constantes), *final(direcciones), *final(generador)),
        ),
    decreases f,
{
    match f {
        Factor::Llamada(l) => procesar_llamada_expr(
            l,
            tabla,
            constantes,
            direcciones,
            generador,
            funciones,
        ),
        Factor::Id(nombre) => {
            if !variable_con_direccion(nombre.as_str(), tabla) {
                return Err(texto_no_declarada(nombre.as_str()));
            }
            let (tipo, direccion) = obtener_variable(nombre.as_str(), tabla);
            generador.push_operando(direccion, tipo);
            Ok(())
        },
        Factor::Cte(v) => {
            let valor = v.clone();
            let tipo = if contiene_punto(valor.as_str()) {
                Tipo::Flotante
            } else {
                Tipo::Entero
            };
            assert(tipo == tipo_constante(v@));
            match constantes.obtener(valor.as_str()) {
                Some(c) => {
                    if c.direccion.is_none() {
                        return Err("Constante sin dirección".to_owned());
                    }
                },
                None => {
                    if !direcciones.hay_direccion(Segmento::Constante, &tipo) {
                        return Err("Tipo constante no soportado".to_owned());
                    }
                },
            }
            proof {
                lema_mapa_insertar(
                    constantes.vista(),
                    v@,
                    ConstanteInfo { valor: *v, tipo, direccion: old(direcciones).contador(Segmento::Constante, tipo) },
                    |c: ConstanteInfo| (c.valor@, c.tipo, c.direccion),
                );
            }
            let direccion = registrar_constante(constantes, valor, tipo, direcciones);
            generador.push_operando(a_decimal(direccion), tipo);
            Ok(())
        },
        Factor::Expresion(e) => procesar_expresion(
            e,
            tabla,
            constantes,
            direcciones,
            generador,
            funciones,
        ),
    }
}

/// Genera el código de un término: sus factores, operados de izquierda a derecha.
pub fn procesar_termino(
    t: &Termino,
    tabla: &TablaVariables,
    constantes: &mut TablaConstantes,
    direcciones: &mut AdministradorDirecciones,
    generador: &mut GeneradorCuadruplos,
    cubo: &CuboSemantico,
    funciones: &TablaFunciones,
) -> (r: Result<(), String>)
    ensures
        cumple(
            r,
            sp_termino(
                *t,
                contexto(*tabla, *funciones),
                estado(*old(constantes), *old(direcciones), *old(generador)),
            ),
            estado(*final(constantes), *final(direcciones), *final(generador)),
        ),
    decreases t,
{
    let ghost c = contexto(*tabla, *funciones);
    procesar_factor(&t.primero, tabla, constantes, direcciones, generador, funciones)?;
    let ghost s1 = estado(*constantes, *direcciones, *generador);
    let n = t.resto.len();
    let mut i: usize = 0;
    while i < n
        invariant
            c == contexto(*tabla, *funciones),
            n == t.resto@.len(),
            i <= n,
            sp_factor(t.primero, c, estado(*old(constantes), *old(direcciones), *old(generador))) == Ok::<_, Seq<char>>(
                s1,
            ),
            sp_resto_termino(t.resto@, i as nat, c, s1) == Ok::<_, Seq<char>>(
                estado(*constantes, *direcciones, *generador),
            ),
        decreases n - i,
    {
        proof {
            assert(decreases_to!(*t => t.resto));
            assert(decreases_to!(t.resto => t.resto@));
            assert(decreases_to!(t.resto@ => t.resto@[i as int]));
            assert(decreases_to!(t.resto@[i as int] => t.resto@[i as int].1));
        }
        let operador = t.resto[i].0.clone();
        let paso = procesar_factor(
            &t.resto[i].1,
            tabla,
            constantes,
            direcciones,
            generador,
            funciones,
        );
        if paso.is_err() {
            proof {
                lema_falla_termino(t.resto@, (i + 1) as nat, n as nat, c, s1);
            }
            return paso;
        }
        let paso = operar(operador, cubo, constantes, direcciones, generador);
        if paso.is_err() {
            proof {
                lema_falla_termino(t.resto@, (i + 1) as nat, n as nat, c, s1);
            }
            return paso;
        }
        i = i + 1;
    }
    Ok(())
}

/// Genera el código de una expresión aritmética: sus términos, operados de
/// izquierda a derecha.
pub fn procesar_exp(
    x: &Exp,
    tabla: &TablaVariables,
    constantes: &mut TablaConstantes,
    direcciones: &mut AdministradorDirecciones,
    generador: &mut GeneradorCuadruplos,
    cubo: &CuboSemantico,
    funciones: &TablaFunciones,
) -> (r: Result<(), String>)
    ensures
        cumple(
            r,
            sp_exp(
                *x,
                contexto(*tabla, *funciones),
                estado(*old(constantes), *old(direcciones), *old(generador)),
            ),
            estado(*final(constantes), *final(direcciones), *final(generador)),
        ),
    decreases x,
{
    let ghost c = contexto(*tabla, *funciones);
    procesar_termino(&x.primero, tabla, constantes, direcciones, generador, cubo, funciones)?;
    let ghost s1 = estado(*constantes, *direcciones, *generador);
    let n = x.resto.len();
    let mut i: usize = 0;
    while i < n
        invariant
            c == contexto(*tabla, *funciones),
            n == x.resto@.len(),
            i <= n,
            sp_termino(x.primero, c, estado(*old(constantes), *old(direcciones), *old(generador))) == Ok::<_, Seq<char>>(
                s1,
            ),
            sp_resto_exp(x.resto@, i as nat, c, s1) == Ok::<_, Seq<char>>(
                estado(*constantes, *direcciones, *generador),
            ),
        decreases n - i,
    {
        proof {
            assert(decreases_to!(*x => x.resto));
            assert(decreases_to!(x.resto => x.resto@));
            assert(decreases_to!(x.resto@ => x.resto@[i as int]));
            assert(decreases_to!(x.resto@[i as int] => x.resto@[i as int].1));
        }
        let operador = x.resto[i].0.clone();
        let paso = procesar_termino(
            &x.resto[i].1,
            tabla,
            constantes,
            direcciones,
            generador,
            cubo,
            funciones,
        );
        if paso.is_err() {
            proof {
                lema_falla_exp(x.resto@, (i + 1) as nat, n as nat, c, s1);
            }
            return paso;
        }
        let paso = operar(operador, cubo, constantes, direcciones, generador);
        if paso.is_err() {
            proof {
                lema_falla_exp(x.resto@, (i + 1) as nat, n as nat, c, s1);
            }
            return paso;
        }
        i = i + 1;
    }
    Ok(())
}

/// Genera el código de una expresión: su valor queda como operando.
pub fn procesar_expresion(
    e: &Expresion,
    tabla: &TablaVariables,
    constantes: &mut TablaConstantes,
    direcciones: &mut AdministradorDirecciones,
    generador: &mut GeneradorCuadruplos,
    funciones: &TablaFunciones,
) -> (r: Result<(), String>)
    ensures
        cumple(
            r,
            sp_expresion(
                *e,
                contexto(*tabla, *funciones),
                estado(*old(constantes), *old(direcciones), *old(generador)),
            ),
            estado(*final(constantes), *final(direcciones), *final(generador)),
        ),
    decreases e,
{
    let cubo = CuboSemantico::nuevo();
    procesar_exp(&e.izquierda, tabla, constantes, direcciones, generador, &cubo, funciones)?;
    match &e.relacional {
        Some(par) => {
            let operador = par.0.clone();
            procesar_exp(&par.1, tabla, constantes, direcciones, generador, &cubo, funciones)?;
            operar(operador, &cubo, constantes, direcciones, generador)
        },
        None => Ok(()),
    }
}

/// El mensaje de una llamada a una función no declarada.
fn texto_funcion_no_declarada(nombre: &str) -> (r: String)
    ensures
        r@ == mensaje_funcion_no_declarada(nombre@),
{
    unir(unir("Función '".to_owned(), nombre), "' no declarada")
}

/// El mensaje de una llamada con más argumentos que parámetros.
fn texto_demasiados_argumentos(nombre: &str) -> (r: String)
    ensures
        r@ == mensaje_demasiados_argumentos(nombre@),
{
    unir(unir("Demasiados argumentos para función '".to_owned(), nombre), "'")
}

/// El mensaje de una llamada con menos argumentos que parámetros.
fn texto_cantidad_argumentos(nombre: &str, esperados: usize, recibidos: usize) -> (r: String)
    ensures
        r@ == mensaje_cantidad_argumentos(nombre@, esperados as nat, recibidos as nat),
{
    let m = unir(
        unir("Cantidad incorrecta de argumentos para función '".to_owned(), nombre),
        "': esperados ",
    );
    let e = a_decimal(esperados);
    let m = unir(m, e.as_str());
    let m = unir(m, ", recibidos ");
    let r = a_decimal(recibidos);
    unir(m, r.as_str())
}

/// Genera la reserva y el paso de argumentos de una llamada; devuelve la
/// función llamada.
fn preparar_llamada<'a>(
    l: &Llamada,
    tabla: &TablaVariables,
    constantes: &mut TablaConstantes,
    direcciones: &mut AdministradorDirecciones,
    generador: &mut GeneradorCuadruplos,
    funciones: &'a TablaFunciones,
) -> (r: Result<&'a FuncionMeta, String>)
    ensures
        ({
            let esperado = sp_preparar_llamada(
                *l,
                contexto(*tabla, *funciones),
                estado(*old(constantes), *old(direcciones), *old(generador)),
            );
            match r {
                Ok(m) => {
                    &&& esperado == Ok::<_, Seq<char>>(
                        estado(*final(constantes), *final(direcciones), *final(generador)),
                    )
                    &&& funciones.vista().dom().contains(l.nombre@)
                    &&& *m == funciones.vista()[l.nombre@]
                },
                Err(m) => esperado == Err::<Estado, Seq<char>>(m@),
            }
        }),
    decreases l, 1nat,
{
    let ghost c = contexto(*tabla, *funciones);
    let meta = match funciones.obtener(l.nombre.as_str()) {
        Some(m) => m,
        None => {
            return Err(texto_funcion_no_declarada(l.nombre.as_str()));
        },
    };
    let ghost m = meta@;
    assert(c.funciones[l.nombre@] == m);
    generador.generar_era(l.nombre.clone());
    let ghost s1 = estado(*constantes, *direcciones, *generador);
    let n = l.argumentos.len();
    let mut i: usize = 0;
    while i < n
        invariant
            c == contexto(*tabla, *funciones),
            m == meta@,
            c.funciones.dom().contains(l.nombre@),
            c.funciones[l.nombre@] == m,
            n == l.argumentos@.len(),
            i <= n,
            s1 == crate::traduccion::emitir(
                estado(*old(constantes), *old(direcciones), *old(generador)),
                crate::generador::cuadruplo(
                    crate::tipos::Operador::Era,
                    None,
                    None,
                    Some(l.nombre@),
                ),
            ),
            sp_argumentos(l.nombre@, l.argumentos@, i as nat, m, c, s1) == Ok::<_, Seq<char>>(
                estado(*constantes, *direcciones, *generador),
            ),
        decreases n - i,
    {
        proof {
            assert(decreases_to!(*l => l.argumentos));
            assert(decreases_to!(l.argumentos => l.argumentos@));
            assert(decreases_to!(l.argumentos@ => l.argumentos@[i as int]));
        }
        let paso = procesar_expresion(
            &l.argumentos[i],
            tabla,
            constantes,
            direcciones,
            generador,
            funciones,
        );
        let error = if paso.is_err() {
            Some(paso.unwrap_err())
        } else if i >= meta.parametros.len() {
            Some(texto_demasiados_argumentos(l.nombre.as_str()))
        } else if generador.operandos.len() == 0 {
            Some("Falta el argumento".to_owned())
        } else {
            None
        };
        match error {
            Some(e) => {
                proof {
                    lema_falla_argumentos(
                        l.nombre@,
                        l.argumentos@,
                        (i + 1) as nat,
                        n as nat,
                        m,
                        c,
                        s1,
                    );
                }
                return Err(e);
            },
            None => {},
        }
        let destino = meta.parametros[i].direccion;
        generador.generar_param(destino);
        i = i + 1;
    }
    if n != meta.parametros.len() {
        return Err(texto_cantidad_argumentos(l.nombre.as_str(), meta.parametros.len(), n));
    }
    Ok(meta)
}

/// Genera una llamada dentro de una expresión: su valor de retorno queda como
/// operando, en un temporal nuevo.
pub fn procesar_llamada_expr(
    l: &Llamada,
    tabla: &TablaVariables,
    constantes: &mut TablaConstantes,
    direcciones: &mut AdministradorDirecciones,
    generador: &mut GeneradorCuadruplos,
    funciones: &TablaFunciones,
) -> (r: Result<(), String>)
    ensures
        cumple(
            r,
            sp_llamada_expr(
                *l,
                contexto(*tabla, *funciones),
                estado(*old(constantes), *old(direcciones), *old(generador)),
            ),
            estado(*final(constantes), *final(direcciones), *final(generador)),
        ),
    decreases l, 2nat,
{
    let meta = preparar_llamada(l, tabla, constantes, direcciones, generador, funciones)?;
    let tipo_retorno = meta.tipo_retorno;
    if !direcciones.hay_direccion(Segmento::Temporal, &tipo_retorno) {
        return Err("Tipo temporal no soportado".to_owned());
    }
    let direccion = direcciones.nueva_temporal(&tipo_retorno);
    let temporal = a_decimal(direccion);
    generador.generar_gosub_con_retorno(l.nombre.clone(), meta.inicio, temporal.clone());
    generador.push_operando(temporal, tipo_retorno);
    Ok(())
}

/// Genera una asignación a una variable declarada.
pub fn procesar_asignacion(
    variable: &str,
    expresion: &Expresion,
    tabla: &TablaVariables,
    constantes: &mut TablaConstantes,
    direcciones: &mut AdministradorDirecciones,
    generador: &mut GeneradorCuadruplos,
    funciones: &TablaFunciones,
) -> (r: Result<(), String>)
    ensures
        cumple(
            r,
            sp_asigna(
                variable@,
                *expresion,
                contexto(*tabla, *funciones),
                estado(*old(constantes), *old(direcciones), *old(generador)),
            ),
            estado(*final(constantes), *final(direcciones), *final(generador)),
        ),
{
    let cubo = CuboSemantico::nuevo();
    if !variable_con_direccion(variable, tabla) {
        return Err(texto_no_declarada(variable));
    }
    let (tipo_variable, direccion_variable) = obtener_variable(variable, tabla);
    procesar_expresion(expresion, tabla, constantes, direcciones, generador, funciones)?;
    if generador.operandos.len() == 0 || generador.tipos.len() == 0 {
        return Err("Falta el valor a asignar".to_owned());
    }
    generador.generar_asignacion(direccion_variable, tipo_variable, &cubo)
}

/// Genera la impresión de una expresión.
pub fn procesar_print(
    expresion: &Expresion,
    tabla: &TablaVariables,
    constantes: &mut TablaConstantes,
    direcciones: &mut AdministradorDirecciones,
    generador: &mut GeneradorCuadruplos,
    funciones: &TablaFunciones,
) -> (r: Result<(), String>)
    ensures
        cumple(
            r,
            sp_estatuto(
                Estatuto::Imprime(*expresion),
                contexto(*tabla, *funciones),
                estado(*old(constantes), *old(direcciones), *old(generador)),
            ),
            estado(*final(constantes), *final(direcciones), *final(generador)),
        ),
{
    procesar_expresion(expresion, tabla, constantes, direcciones, generador, funciones)?;
    if generador.operandos.len() == 0 {
        return Err("Falta el valor a imprimir".to_owned());
    }
    generador.generar_print();
    Ok(())
}

/// Genera el regreso de una función con el valor de una expresión.
pub fn procesar_retorno(
    expresion: &Expresion,
    tabla: &TablaVariables,
    constantes: &mut TablaConstantes,
    direcciones: &mut AdministradorDirecciones,
    generador: &mut GeneradorCuadruplos,
    funciones: &TablaFunciones,
) -> (r: Result<(), String>)
    ensures
        cumple(
            r,
            sp_estatuto(
                Estatuto::Retorno(*expresion),
                contexto(*tabla, *funciones),
                estado(*old(constantes), *old(direcciones), *old(generador)),
            ),
            estado(*final(constantes), *final(direcciones), *final(generador)),
        ),
{
    procesar_expresion(expresion, tabla, constantes, direcciones, generador, funciones)?;
    if generador.operandos.len() == 0 {
        return Err("Falta el valor a regresar".to_owned());
    }
    generador.generar_return();
    Ok(())
}

/// Genera una llamada usada como estatuto.
pub fn procesar_llamada(
    l: &Llamada,
    tabla: &TablaVariables,
    constantes: &mut TablaConstantes,
    direcciones: &mut AdministradorDirecciones,
    generador: &mut GeneradorCuadruplos,
    funciones: &TablaFunciones,
) -> (r: Result<(), String>)
    ensures
        cumple(
            r,
            sp_llamada(
                *l,
                contexto(*tabla, *funciones),
                estado(*old(constantes), *old(direcciones), *old(generador)),
            ),
            estado(*final(constantes), *final(direcciones), *final(generador)),
        ),
{
    let meta = preparar_llamada(l, tabla, constantes, direcciones, generador, funciones)?;
    generador.generar_gosub(l.nombre.clone(), meta.inicio);
    Ok(())
}

/// Saca la condición y genera su salto en falso; devuelve el índice del salto.
fn salto_en_falso(generador: &mut GeneradorCuadruplos) -> (r: Result<usize, String>)
    ensures
        ({
            let s = Estado { constantes: Map::empty(), direcciones: AdministradorDirecciones::inicial(), generador: old(generador)@ };
            match r {
                Ok(i) => {
                    &&& i == old(generador)@.codigo.len()
                    &&& sp_gotof(s) == Ok::<_, Seq<char>>(
                        Estado { generador: final(generador)@, ..s },
                    )
                },
                Err(m) => sp_gotof(s) == Err::<Estado, Seq<char>>(m@),
            }
        }),
{
    if generador.operandos.len() == 0 || generador.tipos.len() == 0 {
        return Err("Falta la condición".to_owned());
    }
    let indice = generador.siguiente_cuadruplo();
    let r = generador.generar_gotof();
    let ghost s = Estado { constantes: Map::empty(), direcciones: AdministradorDirecciones::inicial(), generador: old(generador)@ };
    proof {
        if r is Ok {
            assert(r == Ok::<usize, String>(indice));
            assert(sp_gotof(s) is Ok);
            assert(sp_gotof(s)->Ok_0.generador == generador@);
        } else {
            assert(old(generador)@.tipos.last() != Tipo::Bool);
        }
    }
    r
}

/// Pone `destino` como destino del salto `indice`.
fn rellenar(generador: &mut GeneradorCuadruplos, indice: usize, destino: usize) -> (r: Result<(), String>)
    ensures
        ({
            let s = Estado { constantes: Map::empty(), direcciones: AdministradorDirecciones::inicial(), generador: old(generador)@ };
            match r {
                Ok(_) => sp_rellenar(s, indice as nat, destino as nat) == Ok::<_, Seq<char>>(
                    Estado { generador: final(generador)@, ..s },
                ),
                Err(m) => sp_rellenar(s, indice as nat, destino as nat) == Err::<Estado, Seq<char>>(
                    m@,
                ),
            }
        }),
{
    if indice >= generador.siguiente_cuadruplo() {
        return Err("Salto fuera del código".to_owned());
    }
    generador.rellenar_salto(indice, destino);
    Ok(())
}

/// Genera un `si` con su `sino` opcional.
pub fn procesar_condicion(
    st: &Estatuto,
    tabla: &TablaVariables,
    constantes: &mut TablaConstantes,
    direcciones: &mut AdministradorDirecciones,
    generador: &mut GeneradorCuadruplos,
    funciones: &TablaFunciones,
) -> (r: Result<(), String>)
    ensures
        cumple(
            r,
            sp_condicion(
                *st,
                contexto(*tabla, *funciones),
                estado(*old(constantes), *old(direcciones), *old(generador)),
            ),
            estado(*final(constantes), *final(direcciones), *final(generador)),
        ),
    decreases st, 1nat,
{
    match st {
        Estatuto::Condicion(expresion, entonces, sino) => {
            procesar_expresion(expresion, tabla, constantes, direcciones, generador, funciones)?;
            let salto_falso = salto_en_falso(generador)?;
            procesar_cuerpo(entonces, tabla, constantes, direcciones, generador, funciones)?;
            match sino {
                Some(otro) => {
                    let salto_fin = generador.generar_goto(0);
                    let inicio_sino = generador.siguiente_cuadruplo();
                    rellenar(generador, salto_falso, inicio_sino)?;
                    procesar_cuerpo(otro, tabla, constantes, direcciones, generador, funciones)?;
                    let fin = generador.siguiente_cuadruplo();
                    rellenar(generador, salto_fin, fin)
                },
                None => {
                    let fin = generador.siguiente_cuadruplo();
                    rellenar(generador, salto_falso, fin)
                },
            }
        },
        _ => Err("No es un si".to_owned()),
    }
}

/// Genera un ciclo.
pub fn procesar_ciclo(
    st: &Estatuto,
    tabla: &TablaVariables,
    constantes: &mut TablaConstantes,
    direcciones: &mut AdministradorDirecciones,
    generador: &mut GeneradorCuadruplos,
    funciones: &TablaFunciones,
) -> (r: Result<(), String>)
    ensures
        cumple(
            r,
            sp_ciclo(
                *st,
                contexto(*tabla, *funciones),
                estado(*old(constantes), *old(direcciones), *old(generador)),
            ),
            estado(*final(constantes), *final(direcciones), *final(generador)),
        ),
    decreases st, 1nat,
{
    match st {
        Estatuto::Ciclo(expresion, cuerpo) => {
            let inicio_ciclo = generador.siguiente_cuadruplo();
            procesar_expresion(expresion, tabla, constantes, direcciones, generador, funciones)?;
            let salto_falso = salto_en_falso(generador)?;
            procesar_cuerpo(cuerpo, tabla, constantes, direcciones, generador, funciones)?;
            generador.generar_goto(inicio_ciclo);
            let fin = generador.siguiente_cuadruplo();
            rellenar(generador, salto_falso, fin)
        },
        _ => Err("No es un ciclo".to_owned()),
    }
}

/// Genera un estatuto.
pub fn procesar_estatuto(
    st: &Estatuto,
    tabla: &TablaVariables,
    constantes: &mut TablaConstantes,
    direcciones: &mut AdministradorDirecciones,
    generador: &mut GeneradorCuadruplos,
    funciones: &TablaFunciones,
) -> (r: Result<(), String>)
    ensures
        cumple(
            r,
            sp_estatuto(
                *st,
                contexto(*tabla, *funciones),
                estado(*old(constantes), *old(direcciones), *old(generador)),
            ),
            estado(*final(constantes), *final(direcciones), *final(generador)),
        ),
    decreases st, 2nat,
{
    match st {
        Estatuto::Asigna(variable, expresion) => procesar_asignacion(
            variable.as_str(),
            expresion,
            tabla,
            constantes,
            direcciones,
            generador,
            funciones,
        ),
        Estatuto::Imprime(expresion) => procesar_print(
            expresion,
            tabla,
            constantes,
            direcciones,
            generador,
            funciones,
        ),
        Estatuto::Condicion(_, _, _) => procesar_condicion(
            st,
            tabla,
            constantes,
            direcciones,
            generador,
            funciones,
        ),
        Estatuto::Ciclo(_, _) => procesar_ciclo(
            st,
            tabla,
            constantes,
            direcciones,
            generador,
            funciones,
        ),
        Estatuto::Retorno(expresion) => procesar_retorno(
            expresion,
            tabla,
            constantes,
            direcciones,
            generador,
            funciones,
        ),
        Estatuto::Llamada(l) => procesar_llamada(
            l,
            tabla,
            constantes,
            direcciones,
            generador,
            funciones,
        ),
    }
}

proof fn lema_falla_estatutos(r: Seq<Estatuto>, i: nat, n: nat, c: Contexto, s: Estado)
    requires
        i <= n <= r.len(),
        sp_estatutos(r, i, c, s) is Err,
    ensures
        sp_estatutos(r, n, c, s) == sp_estatutos(r, i, c, s),
    decreases n,
{
    if i < n {
        lema_falla_estatutos(r, i, (n - 1) as nat, c, s);
    }
}

/// Genera los estatutos de un cuerpo, en orden.
pub fn procesar_cuerpo(
    cu: &Cuerpo,
    tabla: &TablaVariables,
    constantes: &mut TablaConstantes,
    direcciones: &mut AdministradorDirecciones,
    generador: &mut GeneradorCuadruplos,
    funciones: &TablaFunciones,
) -> (r: Result<(), String>)
    ensures
        cumple(
            r,
            sp_cuerpo(
                *cu,
                contexto(*tabla, *funciones),
                estado(*old(constantes), *old(direcciones), *old(generador)),
            ),
            estado(*final(constantes), *final(direcciones), *final(generador)),
        ),
    decreases cu, 0nat,
{
    let ghost c = contexto(*tabla, *funciones);
    let ghost s0 = estado(*constantes, *direcciones, *generador);
    let n = cu.estatutos.len();
    let mut i: usize = 0;
    while i < n
        invariant
            c == contexto(*tabla, *funciones),
            s0 == estado(*old(constantes), *old(direcciones), *old(generador)),
            n == cu.estatutos@.len(),
            i <= n,
            sp_estatutos(cu.estatutos@, i as nat, c, s0) == Ok::<_, Seq<char>>(
                estado(*constantes, *direcciones, *generador),
            ),
        decreases n - i,
    {
        proof {
            assert(decreases_to!(*cu => cu.estatutos));
            assert(decreases_to!(cu.estatutos => cu.estatutos@));
            assert(decreases_to!(cu.estatutos@ => cu.estatutos@[i as int]));
        }
        let paso = procesar_estatuto(
            &cu.estatutos[i],
            tabla,
            constantes,
            direcciones,
            generador,
            funciones,
        );
        if paso.is_err() {
            proof {
                lema_falla_estatutos(cu.estatutos@, (i + 1) as nat, n as nat, c, s0);
            }
            return paso;
        }
        i = i + 1;
    }
    Ok(())
}

} // verus!
