//! Compilación de un programa completo: variables globales, firmas y cuerpos de
//! las funciones, y cuerpo principal.

use vstd::prelude::*;

use crate::analizador::analizar;
use crate::arbol::{Funcion, Programa};
use crate::compilador::{
    estado, lema_mapa_insertar, procesar_cuerpo, tipo_desde_str, vista_constantes,
    vista_funciones, vista_variables, FuncionMeta, ParamMeta, TablaFunciones,
};
use crate::direcciones::{AdministradorDirecciones, Segmento};
use crate::generador::{lema_vista_textos_push, vista_textos, GeneradorCuadruplos, VistaGenerador};
use crate::gramatica::{forma_programa, sp_analizar};
use crate::lexico::mensaje_sintaxis;
use crate::semantica::{agregar_variable, texto_variable_duplicada};
use crate::tabla::Tabla;
use crate::texto::{a_decimal, unir};
use crate::tipos::{Operador, TablaConstantes, TablaVariables, Tipo, VariableInfo};
use crate::traduccion::{
    con_inicio, corregir_llamada, corregir_llamadas, mensaje_inicio_funcion, programa_inicial, sp_firma, sp_firmas, sp_funcion, sp_funciones,
    sp_goto, sp_locales, sp_parametros, sp_programa, sp_variables, Declaraciones, EstadoPrograma,
    MetaVista,
};

verus! {

/// Las declaraciones que forman una tabla de variables, las direcciones y los avisos.
pub open spec fn declaraciones(
    tabla: TablaVariables,
    direcciones: AdministradorDirecciones,
    avisos: Seq<String>,
) -> Declaraciones {
    Declaraciones { variables: vista_variables(tabla), direcciones, avisos: vista_textos(avisos) }
}

proof fn lema_falla_variables(vs: Seq<(String, String)>, i: nat, n: nat, d: Declaraciones)
    requires
        i <= n <= vs.len(),
        sp_variables(vs, i, d) is Err,
    ensures
        sp_variables(vs, n, d) == sp_variables(vs, i, d),
    decreases n,
{
    if i < n {
        lema_falla_variables(vs, i, (n - 1) as nat, d);
    }
}

/// Declara las variables globales, en orden, cada una con una dirección global
/// nueva; de cada una repetida deja un aviso.
pub fn registrar_variables(
    variables: &Vec<(String, String)>,
    tabla: &mut TablaVariables,
    direcciones: &mut AdministradorDirecciones,
    avisos: &mut Vec<String>,
) -> (r: Result<(), String>)
    ensures
        ({
            let esperado = sp_variables(
                variables@,
                variables@.len(),
                declaraciones(*old(tabla), *old(direcciones), old(avisos)@),
            );
            match r {
                Ok(_) => esperado == Ok::<_, Seq<char>>(
                    declaraciones(*final(tabla), *final(direcciones), final(avisos)@),
                ),
                Err(m) => esperado is Err && esperado->Err_0 == m@,
            }
        }),
{
    let ghost d0 = declaraciones(*tabla, *direcciones, avisos@);
    let n = variables.len();
    let mut i: usize = 0;
    while i < n
        invariant
            n == variables@.len(),
            i <= n,
            d0 == declaraciones(*old(tabla), *old(direcciones), old(avisos)@),
            sp_variables(variables@, i as nat, d0) == Ok::<_, Seq<char>>(
                declaraciones(*tabla, *direcciones, avisos@),
            ),
        decreases n - i,
    {
        let nombre = variables[i].0.clone();
        let tipo = tipo_desde_str(variables[i].1.as_str());
        if !tabla.contiene(nombre.as_str()) && !direcciones.hay_direccion(Segmento::Global, &tipo) {
            proof {
                lema_falla_variables(variables@, (i + 1) as nat, n as nat, d0);
            }
            return Err("Tipo global no soportado".to_owned());
        }
        proof {
            lema_mapa_insertar(
                tabla.vista(),
                nombre@,
                VariableInfo { nombre, tipo, direccion: direcciones.contador(Segmento::Global, tipo) },
                |v: VariableInfo| (v.nombre@, v.tipo, v.direccion),
            );
        }
        if !agregar_variable(tabla, nombre, tipo, direcciones) {
            let aviso = texto_variable_duplicada(variables[i].0.as_str());
            proof {
                lema_vista_textos_push(avisos@, aviso);
            }
            avisos.push(aviso);
        }
        i = i + 1;
    }
    Ok(())
}

proof fn lema_falla_parametros(
    ps: Seq<(String, String)>,
    i: nat,
    n: nat,
    d: AdministradorDirecciones,
)
    requires
        i <= n <= ps.len(),
        sp_parametros(ps, i, d) is Err,
    ensures
        sp_parametros(ps, n, d) == sp_parametros(ps, i, d),
    decreases n,
{
    if i < n {
        lema_falla_parametros(ps, i, (n - 1) as nat, d);
    }
}

/// Registra la firma de una función que empieza en el cuádruplo `inicio`: su
/// nombre, su tipo de retorno y sus parámetros, cada uno con una dirección
/// local nueva.
pub fn registrar_firma_funcion(
    f: &Funcion,
    direcciones: &mut AdministradorDirecciones,
    inicio: usize,
) -> (r: Result<(String, FuncionMeta), String>)
    ensures
        match r {
            Ok(par) => {
                &&& sp_firma(*f, *old(direcciones), inicio) == Ok::<_, Seq<char>>(
                    (*final(direcciones), par.1@),
                )
                &&& par.0@ == f.nombre@
            },
            Err(m) => sp_firma(*f, *old(direcciones), inicio) is Err && sp_firma(*f, *old(direcciones), inicio)->Err_0 == m@,
        },
{
    let tipo_retorno = match &f.tipo_retorno {
        Some(t) => tipo_desde_str(t.as_str()),
        None => Tipo::Void,
    };
    let ghost d0 = *direcciones;
    let mut parametros: Vec<ParamMeta> = Vec::new();
    assert(
        parametros@.map_values(|p: ParamMeta| (p.nombre@, p.tipo, p.direccion)) =~= Seq::empty()
    );
    let n = f.parametros.len();
    let mut i: usize = 0;
    while i < n
        invariant
            n == f.parametros@.len(),
            i <= n,
            d0 == *old(direcciones),
            sp_parametros(f.parametros@, i as nat, d0) == Ok::<_, Seq<char>>(
                (
                    *direcciones,
                    parametros@.map_values(|p: ParamMeta| (p.nombre@, p.tipo, p.direccion)),
                ),
            ),
        decreases n - i,
    {
        let tipo = tipo_desde_str(f.parametros[i].1.as_str());
        if !direcciones.hay_direccion(Segmento::Local, &tipo) {
            proof {
                lema_falla_parametros(f.parametros@, (i + 1) as nat, n as nat, d0);
            }
            return Err("Tipo local no soportado".to_owned());
        }
        let direccion = direcciones.nueva_local(&tipo);
        let p = ParamMeta { nombre: f.parametros[i].0.clone(), tipo, direccion };
        let ghost antes = parametros@;
        parametros.push(p);
        assert(parametros@.map_values(|p: ParamMeta| (p.nombre@, p.tipo, p.direccion))
            =~= antes.map_values(|p: ParamMeta| (p.nombre@, p.tipo, p.direccion)).push(
            (p.nombre@, p.tipo, p.direccion),
        ));
        i = i + 1;
    }
    if f.nombre.as_str().is_empty() {
        return Err("Función sin nombre".to_owned());
    }
    Ok((f.nombre.clone(), FuncionMeta { inicio, tipo_retorno, parametros }))
}

/// El aviso de dónde empieza una función.
pub fn texto_inicio_funcion(nombre: &str, inicio: usize) -> (r: String)
    ensures
        r@ == mensaje_inicio_funcion(nombre@, inicio as nat),
{
    let m = unir(unir("Función '".to_owned(), nombre), "' inicia en cuádruplo ");
    let d = a_decimal(inicio);
    unir(m, d.as_str())
}

/// Lo que se sabe del programa con estas tablas y este generador.
pub open spec fn estado_programa(
    tabla: TablaVariables,
    funciones: TablaFunciones,
    avisos: Seq<String>,
    constantes: TablaConstantes,
    direcciones: AdministradorDirecciones,
    generador: GeneradorCuadruplos,
) -> EstadoPrograma {
    EstadoPrograma {
        variables: vista_variables(tabla),
        funciones: vista_funciones(funciones),
        avisos: vista_textos(avisos),
        estado: estado(constantes, direcciones, generador),
    }
}

/// Genera el código de una función registrada: fija su inicio en el
/// cuádruplo que sigue, avisa dónde empieza, genera su cuerpo con sus
/// parámetros como variables y cierra con `EndFunc`.
pub fn procesar_funcion(
    f: &Funcion,
    tabla: &TablaVariables,
    constantes: &mut TablaConstantes,
    direcciones: &mut AdministradorDirecciones,
    generador: &mut GeneradorCuadruplos,
    funciones: &mut TablaFunciones,
    avisos: &mut Vec<String>,
) -> (r: Result<(), String>)
    ensures
        ({
            let esperado = sp_funcion(
                *f,
                estado_programa(
                    *tabla,
                    *old(funciones),
                    old(avisos)@,
                    *old(constantes),
                    *old(direcciones),
                    *old(generador),
                ),
            );
            match r {
                Ok(_) => esperado == Ok::<_, Seq<char>>(
                    estado_programa(
                        *tabla,
                        *final(funciones),
                        final(avisos)@,
                        *final(constantes),
                        *final(direcciones),
                        *final(generador),
                    ),
                ),
                Err(m) => esperado is Err && esperado->Err_0 == m@,
            }
        }),
{
    if !funciones.contiene(f.nombre.as_str()) {
        return Err(unir(unir("Función '".to_owned(), f.nombre.as_str()), "' no registrada"));
    }
    let inicio = generador.siguiente_cuadruplo();
    proof {
        lema_mapa_insertar(
            funciones.vista(),
            f.nombre@,
            FuncionMeta { inicio, ..funciones.vista()[f.nombre@] },
            |m: FuncionMeta| m@,
        );
        assert((FuncionMeta { inicio, ..funciones.vista()[f.nombre@] })@ =~= con_inicio(
            funciones.vista()[f.nombre@]@,
            inicio as nat,
        ));
    }
    funciones.fijar_inicio(f.nombre.as_str(), inicio);
    let funciones: &TablaFunciones = funciones;
    let meta = match funciones.obtener(f.nombre.as_str()) {
        Some(m) => m,
        None => {
            return Err(unir(unir("Función '".to_owned(), f.nombre.as_str()), "' no registrada"));
        },
    };
    let ghost m: MetaVista = meta@;
    let mut tabla_local = tabla.copia();
    let n = meta.parametros.len();
    let mut i: usize = 0;
    while i < n
        invariant
            n == meta.parametros@.len(),
            m == meta@,
            i <= n,
            vista_variables(tabla_local) == sp_locales(
                vista_variables(*tabla),
                m.parametros,
                i as nat,
            ),
        decreases n - i,
    {
        let p = &meta.parametros[i];
        let info = VariableInfo { nombre: p.nombre.clone(), tipo: p.tipo, direccion: Some(p.direccion) };
        proof {
            lema_mapa_insertar(
                tabla_local.vista(),
                p.nombre@,
                info,
                |v: VariableInfo| (v.nombre@, v.tipo, v.direccion),
            );
        }
        tabla_local.insertar(p.nombre.clone(), info);
        i = i + 1;
    }
    let aviso = texto_inicio_funcion(f.nombre.as_str(), meta.inicio);
    proof {
        lema_vista_textos_push(avisos@, aviso);
    }
    avisos.push(aviso);
    match &f.cuerpo {
        Some(cu) => {
            procesar_cuerpo(cu, &tabla_local, constantes, direcciones, generador, funciones)?;
        },
        None => {},
    }
    generador.generar_endfunc();
    Ok(())
}

proof fn lema_falla_firmas(
    fs: Seq<crate::arbol::Funcion>,
    i: nat,
    n: nat,
    m: Map<Seq<char>, MetaVista>,
    d: AdministradorDirecciones,
    inicio: usize,
)
    requires
        i <= n <= fs.len(),
        sp_firmas(fs, i, m, d, inicio) is Err,
    ensures
        sp_firmas(fs, n, m, d, inicio) == sp_firmas(fs, i, m, d, inicio),
    decreases n,
{
    if i < n {
        lema_falla_firmas(fs, i, (n - 1) as nat, m, d, inicio);
    }
}

proof fn lema_falla_funciones(fs: Seq<crate::arbol::Funcion>, i: nat, n: nat, p: EstadoPrograma)
    requires
        i <= n <= fs.len(),
        sp_funciones(fs, i, p) is Err,
    ensures
        sp_funciones(fs, n, p) == sp_funciones(fs, i, p),
    decreases n,
{
    if i < n {
        lema_falla_funciones(fs, i, (n - 1) as nat, p);
    }
}

/// Registra las firmas de las funciones, en orden, con un inicio provisional
/// (el cuádruplo que sigue en ese momento); `procesar_funcion` fija el inicio
/// de cada una al empezar su cuerpo.
fn registrar_firmas(
    fs: &Vec<Funcion>,
    funciones: &mut TablaFunciones,
    direcciones: &mut AdministradorDirecciones,
    generador: &GeneradorCuadruplos,
) -> (r: Result<(), String>)
    ensures
        ({
            let esperado = sp_firmas(
                fs@,
                fs@.len(),
                vista_funciones(*old(funciones)),
                *old(direcciones),
                generador@.codigo.len() as usize,
            );
            match r {
                Ok(_) => esperado == Ok::<_, Seq<char>>(
                    (vista_funciones(*final(funciones)), *final(direcciones)),
                ),
                Err(m) => esperado is Err && esperado->Err_0 == m@,
            }
        }),
{
    let ghost m0 = vista_funciones(*funciones);
    let ghost d0 = *direcciones;
    let ghost inicio0 = generador@.codigo.len() as usize;
    let n = fs.len();
    let mut i: usize = 0;
    while i < n
        invariant
            n == fs@.len(),
            i <= n,
            m0 == vista_funciones(*old(funciones)),
            d0 == *old(direcciones),
            inicio0 == generador@.codigo.len() as usize,
            sp_firmas(fs@, i as nat, m0, d0, inicio0) == Ok::<_, Seq<char>>(
                (vista_funciones(*funciones), *direcciones),
            ),
        decreases n - i,
    {
        let inicio = generador.siguiente_cuadruplo();
        let firma = registrar_firma_funcion(&fs[i], direcciones, inicio);
        match firma {
            Ok((nombre, meta)) => {
                proof {
                    lema_mapa_insertar(funciones.vista(), nombre@, meta, |m: FuncionMeta| m@);
                }
                funciones.insertar(nombre, meta);
            },
            Err(e) => {
                proof {
                    lema_falla_firmas(fs@, (i + 1) as nat, n as nat, m0, d0, inicio0);
                }
                return Err(e);
            },
        }
        i = i + 1;
    }
    Ok(())
}

/// Genera los cuerpos de las funciones, en orden.
fn procesar_funciones(
    fs: &Vec<Funcion>,
    tabla: &TablaVariables,
    funciones: &mut TablaFunciones,
    avisos: &mut Vec<String>,
    constantes: &mut TablaConstantes,
    direcciones: &mut AdministradorDirecciones,
    generador: &mut GeneradorCuadruplos,
) -> (r: Result<(), String>)
    ensures
        ({
            let esperado = sp_funciones(
                fs@,
                fs@.len(),
                estado_programa(
                    *tabla,
                    *old(funciones),
                    old(avisos)@,
                    *old(constantes),
                    *old(direcciones),
                    *old(generador),
                ),
            );
            match r {
                Ok(_) => esperado == Ok::<_, Seq<char>>(
                    estado_programa(
                        *tabla,
                        *final(funciones),
                        final(avisos)@,
                        *final(constantes),
                        *final(direcciones),
                        *final(generador),
                    ),
                ),
                Err(m) => esperado is Err && esperado->Err_0 == m@,
            }
        }),
{
    let ghost p0 = estado_programa(
        *tabla,
        *funciones,
        avisos@,
        *constantes,
        *direcciones,
        *generador,
    );
    let n = fs.len();
    let mut i: usize = 0;
    while i < n
        invariant
            n == fs@.len(),
            i <= n,
            p0 == estado_programa(
                *tabla,
                *old(funciones),
                old(avisos)@,
                *old(constantes),
                *old(direcciones),
                *old(generador),
            ),
            sp_funciones(fs@, i as nat, p0) == Ok::<_, Seq<char>>(
                estado_programa(*tabla, *funciones, avisos@, *constantes, *direcciones, *generador),
            ),
        decreases n - i,
    {
        let paso = procesar_funcion(
            &fs[i],
            tabla,
            constantes,
            direcciones,
            generador,
            funciones,
            avisos,
        );
        if paso.is_err() {
            proof {
                lema_falla_funciones(fs@, (i + 1) as nat, n as nat, p0);
            }
            return paso;
        }
        i = i + 1;
    }
    Ok(())
}

/// Dirige cada `Gosub` del código al inicio de su función en la tabla.
fn dirigir_llamadas(generador: &mut GeneradorCuadruplos, funciones: &TablaFunciones)
    ensures
        final(generador)@ == (VistaGenerador {
            codigo: corregir_llamadas(old(generador)@.codigo, vista_funciones(*funciones)),
            ..old(generador)@
        }),
{
    let ghost g0 = generador@;
    let ghost fv = vista_funciones(*funciones);
    let n = generador.cuadruplos.len();
    let mut i: usize = 0;
    while i < n
        invariant
            g0 == old(generador)@,
            fv == vista_funciones(*funciones),
            n == g0.codigo.len(),
            i <= n,
            generador@.codigo.len() == n,
            forall|j: int| 0 <= j < i ==> generador@.codigo[j] == corregir_llamada(#[trigger] g0.codigo[j], fv),
            forall|j: int| i <= j < n ==> generador@.codigo[j] == #[trigger] g0.codigo[j],
            generador@ == (VistaGenerador { codigo: generador@.codigo, ..g0 }),
        decreases n - i,
    {
        let destino: Option<usize> = if generador.cuadruplos[i].operador == Operador::Gosub {
            match &generador.cuadruplos[i].izquierda {
                Some(nombre) => match funciones.obtener(nombre.as_str()) {
                    Some(m) => Some(m.inicio),
                    None => None,
                },
                None => None,
            }
        } else {
            None
        };
        match destino {
            Some(d) => {
                generador.rellenar_salto(i, d);
            },
            None => {},
        }
        i = i + 1;
    }
    assert(generador@.codigo =~= corregir_llamadas(g0.codigo, fv));
}

/// Lo que deja la compilación de un programa.
pub struct Compilacion {
    pub variables: TablaVariables,
    pub constantes: TablaConstantes,
    pub funciones: TablaFunciones,
    pub generador: GeneradorCuadruplos,
    /// Los avisos de la compilación, en orden: variables repetidas y dónde
    /// empieza cada función.
    pub avisos: Vec<String>,
}

/// Lo que `compilar_arbol` promete de compilar `programa` con resultado `r`.
pub open spec fn compilacion_de(programa: Programa, r: Result<Compilacion, String>) -> bool {
    match r {
        Ok(c) => {
            let p = sp_programa(programa);
            &&& p is Ok
            &&& p->Ok_0.variables == vista_variables(c.variables)
            &&& p->Ok_0.funciones == vista_funciones(c.funciones)
            &&& p->Ok_0.avisos == vista_textos(c.avisos@)
            &&& p->Ok_0.estado.constantes == vista_constantes(c.constantes)
            &&& p->Ok_0.estado.generador == c.generador@
        },
        Err(m) => sp_programa(programa) is Err && sp_programa(programa)->Err_0 == m@,
    }
}

/// Compila un programa: salta al cuerpo principal, declara las variables
/// globales, registra las firmas de las funciones y genera sus cuerpos (cada
/// una empieza donde empieza su código), luego el cuerpo principal, y por
/// último dirige cada llamada al inicio de su función. Falla, con un mensaje,
/// en el primer error semántico.
#[verifier::spinoff_prover]
#[verifier::rlimit(30)]
pub fn compilar_arbol(programa: &Programa) -> (r: Result<Compilacion, String>)
    ensures
        compilacion_de(*programa, r),
{
    let mut tabla: TablaVariables = Tabla::nueva();
    let mut constantes: TablaConstantes = Tabla::nueva();
    let mut direcciones = AdministradorDirecciones::nuevo();
    let mut generador = GeneradorCuadruplos::nuevo();
    let mut funciones: TablaFunciones = Tabla::nueva();
    let mut avisos: Vec<String> = Vec::new();
    proof {
        assert(vista_variables(tabla) =~= Map::empty());
        assert(vista_constantes(constantes) =~= Map::empty());
        assert(vista_funciones(funciones) =~= Map::empty());
        assert(vista_textos(avisos@) =~= Seq::empty());
    }
    let salto_main = generador.generar_goto(0);
    let ghost s1 = estado(constantes, direcciones, generador);
    assert(s1 == sp_goto(programa_inicial().estado, 0));

    // variables globales
    registrar_variables(&programa.variables, &mut tabla, &mut direcciones, &mut avisos)?;

    // firmas de las funciones, antes de sus cuerpos
    registrar_firmas(&programa.funciones, &mut funciones, &mut direcciones, &generador)?;

    // cuerpos de las funciones
    procesar_funciones(
        &programa.funciones,
        &tabla,
        &mut funciones,
        &mut avisos,
        &mut constantes,
        &mut direcciones,
        &mut generador,
    )?;

    // cuerpo principal
    let inicio_main = generador.siguiente_cuadruplo();
    generador.rellenar_salto(salto_main, inicio_main);
    procesar_cuerpo(&programa.cuerpo, &tabla, &mut constantes, &mut direcciones, &mut generador, &funciones)?;

    // llamadas generadas antes de conocer el inicio de su función
    dirigir_llamadas(&mut generador, &funciones);
    Ok(Compilacion { variables: tabla, constantes, funciones, generador, avisos })
}

/// Compila un programa escrito como texto: lo analiza y, si sigue la
/// gramática, compila su árbol. Falla con el error de sintaxis, o con el
/// primer error semántico.
pub fn compilar(programa: &str) -> (r: Result<Compilacion, String>)
    ensures
        match sp_analizar(programa@) {
            None => r matches Err(m) && m@ == mensaje_sintaxis(),
            Some(forma) => exists|arbol: Programa|
                #![trigger forma_programa(arbol)]
                forma_programa(arbol) == forma && compilacion_de(arbol, r),
        },
{
    let arbol = analizar(programa)?;
    compilar_arbol(&arbol)
}

} // verus!
