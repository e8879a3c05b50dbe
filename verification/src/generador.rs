//! Generación de cuádruplos con pilas de operadores, operandos, tipos y saltos.

use vstd::prelude::*;

use crate::cubo::{tipo_resultado, CuboSemantico};
use crate::direcciones::{AdministradorDirecciones, Segmento};
use crate::texto::{a_decimal, decimal, unir};
use crate::tipos::{
    es_binario, operador_de_texto, texto_tipo, Cuadruplo, CuadruploVista, Operador,
    SemanticResult, Tipo,
};

verus! {

/// Genera nombres de temporales `t1`, `t2`, ...
pub struct GeneradorTemporales {
    pub contador: usize,
}

/// El nombre del temporal número `n`.
pub open spec fn nombre_temporal(n: nat) -> Seq<char> {
    "t"@ + decimal(n)
}

impl GeneradorTemporales {
    /// Un generador que aún no ha dado ningún temporal.
    pub fn nuevo() -> (r: Self)
        ensures
            r.contador == 0,
    {
        GeneradorTemporales { contador: 0 }
    }

    /// El siguiente temporal: cuenta uno más y lo nombra `t` seguido de la cuenta.
    pub fn nuevo_temp(&mut self) -> (r: String)
        requires
            old(self).contador < usize::MAX,
        ensures
            final(self).contador == old(self).contador + 1,
            r@ == nombre_temporal(final(self).contador as nat),
    {
        self.contador = self.contador + 1;
        let n = a_decimal(self.contador);
        unir("t".to_owned(), n.as_str())
    }
}

/// El contenido de los textos de una lista.
pub open spec fn vista_textos(s: Seq<String>) -> Seq<Seq<char>> {
    s.map_values(|x: String| x@)
}

/// El contenido de una lista de cuádruplos.
pub open spec fn vista_cuadruplos(s: Seq<Cuadruplo>) -> Seq<CuadruploVista> {
    s.map_values(|c: Cuadruplo| c@)
}

/// El estado de un generador, visto por su contenido.
pub struct VistaGenerador {
    pub operadores: Seq<Seq<char>>,
    pub operandos: Seq<Seq<char>>,
    pub tipos: Seq<Tipo>,
    pub saltos: Seq<usize>,
    pub codigo: Seq<CuadruploVista>,
    pub temporales: usize,
}

/// Genera el código intermedio de un programa.
pub struct GeneradorCuadruplos {
    pub operadores: Vec<String>,
    pub operandos: Vec<String>,
    pub tipos: Vec<Tipo>,
    pub saltos: Vec<usize>,
    pub cuadruplos: Vec<Cuadruplo>,
    pub temporales: GeneradorTemporales,
}

impl View for GeneradorCuadruplos {
    type V = VistaGenerador;

    open spec fn view(&self) -> VistaGenerador {
        VistaGenerador {
            operadores: vista_textos(self.operadores@),
            operandos: vista_textos(self.operandos@),
            tipos: self.tipos@,
            saltos: self.saltos@,
            codigo: vista_cuadruplos(self.cuadruplos@),
            temporales: self.temporales.contador,
        }
    }
}

/// Un cuádruplo dado por su contenido.
pub open spec fn cuadruplo(
    operador: Operador,
    izquierda: Option<Seq<char>>,
    derecha: Option<Seq<char>>,
    resultado: Option<Seq<char>>,
) -> CuadruploVista {
    CuadruploVista { operador, izquierda, derecha, resultado }
}

/// El mensaje de una operación con tipos inválidos.
pub open spec fn mensaje_operacion_invalida(izq: Tipo, op: Seq<char>, der: Tipo) -> Seq<char> {
    "Operación inválida: "@ + texto_tipo(izq) + " "@ + op + " "@ + texto_tipo(der)
}

/// El mensaje de un símbolo que no es un operador de expresión.
pub open spec fn mensaje_operador_desconocido(op: Seq<char>) -> Seq<char> {
    "Operador desconocido "@ + op
}

/// El mensaje de una asignación con tipos inválidos.
pub open spec fn mensaje_asignacion_invalida(variable: Tipo, valor: Tipo) -> Seq<char> {
    "Asignación inválida: variable "@ + texto_tipo(variable) + " = valor "@ + texto_tipo(valor)
}

/// El mensaje de una condición que no es booleana.
pub open spec fn mensaje_condicion() -> Seq<char> {
    "La condición debe ser booleana"@
}

/// La vista de `g` con dos operandos (y sus tipos) menos y un operador menos.
pub open spec fn sin_operacion(g: VistaGenerador) -> VistaGenerador {
    VistaGenerador {
        operadores: g.operadores.drop_last(),
        operandos: g.operandos.drop_last().drop_last(),
        tipos: g.tipos.drop_last().drop_last(),
        ..g
    }
}

/// Quita el último elemento, si lo hay.
pub open spec fn quitar_ultimo<A>(s: Seq<A>) -> Seq<A> {
    if s.len() == 0 {
        s
    } else {
        s.drop_last()
    }
}

/// Agregar un texto al final agrega su contenido al final.
pub proof fn lema_vista_textos_push(s: Seq<String>, x: String)
    ensures
        vista_textos(s.push(x)) == vista_textos(s).push(x@),
{
    assert(vista_textos(s.push(x)) =~= vista_textos(s).push(x@));
}

proof fn lema_vista_textos_pop(s: Seq<String>)
    requires
        s.len() > 0,
    ensures
        vista_textos(s.drop_last()) == vista_textos(s).drop_last(),
        vista_textos(s).last() == s.last()@,
{
    assert(vista_textos(s.drop_last()) =~= vista_textos(s).drop_last());
}

proof fn lema_vista_cuadruplos_push(s: Seq<Cuadruplo>, c: Cuadruplo)
    ensures
        vista_cuadruplos(s.push(c)) == vista_cuadruplos(s).push(c@),
{
    assert(vista_cuadruplos(s.push(c)) =~= vista_cuadruplos(s).push(c@));
}

impl GeneradorCuadruplos {
    /// El tipo de la operación pendiente: los dos últimos tipos con el último operador.
    pub open spec fn tipo_operacion(self) -> Tipo {
        tipo_resultado(
            self.tipos@[self.tipos@.len() - 2],
            self.operadores@.last()@,
            self.tipos@.last(),
        )
    }

    /// Un generador con todas las pilas vacías y sin código.
    pub fn nuevo() -> (r: Self)
        ensures
            r@ == (VistaGenerador {
                operadores: Seq::empty(),
                operandos: Seq::empty(),
                tipos: Seq::empty(),
                saltos: Seq::empty(),
                codigo: Seq::empty(),
                temporales: 0,
            }),
    {
        let r = GeneradorCuadruplos {
            operadores: Vec::new(),
            operandos: Vec::new(),
            tipos: Vec::new(),
            saltos: Vec::new(),
            cuadruplos: Vec::new(),
            temporales: GeneradorTemporales::nuevo(),
        };
        assert(r@.operadores =~= Seq::<Seq<char>>::empty());
        assert(r@.operandos =~= Seq::<Seq<char>>::empty());
        assert(r@.codigo =~= Seq::<CuadruploVista>::empty());
        r
    }

    /// Apila un operando con su tipo.
    pub fn push_operando(&mut self, valor: String, tipo: Tipo)
        ensures
            final(self).operandos@ == old(self).operandos@.push(valor),
            final(self).tipos@ == old(self).tipos@.push(tipo),
            final(self).operadores@ == old(self).operadores@,
            final(self)@ == (VistaGenerador {
                operandos: old(self)@.operandos.push(valor@),
                tipos: old(self)@.tipos.push(tipo),
                ..old(self)@
            }),
    {
        proof {
            lema_vista_textos_push(self.operandos@, valor);
        }
        self.operandos.push(valor);
        self.tipos.push(tipo);
    }

    /// Apila un operador.
    pub fn push_operador(&mut self, op: String)
        ensures
            final(self).operadores@ == old(self).operadores@.push(op),
            final(self).tipos@ == old(self).tipos@,
            final(self).operandos@ == old(self).operandos@,
            final(self)@ == (VistaGenerador {
                operadores: old(self)@.operadores.push(op@),
                ..old(self)@
            }),
    {
        proof {
            lema_vista_textos_push(self.operadores@, op);
        }
        self.operadores.push(op);
    }

    fn agregar_cuadruplo(&mut self, c: Cuadruplo)
        ensures
            final(self)@ == (VistaGenerador { codigo: old(self)@.codigo.push(c@), ..old(self)@ }),
    {
        proof {
            lema_vista_cuadruplos_push(self.cuadruplos@, c);
        }
        self.cuadruplos.push(c);
    }

    fn sacar_operando(&mut self) -> (r: String)
        requires
            old(self).operandos@.len() > 0,
        ensures
            r@ == old(self)@.operandos.last(),
            final(self).operandos@ == old(self).operandos@.drop_last(),
            final(self).tipos@ == old(self).tipos@,
            final(self).operadores@ == old(self).operadores@,
            final(self)@ == (VistaGenerador {
                operandos: old(self)@.operandos.drop_last(),
                ..old(self)@
            }),
    {
        proof {
            lema_vista_textos_pop(self.operandos@);
        }
        self.operandos.pop().unwrap()
    }

    /// Saca dos operandos y un operador, consulta el cubo y, si la operación es
    /// válida, genera su cuádruplo con el resultado en un temporal nuevo, que
    /// queda como operando.
    pub fn generar_operacion(
        &mut self,
        cubo: &CuboSemantico,
        direcciones: &mut AdministradorDirecciones,
    ) -> (r: SemanticResult<()>)
        requires
            old(self).operandos@.len() >= 2,
            old(self).tipos@.len() >= 2,
            old(self).operadores@.len() >= 1,
            old(self).tipo_operacion() != Tipo::Error ==> old(direcciones).puede_dar(
                Segmento::Temporal,
                old(self).tipo_operacion(),
            ),
        ensures
            ({
                let g = old(self)@;
                let t = old(self).tipo_operacion();
                let op = g.operadores.last();
                let tizq = g.tipos[g.tipos.len() - 2];
                let tder = g.tipos.last();
                if t == Tipo::Error {
                    &&& r matches Err(m) && m@ == mensaje_operacion_invalida(tizq, op, tder)
                    &&& *final(direcciones) == *old(direcciones)
                    &&& final(self)@ == sin_operacion(g)
                } else {
                    let d = old(direcciones).contador(Segmento::Temporal, t)->0;
                    let o = operador_de_texto(op)->0;
                    &&& *final(direcciones) == old(direcciones).tras_dar(Segmento::Temporal, t)
                    &&& if es_binario(o) {
                        &&& r is Ok
                        &&& final(self)@ == (VistaGenerador {
                            operandos: sin_operacion(g).operandos.push(decimal(d as nat)),
                            tipos: sin_operacion(g).tipos.push(t),
                            codigo: g.codigo.push(
                                cuadruplo(
                                    o,
                                    Some(g.operandos[g.operandos.len() - 2]),
                                    Some(g.operandos.last()),
                                    Some(decimal(d as nat)),
                                ),
                            ),
                            ..sin_operacion(g)
                        })
                    } else {
                        &&& r matches Err(m) && m@ == mensaje_operador_desconocido(op)
                        &&& final(self)@ == sin_operacion(g)
                    }
                }
            }),
    {
        let ghost t = self.tipo_operacion();
        let derecha = self.sacar_operando();
        let izquierda = self.sacar_operando();
        let tipo_der = self.tipos.pop().unwrap();
        let tipo_izq = self.tipos.pop().unwrap();
        proof {
            lema_vista_textos_pop(self.operadores@);
        }
        let operador = self.operadores.pop().unwrap();
        let tipo_resultado = cubo.validar(tipo_izq, operador.as_str(), tipo_der);
        if tipo_resultado == Tipo::Error {
            let m = unir("Operación inválida: ".to_owned(), tipo_izq.nombre());
            let m = unir(m, " ");
            let m = unir(m, operador.as_str());
            let m = unir(m, " ");
            let m = unir(m, tipo_der.nombre());
            return Err(m);
        }
        let dir = direcciones.nueva_temporal(&tipo_resultado);
        let temporal = a_decimal(dir);
        let op = match Operador::desde_texto(operador.as_str()) {
            Some(o) => o,
            None => Operador::Asignacion,
        };
        match op {
            Operador::Suma | Operador::Resta | Operador::Multiplicacion | Operador::Division
            | Operador::Mayor | Operador::Menor | Operador::MayorIgual | Operador::MenorIgual
            | Operador::IgualIgual | Operador::Diferente => {},
            _ => {
                return Err(unir("Operador desconocido ".to_owned(), operador.as_str()));
            },
        }
        self.agregar_cuadruplo(
            Cuadruplo {
                operador: op,
                izquierda: Some(izquierda),
                derecha: Some(derecha),
                resultado: Some(temporal.clone()),
            },
        );
        self.push_operando(temporal, tipo_resultado);
        Ok(())
    }
    fn sacar_tipo(&mut self) -> (r: Option<Tipo>)
        ensures
            r == (if old(self)@.tipos.len() == 0 {
                None
            } else {
                Some(old(self)@.tipos.last())
            }),
            final(self).tipos@ == quitar_ultimo(old(self).tipos@),
            final(self).operandos@ == old(self).operandos@,
            final(self)@ == (VistaGenerador { tipos: quitar_ultimo(old(self)@.tipos), ..old(self)@ }),
    {
        self.tipos.pop()
    }

    /// Saca el valor (y su tipo) y, si el cubo admite asignarlo a una variable de
    /// tipo `tipo_variable`, genera la asignación a `variable`.
    pub fn generar_asignacion(
        &mut self,
        variable: String,
        tipo_variable: Tipo,
        cubo: &CuboSemantico,
    ) -> (r: SemanticResult<()>)
        requires
            old(self).operandos@.len() >= 1,
            old(self).tipos@.len() >= 1,
        ensures
            ({
                let g = old(self)@;
                let sin_valor = VistaGenerador {
                    operandos: g.operandos.drop_last(),
                    tipos: g.tipos.drop_last(),
                    ..g
                };
                if tipo_resultado(tipo_variable, "="@, g.tipos.last()) == Tipo::Error {
                    &&& r matches Err(m) && m@ == mensaje_asignacion_invalida(
                        tipo_variable,
                        g.tipos.last(),
                    )
                    &&& final(self)@ == sin_valor
                } else {
                    &&& r is Ok
                    &&& final(self)@ == (VistaGenerador {
                        codigo: g.codigo.push(
                            cuadruplo(
                                Operador::Asignacion,
                                Some(g.operandos.last()),
                                None,
                                Some(variable@),
                            ),
                        ),
                        ..sin_valor
                    })
                }
            }),
    {
        let valor = self.sacar_operando();
        let tipo_valor = self.sacar_tipo().unwrap();
        let tipo_resultado = cubo.validar(tipo_variable, "=", tipo_valor);
        if tipo_resultado == Tipo::Error {
            let m = unir("Asignación inválida: variable ".to_owned(), tipo_variable.nombre());
            let m = unir(m, " = valor ");
            let m = unir(m, tipo_valor.nombre());
            return Err(m);
        }
        self.agregar_cuadruplo(
            Cuadruplo {
                operador: Operador::Asignacion,
                izquierda: Some(valor),
                derecha: None,
                resultado: Some(variable),
            },
        );
        Ok(())
    }

    /// Saca el valor (y su tipo, si lo hay) y genera su impresión.
    pub fn generar_print(&mut self)
        requires
            old(self).operandos@.len() >= 1,
        ensures
            final(self)@ == (VistaGenerador {
                operandos: old(self)@.operandos.drop_last(),
                tipos: quitar_ultimo(old(self)@.tipos),
                codigo: old(self)@.codigo.push(
                    cuadruplo(Operador::Print, None, None, Some(old(self)@.operandos.last())),
                ),
                ..old(self)@
            }),
    {
        let valor = self.sacar_operando();
        self.sacar_tipo();
        self.agregar_cuadruplo(
            Cuadruplo { operador: Operador::Print, izquierda: None, derecha: None, resultado: Some(valor) },
        );
    }

    /// El índice que tendrá el próximo cuádruplo.
    pub fn siguiente_cuadruplo(&self) -> (r: usize)
        ensures
            r == self@.codigo.len(),
    {
        self.cuadruplos.len()
    }

    /// Apila un salto pendiente.
    pub fn agregar_salto(&mut self, indice: usize)
        ensures
            final(self)@ == (VistaGenerador { saltos: old(self)@.saltos.push(indice), ..old(self)@ }),
    {
        self.saltos.push(indice);
    }

    /// Saca el último salto pendiente, si lo hay.
    pub fn sacar_salto(&mut self) -> (r: Option<usize>)
        ensures
            r == (if old(self)@.saltos.len() == 0 {
                None
            } else {
                Some(old(self)@.saltos.last())
            }),
            final(self)@ == (VistaGenerador { saltos: quitar_ultimo(old(self)@.saltos), ..old(self)@ }),
    {
        self.saltos.pop()
    }

    /// Saca la condición (y su tipo) y, si es booleana, genera un salto en falso
    /// sin destino; devuelve su índice.
    pub fn generar_gotof(&mut self) -> (r: SemanticResult<usize>)
        requires
            old(self).operandos@.len() >= 1,
            old(self).tipos@.len() >= 1,
        ensures
            ({
                let g = old(self)@;
                let sin_condicion = VistaGenerador {
                    operandos: g.operandos.drop_last(),
                    tipos: g.tipos.drop_last(),
                    ..g
                };
                if g.tipos.last() != Tipo::Bool {
                    &&& r matches Err(m) && m@ == mensaje_condicion()
                    &&& final(self)@ == sin_condicion
                } else {
                    &&& r == Ok::<usize, String>(g.codigo.len() as usize)
                    &&& final(self)@ == (VistaGenerador {
                        codigo: g.codigo.push(
                            cuadruplo(Operador::GotoF, Some(g.operandos.last()), None, None),
                        ),
                        ..sin_condicion
                    })
                }
            }),
    {
        let condicion = self.sacar_operando();
        let tipo_condicion = self.sacar_tipo().unwrap();
        if tipo_condicion != Tipo::Bool {
            return Err("La condición debe ser booleana".to_owned());
        }
        let indice = self.cuadruplos.len();
        self.agregar_cuadruplo(
            Cuadruplo {
                operador: Operador::GotoF,
                izquierda: Some(condicion),
                derecha: None,
                resultado: None,
            },
        );
        Ok(indice)
    }

    /// Genera un salto incondicional a `destino`; devuelve su índice.
    pub fn generar_goto(&mut self, destino: usize) -> (r: usize)
        ensures
            r == old(self)@.codigo.len(),
            final(self)@ == (VistaGenerador {
                codigo: old(self)@.codigo.push(
                    cuadruplo(Operador::Goto, None, None, Some(decimal(destino as nat))),
                ),
                ..old(self)@
            }),
    {
        let indice = self.cuadruplos.len();
        let d = a_decimal(destino);
        self.agregar_cuadruplo(
            Cuadruplo { operador: Operador::Goto, izquierda: None, derecha: None, resultado: Some(d) },
        );
        indice
    }

    /// Pone `destino` como resultado del cuádruplo `indice` (el destino de un salto).
    pub fn rellenar_salto(&mut self, indice: usize, destino: usize)
        requires
            indice < old(self)@.codigo.len(),
        ensures
            final(self)@ == (VistaGenerador {
                codigo: old(self)@.codigo.update(
                    indice as int,
                    CuadruploVista {
                        resultado: Some(decimal(destino as nat)),
                        ..old(self)@.codigo[indice as int]
                    },
                ),
                ..old(self)@
            }),
    {
        let d = a_decimal(destino);
        self.cuadruplos[indice].resultado = Some(d);
        assert(vista_cuadruplos(self.cuadruplos@) =~= old(self)@.codigo.update(
            indice as int,
            CuadruploVista {
                resultado: Some(decimal(destino as nat)),
                ..old(self)@.codigo[indice as int]
            },
        ));
    }

    /// Genera la reserva del registro de activación de una función.
    pub fn generar_era(&mut self, nombre_funcion: String)
        ensures
            final(self)@ == (VistaGenerador {
                codigo: old(self)@.codigo.push(
                    cuadruplo(Operador::Era, None, None, Some(nombre_funcion@)),
                ),
                ..old(self)@
            }),
    {
        self.agregar_cuadruplo(
            Cuadruplo {
                operador: Operador::Era,
                izquierda: None,
                derecha: None,
                resultado: Some(nombre_funcion),
            },
        );
    }

    /// Saca el valor de un argumento (y su tipo, si lo hay) y genera su paso
    /// como parámetro `numero_parametro`.
    pub fn generar_param(&mut self, numero_parametro: usize)
        requires
            old(self).operandos@.len() >= 1,
        ensures
            final(self)@ == (VistaGenerador {
                operandos: old(self)@.operandos.drop_last(),
                tipos: quitar_ultimo(old(self)@.tipos),
                codigo: old(self)@.codigo.push(
                    cuadruplo(
                        Operador::Param,
                        Some(old(self)@.operandos.last()),
                        None,
                        Some(decimal(numero_parametro as nat)),
                    ),
                ),
                ..old(self)@
            }),
    {
        let valor = self.sacar_operando();
        self.sacar_tipo();
        let n = a_decimal(numero_parametro);
        self.agregar_cuadruplo(
            Cuadruplo {
                operador: Operador::Param,
                izquierda: Some(valor),
                derecha: None,
                resultado: Some(n),
            },
        );
    }

    /// Genera la llamada a una función que empieza en el cuádruplo `inicio`.
    pub fn generar_gosub(&mut self, nombre_funcion: String, inicio: usize)
        ensures
            final(self)@ == (VistaGenerador {
                codigo: old(self)@.codigo.push(
                    cuadruplo(
                        Operador::Gosub,
                        Some(nombre_funcion@),
                        None,
                        Some(decimal(inicio as nat)),
                    ),
                ),
                ..old(self)@
            }),
    {
        let n = a_decimal(inicio);
        self.agregar_cuadruplo(
            Cuadruplo {
                operador: Operador::Gosub,
                izquierda: Some(nombre_funcion),
                derecha: None,
                resultado: Some(n),
            },
        );
    }

    /// Genera la llamada a una función que empieza en el cuádruplo `inicio` y
    /// deja su valor de retorno en `temporal`.
    pub fn generar_gosub_con_retorno(
        &mut self,
        nombre_funcion: String,
        inicio: usize,
        temporal: String,
    )
        ensures
            final(self)@ == (VistaGenerador {
                codigo: old(self)@.codigo.push(
                    cuadruplo(
                        Operador::Gosub,
                        Some(nombre_funcion@),
                        Some(temporal@),
                        Some(decimal(inicio as nat)),
                    ),
                ),
                ..old(self)@
            }),
    {
        let n = a_decimal(inicio);
        self.agregar_cuadruplo(
            Cuadruplo {
                operador: Operador::Gosub,
                izquierda: Some(nombre_funcion),
                derecha: Some(temporal),
                resultado: Some(n),
            },
        );
    }

    /// Saca el valor de retorno (y su tipo, si lo hay) y genera el regreso.
    pub fn generar_return(&mut self)
        requires
            old(self).operandos@.len() >= 1,
        ensures
            final(self)@ == (VistaGenerador {
                operandos: old(self)@.operandos.drop_last(),
                tipos: quitar_ultimo(old(self)@.tipos),
                codigo: old(self)@.codigo.push(
                    cuadruplo(Operador::Return, Some(old(self)@.operandos.last()), None, None),
                ),
                ..old(self)@
            }),
    {
        let valor = self.sacar_operando();
        self.sacar_tipo();
        self.agregar_cuadruplo(
            Cuadruplo { operador: Operador::Return, izquierda: Some(valor), derecha: None, resultado: None },
        );
    }

    /// Genera el fin de una función.
    pub fn generar_endfunc(&mut self)
        ensures
            final(self)@ == (VistaGenerador {
                codigo: old(self)@.codigo.push(cuadruplo(Operador::EndFunc, None, None, None)),
                ..old(self)@
            }),
    {
        self.agregar_cuadruplo(
            Cuadruplo { operador: Operador::EndFunc, izquierda: None, derecha: None, resultado: None },
        );
    }
}

} // verus!
