use patito::cubo::CuboSemantico;
use patito::direcciones::AdministradorDirecciones;
use patito::generador::GeneradorCuadruplos;
use patito::tipos::{Cuadruplo, Operador, Tipo};

fn es(c: &Cuadruplo, op: Operador, i: Option<&str>, d: Option<&str>, r: Option<&str>) -> bool {
    c.operador == op
        && c.izquierda.as_deref() == i
        && c.derecha.as_deref() == d
        && c.resultado.as_deref() == r
}

#[test]
fn generador_nuevo_vacio() {
    let g = GeneradorCuadruplos::nuevo();
    assert!(g.operadores.is_empty());
    assert!(g.operandos.is_empty());
    assert!(g.tipos.is_empty());
    assert!(g.saltos.is_empty());
    assert!(g.cuadruplos.is_empty());
    assert_eq!(g.temporales.contador, 0);
    assert_eq!(g.siguiente_cuadruplo(), 0);
}

#[test]
fn operacion_valida_usa_un_temporal() {
    let cubo = CuboSemantico::nuevo();
    let mut d = AdministradorDirecciones::nuevo();
    let mut g = GeneradorCuadruplos::nuevo();
    g.push_operando("1000".to_string(), Tipo::Entero);
    g.push_operando("2000".to_string(), Tipo::Flotante);
    g.push_operador("+".to_string());
    assert_eq!(g.generar_operacion(&cubo, &mut d), Ok(()));
    assert_eq!(g.operandos, vec!["6000".to_string()]);
    assert_eq!(g.tipos, vec![Tipo::Flotante]);
    assert!(g.operadores.is_empty());
    assert_eq!(g.cuadruplos.len(), 1);
    assert!(es(&g.cuadruplos[0], Operador::Suma, Some("1000"), Some("2000"), Some("6000")));
    assert_eq!(d.temporal_flotante, 6001);
}

#[test]
fn operacion_relacional_da_booleano() {
    let cubo = CuboSemantico::nuevo();
    let mut d = AdministradorDirecciones::nuevo();
    let mut g = GeneradorCuadruplos::nuevo();
    g.push_operando("a".to_string(), Tipo::Entero);
    g.push_operando("b".to_string(), Tipo::Entero);
    g.push_operador("<=".to_string());
    assert_eq!(g.generar_operacion(&cubo, &mut d), Ok(()));
    assert!(es(&g.cuadruplos[0], Operador::MenorIgual, Some("a"), Some("b"), Some("7000")));
    assert_eq!(g.tipos, vec![Tipo::Bool]);
}

#[test]
fn operacion_invalida_no_genera_nada() {
    let cubo = CuboSemantico::nuevo();
    let mut d = AdministradorDirecciones::nuevo();
    let mut g = GeneradorCuadruplos::nuevo();
    g.push_operando("x".to_string(), Tipo::Entero);
    g.push_operando("y".to_string(), Tipo::Bool);
    g.push_operador("*".to_string());
    assert_eq!(
        g.generar_operacion(&cubo, &mut d),
        Err("Operación inválida: Entero * Bool".to_string())
    );
    assert!(g.operandos.is_empty());
    assert!(g.tipos.is_empty());
    assert!(g.operadores.is_empty());
    assert!(g.cuadruplos.is_empty());
    assert_eq!(d.temporal_entero, 5000);
}

#[test]
fn operador_asignacion_en_expresion_es_desconocido() {
    let cubo = CuboSemantico::nuevo();
    let mut d = AdministradorDirecciones::nuevo();
    let mut g = GeneradorCuadruplos::nuevo();
    g.push_operando("x".to_string(), Tipo::Entero);
    g.push_operando("y".to_string(), Tipo::Entero);
    g.push_operador("=".to_string());
    assert_eq!(g.generar_operacion(&cubo, &mut d), Err("Operador desconocido =".to_string()));
    assert!(g.cuadruplos.is_empty());
    assert!(g.operandos.is_empty());
    // la dirección temporal ya se había pedido
    assert_eq!(d.temporal_entero, 5001);
}

#[test]
fn asignacion_valida_e_invalida() {
    let cubo = CuboSemantico::nuevo();
    let mut g = GeneradorCuadruplos::nuevo();
    g.push_operando("9000".to_string(), Tipo::Entero);
    assert_eq!(g.generar_asignacion("2000".to_string(), Tipo::Flotante, &cubo), Ok(()));
    assert!(es(&g.cuadruplos[0], Operador::Asignacion, Some("9000"), None, Some("2000")));
    assert!(g.operandos.is_empty());
    g.push_operando("10000".to_string(), Tipo::Flotante);
    assert_eq!(
        g.generar_asignacion("1000".to_string(), Tipo::Entero, &cubo),
        Err("Asignación inválida: variable Entero = valor Flotante".to_string())
    );
    assert_eq!(g.cuadruplos.len(), 1);
    assert!(g.operandos.is_empty());
    assert!(g.tipos.is_empty());
}

#[test]
fn print_param_return_consumen_el_operando() {
    let mut g = GeneradorCuadruplos::nuevo();
    g.push_operando("1000".to_string(), Tipo::Entero);
    g.generar_print();
    g.push_operando("5000".to_string(), Tipo::Entero);
    g.generar_param(3000);
    g.push_operando("5001".to_string(), Tipo::Entero);
    g.generar_return();
    assert!(g.operandos.is_empty());
    assert!(g.tipos.is_empty());
    assert!(es(&g.cuadruplos[0], Operador::Print, None, None, Some("1000")));
    assert!(es(&g.cuadruplos[1], Operador::Param, Some("5000"), None, Some("3000")));
    assert!(es(&g.cuadruplos[2], Operador::Return, Some("5001"), None, None));
}

#[test]
fn print_sin_tipo_apilado() {
    let mut g = GeneradorCuadruplos::nuevo();
    g.operandos.push("1000".to_string());
    g.generar_print();
    assert!(g.tipos.is_empty());
    assert_eq!(g.cuadruplos.len(), 1);
}

#[test]
fn gotof_requiere_booleano() {
    let mut g = GeneradorCuadruplos::nuevo();
    g.push_operando("1000".to_string(), Tipo::Entero);
    assert_eq!(g.generar_gotof(), Err("La condición debe ser booleana".to_string()));
    assert!(g.cuadruplos.is_empty());
    assert!(g.operandos.is_empty());
    g.push_operando("7000".to_string(), Tipo::Bool);
    assert_eq!(g.generar_gotof(), Ok(0));
    assert!(es(&g.cuadruplos[0], Operador::GotoF, Some("7000"), None, None));
}

#[test]
fn saltos_y_relleno() {
    let mut g = GeneradorCuadruplos::nuevo();
    assert_eq!(g.generar_goto(0), 0);
    g.generar_era("f".to_string());
    g.generar_gosub("f".to_string(), 7);
    g.generar_gosub_con_retorno("f".to_string(), 7, "5000".to_string());
    g.generar_endfunc();
    assert_eq!(g.siguiente_cuadruplo(), 5);
    g.rellenar_salto(0, 5);
    assert!(es(&g.cuadruplos[0], Operador::Goto, None, None, Some("5")));
    assert!(es(&g.cuadruplos[1], Operador::Era, None, None, Some("f")));
    assert!(es(&g.cuadruplos[2], Operador::Gosub, Some("f"), None, Some("7")));
    assert!(es(&g.cuadruplos[3], Operador::Gosub, Some("f"), Some("5000"), Some("7")));
    assert!(es(&g.cuadruplos[4], Operador::EndFunc, None, None, None));
}

#[test]
fn pila_de_saltos() {
    let mut g = GeneradorCuadruplos::nuevo();
    assert_eq!(g.sacar_salto(), None);
    g.agregar_salto(3);
    g.agregar_salto(8);
    assert_eq!(g.sacar_salto(), Some(8));
    assert_eq!(g.sacar_salto(), Some(3));
    assert_eq!(g.sacar_salto(), None);
}
