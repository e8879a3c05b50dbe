use patito::cubo::CuboSemantico;
use patito::direcciones::{AdministradorDirecciones, Segmento};
use patito::generador::GeneradorTemporales;
use patito::semantica::{
    agregar_funcion, agregar_variable, buscar_variable, buscar_variable_info, registrar_constante,
    texto_funcion_duplicada, texto_variable_duplicada,
};
use patito::tabla::Tabla;
use patito::texto::a_decimal;
use patito::tipos::{DirectorioFunciones, Operador, TablaConstantes, TablaVariables, Tipo};

#[test]
fn direcciones_empiezan_en_la_base_de_cada_segmento() {
    let d = AdministradorDirecciones::nuevo();
    assert_eq!(d.global_entero, 1000);
    assert_eq!(d.global_flotante, 2000);
    assert_eq!(d.local_entero, 3000);
    assert_eq!(d.local_flotante, 4000);
    assert_eq!(d.temporal_entero, 5000);
    assert_eq!(d.temporal_flotante, 6000);
    assert_eq!(d.temporal_bool, 7000);
    assert_eq!(d.constante_entero, 9000);
    assert_eq!(d.constante_flotante, 10000);
}

#[test]
fn direcciones_consecutivas_por_segmento_y_tipo() {
    let mut d = AdministradorDirecciones::nuevo();
    assert_eq!(d.nueva_global(&Tipo::Entero), 1000);
    assert_eq!(d.nueva_global(&Tipo::Entero), 1001);
    assert_eq!(d.nueva_global(&Tipo::Flotante), 2000);
    assert_eq!(d.nueva_local(&Tipo::Entero), 3000);
    assert_eq!(d.nueva_local(&Tipo::Flotante), 4000);
    assert_eq!(d.nueva_temporal(&Tipo::Entero), 5000);
    assert_eq!(d.nueva_temporal(&Tipo::Flotante), 6000);
    assert_eq!(d.nueva_temporal(&Tipo::Bool), 7000);
    assert_eq!(d.nueva_temporal(&Tipo::Bool), 7001);
    assert_eq!(d.nueva_constante(&Tipo::Entero), 9000);
    assert_eq!(d.nueva_constante(&Tipo::Flotante), 10000);
    assert_eq!(d.global_entero, 1002);
    assert_eq!(d.temporal_bool, 7002);
    assert_eq!(d.constante_flotante, 10001);
}

#[test]
fn hay_direccion_segun_tipo_y_segmento() {
    let d = AdministradorDirecciones::nuevo();
    assert!(d.hay_direccion(Segmento::Global, &Tipo::Entero));
    assert!(!d.hay_direccion(Segmento::Global, &Tipo::Bool));
    assert!(d.hay_direccion(Segmento::Temporal, &Tipo::Bool));
    assert!(!d.hay_direccion(Segmento::Temporal, &Tipo::Void));
    assert!(!d.hay_direccion(Segmento::Constante, &Tipo::Error));
    let mut lleno = AdministradorDirecciones::nuevo();
    lleno.temporal_entero = usize::MAX;
    assert!(!lleno.hay_direccion(Segmento::Temporal, &Tipo::Entero));
}

#[test]
fn cubo_aritmeticos() {
    let c = CuboSemantico::nuevo();
    for op in ["+", "-", "*"] {
        assert_eq!(c.validar(Tipo::Entero, op, Tipo::Entero), Tipo::Entero);
        assert_eq!(c.validar(Tipo::Entero, op, Tipo::Flotante), Tipo::Flotante);
        assert_eq!(c.validar(Tipo::Flotante, op, Tipo::Entero), Tipo::Flotante);
        assert_eq!(c.validar(Tipo::Flotante, op, Tipo::Flotante), Tipo::Flotante);
    }
}

#[test]
fn cubo_division_siempre_flotante() {
    let c = CuboSemantico::nuevo();
    assert_eq!(c.validar(Tipo::Entero, "/", Tipo::Entero), Tipo::Flotante);
    assert_eq!(c.validar(Tipo::Entero, "/", Tipo::Flotante), Tipo::Flotante);
    assert_eq!(c.validar(Tipo::Flotante, "/", Tipo::Entero), Tipo::Flotante);
    assert_eq!(c.validar(Tipo::Flotante, "/", Tipo::Flotante), Tipo::Flotante);
}

#[test]
fn cubo_relacionales_dan_bool() {
    let c = CuboSemantico::nuevo();
    for op in [">", "<", ">=", "<=", "==", "!="] {
        assert_eq!(c.validar(Tipo::Entero, op, Tipo::Entero), Tipo::Bool);
        assert_eq!(c.validar(Tipo::Entero, op, Tipo::Flotante), Tipo::Bool);
        assert_eq!(c.validar(Tipo::Flotante, op, Tipo::Entero), Tipo::Bool);
        assert_eq!(c.validar(Tipo::Flotante, op, Tipo::Flotante), Tipo::Bool);
    }
}

#[test]
fn cubo_asignacion() {
    let c = CuboSemantico::nuevo();
    assert_eq!(c.validar(Tipo::Entero, "=", Tipo::Entero), Tipo::Entero);
    assert_eq!(c.validar(Tipo::Flotante, "=", Tipo::Flotante), Tipo::Flotante);
    assert_eq!(c.validar(Tipo::Flotante, "=", Tipo::Entero), Tipo::Flotante);
    assert_eq!(c.validar(Tipo::Entero, "=", Tipo::Flotante), Tipo::Error);
}

#[test]
fn cubo_combinaciones_invalidas() {
    let c = CuboSemantico::nuevo();
    assert_eq!(c.validar(Tipo::Bool, "+", Tipo::Entero), Tipo::Error);
    assert_eq!(c.validar(Tipo::Entero, "+", Tipo::Bool), Tipo::Error);
    assert_eq!(c.validar(Tipo::Bool, "==", Tipo::Bool), Tipo::Error);
    assert_eq!(c.validar(Tipo::Entero, "%", Tipo::Entero), Tipo::Error);
    assert_eq!(c.validar(Tipo::Void, "=", Tipo::Void), Tipo::Error);
    assert_eq!(c.validar(Tipo::Entero, "", Tipo::Entero), Tipo::Error);
}

#[test]
fn operador_desde_texto() {
    assert_eq!(Operador::desde_texto("+"), Some(Operador::Suma));
    assert_eq!(Operador::desde_texto(">="), Some(Operador::MayorIgual));
    assert_eq!(Operador::desde_texto("!="), Some(Operador::Diferente));
    assert_eq!(Operador::desde_texto("="), Some(Operador::Asignacion));
    assert_eq!(Operador::desde_texto("=>"), None);
}

#[test]
fn temporales_se_numeran_desde_uno() {
    let mut g = GeneradorTemporales::nuevo();
    assert_eq!(g.nuevo_temp(), "t1");
    assert_eq!(g.nuevo_temp(), "t2");
    g.contador = 9;
    assert_eq!(g.nuevo_temp(), "t10");
    assert_eq!(g.contador, 10);
}

#[test]
fn decimal_como_to_string() {
    for n in [0usize, 7, 10, 99, 100, 5003, 10000, 123456789, usize::MAX] {
        assert_eq!(a_decimal(n), n.to_string());
    }
}

#[test]
fn agregar_y_buscar_variable() {
    let mut tabla: TablaVariables = Tabla::nueva();
    let mut d = AdministradorDirecciones::nuevo();
    assert!(agregar_variable(&mut tabla, "x".to_string(), Tipo::Entero, &mut d));
    assert!(agregar_variable(&mut tabla, "y".to_string(), Tipo::Flotante, &mut d));
    assert_eq!(buscar_variable(&tabla, "x"), Ok(Tipo::Entero));
    assert_eq!(buscar_variable(&tabla, "y"), Ok(Tipo::Flotante));
    let info = buscar_variable_info(&tabla, "y").unwrap();
    assert_eq!(info.nombre, "y");
    assert_eq!(info.tipo, Tipo::Flotante);
    assert_eq!(info.direccion, Some(2000));
    assert_eq!(buscar_variable_info(&tabla, "x").unwrap().direccion, Some(1000));
}

#[test]
fn variable_duplicada_no_cambia_nada() {
    let mut tabla: TablaVariables = Tabla::nueva();
    let mut d = AdministradorDirecciones::nuevo();
    assert!(agregar_variable(&mut tabla, "x".to_string(), Tipo::Entero, &mut d));
    assert!(!agregar_variable(&mut tabla, "x".to_string(), Tipo::Flotante, &mut d));
    assert_eq!(buscar_variable(&tabla, "x"), Ok(Tipo::Entero));
    assert_eq!(d.global_entero, 1001);
    assert_eq!(d.global_flotante, 2000);
    assert_eq!(tabla.entradas().len(), 1);
    assert_eq!(texto_variable_duplicada("x"), "Error: variable 'x' duplicada");
}

#[test]
fn variable_no_declarada() {
    let tabla: TablaVariables = Tabla::nueva();
    assert_eq!(buscar_variable(&tabla, "z"), Err("Variable 'z' no declarada".to_string()));
    assert_eq!(
        buscar_variable_info(&tabla, "z").unwrap_err(),
        "Variable 'z' no declarada".to_string()
    );
}

#[test]
fn constantes_se_registran_una_vez() {
    let mut tabla: TablaConstantes = Tabla::nueva();
    let mut d = AdministradorDirecciones::nuevo();
    assert_eq!(registrar_constante(&mut tabla, "1".to_string(), Tipo::Entero, &mut d), 9000);
    assert_eq!(registrar_constante(&mut tabla, "2.5".to_string(), Tipo::Flotante, &mut d), 10000);
    assert_eq!(registrar_constante(&mut tabla, "7".to_string(), Tipo::Entero, &mut d), 9001);
    assert_eq!(registrar_constante(&mut tabla, "1".to_string(), Tipo::Entero, &mut d), 9000);
    assert_eq!(d.constante_entero, 9002);
    assert_eq!(d.constante_flotante, 10001);
    let c = tabla.obtener("2.5").unwrap();
    assert_eq!(c.valor, "2.5");
    assert_eq!(c.tipo, Tipo::Flotante);
    assert_eq!(c.direccion, Some(10000));
}

#[test]
fn funciones_se_declaran_una_vez() {
    let mut dir: DirectorioFunciones = Tabla::nueva();
    assert!(agregar_funcion(&mut dir, "f".to_string(), Tipo::Entero));
    assert!(!agregar_funcion(&mut dir, "f".to_string(), Tipo::Flotante));
    assert!(agregar_funcion(&mut dir, "g".to_string(), Tipo::Void));
    let f = dir.obtener("f").unwrap();
    assert_eq!(f.nombre, "f");
    assert_eq!(f.tipo_retorno, Tipo::Entero);
    assert!(f.parametros.is_empty());
    assert!(f.variables.entradas().is_empty());
    assert_eq!(f.inicio_cuadruplo, None);
    assert_eq!(texto_funcion_duplicada("f"), "Error: función 'f' duplicada");
}

#[test]
fn tabla_reemplaza_valor_de_clave_existente() {
    let mut t: Tabla<u64> = Tabla::nueva();
    t.insertar("a".to_string(), 1);
    t.insertar("b".to_string(), 2);
    t.insertar("a".to_string(), 3);
    assert_eq!(t.obtener("a"), Some(&3));
    assert_eq!(t.obtener("b"), Some(&2));
    assert_eq!(t.obtener("c"), None);
    assert!(t.contiene("b"));
    assert!(!t.contiene("c"));
    assert_eq!(t.entradas().len(), 2);
}

#[test]
fn direcciones_pedidas_son_distintas_y_en_su_rango() {
    let mut a = AdministradorDirecciones::nuevo();
    let mut dadas: Vec<(usize, usize)> = Vec::new();
    for i in 0..30 {
        let (d, base) = match i % 6 {
            0 => (a.nueva_global(&Tipo::Entero), 1000),
            1 => (a.nueva_global(&Tipo::Flotante), 2000),
            2 => (a.nueva_temporal(&Tipo::Entero), 5000),
            3 => (a.nueva_temporal(&Tipo::Bool), 7000),
            4 => (a.nueva_constante(&Tipo::Entero), 9000),
            _ => (a.nueva_constante(&Tipo::Flotante), 10000),
        };
        dadas.push((d, base));
    }
    for (i, (d, base)) in dadas.iter().enumerate() {
        assert!(*base <= *d && *d < *base + 1000);
        for (e, _) in dadas.iter().skip(i + 1) {
            assert_ne!(d, e);
        }
    }
    assert_eq!(dadas[0].0, 1000);
    assert_eq!(dadas[6].0, 1001);
    assert_eq!(dadas[29].0, 10004);
}
