//! Compilador del lenguaje Patito: análisis léxico y sintáctico, análisis
//! semántico y generación de código intermedio (cuádruplos).

pub mod lexico;
pub mod gramatica;
pub mod analizador;
pub mod tabla;
pub mod texto;
pub mod tipos;
pub mod direcciones;
pub mod cubo;
pub mod generador;
pub mod semantica;
pub mod arbol;
pub mod traduccion;
pub mod compilador;
pub mod programa;
pub mod leyes_traduccion;
pub mod leyes;
pub mod leyes_sintaxis;
pub mod leyes_codigo;
