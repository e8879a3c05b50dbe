# patito

Compilador del lenguaje Patito hasta código intermedio (cuádruplos), escrito y
verificado con Verus.

- `src/lexico.rs`, `src/gramatica.rs`, `src/analizador.rs`: del texto del
  programa a sus lexemas y de los lexemas a su árbol (`src/arbol.rs`). La
  gramática está escrita como especificación en `gramatica.rs`; el analizador
  está probado igual a ella. Los ciclos se escriben `mientras (c) { ... }`,
  las funciones sin valor de retorno se declaran con `nula` y `escribe`
  recibe una sola expresión.
- `src/tipos.rs`, `src/tabla.rs`, `src/direcciones.rs`, `src/cubo.rs`,
  `src/semantica.rs`, `src/generador.rs`: tipos, tablas por nombre, direcciones
  virtuales, cubo semántico, declaraciones y generación de cuádruplos. Los
  parámetros de las funciones reciben direcciones locales (enteros desde 3000,
  flotantes desde 4000); una llamada dentro de una expresión genera un `Gosub`
  que lleva en su operando derecho el temporal donde queda el valor devuelto.
- Cada función empieza en el cuádruplo donde empieza su código; las llamadas
  generadas antes de conocer ese inicio (a funciones declaradas después) se
  dirigen a él al terminar la compilación.
- `src/traduccion.rs` describe como especificación lo que la compilación de
  cada parte del árbol hace al estado; `src/compilador.rs` y `src/programa.rs`
  la implementan y están probados iguales a esa descripción.
- `src/leyes.rs`, `src/leyes_traduccion.rs`, `src/leyes_sintaxis.rs`: leyes
  de la biblioteca (direcciones, cubo, tablas, pilas de la traducción, y que
  el análisis no pierde nada del texto).
- `app/main.rs` compila un programa de ejemplo y muestra avisos, tablas y
  cuádruplos.
