//! Análisis léxico de un programa Patito: de texto a lexemas.
//!
//! Los lexemas son palabras (letra seguida de letras, dígitos o `_`), números
//! (dígitos, con una parte decimal opcional) y símbolos (`; : , ( ) { } = + -
//! * / < > <= >= == !=`). Los espacios, tabuladores y saltos de línea sólo
//! separan lexemas; cualquier otro carácter es un error.

use vstd::prelude::*;

verus! {

broadcast use vstd::string::group_string_axioms;

/// Un lexema, visto por su contenido.
pub enum Lexema {
    Palabra(Seq<char>),
    Numero(Seq<char>),
    Simbolo(Seq<char>),
}

/// Un lexema de un programa.
#[derive(Debug, Clone)]
pub enum Token {
    Palabra(String),
    Numero(String),
    Simbolo(String),
}

impl View for Token {
    type V = Lexema;

    open spec fn view(&self) -> Lexema {
        match self {
            Token::Palabra(s) => Lexema::Palabra(s@),
            Token::Numero(s) => Lexema::Numero(s@),
            Token::Simbolo(s) => Lexema::Simbolo(s@),
        }
    }
}

/// Los lexemas de una lista de tokens.
pub open spec fn lexemas(ts: Seq<Token>) -> Seq<Lexema> {
    ts.map_values(|t: Token| t@)
}

/// Una letra ASCII.
pub open spec fn es_letra(c: char) -> bool {
    ('a' <= c && c <= 'z') || ('A' <= c && c <= 'Z')
}

/// Un dígito decimal.
pub open spec fn es_digito(c: char) -> bool {
    '0' <= c && c <= '9'
}

/// Un espacio, tabulador o salto de línea.
pub open spec fn es_espacio(c: char) -> bool {
    c == ' ' || c == '\t' || c == '\n' || c == '\r'
}

/// Un carácter que puede seguir a la primera letra de una palabra.
pub open spec fn sigue_palabra(c: char) -> bool {
    es_letra(c) || es_digito(c) || c == '_'
}

/// El fin de la racha de caracteres de palabra que empieza en `i`.
pub open spec fn fin_palabra(s: Seq<char>, i: nat) -> nat
    decreases s.len() - i,
{
    if i < s.len() && sigue_palabra(s[i as int]) {
        fin_palabra(s, i + 1)
    } else {
        i
    }
}

/// El fin de la racha de dígitos que empieza en `i`.
pub open spec fn fin_digitos(s: Seq<char>, i: nat) -> nat
    decreases s.len() - i,
{
    if i < s.len() && es_digito(s[i as int]) {
        fin_digitos(s, i + 1)
    } else {
        i
    }
}

/// El fin del número que empieza en el dígito `i`: sus dígitos y, si siguen un
/// punto y un dígito, la parte decimal.
pub open spec fn fin_numero(s: Seq<char>, i: nat) -> nat {
    let j = fin_digitos(s, i);
    if j + 1 < s.len() && s[j as int] == '.' && es_digito(s[(j + 1) as int]) {
        fin_digitos(s, j + 1)
    } else {
        j
    }
}

/// Un símbolo de un carácter.
pub open spec fn simbolo_simple(c: char) -> bool {
    c == ';' || c == ':' || c == ',' || c == '(' || c == ')' || c == '{' || c == '}' || c == '='
        || c == '+' || c == '-' || c == '*' || c == '/' || c == '<' || c == '>'
}

/// El largo del símbolo que empieza en `i`: dos para `<= >= == !=`, uno para
/// los demás símbolos, cero si ahí no empieza un símbolo.
pub open spec fn largo_simbolo(s: Seq<char>, i: nat) -> nat {
    if i + 1 < s.len() && (s[i as int] == '<' || s[i as int] == '>' || s[i as int] == '='
        || s[i as int] == '!') && s[(i + 1) as int] == '=' {
        2
    } else if i < s.len() && simbolo_simple(s[i as int]) {
        1
    } else {
        0
    }
}

pub proof fn lema_fin_palabra(s: Seq<char>, i: nat)
    ensures
        i <= fin_palabra(s, i),
        i <= s.len() ==> fin_palabra(s, i) <= s.len(),
    decreases s.len() - i,
{
    if i < s.len() && sigue_palabra(s[i as int]) {
        lema_fin_palabra(s, i + 1);
    }
}

pub proof fn lema_fin_digitos(s: Seq<char>, i: nat)
    ensures
        i <= fin_digitos(s, i),
        i <= s.len() ==> fin_digitos(s, i) <= s.len(),
    decreases s.len() - i,
{
    if i < s.len() && es_digito(s[i as int]) {
        lema_fin_digitos(s, i + 1);
    }
}

pub proof fn lema_fin_numero(s: Seq<char>, i: nat)
    requires
        i < s.len(),
        es_digito(s[i as int]),
    ensures
        i < fin_numero(s, i) <= s.len(),
{
    lema_fin_digitos(s, i);
    lema_fin_digitos(s, i + 1);
    let j = fin_digitos(s, i);
    if j + 1 < s.len() && s[j as int] == '.' && es_digito(s[(j + 1) as int]) {
        lema_fin_digitos(s, j + 1);
    }
}

/// Antepone un lexema a una lista, si la hay.
pub open spec fn anteponer(l: Lexema, r: Option<Seq<Lexema>>) -> Option<Seq<Lexema>> {
    match r {
        Some(t) => Some(seq![l] + t),
        None => None,
    }
}

/// Los lexemas del texto `s` desde la posición `i`, o nada si hay un carácter
/// que no empieza ningún lexema.
pub open spec fn lexemas_desde(s: Seq<char>, i: nat) -> Option<Seq<Lexema>>
    decreases s.len() - i,
{
    if i >= s.len() {
        Some(Seq::empty())
    } else if es_espacio(s[i as int]) {
        lexemas_desde(s, i + 1)
    } else if es_letra(s[i as int]) {
        let j = fin_palabra(s, i + 1);
        proof {
            lema_fin_palabra(s, i + 1);
        }
        anteponer(Lexema::Palabra(s.subrange(i as int, j as int)), lexemas_desde(s, j))
    } else if es_digito(s[i as int]) {
        let j = fin_numero(s, i);
        proof {
            lema_fin_numero(s, i);
        }
        anteponer(Lexema::Numero(s.subrange(i as int, j as int)), lexemas_desde(s, j))
    } else if largo_simbolo(s, i) > 0 {
        let j = i + largo_simbolo(s, i);
        anteponer(Lexema::Simbolo(s.subrange(i as int, j as int)), lexemas_desde(s, j))
    } else {
        None
    }
}

/// Los lexemas de un texto, o nada si tiene un carácter fuera del lenguaje.
pub open spec fn lexemas_de(s: Seq<char>) -> Option<Seq<Lexema>> {
    lexemas_desde(s, 0)
}

/// Los caracteres de un texto, en orden.
fn caracteres(s: &str) -> (r: Vec<char>)
    ensures
        r@ == s@,
{
    let mut v: Vec<char> = Vec::new();
    for c in it: s.chars()
        invariant
            it.seq() == s@,
            v@ == it.seq().take(it.index() as int),
    {
        v.push(c);
        assert(it.seq().take(it.index() + 1) =~= it.seq().take(it.index() as int).push(c));
    }
    assert(s@.take(s@.len() as int) =~= s@);
    v
}

fn letra(c: char) -> (r: bool)
    ensures
        r == es_letra(c),
{
    ('a' <= c && c <= 'z') || ('A' <= c && c <= 'Z')
}

fn digito(c: char) -> (r: bool)
    ensures
        r == es_digito(c),
{
    '0' <= c && c <= '9'
}

fn espacio(c: char) -> (r: bool)
    ensures
        r == es_espacio(c),
{
    c == ' ' || c == '\t' || c == '\n' || c == '\r'
}

fn de_palabra(c: char) -> (r: bool)
    ensures
        r == sigue_palabra(c),
{
    letra(c) || digito(c) || c == '_'
}

/// El fin de la racha de caracteres de palabra que empieza en `i`.
fn avanzar_palabra(cs: &Vec<char>, i: usize) -> (j: usize)
    requires
        i <= cs@.len(),
    ensures
        j == fin_palabra(cs@, i as nat),
{
    let mut j = i;
    while j < cs.len() && de_palabra(cs[j])
        invariant
            i <= j <= cs@.len(),
            fin_palabra(cs@, j as nat) == fin_palabra(cs@, i as nat),
        decreases cs@.len() - j,
    {
        j = j + 1;
    }
    j
}

/// El fin de la racha de dígitos que empieza en `i`.
fn avanzar_digitos(cs: &Vec<char>, i: usize) -> (j: usize)
    requires
        i <= cs@.len(),
    ensures
        j == fin_digitos(cs@, i as nat),
{
    let mut j = i;
    while j < cs.len() && digito(cs[j])
        invariant
            i <= j <= cs@.len(),
            fin_digitos(cs@, j as nat) == fin_digitos(cs@, i as nat),
        decreases cs@.len() - j,
    {
        j = j + 1;
    }
    j
}

/// El fin del número que empieza en el dígito `i`.
fn avanzar_numero(cs: &Vec<char>, i: usize) -> (j: usize)
    requires
        i < cs@.len(),
        es_digito(cs@[i as int]),
    ensures
        j == fin_numero(cs@, i as nat),
{
    proof {
        lema_fin_digitos(cs@, i as nat);
    }
    let j = avanzar_digitos(cs, i);
    if j < cs.len() && j + 1 < cs.len() && cs[j] == '.' && digito(cs[j + 1]) {
        avanzar_digitos(cs, j + 1)
    } else {
        j
    }
}

/// El largo del símbolo que empieza en `i` (cero si no empieza uno).
fn medir_simbolo(cs: &Vec<char>, i: usize) -> (r: usize)
    requires
        i < cs@.len(),
    ensures
        r == largo_simbolo(cs@, i as nat),
{
    let c = cs[i];
    let n = cs.len();
    if i + 1 < n && (c == '<' || c == '>' || c == '=' || c == '!') && cs[i + 1] == '=' {
        2
    } else if c == ';' || c == ':' || c == ',' || c == '(' || c == ')' || c == '{' || c == '}'
        || c == '=' || c == '+' || c == '-' || c == '*' || c == '/' || c == '<' || c == '>' {
        1
    } else {
        0
    }
}

/// El mensaje de un programa que no sigue la gramática.
pub open spec fn mensaje_sintaxis() -> Seq<char> {
    "Error de sintaxis"@
}

/// Una lista de lexemas seguida de otra, si la hay.
pub open spec fn pegar(pref: Seq<Lexema>, r: Option<Seq<Lexema>>) -> Option<Seq<Lexema>> {
    match r {
        Some(t) => Some(pref + t),
        None => None,
    }
}

proof fn lema_pegar(pref: Seq<Lexema>, l: Lexema, r: Option<Seq<Lexema>>)
    ensures
        pegar(pref, anteponer(l, r)) == pegar(pref.push(l), r),
{
    match r {
        Some(t) => {
            assert(pref + (seq![l] + t) =~= pref.push(l) + t);
        },
        None => {},
    }
}

proof fn lema_lexemas_push(ts: Seq<Token>, t: Token)
    ensures
        lexemas(ts.push(t)) == lexemas(ts).push(t@),
{
    assert(lexemas(ts.push(t)) =~= lexemas(ts).push(t@));
}

/// Divide un texto en lexemas, o da el error de sintaxis si tiene un carácter
/// que no empieza ningún lexema.
pub fn tokenizar(texto: &str) -> (r: Result<Vec<Token>, String>)
    ensures
        match r {
            Ok(ts) => lexemas_de(texto@) == Some(lexemas(ts@)),
            Err(m) => lexemas_de(texto@) is None && m@ == mensaje_sintaxis(),
        },
{
    let cs = caracteres(texto);
    let n = cs.len();
    let mut v: Vec<Token> = Vec::new();
    let mut i: usize = 0;
    assert(lexemas(v@) =~= Seq::<Lexema>::empty());
    assert(pegar(Seq::empty(), lexemas_desde(cs@, 0)) =~= lexemas_desde(cs@, 0)) by {
        if let Some(t) = lexemas_desde(cs@, 0) {
            assert(Seq::<Lexema>::empty() + t =~= t);
        }
    }
    while i < n
        invariant
            n == cs@.len(),
            cs@ == texto@,
            i <= n,
            lexemas_de(texto@) == pegar(lexemas(v@), lexemas_desde(cs@, i as nat)),
        decreases n - i,
    {
        let c = cs[i];
        if espacio(c) {
            i = i + 1;
        } else {
            let (j, t) = if letra(c) {
                proof {
                    lema_fin_palabra(cs@, (i + 1) as nat);
                }
                let j = avanzar_palabra(&cs, i + 1);
                (j, Token::Palabra(texto.substring_char(i, j).to_owned()))
            } else if digito(c) {
                proof {
                    lema_fin_numero(cs@, i as nat);
                }
                let j = avanzar_numero(&cs, i);
                (j, Token::Numero(texto.substring_char(i, j).to_owned()))
            } else {
                let largo = medir_simbolo(&cs, i);
                if largo == 0 {
                    return Err("Error de sintaxis".to_owned());
                }
                let j = i + largo;
                (j, Token::Simbolo(texto.substring_char(i, j).to_owned()))
            };
            proof {
                lema_pegar(lexemas(v@), t@, lexemas_desde(cs@, j as nat));
                lema_lexemas_push(v@, t);
            }
            v.push(t);
            i = j;
        }
    }
    proof {
        assert(lexemas(v@) + Seq::<Lexema>::empty() =~= lexemas(v@));
    }
    Ok(v)
}

} // verus!
