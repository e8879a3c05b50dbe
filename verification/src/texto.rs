//! Texto: representación decimal de direcciones y armado de mensajes.

use vstd::prelude::*;

verus! {

/// El texto de un dígito decimal.
pub open spec fn texto_digito(d: nat) -> Seq<char> {
    if d == 0 {
        "0"@
    } else if d == 1 {
        "1"@
    } else if d == 2 {
        "2"@
    } else if d == 3 {
        "3"@
    } else if d == 4 {
        "4"@
    } else if d == 5 {
        "5"@
    } else if d == 6 {
        "6"@
    } else if d == 7 {
        "7"@
    } else if d == 8 {
        "8"@
    } else {
        "9"@
    }
}

/// La representación decimal de un número natural, sin ceros a la izquierda.
pub open spec fn decimal(n: nat) -> Seq<char>
    decreases n,
{
    if n < 10 {
        texto_digito(n)
    } else {
        decimal(n / 10) + texto_digito(n % 10)
    }
}

fn digito_a_cadena(d: usize) -> (r: String)
    requires
        d < 10,
    ensures
        r@ == texto_digito(d as nat),
{
    if d == 0 {
        "0".to_owned()
    } else if d == 1 {
        "1".to_owned()
    } else if d == 2 {
        "2".to_owned()
    } else if d == 3 {
        "3".to_owned()
    } else if d == 4 {
        "4".to_owned()
    } else if d == 5 {
        "5".to_owned()
    } else if d == 6 {
        "6".to_owned()
    } else if d == 7 {
        "7".to_owned()
    } else if d == 8 {
        "8".to_owned()
    } else {
        "9".to_owned()
    }
}

/// Escribe un número en decimal, como lo hace `to_string` sobre un entero sin signo.
pub fn a_decimal(n: usize) -> (r: String)
    ensures
        r@ == decimal(n as nat),
    decreases n,
{
    if n < 10 {
        digito_a_cadena(n)
    } else {
        let mut s = a_decimal(n / 10);
        let d = digito_a_cadena(n % 10);
        s.append(d.as_str());
        s
    }
}

/// Compara dos textos por su contenido.
pub fn mismo_texto(a: &str, b: &str) -> (r: bool)
    ensures
        r == (a@ == b@),
{
    let x: String = a.to_owned();
    let y: String = b.to_owned();
    x == y
}

/// Une dos textos: `a` seguido de `b`.
pub fn unir(a: String, b: &str) -> (r: String)
    ensures
        r@ == a@ + b@,
{
    let mut a = a;
    a.append(b);
    a
}

} // verus!
