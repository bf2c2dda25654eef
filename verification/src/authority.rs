//! The `host:port` text by which a connection names its destination.
//!
//! The text is the host, a colon, and the port in decimal without leading
//! zeros. It is built from the request alone: nothing that a proxy or a
//! resolver reports can enter it.

use vstd::prelude::*;
use vstd::string::StringExecFns;

verus! {

/// The character that writes the decimal digit `d`.
pub open spec fn digit_char(d: nat) -> char
    recommends
        d < 10,
{
    if d == 0 {
        '0'
    } else if d == 1 {
        '1'
    } else if d == 2 {
        '2'
    } else if d == 3 {
        '3'
    } else if d == 4 {
        '4'
    } else if d == 5 {
        '5'
    } else if d == 6 {
        '6'
    } else if d == 7 {
        '7'
    } else if d == 8 {
        '8'
    } else {
        '9'
    }
}

/// `n` in decimal, most significant digit first, without leading zeros.
pub open spec fn decimal_digits(n: nat) -> Seq<char>
    decreases n,
{
    if n < 10 {
        seq![digit_char(n)]
    } else {
        decimal_digits(n / 10).push(digit_char(n % 10))
    }
}

/// The identity text of the destination `host`, `port`.
pub open spec fn authority_text(host: Seq<char>, port: u16) -> Seq<char> {
    host + seq![':'] + decimal_digits(port as nat)
}

/// A number's digits are at least one, and none of them is a colon.
pub proof fn lemma_digits_are_digits(n: nat)
    ensures
        decimal_digits(n).len() >= 1,
        n < 10 <==> decimal_digits(n).len() == 1,
        forall|i: int| 0 <= i < decimal_digits(n).len() ==> decimal_digits(n)[i] != ':',
    decreases n,
{
    if n >= 10 {
        lemma_digits_are_digits(n / 10);
    }
}

/// Two digits that are written alike are one digit.
proof fn lemma_digit_char_determines_digit(a: nat, b: nat)
    requires
        a < 10,
        b < 10,
        digit_char(a) == digit_char(b),
    ensures
        a == b,
{
}

/// Two numbers with the same digits are one number.
pub proof fn lemma_digits_determine_number(a: nat, b: nat)
    requires
        decimal_digits(a) == decimal_digits(b),
    ensures
        a == b,
    decreases a,
{
    lemma_digits_are_digits(a);
    lemma_digits_are_digits(b);
    if a < 10 {
        assert(decimal_digits(a)[0] == digit_char(a));
        assert(decimal_digits(b)[0] == digit_char(b));
        lemma_digit_char_determines_digit(a, b);
    } else {
        assert(decimal_digits(a).drop_last() =~= decimal_digits(a / 10));
        assert(decimal_digits(b).drop_last() =~= decimal_digits(b / 10));
        assert(decimal_digits(a).last() == digit_char(a % 10));
        assert(decimal_digits(b).last() == digit_char(b % 10));
        lemma_digits_determine_number(a / 10, b / 10);
        lemma_digit_char_determines_digit(a % 10, b % 10);
    }
}

/// An identity text names one destination: two destinations with the same
/// identity text have the same host and the same port.
pub proof fn lemma_identity_determines_destination(
    host_a: Seq<char>,
    port_a: u16,
    host_b: Seq<char>,
    port_b: u16,
)
    requires
        authority_text(host_a, port_a) == authority_text(host_b, port_b),
    ensures
        host_a == host_b,
        port_a == port_b,
{
    let text = authority_text(host_a, port_a);
    let digits_a = decimal_digits(port_a as nat);
    let digits_b = decimal_digits(port_b as nat);
    lemma_digits_are_digits(port_a as nat);
    lemma_digits_are_digits(port_b as nat);
    assert(text.len() == host_a.len() + 1 + digits_a.len());
    assert(text.len() == host_b.len() + 1 + digits_b.len());
    // The colon that ends the host is the last colon of the text.
    assert(text[host_a.len() as int] == ':');
    assert(authority_text(host_b, port_b)[host_b.len() as int] == ':');
    if host_a.len() < host_b.len() {
        let i = host_b.len() - host_a.len() - 1;
        assert(text[host_b.len() as int] == digits_a[i]);
        assert(false);
    }
    if host_b.len() < host_a.len() {
        let i = host_a.len() - host_b.len() - 1;
        assert(authority_text(host_b, port_b)[host_a.len() as int] == digits_b[i]);
        assert(false);
    }
    assert(host_a =~= text.subrange(0, host_a.len() as int));
    assert(host_b =~= text.subrange(0, host_b.len() as int));
    assert(digits_a =~= text.subrange(host_a.len() as int + 1, text.len() as int));
    assert(digits_b =~= text.subrange(host_b.len() as int + 1, text.len() as int));
    lemma_digits_determine_number(port_a as nat, port_b as nat);
}

/// The one-character text of a decimal digit.
fn digit_str(d: u16) -> (s: &'static str)
    requires
        d < 10,
    ensures
        s@ == seq![digit_char(d as nat)],
{
    proof {
        reveal_strlit("0");
        reveal_strlit("1");
        reveal_strlit("2");
        reveal_strlit("3");
        reveal_strlit("4");
        reveal_strlit("5");
        reveal_strlit("6");
        reveal_strlit("7");
        reveal_strlit("8");
        reveal_strlit("9");
    }
    let s = match d {
        0 => "0",
        1 => "1",
        2 => "2",
        3 => "3",
        4 => "4",
        5 => "5",
        6 => "6",
        7 => "7",
        8 => "8",
        _ => "9",
    };
    assert(s@ =~= seq![digit_char(d as nat)]);
    s
}

/// Appends `n` in decimal to `out`.
pub fn push_decimal(out: &mut String, n: u16)
    ensures
        final(out)@ == old(out)@ + decimal_digits(n as nat),
    decreases n,
{
    if n >= 10 {
        push_decimal(out, n / 10);
    }
    out.append(digit_str(n % 10));
    assert(out@ =~= old(out)@ + decimal_digits(n as nat));
}

/// Writes the identity text of the destination `host`, `port`.
pub fn format_authority(host: &str, port: u16) -> (text: String)
    ensures
        text@ == authority_text(host@, port),
{
    let mut text = String::from_str(host);
    proof {
        reveal_strlit(":");
    }
    text.append(":");
    assert(text@ =~= host@ + seq![':']);
    push_decimal(&mut text, port);
    text
}

} // verus!
