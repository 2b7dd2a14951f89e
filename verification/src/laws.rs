//! What holds of reading a request for every text.

use crate::error::ParseError;
use crate::port::{all_digits, decimal_value, digit_value, is_digit, port_number, unsigned_part};
use crate::request::HickoryToSocketAddrs;
use crate::text::{
    is_last_separator, lemma_separator_found, lemma_separator_is_rightmost, parse_address,
    separator, SEPARATOR,
};
use vstd::prelude::*;

verus! {

/// The decimal digit that stands for `d`.
pub open spec fn digit_char(d: nat) -> char
    recommends
        d < 10,
{
    ('0' as u32 + d) as char
}

/// `n` written in base 10, without sign and without leading zeros.
pub open spec fn decimal_text(n: nat) -> Seq<char>
    decreases n,
{
    if n < 10 {
        seq![digit_char(n)]
    } else {
        decimal_text(n / 10).push(digit_char(n % 10))
    }
}

/// A host and a port written as one text, the port in base 10 behind a `:`.
pub open spec fn address_text(host: Seq<char>, port: u16) -> Seq<char> {
    host + seq![SEPARATOR] + decimal_text(port as nat)
}

/// A number written in base 10 is made of digits alone, and they denote that number.
pub proof fn lemma_decimal_text_denotes(n: nat)
    ensures
        decimal_text(n).len() > 0,
        all_digits(decimal_text(n)),
        decimal_value(decimal_text(n)) == n,
    decreases n,
{
    let text = decimal_text(n);
    if n < 10 {
        assert(is_digit(digit_char(n)));
        assert(digit_value(digit_char(n)) == n);
        assert(text.drop_last() =~= Seq::<char>::empty());
        assert(decimal_value(text.drop_last()) == 0);
    } else {
        lemma_decimal_text_denotes(n / 10);
        assert(is_digit(digit_char(n % 10)));
        assert(digit_value(digit_char(n % 10)) == n % 10);
        assert(text.drop_last() =~= decimal_text(n / 10));
    }
}

/// Every port, written in base 10, is read back as that port.
pub proof fn lemma_port_text_is_read_back(port: u16)
    ensures
        port_number(decimal_text(port as nat)) == Some(port),
        !decimal_text(port as nat).contains(SEPARATOR),
{
    let text = decimal_text(port as nat);
    lemma_decimal_text_denotes(port as nat);
    assert(is_digit(text[0]));
    assert(unsigned_part(text) == text);
    if text.contains(SEPARATOR) {
        let k = choose|k: int| 0 <= k < text.len() && text[k] == SEPARATOR;
        assert(is_digit(text[k]));
    }
}

/// Reading is total on well-formed texts and recovers what was written: for every host
/// and every port, the text made of the host, a `:` and the port in base 10 is read as
/// exactly that host and that port. The host may be empty and may itself hold a `:`,
/// since the text is split at its last one.
pub proof fn lemma_parse_recovers_parts(host: Seq<char>, port: u16)
    ensures
        parse_address(address_text(host, port)) == Ok::<(Seq<char>, u16), ParseError>(
            (host, port),
        ),
{
    let text = address_text(host, port);
    let at = host.len() as int;
    lemma_port_text_is_read_back(port);
    assert(text.skip(at + 1) =~= decimal_text(port as nat));
    assert(text.take(at) =~= host);
    assert(text[at] == SEPARATOR);
    lemma_separator_found(text, at);
}

/// A request written out and read again is the same request: whatever reading the text
/// of `request` comes to, it is a request with the host and the port of `request`.
pub proof fn lemma_round_trip(
    request: HickoryToSocketAddrs<String>,
    parsed: Result<HickoryToSocketAddrs<String>, ParseError>,
)
    requires
        HickoryToSocketAddrs::reads_as(
            address_text(request.spec_host()@, request.spec_port()),
            parsed,
        ),
    ensures
        parsed matches Ok(read) && read.spec_host()@ == request.spec_host()@ && read.spec_port()
            == request.spec_port(),
{
    lemma_parse_recovers_parts(request.spec_host()@, request.spec_port());
}

/// Reading fails on exactly two kinds of text, each with its own error: one that holds
/// no `:`, and one in which what follows the last `:` is not a port number.
pub proof fn lemma_parse_refusals(text: Seq<char>)
    ensures
        parse_address(text) == Err::<(Seq<char>, u16), ParseError>(
            ParseError::MissingSeparator,
        ) <==> !text.contains(SEPARATOR),
        parse_address(text) == Err::<(Seq<char>, u16), ParseError>(ParseError::InvalidPort)
            <==> exists|at: int| #[trigger]
            is_last_separator(text, at) && port_number(text.skip(at + 1)) is None,
{
    lemma_separator_is_rightmost(text);
    if let Some(found) = separator(text) {
        if port_number(text.skip(found + 1)) is None {
            assert(is_last_separator(text, found));
        }
    }
    if exists|at: int| #[trigger]
        is_last_separator(text, at) && port_number(text.skip(at + 1)) is None {
        let at = choose|at: int| #[trigger]
            is_last_separator(text, at) && port_number(text.skip(at + 1)) is None;
        lemma_separator_found(text, at);
    }
}

} // verus!
