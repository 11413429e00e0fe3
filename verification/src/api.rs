//! The settings of the API server that come from its environment.

use vstd::prelude::*;

use crate::text::{decimal, lemma_decimal_reads_back};

verus! {

/// An ASCII decimal digit.
pub open spec fn is_digit(c: char) -> bool {
    0x30 <= (c as u32) <= 0x39
}

/// The number that the digits `d` write in decimal.
pub open spec fn digits_value(d: Seq<char>) -> nat
    decreases d.len(),
{
    if d.len() == 0 {
        0
    } else {
        digits_value(d.drop_last()) * 10 + ((d.last() as u32) - 0x30) as nat
    }
}

/// The number that `s` writes as `str::parse` reads an unsigned integer: an
/// optional `+`, then one or more decimal digits and nothing else.
pub open spec fn unsigned_value(s: Seq<char>) -> Option<nat> {
    let d = if s.len() > 0 && s[0] == '+' {
        s.drop_first()
    } else {
        s
    };
    if d.len() > 0 && forall|i: int| 0 <= i < d.len() ==> is_digit(#[trigger] d[i]) {
        Some(digits_value(d))
    } else {
        None
    }
}

/// The port that `s` names, where it is a number below 65536.
pub open spec fn port_value(s: Seq<char>) -> Option<u16> {
    match unsigned_value(s) {
        Some(v) => if v <= 65535 {
            Some(v as u16)
        } else {
            None
        },
        None => None,
    }
}

/// `str::parse::<u16>`: its documentation accepts an optional `+` and
/// decimal digits, and refuses an empty text, any other character and a value
/// above `u16::MAX`.
#[verifier::external_body]
fn parse_u16(s: &str) -> (r: Option<u16>)
    ensures
        r == port_value(s@),
{
    s.parse::<u16>().ok()
}

/// The port the server listens on when none is configured, or the
/// configured one does not read as a port.
pub const DEFAULT_PORT: u16 = 3000;

/// The port for the value of the `PORT` setting, where there is one.
pub open spec fn port_for(setting: Option<Seq<char>>) -> u16 {
    match setting {
        Some(s) => match port_value(s) {
            Some(p) => p,
            None => DEFAULT_PORT,
        },
        None => DEFAULT_PORT,
    }
}

/// The port to listen on, from the `PORT` setting.
pub fn resolve_port(setting: Option<&str>) -> (r: u16)
    ensures
        r == port_for(
            match setting {
                Some(s) => Some(s@),
                None => None,
            },
        ),
{
    match setting {
        Some(s) => match parse_u16(s) {
            Some(p) => p,
            None => DEFAULT_PORT,
        },
        None => DEFAULT_PORT,
    }
}

/// The route for notifications, from the `NOTIFY_ROUTE` setting: the root
/// route where there is none.
pub fn resolve_notify_route(setting: Option<String>) -> (r: String)
    ensures
        r@ == match setting {
            Some(s) => s@,
            None => "/"@,
        },
{
    match setting {
        Some(s) => s,
        None => "/".to_owned(),
    }
}

/// Every port written in decimal, with the digits `0` to `9`, is read back
/// as that port.
pub proof fn lemma_port_reads_decimal(p: u16)
    ensures
        port_for(Some(decimal(p as nat))) == p,
{
    let d = decimal(p as nat);
    lemma_decimal_reads_back(p as nat);
    assert(is_digit(d[0]));
    assert(d[0] != '+');
    assert(unsigned_value(d) == Some(p as nat));
}

} // verus!
