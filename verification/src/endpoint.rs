//! The addresses the server connects to: the node URL with its port written out, and the
//! routes of the contract service.

use vstd::prelude::*;

verus! {

/// The decimal digit of a value below 10.
pub open spec fn digit_char(d: int) -> char {
    ('0' as int + d) as char
}

/// The decimal text of a number, without leading zeros (`0` for zero).
pub open spec fn decimal_text(n: nat) -> Seq<char>
    decreases n,
{
    if n < 10 {
        seq![digit_char(n as int)]
    } else {
        decimal_text(n / 10) + seq![digit_char((n % 10) as int)]
    }
}

/// The text of one decimal digit.
fn digit_str(d: u16) -> (r: &'static str)
    requires
        d < 10,
    ensures
        r@ == seq![digit_char(d as int)],
{
    proof {
        reveal_strlit("0");
        reveal_strlit("1");
        reveal_strlit("2");
        reveal_strlit("3");
        reveal_strlit("4");
        reveal_strlit("5");
        reveal_strlit("6");
        reveal_strlit("7");
        reveal_strlit("8");
        reveal_strlit("9");
    }
    let r = match d {
        0 => "0",
        1 => "1",
        2 => "2",
        3 => "3",
        4 => "4",
        5 => "5",
        6 => "6",
        7 => "7",
        8 => "8",
        _ => "9",
    };
    assert(r@ =~= seq![digit_char(d as int)]);
    r
}

/// The decimal text of a port number.
pub fn port_text(n: u16) -> (r: String)
    ensures
        r@ == decimal_text(n as nat),
    decreases n,
{
    if n < 10 {
        String::from_str(digit_str(n))
    } else {
        let mut r = port_text(n / 10);
        r.append(digit_str(n % 10));
        r
    }
}

/// The node URL as the client connects to it: the URL's text, and when it names no port
/// but its scheme has a known default, that port written out before the final character
/// (the `/` that ends the root path).
pub open spec fn url_text_with_port(text: Seq<char>, port: Option<u16>, default_port: Option<u16>) -> Seq<char> {
    match (port, default_port) {
        (None, Some(p)) => text.take(text.len() - 1) + ":"@ + decimal_text(p as nat) + text.skip(text.len() - 1),
        _ => text,
    }
}

/// The node URL as the client connects to it, from the URL's (ASCII, non-empty) text, the
/// port it names and the default port of its scheme.
pub fn url_to_string(text: &str, port: Option<u16>, default_port: Option<u16>) -> (r: String)
    requires
        text.is_ascii(),
        text@.len() > 0,
    ensures
        r@ == url_text_with_port(text@, port, default_port),
{
    match (port, default_port) {
        (None, Some(p)) => {
            let len = text.unicode_len();
            let head = text.substring_ascii(0, len - 1);
            let tail = text.substring_ascii(len - 1, len);
            let mut r = String::from_str(head);
            r.append(":");
            r.append(port_text(p).as_str());
            r.append(tail);
            proof {
                reveal_strlit(":");
                assert(head@ =~= text@.take(text@.len() - 1));
                assert(tail@ =~= text@.skip(text@.len() - 1));
            }
            r
        },
        _ => String::from_str(text),
    }
}

/// The address of a route of the contract service: its host and port, a `/`, the route.
pub fn contract_endpoint(host_and_port: &str, cmd: &str) -> (r: String)
    ensures
        r@ == host_and_port@ + "/"@ + cmd@,
{
    let mut r = String::from_str(host_and_port);
    r.append("/");
    r.append(cmd);
    r
}

} // verus!
