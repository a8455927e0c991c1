use vstd::prelude::*;
use vstd::string::StringExecFns;

verus! {

/// The decimal digits of `n`, most significant first, without leading zeros.
pub open spec fn decimal(n: nat) -> Seq<char>
    decreases n,
{
    if n < 10 {
        seq![digit_char(n)]
    } else {
        decimal(n / 10).push(digit_char(n % 10))
    }
}

pub open spec fn digit_char(d: nat) -> char {
    if d == 0 { '0' }
    else if d == 1 { '1' }
    else if d == 2 { '2' }
    else if d == 3 { '3' }
    else if d == 4 { '4' }
    else if d == 5 { '5' }
    else if d == 6 { '6' }
    else if d == 7 { '7' }
    else if d == 8 { '8' }
    else { '9' }
}

/// Relies on `u16`'s `Display` (through `ToString::to_string`): an unsigned
/// integer is written as its decimal digits without sign or leading zeros.
#[verifier::external_body]
fn port_text(port: u16) -> (r: String)
    ensures
        r@ == decimal(port as nat),
{
    port.to_string()
}

/// `host:port`, the base address of a service.
pub open spec fn base_url(host: Seq<char>, port: u16) -> Seq<char> {
    host + seq![':'] + decimal(port as nat)
}

fn join_host_port(host: &str, port: u16) -> (r: String)
    ensures
        r@ == base_url(host@, port),
{
    let mut url = String::from_str(host);
    url.append(":");
    let digits = port_text(port);
    url.append(digits.as_str());
    proof {
        reveal_strlit(":");
    }
    url
}

/// The base address of the login service.
pub fn build_login_base_url(host: &str, port: u16) -> (r: String)
    ensures
        r@ == base_url(host@, port),
{
    join_host_port(host, port)
}

/// The base address of the user service.
pub fn build_user_api_base_url(host: &str, port: u16) -> (r: String)
    ensures
        r@ == base_url(host@, port),
{
    join_host_port(host, port)
}

/// The base address of the orders service.
pub fn build_orders_api_base_url(host: &str, port: u16) -> (r: String)
    ensures
        r@ == base_url(host@, port),
{
    join_host_port(host, port)
}

} // verus!
