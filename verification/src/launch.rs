//! What the launcher decides before anything runs: the mode, the ports and
//! addresses with their defaults, and the host to show in the example.

use crate::auth_state::same_text;
use crate::numeral::{Digits, digits_read, read_digits};
use crate::uptime::{decimal, push_decimal};
use vstd::prelude::*;
use vstd::string::*;

verus! {

/// The port on which the coordinator serves nodes unless told otherwise.
pub const DEFAULT_GRPC_PORT: u16 = 50051;

/// The port on which the coordinator serves the API unless told otherwise.
pub const DEFAULT_API_PORT: u16 = 3000;

/// What to launch.
#[derive(Clone, Copy, Debug, PartialEq, Eq)]
pub enum Mode {
    Node,
    Coordinator,
    /// A node together with a coordinator of its own.
    SelfHosted,
}

/// The mode that a word names.
pub open spec fn mode_of(word: Seq<char>) -> Option<Mode> {
    if word == "node"@ {
        Some(Mode::Node)
    } else if word == "coordinator"@ {
        Some(Mode::Coordinator)
    } else if word == "self-hosted"@ {
        Some(Mode::SelfHosted)
    } else {
        None
    }
}

/// Reads the mode: `node`, `coordinator` or `self-hosted`, and nothing else.
pub fn parse_mode(word: &str) -> (mode: Option<Mode>)
    ensures
        mode == mode_of(word@),
{
    if same_text(word, "node") {
        Some(Mode::Node)
    } else if same_text(word, "coordinator") {
        Some(Mode::Coordinator)
    } else if same_text(word, "self-hosted") {
        Some(Mode::SelfHosted)
    } else {
        None
    }
}

/// The digits of a numeral: the text without a plus sign that leads it.
pub open spec fn numeral_digits(text: Seq<char>) -> Seq<char> {
    if text.len() > 0 && text[0] == '+' {
        text.skip(1)
    } else {
        text
    }
}

/// The port that a text denotes: an optional plus sign and then one or more
/// decimal digits, with a value of at most 65535. Any other text denotes
/// none.
pub open spec fn port_of(text: Seq<char>) -> Option<u16> {
    match digits_read(numeral_digits(text), 65535) {
        Digits::Value(port) => Some(port as u16),
        _ => None,
    }
}

/// Reads a port number.
pub fn parse_port(text: &str) -> (port: Option<u16>)
    ensures
        port == port_of(text@),
{
    let len = text.unicode_len();
    let start: usize = if len > 0 && text.get_char(0) == '+' {
        1
    } else {
        0
    };
    proof {
        assert(text@.skip(0) == text@);
    }
    match read_digits(text, start, 65535) {
        Digits::Value(port) => Some(port as u16),
        _ => None,
    }
}

/// The port to use: the one given on the command line, else the one that
/// the environment names if it is a port number, else the default.
pub fn get_port_from_env_or_default(given: Option<u16>, env: Option<String>, default: u16) -> (port:
    u16)
    ensures
        port == (match given {
            Some(port) => port,
            None => match env {
                Some(text) => match port_of(text@) {
                    Some(port) => port,
                    None => default,
                },
                None => default,
            },
        }),
{
    match given {
        Some(port) => port,
        None => match env {
            Some(text) => match parse_port(text.as_str()) {
                Some(port) => port,
                None => default,
            },
            None => default,
        },
    }
}

/// The address of the coordinator: the one given on the command line, else
/// the one that the environment names, else that of a coordinator on this
/// host.
pub fn get_coordinator_addr_from_env_or_default(given: Option<String>, env: Option<String>) -> (address:
    String)
    ensures
        address@ == (match given {
            Some(address) => address@,
            None => match env {
                Some(address) => address@,
                None => "http://localhost:50051"@,
            },
        }),
{
    match given {
        Some(address) => address,
        None => match env {
            Some(address) => address,
            None => "http://localhost:50051".to_owned(),
        },
    }
}

/// The address on which a listener binds: every interface, at `port`.
pub fn bind_address(port: u16) -> (address: String)
    ensures
        address@ == "0.0.0.0:"@ + decimal(port as nat),
{
    let mut address = "0.0.0.0:".to_owned();
    push_decimal(&mut address, port as u64);
    address
}

/// The address of a coordinator on this host that serves nodes at `port`.
pub fn local_coordinator_address(port: u16) -> (address: String)
    ensures
        address@ == "http://localhost:"@ + decimal(port as nat),
{
    let mut address = "http://localhost:".to_owned();
    push_decimal(&mut address, port as u64);
    address
}

/// The text holds `://` at `i`.
pub open spec fn scheme_mark_at(text: Seq<char>, i: int) -> bool {
    0 <= i && i + 3 <= text.len() && text[i] == ':' && text[i + 1] == '/' && text[i + 2] == '/'
}

/// Where the host begins: behind the last `://` that starts before `bound`,
/// or at the start where there is none.
pub open spec fn host_start(text: Seq<char>, bound: nat) -> int
    decreases bound,
{
    if bound == 0 {
        0
    } else if scheme_mark_at(text, bound - 1) {
        bound - 1 + 3
    } else {
        host_start(text, (bound - 1) as nat)
    }
}

/// Where the host ends: at the first colon from `from` on, or at the end of
/// the text where there is none.
pub open spec fn host_end(text: Seq<char>, from: int) -> int
    decreases text.len() - from,
{
    if from < 0 || from >= text.len() {
        text.len() as int
    } else if text[from] == ':' {
        from
    } else {
        host_end(text, from + 1)
    }
}

/// The host of an address: what stands behind the last `://` and before the
/// next colon.
pub open spec fn host_of(address: Seq<char>) -> Seq<char> {
    let start = host_start(address, address.len());
    address.subrange(start, host_end(address, start))
}

fn host_only(address: &str) -> (host: String)
    ensures
        host@ == host_of(address@),
{
    let len = address.unicode_len();
    let mut start: usize = 0;
    let mut i: usize = 0;
    while i < len
        invariant
            i <= len,
            len == address@.len(),
            start <= len,
            start == host_start(address@, i as nat),
        decreases len - i,
    {
        if len - i >= 3 && address.get_char(i) == ':' && address.get_char(i + 1) == '/'
            && address.get_char(i + 2) == '/' {
            start = i + 3;
        }
        i += 1;
    }
    let mut end: usize = start;
    while end < len && address.get_char(end) != ':'
        invariant
            start <= end <= len,
            len == address@.len(),
            host_end(address@, start as int) == host_end(address@, end as int),
        decreases len - end,
    {
        end += 1;
    }
    address.substring_char(start, end).to_owned()
}

/// The host to name in the example that a node shows when it starts: the
/// host of the coordinator's address, or this host where the node and its
/// coordinator run as one, or where the address names the coordinator by
/// its service name `docklord-coordinator`.
pub fn example_host(coordinator_address: &str, is_self_hosted: bool) -> (host: String)
    ensures
        host@ == (if is_self_hosted || host_of(coordinator_address@) == "docklord-coordinator"@ {
            "localhost"@
        } else {
            host_of(coordinator_address@)
        }),
{
    if is_self_hosted {
        return "localhost".to_owned();
    }
    let host = host_only(coordinator_address);
    if same_text(host.as_str(), "docklord-coordinator") {
        "localhost".to_owned()
    } else {
        host
    }
}

} // verus!
