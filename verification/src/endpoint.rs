//! Server strings of the form `host:port`, where the host is an IPv4 address
//! in dotted-quad notation and the port a number from 0 to 65535.

use crate::error::{outcome, DebuggerError, DebuggerErrorView};
use crate::text::{
    all_digits, chars_of, decimal_text, decimal_value, lemma_concat_holds_no,
    lemma_decimal_text_denotes, lemma_decimal_text_is_short, lemma_digits_hold_no,
    lemma_split_concat, lemma_split_without_separator, marks_piece, parse_decimal, split,
    split_ranges,
};
use crate::types::TcpArguments;
use vstd::prelude::*;
use vstd::slice::*;
use vstd::string::*;

verus! {

/// The byte that `group` denotes as one of the four numbers of a dotted
/// quad: one to three digits, no leading zero before another digit, at most
/// 255.
pub open spec fn octet_of(group: Seq<char>) -> Option<u8> {
    if 1 <= group.len() <= 3 && all_digits(group) && (group.len() == 1 || group[0] != '0')
        && decimal_value(group) <= 255 {
        Some(decimal_value(group) as u8)
    } else {
        None
    }
}

/// The address `a.b.c.d` as one 32-bit number, `a` in the highest byte.
pub open spec fn ipv4_bits(a: u8, b: u8, c: u8, d: u8) -> u32 {
    (a * 0x100_0000 + b * 0x1_0000 + c * 0x100 + d) as u32
}

/// The address that `host` denotes in dotted-quad notation: exactly four
/// octets with a dot between each two.
pub open spec fn ipv4_of(host: Seq<char>) -> Option<u32> {
    let groups = split(host, '.');
    if groups.len() == 4 && octet_of(groups[0]) is Some && octet_of(groups[1]) is Some && octet_of(
        groups[2],
    ) is Some && octet_of(groups[3]) is Some {
        Some(
            ipv4_bits(
                octet_of(groups[0])->0,
                octet_of(groups[1])->0,
                octet_of(groups[2])->0,
                octet_of(groups[3])->0,
            ),
        )
    } else {
        None
    }
}

/// The digits of a port numeral: what follows a plus sign, if it starts with
/// one, and else all of it.
pub open spec fn port_digits(port: Seq<char>) -> Seq<char> {
    if port.len() > 0 && port[0] == '+' {
        port.skip(1)
    } else {
        port
    }
}

/// The port that `port` denotes: at least one digit, after a plus sign or
/// none, and a value of at most 65535. Leading zeros do no harm.
pub open spec fn port_of(port: Seq<char>) -> Option<u16> {
    let digits = port_digits(port);
    if digits.len() > 0 && all_digits(digits) && decimal_value(digits) <= 65535 {
        Some(decimal_value(digits) as u16)
    } else {
        None
    }
}

/// What a server string stands for. It must fall into exactly two parts
/// around one colon; the first must be an IPv4 address and the second a
/// port, and they are judged in that order. No timeout is set.
pub open spec fn endpoint_of(server: Seq<char>) -> Result<TcpArguments, DebuggerErrorView> {
    let parts = split(server, ':');
    if parts.len() != 2 {
        Err(DebuggerErrorView::MalformedEndpoint(server))
    } else if ipv4_of(parts[0]) is None {
        Err(DebuggerErrorView::InvalidAddress(parts[0]))
    } else if port_of(parts[1]) is None {
        Err(DebuggerErrorView::InvalidPort(parts[1]))
    } else {
        Ok(TcpArguments { port: port_of(parts[1])->0, host: ipv4_of(parts[0])->0, timeout: None })
    }
}

/// The text `a.b.c.d`, each number in its shortest form.
pub open spec fn dotted_quad_text(a: u8, b: u8, c: u8, d: u8) -> Seq<char> {
    decimal_text(a as nat) + seq!['.'] + decimal_text(b as nat) + seq!['.'] + decimal_text(
        c as nat,
    ) + seq!['.'] + decimal_text(d as nat)
}

/// A server string that does not fall into exactly two parts at its colons
/// is malformed, whatever else it holds. The empty string is one such: it
/// is a single, empty part.
pub proof fn lemma_wrong_part_count_is_malformed(server: Seq<char>)
    requires
        split(server, ':').len() != 2,
    ensures
        endpoint_of(server) == Err::<TcpArguments, DebuggerErrorView>(
            DebuggerErrorView::MalformedEndpoint(server),
        ),
        endpoint_of(Seq::<char>::empty()) == Err::<TcpArguments, DebuggerErrorView>(
            DebuggerErrorView::MalformedEndpoint(Seq::<char>::empty()),
        ),
{
}

/// The two parts of `host:port` are `host` and `port`.
pub proof fn lemma_parts_of_host_and_port(host: Seq<char>, port: Seq<char>)
    requires
        !host.contains(':'),
        !port.contains(':'),
    ensures
        split(host + seq![':'] + port, ':') == seq![host, port],
{
    lemma_split_concat(host, port, ':');
    lemma_split_without_separator(host, ':');
    lemma_split_without_separator(port, ':');
    assert(seq![host] + seq![port] =~= seq![host, port]);
}

/// In `host:port`, a host that is no IPv4 address in dotted-quad notation is
/// refused as an invalid address, whatever the port: an empty host, a name,
/// a number out of range.
pub proof fn lemma_bad_host_is_invalid_address(host: Seq<char>, port: Seq<char>)
    requires
        !host.contains(':'),
        !port.contains(':'),
        ipv4_of(host) is None,
    ensures
        endpoint_of(host + seq![':'] + port) == Err::<TcpArguments, DebuggerErrorView>(
            DebuggerErrorView::InvalidAddress(host),
        ),
{
    lemma_parts_of_host_and_port(host, port);
}

/// In `host:port` with a valid host, a port that is no number from 0 to
/// 65535 is refused as an invalid port: an empty port, letters, a minus
/// sign, a number that is too large.
pub proof fn lemma_bad_port_is_invalid_port(host: Seq<char>, port: Seq<char>)
    requires
        !host.contains(':'),
        !port.contains(':'),
        ipv4_of(host) is Some,
        port_of(port) is None,
    ensures
        endpoint_of(host + seq![':'] + port) == Err::<TcpArguments, DebuggerErrorView>(
            DebuggerErrorView::InvalidPort(port),
        ),
{
    lemma_parts_of_host_and_port(host, port);
}

/// The shortest numeral of a byte is a valid octet and denotes that byte.
pub proof fn lemma_octet_of_decimal_text(a: u8)
    ensures
        octet_of(decimal_text(a as nat)) == Some(a),
        !decimal_text(a as nat).contains('.'),
        !decimal_text(a as nat).contains(':'),
{
    lemma_decimal_text_denotes(a as nat);
    lemma_decimal_text_is_short(a as nat);
    lemma_digits_hold_no(decimal_text(a as nat), '.');
    lemma_digits_hold_no(decimal_text(a as nat), ':');
}

/// The text `a.b.c.d` denotes the address with the bytes `a`, `b`, `c`, `d`,
/// highest first.
pub proof fn lemma_ipv4_of_dotted_quad(a: u8, b: u8, c: u8, d: u8)
    ensures
        ipv4_of(dotted_quad_text(a, b, c, d)) == Some(ipv4_bits(a, b, c, d)),
        !dotted_quad_text(a, b, c, d).contains(':'),
{
    let ta = decimal_text(a as nat);
    let tb = decimal_text(b as nat);
    let tc = decimal_text(c as nat);
    let td = decimal_text(d as nat);
    let dot = seq!['.'];
    lemma_octet_of_decimal_text(a);
    lemma_octet_of_decimal_text(b);
    lemma_octet_of_decimal_text(c);
    lemma_octet_of_decimal_text(d);
    lemma_split_without_separator(ta, '.');
    lemma_split_without_separator(tb, '.');
    lemma_split_without_separator(tc, '.');
    lemma_split_without_separator(td, '.');
    lemma_split_concat(ta, tb, '.');
    lemma_split_concat(ta + dot + tb, tc, '.');
    lemma_split_concat(ta + dot + tb + dot + tc, td, '.');
    assert(split(dotted_quad_text(a, b, c, d), '.') =~= seq![ta, tb, tc, td]);
    assert(!dot.contains(':')) by {
        assert forall|i: int| 0 <= i < dot.len() implies dot[i] != ':' by {}
    }
    lemma_concat_holds_no(ta, dot, ':');
    lemma_concat_holds_no(ta + dot, tb, ':');
    lemma_concat_holds_no(ta + dot + tb, dot, ':');
    lemma_concat_holds_no(ta + dot + tb + dot, tc, ':');
    lemma_concat_holds_no(ta + dot + tb + dot + tc, dot, ':');
    lemma_concat_holds_no(ta + dot + tb + dot + tc + dot, td, ':');
}

/// The shortest numeral of a port denotes that port.
pub proof fn lemma_port_of_decimal_text(port: u16)
    ensures
        port_of(decimal_text(port as nat)) == Some(port),
        !decimal_text(port as nat).contains(':'),
{
    lemma_decimal_text_denotes(port as nat);
    lemma_digits_hold_no(decimal_text(port as nat), ':');
}

/// Every address and port, written as `a.b.c.d:port` with each number in its
/// shortest form, is read back as that address and that port, with no
/// timeout.
pub proof fn lemma_written_endpoint_is_read_back(a: u8, b: u8, c: u8, d: u8, port: u16)
    ensures
        endpoint_of(dotted_quad_text(a, b, c, d) + seq![':'] + decimal_text(port as nat)) == Ok::<
            TcpArguments,
            DebuggerErrorView,
        >(TcpArguments { port, host: ipv4_bits(a, b, c, d), timeout: None }),
{
    lemma_ipv4_of_dotted_quad(a, b, c, d);
    lemma_port_of_decimal_text(port);
    lemma_parts_of_host_and_port(dotted_quad_text(a, b, c, d), decimal_text(port as nat));
}

/// Reading the same server string twice gives the same answer, down to the
/// text that an error holds.
pub proof fn lemma_parse_server_string_repeats(
    server: Seq<char>,
    first: Result<TcpArguments, DebuggerError>,
    second: Result<TcpArguments, DebuggerError>,
)
    requires
        outcome(first) == endpoint_of(server),
        outcome(second) == endpoint_of(server),
    ensures
        outcome(first) == outcome(second),
        first matches Err(error) ==> (second matches Err(again) && error@.message()
            == again@.message()),
{
}

/// Reads one number of a dotted quad.
pub fn parse_octet(group: &[char]) -> (r: Option<u8>)
    ensures
        r == octet_of(group@),
{
    if group.len() == 0 || group.len() > 3 {
        return None;
    }
    if group.len() > 1 && group[0] == '0' {
        return None;
    }
    match parse_decimal(group, 255) {
        Some(value) => Some(value as u8),
        None => None,
    }
}

/// Reads an IPv4 address in dotted-quad notation.
pub fn parse_ipv4(host: &[char]) -> (r: Option<u32>)
    ensures
        r == ipv4_of(host@),
{
    let groups = split_ranges(host, '.');
    if groups.len() != 4 {
        return None;
    }
    let ghost pieces = split(host@, '.');
    assert(marks_piece(groups@[0], host@, pieces, 0));
    assert(marks_piece(groups@[1], host@, pieces, 1));
    assert(marks_piece(groups@[2], host@, pieces, 2));
    assert(marks_piece(groups@[3], host@, pieces, 3));
    let a = match parse_octet(slice_subrange(host, groups[0].0, groups[0].1)) {
        Some(a) => a,
        None => { return None; },
    };
    let b = match parse_octet(slice_subrange(host, groups[1].0, groups[1].1)) {
        Some(b) => b,
        None => { return None; },
    };
    let c = match parse_octet(slice_subrange(host, groups[2].0, groups[2].1)) {
        Some(c) => c,
        None => { return None; },
    };
    let d = match parse_octet(slice_subrange(host, groups[3].0, groups[3].1)) {
        Some(d) => d,
        None => { return None; },
    };
    Some((a as u32) * 0x100_0000 + (b as u32) * 0x1_0000 + (c as u32) * 0x100 + (d as u32))
}

/// Reads a port number.
pub fn parse_port(port: &[char]) -> (r: Option<u16>)
    ensures
        r == port_of(port@),
{
    let digits = if port.len() > 0 && port[0] == '+' {
        slice_subrange(port, 1, port.len())
    } else {
        port
    };
    if digits.len() == 0 {
        return None;
    }
    match parse_decimal(digits, 65535) {
        Some(value) => Some(value as u16),
        None => None,
    }
}

/// Reads a server string of the form `host:port`.
///
/// The string is cut at its colons and must fall into exactly two parts.
/// The first is read as an IPv4 address, the second as a port; the first
/// that fails decides the error, which holds the text that was refused.
pub fn parse_server_string(server_string: &str) -> (r: Result<TcpArguments, DebuggerError>)
    ensures
        outcome(r) == endpoint_of(server_string@),
        split(server_string@, ':').len() != 2 ==> (r matches Err(error) && error@
            == DebuggerErrorView::MalformedEndpoint(server_string@)),
        r matches Ok(endpoint) ==> endpoint.timeout is None,
{
    let chars = chars_of(server_string);
    let parts = split_ranges(chars.as_slice(), ':');
    if parts.len() != 2 {
        return Err(DebuggerError::MalformedEndpoint(server_string.to_owned()));
    }
    let ghost pieces = split(server_string@, ':');
    assert(marks_piece(parts@[0], chars@, pieces, 0));
    assert(marks_piece(parts@[1], chars@, pieces, 1));
    let (host_start, host_end) = parts[0];
    let (port_start, port_end) = parts[1];
    let host = match parse_ipv4(slice_subrange(chars.as_slice(), host_start, host_end)) {
        Some(host) => host,
        None => {
            let refused = server_string.substring_char(host_start, host_end);
            return Err(DebuggerError::InvalidAddress(refused.to_owned()));
        },
    };
    let port = match parse_port(slice_subrange(chars.as_slice(), port_start, port_end)) {
        Some(port) => port,
        None => {
            let refused = server_string.substring_char(port_start, port_end);
            return Err(DebuggerError::InvalidPort(refused.to_owned()));
        },
    };
    Ok(TcpArguments { port, host, timeout: None })
}

} // verus!
