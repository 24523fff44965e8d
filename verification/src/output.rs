use std::time::Duration;

use vstd::prelude::*;

use crate::stats::{estimate_hops, hops_estimate};
use crate::text::{
    decimal_u16, decimal_u32, decimal_u8, ipv4_dotted, ipv4_text, parse_ipv4, spec_parse_ipv4, u16_text,
    u32_text, u8_text,
};
use crate::types::{PingResult, RouteHop};

verus! {

/// Colour a piece of a result line is shown in.
#[derive(Debug, Clone, Copy, PartialEq, Eq)]
pub enum Tint {
    Cyan,
    Green,
    Yellow,
    Red,
    Magenta,
    Blue,
}

/// Content of a piece of a result line: text, or a duration the terminal
/// writes in its own format (a round-trip time in milliseconds, or the
/// reply timeout in seconds).
#[derive(Debug, PartialEq)]
pub enum PieceText {
    Text(String),
    RoundTripTime(Duration),
    Timeout,
}

/// Mathematical content of a piece.
pub enum PieceView {
    Text(Seq<char>),
    RoundTripTime(Duration),
    Timeout,
}

impl View for PieceText {
    type V = PieceView;

    open spec fn view(&self) -> PieceView {
        match self {
            PieceText::Text(s) => PieceView::Text(s@),
            PieceText::RoundTripTime(d) => PieceView::RoundTripTime(*d),
            PieceText::Timeout => PieceView::Timeout,
        }
    }
}

/// One space-separated piece of a result line with its style.
#[derive(Debug, PartialEq)]
pub struct Piece {
    pub text: PieceText,
    pub tint: Tint,
    pub bold: bool,
}

/// A piece's content and style.
pub open spec fn piece_view(p: Piece) -> (PieceView, Tint, bool) {
    (p.text@, p.tint, p.bold)
}

/// How a probe's target is shown: the address alone when the target was
/// written as an address, otherwise the name followed by the address in
/// parentheses.
pub open spec fn target_display(written: Seq<char>, resolved: u32) -> Seq<char> {
    if spec_parse_ipv4(written) is Some {
        ipv4_dotted(resolved)
    } else {
        written + seq![' ', '('] + ipv4_dotted(resolved) + seq![')']
    }
}

/// The text naming the address that reported an error, empty when unknown.
pub open spec fn source_text(from: Option<u32>) -> Seq<char> {
    match from {
        Some(a) => "from="@ + ipv4_dotted(a),
        None => Seq::<char>::empty(),
    }
}

/// An error line: target, label, sequence and source of the error.
pub open spec fn error_line(
    target: Seq<char>,
    sequence: u16,
    label: Seq<char>,
    tint: Tint,
    source_tint: Tint,
    source_bold: bool,
    from: Option<u32>,
) -> Seq<(PieceView, Tint, bool)> {
    seq![
        (PieceView::Text(target), Tint::Cyan, true),
        (PieceView::Text(label), tint, true),
        (PieceView::Text("seq="@ + decimal_u16(sequence)), Tint::Blue, true),
        (PieceView::Text(source_text(from)), source_tint, source_bold),
    ]
}

/// The pieces of the line that reports the outcome of the probe with
/// `sequence` sent to `target`.
pub open spec fn result_pieces(target: Seq<char>, sequence: u16, result: PingResult) -> Seq<
    (PieceView, Tint, bool),
> {
    let t = (PieceView::Text(target), Tint::Cyan, true);
    let sq = (PieceView::Text("seq="@ + decimal_u16(sequence)), Tint::Blue, true);
    match result {
        PingResult::Alive { rtt, ttl } => match ttl {
            Some(x) => seq![
                t,
                (PieceView::Text("ALIVE"@), Tint::Green, true),
                sq,
                (PieceView::Text("ttl="@ + decimal_u8(x)), Tint::Cyan, true),
                (PieceView::Text("hops≈"@ + decimal_u8(hops_estimate(x))), Tint::Magenta, true),
                (PieceView::RoundTripTime(rtt), Tint::Green, true),
            ],
            None => seq![
                t,
                (PieceView::Text("ALIVE"@), Tint::Green, true),
                sq,
                (PieceView::RoundTripTime(rtt), Tint::Green, true),
            ],
        },
        PingResult::NoResponse => seq![
            t,
            (PieceView::Text("NO RESPONSE"@), Tint::Yellow, true),
            sq,
            (PieceView::Timeout, Tint::Yellow, true),
        ],
        PingResult::NetworkUnreachable { from } => error_line(
            target,
            sequence,
            "NETWORK UNREACHABLE"@,
            Tint::Red,
            Tint::Red,
            false,
            from,
        ),
        PingResult::HostUnreachable { from } => error_line(
            target,
            sequence,
            "HOST UNREACHABLE"@,
            Tint::Red,
            Tint::Red,
            false,
            from,
        ),
        PingResult::ProtocolUnreachable { from } => error_line(
            target,
            sequence,
            "PROTOCOL UNREACHABLE"@,
            Tint::Red,
            Tint::Red,
            false,
            from,
        ),
        PingResult::PortUnreachable { from } => error_line(
            target,
            sequence,
            "PORT UNREACHABLE"@,
            Tint::Red,
            Tint::Red,
            false,
            from,
        ),
        PingResult::FragmentationNeeded { from, mtu } => error_line(
            target,
            sequence,
            "FRAGMENTATION NEEDED"@,
            Tint::Yellow,
            Tint::Yellow,
            false,
            from,
        ).push(
            (
                PieceView::Text(
                    match mtu {
                        Some(m) => "mtu="@ + decimal_u32(m),
                        None => "mtu=unknown"@,
                    },
                ),
                Tint::Yellow,
                true,
            ),
        ),
        PingResult::SourceRouteFailed { from } => error_line(
            target,
            sequence,
            "SOURCE ROUTE FAILED"@,
            Tint::Red,
            Tint::Red,
            false,
            from,
        ),
        PingResult::AdministrativelyProhibited { from } => error_line(
            target,
            sequence,
            "ADMINISTRATIVELY PROHIBITED"@,
            Tint::Magenta,
            Tint::Magenta,
            true,
            from,
        ),
        PingResult::TimeExceeded { from, rtt: _ } => error_line(
            target,
            sequence,
            "TTL EXCEEDED"@,
            Tint::Yellow,
            Tint::Yellow,
            true,
            from,
        ),
        PingResult::ParameterProblem { from } => error_line(
            target,
            sequence,
            "PARAMETER PROBLEM"@,
            Tint::Red,
            Tint::Red,
            false,
            from,
        ),
        PingResult::NetworkDown => seq![t, (PieceView::Text("NETWORK DOWN"@), Tint::Red, true), sq],
        PingResult::PermissionDenied => seq![
            t,
            (PieceView::Text("PERMISSION DENIED"@), Tint::Magenta, true),
            sq,
        ],
        PingResult::IcmpError { from, icmp_type, icmp_code } => seq![
            t,
            (PieceView::Text("ICMP ERROR"@), Tint::Red, true),
            sq,
            (
                PieceView::Text("type="@ + decimal_u8(icmp_type) + " code="@ + decimal_u8(icmp_code)),
                Tint::Red,
                true,
            ),
            (PieceView::Text(source_text(from)), Tint::Red, false),
        ],
        PingResult::LocalError(message) => seq![
            t,
            (PieceView::Text("LOCAL ERROR"@), Tint::Red, true),
            sq,
            (PieceView::Text("("@ + message@ + ")"@), Tint::Red, false),
        ],
    }
}

/// Law: every result line starts with the target in bold cyan and shows,
/// third, "seq=" and the sequence number in decimal. The line of an error
/// that a router may report shows that router as "from=" and its
/// dotted-quad address (nothing when it is unknown): fourth, or fifth after
/// the type and code of an unclassified ICMP error. A "fragmentation
/// needed" line ends with the MTU.
pub proof fn lemma_result_line_pieces(target: Seq<char>, sequence: u16, result: PingResult)
    ensures
        ({
            let pieces = result_pieces(target, sequence, result);
            let reporter: Option<Option<u32>> = match result {
                PingResult::NetworkUnreachable { from } => Some(from),
                PingResult::HostUnreachable { from } => Some(from),
                PingResult::ProtocolUnreachable { from } => Some(from),
                PingResult::PortUnreachable { from } => Some(from),
                PingResult::FragmentationNeeded { from, .. } => Some(from),
                PingResult::SourceRouteFailed { from } => Some(from),
                PingResult::AdministrativelyProhibited { from } => Some(from),
                PingResult::TimeExceeded { from, .. } => Some(from),
                PingResult::ParameterProblem { from } => Some(from),
                PingResult::IcmpError { from, .. } => Some(from),
                _ => None,
            };
            let at: int = if result is IcmpError {
                4
            } else {
                3
            };
            &&& pieces.len() >= 3
            &&& pieces[0] == (PieceView::Text(target), Tint::Cyan, true)
            &&& pieces[2] == (PieceView::Text("seq="@ + decimal_u16(sequence)), Tint::Blue, true)
            &&& reporter matches Some(from) ==> pieces.len() > at && pieces[at].0 == PieceView::Text(
                match from {
                    Some(a) => "from="@ + ipv4_dotted(a),
                    None => Seq::<char>::empty(),
                },
            )
            &&& result matches PingResult::FragmentationNeeded { mtu, .. } ==> pieces.len() == 5
                && pieces[4].0 == PieceView::Text(
                match mtu {
                    Some(m) => "mtu="@ + decimal_u32(m),
                    None => "mtu=unknown"@,
                },
            )
        }),
{
}

/// How a route hop's responder is shown: "*" when none answered, else its
/// address, preceded by its host name when one was found.
pub open spec fn hop_address_view(hop: RouteHop) -> Seq<char> {
    match hop.address {
        Some(a) => match hop.hostname {
            Some(h) => h@ + " ("@ + ipv4_dotted(a) + ")"@,
            None => ipv4_dotted(a),
        },
        None => "*"@,
    }
}

/// How a probe's target is shown.
pub fn display_target(written: &str, resolved: u32) -> (shown: String)
    ensures
        shown@ == target_display(written@, resolved),
{
    let address = ipv4_text(resolved);
    if parse_ipv4(written).is_some() {
        return address;
    }
    let open = " (";
    let close = ")";
    proof {
        reveal_strlit(" (");
        reveal_strlit(")");
    }
    let mut shown = String::from_str(written);
    shown.append(open);
    shown.append(address.as_str());
    shown.append(close);
    shown
}

/// The text naming the address that reported an error, empty when unknown.
pub fn format_error_source(from: &Option<u32>) -> (text: String)
    ensures
        text@ == source_text(*from),
{
    match from {
        Some(address) => {
            let mut text = String::from_str("from=");
            let dotted = ipv4_text(*address);
            text.append(dotted.as_str());
            text
        },
        None => String::new(),
    }
}

fn text_piece(text: String, tint: Tint, bold: bool) -> (piece: Piece)
    ensures
        piece_view(piece) == (PieceView::Text(text@), tint, bold),
{
    Piece { text: PieceText::Text(text), tint, bold }
}

fn prefixed(prefix: &str, rest: String) -> (text: String)
    ensures
        text@ == prefix@ + rest@,
{
    let mut text = String::from_str(prefix);
    text.append(rest.as_str());
    text
}

fn push_error_line(
    pieces: &mut Vec<Piece>,
    target: &str,
    sequence: u16,
    label: &str,
    tint: Tint,
    source_tint: Tint,
    source_bold: bool,
    from: &Option<u32>,
)
    requires
        old(pieces)@.len() == 0,
    ensures
        final(pieces)@.map_values(|p: Piece| piece_view(p)) == error_line(
            target@,
            sequence,
            label@,
            tint,
            source_tint,
            source_bold,
            *from,
        ),
{
    pieces.push(text_piece(String::from_str(target), Tint::Cyan, true));
    pieces.push(text_piece(String::from_str(label), tint, true));
    pieces.push(text_piece(prefixed("seq=", u16_text(sequence)), Tint::Blue, true));
    pieces.push(text_piece(format_error_source(from), source_tint, source_bold));
    assert(pieces@.map_values(|p: Piece| piece_view(p)) =~= error_line(
        target@,
        sequence,
        label@,
        tint,
        source_tint,
        source_bold,
        *from,
    ));
}

/// The pieces of the line that reports the outcome of the probe with
/// `sequence` sent to `target`, in order; they are printed separated by
/// single spaces.
pub fn describe_result(target: &str, sequence: u16, result: &PingResult) -> (pieces: Vec<Piece>)
    ensures
        pieces@.map_values(|p: Piece| piece_view(p)) == result_pieces(target@, sequence, *result),
{
    let mut pieces: Vec<Piece> = Vec::new();
    match result {
        PingResult::NetworkUnreachable { from } => {
            push_error_line(&mut pieces, target, sequence, "NETWORK UNREACHABLE", Tint::Red, Tint::Red, false, from);
            return pieces;
        },
        PingResult::HostUnreachable { from } => {
            push_error_line(&mut pieces, target, sequence, "HOST UNREACHABLE", Tint::Red, Tint::Red, false, from);
            return pieces;
        },
        PingResult::ProtocolUnreachable { from } => {
            push_error_line(&mut pieces, target, sequence, "PROTOCOL UNREACHABLE", Tint::Red, Tint::Red, false, from);
            return pieces;
        },
        PingResult::PortUnreachable { from } => {
            push_error_line(&mut pieces, target, sequence, "PORT UNREACHABLE", Tint::Red, Tint::Red, false, from);
            return pieces;
        },
        PingResult::FragmentationNeeded { from, mtu } => {
            push_error_line(&mut pieces, target, sequence, "FRAGMENTATION NEEDED", Tint::Yellow, Tint::Yellow, false, from);
            let ghost line = pieces@;
            let mtu_text = match mtu {
                Some(m) => prefixed("mtu=", u32_text(*m)),
                None => String::from_str("mtu=unknown"),
            };
            pieces.push(text_piece(mtu_text, Tint::Yellow, true));
            assert(pieces@.map_values(|p: Piece| piece_view(p)) =~= line.map_values(|p: Piece| piece_view(p)).push(
                piece_view(pieces@.last()),
            ));
            return pieces;
        },
        PingResult::SourceRouteFailed { from } => {
            push_error_line(&mut pieces, target, sequence, "SOURCE ROUTE FAILED", Tint::Red, Tint::Red, false, from);
            return pieces;
        },
        PingResult::AdministrativelyProhibited { from } => {
            push_error_line(&mut pieces, target, sequence, "ADMINISTRATIVELY PROHIBITED", Tint::Magenta, Tint::Magenta, true, from);
            return pieces;
        },
        PingResult::TimeExceeded { from, rtt: _ } => {
            push_error_line(&mut pieces, target, sequence, "TTL EXCEEDED", Tint::Yellow, Tint::Yellow, true, from);
            return pieces;
        },
        PingResult::ParameterProblem { from } => {
            push_error_line(&mut pieces, target, sequence, "PARAMETER PROBLEM", Tint::Red, Tint::Red, false, from);
            return pieces;
        },
        _ => {},
    }
    pieces.push(text_piece(String::from_str(target), Tint::Cyan, true));
    match result {
        PingResult::Alive { rtt, ttl } => {
            pieces.push(text_piece(String::from_str("ALIVE"), Tint::Green, true));
            pieces.push(text_piece(prefixed("seq=", u16_text(sequence)), Tint::Blue, true));
            if let Some(t) = ttl {
                pieces.push(text_piece(prefixed("ttl=", u8_text(*t)), Tint::Cyan, true));
                pieces.push(text_piece(prefixed("hops≈", u8_text(estimate_hops(*t))), Tint::Magenta, true));
            }
            pieces.push(Piece { text: PieceText::RoundTripTime(*rtt), tint: Tint::Green, bold: true });
        },
        PingResult::NoResponse => {
            pieces.push(text_piece(String::from_str("NO RESPONSE"), Tint::Yellow, true));
            pieces.push(text_piece(prefixed("seq=", u16_text(sequence)), Tint::Blue, true));
            pieces.push(Piece { text: PieceText::Timeout, tint: Tint::Yellow, bold: true });
        },
        PingResult::NetworkDown => {
            pieces.push(text_piece(String::from_str("NETWORK DOWN"), Tint::Red, true));
            pieces.push(text_piece(prefixed("seq=", u16_text(sequence)), Tint::Blue, true));
        },
        PingResult::PermissionDenied => {
            pieces.push(text_piece(String::from_str("PERMISSION DENIED"), Tint::Magenta, true));
            pieces.push(text_piece(prefixed("seq=", u16_text(sequence)), Tint::Blue, true));
        },
        PingResult::IcmpError { from, icmp_type, icmp_code } => {
            pieces.push(text_piece(String::from_str("ICMP ERROR"), Tint::Red, true));
            pieces.push(text_piece(prefixed("seq=", u16_text(sequence)), Tint::Blue, true));
            let mut numbers = prefixed("type=", u8_text(*icmp_type));
            numbers.append(" code=");
            let code_text = u8_text(*icmp_code);
            numbers.append(code_text.as_str());
            pieces.push(text_piece(numbers, Tint::Red, true));
            pieces.push(text_piece(format_error_source(from), Tint::Red, false));
        },
        PingResult::LocalError(message) => {
            pieces.push(text_piece(String::from_str("LOCAL ERROR"), Tint::Red, true));
            pieces.push(text_piece(prefixed("seq=", u16_text(sequence)), Tint::Blue, true));
            let mut detail = String::from_str("(");
            detail.append(message.as_str());
            detail.append(")");
            pieces.push(text_piece(detail, Tint::Red, false));
        },
        _ => {},
    }
    assert(pieces@.map_values(|p: Piece| piece_view(p)) =~= result_pieces(target@, sequence, *result));
    pieces
}

/// How a route hop's responder is shown.
pub fn hop_address_text(hop: &RouteHop) -> (text: String)
    ensures
        text@ == hop_address_view(*hop),
{
    match hop.address {
        Some(address) => {
            let dotted = ipv4_text(address);
            match &hop.hostname {
                Some(hostname) => {
                    let mut text = hostname.clone();
                    text.append(" (");
                    text.append(dotted.as_str());
                    text.append(")");
                    text
                },
                None => dotted,
            }
        },
        None => String::from_str("*"),
    }
}

/// The responder column of a verbose route line: the responder, marked with
/// " +" when more than one router answered at that hop.
pub fn hop_label(hop: &RouteHop) -> (text: String)
    ensures
        text@ == hop_address_view(*hop) + if hop.multiple_responders {
            " +"@
        } else {
            Seq::<char>::empty()
        },
{
    let mut text = hop_address_text(hop);
    if hop.multiple_responders {
        text.append(" +");
    } else {
        assert(text@ + Seq::<char>::empty() =~= text@);
    }
    text
}

} // verus!
