//! Filters: the display filter that picks records by protocol, port and host,
//! and the verdict on a capture filter expression.

use vstd::prelude::*;
use crate::text::{
    chars_of, contains_chars, decimal_u16, is_infix, lowercase_of, push_decimal_u16, same_text,
    to_lower, to_upper, uppercase_of,
};
use crate::ui::PacketInfo;

verus! {

/// The protocols that a display filter can ask for.
#[derive(Clone, Copy, Debug, PartialEq, Eq, Structural)]
pub enum Protocol {
    Tcp,
    Udp,
    Icmp,
    Dns,
}

/// A display filter. Each part that is set must hold of a record; a filter with
/// no part set takes every record.
#[derive(Clone, Debug)]
pub struct PacketFilter {
    /// The protocol that the record must be labelled with.
    pub protocol: Option<Protocol>,
    /// The port that must stand in one of the endpoints.
    pub port: Option<u16>,
    /// The host that one of the endpoints must name.
    pub host: Option<String>,
}

/// The protocol that a name in lower case stands for.
pub open spec fn protocol_named(lower: Seq<char>) -> Option<Protocol> {
    if lower == "tcp"@ {
        Some(Protocol::Tcp)
    } else if lower == "udp"@ {
        Some(Protocol::Udp)
    } else if lower == "icmp"@ {
        Some(Protocol::Icmp)
    } else if lower == "dns"@ {
        Some(Protocol::Dns)
    } else {
        None
    }
}

/// The protocol that the label of a record, in upper case, stands for. Both
/// versions of ICMP count as ICMP.
pub open spec fn protocol_labelled(upper: Seq<char>) -> Option<Protocol> {
    if upper == "TCP"@ {
        Some(Protocol::Tcp)
    } else if upper == "UDP"@ {
        Some(Protocol::Udp)
    } else if upper == "ICMP"@ || upper == "ICMPV4"@ || upper == "ICMPV6"@ {
        Some(Protocol::Icmp)
    } else if upper == "DNS"@ {
        Some(Protocol::Dns)
    } else {
        None
    }
}

/// `end` is where the host of an endpoint ends: at its first colon, or at its
/// end where it has none.
pub open spec fn is_host_end(endpoint: Seq<char>, end: int) -> bool {
    &&& 0 <= end <= endpoint.len()
    &&& end == endpoint.len() || endpoint[end] == ':'
    &&& forall|j: int| 0 <= j < end ==> endpoint[j] != ':'
}

/// The host of an endpoint: what stands before its first colon, or all of it
/// where it has none.
pub open spec fn host_of(endpoint: Seq<char>) -> Seq<char> {
    endpoint.take(choose|end: int| is_host_end(endpoint, end))
}

/// What a port looks like at the end of an endpoint.
pub open spec fn port_mark(port: u16) -> Seq<char> {
    ":"@ + decimal_u16(port)
}

/// Whether a filter takes a record with this protocol and these endpoints.
pub open spec fn accepts(
    filter: PacketFilter,
    labelled: Option<Protocol>,
    source: Seq<char>,
    destination: Seq<char>,
) -> bool {
    &&& filter.protocol matches Some(wanted) ==> labelled == Some(wanted)
    &&& filter.port matches Some(port) ==> is_infix(port_mark(port), source) || is_infix(
        port_mark(port),
        destination,
    )
    &&& filter.host matches Some(host) ==> host_of(source) == host@ || host_of(destination)
        == host@
}

/// The host end of an endpoint is unique.
pub proof fn lemma_host_end_unique(endpoint: Seq<char>, end: int)
    requires
        is_host_end(endpoint, end),
    ensures
        host_of(endpoint) == endpoint.take(end),
{
    let chosen = choose|k: int| is_host_end(endpoint, k);
    assert(is_host_end(endpoint, chosen));
    if chosen < end {
        assert(endpoint[chosen] == ':');
    } else if end < chosen {
        assert(endpoint[end] == ':');
    }
}

/// Whether the host of an endpoint is `host`.
pub fn names_host(endpoint: &str, host: &str) -> (r: bool)
    ensures
        r == (host_of(endpoint@) == host@),
{
    let chars = chars_of(endpoint);
    let wanted = chars_of(host);
    let mut end: usize = 0;
    while end < chars.len() && chars[end] != ':'
        invariant
            end <= chars.len(),
            forall|j: int| 0 <= j < end ==> chars@[j] != ':',
        decreases chars.len() - end,
    {
        end += 1;
    }
    proof {
        lemma_host_end_unique(chars@, end as int);
    }
    if wanted.len() != end {
        return false;
    }
    let mut i: usize = 0;
    while i < end
        invariant
            i <= end,
            end <= chars.len(),
            wanted.len() == end,
            wanted@ == host@,
            host_of(endpoint@) == chars@.take(end as int),
            forall|j: int| 0 <= j < i ==> chars@[j] == wanted@[j],
        decreases end - i,
    {
        if chars[i] != wanted[i] {
            proof {
                assert(chars@.take(end as int)[i as int] != wanted@[i as int]);
            }
            return false;
        }
        i += 1;
    }
    proof {
        assert(chars@.take(end as int) =~= wanted@);
    }
    true
}

/// Whether the port stands in an endpoint, behind a colon.
pub fn names_port(endpoint: &str, port: u16) -> (r: bool)
    ensures
        r == is_infix(port_mark(port), endpoint@),
{
    let mut mark = ":".to_string();
    push_decimal_u16(&mut mark, port);
    let needle = chars_of(mark.as_str());
    let hay = chars_of(endpoint);
    contains_chars(&hay, &needle)
}

impl Protocol {
    /// The protocol that a name in lower case stands for.
    pub fn named(lower: &str) -> (r: Option<Protocol>)
        ensures
            r == protocol_named(lower@),
    {
        if same_text(lower, "tcp") {
            Some(Protocol::Tcp)
        } else if same_text(lower, "udp") {
            Some(Protocol::Udp)
        } else if same_text(lower, "icmp") {
            Some(Protocol::Icmp)
        } else if same_text(lower, "dns") {
            Some(Protocol::Dns)
        } else {
            None
        }
    }

    /// The protocol that the label of a record, in upper case, stands for.
    pub fn labelled(upper: &str) -> (r: Option<Protocol>)
        ensures
            r == protocol_labelled(upper@),
    {
        if same_text(upper, "TCP") {
            Some(Protocol::Tcp)
        } else if same_text(upper, "UDP") {
            Some(Protocol::Udp)
        } else if same_text(upper, "ICMP") || same_text(upper, "ICMPV4") || same_text(
            upper,
            "ICMPV6",
        ) {
            Some(Protocol::Icmp)
        } else if same_text(upper, "DNS") {
            Some(Protocol::Dns)
        } else {
            None
        }
    }

    /// Reads the name of a protocol, in any mix of upper and lower case.
    pub fn from_str(s: &str) -> (r: Result<Protocol, String>)
        ensures
            match protocol_named(lowercase_of(s@)) {
                Some(protocol) => r == Ok::<Protocol, String>(protocol),
                None => r matches Err(message) && message@ == "Invalid protocol"@,
            },
    {
        let lower = to_lower(s);
        match Protocol::named(lower.as_str()) {
            Some(protocol) => Ok(protocol),
            None => Err("Invalid protocol".to_string()),
        }
    }
}

impl std::str::FromStr for Protocol {
    type Err = String;

    /// Reads the name of a protocol, in any mix of upper and lower case, as
    /// [`Protocol::from_str`] does: the protocol that the text names once it is
    /// in lower case, and `Invalid protocol` where it names none.
    fn from_str(s: &str) -> (r: Result<Protocol, String>)
        ensures
            match protocol_named(lowercase_of(s@)) {
                Some(protocol) => r == Ok::<Protocol, String>(protocol),
                None => r matches Err(message) && message@ == "Invalid protocol"@,
            },
    {
        Protocol::from_str(s)
    }
}

impl PacketFilter {
    /// A filter with no part set.
    pub fn new() -> (filter: PacketFilter)
        ensures
            filter.protocol is None,
            filter.port is None,
            filter.host is None,
    {
        PacketFilter { protocol: None, port: None, host: None }
    }

    /// Whether the filter takes a record whose label stands for `labelled` and
    /// whose endpoints are these.
    pub fn takes(&self, labelled: Option<Protocol>, source: &str, destination: &str) -> (r: bool)
        ensures
            r == accepts(*self, labelled, source@, destination@),
    {
        if let Some(wanted) = self.protocol {
            match labelled {
                Some(found) => {
                    if found != wanted {
                        return false;
                    }
                },
                None => {
                    return false;
                },
            }
        }
        if let Some(port) = self.port {
            if !names_port(source, port) && !names_port(destination, port) {
                return false;
            }
        }
        if let Some(host) = &self.host {
            if !names_host(source, host.as_str()) && !names_host(destination, host.as_str()) {
                return false;
            }
        }
        true
    }

    /// Whether the filter takes the record. The label of the record counts in
    /// any mix of upper and lower case.
    pub fn matches(&self, packet: &PacketInfo) -> (r: bool)
        ensures
            r == accepts(
                *self,
                protocol_labelled(uppercase_of(packet.protocol@)),
                packet.source@,
                packet.destination@,
            ),
            self.protocol is None && self.port is None && self.host is None ==> r,
    {
        let labelled = match self.protocol {
            Some(_) => {
                let upper = to_upper(packet.protocol.as_str());
                Protocol::labelled(upper.as_str())
            },
            None => None,
        };
        self.takes(labelled, packet.source.as_str(), packet.destination.as_str())
    }
}

/// What an attempt to compile a capture filter expression gave.
#[derive(Clone, Debug)]
pub enum Compilation {
    /// The compiler took the expression.
    Accepted,
    /// The compiler refused the expression, with its diagnostic.
    Rejected(String),
    /// No session could be opened to compile on, with the reason.
    NoSession(String),
}

/// Why a capture filter expression was not attested.
#[derive(Clone, Debug)]
pub enum FilterError {
    /// The expression is not a filter, with the compiler's diagnostic.
    Invalid(String),
    /// The expression could not be tried, with the reason.
    Untested(String),
}

/// The verdict on a capture filter expression, given what the compiler made of
/// it: an expression that was taken is handed back unchanged, and a refusal
/// carries the compiler's diagnostic.
pub fn parse_filter(expression: &str, outcome: Compilation) -> (r: Result<String, FilterError>)
    ensures
        match outcome {
            Compilation::Accepted => r matches Ok(attested) && attested@ == expression@,
            Compilation::Rejected(diagnostic) => r matches Err(FilterError::Invalid(reason))
                && reason@ == diagnostic@,
            Compilation::NoSession(cause) => r matches Err(FilterError::Untested(reason))
                && reason@ == cause@,
        },
{
    match outcome {
        Compilation::Accepted => Ok(expression.to_string()),
        Compilation::Rejected(diagnostic) => Err(FilterError::Invalid(diagnostic)),
        Compilation::NoSession(cause) => Err(FilterError::Untested(cause)),
    }
}

} // verus!
