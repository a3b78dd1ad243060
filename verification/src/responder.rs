//! The probe-responder: builds the search datagram for a service name and
//! classifies one inbound datagram, deciding what to answer and what to hand
//! to the caller.  Sockets are the caller's: the caller sends the search
//! datagram to the multicast group, feeds each received datagram to
//! [`MdnsHandler::check_mdns`], and unicasts any reply back to the sender.

use vstd::prelude::*;

use crate::codec::{canon_name, canon_of, encode_query, encode_reply, parse_datagram,
    parsed_packet, query_wire, reply_wire};
use crate::packet::{ARecord, DecodedPacket, DnsQuestion, Ipv4Address, SpecARecord,
    SpecPacket, SpecQuestion, CLASS_IN, QTYPE_PTR, TRANSACTION_ID};

verus! {

/// Why an operation failed.
#[derive(Clone, Copy, PartialEq, Eq, Structural, Debug)]
pub enum MdnsError {
    /// The received bytes do not parse as a DNS packet.
    Malformed,
    /// The service name cannot be encoded as a DNS name.
    InvalidName,
    /// The packet decoded, but its first question asks for some other
    /// service: to be ignored by a polling caller, not treated as a fault.
    Unrelated,
}

/// What one serviced datagram asks of the caller: a reply datagram to
/// unicast back to the sender, if any, and the discovered address to
/// surface, if any.
#[derive(Debug)]
pub struct CheckOutcome {
    pub reply: Option<Vec<u8>>,
    pub found: Option<Ipv4Address>,
}

/// How one inbound datagram is classified, given the service name.
pub ghost enum Classification {
    /// The bytes do not parse as a DNS packet.
    Malformed,
    /// The first question asks for this responder's service.
    QueryForUs,
    /// The first question asks for some other service.
    Unrelated,
    /// No question, but at least one answer: a response to a prior search.
    AnswerSeen,
    /// No question and no answer: decodable but uninformative.
    Silent,
}

/// The single question every search packet carries: the service name,
/// query-type PTR, class IN, unicast-response bit unset.
pub open spec fn search_question(service: Seq<char>) -> SpecQuestion {
    SpecQuestion { name: service, qtype: QTYPE_PTR, qclass: CLASS_IN, unicast: false }
}

/// The single answer every reply packet carries: the service name, class IN,
/// TTL zero, and the unspecified IPv4 address.
pub open spec fn reply_answer(service: Seq<char>) -> SpecARecord {
    SpecARecord { name: service, class: CLASS_IN, ttl: 0, address: 0 }
}

/// How a decoded datagram is classified, in the order the rules apply: a
/// first question is compared (in canonical rendering) against the service
/// name; failing a question, any answer marks a response to a prior search.
pub open spec fn classify(service: Seq<char>, p: Option<SpecPacket>) -> Classification {
    match p {
        None => Classification::Malformed,
        Some(pkt) => match pkt.first_question {
            Some(q) => if q.name == canon_of(service) {
                Classification::QueryForUs
            } else {
                Classification::Unrelated
            },
            None => if pkt.first_answer is Some {
                Classification::AnswerSeen
            } else {
                Classification::Silent
            },
        },
    }
}

/// The probe-responder's state: the service name it was built with, and that
/// name's canonical rendering, against which inbound questions are compared.
pub struct MdnsHandler {
    service_name: String,
    canon: String,
}

impl MdnsHandler {
    /// The service name this handler was built with.
    pub closed spec fn service(&self) -> Seq<char> {
        self.service_name@
    }

    /// The stored canonical rendering agrees with the service name.
    pub closed spec fn wf(&self) -> bool {
        self.canon@ == canon_of(self.service_name@)
    }

    /// Builds a handler for a (non-empty) service name.  No validation is
    /// done here: a name the codec refuses surfaces later as
    /// [`MdnsError::InvalidName`].
    pub fn new(service: String) -> (r: MdnsHandler)
        requires
            service@.len() > 0,
        ensures
            r.wf(),
            r.service() == service@,
    {
        let canon = canon_name(service.as_str());
        MdnsHandler { service_name: service, canon }
    }

    /// The service name, as given at construction.
    pub fn service_name(&self) -> (r: &String)
        ensures
            r@ == self.service(),
    {
        &self.service_name
    }

    /// The datagram announcing a search for this service: a query packet
    /// with transaction id 0 and a sole question {service name, PTR, IN,
    /// unicast-response unset}, encoded by the codec.  The caller sends it
    /// to the multicast group.  Fails exactly where the codec refuses the
    /// service name.
    pub fn search_datagram(&self) -> (r: Result<Vec<u8>, MdnsError>)
        ensures
            match r {
                Ok(b) => query_wire(TRANSACTION_ID, search_question(self.service()))
                    == Some(b@),
                Err(e) => {
                    &&& e == MdnsError::InvalidName
                    &&& query_wire(TRANSACTION_ID, search_question(self.service())) is None
                },
            },
    {
        let question = DnsQuestion {
            name: self.service_name.clone(),
            qtype: QTYPE_PTR,
            qclass: CLASS_IN,
            unicast: false,
        };
        match encode_query(TRANSACTION_ID, &question) {
            Some(b) => Ok(b),
            None => Err(MdnsError::InvalidName),
        }
    }

    /// Decodes one datagram through the codec, exposing exactly what this
    /// crate reads of a packet.  The last clause carries the codec's round
    /// trip up to callers: a datagram that is the encoding of a
    /// single-question query decodes back to that id and that question, the
    /// name in canonical rendering.
    pub fn decode_datagram(data: &[u8]) -> (r: Result<DecodedPacket, MdnsError>)
        ensures
            match r {
                Ok(p) => parsed_packet(data@) == Some(p@) && p@.wf(),
                Err(e) => e == MdnsError::Malformed && parsed_packet(data@) is None,
            },
            forall|id: u16, q: SpecQuestion|
                query_wire(id, q) == Some(data@) ==> {
                    &&& r matches Ok(p)
                    &&& r->Ok_0@.id == id
                    &&& r->Ok_0@.question_count == 1
                    &&& r->Ok_0@.answer_count == 0
                    &&& r->Ok_0@.first_question == Some(SpecQuestion {
                        name: canon_of(q.name),
                        qtype: q.qtype,
                        qclass: q.qclass,
                        unicast: q.unicast,
                    })
                },
    {
        match parse_datagram(data) {
            Some(p) => Ok(p),
            None => Err(MdnsError::Malformed),
        }
    }

    /// Services one inbound datagram.  The caller hands in the received
    /// bytes and the sender's IPv4 address; the outcome says what to send
    /// back to the sender and what to surface.
    ///
    /// Classification, in order: a malformed datagram fails; a first
    /// question naming this service yields a reply datagram (transaction id
    /// 0, one answer {service name, IN, TTL 0, unspecified IPv4 address})
    /// and the sender's address; a first question naming another service
    /// fails as unrelated; otherwise any answer record yields the sender's
    /// address with no reply; a packet with neither yields nothing.
    ///
    /// The last clause states the exchange law: a datagram encoded as a
    /// search for some service name (any transaction id) is classified as a
    /// query for us exactly when that name's canonical rendering is this
    /// service's.
    pub fn check_mdns(&self, data: &[u8], sender: Ipv4Address) -> (r: Result<
        CheckOutcome,
        MdnsError,
    >)
        requires
            self.wf(),
        ensures
            ({
                let c = classify(self.service(), parsed_packet(data@));
                let rw = reply_wire(TRANSACTION_ID, reply_answer(self.service()));
                &&& c == Classification::Malformed ==> (r matches Err(e)
                    && e == MdnsError::Malformed)
                &&& c == Classification::Unrelated ==> (r matches Err(e)
                    && e == MdnsError::Unrelated)
                &&& c == Classification::AnswerSeen ==> (r matches Ok(out) && out.reply is None
                    && out.found == Some(sender))
                &&& c == Classification::Silent ==> (r matches Ok(out) && out.reply is None
                    && out.found is None)
                &&& c == Classification::QueryForUs && rw is Some ==> (r matches Ok(out)
                    && out.found == Some(sender) && (out.reply matches Some(b) && Some(b@) == rw))
                &&& c == Classification::QueryForUs && rw is None ==> (r matches Err(e)
                    && e == MdnsError::InvalidName)
            }),
            forall|id: u16, s: Seq<char>|
                query_wire(id, search_question(s)) == Some(data@) ==> classify(
                    self.service(),
                    parsed_packet(data@),
                ) == if canon_of(s) == canon_of(self.service()) {
                    Classification::QueryForUs
                } else {
                    Classification::Unrelated
                },
    {
        let parsed = match Self::decode_datagram(data) {
            Ok(p) => p,
            Err(e) => {
                return Err(e);
            },
        };
        match &parsed.first_question {
            Some(q) => {
                if q.name == self.canon {
                    let answer = ARecord {
                        name: self.service_name.clone(),
                        class: CLASS_IN,
                        ttl: 0,
                        address: 0,
                    };
                    match encode_reply(TRANSACTION_ID, &answer) {
                        Some(b) => Ok(CheckOutcome { reply: Some(b), found: Some(sender) }),
                        None => Err(MdnsError::InvalidName),
                    }
                } else {
                    Err(MdnsError::Unrelated)
                }
            },
            None => {
                if parsed.first_answer.is_some() {
                    Ok(CheckOutcome { reply: None, found: Some(sender) })
                } else {
                    Ok(CheckOutcome { reply: None, found: None })
                }
            },
        }
    }
}

} // verus!
