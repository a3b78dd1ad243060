//! The boundary to the `simple_dns` packet codec.  Everything here is either
//! a name for what one of its calls returns or a trusted wrapper around one
//! call; nothing else in the crate touches `simple_dns`.

use vstd::prelude::*;

use crate::packet::{ARecord, DecodedAnswer, DecodedPacket, DnsQuestion, SpecARecord,
    SpecPacket, SpecQuestion};

verus! {

/// The canonical rendering of a DNS name string: its labels (the non-empty
/// runs of characters between dots) joined with single dots.
pub uninterp spec fn canon_of(name: Seq<char>) -> Seq<char>;

/// The wire encoding of a DNS query packet with the given transaction id and
/// exactly one question, or `None` where the question's name or field codes
/// are not encodable.
pub uninterp spec fn query_wire(id: u16, q: SpecQuestion) -> Option<Seq<u8>>;

/// The wire encoding of a DNS reply packet with the given transaction id and
/// exactly one A-record answer, or `None` where the answer's name or class
/// code is not encodable.
pub uninterp spec fn reply_wire(id: u16, a: SpecARecord) -> Option<Seq<u8>>;

/// What the codec reads out of a datagram, or `None` where the bytes do not
/// parse as a DNS packet.
pub uninterp spec fn parsed_packet(data: Seq<u8>) -> Option<SpecPacket>;

/// Relies on `simple_dns::Name::new_unchecked` and its `Display` rendering:
/// both depend on the characters of the name alone, splitting it on dots,
/// dropping empty labels, and joining the labels back with single dots.
#[verifier::external_body]
pub(crate) fn canon_name(name: &str) -> (r: String)
    ensures
        r@ == canon_of(name@),
{
    simple_dns::Name::new_unchecked(name).to_string()
}

/// Relies on `simple_dns`'s `Packet`, `Question`, `Name`, `QTYPE` and
/// `QCLASS` builders and on `Packet::build_bytes_vec`: the wire bytes of a
/// query packet holding exactly the given question, which exist exactly when
/// the name and the field codes are accepted.
#[verifier::external_body]
pub(crate) fn encode_query(id: u16, q: &DnsQuestion) -> (r: Option<Vec<u8>>)
    ensures
        match r {
            Some(b) => query_wire(id, q@) == Some(b@),
            None => query_wire(id, q@) is None,
        },
{
    let mut packet = simple_dns::Packet::new_query(id);
    let name = simple_dns::Name::new(&q.name).ok()?;
    let qtype = simple_dns::QTYPE::try_from(q.qtype).ok()?;
    let qclass = simple_dns::QCLASS::try_from(q.qclass).ok()?;
    packet.questions.push(simple_dns::Question::new(name, qtype, qclass, q.unicast));
    packet.build_bytes_vec().ok()
}

/// Relies on `simple_dns`'s `Packet`, `ResourceRecord`, `Name` and `CLASS`
/// builders, its A rdata, and `Packet::build_bytes_vec`: the wire bytes of a
/// reply packet holding exactly the given A-record answer, which exist
/// exactly when the name and the class code are accepted.
#[verifier::external_body]
pub(crate) fn encode_reply(id: u16, a: &ARecord) -> (r: Option<Vec<u8>>)
    ensures
        match r {
            Some(b) => reply_wire(id, a@) == Some(b@),
            None => reply_wire(id, a@) is None,
        },
{
    let mut packet = simple_dns::Packet::new_reply(id);
    let name = simple_dns::Name::new(&a.name).ok()?;
    let class = simple_dns::CLASS::try_from(a.class).ok()?;
    let rdata = simple_dns::rdata::RData::A(simple_dns::rdata::A { address: a.address });
    packet.answers.push(simple_dns::ResourceRecord::new(name, class, a.ttl, rdata));
    packet.build_bytes_vec().ok()
}

/// Relies on `simple_dns::Packet::parse`, on `Name`'s `Display` rendering,
/// and on the numeric codes of `QTYPE`, `QCLASS`, `CLASS` and `TYPE`.  The
/// last clause is the codec's round trip, which its parsing shows for the
/// queries its builders produce: a datagram that is the encoding of a
/// single-question query parses back to that id and that question, the name
/// in canonical rendering.
#[verifier::external_body]
pub(crate) fn parse_datagram(data: &[u8]) -> (r: Option<DecodedPacket>)
    ensures
        match r {
            Some(p) => parsed_packet(data@) == Some(p@),
            None => parsed_packet(data@) is None,
        },
        r matches Some(p) ==> p@.wf(),
        forall|id: u16, q: SpecQuestion|
            query_wire(id, q) == Some(data@) ==> {
                &&& r matches Some(p)
                &&& r->Some_0@.id == id
                &&& r->Some_0@.question_count == 1
                &&& r->Some_0@.answer_count == 0
                &&& r->Some_0@.first_question == Some(SpecQuestion {
                    name: canon_of(q.name),
                    qtype: q.qtype,
                    qclass: q.qclass,
                    unicast: q.unicast,
                })
            },
{
    let p = simple_dns::Packet::parse(data).ok()?;
    let first_question = p.questions.first().map(|q| DnsQuestion {
        name: q.qname.to_string(), qtype: q.qtype.into(), qclass: q.qclass.into(), unicast: q.unicast_response,
    });
    let first_answer = p.answers.first().map(|a| DecodedAnswer {
        name: a.name.to_string(), rtype: a.rdata.type_code().into(), class: a.class as u16, ttl: a.ttl,
    });
    Some(DecodedPacket {
        id: p.id(), question_count: p.questions.len(), answer_count: p.answers.len(), first_question, first_answer,
    })
}

} // verus!
