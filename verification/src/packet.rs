//! The crate's own view of the DNS packets it builds and reads: plain values
//! only, so that every decision over them can be verified.  Turning these
//! models into wire bytes and back is the codec's business (see `codec`).

use vstd::prelude::*;

verus! {

/// DNS query-type code for PTR records, the type every search question carries.
pub const QTYPE_PTR: u16 = 12;

/// DNS record-type code for A (IPv4 address) records, the type every reply
/// answer carries.
pub const RTYPE_A: u16 = 1;

/// DNS class code for the Internet class (IN).
pub const CLASS_IN: u16 = 1;

/// The transaction id placed on every packet this crate builds.
pub const TRANSACTION_ID: u16 = 0;

/// The IPv4 mDNS multicast group 224.0.0.251, as its 32-bit value
/// (octets in big-endian order).
pub const MULTICAST_GROUP_BITS: u32 = 0xE00000FB;

/// The mDNS UDP port.
pub const MDNS_PORT: u16 = 5353;

/// An IPv4 address held as its 32-bit value (octets in big-endian order).
#[derive(Clone, Copy, PartialEq, Eq, Structural, Debug)]
pub struct Ipv4Address {
    pub bits: u32,
}

/// One question of a DNS packet: a name, a query-type code, a query-class
/// code, and mDNS's unicast-response bit.
#[derive(Debug)]
pub struct DnsQuestion {
    pub name: String,
    pub qtype: u16,
    pub qclass: u16,
    pub unicast: bool,
}

/// The mathematical value of a `DnsQuestion`.
pub ghost struct SpecQuestion {
    pub name: Seq<char>,
    pub qtype: u16,
    pub qclass: u16,
    pub unicast: bool,
}

impl View for DnsQuestion {
    type V = SpecQuestion;

    open spec fn view(&self) -> SpecQuestion {
        SpecQuestion {
            name: self.name@,
            qtype: self.qtype,
            qclass: self.qclass,
            unicast: self.unicast,
        }
    }
}

/// One A-record answer as this crate publishes it: a name, a class code, a
/// time-to-live, and the advertised IPv4 address (as its 32-bit value).
#[derive(Debug)]
pub struct ARecord {
    pub name: String,
    pub class: u16,
    pub ttl: u32,
    pub address: u32,
}

/// The mathematical value of an `ARecord`.
pub ghost struct SpecARecord {
    pub name: Seq<char>,
    pub class: u16,
    pub ttl: u32,
    pub address: u32,
}

impl View for ARecord {
    type V = SpecARecord;

    open spec fn view(&self) -> SpecARecord {
        SpecARecord {
            name: self.name@,
            class: self.class,
            ttl: self.ttl,
            address: self.address,
        }
    }
}

/// One answer record as this crate reads it from a decoded packet: the name,
/// the record-type code, the class code and the time-to-live.  The resource
/// data itself is never inspected.
#[derive(Debug)]
pub struct DecodedAnswer {
    pub name: String,
    pub rtype: u16,
    pub class: u16,
    pub ttl: u32,
}

/// The mathematical value of a `DecodedAnswer`.
pub ghost struct SpecAnswer {
    pub name: Seq<char>,
    pub rtype: u16,
    pub class: u16,
    pub ttl: u32,
}

impl View for DecodedAnswer {
    type V = SpecAnswer;

    open spec fn view(&self) -> SpecAnswer {
        SpecAnswer {
            name: self.name@,
            rtype: self.rtype,
            class: self.class,
            ttl: self.ttl,
        }
    }
}

/// What this crate reads of one decoded DNS packet: the transaction id, how
/// many questions and answers the packet holds, and the first entry of each
/// section.  Entries past the first are never inspected.
#[derive(Debug)]
pub struct DecodedPacket {
    pub id: u16,
    pub question_count: usize,
    pub answer_count: usize,
    pub first_question: Option<DnsQuestion>,
    pub first_answer: Option<DecodedAnswer>,
}

/// The mathematical value of a `DecodedPacket`.
pub ghost struct SpecPacket {
    pub id: u16,
    pub question_count: int,
    pub answer_count: int,
    pub first_question: Option<SpecQuestion>,
    pub first_answer: Option<SpecAnswer>,
}

impl SpecPacket {
    /// A decoded packet is coherent: a first question or answer is present
    /// exactly when the matching section is non-empty.
    pub open spec fn wf(self) -> bool {
        &&& self.first_question is Some <==> self.question_count > 0
        &&& self.first_answer is Some <==> self.answer_count > 0
        &&& self.question_count >= 0
        &&& self.answer_count >= 0
    }
}

impl View for DecodedPacket {
    type V = SpecPacket;

    open spec fn view(&self) -> SpecPacket {
        SpecPacket {
            id: self.id,
            question_count: self.question_count as int,
            answer_count: self.answer_count as int,
            first_question: match self.first_question {
                Some(q) => Some(q@),
                None => None,
            },
            first_answer: match self.first_answer {
                Some(a) => Some(a@),
                None => None,
            },
        }
    }
}

} // verus!
