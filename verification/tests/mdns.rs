//! Exercises the probe-responder against real `simple_dns` wire packets: the
//! search datagram it builds, and the classification and reply for each kind
//! of inbound datagram.

use mdns_probe::packet::{Ipv4Address, CLASS_IN, QTYPE_PTR, RTYPE_A};
use mdns_probe::responder::{MdnsError, MdnsHandler};

use simple_dns::rdata::{A, RData};
use simple_dns::{Name, Packet, PacketFlag, Question, ResourceRecord, CLASS, QCLASS, QTYPE, TYPE};

fn sender() -> Ipv4Address {
    Ipv4Address { bits: u32::from_be_bytes([192, 168, 1, 2]) }
}

fn peer_query(name: &str, id: u16) -> Vec<u8> {
    let mut packet = Packet::new_query(id);
    packet.questions.push(Question::new(
        Name::new(name).unwrap(),
        QTYPE::TYPE(TYPE::PTR),
        QCLASS::CLASS(CLASS::IN),
        false,
    ));
    packet.build_bytes_vec().unwrap()
}

#[test]
fn search_datagram_is_a_ptr_query() {
    let handler = MdnsHandler::new(String::from("_printer._tcp.local"));
    let datagram = handler.search_datagram().unwrap();

    let packet = Packet::parse(&datagram).unwrap();
    assert_eq!(packet.id(), 0);
    assert!(!packet.has_flags(PacketFlag::RESPONSE));
    assert_eq!(packet.questions.len(), 1);
    assert_eq!(packet.answers.len(), 0);
    let question = &packet.questions[0];
    assert_eq!(question.qname.to_string(), "_printer._tcp.local");
    assert_eq!(question.qtype, QTYPE::TYPE(TYPE::PTR));
    assert_eq!(question.qclass, QCLASS::CLASS(CLASS::IN));
    assert!(!question.unicast_response);
}

#[test]
fn search_datagram_round_trips_through_decode() {
    let handler = MdnsHandler::new(String::from("_printer._tcp.local"));
    let datagram = handler.search_datagram().unwrap();

    let decoded = MdnsHandler::decode_datagram(&datagram).unwrap();
    assert_eq!(decoded.id, 0);
    assert_eq!(decoded.question_count, 1);
    assert_eq!(decoded.answer_count, 0);
    let question = decoded.first_question.unwrap();
    assert_eq!(question.name, "_printer._tcp.local");
    assert_eq!(question.qtype, QTYPE_PTR);
    assert_eq!(question.qclass, CLASS_IN);
    assert!(!question.unicast);
    assert!(decoded.first_answer.is_none());
}

#[test]
fn query_for_our_service_gets_reply() {
    let handler = MdnsHandler::new(String::from("_foo._tcp.local."));
    let datagram = peer_query("_foo._tcp.local.", 42);

    let outcome = handler.check_mdns(&datagram, sender()).unwrap();
    assert_eq!(outcome.found, Some(sender()));

    let reply = outcome.reply.expect("a query for our service must be answered");
    let packet = Packet::parse(&reply).unwrap();
    assert_eq!(packet.id(), 0);
    assert!(packet.has_flags(PacketFlag::RESPONSE));
    assert_eq!(packet.questions.len(), 0);
    assert_eq!(packet.answers.len(), 1);
    let answer = &packet.answers[0];
    assert_eq!(answer.name.to_string(), "_foo._tcp.local");
    assert_eq!(answer.class, CLASS::IN);
    assert_eq!(answer.ttl, 0);
    assert!(matches!(answer.rdata, RData::A(A { address: 0 })));
}

#[test]
fn query_for_another_service_is_unrelated() {
    let handler = MdnsHandler::new(String::from("_foo._tcp.local."));
    let datagram = peer_query("_bar._tcp.local.", 42);

    let result = handler.check_mdns(&datagram, sender());
    assert!(matches!(result, Err(MdnsError::Unrelated)));
}

#[test]
fn name_match_ignores_the_trailing_dot() {
    let handler = MdnsHandler::new(String::from("_foo._tcp.local"));
    let datagram = peer_query("_foo._tcp.local.", 1);

    let outcome = handler.check_mdns(&datagram, sender()).unwrap();
    assert_eq!(outcome.found, Some(sender()));
    assert!(outcome.reply.is_some());
}

#[test]
fn answer_packet_surfaces_the_sender() {
    let mut packet = Packet::new_reply(3);
    packet.answers.push(ResourceRecord::new(
        Name::new("_foo._tcp.local").unwrap(),
        CLASS::IN,
        120,
        RData::A(A { address: u32::from_be_bytes([10, 0, 0, 9]) }),
    ));
    let datagram = packet.build_bytes_vec().unwrap();

    let handler = MdnsHandler::new(String::from("_foo._tcp.local"));
    let outcome = handler.check_mdns(&datagram, sender()).unwrap();
    assert_eq!(outcome.found, Some(sender()));
    assert!(outcome.reply.is_none());
}

#[test]
fn answer_record_is_readable_through_decode() {
    let mut packet = Packet::new_reply(3);
    packet.answers.push(ResourceRecord::new(
        Name::new("_foo._tcp.local").unwrap(),
        CLASS::IN,
        120,
        RData::A(A { address: u32::from_be_bytes([10, 0, 0, 9]) }),
    ));
    let datagram = packet.build_bytes_vec().unwrap();

    let decoded = MdnsHandler::decode_datagram(&datagram).unwrap();
    assert_eq!(decoded.question_count, 0);
    assert_eq!(decoded.answer_count, 1);
    let answer = decoded.first_answer.unwrap();
    assert_eq!(answer.name, "_foo._tcp.local");
    assert_eq!(answer.rtype, RTYPE_A);
    assert_eq!(answer.class, CLASS_IN);
    assert_eq!(answer.ttl, 120);
}

#[test]
fn empty_packet_yields_nothing() {
    let packet = Packet::new_query(9);
    let datagram = packet.build_bytes_vec().unwrap();

    let handler = MdnsHandler::new(String::from("_foo._tcp.local"));
    let outcome = handler.check_mdns(&datagram, sender()).unwrap();
    assert!(outcome.found.is_none());
    assert!(outcome.reply.is_none());
}

#[test]
fn garbage_is_malformed() {
    let handler = MdnsHandler::new(String::from("_foo._tcp.local"));
    let result = handler.check_mdns(&[1, 2, 3], sender());
    assert!(matches!(result, Err(MdnsError::Malformed)));
}

#[test]
fn invalid_service_name_fails_to_encode() {
    let handler = MdnsHandler::new(String::from("bad!name"));
    let result = handler.search_datagram();
    assert!(matches!(result, Err(MdnsError::InvalidName)));
}

#[test]
fn matching_query_with_unencodable_name_fails_the_reply() {
    // The wire format carries the name unvalidated, so a peer can ask for a
    // name that our own reply encoder must then refuse.
    let mut packet = Packet::new_query(1);
    packet.questions.push(Question::new(
        Name::new_unchecked("bad!name"),
        QTYPE::TYPE(TYPE::PTR),
        QCLASS::CLASS(CLASS::IN),
        false,
    ));
    let datagram = packet.build_bytes_vec().unwrap();

    let handler = MdnsHandler::new(String::from("bad!name"));
    let result = handler.check_mdns(&datagram, sender());
    assert!(matches!(result, Err(MdnsError::InvalidName)));
}

#[test]
fn service_name_is_kept_as_given() {
    let handler = MdnsHandler::new(String::from("_foo._tcp.local."));
    assert_eq!(handler.service_name().as_str(), "_foo._tcp.local.");
}
