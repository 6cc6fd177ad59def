//! Structured views over DNS messages. The wire-format parser and builder
//! themselves are external collaborators; the core only needs "parse raw
//! bytes into a view" and "build a minimal refusal reply from a query id
//! and a recursion flag".

use vstd::prelude::*;

verus! {

/// One question record of a parsed message: the name asked about and the
/// query type code.
pub struct QuestionRecord {
    /// The name the question asks about.
    pub name: String,
    /// The question's type code, as it stands on the wire.
    pub qtype: u16,
}

/// One answer record of a parsed message: the name it answers for, its
/// time to live, and its record data rendered as text.
pub struct AnswerRecord {
    /// The name the record answers for.
    pub name: String,
    /// The record's time to live, in seconds.
    pub ttl: u32,
    /// The record data, rendered as text.
    pub data: String,
}

/// The read-only view of a DNS message the relay works with: the message
/// id, the recursion flag, the question records, and the answer records.
pub struct QueryView {
    /// The message id from the header.
    pub id: u16,
    /// The recursion flag from the header.
    pub recursion_available: bool,
    /// The question records of the message.
    pub questions: Vec<QuestionRecord>,
    /// The answer records of the message.
    pub answers: Vec<AnswerRecord>,
}

/// What parsing raw bytes as a DNS message yields: a view when the bytes
/// form a valid message, nothing otherwise. The result depends on the bytes
/// alone.
pub uninterp spec fn parsed_packet(bytes: Seq<u8>) -> Option<QueryView>;

/// Relies on dns_parser::Packet::parse: whether bytes form a valid DNS
/// message, and the header fields, question records and answer records of
/// the parse, depend on the bytes alone.
#[verifier::external_body]
fn parse_packet_raw(bytes: &Vec<u8>) -> (r: Option<QueryView>)
    ensures
        r == parsed_packet(bytes@),
{
    match dns_parser::Packet::parse(bytes) {
        Ok(p) => Some(QueryView {
            id: p.header.id,
            recursion_available: p.header.recursion_available,
            questions: p.questions.iter().map(
                |q| QuestionRecord { name: q.qname.to_string(), qtype: q.qtype as u16 },
            ).collect(),
            answers: p.answers.iter().map(
                |a| AnswerRecord { name: a.name.to_string(), ttl: a.ttl, data: format!("{:?}", a.data) },
            ).collect(),
        }),
        Err(_) => None,
    }
}

/// Parse raw datagram bytes into the relay's view of them. A parse failure
/// is soft: the relay still forwards the raw bytes, it only skips the hook
/// calls that need a structured view.
pub fn parse_view(bytes: &Vec<u8>) -> (r: Option<QueryView>)
    ensures
        r == parsed_packet(bytes@),
{
    parse_packet_raw(bytes)
}

/// The refusal reply for a query id and recursion flag: exactly the
/// twelve-byte header of a minimal DNS response — the id echoed, the
/// response bit set, the recursion flag in the recursion-available
/// position, and no question, answer, nameserver or additional records.
pub open spec fn refusal_spec(id: u16, recursion: bool) -> Seq<u8> {
    seq![
        (id / 256) as u8,
        (id % 256) as u8,
        0x80u8,
        if recursion { 0x80u8 } else { 0u8 },
        0u8,
        0u8,
        0u8,
        0u8,
        0u8,
        0u8,
        0u8,
        0u8,
    ]
}

/// The refusal reply sent straight back to the client when the hook vetoes
/// a query: a minimal response that echoes the query's id and recursion
/// flag and carries zero answer records.
pub fn refusal_for(id: u16, recursion: bool) -> (r: Vec<u8>)
    ensures
        r@ == refusal_spec(id, recursion),
{
    let mut r: Vec<u8> = Vec::new();
    r.push((id / 256) as u8);
    r.push((id % 256) as u8);
    r.push(0x80);
    r.push(if recursion { 0x80 } else { 0 });
    r.push(0);
    r.push(0);
    r.push(0);
    r.push(0);
    r.push(0);
    r.push(0);
    r.push(0);
    r.push(0);
    proof {
        assert(r@ =~= refusal_spec(id, recursion));
    }
    r
}

/// Law: the refusal reply is a response (the header's leading flag bit is
/// set), echoes the query's id and recursion flag, and declares zero
/// answer records (bytes six and seven, the answer count, are zero — as
/// are all other record counts).
pub proof fn lemma_refusal_shape(id: u16, recursion: bool)
    ensures
        refusal_spec(id, recursion).len() == 12,
        refusal_spec(id, recursion)[0] as nat * 256 + refusal_spec(id, recursion)[1] as nat
            == id as nat,
        refusal_spec(id, recursion)[2] == 0x80u8,
        refusal_spec(id, recursion)[3] == (if recursion { 0x80u8 } else { 0u8 }),
        refusal_spec(id, recursion)[6] == 0u8 && refusal_spec(id, recursion)[7] == 0u8,
        forall|i: int| 4 <= i < 12 ==> refusal_spec(id, recursion)[i] == 0u8,
{
    assert(id as nat / 256 * 256 + id as nat % 256 == id as nat) by (nonlinear_arith);
    assert forall|i: int| 4 <= i < 12 implies refusal_spec(id, recursion)[i] == 0u8 by {
        assert(refusal_spec(id, recursion)[i] == 0u8);
    }
}

} // verus!
