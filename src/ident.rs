use vstd::prelude::*;

verus! {

/// A character that a hexadecimal identifier may hold, in either case.
pub open spec fn is_hex_digit(c: char) -> bool {
    ('0' <= c && c <= '9') || ('a' <= c && c <= 'f') || ('A' <= c && c <= 'F')
}

/// The value of a hexadecimal digit.
pub open spec fn hex_value(c: char) -> int {
    if '0' <= c && c <= '9' {
        c as int - '0' as int
    } else if 'a' <= c && c <= 'f' {
        c as int - 'a' as int + 10
    } else {
        c as int - 'A' as int + 10
    }
}

/// A well-formed identifier: exactly 24 hexadecimal digits.
pub open spec fn is_well_formed_id(s: Seq<char>) -> bool {
    s.len() == 24 && forall|i: int| 0 <= i < s.len() ==> is_hex_digit(#[trigger] s[i])
}

/// The twelve bytes a well-formed identifier stands for, two digits per byte,
/// the high half first.
pub open spec fn decoded_bytes(s: Seq<char>) -> Seq<u8> {
    Seq::new(12, |i: int| (hex_value(s[2 * i]) * 16 + hex_value(s[2 * i + 1])) as u8)
}

/// The lowercase digit for a value below sixteen.
pub open spec fn lower_hex_digit(v: int) -> char {
    if v < 10 {
        (v + '0' as int) as char
    } else {
        (v - 10 + 'a' as int) as char
    }
}

/// The lowercase hexadecimal text of some bytes, two digits per byte.
pub open spec fn hex_text(b: Seq<u8>) -> Seq<char> {
    Seq::new(
        2 * b.len(),
        |i: int|
            if i % 2 == 0 {
                lower_hex_digit(b[i / 2] as int / 16)
            } else {
                lower_hex_digit(b[i / 2] as int % 16)
            },
    )
}

/// Relies on bson's `ObjectId::parse_str`: it decodes the text with
/// `hex::decode` (both cases, one byte per pair of digits, high half first)
/// and accepts the result only when it is twelve bytes long.
#[verifier::external_body]
fn parse_object_id(s: &str) -> (r: Option<[u8; 12]>)
    ensures
        r is Some <==> is_well_formed_id(s@),
        r matches Some(b) ==> b@ == decoded_bytes(s@),
{
    match mongodb::bson::oid::ObjectId::parse_str(s) {
        Ok(oid) => Some(oid.bytes()),
        Err(_) => None,
    }
}

/// Relies on bson's `ObjectId::to_hex`: `hex::encode` of the twelve bytes,
/// two lowercase digits per byte.
#[verifier::external_body]
fn object_id_hex(b: [u8; 12]) -> (r: String)
    ensures
        r@ == hex_text(b@),
{
    mongodb::bson::oid::ObjectId::from_bytes(b).to_hex()
}

/// The store's native identifier of a task: twelve bytes, assigned by the
/// store when the task is created.
#[derive(Clone, Copy, PartialEq, Eq, Debug)]
pub struct TaskId {
    pub bytes: [u8; 12],
}

impl View for TaskId {
    type V = Seq<u8>;

    open spec fn view(&self) -> Seq<u8> {
        self.bytes@
    }
}

impl TaskId {
    /// Reads an identifier from its text; `None` exactly when the text is
    /// not well-formed.
    pub fn parse(s: &str) -> (r: Option<TaskId>)
        ensures
            r is Some <==> is_well_formed_id(s@),
            r matches Some(id) ==> id@ == decoded_bytes(s@),
    {
        match parse_object_id(s) {
            Some(bytes) => Some(TaskId { bytes }),
            None => None,
        }
    }

    pub fn from_bytes(bytes: [u8; 12]) -> (r: TaskId)
        ensures
            r@ == bytes@,
    {
        TaskId { bytes }
    }

    /// The identifier as clients see it: 24 lowercase hexadecimal digits.
    pub fn to_hex(&self) -> (r: String)
        ensures
            r@ == hex_text(self@),
    {
        object_id_hex(self.bytes)
    }
}

} // verus!
