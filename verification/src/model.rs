//! Storage-native row shape and the row mapper.
//!
//! A row carries the candidate identifier as the 128-bit value of its UUID
//! column and timestamps as microseconds since the Unix epoch; the mapper
//! copies every field into the domain entity and renders the identifier to
//! its canonical hyphenated lowercase string form.

use vstd::prelude::*;
use crate::domain;

verus! {

/// One storage row of the candidates table. Same fields as the domain
/// entity, but the identifier is still the raw 128-bit UUID value.
#[derive(Clone, Debug)]
pub struct Candidate {
    pub id: u128,
    pub vote_number: i32,
    pub president_name: String,
    pub vice_president_name: String,
    pub president_nim: String,
    pub vice_president_nim: String,
    pub president_photo: String,
    pub vice_president_photo: String,
    pub status: bool,
    pub created_by: String,
    pub created_at: i64,
    pub updated_at: Option<i64>,
}

/// The lowercase hexadecimal digit for one nibble value.
pub open spec fn hex_char(d: u8) -> char {
    if d == 0 {
        '0'
    } else if d == 1 {
        '1'
    } else if d == 2 {
        '2'
    } else if d == 3 {
        '3'
    } else if d == 4 {
        '4'
    } else if d == 5 {
        '5'
    } else if d == 6 {
        '6'
    } else if d == 7 {
        '7'
    } else if d == 8 {
        '8'
    } else if d == 9 {
        '9'
    } else if d == 10 {
        'a'
    } else if d == 11 {
        'b'
    } else if d == 12 {
        'c'
    } else if d == 13 {
        'd'
    } else if d == 14 {
        'e'
    } else {
        'f'
    }
}

/// Nibble `k` of a 128-bit value, counting from the most significant.
pub open spec fn uuid_nibble(v: u128, k: int) -> u8 {
    ((v >> (((31 - k) * 4) as u128)) & 0xf) as u8
}

/// How many of the four hyphens of the canonical UUID form stand before
/// string position `i`.
pub open spec fn hyphens_before(i: int) -> int {
    if i <= 8 {
        0
    } else if i <= 13 {
        1
    } else if i <= 18 {
        2
    } else if i <= 23 {
        3
    } else {
        4
    }
}

/// Character at position `i` of the canonical hyphenated form.
pub open spec fn uuid_char(v: u128, i: int) -> char {
    if i == 8 || i == 13 || i == 18 || i == 23 {
        '-'
    } else {
        hex_char(uuid_nibble(v, i - hyphens_before(i)))
    }
}

/// The canonical textual form of a UUID given as a 128-bit value: its 32
/// nibbles as lowercase hexadecimal digits, most significant first, with
/// hyphens at positions 8, 13, 18 and 23 (the 8-4-4-4-12 grouping).
pub open spec fn uuid_hyphenated(v: u128) -> Seq<char> {
    Seq::new(36, |i: int| uuid_char(v, i))
}

/// Relies on `uuid::Uuid::from_u128` (big-endian bytes of the value) and
/// the `Display` impl of `uuid::Uuid`, which renders exactly the
/// hyphenated lowercase hexadecimal form.
#[verifier::external_body]
fn uuid_to_string(v: u128) -> (r: String)
    ensures
        r@ == uuid_hyphenated(v),
{
    uuid::Uuid::from_u128(v).to_string()
}

/// Field-for-field correspondence between a domain candidate and the
/// storage row it was mapped from.
pub open spec fn candidate_of_row(c: domain::Candidate, r: Candidate) -> bool {
    &&& c.id@ == uuid_hyphenated(r.id)
    &&& c.vote_number == r.vote_number
    &&& c.president_name@ == r.president_name@
    &&& c.vice_president_name@ == r.vice_president_name@
    &&& c.president_nim@ == r.president_nim@
    &&& c.vice_president_nim@ == r.vice_president_nim@
    &&& c.president_photo@ == r.president_photo@
    &&& c.vice_president_photo@ == r.vice_president_photo@
    &&& c.status == r.status
    &&& c.created_by@ == r.created_by@
    &&& c.created_at == r.created_at
    &&& c.updated_at == r.updated_at
}

/// Maps one storage row to the domain entity: every field is copied and
/// the identifier is rendered to its canonical string form. Total over any
/// row: no branch depends on the row's contents.
pub fn map_row(r: &Candidate) -> (c: domain::Candidate)
    ensures
        candidate_of_row(c, *r),
{
    domain::Candidate {
        id: uuid_to_string(r.id),
        vote_number: r.vote_number,
        president_name: r.president_name.clone(),
        vice_president_name: r.vice_president_name.clone(),
        president_nim: r.president_nim.clone(),
        vice_president_nim: r.vice_president_nim.clone(),
        president_photo: r.president_photo.clone(),
        vice_president_photo: r.vice_president_photo.clone(),
        status: r.status,
        created_by: r.created_by.clone(),
        created_at: r.created_at,
        updated_at: r.updated_at,
    }
}

/// Maps every returned storage row to its domain entity, keeping order.
pub fn transform_candidate(rows: &Vec<Candidate>) -> (out: Vec<domain::Candidate>)
    ensures
        out@.len() == rows@.len(),
        forall|i: int| 0 <= i < rows@.len() ==> candidate_of_row(#[trigger] out@[i], rows@[i]),
{
    let mut out: Vec<domain::Candidate> = Vec::new();
    let mut i: usize = 0;
    while i < rows.len()
        invariant
            i <= rows@.len(),
            out@.len() == i,
            forall|j: int| 0 <= j < i ==> candidate_of_row(#[trigger] out@[j], rows@[j]),
        decreases rows@.len() - i,
    {
        out.push(map_row(&rows[i]));
        i = i + 1;
    }
    out
}

} // verus!
