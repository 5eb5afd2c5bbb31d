//! The fixed header of a message and the fields packed into its flags word.
//!
//! Bits are numbered from the least significant one, which is bit 0:
//!
//! | field  | bits | width |
//! |--------|------|-------|
//! | QR     | 0    | 1     |
//! | OPCODE | 1-3  | 3     |
//! | AA     | 4    | 1     |
//! | TC     | 5    | 1     |

use vstd::pervasive::unreached;
use vstd::prelude::*;

verus! {

/// Direction of a message.
#[allow(non_camel_case_types)]
#[derive(PartialEq, Eq, Structural, Debug)]
pub enum Qr {
    /// Bit 0 of the flags word is clear.
    REQUEST,
    /// Bit 0 of the flags word is set.
    RESPONSE,
}

/// Kind of operation that a message asks for.
#[allow(non_camel_case_types)]
#[derive(PartialEq, Eq, Structural, Debug)]
pub enum Opcode {
    /// Operation code 0.
    QUERY,
    /// Operation code 1.
    IQUERY,
    /// Operation code 2.
    STATUS,
    /// Every operation code from 3 to 7.
    RESERVE,
}

/// Whether the answer comes from an authority.
#[allow(non_camel_case_types)]
#[derive(PartialEq, Eq, Structural, Debug)]
pub enum AA {
    /// Bit 4 of the flags word is set.
    HAVE,
    /// Bit 4 of the flags word is clear.
    NONE,
}

/// Whether the message was cut short.
#[allow(non_camel_case_types)]
#[derive(PartialEq, Eq, Structural, Debug)]
pub enum TC {
    /// Bit 5 of the flags word is clear.
    FIT,
    /// Bit 5 of the flags word is set.
    TRUNCATED,
}

/// Number held by bit 0 of a flags word: 0 or 1.
pub open spec fn qr_bit(flags: u16) -> int {
    (flags as int) % 2
}

/// Number held by bits 1 to 3 of a flags word: 0 to 7.
pub open spec fn opcode_bits(flags: u16) -> int {
    ((flags as int) / 2) % 8
}

/// Number held by bit 4 of a flags word: 0 or 1.
pub open spec fn aa_bit(flags: u16) -> int {
    ((flags as int) / 16) % 2
}

/// Number held by bit 5 of a flags word: 0 or 1.
pub open spec fn tc_bit(flags: u16) -> int {
    ((flags as int) / 32) % 2
}

impl Qr {
    /// The direction that a flags word encodes.
    pub open spec fn of_flags(flags: u16) -> Qr {
        if qr_bit(flags) == 0 {
            Qr::REQUEST
        } else {
            Qr::RESPONSE
        }
    }
}

impl Opcode {
    /// The operation that a flags word encodes.
    pub open spec fn of_flags(flags: u16) -> Opcode {
        if opcode_bits(flags) == 0 {
            Opcode::QUERY
        } else if opcode_bits(flags) == 1 {
            Opcode::IQUERY
        } else if opcode_bits(flags) == 2 {
            Opcode::STATUS
        } else {
            Opcode::RESERVE
        }
    }
}

impl AA {
    /// The authority indication that a flags word encodes.
    pub open spec fn of_flags(flags: u16) -> AA {
        if aa_bit(flags) == 1 {
            AA::HAVE
        } else {
            AA::NONE
        }
    }
}

impl TC {
    /// The truncation indication that a flags word encodes.
    pub open spec fn of_flags(flags: u16) -> TC {
        if tc_bit(flags) == 1 {
            TC::TRUNCATED
        } else {
            TC::FIT
        }
    }
}

/// The six words of a header, in wire order. Any six words make a header.
pub struct DnsHeader {
    pub field: [u16; 6],
}

impl View for DnsHeader {
    type V = Seq<u16>;

    /// The six stored words.
    open spec fn view(&self) -> Seq<u16> {
        self.field@
    }
}

impl DnsHeader {
    /// The message identifier: word 0.
    pub open spec fn id(&self) -> u16 {
        self@[0]
    }

    /// The flags word: word 1.
    pub open spec fn flags(&self) -> u16 {
        self@[1]
    }

    /// Returns the message identifier as stored.
    pub fn get_id(&self) -> (id: u16)
        ensures
            id == self.id(),
    {
        self.field[0]
    }

    /// Returns the direction of the message.
    pub fn get_qr(&self) -> (qr: Qr)
        ensures
            qr == Qr::of_flags(self.flags()),
    {
        let flags: u16 = self.field[1];
        assert(flags & 0b0000_0000_0000_0001 == flags % 2) by (bit_vector);
        match flags & 0b0000_0000_0000_0001 {
            0 => Qr::REQUEST,
            _ => Qr::RESPONSE,
        }
    }

    /// Returns the operation that the message asks for.
    pub fn get_opcode(&self) -> (opcode: Opcode)
        ensures
            opcode == Opcode::of_flags(self.flags()),
    {
        let flags: u16 = self.field[1];
        assert((flags & 0b0000_0000_0000_1110) >> 1 == (flags / 2) % 8) by (bit_vector);
        match (flags & 0b0000_0000_0000_1110) >> 1 {
            0 => Opcode::QUERY,
            1 => Opcode::IQUERY,
            2 => Opcode::STATUS,
            _ => Opcode::RESERVE,
        }
    }

    /// Returns whether the answer comes from an authority.
    pub fn get_aa(&self) -> (aa: AA)
        ensures
            aa == AA::of_flags(self.flags()),
    {
        let flags: u16 = self.field[1];
        assert((flags & 0b0000_0000_0001_0000) >> 4 == (flags / 16) % 2) by (bit_vector);
        match (flags & 0b0000_0000_0001_0000) >> 4 {
            0 => AA::NONE,
            1 => AA::HAVE,
            // One masked bit is 0 or 1: no flags word leads here.
            _ => unreached(),
        }
    }

    /// Returns whether the message was cut short.
    pub fn get_tc(&self) -> (tc: TC)
        ensures
            tc == TC::of_flags(self.flags()),
    {
        let flags: u16 = self.field[1];
        assert((flags & 0b0000_0000_0010_0000) >> 5 == (flags / 32) % 2) by (bit_vector);
        match (flags & 0b0000_0000_0010_0000) >> 5 {
            0 => TC::FIT,
            1 => TC::TRUNCATED,
            // One masked bit is 0 or 1: no flags word leads here.
            _ => unreached(),
        }
    }
}

/// A header holds exactly six words.
pub proof fn lemma_header_has_six_words(header: DnsHeader)
    ensures
        header@.len() == 6,
{
}

/// Every field holds a number that fits its width: one bit for the direction,
/// the authority and the truncation flags, three bits for the operation code.
pub proof fn lemma_fields_fit_their_width(flags: u16)
    ensures
        0 <= qr_bit(flags) <= 1,
        0 <= opcode_bits(flags) <= 7,
        0 <= aa_bit(flags) <= 1,
        0 <= tc_bit(flags) <= 1,
{
}

/// The direction depends on bit 0 alone: flipping any of the other bits of a
/// flags word, here those set in `changed`, leaves it as it was.
pub proof fn lemma_qr_ignores_other_bits(flags: u16, changed: u16)
    requires
        qr_bit(changed) == 0,
    ensures
        Qr::of_flags(flags ^ changed) == Qr::of_flags(flags),
{
    assert((flags ^ changed) % 2 == flags % 2) by (bit_vector)
        requires
            changed % 2 == 0,
    ;
}

/// The operation depends on bits 1 to 3 alone: flipping any of the other bits
/// of a flags word, here those set in `changed`, leaves it as it was.
pub proof fn lemma_opcode_ignores_other_bits(flags: u16, changed: u16)
    requires
        opcode_bits(changed) == 0,
    ensures
        Opcode::of_flags(flags ^ changed) == Opcode::of_flags(flags),
{
    assert(((flags ^ changed) / 2) % 8 == (flags / 2) % 8) by (bit_vector)
        requires
            (changed / 2) % 8 == 0,
    ;
}

/// The authority indication depends on bit 4 alone: flipping any of the other
/// bits of a flags word, here those set in `changed`, leaves it as it was.
pub proof fn lemma_aa_ignores_other_bits(flags: u16, changed: u16)
    requires
        aa_bit(changed) == 0,
    ensures
        AA::of_flags(flags ^ changed) == AA::of_flags(flags),
{
    assert(((flags ^ changed) / 16) % 2 == (flags / 16) % 2) by (bit_vector)
        requires
            (changed / 16) % 2 == 0,
    ;
}

/// The truncation indication depends on bit 5 alone: flipping any of the other
/// bits of a flags word, here those set in `changed`, leaves it as it was.
pub proof fn lemma_tc_ignores_other_bits(flags: u16, changed: u16)
    requires
        tc_bit(changed) == 0,
    ensures
        TC::of_flags(flags ^ changed) == TC::of_flags(flags),
{
    assert(((flags ^ changed) / 32) % 2 == (flags / 32) % 2) by (bit_vector)
        requires
            (changed / 32) % 2 == 0,
    ;
}

/// Decoding reads the stored words and nothing else: two headers that hold
/// the same words give the same identifier and the same four fields, however
/// often and in whatever order they are asked.
pub proof fn lemma_same_words_same_fields(a: DnsHeader, b: DnsHeader)
    requires
        a@ == b@,
    ensures
        a.id() == b.id(),
        Qr::of_flags(a.flags()) == Qr::of_flags(b.flags()),
        Opcode::of_flags(a.flags()) == Opcode::of_flags(b.flags()),
        AA::of_flags(a.flags()) == AA::of_flags(b.flags()),
        TC::of_flags(a.flags()) == TC::of_flags(b.flags()),
{
}

} // verus!
