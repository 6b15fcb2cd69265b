//! The instruction set: a total mapping from a single byte to an opcode
//! variant. Bytes 0 through 100 name the assigned instructions in order,
//! byte 255 is the halt attempt, and every unassigned byte decodes to
//! `Nop`, so decoding can never fail and arbitrary data always runs.

use vstd::prelude::*;

verus! {

/// One decoded instruction. The two-letter suffix of an arithmetic or
/// logical variant names the destination register first and the source
/// register second (`AddBC` is `B := B + C`). Comparison variants name
/// the register that is compared against a memory operand; each variant
/// compares exactly the register it names, and the equality variants
/// test true equality.
#[derive(Debug, PartialEq, Eq, Structural)]
pub enum OpCode {
    Nop,

    LoadA, LoadB, LoadC, LoadD,

    StoreA, StoreB, StoreC, StoreD,

    SetFlag, ClearFlag,

    AddAA, AddBA, AddCA, AddDA,
           AddBB, AddBC, AddBD,
           AddCB, AddCC, AddCD,
           AddDB, AddDC, AddDD,

    SubAA, SubBA, SubCA, SubDA,
           SubBB, SubBC, SubBD,
           SubCB, SubCC, SubCD,
           SubDB, SubDC, SubDD,

    Jmp, JmpRel, WriteIp,

    Branch,

    LessThanA, GreaterThanA, EqualToA,
    LessThanB, GreaterThanB, EqualToB,
    LessThanC, GreaterThanC, EqualToC,
    LessThanD, GreaterThanD, EqualToD,

    AndAA, AndBA, AndCA, AndDA,
           AndBB, AndBC, AndBD,
           AndCB, AndCC, AndCD,
           AndDB, AndDC, AndDD,

    XorAA, XorBA, XorCA, XorDA,
           XorBB, XorBC, XorBD,
           XorCB, XorCC, XorCD,
           XorDB, XorDC, XorDD,

    OrAA,  OrBA,  OrCA,  OrDA,
           OrBB,  OrBC,  OrBD,
           OrCB,  OrCC,  OrCD,
           OrDB,  OrDC,  OrDD,

    RolA, RolB, RolC, RolD,

    RorA, RorB, RorC, RorD,

    Print,

    AttemptHalt,
}

/// The byte-to-opcode mapping: bytes 0 through 100 are the assigned
/// instructions in declaration order, byte 255 is `AttemptHalt`, and
/// every other byte is `Nop`.
pub open spec fn spec_decode(b: u8) -> OpCode {
    if b == 0 { OpCode::Nop }
    else if b == 1 { OpCode::LoadA }
    else if b == 2 { OpCode::LoadB }
    else if b == 3 { OpCode::LoadC }
    else if b == 4 { OpCode::LoadD }
    else if b == 5 { OpCode::StoreA }
    else if b == 6 { OpCode::StoreB }
    else if b == 7 { OpCode::StoreC }
    else if b == 8 { OpCode::StoreD }
    else if b == 9 { OpCode::SetFlag }
    else if b == 10 { OpCode::ClearFlag }
    else if b == 11 { OpCode::AddAA }
    else if b == 12 { OpCode::AddBA }
    else if b == 13 { OpCode::AddCA }
    else if b == 14 { OpCode::AddDA }
    else if b == 15 { OpCode::AddBB }
    else if b == 16 { OpCode::AddBC }
    else if b == 17 { OpCode::AddBD }
    else if b == 18 { OpCode::AddCB }
    else if b == 19 { OpCode::AddCC }
    else if b == 20 { OpCode::AddCD }
    else if b == 21 { OpCode::AddDB }
    else if b == 22 { OpCode::AddDC }
    else if b == 23 { OpCode::AddDD }
    else if b == 24 { OpCode::SubAA }
    else if b == 25 { OpCode::SubBA }
    else if b == 26 { OpCode::SubCA }
    else if b == 27 { OpCode::SubDA }
    else if b == 28 { OpCode::SubBB }
    else if b == 29 { OpCode::SubBC }
    else if b == 30 { OpCode::SubBD }
    else if b == 31 { OpCode::SubCB }
    else if b == 32 { OpCode::SubCC }
    else if b == 33 { OpCode::SubCD }
    else if b == 34 { OpCode::SubDB }
    else if b == 35 { OpCode::SubDC }
    else if b == 36 { OpCode::SubDD }
    else if b == 37 { OpCode::Jmp }
    else if b == 38 { OpCode::JmpRel }
    else if b == 39 { OpCode::WriteIp }
    else if b == 40 { OpCode::Branch }
    else if b == 41 { OpCode::LessThanA }
    else if b == 42 { OpCode::GreaterThanA }
    else if b == 43 { OpCode::EqualToA }
    else if b == 44 { OpCode::LessThanB }
    else if b == 45 { OpCode::GreaterThanB }
    else if b == 46 { OpCode::EqualToB }
    else if b == 47 { OpCode::LessThanC }
    else if b == 48 { OpCode::GreaterThanC }
    else if b == 49 { OpCode::EqualToC }
    else if b == 50 { OpCode::LessThanD }
    else if b == 51 { OpCode::GreaterThanD }
    else if b == 52 { OpCode::EqualToD }
    else if b == 53 { OpCode::AndAA }
    else if b == 54 { OpCode::AndBA }
    else if b == 55 { OpCode::AndCA }
    else if b == 56 { OpCode::AndDA }
    else if b == 57 { OpCode::AndBB }
    else if b == 58 { OpCode::AndBC }
    else if b == 59 { OpCode::AndBD }
    else if b == 60 { OpCode::AndCB }
    else if b == 61 { OpCode::AndCC }
    else if b == 62 { OpCode::AndCD }
    else if b == 63 { OpCode::AndDB }
    else if b == 64 { OpCode::AndDC }
    else if b == 65 { OpCode::AndDD }
    else if b == 66 { OpCode::XorAA }
    else if b == 67 { OpCode::XorBA }
    else if b == 68 { OpCode::XorCA }
    else if b == 69 { OpCode::XorDA }
    else if b == 70 { OpCode::XorBB }
    else if b == 71 { OpCode::XorBC }
    else if b == 72 { OpCode::XorBD }
    else if b == 73 { OpCode::XorCB }
    else if b == 74 { OpCode::XorCC }
    else if b == 75 { OpCode::XorCD }
    else if b == 76 { OpCode::XorDB }
    else if b == 77 { OpCode::XorDC }
    else if b == 78 { OpCode::XorDD }
    else if b == 79 { OpCode::OrAA }
    else if b == 80 { OpCode::OrBA }
    else if b == 81 { OpCode::OrCA }
    else if b == 82 { OpCode::OrDA }
    else if b == 83 { OpCode::OrBB }
    else if b == 84 { OpCode::OrBC }
    else if b == 85 { OpCode::OrBD }
    else if b == 86 { OpCode::OrCB }
    else if b == 87 { OpCode::OrCC }
    else if b == 88 { OpCode::OrCD }
    else if b == 89 { OpCode::OrDB }
    else if b == 90 { OpCode::OrDC }
    else if b == 91 { OpCode::OrDD }
    else if b == 92 { OpCode::RolA }
    else if b == 93 { OpCode::RolB }
    else if b == 94 { OpCode::RolC }
    else if b == 95 { OpCode::RolD }
    else if b == 96 { OpCode::RorA }
    else if b == 97 { OpCode::RorB }
    else if b == 98 { OpCode::RorC }
    else if b == 99 { OpCode::RorD }
    else if b == 100 { OpCode::Print }
    else if b == 255 { OpCode::AttemptHalt }
    else { OpCode::Nop }
}

impl From<u8> for OpCode {
    /// Decode one byte. Total: every byte value yields a variant.
    fn from(b: u8) -> (op: OpCode) {
        match b {
            0 => OpCode::Nop,
            1 => OpCode::LoadA,
            2 => OpCode::LoadB,
            3 => OpCode::LoadC,
            4 => OpCode::LoadD,
            5 => OpCode::StoreA,
            6 => OpCode::StoreB,
            7 => OpCode::StoreC,
            8 => OpCode::StoreD,
            9 => OpCode::SetFlag,
            10 => OpCode::ClearFlag,
            11 => OpCode::AddAA,
            12 => OpCode::AddBA,
            13 => OpCode::AddCA,
            14 => OpCode::AddDA,
            15 => OpCode::AddBB,
            16 => OpCode::AddBC,
            17 => OpCode::AddBD,
            18 => OpCode::AddCB,
            19 => OpCode::AddCC,
            20 => OpCode::AddCD,
            21 => OpCode::AddDB,
            22 => OpCode::AddDC,
            23 => OpCode::AddDD,
            24 => OpCode::SubAA,
            25 => OpCode::SubBA,
            26 => OpCode::SubCA,
            27 => OpCode::SubDA,
            28 => OpCode::SubBB,
            29 => OpCode::SubBC,
            30 => OpCode::SubBD,
            31 => OpCode::SubCB,
            32 => OpCode::SubCC,
            33 => OpCode::SubCD,
            34 => OpCode::SubDB,
            35 => OpCode::SubDC,
            36 => OpCode::SubDD,
            37 => OpCode::Jmp,
            38 => OpCode::JmpRel,
            39 => OpCode::WriteIp,
            40 => OpCode::Branch,
            41 => OpCode::LessThanA,
            42 => OpCode::GreaterThanA,
            43 => OpCode::EqualToA,
            44 => OpCode::LessThanB,
            45 => OpCode::GreaterThanB,
            46 => OpCode::EqualToB,
            47 => OpCode::LessThanC,
            48 => OpCode::GreaterThanC,
            49 => OpCode::EqualToC,
            50 => OpCode::LessThanD,
            51 => OpCode::GreaterThanD,
            52 => OpCode::EqualToD,
            53 => OpCode::AndAA,
            54 => OpCode::AndBA,
            55 => OpCode::AndCA,
            56 => OpCode::AndDA,
            57 => OpCode::AndBB,
            58 => OpCode::AndBC,
            59 => OpCode::AndBD,
            60 => OpCode::AndCB,
            61 => OpCode::AndCC,
            62 => OpCode::AndCD,
            63 => OpCode::AndDB,
            64 => OpCode::AndDC,
            65 => OpCode::AndDD,
            66 => OpCode::XorAA,
            67 => OpCode::XorBA,
            68 => OpCode::XorCA,
            69 => OpCode::XorDA,
            70 => OpCode::XorBB,
            71 => OpCode::XorBC,
            72 => OpCode::XorBD,
            73 => OpCode::XorCB,
            74 => OpCode::XorCC,
            75 => OpCode::XorCD,
            76 => OpCode::XorDB,
            77 => OpCode::XorDC,
            78 => OpCode::XorDD,
            79 => OpCode::OrAA,
            80 => OpCode::OrBA,
            81 => OpCode::OrCA,
            82 => OpCode::OrDA,
            83 => OpCode::OrBB,
            84 => OpCode::OrBC,
            85 => OpCode::OrBD,
            86 => OpCode::OrCB,
            87 => OpCode::OrCC,
            88 => OpCode::OrCD,
            89 => OpCode::OrDB,
            90 => OpCode::OrDC,
            91 => OpCode::OrDD,
            92 => OpCode::RolA,
            93 => OpCode::RolB,
            94 => OpCode::RolC,
            95 => OpCode::RolD,
            96 => OpCode::RorA,
            97 => OpCode::RorB,
            98 => OpCode::RorC,
            99 => OpCode::RorD,
            100 => OpCode::Print,
            255 => OpCode::AttemptHalt,
            _ => OpCode::Nop,
        }
    }
}

impl vstd::std_specs::convert::FromSpecImpl<u8> for OpCode {
    open spec fn obeys_from_spec() -> bool {
        true
    }

    open spec fn from_spec(b: u8) -> OpCode {
        spec_decode(b)
    }
}

/// Total decode: every byte yields a variant, and the result is `Nop`
/// exactly for byte 0 and for the bytes outside the assigned set
/// (101 through 254).
pub proof fn lemma_decode_total(b: u8)
    ensures
        spec_decode(b) == OpCode::Nop <==> (b == 0 || (101 <= b && b <= 254)),
{
}

} // verus!
