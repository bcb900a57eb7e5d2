//! The opcode table: every byte names an opcode or is `Unknown`.
use vstd::prelude::*;

verus! {

/// The opcodes of the byte-code, one per defined instruction byte.
#[derive(Clone, Copy, Debug, PartialEq, Eq, Structural)]
pub enum Opcode {
    PopTop,
    RotTwo,
    RotThree,
    DupTop,
    DupTopTwo,
    RotFour,
    Nop,
    UnaryPositive,
    UnaryNegative,
    UnaryNot,
    UnaryInvert,
    BinaryMatrixMultiply,
    InplaceMatrixMultiply,
    BinaryPower,
    BinaryMultiply,
    BinaryModulo,
    BinaryAdd,
    BinarySubtract,
    BinarySubscr,
    BinaryFloorDivide,
    BinaryTrueDivide,
    InplaceFloorDivide,
    InplaceTrueDivide,
    GetLen,
    MatchMapping,
    MatchSequence,
    MatchKeys,
    CopyDictWithoutKeys,
    WithExceptStart,
    GetAiter,
    GetAnext,
    BeforeAsyncWith,
    EndAsyncFor,
    InplaceAdd,
    InplaceSubtract,
    InplaceMultiply,
    InplaceModulo,
    StoreSubscr,
    DeleteSubscr,
    BinaryLshift,
    BinaryRshift,
    BinaryAnd,
    BinaryXor,
    BinaryOr,
    InplacePower,
    GetIter,
    GetYieldFromIter,
    PrintExpr,
    LoadBuildClass,
    YieldFrom,
    GetAwaitable,
    LoadAssertionError,
    InplaceLshift,
    InplaceRshift,
    InplaceAnd,
    InplaceXor,
    InplaceOr,
    ListToTuple,
    ReturnValue,
    ImportStar,
    SetupAnnotations,
    YieldValue,
    PopBlock,
    PopExcept,
    StoreName,
    DeleteName,
    UnpackSequence,
    ForIter,
    UnpackEx,
    StoreAttr,
    DeleteAttr,
    StoreGlobal,
    DeleteGlobal,
    RotN,
    LoadConst,
    LoadName,
    BuildTuple,
    BuildList,
    BuildSet,
    BuildMap,
    LoadAttr,
    CompareOp,
    ImportName,
    ImportFrom,
    JumpForward,
    JumpIfFalseOrPop,
    JumpIfTrueOrPop,
    JumpAbsolute,
    PopJumpIfFalse,
    PopJumpIfTrue,
    LoadGlobal,
    IsOp,
    ContainsOp,
    Reraise,
    JumpIfNotExcMatch,
    SetupFinally,
    LoadFast,
    StoreFast,
    DeleteFast,
    GenStart,
    RaiseVarargs,
    CallFunction,
    MakeFunction,
    BuildSlice,
    LoadClosure,
    LoadDeref,
    StoreDeref,
    DeleteDeref,
    CallFunctionKw,
    CallFunctionEx,
    SetupWith,
    ExtendedArg,
    ListAppend,
    SetAdd,
    MapAdd,
    LoadClassderef,
    MatchClass,
    SetupAsyncWith,
    FormatValue,
    BuildConstKeyMap,
    BuildString,
    LoadMethod,
    CallMethod,
    ListExtend,
    SetUpdate,
    DictMerge,
    DictUpdate,
    /// A byte that names no opcode; it is kept as read.
    Unknown(u8),
}

/// The byte that stands for `op` in a byte-code stream.
pub open spec fn opcode_byte(op: Opcode) -> u8 {
    match op {
        Opcode::PopTop => 1,
        Opcode::RotTwo => 2,
        Opcode::RotThree => 3,
        Opcode::DupTop => 4,
        Opcode::DupTopTwo => 5,
        Opcode::RotFour => 6,
        Opcode::Nop => 9,
        Opcode::UnaryPositive => 10,
        Opcode::UnaryNegative => 11,
        Opcode::UnaryNot => 12,
        Opcode::UnaryInvert => 15,
        Opcode::BinaryMatrixMultiply => 16,
        Opcode::InplaceMatrixMultiply => 17,
        Opcode::BinaryPower => 19,
        Opcode::BinaryMultiply => 20,
        Opcode::BinaryModulo => 22,
        Opcode::BinaryAdd => 23,
        Opcode::BinarySubtract => 24,
        Opcode::BinarySubscr => 25,
        Opcode::BinaryFloorDivide => 26,
        Opcode::BinaryTrueDivide => 27,
        Opcode::InplaceFloorDivide => 28,
        Opcode::InplaceTrueDivide => 29,
        Opcode::GetLen => 30,
        Opcode::MatchMapping => 31,
        Opcode::MatchSequence => 32,
        Opcode::MatchKeys => 33,
        Opcode::CopyDictWithoutKeys => 34,
        Opcode::WithExceptStart => 49,
        Opcode::GetAiter => 50,
        Opcode::GetAnext => 51,
        Opcode::BeforeAsyncWith => 52,
        Opcode::EndAsyncFor => 54,
        Opcode::InplaceAdd => 55,
        Opcode::InplaceSubtract => 56,
        Opcode::InplaceMultiply => 57,
        Opcode::InplaceModulo => 59,
        Opcode::StoreSubscr => 60,
        Opcode::DeleteSubscr => 61,
        Opcode::BinaryLshift => 62,
        Opcode::BinaryRshift => 63,
        Opcode::BinaryAnd => 64,
        Opcode::BinaryXor => 65,
        Opcode::BinaryOr => 66,
        Opcode::InplacePower => 67,
        Opcode::GetIter => 68,
        Opcode::GetYieldFromIter => 69,
        Opcode::PrintExpr => 70,
        Opcode::LoadBuildClass => 71,
        Opcode::YieldFrom => 72,
        Opcode::GetAwaitable => 73,
        Opcode::LoadAssertionError => 74,
        Opcode::InplaceLshift => 75,
        Opcode::InplaceRshift => 76,
        Opcode::InplaceAnd => 77,
        Opcode::InplaceXor => 78,
        Opcode::InplaceOr => 79,
        Opcode::ListToTuple => 82,
        Opcode::ReturnValue => 83,
        Opcode::ImportStar => 84,
        Opcode::SetupAnnotations => 85,
        Opcode::YieldValue => 86,
        Opcode::PopBlock => 87,
        Opcode::PopExcept => 89,
        Opcode::StoreName => 90,
        Opcode::DeleteName => 91,
        Opcode::UnpackSequence => 92,
        Opcode::ForIter => 93,
        Opcode::UnpackEx => 94,
        Opcode::StoreAttr => 95,
        Opcode::DeleteAttr => 96,
        Opcode::StoreGlobal => 97,
        Opcode::DeleteGlobal => 98,
        Opcode::RotN => 99,
        Opcode::LoadConst => 100,
        Opcode::LoadName => 101,
        Opcode::BuildTuple => 102,
        Opcode::BuildList => 103,
        Opcode::BuildSet => 104,
        Opcode::BuildMap => 105,
        Opcode::LoadAttr => 106,
        Opcode::CompareOp => 107,
        Opcode::ImportName => 108,
        Opcode::ImportFrom => 109,
        Opcode::JumpForward => 110,
        Opcode::JumpIfFalseOrPop => 111,
        Opcode::JumpIfTrueOrPop => 112,
        Opcode::JumpAbsolute => 113,
        Opcode::PopJumpIfFalse => 114,
        Opcode::PopJumpIfTrue => 115,
        Opcode::LoadGlobal => 116,
        Opcode::IsOp => 117,
        Opcode::ContainsOp => 118,
        Opcode::Reraise => 119,
        Opcode::JumpIfNotExcMatch => 121,
        Opcode::SetupFinally => 122,
        Opcode::LoadFast => 124,
        Opcode::StoreFast => 125,
        Opcode::DeleteFast => 126,
        Opcode::GenStart => 129,
        Opcode::RaiseVarargs => 130,
        Opcode::CallFunction => 131,
        Opcode::MakeFunction => 132,
        Opcode::BuildSlice => 133,
        Opcode::LoadClosure => 135,
        Opcode::LoadDeref => 136,
        Opcode::StoreDeref => 137,
        Opcode::DeleteDeref => 138,
        Opcode::CallFunctionKw => 141,
        Opcode::CallFunctionEx => 142,
        Opcode::SetupWith => 143,
        Opcode::ExtendedArg => 144,
        Opcode::ListAppend => 145,
        Opcode::SetAdd => 146,
        Opcode::MapAdd => 147,
        Opcode::LoadClassderef => 148,
        Opcode::MatchClass => 152,
        Opcode::SetupAsyncWith => 154,
        Opcode::FormatValue => 155,
        Opcode::BuildConstKeyMap => 156,
        Opcode::BuildString => 157,
        Opcode::LoadMethod => 160,
        Opcode::CallMethod => 161,
        Opcode::ListExtend => 162,
        Opcode::SetUpdate => 163,
        Opcode::DictMerge => 164,
        Opcode::DictUpdate => 165,
        Opcode::Unknown(b) => b,
    }
}

/// Whether some defined opcode is written as `b`.
pub open spec fn is_defined_byte(b: u8) -> bool {
    exists|op: Opcode| !(op is Unknown) && opcode_byte(op) == b
}

/// The opcode that the byte `b` stands for.
pub open spec fn opcode_of(b: u8) -> Opcode {
    if is_defined_byte(b) {
        choose|op: Opcode| !(op is Unknown) && opcode_byte(op) == b
    } else {
        Opcode::Unknown(b)
    }
}

/// No two opcodes share a byte.
pub proof fn lemma_opcode_byte_injective(a: Opcode, b: Opcode)
    requires
        opcode_byte(a) == opcode_byte(b),
        (a is Unknown) == (b is Unknown),
    ensures
        a == b,
{
}

/// `opcode_of` names the one opcode written as `b`.
pub proof fn lemma_opcode_of(b: u8)
    ensures
        opcode_byte(opcode_of(b)) == b,
        opcode_of(b) is Unknown <==> !is_defined_byte(b),
{
    if is_defined_byte(b) {
        let op = choose|op: Opcode| !(op is Unknown) && opcode_byte(op) == b;
        assert(!(op is Unknown) && opcode_byte(op) == b);
    }
}

/// Reading back the byte of a defined opcode gives that opcode.
pub proof fn lemma_byte_names_opcode(op: Opcode)
    requires
        !(op is Unknown),
    ensures
        opcode_of(opcode_byte(op)) == op,
{
    let b = opcode_byte(op);
    assert(!(op is Unknown) && opcode_byte(op) == b);
    lemma_opcode_of(b);
    lemma_opcode_byte_injective(op, opcode_of(b));
}

impl Opcode {
    /// The opcode that `b` stands for, `Unknown(b)` where none does.
    pub fn from_byte(b: u8) -> (r: Opcode)
        ensures
            r == opcode_of(b),
    {
        let r = match b {
            1 => Opcode::PopTop,
            2 => Opcode::RotTwo,
            3 => Opcode::RotThree,
            4 => Opcode::DupTop,
            5 => Opcode::DupTopTwo,
            6 => Opcode::RotFour,
            9 => Opcode::Nop,
            10 => Opcode::UnaryPositive,
            11 => Opcode::UnaryNegative,
            12 => Opcode::UnaryNot,
            15 => Opcode::UnaryInvert,
            16 => Opcode::BinaryMatrixMultiply,
            17 => Opcode::InplaceMatrixMultiply,
            19 => Opcode::BinaryPower,
            20 => Opcode::BinaryMultiply,
            22 => Opcode::BinaryModulo,
            23 => Opcode::BinaryAdd,
            24 => Opcode::BinarySubtract,
            25 => Opcode::BinarySubscr,
            26 => Opcode::BinaryFloorDivide,
            27 => Opcode::BinaryTrueDivide,
            28 => Opcode::InplaceFloorDivide,
            29 => Opcode::InplaceTrueDivide,
            30 => Opcode::GetLen,
            31 => Opcode::MatchMapping,
            32 => Opcode::MatchSequence,
            33 => Opcode::MatchKeys,
            34 => Opcode::CopyDictWithoutKeys,
            49 => Opcode::WithExceptStart,
            50 => Opcode::GetAiter,
            51 => Opcode::GetAnext,
            52 => Opcode::BeforeAsyncWith,
            54 => Opcode::EndAsyncFor,
            55 => Opcode::InplaceAdd,
            56 => Opcode::InplaceSubtract,
            57 => Opcode::InplaceMultiply,
            59 => Opcode::InplaceModulo,
            60 => Opcode::StoreSubscr,
            61 => Opcode::DeleteSubscr,
            62 => Opcode::BinaryLshift,
            63 => Opcode::BinaryRshift,
            64 => Opcode::BinaryAnd,
            65 => Opcode::BinaryXor,
            66 => Opcode::BinaryOr,
            67 => Opcode::InplacePower,
            68 => Opcode::GetIter,
            69 => Opcode::GetYieldFromIter,
            70 => Opcode::PrintExpr,
            71 => Opcode::LoadBuildClass,
            72 => Opcode::YieldFrom,
            73 => Opcode::GetAwaitable,
            74 => Opcode::LoadAssertionError,
            75 => Opcode::InplaceLshift,
            76 => Opcode::InplaceRshift,
            77 => Opcode::InplaceAnd,
            78 => Opcode::InplaceXor,
            79 => Opcode::InplaceOr,
            82 => Opcode::ListToTuple,
            83 => Opcode::ReturnValue,
            84 => Opcode::ImportStar,
            85 => Opcode::SetupAnnotations,
            86 => Opcode::YieldValue,
            87 => Opcode::PopBlock,
            89 => Opcode::PopExcept,
            90 => Opcode::StoreName,
            91 => Opcode::DeleteName,
            92 => Opcode::UnpackSequence,
            93 => Opcode::ForIter,
            94 => Opcode::UnpackEx,
            95 => Opcode::StoreAttr,
            96 => Opcode::DeleteAttr,
            97 => Opcode::StoreGlobal,
            98 => Opcode::DeleteGlobal,
            99 => Opcode::RotN,
            100 => Opcode::LoadConst,
            101 => Opcode::LoadName,
            102 => Opcode::BuildTuple,
            103 => Opcode::BuildList,
            104 => Opcode::BuildSet,
            105 => Opcode::BuildMap,
            106 => Opcode::LoadAttr,
            107 => Opcode::CompareOp,
            108 => Opcode::ImportName,
            109 => Opcode::ImportFrom,
            110 => Opcode::JumpForward,
            111 => Opcode::JumpIfFalseOrPop,
            112 => Opcode::JumpIfTrueOrPop,
            113 => Opcode::JumpAbsolute,
            114 => Opcode::PopJumpIfFalse,
            115 => Opcode::PopJumpIfTrue,
            116 => Opcode::LoadGlobal,
            117 => Opcode::IsOp,
            118 => Opcode::ContainsOp,
            119 => Opcode::Reraise,
            121 => Opcode::JumpIfNotExcMatch,
            122 => Opcode::SetupFinally,
            124 => Opcode::LoadFast,
            125 => Opcode::StoreFast,
            126 => Opcode::DeleteFast,
            129 => Opcode::GenStart,
            130 => Opcode::RaiseVarargs,
            131 => Opcode::CallFunction,
            132 => Opcode::MakeFunction,
            133 => Opcode::BuildSlice,
            135 => Opcode::LoadClosure,
            136 => Opcode::LoadDeref,
            137 => Opcode::StoreDeref,
            138 => Opcode::DeleteDeref,
            141 => Opcode::CallFunctionKw,
            142 => Opcode::CallFunctionEx,
            143 => Opcode::SetupWith,
            144 => Opcode::ExtendedArg,
            145 => Opcode::ListAppend,
            146 => Opcode::SetAdd,
            147 => Opcode::MapAdd,
            148 => Opcode::LoadClassderef,
            152 => Opcode::MatchClass,
            154 => Opcode::SetupAsyncWith,
            155 => Opcode::FormatValue,
            156 => Opcode::BuildConstKeyMap,
            157 => Opcode::BuildString,
            160 => Opcode::LoadMethod,
            161 => Opcode::CallMethod,
            162 => Opcode::ListExtend,
            163 => Opcode::SetUpdate,
            164 => Opcode::DictMerge,
            165 => Opcode::DictUpdate,
            _ => Opcode::Unknown(b),
        };
        proof {
            if !(r is Unknown) {
                assert(!(r is Unknown) && opcode_byte(r) == b);
            } else {
                assert forall|op: Opcode| !(op is Unknown) implies opcode_byte(op) != b by {}
            }
            lemma_opcode_of(b);
            lemma_opcode_byte_injective(r, opcode_of(b));
        }
        r
    }

    /// The byte that stands for this opcode.
    pub fn byte(&self) -> (r: u8)
        ensures
            r == opcode_byte(*self),
    {
        match self {
            Opcode::PopTop => 1,
            Opcode::RotTwo => 2,
            Opcode::RotThree => 3,
            Opcode::DupTop => 4,
            Opcode::DupTopTwo => 5,
            Opcode::RotFour => 6,
            Opcode::Nop => 9,
            Opcode::UnaryPositive => 10,
            Opcode::UnaryNegative => 11,
            Opcode::UnaryNot => 12,
            Opcode::UnaryInvert => 15,
            Opcode::BinaryMatrixMultiply => 16,
            Opcode::InplaceMatrixMultiply => 17,
            Opcode::BinaryPower => 19,
            Opcode::BinaryMultiply => 20,
            Opcode::BinaryModulo => 22,
            Opcode::BinaryAdd => 23,
            Opcode::BinarySubtract => 24,
            Opcode::BinarySubscr => 25,
            Opcode::BinaryFloorDivide => 26,
            Opcode::BinaryTrueDivide => 27,
            Opcode::InplaceFloorDivide => 28,
            Opcode::InplaceTrueDivide => 29,
            Opcode::GetLen => 30,
            Opcode::MatchMapping => 31,
            Opcode::MatchSequence => 32,
            Opcode::MatchKeys => 33,
            Opcode::CopyDictWithoutKeys => 34,
            Opcode::WithExceptStart => 49,
            Opcode::GetAiter => 50,
            Opcode::GetAnext => 51,
            Opcode::BeforeAsyncWith => 52,
            Opcode::EndAsyncFor => 54,
            Opcode::InplaceAdd => 55,
            Opcode::InplaceSubtract => 56,
            Opcode::InplaceMultiply => 57,
            Opcode::InplaceModulo => 59,
            Opcode::StoreSubscr => 60,
            Opcode::DeleteSubscr => 61,
            Opcode::BinaryLshift => 62,
            Opcode::BinaryRshift => 63,
            Opcode::BinaryAnd => 64,
            Opcode::BinaryXor => 65,
            Opcode::BinaryOr => 66,
            Opcode::InplacePower => 67,
            Opcode::GetIter => 68,
            Opcode::GetYieldFromIter => 69,
            Opcode::PrintExpr => 70,
            Opcode::LoadBuildClass => 71,
            Opcode::YieldFrom => 72,
            Opcode::GetAwaitable => 73,
            Opcode::LoadAssertionError => 74,
            Opcode::InplaceLshift => 75,
            Opcode::InplaceRshift => 76,
            Opcode::InplaceAnd => 77,
            Opcode::InplaceXor => 78,
            Opcode::InplaceOr => 79,
            Opcode::ListToTuple => 82,
            Opcode::ReturnValue => 83,
            Opcode::ImportStar => 84,
            Opcode::SetupAnnotations => 85,
            Opcode::YieldValue => 86,
            Opcode::PopBlock => 87,
            Opcode::PopExcept => 89,
            Opcode::StoreName => 90,
            Opcode::DeleteName => 91,
            Opcode::UnpackSequence => 92,
            Opcode::ForIter => 93,
            Opcode::UnpackEx => 94,
            Opcode::StoreAttr => 95,
            Opcode::DeleteAttr => 96,
            Opcode::StoreGlobal => 97,
            Opcode::DeleteGlobal => 98,
            Opcode::RotN => 99,
            Opcode::LoadConst => 100,
            Opcode::LoadName => 101,
            Opcode::BuildTuple => 102,
            Opcode::BuildList => 103,
            Opcode::BuildSet => 104,
            Opcode::BuildMap => 105,
            Opcode::LoadAttr => 106,
            Opcode::CompareOp => 107,
            Opcode::ImportName => 108,
            Opcode::ImportFrom => 109,
            Opcode::JumpForward => 110,
            Opcode::JumpIfFalseOrPop => 111,
            Opcode::JumpIfTrueOrPop => 112,
            Opcode::JumpAbsolute => 113,
            Opcode::PopJumpIfFalse => 114,
            Opcode::PopJumpIfTrue => 115,
            Opcode::LoadGlobal => 116,
            Opcode::IsOp => 117,
            Opcode::ContainsOp => 118,
            Opcode::Reraise => 119,
            Opcode::JumpIfNotExcMatch => 121,
            Opcode::SetupFinally => 122,
            Opcode::LoadFast => 124,
            Opcode::StoreFast => 125,
            Opcode::DeleteFast => 126,
            Opcode::GenStart => 129,
            Opcode::RaiseVarargs => 130,
            Opcode::CallFunction => 131,
            Opcode::MakeFunction => 132,
            Opcode::BuildSlice => 133,
            Opcode::LoadClosure => 135,
            Opcode::LoadDeref => 136,
            Opcode::StoreDeref => 137,
            Opcode::DeleteDeref => 138,
            Opcode::CallFunctionKw => 141,
            Opcode::CallFunctionEx => 142,
            Opcode::SetupWith => 143,
            Opcode::ExtendedArg => 144,
            Opcode::ListAppend => 145,
            Opcode::SetAdd => 146,
            Opcode::MapAdd => 147,
            Opcode::LoadClassderef => 148,
            Opcode::MatchClass => 152,
            Opcode::SetupAsyncWith => 154,
            Opcode::FormatValue => 155,
            Opcode::BuildConstKeyMap => 156,
            Opcode::BuildString => 157,
            Opcode::LoadMethod => 160,
            Opcode::CallMethod => 161,
            Opcode::ListExtend => 162,
            Opcode::SetUpdate => 163,
            Opcode::DictMerge => 164,
            Opcode::DictUpdate => 165,
            Opcode::Unknown(b) => *b,
        }
    }
}

} // verus!
