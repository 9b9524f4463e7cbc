use vstd::prelude::*;

verus! {

/// The five instruction layouts of a 32-bit code word.
#[derive(Debug, Clone, Copy, PartialEq, Eq, Structural)]
pub enum OpMode {
    IABC,
    IABx,
    IAsBx,
    IAx,
    ISJ,
}

/// How an instruction uses its B or C field.
#[derive(Debug, Clone, Copy, PartialEq, Eq, Structural)]
pub enum OpArg {
    /// The field is not used.
    OpArgN,
    /// The field is an immediate or a count.
    OpArgU,
    /// The field names a register.
    OpArgR,
    /// The field names a constant.
    OpArgK,
}

/// The operations of the virtual machine, in the order of their numbers.
#[derive(Debug, Clone, Copy, PartialEq, Eq, Structural)]
pub enum OpCodeEnum {
    OpMove,
    OpLOADI,
    OpLOADF,
    OpLOADK,
    OpLOADKX,
    OpLOADFALSE,
    OpLFALSESKIP,
    OpLOADTRUE,
    OpLOADNIL,
    OpGETUPVAL,
    OpSETUPVAL,
    OpGETTABUP,
    OpGETTABLE,
    OpGETI,
    OpGETFIELD,
    OpSETTABUP,
    OpSETTABLE,
    OpSETI,
    OpSETFIELD,
    OpNEWTABLE,
    OpSELF,
    OpADDI,
    OpADDK,
    OpSUBK,
    OpMULK,
    OpMODK,
    OpPOWK,
    OpDIVK,
    OpIDIVK,
    OpBANDK,
    OpBORK,
    OpBXORK,
    OpSHRI,
    OpSHLI,
    OpADD,
    OpSUB,
    OpMUL,
    OpMOD,
    OpPOW,
    OpDIV,
    OpIDIV,
    OpBAND,
    OpBOR,
    OpBXOR,
    OpSHL,
    OpSHR,
    OpMMBIN,
    OpMMBINI,
    OpMMBINK,
    OpUNM,
    OpBNOT,
    OpNOT,
    OpLEN,
    OpCONCAT,
    OpCLOSE,
    OpTBC,
    OpJMP,
    OpEQ,
    OpLT,
    OpLE,
    OpEQK,
    OpEQI,
    OpLTI,
    OpLEI,
    OpGTI,
    OpGEI,
    OpTEST,
    OpTESTSET,
    OpCALL,
    OpTAILCALL,
    OpRETURN,
    OpRETURN0,
    OpRETURN1,
    OpFORLOOP,
    OpFORPREP,
    OpTFORPREP,
    OpTFORCALL,
    OpTFORLOOP,
    OpSETLIST,
    OpCLOSURE,
    OpVARARG,
    OpVARARGPREP,
    OpEXTRAARG,
}

/// The static description of one operation.
#[derive(Debug, Clone, Copy)]
pub struct OpCode {
    /// 1 where the operation is a test that the next instruction, a jump, completes.
    pub test_flag: u8,
    /// 1 where the operation writes register A.
    pub set_a_flag: u8,
    pub arg_b_mode: OpArg,
    pub arg_c_mode: OpArg,
    pub op_mode: OpMode,
    pub name: &'static str,
}

/// The number of operations; every 7-bit opcode below it is recognized.
pub const OP_CODE_COUNT: usize = 83;

impl OpCodeEnum {
    /// The number of the operation in a code word.
    pub open spec fn spec_index(self) -> int {
        match self {
            OpCodeEnum::OpMove => 0,
            OpCodeEnum::OpLOADI => 1,
            OpCodeEnum::OpLOADF => 2,
            OpCodeEnum::OpLOADK => 3,
            OpCodeEnum::OpLOADKX => 4,
            OpCodeEnum::OpLOADFALSE => 5,
            OpCodeEnum::OpLFALSESKIP => 6,
            OpCodeEnum::OpLOADTRUE => 7,
            OpCodeEnum::OpLOADNIL => 8,
            OpCodeEnum::OpGETUPVAL => 9,
            OpCodeEnum::OpSETUPVAL => 10,
            OpCodeEnum::OpGETTABUP => 11,
            OpCodeEnum::OpGETTABLE => 12,
            OpCodeEnum::OpGETI => 13,
            OpCodeEnum::OpGETFIELD => 14,
            OpCodeEnum::OpSETTABUP => 15,
            OpCodeEnum::OpSETTABLE => 16,
            OpCodeEnum::OpSETI => 17,
            OpCodeEnum::OpSETFIELD => 18,
            OpCodeEnum::OpNEWTABLE => 19,
            OpCodeEnum::OpSELF => 20,
            OpCodeEnum::OpADDI => 21,
            OpCodeEnum::OpADDK => 22,
            OpCodeEnum::OpSUBK => 23,
            OpCodeEnum::OpMULK => 24,
            OpCodeEnum::OpMODK => 25,
            OpCodeEnum::OpPOWK => 26,
            OpCodeEnum::OpDIVK => 27,
            OpCodeEnum::OpIDIVK => 28,
            OpCodeEnum::OpBANDK => 29,
            OpCodeEnum::OpBORK => 30,
            OpCodeEnum::OpBXORK => 31,
            OpCodeEnum::OpSHRI => 32,
            OpCodeEnum::OpSHLI => 33,
            OpCodeEnum::OpADD => 34,
            OpCodeEnum::OpSUB => 35,
            OpCodeEnum::OpMUL => 36,
            OpCodeEnum::OpMOD => 37,
            OpCodeEnum::OpPOW => 38,
            OpCodeEnum::OpDIV => 39,
            OpCodeEnum::OpIDIV => 40,
            OpCodeEnum::OpBAND => 41,
            OpCodeEnum::OpBOR => 42,
            OpCodeEnum::OpBXOR => 43,
            OpCodeEnum::OpSHL => 44,
            OpCodeEnum::OpSHR => 45,
            OpCodeEnum::OpMMBIN => 46,
            OpCodeEnum::OpMMBINI => 47,
            OpCodeEnum::OpMMBINK => 48,
            OpCodeEnum::OpUNM => 49,
            OpCodeEnum::OpBNOT => 50,
            OpCodeEnum::OpNOT => 51,
            OpCodeEnum::OpLEN => 52,
            OpCodeEnum::OpCONCAT => 53,
            OpCodeEnum::OpCLOSE => 54,
            OpCodeEnum::OpTBC => 55,
            OpCodeEnum::OpJMP => 56,
            OpCodeEnum::OpEQ => 57,
            OpCodeEnum::OpLT => 58,
            OpCodeEnum::OpLE => 59,
            OpCodeEnum::OpEQK => 60,
            OpCodeEnum::OpEQI => 61,
            OpCodeEnum::OpLTI => 62,
            OpCodeEnum::OpLEI => 63,
            OpCodeEnum::OpGTI => 64,
            OpCodeEnum::OpGEI => 65,
            OpCodeEnum::OpTEST => 66,
            OpCodeEnum::OpTESTSET => 67,
            OpCodeEnum::OpCALL => 68,
            OpCodeEnum::OpTAILCALL => 69,
            OpCodeEnum::OpRETURN => 70,
            OpCodeEnum::OpRETURN0 => 71,
            OpCodeEnum::OpRETURN1 => 72,
            OpCodeEnum::OpFORLOOP => 73,
            OpCodeEnum::OpFORPREP => 74,
            OpCodeEnum::OpTFORPREP => 75,
            OpCodeEnum::OpTFORCALL => 76,
            OpCodeEnum::OpTFORLOOP => 77,
            OpCodeEnum::OpSETLIST => 78,
            OpCodeEnum::OpCLOSURE => 79,
            OpCodeEnum::OpVARARG => 80,
            OpCodeEnum::OpVARARGPREP => 81,
            OpCodeEnum::OpEXTRAARG => 82,
        }
    }

    /// The layout of the code words of the operation.
    pub open spec fn spec_mode(self) -> OpMode {
        match self {
            OpCodeEnum::OpLOADI
            | OpCodeEnum::OpLOADF => OpMode::IAsBx,
            OpCodeEnum::OpLOADK
            | OpCodeEnum::OpLOADKX
            | OpCodeEnum::OpFORLOOP
            | OpCodeEnum::OpFORPREP
            | OpCodeEnum::OpTFORPREP
            | OpCodeEnum::OpTFORLOOP
            | OpCodeEnum::OpCLOSURE => OpMode::IABx,
            OpCodeEnum::OpEXTRAARG => OpMode::IAx,
            OpCodeEnum::OpJMP => OpMode::ISJ,
            _ => OpMode::IABC,
        }
    }

    /// The printed name of the operation.
    pub open spec fn spec_name(self) -> &'static str {
        match self {
            OpCodeEnum::OpMove => "MOVE",
            OpCodeEnum::OpLOADI => "LOADI",
            OpCodeEnum::OpLOADF => "LOADF",
            OpCodeEnum::OpLOADK => "LOADK",
            OpCodeEnum::OpLOADKX => "LOADKX",
            OpCodeEnum::OpLOADFALSE => "LOADFALSE",
            OpCodeEnum::OpLFALSESKIP => "LFALSESKIP",
            OpCodeEnum::OpLOADTRUE => "LOADTRUE",
            OpCodeEnum::OpLOADNIL => "LOADNIL",
            OpCodeEnum::OpGETUPVAL => "GETUPVAL",
            OpCodeEnum::OpSETUPVAL => "SETUPVAL",
            OpCodeEnum::OpGETTABUP => "GETTABUP",
            OpCodeEnum::OpGETTABLE => "GETTABLE",
            OpCodeEnum::OpGETI => "GETI",
            OpCodeEnum::OpGETFIELD => "GETFIELD",
            OpCodeEnum::OpSETTABUP => "SETTABUP",
            OpCodeEnum::OpSETTABLE => "SETTABLE",
            OpCodeEnum::OpSETI => "SETI",
            OpCodeEnum::OpSETFIELD => "SETFIELD",
            OpCodeEnum::OpNEWTABLE => "NEWTABLE",
            OpCodeEnum::OpSELF => "SELF",
            OpCodeEnum::OpADDI => "ADDI",
            OpCodeEnum::OpADDK => "ADDK",
            OpCodeEnum::OpSUBK => "SUBK",
            OpCodeEnum::OpMULK => "MULK",
            OpCodeEnum::OpMODK => "MODK",
            OpCodeEnum::OpPOWK => "POWK",
            OpCodeEnum::OpDIVK => "DIVK",
            OpCodeEnum::OpIDIVK => "IDIVK",
            OpCodeEnum::OpBANDK => "BANDK",
            OpCodeEnum::OpBORK => "BORK",
            OpCodeEnum::OpBXORK => "BXORK",
            OpCodeEnum::OpSHRI => "SHRI",
            OpCodeEnum::OpSHLI => "SHLI",
            OpCodeEnum::OpADD => "ADD",
            OpCodeEnum::OpSUB => "SUB",
            OpCodeEnum::OpMUL => "MUL",
            OpCodeEnum::OpMOD => "MOD",
            OpCodeEnum::OpPOW => "POW",
            OpCodeEnum::OpDIV => "DIV",
            OpCodeEnum::OpIDIV => "IDIV",
            OpCodeEnum::OpBAND => "BAND",
            OpCodeEnum::OpBOR => "BOR",
            OpCodeEnum::OpBXOR => "BXOR",
            OpCodeEnum::OpSHL => "SHL",
            OpCodeEnum::OpSHR => "SHR",
            OpCodeEnum::OpMMBIN => "MMBIN",
            OpCodeEnum::OpMMBINI => "MMBINI",
            OpCodeEnum::OpMMBINK => "MMBINK",
            OpCodeEnum::OpUNM => "UNM",
            OpCodeEnum::OpBNOT => "BNOT",
            OpCodeEnum::OpNOT => "NOT",
            OpCodeEnum::OpLEN => "LEN",
            OpCodeEnum::OpCONCAT => "CONCAT",
            OpCodeEnum::OpCLOSE => "CLOSE",
            OpCodeEnum::OpTBC => "TBC",
            OpCodeEnum::OpJMP => "JMP",
            OpCodeEnum::OpEQ => "EQ",
            OpCodeEnum::OpLT => "LT",
            OpCodeEnum::OpLE => "LE",
            OpCodeEnum::OpEQK => "EQK",
            OpCodeEnum::OpEQI => "EQI",
            OpCodeEnum::OpLTI => "LTI",
            OpCodeEnum::OpLEI => "LEI",
            OpCodeEnum::OpGTI => "GTI",
            OpCodeEnum::OpGEI => "GEI",
            OpCodeEnum::OpTEST => "TEST",
            OpCodeEnum::OpTESTSET => "TESTSET",
            OpCodeEnum::OpCALL => "CALL",
            OpCodeEnum::OpTAILCALL => "TAILCALL",
            OpCodeEnum::OpRETURN => "RETURN",
            OpCodeEnum::OpRETURN0 => "RETURN0",
            OpCodeEnum::OpRETURN1 => "RETURN1",
            OpCodeEnum::OpFORLOOP => "FORLOOP",
            OpCodeEnum::OpFORPREP => "FORPREP",
            OpCodeEnum::OpTFORPREP => "TFORPREP",
            OpCodeEnum::OpTFORCALL => "TFORCALL",
            OpCodeEnum::OpTFORLOOP => "TFORLOOP",
            OpCodeEnum::OpSETLIST => "SETLIST",
            OpCodeEnum::OpCLOSURE => "CLOSURE",
            OpCodeEnum::OpVARARG => "VARARG",
            OpCodeEnum::OpVARARGPREP => "VARARGPREP",
            OpCodeEnum::OpEXTRAARG => "EXTRAARG",
        }
    }

    /// How the operation uses its B field.
    pub open spec fn spec_arg_b(self) -> OpArg {
        match self {
            OpCodeEnum::OpLOADKX
            | OpCodeEnum::OpLOADFALSE
            | OpCodeEnum::OpLFALSESKIP
            | OpCodeEnum::OpLOADTRUE
            | OpCodeEnum::OpCONCAT
            | OpCodeEnum::OpCLOSE
            | OpCodeEnum::OpTBC
            | OpCodeEnum::OpJMP
            | OpCodeEnum::OpTEST
            | OpCodeEnum::OpRETURN0
            | OpCodeEnum::OpRETURN1
            | OpCodeEnum::OpTFORCALL
            | OpCodeEnum::OpVARARG
            | OpCodeEnum::OpVARARGPREP => OpArg::OpArgN,
            OpCodeEnum::OpLOADI
            | OpCodeEnum::OpLOADF
            | OpCodeEnum::OpLOADNIL
            | OpCodeEnum::OpGETUPVAL
            | OpCodeEnum::OpSETUPVAL
            | OpCodeEnum::OpGETTABUP
            | OpCodeEnum::OpSETI
            | OpCodeEnum::OpNEWTABLE
            | OpCodeEnum::OpMMBINI
            | OpCodeEnum::OpEQI
            | OpCodeEnum::OpLTI
            | OpCodeEnum::OpLEI
            | OpCodeEnum::OpGTI
            | OpCodeEnum::OpGEI
            | OpCodeEnum::OpCALL
            | OpCodeEnum::OpTAILCALL
            | OpCodeEnum::OpRETURN
            | OpCodeEnum::OpFORLOOP
            | OpCodeEnum::OpFORPREP
            | OpCodeEnum::OpTFORPREP
            | OpCodeEnum::OpTFORLOOP
            | OpCodeEnum::OpSETLIST
            | OpCodeEnum::OpCLOSURE
            | OpCodeEnum::OpEXTRAARG => OpArg::OpArgU,
            OpCodeEnum::OpLOADK
            | OpCodeEnum::OpSETTABUP
            | OpCodeEnum::OpSETFIELD
            | OpCodeEnum::OpMMBINK
            | OpCodeEnum::OpEQK => OpArg::OpArgK,
            _ => OpArg::OpArgR,
        }
    }

    /// How the operation uses its C field.
    pub open spec fn spec_arg_c(self) -> OpArg {
        match self {
            OpCodeEnum::OpGETI
            | OpCodeEnum::OpNEWTABLE
            | OpCodeEnum::OpADDI
            | OpCodeEnum::OpSHRI
            | OpCodeEnum::OpSHLI
            | OpCodeEnum::OpMMBIN
            | OpCodeEnum::OpMMBINI
            | OpCodeEnum::OpMMBINK
            | OpCodeEnum::OpCONCAT
            | OpCodeEnum::OpEQI
            | OpCodeEnum::OpLTI
            | OpCodeEnum::OpLEI
            | OpCodeEnum::OpGTI
            | OpCodeEnum::OpGEI
            | OpCodeEnum::OpCALL
            | OpCodeEnum::OpTAILCALL
            | OpCodeEnum::OpRETURN
            | OpCodeEnum::OpTFORCALL
            | OpCodeEnum::OpSETLIST
            | OpCodeEnum::OpVARARG
            | OpCodeEnum::OpEXTRAARG => OpArg::OpArgU,
            OpCodeEnum::OpGETTABLE
            | OpCodeEnum::OpADD
            | OpCodeEnum::OpSUB
            | OpCodeEnum::OpMUL
            | OpCodeEnum::OpMOD
            | OpCodeEnum::OpPOW
            | OpCodeEnum::OpDIV
            | OpCodeEnum::OpIDIV
            | OpCodeEnum::OpBAND
            | OpCodeEnum::OpBOR
            | OpCodeEnum::OpBXOR
            | OpCodeEnum::OpSHL
            | OpCodeEnum::OpSHR => OpArg::OpArgR,
            OpCodeEnum::OpGETTABUP
            | OpCodeEnum::OpGETFIELD
            | OpCodeEnum::OpSETTABUP
            | OpCodeEnum::OpSETTABLE
            | OpCodeEnum::OpSETI
            | OpCodeEnum::OpSETFIELD
            | OpCodeEnum::OpSELF
            | OpCodeEnum::OpADDK
            | OpCodeEnum::OpSUBK
            | OpCodeEnum::OpMULK
            | OpCodeEnum::OpMODK
            | OpCodeEnum::OpPOWK
            | OpCodeEnum::OpDIVK
            | OpCodeEnum::OpIDIVK
            | OpCodeEnum::OpBANDK
            | OpCodeEnum::OpBORK
            | OpCodeEnum::OpBXORK => OpArg::OpArgK,
            _ => OpArg::OpArgN,
        }
    }

    /// Whether the operation is a test.
    pub open spec fn spec_is_test(self) -> bool {
        match self {
            OpCodeEnum::OpEQ
            | OpCodeEnum::OpLT
            | OpCodeEnum::OpLE
            | OpCodeEnum::OpEQK
            | OpCodeEnum::OpEQI
            | OpCodeEnum::OpLTI
            | OpCodeEnum::OpLEI
            | OpCodeEnum::OpGTI
            | OpCodeEnum::OpGEI
            | OpCodeEnum::OpTEST
            | OpCodeEnum::OpTESTSET => true,
            _ => false,
        }
    }

    /// Whether the operation writes register A.
    pub open spec fn spec_sets_a(self) -> bool {
        match self {
            OpCodeEnum::OpSETUPVAL
            | OpCodeEnum::OpSETTABUP
            | OpCodeEnum::OpSETTABLE
            | OpCodeEnum::OpSETI
            | OpCodeEnum::OpSETFIELD
            | OpCodeEnum::OpMMBIN
            | OpCodeEnum::OpMMBINI
            | OpCodeEnum::OpMMBINK
            | OpCodeEnum::OpCLOSE
            | OpCodeEnum::OpTBC
            | OpCodeEnum::OpJMP
            | OpCodeEnum::OpEQ
            | OpCodeEnum::OpLT
            | OpCodeEnum::OpLE
            | OpCodeEnum::OpEQK
            | OpCodeEnum::OpEQI
            | OpCodeEnum::OpLTI
            | OpCodeEnum::OpLEI
            | OpCodeEnum::OpGTI
            | OpCodeEnum::OpGEI
            | OpCodeEnum::OpTEST
            | OpCodeEnum::OpRETURN
            | OpCodeEnum::OpRETURN0
            | OpCodeEnum::OpRETURN1
            | OpCodeEnum::OpTFORPREP
            | OpCodeEnum::OpTFORCALL
            | OpCodeEnum::OpSETLIST
            | OpCodeEnum::OpEXTRAARG => false,
            _ => true,
        }
    }

    /// The whole table entry of the operation.
    pub open spec fn spec_info(self) -> OpCode {
        OpCode {
            test_flag: if self.spec_is_test() { 1u8 } else { 0u8 },
            set_a_flag: if self.spec_sets_a() { 1u8 } else { 0u8 },
            arg_b_mode: self.spec_arg_b(),
            arg_c_mode: self.spec_arg_c(),
            op_mode: self.spec_mode(),
            name: self.spec_name(),
        }
    }

    /// The operation with the given number, if there is one.
    pub open spec fn spec_from_index(index: int) -> Option<OpCodeEnum> {
        if 0 <= index < 83 {
            Some(choose|op: OpCodeEnum| op.spec_index() == index)
        } else {
            None
        }
    }

    pub fn index(self) -> (r: usize)
        ensures
            r == self.spec_index(),
            r < OP_CODE_COUNT,
    {
        match self {
            OpCodeEnum::OpMove => 0,
            OpCodeEnum::OpLOADI => 1,
            OpCodeEnum::OpLOADF => 2,
            OpCodeEnum::OpLOADK => 3,
            OpCodeEnum::OpLOADKX => 4,
            OpCodeEnum::OpLOADFALSE => 5,
            OpCodeEnum::OpLFALSESKIP => 6,
            OpCodeEnum::OpLOADTRUE => 7,
            OpCodeEnum::OpLOADNIL => 8,
            OpCodeEnum::OpGETUPVAL => 9,
            OpCodeEnum::OpSETUPVAL => 10,
            OpCodeEnum::OpGETTABUP => 11,
            OpCodeEnum::OpGETTABLE => 12,
            OpCodeEnum::OpGETI => 13,
            OpCodeEnum::OpGETFIELD => 14,
            OpCodeEnum::OpSETTABUP => 15,
            OpCodeEnum::OpSETTABLE => 16,
            OpCodeEnum::OpSETI => 17,
            OpCodeEnum::OpSETFIELD => 18,
            OpCodeEnum::OpNEWTABLE => 19,
            OpCodeEnum::OpSELF => 20,
            OpCodeEnum::OpADDI => 21,
            OpCodeEnum::OpADDK => 22,
            OpCodeEnum::OpSUBK => 23,
            OpCodeEnum::OpMULK => 24,
            OpCodeEnum::OpMODK => 25,
            OpCodeEnum::OpPOWK => 26,
            OpCodeEnum::OpDIVK => 27,
            OpCodeEnum::OpIDIVK => 28,
            OpCodeEnum::OpBANDK => 29,
            OpCodeEnum::OpBORK => 30,
            OpCodeEnum::OpBXORK => 31,
            OpCodeEnum::OpSHRI => 32,
            OpCodeEnum::OpSHLI => 33,
            OpCodeEnum::OpADD => 34,
            OpCodeEnum::OpSUB => 35,
            OpCodeEnum::OpMUL => 36,
            OpCodeEnum::OpMOD => 37,
            OpCodeEnum::OpPOW => 38,
            OpCodeEnum::OpDIV => 39,
            OpCodeEnum::OpIDIV => 40,
            OpCodeEnum::OpBAND => 41,
            OpCodeEnum::OpBOR => 42,
            OpCodeEnum::OpBXOR => 43,
            OpCodeEnum::OpSHL => 44,
            OpCodeEnum::OpSHR => 45,
            OpCodeEnum::OpMMBIN => 46,
            OpCodeEnum::OpMMBINI => 47,
            OpCodeEnum::OpMMBINK => 48,
            OpCodeEnum::OpUNM => 49,
            OpCodeEnum::OpBNOT => 50,
            OpCodeEnum::OpNOT => 51,
            OpCodeEnum::OpLEN => 52,
            OpCodeEnum::OpCONCAT => 53,
            OpCodeEnum::OpCLOSE => 54,
            OpCodeEnum::OpTBC => 55,
            OpCodeEnum::OpJMP => 56,
            OpCodeEnum::OpEQ => 57,
            OpCodeEnum::OpLT => 58,
            OpCodeEnum::OpLE => 59,
            OpCodeEnum::OpEQK => 60,
            OpCodeEnum::OpEQI => 61,
            OpCodeEnum::OpLTI => 62,
            OpCodeEnum::OpLEI => 63,
            OpCodeEnum::OpGTI => 64,
            OpCodeEnum::OpGEI => 65,
            OpCodeEnum::OpTEST => 66,
            OpCodeEnum::OpTESTSET => 67,
            OpCodeEnum::OpCALL => 68,
            OpCodeEnum::OpTAILCALL => 69,
            OpCodeEnum::OpRETURN => 70,
            OpCodeEnum::OpRETURN0 => 71,
            OpCodeEnum::OpRETURN1 => 72,
            OpCodeEnum::OpFORLOOP => 73,
            OpCodeEnum::OpFORPREP => 74,
            OpCodeEnum::OpTFORPREP => 75,
            OpCodeEnum::OpTFORCALL => 76,
            OpCodeEnum::OpTFORLOOP => 77,
            OpCodeEnum::OpSETLIST => 78,
            OpCodeEnum::OpCLOSURE => 79,
            OpCodeEnum::OpVARARG => 80,
            OpCodeEnum::OpVARARGPREP => 81,
            OpCodeEnum::OpEXTRAARG => 82,
        }
    }

    /// Looks an operation up by its number. Numbers from 83 on name no operation.
    pub fn from_index(index: usize) -> (r: Option<OpCodeEnum>)
        ensures
            r == Self::spec_from_index(index as int),
            index < OP_CODE_COUNT <==> r.is_some(),
            r.is_some() ==> r.unwrap().spec_index() == index,
    {
        let r = match index {
            0 => Some(OpCodeEnum::OpMove),
            1 => Some(OpCodeEnum::OpLOADI),
            2 => Some(OpCodeEnum::OpLOADF),
            3 => Some(OpCodeEnum::OpLOADK),
            4 => Some(OpCodeEnum::OpLOADKX),
            5 => Some(OpCodeEnum::OpLOADFALSE),
            6 => Some(OpCodeEnum::OpLFALSESKIP),
            7 => Some(OpCodeEnum::OpLOADTRUE),
            8 => Some(OpCodeEnum::OpLOADNIL),
            9 => Some(OpCodeEnum::OpGETUPVAL),
            10 => Some(OpCodeEnum::OpSETUPVAL),
            11 => Some(OpCodeEnum::OpGETTABUP),
            12 => Some(OpCodeEnum::OpGETTABLE),
            13 => Some(OpCodeEnum::OpGETI),
            14 => Some(OpCodeEnum::OpGETFIELD),
            15 => Some(OpCodeEnum::OpSETTABUP),
            16 => Some(OpCodeEnum::OpSETTABLE),
            17 => Some(OpCodeEnum::OpSETI),
            18 => Some(OpCodeEnum::OpSETFIELD),
            19 => Some(OpCodeEnum::OpNEWTABLE),
            20 => Some(OpCodeEnum::OpSELF),
            21 => Some(OpCodeEnum::OpADDI),
            22 => Some(OpCodeEnum::OpADDK),
            23 => Some(OpCodeEnum::OpSUBK),
            24 => Some(OpCodeEnum::OpMULK),
            25 => Some(OpCodeEnum::OpMODK),
            26 => Some(OpCodeEnum::OpPOWK),
            27 => Some(OpCodeEnum::OpDIVK),
            28 => Some(OpCodeEnum::OpIDIVK),
            29 => Some(OpCodeEnum::OpBANDK),
            30 => Some(OpCodeEnum::OpBORK),
            31 => Some(OpCodeEnum::OpBXORK),
            32 => Some(OpCodeEnum::OpSHRI),
            33 => Some(OpCodeEnum::OpSHLI),
            34 => Some(OpCodeEnum::OpADD),
            35 => Some(OpCodeEnum::OpSUB),
            36 => Some(OpCodeEnum::OpMUL),
            37 => Some(OpCodeEnum::OpMOD),
            38 => Some(OpCodeEnum::OpPOW),
            39 => Some(OpCodeEnum::OpDIV),
            40 => Some(OpCodeEnum::OpIDIV),
            41 => Some(OpCodeEnum::OpBAND),
            42 => Some(OpCodeEnum::OpBOR),
            43 => Some(OpCodeEnum::OpBXOR),
            44 => Some(OpCodeEnum::OpSHL),
            45 => Some(OpCodeEnum::OpSHR),
            46 => Some(OpCodeEnum::OpMMBIN),
            47 => Some(OpCodeEnum::OpMMBINI),
            48 => Some(OpCodeEnum::OpMMBINK),
            49 => Some(OpCodeEnum::OpUNM),
            50 => Some(OpCodeEnum::OpBNOT),
            51 => Some(OpCodeEnum::OpNOT),
            52 => Some(OpCodeEnum::OpLEN),
            53 => Some(OpCodeEnum::OpCONCAT),
            54 => Some(OpCodeEnum::OpCLOSE),
            55 => Some(OpCodeEnum::OpTBC),
            56 => Some(OpCodeEnum::OpJMP),
            57 => Some(OpCodeEnum::OpEQ),
            58 => Some(OpCodeEnum::OpLT),
            59 => Some(OpCodeEnum::OpLE),
            60 => Some(OpCodeEnum::OpEQK),
            61 => Some(OpCodeEnum::OpEQI),
            62 => Some(OpCodeEnum::OpLTI),
            63 => Some(OpCodeEnum::OpLEI),
            64 => Some(OpCodeEnum::OpGTI),
            65 => Some(OpCodeEnum::OpGEI),
            66 => Some(OpCodeEnum::OpTEST),
            67 => Some(OpCodeEnum::OpTESTSET),
            68 => Some(OpCodeEnum::OpCALL),
            69 => Some(OpCodeEnum::OpTAILCALL),
            70 => Some(OpCodeEnum::OpRETURN),
            71 => Some(OpCodeEnum::OpRETURN0),
            72 => Some(OpCodeEnum::OpRETURN1),
            73 => Some(OpCodeEnum::OpFORLOOP),
            74 => Some(OpCodeEnum::OpFORPREP),
            75 => Some(OpCodeEnum::OpTFORPREP),
            76 => Some(OpCodeEnum::OpTFORCALL),
            77 => Some(OpCodeEnum::OpTFORLOOP),
            78 => Some(OpCodeEnum::OpSETLIST),
            79 => Some(OpCodeEnum::OpCLOSURE),
            80 => Some(OpCodeEnum::OpVARARG),
            81 => Some(OpCodeEnum::OpVARARGPREP),
            82 => Some(OpCodeEnum::OpEXTRAARG),
            _ => None,
        };
        proof {
            if let Some(op) = r {
                let other = choose|op: OpCodeEnum| op.spec_index() == index as int;
                assert(op.spec_index() == index as int);
                assert(other.spec_index() == index as int);
                Self::lemma_index_injective(op, other);
            }
        }
        r
    }

    /// Two operations with one number are one operation.
    pub proof fn lemma_index_injective(a: OpCodeEnum, b: OpCodeEnum)
        requires
            a.spec_index() == b.spec_index(),
        ensures
            a == b,
    {
    }

    pub fn op_mode(self) -> (r: OpMode)
        ensures
            r == self.spec_mode(),
    {
        match self {
            OpCodeEnum::OpLOADI
            | OpCodeEnum::OpLOADF => OpMode::IAsBx,
            OpCodeEnum::OpLOADK
            | OpCodeEnum::OpLOADKX
            | OpCodeEnum::OpFORLOOP
            | OpCodeEnum::OpFORPREP
            | OpCodeEnum::OpTFORPREP
            | OpCodeEnum::OpTFORLOOP
            | OpCodeEnum::OpCLOSURE => OpMode::IABx,
            OpCodeEnum::OpEXTRAARG => OpMode::IAx,
            OpCodeEnum::OpJMP => OpMode::ISJ,
            _ => OpMode::IABC,
        }
    }

    pub fn name(self) -> (r: &'static str)
        ensures
            r == self.spec_name(),
    {
        match self {
            OpCodeEnum::OpMove => "MOVE",
            OpCodeEnum::OpLOADI => "LOADI",
            OpCodeEnum::OpLOADF => "LOADF",
            OpCodeEnum::OpLOADK => "LOADK",
            OpCodeEnum::OpLOADKX => "LOADKX",
            OpCodeEnum::OpLOADFALSE => "LOADFALSE",
            OpCodeEnum::OpLFALSESKIP => "LFALSESKIP",
            OpCodeEnum::OpLOADTRUE => "LOADTRUE",
            OpCodeEnum::OpLOADNIL => "LOADNIL",
            OpCodeEnum::OpGETUPVAL => "GETUPVAL",
            OpCodeEnum::OpSETUPVAL => "SETUPVAL",
            OpCodeEnum::OpGETTABUP => "GETTABUP",
            OpCodeEnum::OpGETTABLE => "GETTABLE",
            OpCodeEnum::OpGETI => "GETI",
            OpCodeEnum::OpGETFIELD => "GETFIELD",
            OpCodeEnum::OpSETTABUP => "SETTABUP",
            OpCodeEnum::OpSETTABLE => "SETTABLE",
            OpCodeEnum::OpSETI => "SETI",
            OpCodeEnum::OpSETFIELD => "SETFIELD",
            OpCodeEnum::OpNEWTABLE => "NEWTABLE",
            OpCodeEnum::OpSELF => "SELF",
            OpCodeEnum::OpADDI => "ADDI",
            OpCodeEnum::OpADDK => "ADDK",
            OpCodeEnum::OpSUBK => "SUBK",
            OpCodeEnum::OpMULK => "MULK",
            OpCodeEnum::OpMODK => "MODK",
            OpCodeEnum::OpPOWK => "POWK",
            OpCodeEnum::OpDIVK => "DIVK",
            OpCodeEnum::OpIDIVK => "IDIVK",
            OpCodeEnum::OpBANDK => "BANDK",
            OpCodeEnum::OpBORK => "BORK",
            OpCodeEnum::OpBXORK => "BXORK",
            OpCodeEnum::OpSHRI => "SHRI",
            OpCodeEnum::OpSHLI => "SHLI",
            OpCodeEnum::OpADD => "ADD",
            OpCodeEnum::OpSUB => "SUB",
            OpCodeEnum::OpMUL => "MUL",
            OpCodeEnum::OpMOD => "MOD",
            OpCodeEnum::OpPOW => "POW",
            OpCodeEnum::OpDIV => "DIV",
            OpCodeEnum::OpIDIV => "IDIV",
            OpCodeEnum::OpBAND => "BAND",
            OpCodeEnum::OpBOR => "BOR",
            OpCodeEnum::OpBXOR => "BXOR",
            OpCodeEnum::OpSHL => "SHL",
            OpCodeEnum::OpSHR => "SHR",
            OpCodeEnum::OpMMBIN => "MMBIN",
            OpCodeEnum::OpMMBINI => "MMBINI",
            OpCodeEnum::OpMMBINK => "MMBINK",
            OpCodeEnum::OpUNM => "UNM",
            OpCodeEnum::OpBNOT => "BNOT",
            OpCodeEnum::OpNOT => "NOT",
            OpCodeEnum::OpLEN => "LEN",
            OpCodeEnum::OpCONCAT => "CONCAT",
            OpCodeEnum::OpCLOSE => "CLOSE",
            OpCodeEnum::OpTBC => "TBC",
            OpCodeEnum::OpJMP => "JMP",
            OpCodeEnum::OpEQ => "EQ",
            OpCodeEnum::OpLT => "LT",
            OpCodeEnum::OpLE => "LE",
            OpCodeEnum::OpEQK => "EQK",
            OpCodeEnum::OpEQI => "EQI",
            OpCodeEnum::OpLTI => "LTI",
            OpCodeEnum::OpLEI => "LEI",
            OpCodeEnum::OpGTI => "GTI",
            OpCodeEnum::OpGEI => "GEI",
            OpCodeEnum::OpTEST => "TEST",
            OpCodeEnum::OpTESTSET => "TESTSET",
            OpCodeEnum::OpCALL => "CALL",
            OpCodeEnum::OpTAILCALL => "TAILCALL",
            OpCodeEnum::OpRETURN => "RETURN",
            OpCodeEnum::OpRETURN0 => "RETURN0",
            OpCodeEnum::OpRETURN1 => "RETURN1",
            OpCodeEnum::OpFORLOOP => "FORLOOP",
            OpCodeEnum::OpFORPREP => "FORPREP",
            OpCodeEnum::OpTFORPREP => "TFORPREP",
            OpCodeEnum::OpTFORCALL => "TFORCALL",
            OpCodeEnum::OpTFORLOOP => "TFORLOOP",
            OpCodeEnum::OpSETLIST => "SETLIST",
            OpCodeEnum::OpCLOSURE => "CLOSURE",
            OpCodeEnum::OpVARARG => "VARARG",
            OpCodeEnum::OpVARARGPREP => "VARARGPREP",
            OpCodeEnum::OpEXTRAARG => "EXTRAARG",
        }
    }

    pub fn arg_b_mode(self) -> (r: OpArg)
        ensures
            r == self.spec_arg_b(),
    {
        match self {
            OpCodeEnum::OpLOADKX
            | OpCodeEnum::OpLOADFALSE
            | OpCodeEnum::OpLFALSESKIP
            | OpCodeEnum::OpLOADTRUE
            | OpCodeEnum::OpCONCAT
            | OpCodeEnum::OpCLOSE
            | OpCodeEnum::OpTBC
            | OpCodeEnum::OpJMP
            | OpCodeEnum::OpTEST
            | OpCodeEnum::OpRETURN0
            | OpCodeEnum::OpRETURN1
            | OpCodeEnum::OpTFORCALL
            | OpCodeEnum::OpVARARG
            | OpCodeEnum::OpVARARGPREP => OpArg::OpArgN,
            OpCodeEnum::OpLOADI
            | OpCodeEnum::OpLOADF
            | OpCodeEnum::OpLOADNIL
            | OpCodeEnum::OpGETUPVAL
            | OpCodeEnum::OpSETUPVAL
            | OpCodeEnum::OpGETTABUP
            | OpCodeEnum::OpSETI
            | OpCodeEnum::OpNEWTABLE
            | OpCodeEnum::OpMMBINI
            | OpCodeEnum::OpEQI
            | OpCodeEnum::OpLTI
            | OpCodeEnum::OpLEI
            | OpCodeEnum::OpGTI
            | OpCodeEnum::OpGEI
            | OpCodeEnum::OpCALL
            | OpCodeEnum::OpTAILCALL
            | OpCodeEnum::OpRETURN
            | OpCodeEnum::OpFORLOOP
            | OpCodeEnum::OpFORPREP
            | OpCodeEnum::OpTFORPREP
            | OpCodeEnum::OpTFORLOOP
            | OpCodeEnum::OpSETLIST
            | OpCodeEnum::OpCLOSURE
            | OpCodeEnum::OpEXTRAARG => OpArg::OpArgU,
            OpCodeEnum::OpLOADK
            | OpCodeEnum::OpSETTABUP
            | OpCodeEnum::OpSETFIELD
            | OpCodeEnum::OpMMBINK
            | OpCodeEnum::OpEQK => OpArg::OpArgK,
            _ => OpArg::OpArgR,
        }
    }

    pub fn arg_c_mode(self) -> (r: OpArg)
        ensures
            r == self.spec_arg_c(),
    {
        match self {
            OpCodeEnum::OpGETI
            | OpCodeEnum::OpNEWTABLE
            | OpCodeEnum::OpADDI
            | OpCodeEnum::OpSHRI
            | OpCodeEnum::OpSHLI
            | OpCodeEnum::OpMMBIN
            | OpCodeEnum::OpMMBINI
            | OpCodeEnum::OpMMBINK
            | OpCodeEnum::OpCONCAT
            | OpCodeEnum::OpEQI
            | OpCodeEnum::OpLTI
            | OpCodeEnum::OpLEI
            | OpCodeEnum::OpGTI
            | OpCodeEnum::OpGEI
            | OpCodeEnum::OpCALL
            | OpCodeEnum::OpTAILCALL
            | OpCodeEnum::OpRETURN
            | OpCodeEnum::OpTFORCALL
            | OpCodeEnum::OpSETLIST
            | OpCodeEnum::OpVARARG
            | OpCodeEnum::OpEXTRAARG => OpArg::OpArgU,
            OpCodeEnum::OpGETTABLE
            | OpCodeEnum::OpADD
            | OpCodeEnum::OpSUB
            | OpCodeEnum::OpMUL
            | OpCodeEnum::OpMOD
            | OpCodeEnum::OpPOW
            | OpCodeEnum::OpDIV
            | OpCodeEnum::OpIDIV
            | OpCodeEnum::OpBAND
            | OpCodeEnum::OpBOR
            | OpCodeEnum::OpBXOR
            | OpCodeEnum::OpSHL
            | OpCodeEnum::OpSHR => OpArg::OpArgR,
            OpCodeEnum::OpGETTABUP
            | OpCodeEnum::OpGETFIELD
            | OpCodeEnum::OpSETTABUP
            | OpCodeEnum::OpSETTABLE
            | OpCodeEnum::OpSETI
            | OpCodeEnum::OpSETFIELD
            | OpCodeEnum::OpSELF
            | OpCodeEnum::OpADDK
            | OpCodeEnum::OpSUBK
            | OpCodeEnum::OpMULK
            | OpCodeEnum::OpMODK
            | OpCodeEnum::OpPOWK
            | OpCodeEnum::OpDIVK
            | OpCodeEnum::OpIDIVK
            | OpCodeEnum::OpBANDK
            | OpCodeEnum::OpBORK
            | OpCodeEnum::OpBXORK => OpArg::OpArgK,
            _ => OpArg::OpArgN,
        }
    }

    pub fn is_test(self) -> (r: bool)
        ensures
            r == self.spec_is_test(),
    {
        match self {
            OpCodeEnum::OpEQ
            | OpCodeEnum::OpLT
            | OpCodeEnum::OpLE
            | OpCodeEnum::OpEQK
            | OpCodeEnum::OpEQI
            | OpCodeEnum::OpLTI
            | OpCodeEnum::OpLEI
            | OpCodeEnum::OpGTI
            | OpCodeEnum::OpGEI
            | OpCodeEnum::OpTEST
            | OpCodeEnum::OpTESTSET => true,
            _ => false,
        }
    }

    pub fn sets_a(self) -> (r: bool)
        ensures
            r == self.spec_sets_a(),
    {
        match self {
            OpCodeEnum::OpSETUPVAL
            | OpCodeEnum::OpSETTABUP
            | OpCodeEnum::OpSETTABLE
            | OpCodeEnum::OpSETI
            | OpCodeEnum::OpSETFIELD
            | OpCodeEnum::OpMMBIN
            | OpCodeEnum::OpMMBINI
            | OpCodeEnum::OpMMBINK
            | OpCodeEnum::OpCLOSE
            | OpCodeEnum::OpTBC
            | OpCodeEnum::OpJMP
            | OpCodeEnum::OpEQ
            | OpCodeEnum::OpLT
            | OpCodeEnum::OpLE
            | OpCodeEnum::OpEQK
            | OpCodeEnum::OpEQI
            | OpCodeEnum::OpLTI
            | OpCodeEnum::OpLEI
            | OpCodeEnum::OpGTI
            | OpCodeEnum::OpGEI
            | OpCodeEnum::OpTEST
            | OpCodeEnum::OpRETURN
            | OpCodeEnum::OpRETURN0
            | OpCodeEnum::OpRETURN1
            | OpCodeEnum::OpTFORPREP
            | OpCodeEnum::OpTFORCALL
            | OpCodeEnum::OpSETLIST
            | OpCodeEnum::OpEXTRAARG => false,
            _ => true,
        }
    }

    /// The table entry of the operation: name, layout, field kinds and flags.
    pub fn info(self) -> (r: OpCode)
        ensures
            r == self.spec_info(),
    {
        OpCode {
            test_flag: if self.is_test() { 1 } else { 0 },
            set_a_flag: if self.sets_a() { 1 } else { 0 },
            arg_b_mode: self.arg_b_mode(),
            arg_c_mode: self.arg_c_mode(),
            op_mode: self.op_mode(),
            name: self.name(),
        }
    }
}

} // verus!
