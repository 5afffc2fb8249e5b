use vstd::prelude::*;

verus! {

/// The instructions that the machine executes, each named after its
/// mnemonic.
#[derive(Debug, Clone, Copy, PartialEq, Eq, Structural)]
#[allow(non_camel_case_types)]
pub enum Opcode {
    /// `iconst_m1`, byte 0x02.
    Iconstm1,
    /// `iconst_0`, byte 0x03.
    Iconst0,
    /// `iconst_1`, byte 0x04.
    Iconst1,
    /// `iconst_2`, byte 0x05.
    Iconst2,
    /// `iconst_3`, byte 0x06.
    Iconst3,
    /// `iconst_4`, byte 0x07.
    Iconst4,
    /// `iconst_5`, byte 0x08.
    Iconst5,
    /// `bipush`, byte 0x10.
    Bipush,
    /// `sipush`, byte 0x11.
    Sipush,
    /// `ldc`, byte 0x12.
    Ldc,
    /// `ldc2_w`, byte 0x14.
    Ldc2_w,
    /// `iload`, byte 0x15.
    Iload,
    /// `lload`, byte 0x16.
    Lload,
    /// `fload`, byte 0x17.
    Fload,
    /// `dload`, byte 0x18.
    Dload,
    /// `aload`, byte 0x19.
    Aload,
    /// `iload_0`, byte 0x1A.
    Iload0,
    /// `iload_1`, byte 0x1B.
    Iload1,
    /// `iload_2`, byte 0x1C.
    Iload2,
    /// `iload_3`, byte 0x1D.
    Iload3,
    /// `lload_0`, byte 0x1E.
    Lload0,
    /// `lload_1`, byte 0x1F.
    Lload1,
    /// `lload_2`, byte 0x20.
    Lload2,
    /// `lload_3`, byte 0x21.
    Lload3,
    /// `fload_0`, byte 0x22.
    Fload0,
    /// `fload_1`, byte 0x23.
    Fload1,
    /// `fload_2`, byte 0x24.
    Fload2,
    /// `fload_3`, byte 0x25.
    Fload3,
    /// `dload_0`, byte 0x26.
    Dload0,
    /// `dload_1`, byte 0x27.
    Dload1,
    /// `dload_2`, byte 0x28.
    Dload2,
    /// `dload_3`, byte 0x29.
    Dload3,
    /// `aload_0`, byte 0x2A.
    Aload_0,
    /// `aload_1`, byte 0x2B.
    Aload_1,
    /// `aload_2`, byte 0x2C.
    Aload_2,
    /// `aload_3`, byte 0x2D.
    Aload_3,
    /// `aaload`, byte 0x32.
    Aaload,
    /// `istore`, byte 0x36.
    Istore,
    /// `lstore`, byte 0x37.
    Lstore,
    /// `fstore`, byte 0x38.
    Fstore,
    /// `dstore`, byte 0x39.
    Dstore,
    /// `astore`, byte 0x3A.
    Astore,
    /// `istore_0`, byte 0x3B.
    Istore_0,
    /// `istore_1`, byte 0x3C.
    Istore_1,
    /// `istore_2`, byte 0x3D.
    Istore_2,
    /// `istore_3`, byte 0x3E.
    Istore_3,
    /// `lstore_0`, byte 0x3F.
    Lstore_0,
    /// `lstore_1`, byte 0x40.
    Lstore_1,
    /// `lstore_2`, byte 0x41.
    Lstore_2,
    /// `lstore_3`, byte 0x42.
    Lstore_3,
    /// `fstore_0`, byte 0x43.
    Fstore_0,
    /// `fstore_1`, byte 0x44.
    Fstore_1,
    /// `fstore_2`, byte 0x45.
    Fstore_2,
    /// `fstore_3`, byte 0x46.
    Fstore_3,
    /// `dstore_0`, byte 0x47.
    Dstore_0,
    /// `dstore_1`, byte 0x48.
    Dstore_1,
    /// `dstore_2`, byte 0x49.
    Dstore_2,
    /// `dstore_3`, byte 0x4A.
    Dstore_3,
    /// `astore_0`, byte 0x4B.
    Astore_0,
    /// `astore_1`, byte 0x4C.
    Astore_1,
    /// `astore_2`, byte 0x4D.
    Astore_2,
    /// `astore_3`, byte 0x4E.
    Astore_3,
    /// `iadd`, byte 0x60.
    Iadd,
    /// `ladd`, byte 0x61.
    Ladd,
    /// `fadd`, byte 0x62.
    Fadd,
    /// `dadd`, byte 0x63.
    Dadd,
    /// `isub`, byte 0x64.
    Isub,
    /// `lsub`, byte 0x65.
    Lsub,
    /// `fsub`, byte 0x66.
    Fsub,
    /// `dsub`, byte 0x67.
    Dsub,
    /// `imul`, byte 0x68.
    Imul,
    /// `lmul`, byte 0x69.
    Lmul,
    /// `fmul`, byte 0x6A.
    Fmul,
    /// `dmul`, byte 0x6B.
    Dmul,
    /// `idiv`, byte 0x6C.
    Idiv,
    /// `ldiv`, byte 0x6D.
    Ldiv,
    /// `fdiv`, byte 0x6E.
    Fdiv,
    /// `ddiv`, byte 0x6F.
    Ddiv,
    /// `irem`, byte 0x70.
    Irem,
    /// `lrem`, byte 0x71.
    Lrem,
    /// `frem`, byte 0x72.
    Frem,
    /// `drem`, byte 0x73.
    Drem,
    /// `ineg`, byte 0x74.
    Ineg,
    /// `lneg`, byte 0x75.
    Lneg,
    /// `fneg`, byte 0x76.
    Fneg,
    /// `dneg`, byte 0x77.
    Dneg,
    /// `iinc`, byte 0x84.
    Iinc,
    /// `i2l`, byte 0x85.
    I2l,
    /// `i2f`, byte 0x86.
    I2f,
    /// `i2d`, byte 0x87.
    I2d,
    /// `l2i`, byte 0x88.
    L2i,
    /// `l2f`, byte 0x89.
    L2f,
    /// `l2d`, byte 0x8A.
    L2d,
    /// `f2i`, byte 0x8B.
    F2i,
    /// `f2l`, byte 0x8C.
    F2l,
    /// `f2d`, byte 0x8D.
    F2d,
    /// `d2i`, byte 0x8E.
    D2i,
    /// `d2l`, byte 0x8F.
    D2l,
    /// `d2f`, byte 0x90.
    D2f,
    /// `i2b`, byte 0x91.
    I2b,
    /// `i2c`, byte 0x92.
    I2c,
    /// `i2s`, byte 0x93.
    I2s,
    /// `ifeq`, byte 0x99.
    Ifeq,
    /// `ifne`, byte 0x9A.
    Ifne,
    /// `iflt`, byte 0x9B.
    Iflt,
    /// `ifge`, byte 0x9C.
    Ifge,
    /// `ifgt`, byte 0x9D.
    Ifgt,
    /// `ifle`, byte 0x9E.
    Ifle,
    /// `if_icmpeq`, byte 0x9F.
    If_icmpeq,
    /// `if_icmpne`, byte 0xA0.
    If_icmpne,
    /// `if_icmplt`, byte 0xA1.
    If_icmplt,
    /// `if_icmpge`, byte 0xA2.
    If_icmpge,
    /// `if_icmpgt`, byte 0xA3.
    If_icmpgt,
    /// `if_icmple`, byte 0xA4.
    If_icmple,
    /// `ireturn`, byte 0xAC.
    Ireturn,
    /// `lreturn`, byte 0xAD.
    Lreturn,
    /// `freturn`, byte 0xAE.
    Freturn,
    /// `dreturn`, byte 0xAF.
    Dreturn,
    /// `areturn`, byte 0xB0.
    Areturn,
    /// `return`, byte 0xB1.
    Return,
    /// `getstatic`, byte 0xB2.
    Getstatic,
    /// `putstatic`, byte 0xB3.
    Putstatic,
    /// `invokevirtual`, byte 0xB6.
    Invokevirtual,
    /// `invokespecial`, byte 0xB7.
    Invokespecial,
    /// `invokestatic`, byte 0xB8.
    Invokestatic,
}

impl Opcode {
    /// The byte that stands for the instruction in bytecode.
    pub open spec fn byte(self) -> u8 {
        match self {
            Opcode::Iconstm1 => 0x02,
            Opcode::Iconst0 => 0x03,
            Opcode::Iconst1 => 0x04,
            Opcode::Iconst2 => 0x05,
            Opcode::Iconst3 => 0x06,
            Opcode::Iconst4 => 0x07,
            Opcode::Iconst5 => 0x08,
            Opcode::Bipush => 0x10,
            Opcode::Sipush => 0x11,
            Opcode::Ldc => 0x12,
            Opcode::Ldc2_w => 0x14,
            Opcode::Iload => 0x15,
            Opcode::Lload => 0x16,
            Opcode::Fload => 0x17,
            Opcode::Dload => 0x18,
            Opcode::Aload => 0x19,
            Opcode::Iload0 => 0x1A,
            Opcode::Iload1 => 0x1B,
            Opcode::Iload2 => 0x1C,
            Opcode::Iload3 => 0x1D,
            Opcode::Lload0 => 0x1E,
            Opcode::Lload1 => 0x1F,
            Opcode::Lload2 => 0x20,
            Opcode::Lload3 => 0x21,
            Opcode::Fload0 => 0x22,
            Opcode::Fload1 => 0x23,
            Opcode::Fload2 => 0x24,
            Opcode::Fload3 => 0x25,
            Opcode::Dload0 => 0x26,
            Opcode::Dload1 => 0x27,
            Opcode::Dload2 => 0x28,
            Opcode::Dload3 => 0x29,
            Opcode::Aload_0 => 0x2A,
            Opcode::Aload_1 => 0x2B,
            Opcode::Aload_2 => 0x2C,
            Opcode::Aload_3 => 0x2D,
            Opcode::Aaload => 0x32,
            Opcode::Istore => 0x36,
            Opcode::Lstore => 0x37,
            Opcode::Fstore => 0x38,
            Opcode::Dstore => 0x39,
            Opcode::Astore => 0x3A,
            Opcode::Istore_0 => 0x3B,
            Opcode::Istore_1 => 0x3C,
            Opcode::Istore_2 => 0x3D,
            Opcode::Istore_3 => 0x3E,
            Opcode::Lstore_0 => 0x3F,
            Opcode::Lstore_1 => 0x40,
            Opcode::Lstore_2 => 0x41,
            Opcode::Lstore_3 => 0x42,
            Opcode::Fstore_0 => 0x43,
            Opcode::Fstore_1 => 0x44,
            Opcode::Fstore_2 => 0x45,
            Opcode::Fstore_3 => 0x46,
            Opcode::Dstore_0 => 0x47,
            Opcode::Dstore_1 => 0x48,
            Opcode::Dstore_2 => 0x49,
            Opcode::Dstore_3 => 0x4A,
            Opcode::Astore_0 => 0x4B,
            Opcode::Astore_1 => 0x4C,
            Opcode::Astore_2 => 0x4D,
            Opcode::Astore_3 => 0x4E,
            Opcode::Iadd => 0x60,
            Opcode::Ladd => 0x61,
            Opcode::Fadd => 0x62,
            Opcode::Dadd => 0x63,
            Opcode::Isub => 0x64,
            Opcode::Lsub => 0x65,
            Opcode::Fsub => 0x66,
            Opcode::Dsub => 0x67,
            Opcode::Imul => 0x68,
            Opcode::Lmul => 0x69,
            Opcode::Fmul => 0x6A,
            Opcode::Dmul => 0x6B,
            Opcode::Idiv => 0x6C,
            Opcode::Ldiv => 0x6D,
            Opcode::Fdiv => 0x6E,
            Opcode::Ddiv => 0x6F,
            Opcode::Irem => 0x70,
            Opcode::Lrem => 0x71,
            Opcode::Frem => 0x72,
            Opcode::Drem => 0x73,
            Opcode::Ineg => 0x74,
            Opcode::Lneg => 0x75,
            Opcode::Fneg => 0x76,
            Opcode::Dneg => 0x77,
            Opcode::Iinc => 0x84,
            Opcode::I2l => 0x85,
            Opcode::I2f => 0x86,
            Opcode::I2d => 0x87,
            Opcode::L2i => 0x88,
            Opcode::L2f => 0x89,
            Opcode::L2d => 0x8A,
            Opcode::F2i => 0x8B,
            Opcode::F2l => 0x8C,
            Opcode::F2d => 0x8D,
            Opcode::D2i => 0x8E,
            Opcode::D2l => 0x8F,
            Opcode::D2f => 0x90,
            Opcode::I2b => 0x91,
            Opcode::I2c => 0x92,
            Opcode::I2s => 0x93,
            Opcode::Ifeq => 0x99,
            Opcode::Ifne => 0x9A,
            Opcode::Iflt => 0x9B,
            Opcode::Ifge => 0x9C,
            Opcode::Ifgt => 0x9D,
            Opcode::Ifle => 0x9E,
            Opcode::If_icmpeq => 0x9F,
            Opcode::If_icmpne => 0xA0,
            Opcode::If_icmplt => 0xA1,
            Opcode::If_icmpge => 0xA2,
            Opcode::If_icmpgt => 0xA3,
            Opcode::If_icmple => 0xA4,
            Opcode::Ireturn => 0xAC,
            Opcode::Lreturn => 0xAD,
            Opcode::Freturn => 0xAE,
            Opcode::Dreturn => 0xAF,
            Opcode::Areturn => 0xB0,
            Opcode::Return => 0xB1,
            Opcode::Getstatic => 0xB2,
            Opcode::Putstatic => 0xB3,
            Opcode::Invokevirtual => 0xB6,
            Opcode::Invokespecial => 0xB7,
            Opcode::Invokestatic => 0xB8,
        }
    }

    /// The instruction that `byte` stands for, if it stands for one.
    pub open spec fn decode(byte: u8) -> Option<Opcode> {
        match byte {
            0x02 => Some(Opcode::Iconstm1),
            0x03 => Some(Opcode::Iconst0),
            0x04 => Some(Opcode::Iconst1),
            0x05 => Some(Opcode::Iconst2),
            0x06 => Some(Opcode::Iconst3),
            0x07 => Some(Opcode::Iconst4),
            0x08 => Some(Opcode::Iconst5),
            0x10 => Some(Opcode::Bipush),
            0x11 => Some(Opcode::Sipush),
            0x12 => Some(Opcode::Ldc),
            0x14 => Some(Opcode::Ldc2_w),
            0x15 => Some(Opcode::Iload),
            0x16 => Some(Opcode::Lload),
            0x17 => Some(Opcode::Fload),
            0x18 => Some(Opcode::Dload),
            0x19 => Some(Opcode::Aload),
            0x1A => Some(Opcode::Iload0),
            0x1B => Some(Opcode::Iload1),
            0x1C => Some(Opcode::Iload2),
            0x1D => Some(Opcode::Iload3),
            0x1E => Some(Opcode::Lload0),
            0x1F => Some(Opcode::Lload1),
            0x20 => Some(Opcode::Lload2),
            0x21 => Some(Opcode::Lload3),
            0x22 => Some(Opcode::Fload0),
            0x23 => Some(Opcode::Fload1),
            0x24 => Some(Opcode::Fload2),
            0x25 => Some(Opcode::Fload3),
            0x26 => Some(Opcode::Dload0),
            0x27 => Some(Opcode::Dload1),
            0x28 => Some(Opcode::Dload2),
            0x29 => Some(Opcode::Dload3),
            0x2A => Some(Opcode::Aload_0),
            0x2B => Some(Opcode::Aload_1),
            0x2C => Some(Opcode::Aload_2),
            0x2D => Some(Opcode::Aload_3),
            0x32 => Some(Opcode::Aaload),
            0x36 => Some(Opcode::Istore),
            0x37 => Some(Opcode::Lstore),
            0x38 => Some(Opcode::Fstore),
            0x39 => Some(Opcode::Dstore),
            0x3A => Some(Opcode::Astore),
            0x3B => Some(Opcode::Istore_0),
            0x3C => Some(Opcode::Istore_1),
            0x3D => Some(Opcode::Istore_2),
            0x3E => Some(Opcode::Istore_3),
            0x3F => Some(Opcode::Lstore_0),
            0x40 => Some(Opcode::Lstore_1),
            0x41 => Some(Opcode::Lstore_2),
            0x42 => Some(Opcode::Lstore_3),
            0x43 => Some(Opcode::Fstore_0),
            0x44 => Some(Opcode::Fstore_1),
            0x45 => Some(Opcode::Fstore_2),
            0x46 => Some(Opcode::Fstore_3),
            0x47 => Some(Opcode::Dstore_0),
            0x48 => Some(Opcode::Dstore_1),
            0x49 => Some(Opcode::Dstore_2),
            0x4A => Some(Opcode::Dstore_3),
            0x4B => Some(Opcode::Astore_0),
            0x4C => Some(Opcode::Astore_1),
            0x4D => Some(Opcode::Astore_2),
            0x4E => Some(Opcode::Astore_3),
            0x60 => Some(Opcode::Iadd),
            0x61 => Some(Opcode::Ladd),
            0x62 => Some(Opcode::Fadd),
            0x63 => Some(Opcode::Dadd),
            0x64 => Some(Opcode::Isub),
            0x65 => Some(Opcode::Lsub),
            0x66 => Some(Opcode::Fsub),
            0x67 => Some(Opcode::Dsub),
            0x68 => Some(Opcode::Imul),
            0x69 => Some(Opcode::Lmul),
            0x6A => Some(Opcode::Fmul),
            0x6B => Some(Opcode::Dmul),
            0x6C => Some(Opcode::Idiv),
            0x6D => Some(Opcode::Ldiv),
            0x6E => Some(Opcode::Fdiv),
            0x6F => Some(Opcode::Ddiv),
            0x70 => Some(Opcode::Irem),
            0x71 => Some(Opcode::Lrem),
            0x72 => Some(Opcode::Frem),
            0x73 => Some(Opcode::Drem),
            0x74 => Some(Opcode::Ineg),
            0x75 => Some(Opcode::Lneg),
            0x76 => Some(Opcode::Fneg),
            0x77 => Some(Opcode::Dneg),
            0x84 => Some(Opcode::Iinc),
            0x85 => Some(Opcode::I2l),
            0x86 => Some(Opcode::I2f),
            0x87 => Some(Opcode::I2d),
            0x88 => Some(Opcode::L2i),
            0x89 => Some(Opcode::L2f),
            0x8A => Some(Opcode::L2d),
            0x8B => Some(Opcode::F2i),
            0x8C => Some(Opcode::F2l),
            0x8D => Some(Opcode::F2d),
            0x8E => Some(Opcode::D2i),
            0x8F => Some(Opcode::D2l),
            0x90 => Some(Opcode::D2f),
            0x91 => Some(Opcode::I2b),
            0x92 => Some(Opcode::I2c),
            0x93 => Some(Opcode::I2s),
            0x99 => Some(Opcode::Ifeq),
            0x9A => Some(Opcode::Ifne),
            0x9B => Some(Opcode::Iflt),
            0x9C => Some(Opcode::Ifge),
            0x9D => Some(Opcode::Ifgt),
            0x9E => Some(Opcode::Ifle),
            0x9F => Some(Opcode::If_icmpeq),
            0xA0 => Some(Opcode::If_icmpne),
            0xA1 => Some(Opcode::If_icmplt),
            0xA2 => Some(Opcode::If_icmpge),
            0xA3 => Some(Opcode::If_icmpgt),
            0xA4 => Some(Opcode::If_icmple),
            0xAC => Some(Opcode::Ireturn),
            0xAD => Some(Opcode::Lreturn),
            0xAE => Some(Opcode::Freturn),
            0xAF => Some(Opcode::Dreturn),
            0xB0 => Some(Opcode::Areturn),
            0xB1 => Some(Opcode::Return),
            0xB2 => Some(Opcode::Getstatic),
            0xB3 => Some(Opcode::Putstatic),
            0xB6 => Some(Opcode::Invokevirtual),
            0xB7 => Some(Opcode::Invokespecial),
            0xB8 => Some(Opcode::Invokestatic),
            _ => None,
        }
    }

    /// The byte that stands for the instruction in bytecode.
    pub fn to_byte(&self) -> (r: u8)
        ensures
            r == self.byte(),
    {
        match self {
            Opcode::Iconstm1 => 0x02,
            Opcode::Iconst0 => 0x03,
            Opcode::Iconst1 => 0x04,
            Opcode::Iconst2 => 0x05,
            Opcode::Iconst3 => 0x06,
            Opcode::Iconst4 => 0x07,
            Opcode::Iconst5 => 0x08,
            Opcode::Bipush => 0x10,
            Opcode::Sipush => 0x11,
            Opcode::Ldc => 0x12,
            Opcode::Ldc2_w => 0x14,
            Opcode::Iload => 0x15,
            Opcode::Lload => 0x16,
            Opcode::Fload => 0x17,
            Opcode::Dload => 0x18,
            Opcode::Aload => 0x19,
            Opcode::Iload0 => 0x1A,
            Opcode::Iload1 => 0x1B,
            Opcode::Iload2 => 0x1C,
            Opcode::Iload3 => 0x1D,
            Opcode::Lload0 => 0x1E,
            Opcode::Lload1 => 0x1F,
            Opcode::Lload2 => 0x20,
            Opcode::Lload3 => 0x21,
            Opcode::Fload0 => 0x22,
            Opcode::Fload1 => 0x23,
            Opcode::Fload2 => 0x24,
            Opcode::Fload3 => 0x25,
            Opcode::Dload0 => 0x26,
            Opcode::Dload1 => 0x27,
            Opcode::Dload2 => 0x28,
            Opcode::Dload3 => 0x29,
            Opcode::Aload_0 => 0x2A,
            Opcode::Aload_1 => 0x2B,
            Opcode::Aload_2 => 0x2C,
            Opcode::Aload_3 => 0x2D,
            Opcode::Aaload => 0x32,
            Opcode::Istore => 0x36,
            Opcode::Lstore => 0x37,
            Opcode::Fstore => 0x38,
            Opcode::Dstore => 0x39,
            Opcode::Astore => 0x3A,
            Opcode::Istore_0 => 0x3B,
            Opcode::Istore_1 => 0x3C,
            Opcode::Istore_2 => 0x3D,
            Opcode::Istore_3 => 0x3E,
            Opcode::Lstore_0 => 0x3F,
            Opcode::Lstore_1 => 0x40,
            Opcode::Lstore_2 => 0x41,
            Opcode::Lstore_3 => 0x42,
            Opcode::Fstore_0 => 0x43,
            Opcode::Fstore_1 => 0x44,
            Opcode::Fstore_2 => 0x45,
            Opcode::Fstore_3 => 0x46,
            Opcode::Dstore_0 => 0x47,
            Opcode::Dstore_1 => 0x48,
            Opcode::Dstore_2 => 0x49,
            Opcode::Dstore_3 => 0x4A,
            Opcode::Astore_0 => 0x4B,
            Opcode::Astore_1 => 0x4C,
            Opcode::Astore_2 => 0x4D,
            Opcode::Astore_3 => 0x4E,
            Opcode::Iadd => 0x60,
            Opcode::Ladd => 0x61,
            Opcode::Fadd => 0x62,
            Opcode::Dadd => 0x63,
            Opcode::Isub => 0x64,
            Opcode::Lsub => 0x65,
            Opcode::Fsub => 0x66,
            Opcode::Dsub => 0x67,
            Opcode::Imul => 0x68,
            Opcode::Lmul => 0x69,
            Opcode::Fmul => 0x6A,
            Opcode::Dmul => 0x6B,
            Opcode::Idiv => 0x6C,
            Opcode::Ldiv => 0x6D,
            Opcode::Fdiv => 0x6E,
            Opcode::Ddiv => 0x6F,
            Opcode::Irem => 0x70,
            Opcode::Lrem => 0x71,
            Opcode::Frem => 0x72,
            Opcode::Drem => 0x73,
            Opcode::Ineg => 0x74,
            Opcode::Lneg => 0x75,
            Opcode::Fneg => 0x76,
            Opcode::Dneg => 0x77,
            Opcode::Iinc => 0x84,
            Opcode::I2l => 0x85,
            Opcode::I2f => 0x86,
            Opcode::I2d => 0x87,
            Opcode::L2i => 0x88,
            Opcode::L2f => 0x89,
            Opcode::L2d => 0x8A,
            Opcode::F2i => 0x8B,
            Opcode::F2l => 0x8C,
            Opcode::F2d => 0x8D,
            Opcode::D2i => 0x8E,
            Opcode::D2l => 0x8F,
            Opcode::D2f => 0x90,
            Opcode::I2b => 0x91,
            Opcode::I2c => 0x92,
            Opcode::I2s => 0x93,
            Opcode::Ifeq => 0x99,
            Opcode::Ifne => 0x9A,
            Opcode::Iflt => 0x9B,
            Opcode::Ifge => 0x9C,
            Opcode::Ifgt => 0x9D,
            Opcode::Ifle => 0x9E,
            Opcode::If_icmpeq => 0x9F,
            Opcode::If_icmpne => 0xA0,
            Opcode::If_icmplt => 0xA1,
            Opcode::If_icmpge => 0xA2,
            Opcode::If_icmpgt => 0xA3,
            Opcode::If_icmple => 0xA4,
            Opcode::Ireturn => 0xAC,
            Opcode::Lreturn => 0xAD,
            Opcode::Freturn => 0xAE,
            Opcode::Dreturn => 0xAF,
            Opcode::Areturn => 0xB0,
            Opcode::Return => 0xB1,
            Opcode::Getstatic => 0xB2,
            Opcode::Putstatic => 0xB3,
            Opcode::Invokevirtual => 0xB6,
            Opcode::Invokespecial => 0xB7,
            Opcode::Invokestatic => 0xB8,
        }
    }

    /// Decodes one byte of bytecode: the instruction that it stands for, or
    /// nothing where no instruction has that byte.
    pub fn from(byte: u8) -> (r: Option<Opcode>)
        ensures
            r == Opcode::decode(byte),
            r is Some ==> r->0.byte() == byte,
            r is None ==> forall|op: Opcode| op.byte() != byte,
    {
        match byte {
            0x02 => Some(Opcode::Iconstm1),
            0x03 => Some(Opcode::Iconst0),
            0x04 => Some(Opcode::Iconst1),
            0x05 => Some(Opcode::Iconst2),
            0x06 => Some(Opcode::Iconst3),
            0x07 => Some(Opcode::Iconst4),
            0x08 => Some(Opcode::Iconst5),
            0x10 => Some(Opcode::Bipush),
            0x11 => Some(Opcode::Sipush),
            0x12 => Some(Opcode::Ldc),
            0x14 => Some(Opcode::Ldc2_w),
            0x15 => Some(Opcode::Iload),
            0x16 => Some(Opcode::Lload),
            0x17 => Some(Opcode::Fload),
            0x18 => Some(Opcode::Dload),
            0x19 => Some(Opcode::Aload),
            0x1A => Some(Opcode::Iload0),
            0x1B => Some(Opcode::Iload1),
            0x1C => Some(Opcode::Iload2),
            0x1D => Some(Opcode::Iload3),
            0x1E => Some(Opcode::Lload0),
            0x1F => Some(Opcode::Lload1),
            0x20 => Some(Opcode::Lload2),
            0x21 => Some(Opcode::Lload3),
            0x22 => Some(Opcode::Fload0),
            0x23 => Some(Opcode::Fload1),
            0x24 => Some(Opcode::Fload2),
            0x25 => Some(Opcode::Fload3),
            0x26 => Some(Opcode::Dload0),
            0x27 => Some(Opcode::Dload1),
            0x28 => Some(Opcode::Dload2),
            0x29 => Some(Opcode::Dload3),
            0x2A => Some(Opcode::Aload_0),
            0x2B => Some(Opcode::Aload_1),
            0x2C => Some(Opcode::Aload_2),
            0x2D => Some(Opcode::Aload_3),
            0x32 => Some(Opcode::Aaload),
            0x36 => Some(Opcode::Istore),
            0x37 => Some(Opcode::Lstore),
            0x38 => Some(Opcode::Fstore),
            0x39 => Some(Opcode::Dstore),
            0x3A => Some(Opcode::Astore),
            0x3B => Some(Opcode::Istore_0),
            0x3C => Some(Opcode::Istore_1),
            0x3D => Some(Opcode::Istore_2),
            0x3E => Some(Opcode::Istore_3),
            0x3F => Some(Opcode::Lstore_0),
            0x40 => Some(Opcode::Lstore_1),
            0x41 => Some(Opcode::Lstore_2),
            0x42 => Some(Opcode::Lstore_3),
            0x43 => Some(Opcode::Fstore_0),
            0x44 => Some(Opcode::Fstore_1),
            0x45 => Some(Opcode::Fstore_2),
            0x46 => Some(Opcode::Fstore_3),
            0x47 => Some(Opcode::Dstore_0),
            0x48 => Some(Opcode::Dstore_1),
            0x49 => Some(Opcode::Dstore_2),
            0x4A => Some(Opcode::Dstore_3),
            0x4B => Some(Opcode::Astore_0),
            0x4C => Some(Opcode::Astore_1),
            0x4D => Some(Opcode::Astore_2),
            0x4E => Some(Opcode::Astore_3),
            0x60 => Some(Opcode::Iadd),
            0x61 => Some(Opcode::Ladd),
            0x62 => Some(Opcode::Fadd),
            0x63 => Some(Opcode::Dadd),
            0x64 => Some(Opcode::Isub),
            0x65 => Some(Opcode::Lsub),
            0x66 => Some(Opcode::Fsub),
            0x67 => Some(Opcode::Dsub),
            0x68 => Some(Opcode::Imul),
            0x69 => Some(Opcode::Lmul),
            0x6A => Some(Opcode::Fmul),
            0x6B => Some(Opcode::Dmul),
            0x6C => Some(Opcode::Idiv),
            0x6D => Some(Opcode::Ldiv),
            0x6E => Some(Opcode::Fdiv),
            0x6F => Some(Opcode::Ddiv),
            0x70 => Some(Opcode::Irem),
            0x71 => Some(Opcode::Lrem),
            0x72 => Some(Opcode::Frem),
            0x73 => Some(Opcode::Drem),
            0x74 => Some(Opcode::Ineg),
            0x75 => Some(Opcode::Lneg),
            0x76 => Some(Opcode::Fneg),
            0x77 => Some(Opcode::Dneg),
            0x84 => Some(Opcode::Iinc),
            0x85 => Some(Opcode::I2l),
            0x86 => Some(Opcode::I2f),
            0x87 => Some(Opcode::I2d),
            0x88 => Some(Opcode::L2i),
            0x89 => Some(Opcode::L2f),
            0x8A => Some(Opcode::L2d),
            0x8B => Some(Opcode::F2i),
            0x8C => Some(Opcode::F2l),
            0x8D => Some(Opcode::F2d),
            0x8E => Some(Opcode::D2i),
            0x8F => Some(Opcode::D2l),
            0x90 => Some(Opcode::D2f),
            0x91 => Some(Opcode::I2b),
            0x92 => Some(Opcode::I2c),
            0x93 => Some(Opcode::I2s),
            0x99 => Some(Opcode::Ifeq),
            0x9A => Some(Opcode::Ifne),
            0x9B => Some(Opcode::Iflt),
            0x9C => Some(Opcode::Ifge),
            0x9D => Some(Opcode::Ifgt),
            0x9E => Some(Opcode::Ifle),
            0x9F => Some(Opcode::If_icmpeq),
            0xA0 => Some(Opcode::If_icmpne),
            0xA1 => Some(Opcode::If_icmplt),
            0xA2 => Some(Opcode::If_icmpge),
            0xA3 => Some(Opcode::If_icmpgt),
            0xA4 => Some(Opcode::If_icmple),
            0xAC => Some(Opcode::Ireturn),
            0xAD => Some(Opcode::Lreturn),
            0xAE => Some(Opcode::Freturn),
            0xAF => Some(Opcode::Dreturn),
            0xB0 => Some(Opcode::Areturn),
            0xB1 => Some(Opcode::Return),
            0xB2 => Some(Opcode::Getstatic),
            0xB3 => Some(Opcode::Putstatic),
            0xB6 => Some(Opcode::Invokevirtual),
            0xB7 => Some(Opcode::Invokespecial),
            0xB8 => Some(Opcode::Invokestatic),
            _ => None,
        }
    }
}

/// Every instruction is decoded from its own byte, and from no other.
pub proof fn lemma_decode_byte(op: Opcode)
    ensures
        Opcode::decode(op.byte()) == Some(op),
{
}

} // verus!
