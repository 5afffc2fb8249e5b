use vstd::prelude::*;

verus! {

/// One attribute of a class, field or method: its name's index and its
/// bytes as they stand in the file.
#[derive(Debug, Clone, PartialEq)]
pub struct AttributeInfo {
    pub attribute_name_index: u16,
    pub attribute_length: u32,
    pub info: Vec<u8>,
}

/// The model of an attribute.
pub struct AttributeInfoView {
    pub attribute_name_index: u16,
    pub attribute_length: u32,
    pub info: Seq<u8>,
}

impl View for AttributeInfo {
    type V = AttributeInfoView;

    open spec fn view(&self) -> AttributeInfoView {
        AttributeInfoView {
            attribute_name_index: self.attribute_name_index,
            attribute_length: self.attribute_length,
            info: self.info@,
        }
    }
}

/// The models of a sequence of attributes, item by item.
pub open spec fn attributes_view(attributes: Seq<AttributeInfo>) -> Seq<AttributeInfoView> {
    Seq::new(attributes.len(), |i: int| attributes[i]@)
}

/// The body of a `Code` attribute: the two limits and the bytecode.
#[derive(Debug, Clone, PartialEq)]
pub struct Code {
    pub max_stack: u16,
    pub max_locals: u16,
    pub bytecode: Vec<u8>,
}

/// The model of a [`Code`].
pub struct CodeView {
    pub max_stack: u16,
    pub max_locals: u16,
    pub bytecode: Seq<u8>,
}

impl View for Code {
    type V = CodeView;

    open spec fn view(&self) -> CodeView {
        CodeView {
            max_stack: self.max_stack,
            max_locals: self.max_locals,
            bytecode: self.bytecode@,
        }
    }
}

/// The number that four bytes hold, highest byte first.
pub open spec fn be_u32(b0: u8, b1: u8, b2: u8, b3: u8) -> int {
    b0 * 0x100_0000 + b1 * 0x1_0000 + b2 * 0x100 + b3
}

/// The length of the bytecode that the bytes of a `Code` attribute announce.
pub open spec fn code_length(info: Seq<u8>) -> int
    recommends
        info.len() >= 8,
{
    be_u32(info[4], info[5], info[6], info[7])
}

/// What the bytes of a `Code` attribute hold: `max_stack` in bytes 0 and 1,
/// `max_locals` in bytes 2 and 3, the length of the bytecode in bytes 4 to
/// 7, then the bytecode. Nothing where the bytes end before the bytecode.
pub open spec fn code_of(info: Seq<u8>) -> Option<CodeView> {
    if info.len() >= 8 && 8 + code_length(info) <= info.len() {
        Some(
            CodeView {
                max_stack: (info[0] * 256 + info[1]) as u16,
                max_locals: (info[2] * 256 + info[3]) as u16,
                bytecode: info.subrange(8, 8 + code_length(info)),
            },
        )
    } else {
        None
    }
}

impl AttributeInfo {
    /// Reads the attribute's bytes as the body of a `Code` attribute.
    pub fn code(&self) -> (r: Option<Code>)
        ensures
            match r {
                Some(code) => code_of(self.info@) == Some(code@),
                None => code_of(self.info@) is None,
            },
    {
        let info = &self.info;
        if info.len() < 8 {
            return None;
        }
        let max_stack: u16 = info[0] as u16 * 256 + info[1] as u16;
        let max_locals: u16 = info[2] as u16 * 256 + info[3] as u16;
        let length: u64 = info[4] as u64 * 0x100_0000 + info[5] as u64 * 0x1_0000 + info[6] as u64
            * 0x100 + info[7] as u64;
        if length > (info.len() - 8) as u64 {
            return None;
        }
        let end: usize = 8 + length as usize;
        let mut bytecode: Vec<u8> = Vec::new();
        let mut i: usize = 8;
        while i < end
            invariant
                8 <= i <= end <= info.len(),
                bytecode@ == info@.subrange(8, i as int),
            decreases end - i,
        {
            bytecode.push(info[i]);
            assert(bytecode@ =~= info@.subrange(8, i + 1));
            i += 1;
        }
        Some(Code { max_stack, max_locals, bytecode })
    }
}

} // verus!
