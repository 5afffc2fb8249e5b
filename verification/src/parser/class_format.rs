//! The layout of a class file, as functions from bytes to what they hold.
//!
//! Each function reads at an offset and gives what stands there together
//! with the offset behind it, or the reason why nothing well-formed stands
//! there. All numbers are big-endian.

use vstd::prelude::*;
use crate::parser::attribute_info::AttributeInfoView;
use crate::parser::buffer::{bytes_at, u16_at, u32_at, u8_at};
use crate::parser::class_file::ClassFileView;
use crate::parser::constant_pool_info::CpInfoView;
use crate::parser::field_info::FieldInfoView;
use crate::parser::method_info::MethodInfoView;

verus! {

/// Why bytes are not a class file.
#[derive(Debug, Clone, Copy, PartialEq, Eq, Structural)]
pub enum ParseError {
    /// The bytes end inside an item.
    UnexpectedEnd,
    /// A constant-pool entry begins with a tag that stands for no kind.
    UnknownConstantTag(u8),
    /// A `Long` or `Double` entry stands at the last index of the pool,
    /// where there is no second index for it.
    ConstantPoolOverrun,
}

/// The byte at `offset`.
pub open spec fn need_u8(bytes: Seq<u8>, offset: int) -> Result<(u8, int), ParseError> {
    match u8_at(bytes, offset) {
        Some(v) => Ok((v, offset + 1)),
        None => Err(ParseError::UnexpectedEnd),
    }
}

/// The two-byte number at `offset`.
pub open spec fn need_u16(bytes: Seq<u8>, offset: int) -> Result<(u16, int), ParseError> {
    match u16_at(bytes, offset) {
        Some(v) => Ok((v, offset + 2)),
        None => Err(ParseError::UnexpectedEnd),
    }
}

/// The four-byte number at `offset`.
pub open spec fn need_u32(bytes: Seq<u8>, offset: int) -> Result<(u32, int), ParseError> {
    match u32_at(bytes, offset) {
        Some(v) => Ok((v, offset + 4)),
        None => Err(ParseError::UnexpectedEnd),
    }
}

/// The `n` bytes at `offset`.
pub open spec fn need_bytes(bytes: Seq<u8>, offset: int, n: int) -> Result<
    (Seq<u8>, int),
    ParseError,
> {
    match bytes_at(bytes, offset, n) {
        Some(v) => Ok((v, offset + n)),
        None => Err(ParseError::UnexpectedEnd),
    }
}

/// The body of a `Utf8` entry: a two-byte length and as many bytes.
pub open spec fn utf8_entry(bytes: Seq<u8>, offset: int) -> Result<(CpInfoView, int), ParseError> {
    match need_u16(bytes, offset) {
        Err(e) => Err(e),
        Ok((length, at)) => match need_bytes(bytes, at, length as int) {
            Err(e) => Err(e),
            Ok((text, end)) => Ok((CpInfoView::Utf8 { length, bytes: text }, end)),
        },
    }
}

/// The body of a `Integer` entry: `bytes`.
pub open spec fn integer_entry(
    bytes: Seq<u8>,
    offset: int,
) -> Result<(CpInfoView, int), ParseError> {
    match need_u32(bytes, offset) {
        Err(e) => Err(e),
        Ok((bytes, end)) => Ok((CpInfoView::Integer { bytes }, end)),
    }
}

/// The body of a `Float` entry: `bytes`.
pub open spec fn float_entry(bytes: Seq<u8>, offset: int) -> Result<(CpInfoView, int), ParseError> {
    match need_u32(bytes, offset) {
        Err(e) => Err(e),
        Ok((bytes, end)) => Ok((CpInfoView::Float { bytes }, end)),
    }
}

/// The body of a `Long` entry: `high_bytes`, `low_bytes`.
pub open spec fn long_entry(bytes: Seq<u8>, offset: int) -> Result<(CpInfoView, int), ParseError> {
    match need_u32(bytes, offset) {
        Err(e) => Err(e),
        Ok((high_bytes, at)) => match need_u32(bytes, at) {
            Err(e) => Err(e),
            Ok((low_bytes, end)) => Ok((CpInfoView::Long { high_bytes, low_bytes }, end)),
        },
    }
}

/// The body of a `Double` entry: `high_bytes`, `low_bytes`.
pub open spec fn double_entry(
    bytes: Seq<u8>,
    offset: int,
) -> Result<(CpInfoView, int), ParseError> {
    match need_u32(bytes, offset) {
        Err(e) => Err(e),
        Ok((high_bytes, at)) => match need_u32(bytes, at) {
            Err(e) => Err(e),
            Ok((low_bytes, end)) => Ok((CpInfoView::Double { high_bytes, low_bytes }, end)),
        },
    }
}

/// The body of a `Class` entry: `name_index`.
pub open spec fn class_entry(bytes: Seq<u8>, offset: int) -> Result<(CpInfoView, int), ParseError> {
    match need_u16(bytes, offset) {
        Err(e) => Err(e),
        Ok((name_index, end)) => Ok((CpInfoView::Class { name_index }, end)),
    }
}

/// The body of a `String` entry: `string_index`.
pub open spec fn string_entry(
    bytes: Seq<u8>,
    offset: int,
) -> Result<(CpInfoView, int), ParseError> {
    match need_u16(bytes, offset) {
        Err(e) => Err(e),
        Ok((string_index, end)) => Ok((CpInfoView::String { string_index }, end)),
    }
}

/// The body of a `Fieldref` entry: `class_index`, `name_and_type_index`.
pub open spec fn fieldref_entry(
    bytes: Seq<u8>,
    offset: int,
) -> Result<(CpInfoView, int), ParseError> {
    match need_u16(bytes, offset) {
        Err(e) => Err(e),
        Ok((class_index, at)) => match need_u16(bytes, at) {
            Err(e) => Err(e),
            Ok((name_and_type_index, end)) => Ok(
                (CpInfoView::Fieldref { class_index, name_and_type_index }, end),
            ),
        },
    }
}

/// The body of a `Methodref` entry: `class_index`, `name_and_type_index`.
pub open spec fn methodref_entry(
    bytes: Seq<u8>,
    offset: int,
) -> Result<(CpInfoView, int), ParseError> {
    match need_u16(bytes, offset) {
        Err(e) => Err(e),
        Ok((class_index, at)) => match need_u16(bytes, at) {
            Err(e) => Err(e),
            Ok((name_and_type_index, end)) => Ok(
                (CpInfoView::Methodref { class_index, name_and_type_index }, end),
            ),
        },
    }
}

/// The body of a `InterfaceMethodref` entry: `class_index`, `name_and_type_index`.
pub open spec fn interface_methodref_entry(
    bytes: Seq<u8>,
    offset: int,
) -> Result<(CpInfoView, int), ParseError> {
    match need_u16(bytes, offset) {
        Err(e) => Err(e),
        Ok((class_index, at)) => match need_u16(bytes, at) {
            Err(e) => Err(e),
            Ok((name_and_type_index, end)) => Ok(
                (CpInfoView::InterfaceMethodref { class_index, name_and_type_index }, end),
            ),
        },
    }
}

/// The body of a `NameAndType` entry: `name_index`, `descriptor_index`.
pub open spec fn name_and_type_entry(
    bytes: Seq<u8>,
    offset: int,
) -> Result<(CpInfoView, int), ParseError> {
    match need_u16(bytes, offset) {
        Err(e) => Err(e),
        Ok((name_index, at)) => match need_u16(bytes, at) {
            Err(e) => Err(e),
            Ok((descriptor_index, end)) => Ok(
                (CpInfoView::NameAndType { name_index, descriptor_index }, end),
            ),
        },
    }
}

/// The body of a `MethodHandle` entry: `reference_kind`, `reference_index`.
pub open spec fn method_handle_entry(
    bytes: Seq<u8>,
    offset: int,
) -> Result<(CpInfoView, int), ParseError> {
    match need_u8(bytes, offset) {
        Err(e) => Err(e),
        Ok((reference_kind, at)) => match need_u16(bytes, at) {
            Err(e) => Err(e),
            Ok((reference_index, end)) => Ok(
                (CpInfoView::MethodHandle { reference_kind, reference_index }, end),
            ),
        },
    }
}

/// The body of a `MethodType` entry: `descriptor_index`.
pub open spec fn method_type_entry(
    bytes: Seq<u8>,
    offset: int,
) -> Result<(CpInfoView, int), ParseError> {
    match need_u16(bytes, offset) {
        Err(e) => Err(e),
        Ok((descriptor_index, end)) => Ok((CpInfoView::MethodType { descriptor_index }, end)),
    }
}

/// The body of a `InvokeDynamic` entry: `bootstrap_method_attr_index`, `name_and_type_index`.
pub open spec fn invoke_dynamic_entry(
    bytes: Seq<u8>,
    offset: int,
) -> Result<(CpInfoView, int), ParseError> {
    match need_u16(bytes, offset) {
        Err(e) => Err(e),
        Ok((bootstrap_method_attr_index, at)) => match need_u16(bytes, at) {
            Err(e) => Err(e),
            Ok((name_and_type_index, end)) => Ok(
                (
                    CpInfoView::InvokeDynamic { bootstrap_method_attr_index, name_and_type_index },
                    end,
                ),
            ),
        },
    }
}

/// One constant-pool entry: a tag byte and the body of the kind that the
/// tag stands for.
pub open spec fn cp_entry(bytes: Seq<u8>, offset: int) -> Result<(CpInfoView, int), ParseError> {
    match need_u8(bytes, offset) {
        Err(e) => Err(e),
        Ok((tag, at)) => if tag == 1 {
            utf8_entry(bytes, at)
        } else if tag == 3 {
            integer_entry(bytes, at)
        } else if tag == 4 {
            float_entry(bytes, at)
        } else if tag == 5 {
            long_entry(bytes, at)
        } else if tag == 6 {
            double_entry(bytes, at)
        } else if tag == 7 {
            class_entry(bytes, at)
        } else if tag == 8 {
            string_entry(bytes, at)
        } else if tag == 9 {
            fieldref_entry(bytes, at)
        } else if tag == 10 {
            methodref_entry(bytes, at)
        } else if tag == 11 {
            interface_methodref_entry(bytes, at)
        } else if tag == 12 {
            name_and_type_entry(bytes, at)
        } else if tag == 15 {
            method_handle_entry(bytes, at)
        } else if tag == 16 {
            method_type_entry(bytes, at)
        } else if tag == 18 {
            invoke_dynamic_entry(bytes, at)
        } else {
            Err(ParseError::UnknownConstantTag(tag))
        },
    }
}

/// The rest of a constant pool of `count` indices of which `filled` holds
/// the first: entry after entry, each at the next free index, a `Long` or
/// `Double` followed by an empty index.
pub open spec fn pool_entries(bytes: Seq<u8>, offset: int, count: int, filled: Seq<CpInfoView>)
    -> Result<(Seq<CpInfoView>, int), ParseError>
    decreases count - filled.len(),
{
    if filled.len() >= count {
        Ok((filled, offset))
    } else {
        match cp_entry(bytes, offset) {
            Err(e) => Err(e),
            Ok((entry, next)) => if entry.is_double_width() {
                if filled.len() + 1 >= count {
                    Err(ParseError::ConstantPoolOverrun)
                } else {
                    pool_entries(bytes, next, count, filled.push(entry).push(CpInfoView::Empty))
                }
            } else {
                pool_entries(bytes, next, count, filled.push(entry))
            },
        }
    }
}

/// A constant pool of `count` indices: index 0 is empty, the entries begin
/// at index 1.
pub open spec fn constant_pool(bytes: Seq<u8>, offset: int, count: int) -> Result<
    (Seq<CpInfoView>, int),
    ParseError,
> {
    if count <= 0 {
        Ok((Seq::empty(), offset))
    } else {
        pool_entries(bytes, offset, count, seq![CpInfoView::Empty])
    }
}

/// One attribute: the index of its name, a four-byte length and as many
/// bytes.
pub open spec fn attribute(bytes: Seq<u8>, offset: int) -> Result<
    (AttributeInfoView, int),
    ParseError,
> {
    match need_u16(bytes, offset) {
        Err(e) => Err(e),
        Ok((attribute_name_index, at)) => match need_u32(bytes, at) {
            Err(e) => Err(e),
            Ok((attribute_length, body)) => match need_bytes(bytes, body, attribute_length as int) {
                Err(e) => Err(e),
                Ok((info, end)) => Ok(
                    (AttributeInfoView { attribute_name_index, attribute_length, info }, end),
                ),
            },
        },
    }
}

/// The rest of `count` attributes of which `done` holds the first.
pub open spec fn attributes_from(
    bytes: Seq<u8>,
    offset: int,
    count: int,
    done: Seq<AttributeInfoView>,
) -> Result<(Seq<AttributeInfoView>, int), ParseError>
    decreases count - done.len(),
{
    if done.len() >= count {
        Ok((done, offset))
    } else {
        match attribute(bytes, offset) {
            Err(e) => Err(e),
            Ok((item, next)) => attributes_from(bytes, next, count, done.push(item)),
        }
    }
}

/// `count` attributes.
pub open spec fn attributes(bytes: Seq<u8>, offset: int, count: int) -> Result<
    (Seq<AttributeInfoView>, int),
    ParseError,
> {
    attributes_from(bytes, offset, count, Seq::empty())
}

/// The four numbers with which a field and a method begin: access flags,
/// name index, descriptor index and the number of attributes.
pub open spec fn member_head(bytes: Seq<u8>, offset: int) -> Result<
    ((u16, u16, u16, u16), int),
    ParseError,
> {
    match need_u16(bytes, offset) {
        Err(e) => Err(e),
        Ok((access_flags, a)) => match need_u16(bytes, a) {
            Err(e) => Err(e),
            Ok((name_index, b)) => match need_u16(bytes, b) {
                Err(e) => Err(e),
                Ok((descriptor_index, c)) => match need_u16(bytes, c) {
                    Err(e) => Err(e),
                    Ok((attributes_count, end)) => Ok(
                        ((access_flags, name_index, descriptor_index, attributes_count), end),
                    ),
                },
            },
        },
    }
}

/// One field: its head and its attributes.
pub open spec fn field(bytes: Seq<u8>, offset: int) -> Result<(FieldInfoView, int), ParseError> {
    match member_head(bytes, offset) {
        Err(e) => Err(e),
        Ok((head, at)) => match attributes(bytes, at, head.3 as int) {
            Err(e) => Err(e),
            Ok((items, end)) => Ok(
                (
                    FieldInfoView {
                        access_flags: head.0,
                        name_index: head.1,
                        descriptor_index: head.2,
                        attributes_count: head.3,
                        attributes: items,
                    },
                    end,
                ),
            ),
        },
    }
}

/// One method: its head and its attributes.
pub open spec fn method(bytes: Seq<u8>, offset: int) -> Result<(MethodInfoView, int), ParseError> {
    match member_head(bytes, offset) {
        Err(e) => Err(e),
        Ok((head, at)) => match attributes(bytes, at, head.3 as int) {
            Err(e) => Err(e),
            Ok((items, end)) => Ok(
                (
                    MethodInfoView {
                        access_flags: head.0,
                        name_index: head.1,
                        descriptor_index: head.2,
                        attributes_count: head.3,
                        attributes: items,
                    },
                    end,
                ),
            ),
        },
    }
}

/// The rest of `count` fields of which `done` holds the first.
pub open spec fn fields_from(bytes: Seq<u8>, offset: int, count: int, done: Seq<FieldInfoView>)
    -> Result<(Seq<FieldInfoView>, int), ParseError>
    decreases count - done.len(),
{
    if done.len() >= count {
        Ok((done, offset))
    } else {
        match field(bytes, offset) {
            Err(e) => Err(e),
            Ok((item, next)) => fields_from(bytes, next, count, done.push(item)),
        }
    }
}

/// The rest of `count` methods of which `done` holds the first.
pub open spec fn methods_from(bytes: Seq<u8>, offset: int, count: int, done: Seq<MethodInfoView>)
    -> Result<(Seq<MethodInfoView>, int), ParseError>
    decreases count - done.len(),
{
    if done.len() >= count {
        Ok((done, offset))
    } else {
        match method(bytes, offset) {
            Err(e) => Err(e),
            Ok((item, next)) => methods_from(bytes, next, count, done.push(item)),
        }
    }
}

/// The rest of `count` interface indices of which `done` holds the first.
pub open spec fn interfaces_from(bytes: Seq<u8>, offset: int, count: int, done: Seq<u16>)
    -> Result<(Seq<u16>, int), ParseError>
    decreases count - done.len(),
{
    if done.len() >= count {
        Ok((done, offset))
    } else {
        match need_u16(bytes, offset) {
            Err(e) => Err(e),
            Ok((item, next)) => interfaces_from(bytes, next, count, done.push(item)),
        }
    }
}

/// The header: the magic number and the two parts of the version.
pub open spec fn header(bytes: Seq<u8>, offset: int) -> Result<((u32, u16, u16), int), ParseError> {
    match need_u32(bytes, offset) {
        Err(e) => Err(e),
        Ok((magic, a)) => match need_u16(bytes, a) {
            Err(e) => Err(e),
            Ok((minor, b)) => match need_u16(bytes, b) {
                Err(e) => Err(e),
                Ok((major, end)) => Ok(((magic, minor, major), end)),
            },
        },
    }
}

/// The access flags of the class and the indices of the class and of its
/// superclass.
pub open spec fn flags_and_classes(bytes: Seq<u8>, offset: int) -> Result<
    ((u16, u16, u16), int),
    ParseError,
> {
    match need_u16(bytes, offset) {
        Err(e) => Err(e),
        Ok((access_flags, a)) => match need_u16(bytes, a) {
            Err(e) => Err(e),
            Ok((this_class, b)) => match need_u16(bytes, b) {
                Err(e) => Err(e),
                Ok((super_class, end)) => Ok(((access_flags, this_class, super_class), end)),
            },
        },
    }
}

/// A count and the constant pool of as many indices.
pub open spec fn pool_section(bytes: Seq<u8>, offset: int) -> Result<
    ((u16, Seq<CpInfoView>), int),
    ParseError,
> {
    match need_u16(bytes, offset) {
        Err(e) => Err(e),
        Ok((count, at)) => match constant_pool(bytes, at, count as int) {
            Err(e) => Err(e),
            Ok((pool, end)) => Ok(((count, pool), end)),
        },
    }
}

/// A count and as many interface indices.
pub open spec fn interfaces_section(bytes: Seq<u8>, offset: int) -> Result<
    ((u16, Seq<u16>), int),
    ParseError,
> {
    match need_u16(bytes, offset) {
        Err(e) => Err(e),
        Ok((count, at)) => match interfaces_from(bytes, at, count as int, Seq::empty()) {
            Err(e) => Err(e),
            Ok((items, end)) => Ok(((count, items), end)),
        },
    }
}

/// A count and as many fields.
pub open spec fn fields_section(bytes: Seq<u8>, offset: int) -> Result<
    ((u16, Seq<FieldInfoView>), int),
    ParseError,
> {
    match need_u16(bytes, offset) {
        Err(e) => Err(e),
        Ok((count, at)) => match fields_from(bytes, at, count as int, Seq::empty()) {
            Err(e) => Err(e),
            Ok((items, end)) => Ok(((count, items), end)),
        },
    }
}

/// A count and as many methods.
pub open spec fn methods_section(bytes: Seq<u8>, offset: int) -> Result<
    ((u16, Seq<MethodInfoView>), int),
    ParseError,
> {
    match need_u16(bytes, offset) {
        Err(e) => Err(e),
        Ok((count, at)) => match methods_from(bytes, at, count as int, Seq::empty()) {
            Err(e) => Err(e),
            Ok((items, end)) => Ok(((count, items), end)),
        },
    }
}

/// A count and as many attributes.
pub open spec fn attributes_section(bytes: Seq<u8>, offset: int) -> Result<
    ((u16, Seq<AttributeInfoView>), int),
    ParseError,
> {
    match need_u16(bytes, offset) {
        Err(e) => Err(e),
        Ok((count, at)) => match attributes(bytes, at, count as int) {
            Err(e) => Err(e),
            Ok((items, end)) => Ok(((count, items), end)),
        },
    }
}

/// A class file: header, constant pool, flags and classes, interfaces,
/// fields, methods and attributes, in this order.
pub open spec fn class_file(
    bytes: Seq<u8>,
    offset: int,
) -> Result<(ClassFileView, int), ParseError> {
    match header(bytes, offset) {
        Err(e) => Err(e),
        Ok((head, a)) => match pool_section(bytes, a) {
            Err(e) => Err(e),
            Ok((pool, b)) => match flags_and_classes(bytes, b) {
                Err(e) => Err(e),
                Ok((flags, c)) => match interfaces_section(bytes, c) {
                    Err(e) => Err(e),
                    Ok((interfaces, d)) => match fields_section(bytes, d) {
                        Err(e) => Err(e),
                        Ok((fields, f)) => match methods_section(bytes, f) {
                            Err(e) => Err(e),
                            Ok((methods, g)) => match attributes_section(bytes, g) {
                                Err(e) => Err(e),
                                Ok((attrs, end)) => Ok(
                                    (
                                        ClassFileView {
                                            magic: head.0,
                                            minor: head.1,
                                            major: head.2,
                                            constant_pool_count: pool.0,
                                            constant_pool: pool.1,
                                            access_flags: flags.0,
                                            this_class: flags.1,
                                            super_class: flags.2,
                                            interfaces_count: interfaces.0,
                                            interfaces: interfaces.1,
                                            fields_count: fields.0,
                                            fields: fields.1,
                                            methods_count: methods.0,
                                            methods: methods.1,
                                            attributes_count: attrs.0,
                                            attributes: attrs.1,
                                        },
                                        end,
                                    ),
                                ),
                            },
                        },
                    },
                },
            },
        },
    }
}

} // verus!
