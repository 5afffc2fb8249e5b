use zvm::parser::attribute_info::AttributeInfo;
use zvm::parser::buffer::Buffer;
use zvm::parser::class_file::{access_flag_names, ClassFile};
use zvm::parser::class_format::ParseError;
use zvm::parser::constant_pool_info::CpInfo;
use zvm::parser::field_info::FieldInfo;
use zvm::parser::method_info::MethodInfo;
use zvm::parser::reader::Reader;

#[test]
fn buffer_reads_big_endian_numbers() {
    let mut buffer = Buffer::new(vec![0x01, 0x02, 0x03, 0x04, 0x05, 0x06, 0x07, 0x08, 0x09]);
    assert_eq!(buffer.len(), 9);
    assert_eq!(buffer.read_u8(), Some(0x01));
    assert_eq!(buffer.offset, 1);
    assert_eq!(buffer.read_u16(), Some(0x0203));
    assert_eq!(buffer.offset, 3);
    assert_eq!(buffer.read_u32(), Some(0x0405_0607));
    assert_eq!(buffer.offset, 7);
    assert_eq!(buffer.read_un(2), Some(vec![0x08, 0x09]));
    assert_eq!(buffer.position(), 9);
    assert_eq!(buffer.read_un(0), Some(vec![]));
    let mut buffer = Buffer::new(vec![0xFF, 0xFF, 0xFF, 0xFF]);
    assert_eq!(buffer.read_u32(), Some(u32::MAX));
    buffer.offset = 2;
    assert_eq!(buffer.read_u16(), Some(u16::MAX));
}

#[test]
fn buffer_reads_nothing_past_its_end() {
    let mut buffer = Buffer::new(vec![0x01, 0x02, 0x03]);
    assert_eq!(buffer.read_u32(), None);
    assert_eq!(buffer.offset, 0);
    assert_eq!(buffer.read_un(4), None);
    assert_eq!(buffer.read_un(3), Some(vec![1, 2, 3]));
    assert_eq!(buffer.read_u8(), None);
    assert_eq!(buffer.read_u16(), None);
    assert_eq!(buffer.read_un(1), None);
    assert_eq!(buffer.offset, 3);
    buffer.offset = 2;
    assert_eq!(buffer.read_u16(), None);
    assert_eq!(buffer.read_u8(), Some(3));
    buffer.offset = 100;
    assert_eq!(buffer.read_u8(), None);
    assert_eq!(buffer.read_un(0), None);
    buffer.offset = usize::MAX;
    assert_eq!(buffer.read_u8(), None);
    assert_eq!(buffer.read_u16(), None);
    assert_eq!(buffer.read_u32(), None);
    assert_eq!(buffer.read_un(usize::MAX), None);
    assert_eq!(buffer.offset, usize::MAX);
    let mut empty = Buffer::new(vec![]);
    assert_eq!(empty.read_u8(), None);
    assert_eq!(empty.read_un(0), Some(vec![]));
}

fn utf8(text: &str) -> CpInfo {
    CpInfo::Utf8 { length: text.len() as u16, bytes: text.as_bytes().to_vec() }
}

fn resolver() -> ClassFile {
    let mut class_file = ClassFile::new();
    class_file.constant_pool = vec![
        CpInfo::Empty,
        utf8("Main"),
        CpInfo::Class { name_index: 1 },
        utf8("count"),
        utf8("I"),
        CpInfo::NameAndType { name_index: 3, descriptor_index: 4 },
        CpInfo::Fieldref { class_index: 2, name_and_type_index: 5 },
        utf8("run"),
        utf8("(I)V"),
        CpInfo::NameAndType { name_index: 7, descriptor_index: 8 },
        CpInfo::Methodref { class_index: 2, name_and_type_index: 9 },
        utf8("gr\u{00FC}\u{00DF} \u{4E16}\u{754C} \u{1F600}"),
        CpInfo::String { string_index: 11 },
        CpInfo::Utf8 { length: 2, bytes: vec![0xC3, 0x28] },
        CpInfo::String { string_index: 13 },
        CpInfo::Integer { bytes: 0x8000_0000 },
        CpInfo::Float { bytes: 0x4049_0FDB },
        CpInfo::Fieldref { class_index: 5, name_and_type_index: 5 },
        CpInfo::Methodref { class_index: 2, name_and_type_index: 2 },
        CpInfo::Class { name_index: 30 },
        CpInfo::InterfaceMethodref { class_index: 2, name_and_type_index: 9 },
        CpInfo::Utf8 { length: 3, bytes: vec![0xED, 0xA0, 0x80] },
        CpInfo::Utf8 { length: 2, bytes: vec![0xC0, 0x80] },
    ];
    class_file.constant_pool_count = class_file.constant_pool.len() as u16;
    class_file
}

#[test]
fn utf8_entries_decode_to_text() {
    let class_file = resolver();
    assert_eq!(class_file.get_utf8(1), Some("Main".to_string()));
    assert_eq!(class_file.get_utf8(11), Some("gr\u{00FC}\u{00DF} \u{4E16}\u{754C} \u{1F600}".to_string()));
    assert_eq!(class_file.get_utf8(0), None);
    assert_eq!(class_file.get_utf8(2), None);
    assert_eq!(class_file.get_utf8(1000), None);
}

#[test]
fn utf8_entries_that_are_not_well_formed_do_not_resolve() {
    let class_file = resolver();
    assert_eq!(class_file.get_utf8(13), None);
    assert_eq!(class_file.get_utf8(21), None);
    assert_eq!(class_file.get_utf8(22), None);
    assert_eq!(class_file.get_string(14), None);
}

#[test]
fn references_resolve_through_the_pool() {
    let class_file = resolver();
    assert_eq!(class_file.get_class_name(2), Some("Main".to_string()));
    assert_eq!(class_file.get_class_name(1), None);
    assert_eq!(class_file.get_class_name(19), None);
    assert_eq!(class_file.get_field_or_method_name(5), Some("count".to_string()));
    assert_eq!(class_file.get_field_or_method_descriptor(5), Some("I".to_string()));
    assert_eq!(class_file.get_field_or_method_name(6), None);
    assert_eq!(class_file.get_field_or_method_descriptor(99), None);
    assert_eq!(
        class_file.get_field_info(6),
        Some(("Main".to_string(), "count".to_string(), "I".to_string()))
    );
    assert_eq!(
        class_file.get_method_info(10),
        Some(("Main".to_string(), "run".to_string(), "(I)V".to_string()))
    );
    assert_eq!(class_file.get_string(12), Some("gr\u{00FC}\u{00DF} \u{4E16}\u{754C} \u{1F600}".to_string()));
    assert_eq!(class_file.get_integer(15), Some(i32::MIN));
    assert_eq!(class_file.get_float(16), Some(0x4049_0FDB));
}

#[test]
fn references_of_the_wrong_kind_do_not_resolve() {
    let class_file = resolver();
    assert_eq!(class_file.get_field_info(10), None);
    assert_eq!(class_file.get_method_info(6), None);
    assert_eq!(class_file.get_method_info(20), None);
    assert_eq!(class_file.get_field_info(17), None);
    assert_eq!(class_file.get_method_info(18), None);
    assert_eq!(class_file.get_field_info(0), None);
    assert_eq!(class_file.get_method_info(500), None);
    assert_eq!(class_file.get_string(11), None);
    assert_eq!(class_file.get_integer(16), None);
    assert_eq!(class_file.get_float(15), None);
    assert_eq!(class_file.get_integer(9999), None);
}

fn plain_method(name_index: u16, info: Vec<u8>) -> MethodInfo {
    MethodInfo {
        access_flags: 1,
        name_index,
        descriptor_index: 8,
        attributes_count: 1,
        attributes: vec![AttributeInfo {
            attribute_name_index: 0,
            attribute_length: info.len() as u32,
            info,
        }],
    }
}

#[test]
fn find_method_takes_the_first_of_a_name() {
    let mut class_file = resolver();
    class_file.methods = vec![
        plain_method(13, vec![]),
        plain_method(3, vec![1]),
        plain_method(7, vec![2]),
        plain_method(7, vec![3]),
    ];
    assert_eq!(class_file.find_method("run").unwrap().attributes[0].info, vec![2]);
    assert_eq!(class_file.find_method("count").unwrap().attributes[0].info, vec![1]);
    assert_eq!(class_file.find_method("Run"), None);
    assert_eq!(class_file.find_method(""), None);
    assert_eq!(ClassFile::new().find_method("run"), None);
}

#[test]
fn code_is_read_from_the_first_attribute() {
    let method = plain_method(7, vec![0x00, 0x02, 0x01, 0x03, 0, 0, 0, 2, 0x03, 0xAC, 0xAA, 0xBB]);
    let code = method.code().unwrap();
    assert_eq!(code.max_stack, 2);
    assert_eq!(code.max_locals, 0x0103);
    assert_eq!(code.bytecode, vec![0x03, 0xAC]);
    let method = plain_method(7, vec![0, 0, 0, 0, 0, 0, 0, 0]);
    assert_eq!(method.code().unwrap().bytecode, vec![]);
    let method = plain_method(7, vec![0, 0, 0, 0, 0, 0, 0, 3, 1, 2]);
    assert_eq!(method.code(), None);
    let method = plain_method(7, vec![0, 0, 0, 0, 0, 0, 0]);
    assert_eq!(method.code(), None);
    let method = plain_method(7, vec![0, 0, 0, 0, 0xFF, 0xFF, 0xFF, 0xFF, 1]);
    assert_eq!(method.code(), None);
    let mut method = plain_method(7, vec![]);
    method.attributes.clear();
    assert_eq!(method.code(), None);
}

fn class_bytes() -> Vec<u8> {
    let mut b: Vec<u8> = Vec::new();
    b.extend_from_slice(&[0xCA, 0xFE, 0xBA, 0xBE, 0x00, 0x03, 0x00, 0x34]);
    // A pool of 20 indices.
    b.extend_from_slice(&[0x00, 20]);
    b.extend_from_slice(&[1, 0x00, 0x04, b'M', b'a', b'i', b'n']); // 1
    b.extend_from_slice(&[7, 0x00, 0x01]); // 2
    b.extend_from_slice(&[3, 0xFF, 0xFF, 0xFF, 0xFE]); // 3
    b.extend_from_slice(&[4, 0x3F, 0x80, 0x00, 0x00]); // 4
    b.extend_from_slice(&[5, 0x01, 0x23, 0x45, 0x67, 0x89, 0xAB, 0xCD, 0xEF]); // 5, 6
    b.extend_from_slice(&[6, 0x40, 0x04, 0x00, 0x00, 0x00, 0x00, 0x00, 0x00]); // 7, 8
    b.extend_from_slice(&[8, 0x00, 0x01]); // 9
    b.extend_from_slice(&[9, 0x00, 0x02, 0x00, 0x0C]); // 10
    b.extend_from_slice(&[10, 0x00, 0x02, 0x00, 0x0C]); // 11
    b.extend_from_slice(&[12, 0x00, 0x01, 0x00, 0x0D]); // 12
    b.extend_from_slice(&[1, 0x00, 0x00]); // 13
    b.extend_from_slice(&[11, 0x00, 0x02, 0x00, 0x0C]); // 14
    b.extend_from_slice(&[15, 0x06, 0x00, 0x0B]); // 15
    b.extend_from_slice(&[16, 0x00, 0x0D]); // 16
    b.extend_from_slice(&[18, 0x00, 0x00, 0x00, 0x0C]); // 17
    b.extend_from_slice(&[3, 0x00, 0x00, 0x00, 0x07]); // 18
    b.extend_from_slice(&[3, 0x00, 0x00, 0x00, 0x08]); // 19
    // Access flags, this class, superclass.
    b.extend_from_slice(&[0x00, 0x21, 0x00, 0x02, 0x00, 0x00]);
    // Two interfaces.
    b.extend_from_slice(&[0x00, 0x02, 0x00, 0x02, 0x00, 0x09]);
    // One field with one attribute.
    b.extend_from_slice(&[0x00, 0x01]);
    b.extend_from_slice(&[0x00, 0x08, 0x00, 0x01, 0x00, 0x0D, 0x00, 0x01]);
    b.extend_from_slice(&[0x00, 0x0D, 0x00, 0x00, 0x00, 0x02, 0x00, 0x03]);
    // Two methods, the first with two attributes, the second with none.
    b.extend_from_slice(&[0x00, 0x02]);
    b.extend_from_slice(&[0x00, 0x09, 0x00, 0x01, 0x00, 0x0D, 0x00, 0x02]);
    b.extend_from_slice(&[0x00, 0x01, 0x00, 0x00, 0x00, 0x03, 0xAA, 0xBB, 0xCC]);
    b.extend_from_slice(&[0x00, 0x0D, 0x00, 0x00, 0x00, 0x00]);
    b.extend_from_slice(&[0x00, 0x00, 0x00, 0x0D, 0x00, 0x01, 0x00, 0x00]);
    // One attribute of the class.
    b.extend_from_slice(&[0x00, 0x01]);
    b.extend_from_slice(&[0x00, 0x01, 0x00, 0x00, 0x00, 0x01, 0x7F]);
    b
}

fn expected_class() -> ClassFile {
    let mut class_file = ClassFile::new();
    class_file.magic = 0xCAFE_BABE;
    class_file.minor = 3;
    class_file.major = 52;
    class_file.constant_pool_count = 20;
    class_file.constant_pool = vec![
        CpInfo::Empty,
        CpInfo::Utf8 { length: 4, bytes: b"Main".to_vec() },
        CpInfo::Class { name_index: 1 },
        CpInfo::Integer { bytes: 0xFFFF_FFFE },
        CpInfo::Float { bytes: 0x3F80_0000 },
        CpInfo::Long { high_bytes: 0x0123_4567, low_bytes: 0x89AB_CDEF },
        CpInfo::Empty,
        CpInfo::Double { high_bytes: 0x4004_0000, low_bytes: 0 },
        CpInfo::Empty,
        CpInfo::String { string_index: 1 },
        CpInfo::Fieldref { class_index: 2, name_and_type_index: 12 },
        CpInfo::Methodref { class_index: 2, name_and_type_index: 12 },
        CpInfo::NameAndType { name_index: 1, descriptor_index: 13 },
        CpInfo::Utf8 { length: 0, bytes: vec![] },
        CpInfo::InterfaceMethodref { class_index: 2, name_and_type_index: 12 },
        CpInfo::MethodHandle { reference_kind: 6, reference_index: 11 },
        CpInfo::MethodType { descriptor_index: 13 },
        CpInfo::InvokeDynamic { bootstrap_method_attr_index: 0, name_and_type_index: 12 },
        CpInfo::Integer { bytes: 7 },
        CpInfo::Integer { bytes: 8 },
    ];
    class_file.access_flags = 0x0021;
    class_file.this_class = 2;
    class_file.super_class = 0;
    class_file.interfaces_count = 2;
    class_file.interfaces = vec![2, 9];
    class_file.fields_count = 1;
    class_file.fields = vec![FieldInfo {
        access_flags: 8,
        name_index: 1,
        descriptor_index: 13,
        attributes_count: 1,
        attributes: vec![AttributeInfo {
            attribute_name_index: 13,
            attribute_length: 2,
            info: vec![0x00, 0x03],
        }],
    }];
    class_file.methods_count = 2;
    class_file.methods = vec![
        MethodInfo {
            access_flags: 9,
            name_index: 1,
            descriptor_index: 13,
            attributes_count: 2,
            attributes: vec![
                AttributeInfo {
                    attribute_name_index: 1,
                    attribute_length: 3,
                    info: vec![0xAA, 0xBB, 0xCC],
                },
                AttributeInfo { attribute_name_index: 13, attribute_length: 0, info: vec![] },
            ],
        },
        MethodInfo {
            access_flags: 0,
            name_index: 13,
            descriptor_index: 1,
            attributes_count: 0,
            attributes: vec![],
        },
    ];
    class_file.attributes_count = 1;
    class_file.attributes =
        vec![AttributeInfo { attribute_name_index: 1, attribute_length: 1, info: vec![0x7F] }];
    class_file
}

#[test]
fn reader_reads_a_class_file() {
    let bytes = class_bytes();
    let length = bytes.len();
    let mut reader = Reader::new(bytes);
    assert_eq!(reader.class_file(), &ClassFile::new());
    assert_eq!(reader.position(), 0);
    assert_eq!(reader.read(), Ok(()));
    assert_eq!(reader.position(), length);
    assert_eq!(reader.class_file(), &expected_class());
    assert_eq!(reader.into_class_file(), expected_class());
}

#[test]
fn reader_leaves_bytes_behind_the_class_file_alone() {
    let mut bytes = class_bytes();
    let length = bytes.len();
    bytes.extend_from_slice(&[1, 2, 3]);
    let mut reader = Reader::new(bytes);
    assert_eq!(reader.read(), Ok(()));
    assert_eq!(reader.position(), length);
    assert_eq!(reader.class_file(), &expected_class());
}

#[test]
fn reader_fails_on_every_truncation() {
    let bytes = class_bytes();
    for length in 0..bytes.len() {
        let mut reader = Reader::new(bytes[..length].to_vec());
        assert_eq!(reader.read(), Err(ParseError::UnexpectedEnd), "at length {}", length);
    }
}

#[test]
fn reader_fails_on_an_unknown_tag() {
    for tag in [0u8, 2, 13, 14, 17, 19, 20, 255] {
        let mut bytes = class_bytes();
        bytes[10] = tag;
        let mut reader = Reader::new(bytes);
        assert_eq!(reader.read(), Err(ParseError::UnknownConstantTag(tag)));
    }
}

#[test]
fn reader_fails_on_a_long_at_the_last_index() {
    let mut bytes = vec![0xCA, 0xFE, 0xBA, 0xBE, 0, 0, 0, 52, 0, 2];
    bytes.extend_from_slice(&[5, 0, 0, 0, 0, 0, 0, 0, 1]);
    bytes.extend_from_slice(&[0; 16]);
    let mut reader = Reader::new(bytes.clone());
    assert_eq!(reader.read(), Err(ParseError::ConstantPoolOverrun));
    bytes[10] = 6;
    let mut reader = Reader::new(bytes.clone());
    assert_eq!(reader.read(), Err(ParseError::ConstantPoolOverrun));
    bytes[9] = 3;
    let mut reader = Reader::new(bytes);
    assert_eq!(reader.read(), Ok(()));
    assert_eq!(
        reader.class_file().constant_pool,
        vec![CpInfo::Empty, CpInfo::Double { high_bytes: 0, low_bytes: 1 }, CpInfo::Empty]
    );
}

#[test]
fn reader_reads_the_smallest_class_file() {
    let mut bytes = vec![0, 0, 0, 0, 0, 0, 0, 0];
    bytes.extend_from_slice(&[0, 0]);
    bytes.extend_from_slice(&[0, 0, 0, 0, 0, 0]);
    bytes.extend_from_slice(&[0, 0, 0, 0, 0, 0, 0, 0]);
    let mut reader = Reader::new(bytes);
    assert_eq!(reader.read(), Ok(()));
    assert_eq!(reader.class_file(), &ClassFile::new());
    let mut bytes = vec![0, 0, 0, 0, 0, 0, 0, 0];
    bytes.extend_from_slice(&[0, 1]);
    bytes.extend_from_slice(&[0; 14]);
    let mut reader = Reader::new(bytes);
    assert_eq!(reader.read(), Ok(()));
    assert_eq!(reader.class_file().constant_pool, vec![CpInfo::Empty]);
    assert_eq!(reader.class_file().constant_pool_count, 1);
}

#[test]
fn a_parsed_class_resolves_its_constants() {
    let mut reader = Reader::new(class_bytes());
    assert_eq!(reader.read(), Ok(()));
    let class_file = reader.into_class_file();
    assert_eq!(class_file.get_class_name(2), Some("Main".to_string()));
    assert_eq!(class_file.get_string(9), Some("Main".to_string()));
    assert_eq!(class_file.get_integer(3), Some(-2));
    assert_eq!(
        class_file.get_field_info(10),
        Some(("Main".to_string(), "Main".to_string(), String::new()))
    );
    assert_eq!(class_file.find_method("Main").unwrap().attributes_count, 2);
    assert_eq!(class_file.find_method("").unwrap().attributes_count, 0);
}

#[test]
fn access_flags_are_named_in_order() {
    assert_eq!(access_flag_names(0), Vec::<&str>::new());
    assert_eq!(access_flag_names(0x0021), vec!["ACC_PUBLIC", "ACC_SUPER"]);
    assert_eq!(access_flag_names(0x0002), Vec::<&str>::new());
    assert_eq!(
        access_flag_names(0xFFFF),
        vec![
            "ACC_PUBLIC",
            "ACC_FINAL",
            "ACC_SUPER",
            "ACC_INTERFACE",
            "ACC_ABSTRACT",
            "ACC_SYNTHETIC",
            "ACC_ANNOTATION",
            "ACC_ENUM",
            "ACC_MODULE"
        ]
    );
    assert_eq!(access_flag_names(0x8400), vec!["ACC_ABSTRACT", "ACC_MODULE"]);
}
