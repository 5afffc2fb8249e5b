use vstd::prelude::*;
use crate::parser::attribute_info::{AttributeInfo, AttributeInfoView, attributes_view};
use crate::parser::buffer::{Buffer, BufferView};
use crate::parser::class_file::{ClassFile, ClassFileView};
use crate::parser::class_format;
use crate::parser::class_format::ParseError;
use crate::parser::constant_pool_info::{CpInfo, CpInfoView, pool_view};
use crate::parser::field_info::{FieldInfo, fields_view};
use crate::parser::method_info::{MethodInfo, methods_view};

verus! {

/// Reads the bytes of a class file into a [`ClassFile`].
#[derive(Debug, Clone)]
pub struct Reader {
    buffer: Buffer,
    class_file: ClassFile,
}

/// Whether what was read, with the reader then at the offset `end`, is what
/// the layout has at the place where the reader stood.
pub open spec fn as_expected<V>(
    expected: Result<(V, int), ParseError>,
    got: Result<V, ParseError>,
    end: int,
) -> bool {
    match expected {
        Ok((item, offset)) => got == Ok::<V, ParseError>(item) && end == offset,
        Err(e) => got == Err::<V, ParseError>(e),
    }
}

/// The model of what was read, or the error.
pub open spec fn viewed<T: View>(r: Result<T, ParseError>) -> Result<T::V, ParseError> {
    match r {
        Ok(item) => Ok(item@),
        Err(e) => Err(e),
    }
}

/// The models of the entries that were read, or the error.
pub open spec fn viewed_pool(r: Result<Vec<CpInfo>, ParseError>) -> Result<
    Seq<CpInfoView>,
    ParseError,
> {
    match r {
        Ok(items) => Ok(pool_view(items@)),
        Err(e) => Err(e),
    }
}

/// The models of the attributes that were read, or the error.
pub open spec fn viewed_attributes(r: Result<Vec<AttributeInfo>, ParseError>) -> Result<
    Seq<AttributeInfoView>,
    ParseError,
> {
    match r {
        Ok(items) => Ok(attributes_view(items@)),
        Err(e) => Err(e),
    }
}

impl Reader {
    /// The bytes to read and the offset of the next one.
    pub closed spec fn input(&self) -> BufferView {
        self.buffer@
    }

    /// What has been read into the class file.
    pub closed spec fn parsed(&self) -> ClassFileView {
        self.class_file@
    }

    /// A reader on the bytes of a class file, with nothing read yet.
    pub fn new(bytes: Vec<u8>) -> (r: Self)
        ensures
            r.input() == (BufferView { bytes: bytes@, offset: 0 }),
            r.parsed() == ClassFileView::empty(),
    {
        Reader { buffer: Buffer::new(bytes), class_file: ClassFile::new() }
    }

    /// The class file as far as it has been read.
    pub fn class_file(&self) -> (r: &ClassFile)
        ensures
            r@ == self.parsed(),
    {
        &self.class_file
    }

    /// Gives up the reader for the class file that it has read.
    pub fn into_class_file(self) -> (r: ClassFile)
        ensures
            r@ == self.parsed(),
    {
        self.class_file
    }

    /// The offset of the next byte to read.
    pub fn position(&self) -> (r: usize)
        ensures
            r == self.input().offset,
    {
        self.buffer.position()
    }

    /// Reads a whole class file from the offset at which the reader
    /// stands: header, constant pool, flags and classes, interfaces, fields,
    /// methods and attributes.
    pub fn read(&mut self) -> (r: Result<(), ParseError>)
        ensures
            final(self).input().bytes == old(self).input().bytes,
            match class_format::class_file(old(self).input().bytes, old(self).input().offset) {
                Ok((class, end)) => {
                    &&& r is Ok
                    &&& final(self).parsed() == class
                    &&& final(self).input().offset == end
                },
                Err(e) => r is Err && r->Err_0 == e,
            },
    {
        self.read_header()?;
        self.read_cp()?;
        self.read_flags_and_classes()?;
        self.read_interfaces()?;
        self.read_fields()?;
        self.read_methods()?;
        self.read_attributes()?;
        Ok(())
    }

    /// Reads a `u8`, or fails at the end of the bytes.
    fn need_u8(&mut self) -> (r: Result<u8, ParseError>)
        ensures
            final(self).parsed() == old(self).parsed(),
            final(self).input().bytes == old(self).input().bytes,
            as_expected(
                class_format::need_u8(
                    old(self).input().bytes,
                    old(self).input().offset,
                ),
                viewed(r),
                final(self).input().offset,
            ),
    {
        match self.buffer.read_u8() {
            Some(v) => Ok(v),
            None => Err(ParseError::UnexpectedEnd),
        }
    }

    /// Reads a `u16`, or fails at the end of the bytes.
    fn need_u16(&mut self) -> (r: Result<u16, ParseError>)
        ensures
            final(self).parsed() == old(self).parsed(),
            final(self).input().bytes == old(self).input().bytes,
            as_expected(
                class_format::need_u16(
                    old(self).input().bytes,
                    old(self).input().offset,
                ),
                viewed(r),
                final(self).input().offset,
            ),
    {
        match self.buffer.read_u16() {
            Some(v) => Ok(v),
            None => Err(ParseError::UnexpectedEnd),
        }
    }

    /// Reads a `u32`, or fails at the end of the bytes.
    fn need_u32(&mut self) -> (r: Result<u32, ParseError>)
        ensures
            final(self).parsed() == old(self).parsed(),
            final(self).input().bytes == old(self).input().bytes,
            as_expected(
                class_format::need_u32(
                    old(self).input().bytes,
                    old(self).input().offset,
                ),
                viewed(r),
                final(self).input().offset,
            ),
    {
        match self.buffer.read_u32() {
            Some(v) => Ok(v),
            None => Err(ParseError::UnexpectedEnd),
        }
    }

    /// Reads `n` bytes, or fails at the end of the bytes.
    fn need_bytes(&mut self, n: usize) -> (r: Result<Vec<u8>, ParseError>)
        ensures
            final(self).parsed() == old(self).parsed(),
            final(self).input().bytes == old(self).input().bytes,
            as_expected(
                class_format::need_bytes(
                    old(self).input().bytes,
                    old(self).input().offset,
                    n as int,
                ),
                viewed(r),
                final(self).input().offset,
            ),
    {
        match self.buffer.read_un(n) {
            Some(v) => Ok(v),
            None => Err(ParseError::UnexpectedEnd),
        }
    }

    /// Reads the body of a `Utf8` entry.
    fn read_utf8_entry(&mut self) -> (r: Result<CpInfo, ParseError>)
        ensures
            final(self).parsed() == old(self).parsed(),
            final(self).input().bytes == old(self).input().bytes,
            as_expected(
                class_format::utf8_entry(
                    old(self).input().bytes,
                    old(self).input().offset,
                ),
                viewed(r),
                final(self).input().offset,
            ),
    {
        let length = self.need_u16()?;
        let bytes = self.need_bytes(length as usize)?;
        Ok(CpInfo::Utf8 { length, bytes })
    }

    /// Reads the body of a `Integer` entry.
    fn read_integer_entry(&mut self) -> (r: Result<CpInfo, ParseError>)
        ensures
            final(self).parsed() == old(self).parsed(),
            final(self).input().bytes == old(self).input().bytes,
            as_expected(
                class_format::integer_entry(
                    old(self).input().bytes,
                    old(self).input().offset,
                ),
                viewed(r),
                final(self).input().offset,
            ),
    {
        let bytes = self.need_u32()?;
        Ok(CpInfo::Integer { bytes })
    }

    /// Reads the body of a `Float` entry.
    fn read_float_entry(&mut self) -> (r: Result<CpInfo, ParseError>)
        ensures
            final(self).parsed() == old(self).parsed(),
            final(self).input().bytes == old(self).input().bytes,
            as_expected(
                class_format::float_entry(
                    old(self).input().bytes,
                    old(self).input().offset,
                ),
                viewed(r),
                final(self).input().offset,
            ),
    {
        let bytes = self.need_u32()?;
        Ok(CpInfo::Float { bytes })
    }

    /// Reads the body of a `Long` entry.
    fn read_long_entry(&mut self) -> (r: Result<CpInfo, ParseError>)
        ensures
            final(self).parsed() == old(self).parsed(),
            final(self).input().bytes == old(self).input().bytes,
            as_expected(
                class_format::long_entry(
                    old(self).input().bytes,
                    old(self).input().offset,
                ),
                viewed(r),
                final(self).input().offset,
            ),
    {
        let high_bytes = self.need_u32()?;
        let low_bytes = self.need_u32()?;
        Ok(CpInfo::Long { high_bytes, low_bytes })
    }

    /// Reads the body of a `Double` entry.
    fn read_double_entry(&mut self) -> (r: Result<CpInfo, ParseError>)
        ensures
            final(self).parsed() == old(self).parsed(),
            final(self).input().bytes == old(self).input().bytes,
            as_expected(
                class_format::double_entry(
                    old(self).input().bytes,
                    old(self).input().offset,
                ),
                viewed(r),
                final(self).input().offset,
            ),
    {
        let high_bytes = self.need_u32()?;
        let low_bytes = self.need_u32()?;
        Ok(CpInfo::Double { high_bytes, low_bytes })
    }

    /// Reads the body of a `Class` entry.
    fn read_class_entry(&mut self) -> (r: Result<CpInfo, ParseError>)
        ensures
            final(self).parsed() == old(self).parsed(),
            final(self).input().bytes == old(self).input().bytes,
            as_expected(
                class_format::class_entry(
                    old(self).input().bytes,
                    old(self).input().offset,
                ),
                viewed(r),
                final(self).input().offset,
            ),
    {
        let name_index = self.need_u16()?;
        Ok(CpInfo::Class { name_index })
    }

    /// Reads the body of a `String` entry.
    fn read_string_entry(&mut self) -> (r: Result<CpInfo, ParseError>)
        ensures
            final(self).parsed() == old(self).parsed(),
            final(self).input().bytes == old(self).input().bytes,
            as_expected(
                class_format::string_entry(
                    old(self).input().bytes,
                    old(self).input().offset,
                ),
                viewed(r),
                final(self).input().offset,
            ),
    {
        let string_index = self.need_u16()?;
        Ok(CpInfo::String { string_index })
    }

    /// Reads the body of a `Fieldref` entry.
    fn read_fieldref_entry(&mut self) -> (r: Result<CpInfo, ParseError>)
        ensures
            final(self).parsed() == old(self).parsed(),
            final(self).input().bytes == old(self).input().bytes,
            as_expected(
                class_format::fieldref_entry(
                    old(self).input().bytes,
                    old(self).input().offset,
                ),
                viewed(r),
                final(self).input().offset,
            ),
    {
        let class_index = self.need_u16()?;
        let name_and_type_index = self.need_u16()?;
        Ok(CpInfo::Fieldref { class_index, name_and_type_index })
    }

    /// Reads the body of a `Methodref` entry.
    fn read_methodref_entry(&mut self) -> (r: Result<CpInfo, ParseError>)
        ensures
            final(self).parsed() == old(self).parsed(),
            final(self).input().bytes == old(self).input().bytes,
            as_expected(
                class_format::methodref_entry(
                    old(self).input().bytes,
                    old(self).input().offset,
                ),
                viewed(r),
                final(self).input().offset,
            ),
    {
        let class_index = self.need_u16()?;
        let name_and_type_index = self.need_u16()?;
        Ok(CpInfo::Methodref { class_index, name_and_type_index })
    }

    /// Reads the body of a `InterfaceMethodref` entry.
    fn read_interface_methodref_entry(&mut self) -> (r: Result<CpInfo, ParseError>)
        ensures
            final(self).parsed() == old(self).parsed(),
            final(self).input().bytes == old(self).input().bytes,
            as_expected(
                class_format::interface_methodref_entry(
                    old(self).input().bytes,
                    old(self).input().offset,
                ),
                viewed(r),
                final(self).input().offset,
            ),
    {
        let class_index = self.need_u16()?;
        let name_and_type_index = self.need_u16()?;
        Ok(CpInfo::InterfaceMethodref { class_index, name_and_type_index })
    }

    /// Reads the body of a `NameAndType` entry.
    fn read_name_and_type_entry(&mut self) -> (r: Result<CpInfo, ParseError>)
        ensures
            final(self).parsed() == old(self).parsed(),
            final(self).input().bytes == old(self).input().bytes,
            as_expected(
                class_format::name_and_type_entry(
                    old(self).input().bytes,
                    old(self).input().offset,
                ),
                viewed(r),
                final(self).input().offset,
            ),
    {
        let name_index = self.need_u16()?;
        let descriptor_index = self.need_u16()?;
        Ok(CpInfo::NameAndType { name_index, descriptor_index })
    }

    /// Reads the body of a `MethodHandle` entry.
    fn read_method_handle_entry(&mut self) -> (r: Result<CpInfo, ParseError>)
        ensures
            final(self).parsed() == old(self).parsed(),
            final(self).input().bytes == old(self).input().bytes,
            as_expected(
                class_format::method_handle_entry(
                    old(self).input().bytes,
                    old(self).input().offset,
                ),
                viewed(r),
                final(self).input().offset,
            ),
    {
        let reference_kind = self.need_u8()?;
        let reference_index = self.need_u16()?;
        Ok(CpInfo::MethodHandle { reference_kind, reference_index })
    }

    /// Reads the body of a `MethodType` entry.
    fn read_method_type_entry(&mut self) -> (r: Result<CpInfo, ParseError>)
        ensures
            final(self).parsed() == old(self).parsed(),
            final(self).input().bytes == old(self).input().bytes,
            as_expected(
                class_format::method_type_entry(
                    old(self).input().bytes,
                    old(self).input().offset,
                ),
                viewed(r),
                final(self).input().offset,
            ),
    {
        let descriptor_index = self.need_u16()?;
        Ok(CpInfo::MethodType { descriptor_index })
    }

    /// Reads the body of a `InvokeDynamic` entry.
    fn read_invoke_dynamic_entry(&mut self) -> (r: Result<CpInfo, ParseError>)
        ensures
            final(self).parsed() == old(self).parsed(),
            final(self).input().bytes == old(self).input().bytes,
            as_expected(
                class_format::invoke_dynamic_entry(
                    old(self).input().bytes,
                    old(self).input().offset,
                ),
                viewed(r),
                final(self).input().offset,
            ),
    {
        let bootstrap_method_attr_index = self.need_u16()?;
        let name_and_type_index = self.need_u16()?;
        Ok(CpInfo::InvokeDynamic { bootstrap_method_attr_index, name_and_type_index })
    }

    /// Reads one constant-pool entry: its tag and the body that goes with
    /// the tag.
    fn read_single_cp_entry(&mut self) -> (r: Result<CpInfo, ParseError>)
        ensures
            final(self).parsed() == old(self).parsed(),
            final(self).input().bytes == old(self).input().bytes,
            as_expected(
                class_format::cp_entry(
                    old(self).input().bytes,
                    old(self).input().offset,
                ),
                viewed(r),
                final(self).input().offset,
            ),
    {
        let tag = self.need_u8()?;
        match tag {
            1 => self.read_utf8_entry(),
            3 => self.read_integer_entry(),
            4 => self.read_float_entry(),
            5 => self.read_long_entry(),
            6 => self.read_double_entry(),
            7 => self.read_class_entry(),
            8 => self.read_string_entry(),
            9 => self.read_fieldref_entry(),
            10 => self.read_methodref_entry(),
            11 => self.read_interface_methodref_entry(),
            12 => self.read_name_and_type_entry(),
            15 => self.read_method_handle_entry(),
            16 => self.read_method_type_entry(),
            18 => self.read_invoke_dynamic_entry(),
            _ => Err(ParseError::UnknownConstantTag(tag)),
        }
    }

    /// Whether the entry is a `Long` or a `Double`, which take two indices
    /// of the constant pool.
    fn is_double_width_entry(&self, entry: &CpInfo) -> (r: bool)
        ensures
            r == entry@.is_double_width(),
    {
        match entry {
            CpInfo::Long { .. } => true,
            CpInfo::Double { .. } => true,
            _ => false,
        }
    }

    /// Reads the entries of a constant pool of `pool_count` indices.
    fn read_cp_entries(&mut self, pool_count: u16) -> (r: Result<Vec<CpInfo>, ParseError>)
        ensures
            final(self).parsed() == old(self).parsed(),
            final(self).input().bytes == old(self).input().bytes,
            as_expected(
                class_format::constant_pool(
                    old(self).input().bytes,
                    old(self).input().offset,
                    pool_count as int,
                ),
                viewed_pool(r),
                final(self).input().offset,
            ),
    {
        let mut pool: Vec<CpInfo> = Vec::new();
        if pool_count == 0 {
            assert(pool_view(pool@) =~= Seq::<CpInfoView>::empty());
            return Ok(pool);
        }
        pool.push(CpInfo::Empty);
        assert(pool_view(pool@) =~= seq![CpInfoView::Empty]);
        let ghost bytes = self.input().bytes;
        let ghost count = pool_count as int;
        let ghost goal = class_format::constant_pool(bytes, self.input().offset, count);
        while pool.len() < pool_count as usize
            invariant
                self.parsed() == old(self).parsed(),
                self.input().bytes == bytes,
                bytes == old(self).input().bytes,
                pool.len() <= pool_count,
                count == pool_count,
                goal == class_format::constant_pool(bytes, old(self).input().offset, count),
                goal == class_format::pool_entries(
                    bytes,
                    self.input().offset,
                    count,
                    pool_view(pool@),
                ),
            decreases pool_count - pool.len(),
        {
            let ghost filled = pool_view(pool@);
            let entry = self.read_single_cp_entry()?;
            let double = self.is_double_width_entry(&entry);
            pool.push(entry);
            assert(pool_view(pool@) =~= filled.push(entry@));
            if double {
                if pool.len() >= pool_count as usize {
                    return Err(ParseError::ConstantPoolOverrun);
                }
                pool.push(CpInfo::Empty);
                assert(pool_view(pool@) =~= filled.push(entry@).push(CpInfoView::Empty));
            }
        }
        Ok(pool)
    }

    /// Reads one attribute.
    fn parse_attr_info(&mut self) -> (r: Result<AttributeInfo, ParseError>)
        ensures
            final(self).parsed() == old(self).parsed(),
            final(self).input().bytes == old(self).input().bytes,
            as_expected(
                class_format::attribute(
                    old(self).input().bytes,
                    old(self).input().offset,
                ),
                viewed(r),
                final(self).input().offset,
            ),
    {
        let attribute_name_index = self.need_u16()?;
        let attribute_length = self.need_u32()?;
        let info = self.need_bytes(attribute_length as usize)?;
        Ok(AttributeInfo { attribute_name_index, attribute_length, info })
    }

    /// Reads `count` attributes.
    fn parse_attributes(&mut self, count: u16) -> (r: Result<Vec<AttributeInfo>, ParseError>)
        ensures
            final(self).parsed() == old(self).parsed(),
            final(self).input().bytes == old(self).input().bytes,
            as_expected(
                class_format::attributes(
                    old(self).input().bytes,
                    old(self).input().offset,
                    count as int,
                ),
                viewed_attributes(r),
                final(self).input().offset,
            ),
    {
        let mut items: Vec<AttributeInfo> = Vec::new();
        assert(attributes_view(items@) =~= Seq::empty());
        let ghost bytes = self.input().bytes;
        let ghost goal = class_format::attributes(bytes, old(self).input().offset, count as int);
        while items.len() < count as usize
            invariant
                self.parsed() == old(self).parsed(),
                self.input().bytes == bytes,
                bytes == old(self).input().bytes,
                items.len() <= count,
                goal == class_format::attributes(bytes, old(self).input().offset, count as int),
                goal == class_format::attributes_from(
                    bytes,
                    self.input().offset,
                    count as int,
                    attributes_view(items@),
                ),
            decreases count - items.len(),
        {
            let ghost done = attributes_view(items@);
            let item = self.parse_attr_info()?;
            items.push(item);
            assert(attributes_view(items@) =~= done.push(item@));
        }
        Ok(items)
    }

    /// Reads the four numbers with which a field and a method begin.
    fn parse_member_head(&mut self) -> (r: Result<(u16, u16, u16, u16), ParseError>)
        ensures
            final(self).parsed() == old(self).parsed(),
            final(self).input().bytes == old(self).input().bytes,
            as_expected(
                class_format::member_head(
                    old(self).input().bytes,
                    old(self).input().offset,
                ),
                r,
                final(self).input().offset,
            ),
    {
        let access_flags = self.need_u16()?;
        let name_index = self.need_u16()?;
        let descriptor_index = self.need_u16()?;
        let attributes_count = self.need_u16()?;
        Ok((access_flags, name_index, descriptor_index, attributes_count))
    }

    /// Reads one field.
    fn parse_field_info(&mut self) -> (r: Result<FieldInfo, ParseError>)
        ensures
            final(self).parsed() == old(self).parsed(),
            final(self).input().bytes == old(self).input().bytes,
            as_expected(
                class_format::field(
                    old(self).input().bytes,
                    old(self).input().offset,
                ),
                viewed(r),
                final(self).input().offset,
            ),
    {
        let head = self.parse_member_head()?;
        let attributes = self.parse_attributes(head.3)?;
        Ok(
            FieldInfo {
                access_flags: head.0,
                name_index: head.1,
                descriptor_index: head.2,
                attributes_count: head.3,
                attributes,
            },
        )
    }

    /// Reads one method.
    fn parse_method_info(&mut self) -> (r: Result<MethodInfo, ParseError>)
        ensures
            final(self).parsed() == old(self).parsed(),
            final(self).input().bytes == old(self).input().bytes,
            as_expected(
                class_format::method(
                    old(self).input().bytes,
                    old(self).input().offset,
                ),
                viewed(r),
                final(self).input().offset,
            ),
    {
        let head = self.parse_member_head()?;
        let attributes = self.parse_attributes(head.3)?;
        Ok(
            MethodInfo {
                access_flags: head.0,
                name_index: head.1,
                descriptor_index: head.2,
                attributes_count: head.3,
                attributes,
            },
        )
    }

    /// Reads the magic number and the version.
    fn read_header(&mut self) -> (r: Result<(), ParseError>)
        ensures
            final(self).input().bytes == old(self).input().bytes,
            match class_format::header(
                old(self).input().bytes,
                old(self).input().offset,
            ) {
                Ok((read, end)) => {
                    &&& r is Ok
                    &&& final(self).input().offset == end
                    &&& final(self).parsed() == (ClassFileView {
                        magic: read.0,
                        minor: read.1,
                        major: read.2,
                        ..old(self).parsed()
                    })
                },
                Err(e) => r is Err && r->Err_0 == e,
            },
    {
        let magic = self.need_u32()?;
        let minor = self.need_u16()?;
        let major = self.need_u16()?;
        self.class_file.magic = magic;
        self.class_file.minor = minor;
        self.class_file.major = major;
        Ok(())
    }

    /// Reads the constant pool: its count and its entries.
    fn read_cp(&mut self) -> (r: Result<(), ParseError>)
        ensures
            final(self).input().bytes == old(self).input().bytes,
            match class_format::pool_section(
                old(self).input().bytes,
                old(self).input().offset,
            ) {
                Ok((read, end)) => {
                    &&& r is Ok
                    &&& final(self).input().offset == end
                    &&& final(self).parsed() == (ClassFileView {
                        constant_pool_count: read.0,
                        constant_pool: read.1,
                        ..old(self).parsed()
                    })
                },
                Err(e) => r is Err && r->Err_0 == e,
            },
    {
        let constant_pool_count = self.need_u16()?;
        let pool = self.read_cp_entries(constant_pool_count)?;
        self.class_file.constant_pool_count = constant_pool_count;
        self.class_file.constant_pool = pool;
        Ok(())
    }

    /// Reads the access flags and the indices of the class and its
    /// superclass.
    fn read_flags_and_classes(&mut self) -> (r: Result<(), ParseError>)
        ensures
            final(self).input().bytes == old(self).input().bytes,
            match class_format::flags_and_classes(
                old(self).input().bytes,
                old(self).input().offset,
            ) {
                Ok((read, end)) => {
                    &&& r is Ok
                    &&& final(self).input().offset == end
                    &&& final(self).parsed() == (ClassFileView {
                        access_flags: read.0,
                        this_class: read.1,
                        super_class: read.2,
                        ..old(self).parsed()
                    })
                },
                Err(e) => r is Err && r->Err_0 == e,
            },
    {
        let access_flags = self.need_u16()?;
        let this_class = self.need_u16()?;
        let super_class = self.need_u16()?;
        self.class_file.access_flags = access_flags;
        self.class_file.this_class = this_class;
        self.class_file.super_class = super_class;
        Ok(())
    }

    /// Reads the interfaces: their count and their indices.
    fn read_interfaces(&mut self) -> (r: Result<(), ParseError>)
        ensures
            final(self).input().bytes == old(self).input().bytes,
            match class_format::interfaces_section(
                old(self).input().bytes,
                old(self).input().offset,
            ) {
                Ok((read, end)) => {
                    &&& r is Ok
                    &&& final(self).input().offset == end
                    &&& final(self).parsed() == (ClassFileView {
                        interfaces_count: read.0,
                        interfaces: read.1,
                        ..old(self).parsed()
                    })
                },
                Err(e) => r is Err && r->Err_0 == e,
            },
    {
        let count = self.need_u16()?;
        let mut items: Vec<u16> = Vec::new();
        assert(items@ =~= Seq::empty());
        let ghost bytes = self.input().bytes;
        let ghost start = self.input().offset;
        let ghost goal = class_format::interfaces_from(bytes, start, count as int, Seq::empty());
        while items.len() < count as usize
            invariant
                self.parsed() == old(self).parsed(),
                self.input().bytes == bytes,
                bytes == old(self).input().bytes,
                items.len() <= count,
                class_format::need_u16(bytes, old(self).input().offset) == Ok::<
                    (u16, int),
                    ParseError,
                >((count, start)),
                goal == class_format::interfaces_from(bytes, start, count as int, Seq::empty()),
                goal == class_format::interfaces_from(
                    bytes,
                    self.input().offset,
                    count as int,
                    items@,
                ),
            decreases count - items.len(),
        {
            let ghost done = items@;
            let item = self.need_u16()?;
            items.push(item);
            assert(items@ =~= done.push(item));
        }
        self.class_file.interfaces_count = count;
        self.class_file.interfaces = items;
        Ok(())
    }

    /// Reads the fields: their count and the fields.
    fn read_fields(&mut self) -> (r: Result<(), ParseError>)
        ensures
            final(self).input().bytes == old(self).input().bytes,
            match class_format::fields_section(
                old(self).input().bytes,
                old(self).input().offset,
            ) {
                Ok((read, end)) => {
                    &&& r is Ok
                    &&& final(self).input().offset == end
                    &&& final(self).parsed() == (ClassFileView {
                        fields_count: read.0,
                        fields: read.1,
                        ..old(self).parsed()
                    })
                },
                Err(e) => r is Err && r->Err_0 == e,
            },
    {
        let count = self.need_u16()?;
        let mut items: Vec<FieldInfo> = Vec::new();
        assert(fields_view(items@) =~= Seq::empty());
        let ghost bytes = self.input().bytes;
        let ghost start = self.input().offset;
        let ghost goal = class_format::fields_from(bytes, start, count as int, Seq::empty());
        while items.len() < count as usize
            invariant
                self.parsed() == old(self).parsed(),
                self.input().bytes == bytes,
                bytes == old(self).input().bytes,
                items.len() <= count,
                class_format::need_u16(bytes, old(self).input().offset) == Ok::<
                    (u16, int),
                    ParseError,
                >((count, start)),
                goal == class_format::fields_from(bytes, start, count as int, Seq::empty()),
                goal == class_format::fields_from(
                    bytes,
                    self.input().offset,
                    count as int,
                    fields_view(items@),
                ),
            decreases count - items.len(),
        {
            let ghost done = fields_view(items@);
            let item = self.parse_field_info()?;
            items.push(item);
            assert(fields_view(items@) =~= done.push(item@));
        }
        self.class_file.fields_count = count;
        self.class_file.fields = items;
        Ok(())
    }

    /// Reads the methods: their count and the methods.
    fn read_methods(&mut self) -> (r: Result<(), ParseError>)
        ensures
            final(self).input().bytes == old(self).input().bytes,
            match class_format::methods_section(
                old(self).input().bytes,
                old(self).input().offset,
            ) {
                Ok((read, end)) => {
                    &&& r is Ok
                    &&& final(self).input().offset == end
                    &&& final(self).parsed() == (ClassFileView {
                        methods_count: read.0,
                        methods: read.1,
                        ..old(self).parsed()
                    })
                },
                Err(e) => r is Err && r->Err_0 == e,
            },
    {
        let count = self.need_u16()?;
        let mut items: Vec<MethodInfo> = Vec::new();
        assert(methods_view(items@) =~= Seq::empty());
        let ghost bytes = self.input().bytes;
        let ghost start = self.input().offset;
        let ghost goal = class_format::methods_from(bytes, start, count as int, Seq::empty());
        while items.len() < count as usize
            invariant
                self.parsed() == old(self).parsed(),
                self.input().bytes == bytes,
                bytes == old(self).input().bytes,
                items.len() <= count,
                class_format::need_u16(bytes, old(self).input().offset) == Ok::<
                    (u16, int),
                    ParseError,
                >((count, start)),
                goal == class_format::methods_from(bytes, start, count as int, Seq::empty()),
                goal == class_format::methods_from(
                    bytes,
                    self.input().offset,
                    count as int,
                    methods_view(items@),
                ),
            decreases count - items.len(),
        {
            let ghost done = methods_view(items@);
            let item = self.parse_method_info()?;
            items.push(item);
            assert(methods_view(items@) =~= done.push(item@));
        }
        self.class_file.methods_count = count;
        self.class_file.methods = items;
        Ok(())
    }

    /// Reads the attributes of the class: their count and the attributes.
    fn read_attributes(&mut self) -> (r: Result<(), ParseError>)
        ensures
            final(self).input().bytes == old(self).input().bytes,
            match class_format::attributes_section(
                old(self).input().bytes,
                old(self).input().offset,
            ) {
                Ok((read, end)) => {
                    &&& r is Ok
                    &&& final(self).input().offset == end
                    &&& final(self).parsed() == (ClassFileView {
                        attributes_count: read.0,
                        attributes: read.1,
                        ..old(self).parsed()
                    })
                },
                Err(e) => r is Err && r->Err_0 == e,
            },
    {
        let attributes_count = self.need_u16()?;
        let attributes = self.parse_attributes(attributes_count)?;
        self.class_file.attributes_count = attributes_count;
        self.class_file.attributes = attributes;
        Ok(())
    }

}

} // verus!
