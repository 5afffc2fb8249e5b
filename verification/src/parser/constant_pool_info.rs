use vstd::prelude::*;

verus! {

/// One entry of the constant pool, as the class file holds it.
///
/// `Empty` stands at index 0 and behind every `Long` and `Double`, which
/// take two indices each.
#[derive(Debug, Clone, PartialEq)]
#[allow(inconsistent_fields)]
pub enum CpInfo {
    Utf8 { length: u16, bytes: Vec<u8> },
    Integer { bytes: u32 },
    Float { bytes: u32 },
    Long { high_bytes: u32, low_bytes: u32 },
    Double { high_bytes: u32, low_bytes: u32 },
    Class { name_index: u16 },
    String { string_index: u16 },
    Fieldref { class_index: u16, name_and_type_index: u16 },
    Methodref { class_index: u16, name_and_type_index: u16 },
    InterfaceMethodref { class_index: u16, name_and_type_index: u16 },
    NameAndType { name_index: u16, descriptor_index: u16 },
    MethodHandle { reference_kind: u8, reference_index: u16 },
    MethodType { descriptor_index: u16 },
    InvokeDynamic { bootstrap_method_attr_index: u16, name_and_type_index: u16 },
    Empty,
}

/// The model of a constant-pool entry: the bytes of a `Utf8` entry are a
/// sequence.
#[allow(inconsistent_fields)]
pub enum CpInfoView {
    Utf8 { length: u16, bytes: Seq<u8> },
    Integer { bytes: u32 },
    Float { bytes: u32 },
    Long { high_bytes: u32, low_bytes: u32 },
    Double { high_bytes: u32, low_bytes: u32 },
    Class { name_index: u16 },
    String { string_index: u16 },
    Fieldref { class_index: u16, name_and_type_index: u16 },
    Methodref { class_index: u16, name_and_type_index: u16 },
    InterfaceMethodref { class_index: u16, name_and_type_index: u16 },
    NameAndType { name_index: u16, descriptor_index: u16 },
    MethodHandle { reference_kind: u8, reference_index: u16 },
    MethodType { descriptor_index: u16 },
    InvokeDynamic { bootstrap_method_attr_index: u16, name_and_type_index: u16 },
    Empty,
}

impl CpInfoView {
    /// A `Long` or a `Double`: an entry that takes two indices of the pool.
    pub open spec fn is_double_width(self) -> bool {
        self is Long || self is Double
    }
}

impl View for CpInfo {
    type V = CpInfoView;

    open spec fn view(&self) -> CpInfoView {
        match *self {
            CpInfo::Utf8 { length, bytes } => CpInfoView::Utf8 { length, bytes: bytes@ },
            CpInfo::Integer { bytes } => CpInfoView::Integer { bytes },
            CpInfo::Float { bytes } => CpInfoView::Float { bytes },
            CpInfo::Long { high_bytes, low_bytes } => CpInfoView::Long { high_bytes, low_bytes },
            CpInfo::Double { high_bytes, low_bytes } => CpInfoView::Double {
                high_bytes,
                low_bytes,
            },
            CpInfo::Class { name_index } => CpInfoView::Class { name_index },
            CpInfo::String { string_index } => CpInfoView::String { string_index },
            CpInfo::Fieldref { class_index, name_and_type_index } => CpInfoView::Fieldref {
                class_index,
                name_and_type_index,
            },
            CpInfo::Methodref { class_index, name_and_type_index } => CpInfoView::Methodref {
                class_index,
                name_and_type_index,
            },
            CpInfo::InterfaceMethodref {
                class_index,
                name_and_type_index,
            } => CpInfoView::InterfaceMethodref { class_index, name_and_type_index },
            CpInfo::NameAndType { name_index, descriptor_index } => CpInfoView::NameAndType {
                name_index,
                descriptor_index,
            },
            CpInfo::MethodHandle { reference_kind, reference_index } => CpInfoView::MethodHandle {
                reference_kind,
                reference_index,
            },
            CpInfo::MethodType { descriptor_index } => CpInfoView::MethodType { descriptor_index },
            CpInfo::InvokeDynamic {
                bootstrap_method_attr_index,
                name_and_type_index,
            } => CpInfoView::InvokeDynamic { bootstrap_method_attr_index, name_and_type_index },
            CpInfo::Empty => CpInfoView::Empty,
        }
    }
}

/// The models of a sequence of entries, item by item.
pub open spec fn pool_view(entries: Seq<CpInfo>) -> Seq<CpInfoView> {
    Seq::new(entries.len(), |i: int| entries[i]@)
}

} // verus!
