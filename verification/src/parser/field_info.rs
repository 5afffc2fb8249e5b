use vstd::prelude::*;
use crate::parser::attribute_info::{AttributeInfo, AttributeInfoView, attributes_view};

verus! {

/// One field of the class.
#[derive(Debug, Clone, PartialEq)]
pub struct FieldInfo {
    pub access_flags: u16,
    pub name_index: u16,
    pub descriptor_index: u16,
    pub attributes_count: u16,
    pub attributes: Vec<AttributeInfo>,
}

/// The model of a field.
pub struct FieldInfoView {
    pub access_flags: u16,
    pub name_index: u16,
    pub descriptor_index: u16,
    pub attributes_count: u16,
    pub attributes: Seq<AttributeInfoView>,
}

impl View for FieldInfo {
    type V = FieldInfoView;

    open spec fn view(&self) -> FieldInfoView {
        FieldInfoView {
            access_flags: self.access_flags,
            name_index: self.name_index,
            descriptor_index: self.descriptor_index,
            attributes_count: self.attributes_count,
            attributes: attributes_view(self.attributes@),
        }
    }
}

/// The models of a sequence of fields, item by item.
pub open spec fn fields_view(fields: Seq<FieldInfo>) -> Seq<FieldInfoView> {
    Seq::new(fields.len(), |i: int| fields[i]@)
}

} // verus!
