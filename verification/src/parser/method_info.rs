use vstd::prelude::*;
use crate::parser::attribute_info::{
    AttributeInfo,
    AttributeInfoView,
    Code,
    CodeView,
    attributes_view,
    code_of,
};

verus! {

/// One method of the class.
#[derive(Debug, Clone, PartialEq)]
pub struct MethodInfo {
    pub access_flags: u16,
    pub name_index: u16,
    pub descriptor_index: u16,
    pub attributes_count: u16,
    pub attributes: Vec<AttributeInfo>,
}

/// The model of a method.
pub struct MethodInfoView {
    pub access_flags: u16,
    pub name_index: u16,
    pub descriptor_index: u16,
    pub attributes_count: u16,
    pub attributes: Seq<AttributeInfoView>,
}

impl View for MethodInfo {
    type V = MethodInfoView;

    open spec fn view(&self) -> MethodInfoView {
        MethodInfoView {
            access_flags: self.access_flags,
            name_index: self.name_index,
            descriptor_index: self.descriptor_index,
            attributes_count: self.attributes_count,
            attributes: attributes_view(self.attributes@),
        }
    }
}

/// The models of a sequence of methods, item by item.
pub open spec fn methods_view(methods: Seq<MethodInfo>) -> Seq<MethodInfoView> {
    Seq::new(methods.len(), |i: int| methods[i]@)
}

impl MethodInfoView {
    /// The code of the method: its first attribute, read as a `Code`
    /// attribute.
    pub open spec fn code(self) -> Option<CodeView> {
        if self.attributes.len() > 0 {
            code_of(self.attributes[0].info)
        } else {
            None
        }
    }
}

impl MethodInfo {
    /// The code of the method: its first attribute, read as a `Code`
    /// attribute.
    pub fn code(&self) -> (r: Option<Code>)
        ensures
            match r {
                Some(code) => self@.code() == Some(code@),
                None => self@.code() is None,
            },
    {
        if self.attributes.len() > 0 {
            self.attributes[0].code()
        } else {
            None
        }
    }
}

} // verus!
