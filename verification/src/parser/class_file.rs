use vstd::prelude::*;
use vstd::utf8::{decode_utf8, valid_utf8};
use crate::parser::attribute_info::{AttributeInfo, AttributeInfoView, attributes_view};
use crate::parser::constant_pool_info::{CpInfo, CpInfoView, pool_view};
use crate::parser::field_info::{FieldInfo, FieldInfoView, fields_view};
use crate::parser::method_info::{MethodInfo, MethodInfoView, methods_view};
use crate::text::{str_equal, utf8_to_string};
use crate::vm::numeric::{signed_int, wrap_i32};

verus! {

/// The parsed contents of a class file.
#[derive(Debug, Clone, PartialEq)]
pub struct ClassFile {
    pub magic: u32,
    pub minor: u16,
    pub major: u16,
    pub constant_pool_count: u16,
    pub constant_pool: Vec<CpInfo>,
    pub access_flags: u16,
    pub this_class: u16,
    pub super_class: u16,
    pub interfaces_count: u16,
    pub interfaces: Vec<u16>,
    pub fields_count: u16,
    pub fields: Vec<FieldInfo>,
    pub methods_count: u16,
    pub methods: Vec<MethodInfo>,
    pub attributes_count: u16,
    pub attributes: Vec<AttributeInfo>,
}

/// The model of a class file.
pub struct ClassFileView {
    pub magic: u32,
    pub minor: u16,
    pub major: u16,
    pub constant_pool_count: u16,
    pub constant_pool: Seq<CpInfoView>,
    pub access_flags: u16,
    pub this_class: u16,
    pub super_class: u16,
    pub interfaces_count: u16,
    pub interfaces: Seq<u16>,
    pub fields_count: u16,
    pub fields: Seq<FieldInfoView>,
    pub methods_count: u16,
    pub methods: Seq<MethodInfoView>,
    pub attributes_count: u16,
    pub attributes: Seq<AttributeInfoView>,
}

impl View for ClassFile {
    type V = ClassFileView;

    open spec fn view(&self) -> ClassFileView {
        ClassFileView {
            magic: self.magic,
            minor: self.minor,
            major: self.major,
            constant_pool_count: self.constant_pool_count,
            constant_pool: pool_view(self.constant_pool@),
            access_flags: self.access_flags,
            this_class: self.this_class,
            super_class: self.super_class,
            interfaces_count: self.interfaces_count,
            interfaces: self.interfaces@,
            fields_count: self.fields_count,
            fields: fields_view(self.fields@),
            methods_count: self.methods_count,
            methods: methods_view(self.methods@),
            attributes_count: self.attributes_count,
            attributes: attributes_view(self.attributes@),
        }
    }
}

/// The access flags of a class, each with its name, in the order in which
/// they are listed: the flag at `i` of the nine.
pub open spec fn class_flag(i: int) -> (u16, Seq<char>) {
    if i == 0 {
        (0x0001u16, "ACC_PUBLIC"@)
    } else if i == 1 {
        (0x0010u16, "ACC_FINAL"@)
    } else if i == 2 {
        (0x0020u16, "ACC_SUPER"@)
    } else if i == 3 {
        (0x0200u16, "ACC_INTERFACE"@)
    } else if i == 4 {
        (0x0400u16, "ACC_ABSTRACT"@)
    } else if i == 5 {
        (0x1000u16, "ACC_SYNTHETIC"@)
    } else if i == 6 {
        (0x2000u16, "ACC_ANNOTATION"@)
    } else if i == 7 {
        (0x4000u16, "ACC_ENUM"@)
    } else {
        (0x8000u16, "ACC_MODULE"@)
    }
}

/// The names of those of the first `upto` class flags that are set in
/// `flags`, in order.
pub open spec fn flag_names(flags: u16, upto: int) -> Seq<Seq<char>>
    decreases upto,
{
    if upto <= 0 {
        Seq::empty()
    } else if flags & class_flag(upto - 1).0 != 0 {
        flag_names(flags, upto - 1).push(class_flag(upto - 1).1)
    } else {
        flag_names(flags, upto - 1)
    }
}

/// The views of a sequence of names.
pub open spec fn names_view(names: Seq<&'static str>) -> Seq<Seq<char>> {
    Seq::new(names.len(), |i: int| names[i]@)
}

/// The names of the access flags that are set in `flags`.
pub fn access_flag_names(flags: u16) -> (r: Vec<&'static str>)
    ensures
        names_view(r@) == flag_names(flags, 9),
{
    let mut names: Vec<&'static str> = Vec::new();
    assert(names_view(names@) =~= flag_names(flags, 0));
    let mut i: usize = 0;
    while i < 9
        invariant
            i <= 9,
            names_view(names@) == flag_names(flags, i as int),
        decreases 9 - i,
    {
        let (mask, name): (u16, &'static str) = if i == 0 {
            (0x0001, "ACC_PUBLIC")
        } else if i == 1 {
            (0x0010, "ACC_FINAL")
        } else if i == 2 {
            (0x0020, "ACC_SUPER")
        } else if i == 3 {
            (0x0200, "ACC_INTERFACE")
        } else if i == 4 {
            (0x0400, "ACC_ABSTRACT")
        } else if i == 5 {
            (0x1000, "ACC_SYNTHETIC")
        } else if i == 6 {
            (0x2000, "ACC_ANNOTATION")
        } else if i == 7 {
            (0x4000, "ACC_ENUM")
        } else {
            (0x8000, "ACC_MODULE")
        };
        let ghost before = names_view(names@);
        if flags & mask != 0 {
            names.push(name);
            assert(names_view(names@) =~= before.push(name@));
        }
        i += 1;
    }
    names
}

/// A class name, a member name and a descriptor.
pub type MemberRef = (Seq<char>, Seq<char>, Seq<char>);

impl ClassFileView {
    /// The class file with nothing in it.
    pub open spec fn empty() -> ClassFileView {
        ClassFileView {
            magic: 0,
            minor: 0,
            major: 0,
            constant_pool_count: 0,
            constant_pool: Seq::empty(),
            access_flags: 0,
            this_class: 0,
            super_class: 0,
            interfaces_count: 0,
            interfaces: Seq::empty(),
            fields_count: 0,
            fields: Seq::empty(),
            methods_count: 0,
            methods: Seq::empty(),
            attributes_count: 0,
            attributes: Seq::empty(),
        }
    }

    /// The entry at `index`, where the pool has one.
    pub open spec fn entry(self, index: int) -> Option<CpInfoView> {
        if 0 <= index < self.constant_pool.len() {
            Some(self.constant_pool[index])
        } else {
            None
        }
    }

    /// The text of the `Utf8` entry at `index`, where its bytes are
    /// well-formed UTF-8.
    pub open spec fn utf8(self, index: int) -> Option<Seq<char>> {
        match self.entry(index) {
            Some(CpInfoView::Utf8 { bytes, .. }) => if valid_utf8(bytes) {
                Some(decode_utf8(bytes))
            } else {
                None
            },
            _ => None,
        }
    }

    /// The name of the class that the `Class` entry at `index` names.
    pub open spec fn class_name(self, index: int) -> Option<Seq<char>> {
        match self.entry(index) {
            Some(CpInfoView::Class { name_index }) => self.utf8(name_index as int),
            _ => None,
        }
    }

    /// The name in the `NameAndType` entry at `index`.
    pub open spec fn member_name(self, index: int) -> Option<Seq<char>> {
        match self.entry(index) {
            Some(CpInfoView::NameAndType { name_index, .. }) => self.utf8(name_index as int),
            _ => None,
        }
    }

    /// The descriptor in the `NameAndType` entry at `index`.
    pub open spec fn member_descriptor(self, index: int) -> Option<Seq<char>> {
        match self.entry(index) {
            Some(CpInfoView::NameAndType { descriptor_index, .. }) => self.utf8(
                descriptor_index as int,
            ),
            _ => None,
        }
    }

    /// Class name, member name and descriptor behind a class index and a
    /// name-and-type index, where all three resolve.
    pub open spec fn member(self, class_index: int, name_and_type_index: int) -> Option<
        MemberRef,
    > {
        if self.class_name(class_index) is Some && self.member_name(name_and_type_index) is Some
            && self.member_descriptor(name_and_type_index) is Some {
            Some(
                (
                    self.class_name(class_index)->0,
                    self.member_name(name_and_type_index)->0,
                    self.member_descriptor(name_and_type_index)->0,
                ),
            )
        } else {
            None
        }
    }

    /// What the `Fieldref` entry at `index` refers to.
    pub open spec fn field_info(self, index: int) -> Option<MemberRef> {
        match self.entry(index) {
            Some(CpInfoView::Fieldref { class_index, name_and_type_index }) => self.member(
                class_index as int,
                name_and_type_index as int,
            ),
            _ => None,
        }
    }

    /// What the `Methodref` entry at `index` refers to.
    pub open spec fn method_info(self, index: int) -> Option<MemberRef> {
        match self.entry(index) {
            Some(CpInfoView::Methodref { class_index, name_and_type_index }) => self.member(
                class_index as int,
                name_and_type_index as int,
            ),
            _ => None,
        }
    }

    /// The text of the `String` entry at `index`.
    pub open spec fn string(self, index: int) -> Option<Seq<char>> {
        match self.entry(index) {
            Some(CpInfoView::String { string_index }) => self.utf8(string_index as int),
            _ => None,
        }
    }

    /// The number in the `Integer` entry at `index`: its 32 bits, signed.
    pub open spec fn integer(self, index: int) -> Option<i32> {
        match self.entry(index) {
            Some(CpInfoView::Integer { bytes }) => Some(wrap_i32(bytes as int)),
            _ => None,
        }
    }

    /// The bit pattern in the `Float` entry at `index`.
    pub open spec fn float(self, index: int) -> Option<u32> {
        match self.entry(index) {
            Some(CpInfoView::Float { bytes }) => Some(bytes),
            _ => None,
        }
    }

    /// Whether method number `i` has the name `name`.
    pub open spec fn method_named(self, i: int, name: Seq<char>) -> bool {
        0 <= i < self.methods.len() && self.utf8(self.methods[i].name_index as int) == Some(name)
    }

    /// The number of the first method at or after `from` with the name
    /// `name`.
    pub open spec fn find_method_from(self, name: Seq<char>, from: int) -> Option<int>
        decreases self.methods.len() - from,
    {
        if from < 0 || from >= self.methods.len() {
            None
        } else if self.method_named(from, name) {
            Some(from)
        } else {
            self.find_method_from(name, from + 1)
        }
    }

    /// The number of the first method with the name `name`.
    pub open spec fn find_method(self, name: Seq<char>) -> Option<int> {
        self.find_method_from(name, 0)
    }
}

/// No method from `from` up to `upto` has the name: the search goes on at
/// `upto`.
pub proof fn lemma_find_method_skip(class: ClassFileView, name: Seq<char>, from: int, upto: int)
    requires
        0 <= from <= upto <= class.methods.len(),
        forall|k: int| from <= k < upto ==> !class.method_named(k, name),
    ensures
        class.find_method_from(name, from) == class.find_method_from(name, upto),
    decreases upto - from,
{
    if from < upto {
        lemma_find_method_skip(class, name, from + 1, upto);
    }
}

/// The first method with a name, where there is one, has that name and no
/// method before it has.
pub proof fn lemma_find_method_first(class: ClassFileView, name: Seq<char>, from: int)
    requires
        0 <= from,
    ensures
        match class.find_method_from(name, from) {
            Some(i) => from <= i && class.method_named(i, name) && forall|k: int|
                from <= k < i ==> !class.method_named(k, name),
            None => forall|k: int| from <= k ==> !class.method_named(k, name),
        },
    decreases class.methods.len() - from,
{
    if from < class.methods.len() {
        lemma_find_method_first(class, name, from + 1);
    }
}

impl ClassFile {
    /// A class file with every count zero and every table empty.
    pub fn new() -> (r: Self)
        ensures
            r@ == ClassFileView::empty(),
    {
        let r = ClassFile {
            magic: 0,
            minor: 0,
            major: 0,
            constant_pool_count: 0,
            constant_pool: Vec::new(),
            access_flags: 0,
            this_class: 0,
            super_class: 0,
            interfaces_count: 0,
            interfaces: Vec::new(),
            fields_count: 0,
            fields: Vec::new(),
            methods_count: 0,
            methods: Vec::new(),
            attributes_count: 0,
            attributes: Vec::new(),
        };
        assert(r@.constant_pool =~= Seq::empty());
        assert(r@.fields =~= Seq::empty());
        assert(r@.methods =~= Seq::empty());
        assert(r@.attributes =~= Seq::empty());
        r
    }

    /// The text of the `Utf8` entry at `index`.
    pub fn get_utf8(&self, index: u16) -> (r: Option<String>)
        ensures
            match r {
                Some(text) => self@.utf8(index as int) == Some(text@),
                None => self@.utf8(index as int) is None,
            },
    {
        if (index as usize) < self.constant_pool.len() {
            match &self.constant_pool[index as usize] {
                CpInfo::Utf8 { bytes, .. } => utf8_to_string(bytes),
                _ => None,
            }
        } else {
            None
        }
    }

    /// The name of the class that the `Class` entry at `index` names.
    pub fn get_class_name(&self, index: u16) -> (r: Option<String>)
        ensures
            match r {
                Some(text) => self@.class_name(index as int) == Some(text@),
                None => self@.class_name(index as int) is None,
            },
    {
        if (index as usize) < self.constant_pool.len() {
            match &self.constant_pool[index as usize] {
                CpInfo::Class { name_index } => self.get_utf8(*name_index),
                _ => None,
            }
        } else {
            None
        }
    }

    /// The name in the `NameAndType` entry at `index`.
    pub fn get_field_or_method_name(&self, index: u16) -> (r: Option<String>)
        ensures
            match r {
                Some(text) => self@.member_name(index as int) == Some(text@),
                None => self@.member_name(index as int) is None,
            },
    {
        if (index as usize) < self.constant_pool.len() {
            match &self.constant_pool[index as usize] {
                CpInfo::NameAndType { name_index, .. } => self.get_utf8(*name_index),
                _ => None,
            }
        } else {
            None
        }
    }

    /// The descriptor in the `NameAndType` entry at `index`.
    pub fn get_field_or_method_descriptor(&self, index: u16) -> (r: Option<String>)
        ensures
            match r {
                Some(text) => self@.member_descriptor(index as int) == Some(text@),
                None => self@.member_descriptor(index as int) is None,
            },
    {
        if (index as usize) < self.constant_pool.len() {
            match &self.constant_pool[index as usize] {
                CpInfo::NameAndType { descriptor_index, .. } => self.get_utf8(*descriptor_index),
                _ => None,
            }
        } else {
            None
        }
    }

    /// Resolves a class index and a name-and-type index to three texts.
    fn get_member(&self, class_index: u16, name_and_type_index: u16) -> (r: Option<
        (String, String, String),
    >)
        ensures
            match r {
                Some(found) => self@.member(class_index as int, name_and_type_index as int)
                    == Some((found.0@, found.1@, found.2@)),
                None => self@.member(class_index as int, name_and_type_index as int) is None,
            },
    {
        let class_name = match self.get_class_name(class_index) {
            Some(text) => text,
            None => { return None; },
        };
        let name = match self.get_field_or_method_name(name_and_type_index) {
            Some(text) => text,
            None => { return None; },
        };
        let descriptor = match self.get_field_or_method_descriptor(name_and_type_index) {
            Some(text) => text,
            None => { return None; },
        };
        Some((class_name, name, descriptor))
    }

    /// Class name, field name and descriptor of the `Fieldref` entry at
    /// `index`.
    pub fn get_field_info(&self, index: u16) -> (r: Option<(String, String, String)>)
        ensures
            match r {
                Some(found) => self@.field_info(index as int) == Some(
                    (found.0@, found.1@, found.2@),
                ),
                None => self@.field_info(index as int) is None,
            },
    {
        if (index as usize) < self.constant_pool.len() {
            match &self.constant_pool[index as usize] {
                CpInfo::Fieldref { class_index, name_and_type_index } => self.get_member(
                    *class_index,
                    *name_and_type_index,
                ),
                _ => None,
            }
        } else {
            None
        }
    }

    /// Class name, method name and descriptor of the `Methodref` entry at
    /// `index`.
    pub fn get_method_info(&self, index: u16) -> (r: Option<(String, String, String)>)
        ensures
            match r {
                Some(found) => self@.method_info(index as int) == Some(
                    (found.0@, found.1@, found.2@),
                ),
                None => self@.method_info(index as int) is None,
            },
    {
        if (index as usize) < self.constant_pool.len() {
            match &self.constant_pool[index as usize] {
                CpInfo::Methodref { class_index, name_and_type_index } => self.get_member(
                    *class_index,
                    *name_and_type_index,
                ),
                _ => None,
            }
        } else {
            None
        }
    }

    /// The text of the `String` entry at `index`.
    pub fn get_string(&self, index: u16) -> (r: Option<String>)
        ensures
            match r {
                Some(text) => self@.string(index as int) == Some(text@),
                None => self@.string(index as int) is None,
            },
    {
        if (index as usize) < self.constant_pool.len() {
            match &self.constant_pool[index as usize] {
                CpInfo::String { string_index } => self.get_utf8(*string_index),
                _ => None,
            }
        } else {
            None
        }
    }

    /// The number in the `Integer` entry at `index`.
    pub fn get_integer(&self, index: u16) -> (r: Option<i32>)
        ensures
            r == self@.integer(index as int),
    {
        if (index as usize) < self.constant_pool.len() {
            match &self.constant_pool[index as usize] {
                CpInfo::Integer { bytes } => Some(signed_int(*bytes)),
                _ => None,
            }
        } else {
            None
        }
    }

    /// The bit pattern in the `Float` entry at `index`.
    pub fn get_float(&self, index: u16) -> (r: Option<u32>)
        ensures
            r == self@.float(index as int),
    {
        if (index as usize) < self.constant_pool.len() {
            match &self.constant_pool[index as usize] {
                CpInfo::Float { bytes } => Some(*bytes),
                _ => None,
            }
        } else {
            None
        }
    }

    /// The first method with the name `name`.
    pub fn find_method(&self, name: &str) -> (r: Option<&MethodInfo>)
        ensures
            match r {
                Some(method) => self@.find_method(name@) is Some && method@
                    == self@.methods[self@.find_method(name@)->0],
                None => self@.find_method(name@) is None,
            },
    {
        let mut i: usize = 0;
        while i < self.methods.len()
            invariant
                i <= self.methods.len(),
                forall|k: int| 0 <= k < i ==> !self@.method_named(k, name@),
            decreases self.methods.len() - i,
        {
            let found = match self.get_utf8(self.methods[i].name_index) {
                Some(text) => str_equal(text.as_str(), name),
                None => false,
            };
            if found {
                proof {
                    lemma_find_method_skip(self@, name@, 0, i as int);
                }
                return Some(&self.methods[i]);
            }
            i += 1;
        }
        proof {
            lemma_find_method_skip(self@, name@, 0, self.methods.len() as int);
        }
        None
    }
}

} // verus!
