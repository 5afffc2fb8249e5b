//! Reading a class file: the byte buffer, the constant pool and the tables
//! of fields, methods and attributes.

pub mod attribute_info;
pub mod buffer;
pub mod constant_pool_info;
pub mod field_info;
pub mod class_format;
pub mod method_info;
pub mod class_file;
pub mod opcode;
pub mod reader;
