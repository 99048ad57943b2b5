//! The completion context: which categories of results the engine
//! considered applicable at the query site, decoded from its bitmask.

use vstd::prelude::*;

verus! {

/// Context bit: all possible types were considered.
pub const CONTEXT_ANY_TYPE: u64 = 1;

/// Context bit: all possible values were considered.
pub const CONTEXT_ANY_VALUE: u64 = 2;

/// Context bit: values resolving to Objective-C objects were considered.
pub const CONTEXT_OBJC_OBJECT_VALUE: u64 = 4;

/// Context bit: values resolving to Objective-C selectors were considered.
pub const CONTEXT_OBJC_SELECTOR_VALUE: u64 = 8;

/// Context bit: values resolving to C++ class types were considered.
pub const CONTEXT_CLASS_TYPE_VALUE: u64 = 16;

/// Context bit: dot-access members of a record were considered.
pub const CONTEXT_DOT_MEMBER_ACCESS: u64 = 32;

/// Context bit: arrow-access members of a record were considered.
pub const CONTEXT_ARROW_MEMBER_ACCESS: u64 = 64;

/// Context bit: dot-access properties of an Objective-C object were
/// considered.
pub const CONTEXT_OBJC_PROPERTY_ACCESS: u64 = 128;

/// Context bit: enum tags were considered.
pub const CONTEXT_ENUM_TAG: u64 = 256;

/// Context bit: union tags were considered.
pub const CONTEXT_UNION_TAG: u64 = 512;

/// Context bit: struct tags were considered.
pub const CONTEXT_STRUCT_TAG: u64 = 1024;

/// Context bit: C++ class names were considered.
pub const CONTEXT_CLASS_TAG: u64 = 2048;

/// Context bit: C++ namespaces and namespace aliases were considered.
pub const CONTEXT_NAMESPACE: u64 = 4096;

/// Context bit: C++ nested name specifiers were considered.
pub const CONTEXT_NESTED_NAME_SPECIFIER: u64 = 8192;

/// Context bit: Objective-C interfaces were considered.
pub const CONTEXT_OBJC_INTERFACE: u64 = 16384;

/// Context bit: Objective-C protocols were considered.
pub const CONTEXT_OBJC_PROTOCOL: u64 = 32768;

/// Context bit: Objective-C categories were considered.
pub const CONTEXT_OBJC_CATEGORY: u64 = 65536;

/// Context bit: Objective-C instance messages were considered.
pub const CONTEXT_OBJC_INSTANCE_MESSAGE: u64 = 131072;

/// Context bit: Objective-C class messages were considered.
pub const CONTEXT_OBJC_CLASS_MESSAGE: u64 = 262144;

/// Context bit: Objective-C selector names were considered.
pub const CONTEXT_OBJC_SELECTOR_NAME: u64 = 524288;

/// Context bit: macro names were considered.
pub const CONTEXT_MACRO_NAME: u64 = 1048576;

/// Context bit: natural language results were considered.
pub const CONTEXT_NATURAL_LANGUAGE: u64 = 2097152;

/// The engine's "unknown context" sentinel: every context bit at once.
pub const CONTEXT_UNKNOWN: u64 = 8388607;

/// Indicates which categories of results were considered applicable at the
/// query site, decoded once from the engine's raw bitmask.
#[derive(Clone, Copy, Debug, PartialEq, Eq, Structural)]
pub struct CompletionContext {
    /// Whether all possible types were considered.
    pub all_types: bool,
    /// Whether all possible values were considered.
    pub all_values: bool,
    /// Whether values that resolve to C++ class types were considered.
    pub class_type_values: bool,
    /// Whether the members of a record accessed with the dot operator were
    /// considered.
    pub dot_members: bool,
    /// Whether the members of a record accessed with the arrow operator
    /// were considered.
    pub arrow_members: bool,
    /// Whether enum tags were considered.
    pub enum_tags: bool,
    /// Whether union tags were considered.
    pub union_tags: bool,
    /// Whether struct tags were considered.
    pub struct_tags: bool,
    /// Whether C++ class names were considered.
    pub class_names: bool,
    /// Whether C++ namespaces and namespace aliases were considered.
    pub namespaces: bool,
    /// Whether C++ nested name specifiers were considered.
    pub nested_name_specifiers: bool,
    /// Whether macro names were considered.
    pub macro_names: bool,
    /// Whether natural language results were considered.
    pub natural_language: bool,
    /// Whether values that resolve to Objective-C objects were considered.
    pub objc_object_values: bool,
    /// Whether values that resolve to Objective-C selectors were
    /// considered.
    pub objc_selector_values: bool,
    /// Whether the properties of an Objective-C object accessed with the
    /// dot operator were considered.
    pub objc_property_members: bool,
    /// Whether Objective-C interfaces were considered.
    pub objc_interfaces: bool,
    /// Whether Objective-C protocols were considered.
    pub objc_protocols: bool,
    /// Whether Objective-C categories were considered.
    pub objc_categories: bool,
    /// Whether Objective-C instance messages were considered.
    pub objc_instance_messages: bool,
    /// Whether Objective-C class messages were considered.
    pub objc_class_messages: bool,
    /// Whether Objective-C selector names were considered.
    pub objc_selector_names: bool,
}

/// The flag record that a raw bitmask decodes to: one named flag per bit.
pub open spec fn spec_context_from_bits(bits: u64) -> CompletionContext {
    CompletionContext {
        all_types: bits & CONTEXT_ANY_TYPE != 0,
        all_values: bits & CONTEXT_ANY_VALUE != 0,
        class_type_values: bits & CONTEXT_CLASS_TYPE_VALUE != 0,
        dot_members: bits & CONTEXT_DOT_MEMBER_ACCESS != 0,
        arrow_members: bits & CONTEXT_ARROW_MEMBER_ACCESS != 0,
        enum_tags: bits & CONTEXT_ENUM_TAG != 0,
        union_tags: bits & CONTEXT_UNION_TAG != 0,
        struct_tags: bits & CONTEXT_STRUCT_TAG != 0,
        class_names: bits & CONTEXT_CLASS_TAG != 0,
        namespaces: bits & CONTEXT_NAMESPACE != 0,
        nested_name_specifiers: bits & CONTEXT_NESTED_NAME_SPECIFIER != 0,
        macro_names: bits & CONTEXT_MACRO_NAME != 0,
        natural_language: bits & CONTEXT_NATURAL_LANGUAGE != 0,
        objc_object_values: bits & CONTEXT_OBJC_OBJECT_VALUE != 0,
        objc_selector_values: bits & CONTEXT_OBJC_SELECTOR_VALUE != 0,
        objc_property_members: bits & CONTEXT_OBJC_PROPERTY_ACCESS != 0,
        objc_interfaces: bits & CONTEXT_OBJC_INTERFACE != 0,
        objc_protocols: bits & CONTEXT_OBJC_PROTOCOL != 0,
        objc_categories: bits & CONTEXT_OBJC_CATEGORY != 0,
        objc_instance_messages: bits & CONTEXT_OBJC_INSTANCE_MESSAGE != 0,
        objc_class_messages: bits & CONTEXT_OBJC_CLASS_MESSAGE != 0,
        objc_selector_names: bits & CONTEXT_OBJC_SELECTOR_NAME != 0,
    }
}

/// What a raw context mask decodes to: no flag record at all when no flag
/// is set or when the mask is the explicit "unknown" sentinel, else the
/// flag record of the mask.
pub open spec fn spec_decode_context(bits: u64) -> Option<CompletionContext> {
    if bits != 0 && bits != CONTEXT_UNKNOWN {
        Some(spec_context_from_bits(bits))
    } else {
        None
    }
}

impl CompletionContext {
    /// Decodes every flag of the raw bitmask.
    pub fn from_bits(bits: u64) -> (r: CompletionContext)
        ensures
            r == spec_context_from_bits(bits),
    {
        CompletionContext {
            all_types: bits & CONTEXT_ANY_TYPE != 0,
            all_values: bits & CONTEXT_ANY_VALUE != 0,
            class_type_values: bits & CONTEXT_CLASS_TYPE_VALUE != 0,
            dot_members: bits & CONTEXT_DOT_MEMBER_ACCESS != 0,
            arrow_members: bits & CONTEXT_ARROW_MEMBER_ACCESS != 0,
            enum_tags: bits & CONTEXT_ENUM_TAG != 0,
            union_tags: bits & CONTEXT_UNION_TAG != 0,
            struct_tags: bits & CONTEXT_STRUCT_TAG != 0,
            class_names: bits & CONTEXT_CLASS_TAG != 0,
            namespaces: bits & CONTEXT_NAMESPACE != 0,
            nested_name_specifiers: bits & CONTEXT_NESTED_NAME_SPECIFIER != 0,
            macro_names: bits & CONTEXT_MACRO_NAME != 0,
            natural_language: bits & CONTEXT_NATURAL_LANGUAGE != 0,
            objc_object_values: bits & CONTEXT_OBJC_OBJECT_VALUE != 0,
            objc_selector_values: bits & CONTEXT_OBJC_SELECTOR_VALUE != 0,
            objc_property_members: bits & CONTEXT_OBJC_PROPERTY_ACCESS != 0,
            objc_interfaces: bits & CONTEXT_OBJC_INTERFACE != 0,
            objc_protocols: bits & CONTEXT_OBJC_PROTOCOL != 0,
            objc_categories: bits & CONTEXT_OBJC_CATEGORY != 0,
            objc_instance_messages: bits & CONTEXT_OBJC_INSTANCE_MESSAGE != 0,
            objc_class_messages: bits & CONTEXT_OBJC_CLASS_MESSAGE != 0,
            objc_selector_names: bits & CONTEXT_OBJC_SELECTOR_NAME != 0,
        }
    }
}

} // verus!
