use vstd::prelude::*;
use vstd::string::StringExecFns;

verus! {

/// The roles of the deserialization protocol: the closed set of interfaces
/// that the diagnostic wrapper can stand in for.
#[derive(Debug, Clone, Copy, PartialEq, Eq, Structural)]
pub enum Role {
    /// The self-describing value being materialized from an unknown driver.
    Deserialize,
    /// The driver that reads the wire format and feeds a visitor.
    Deserializer,
    /// The visitor that receives scalars and handles to nested structure.
    Visitor,
    /// A caller-supplied seed carrying extra context for one decode.
    DeserializeSeed,
    /// The cursor over the elements of a sequence.
    SeqAccess,
    /// The cursor over the entries of a map.
    MapAccess,
    /// The cursor that resolves an enum variant.
    EnumAccess,
}

/// The operations of the deserialization protocol: the closed, finite set of
/// calls the wrapper forwards, each of which emits exactly one trace record
/// tagged with the role and operation name when it fires.
#[derive(Debug, Clone, Copy, PartialEq, Eq, Structural)]
pub enum Op {
    /// Materializing a self-describing value from an unknown driver.
    Deserialize,
    /// A seeded decode driven through a caller-supplied context.
    SeedDeserialize,
    /// Driver hint: the format decides the shape.
    DeserializeAny,
    /// Driver hint: a boolean.
    DeserializeBool,
    /// Driver hint: an 8-bit signed integer.
    DeserializeI8,
    /// Driver hint: a 16-bit signed integer.
    DeserializeI16,
    /// Driver hint: a 32-bit signed integer.
    DeserializeI32,
    /// Driver hint: a 64-bit signed integer.
    DeserializeI64,
    /// Driver hint: a 128-bit signed integer.
    DeserializeI128,
    /// Driver hint: an 8-bit unsigned integer.
    DeserializeU8,
    /// Driver hint: a 16-bit unsigned integer.
    DeserializeU16,
    /// Driver hint: a 32-bit unsigned integer.
    DeserializeU32,
    /// Driver hint: a 64-bit unsigned integer.
    DeserializeU64,
    /// Driver hint: a 128-bit unsigned integer.
    DeserializeU128,
    /// Driver hint: a single-precision floating-point number.
    DeserializeF32,
    /// Driver hint: a double-precision floating-point number.
    DeserializeF64,
    /// Driver hint: a character.
    DeserializeChar,
    /// Driver hint: a borrowed string.
    DeserializeStr,
    /// Driver hint: an owned string.
    DeserializeString,
    /// Driver hint: a borrowed byte sequence.
    DeserializeBytes,
    /// Driver hint: an owned byte buffer.
    DeserializeByteBuf,
    /// Driver hint: an optional value.
    DeserializeOption,
    /// Driver hint: a unit value.
    DeserializeUnit,
    /// Driver hint: a named unit struct.
    DeserializeUnitStruct,
    /// Driver hint: a named newtype struct.
    DeserializeNewtypeStruct,
    /// Driver hint: a sequence.
    DeserializeSeq,
    /// Driver hint: a tuple of known length.
    DeserializeTuple,
    /// Driver hint: a named tuple struct of known length.
    DeserializeTupleStruct,
    /// Driver hint: a map.
    DeserializeMap,
    /// Driver hint: a named struct with a known field list.
    DeserializeStruct,
    /// Driver hint: a named enum with a known variant list.
    DeserializeEnum,
    /// Driver hint: a struct field or enum variant identifier.
    DeserializeIdentifier,
    /// Driver hint: skip the next value without decoding it.
    DeserializeIgnoredAny,
    /// Visit of a boolean.
    VisitBool,
    /// Visit of an 8-bit signed integer.
    VisitI8,
    /// Visit of a 16-bit signed integer.
    VisitI16,
    /// Visit of a 32-bit signed integer.
    VisitI32,
    /// Visit of a 64-bit signed integer.
    VisitI64,
    /// Visit of a 128-bit signed integer.
    VisitI128,
    /// Visit of an 8-bit unsigned integer.
    VisitU8,
    /// Visit of a 16-bit unsigned integer.
    VisitU16,
    /// Visit of a 32-bit unsigned integer.
    VisitU32,
    /// Visit of a 64-bit unsigned integer.
    VisitU64,
    /// Visit of a 128-bit unsigned integer.
    VisitU128,
    /// Visit of a single-precision floating-point number.
    VisitF32,
    /// Visit of a double-precision floating-point number.
    VisitF64,
    /// Visit of a character.
    VisitChar,
    /// Visit of a transient string.
    VisitStr,
    /// Visit of a string borrowed from the input.
    VisitBorrowedStr,
    /// Visit of an owned string.
    VisitString,
    /// Visit of a transient byte sequence.
    VisitBytes,
    /// Visit of a byte sequence borrowed from the input.
    VisitBorrowedBytes,
    /// Visit of an owned byte buffer.
    VisitByteBuf,
    /// Visit of an absent optional value.
    VisitNone,
    /// Visit of a present optional value, handing over a nested driver.
    VisitSome,
    /// Visit of a unit value.
    VisitUnit,
    /// Visit of a newtype struct, handing over a nested driver.
    VisitNewtypeStruct,
    /// Visit of a sequence, handing over its cursor.
    VisitSeq,
    /// Visit of a map, handing over its cursor.
    VisitMap,
    /// Visit of an enum, handing over its cursor.
    VisitEnum,
    /// Seeded retrieval of the next sequence element.
    NextElementSeed,
    /// Typed retrieval of the next sequence element.
    NextElement,
    /// Seeded retrieval of the next map key.
    NextKeySeed,
    /// Seeded retrieval of the next map value.
    NextValueSeed,
    /// Seeded retrieval of the next map entry.
    NextEntrySeed,
    /// Typed retrieval of the next map key.
    NextKey,
    /// Typed retrieval of the next map value.
    NextValue,
    /// Typed retrieval of the next map entry.
    NextEntry,
    /// Seeded resolution of an enum variant tag.
    VariantSeed,
    /// Typed resolution of an enum variant tag.
    Variant,
}

/// The role that owns an operation.
pub open spec fn role_of(op: Op) -> Role {
    match op {
        Op::Deserialize => Role::Deserialize,
        Op::SeedDeserialize => Role::DeserializeSeed,
        Op::DeserializeAny | Op::DeserializeBool | Op::DeserializeI8 | Op::DeserializeI16
        | Op::DeserializeI32 | Op::DeserializeI64 | Op::DeserializeI128 | Op::DeserializeU8
        | Op::DeserializeU16 | Op::DeserializeU32 | Op::DeserializeU64 | Op::DeserializeU128
        | Op::DeserializeF32 | Op::DeserializeF64 | Op::DeserializeChar | Op::DeserializeStr
        | Op::DeserializeString | Op::DeserializeBytes | Op::DeserializeByteBuf
        | Op::DeserializeOption | Op::DeserializeUnit | Op::DeserializeUnitStruct
        | Op::DeserializeNewtypeStruct | Op::DeserializeSeq | Op::DeserializeTuple
        | Op::DeserializeTupleStruct | Op::DeserializeMap | Op::DeserializeStruct
        | Op::DeserializeEnum | Op::DeserializeIdentifier | Op::DeserializeIgnoredAny
            => Role::Deserializer,
        Op::VisitBool | Op::VisitI8 | Op::VisitI16 | Op::VisitI32 | Op::VisitI64
        | Op::VisitI128 | Op::VisitU8 | Op::VisitU16 | Op::VisitU32 | Op::VisitU64
        | Op::VisitU128 | Op::VisitF32 | Op::VisitF64 | Op::VisitChar | Op::VisitStr
        | Op::VisitBorrowedStr | Op::VisitString | Op::VisitBytes | Op::VisitBorrowedBytes
        | Op::VisitByteBuf | Op::VisitNone | Op::VisitSome | Op::VisitUnit
        | Op::VisitNewtypeStruct | Op::VisitSeq | Op::VisitMap | Op::VisitEnum
            => Role::Visitor,
        Op::NextElementSeed | Op::NextElement => Role::SeqAccess,
        Op::NextKeySeed | Op::NextValueSeed | Op::NextEntrySeed | Op::NextKey
        | Op::NextValue | Op::NextEntry => Role::MapAccess,
        Op::VariantSeed | Op::Variant => Role::EnumAccess,
    }
}

/// The role that owns an operation.
pub fn role(op: Op) -> (r: Role)
    ensures
        r == role_of(op),
{
    match op {
        Op::Deserialize => Role::Deserialize,
        Op::SeedDeserialize => Role::DeserializeSeed,
        Op::DeserializeAny | Op::DeserializeBool | Op::DeserializeI8 | Op::DeserializeI16
        | Op::DeserializeI32 | Op::DeserializeI64 | Op::DeserializeI128 | Op::DeserializeU8
        | Op::DeserializeU16 | Op::DeserializeU32 | Op::DeserializeU64 | Op::DeserializeU128
        | Op::DeserializeF32 | Op::DeserializeF64 | Op::DeserializeChar | Op::DeserializeStr
        | Op::DeserializeString | Op::DeserializeBytes | Op::DeserializeByteBuf
        | Op::DeserializeOption | Op::DeserializeUnit | Op::DeserializeUnitStruct
        | Op::DeserializeNewtypeStruct | Op::DeserializeSeq | Op::DeserializeTuple
        | Op::DeserializeTupleStruct | Op::DeserializeMap | Op::DeserializeStruct
        | Op::DeserializeEnum | Op::DeserializeIdentifier | Op::DeserializeIgnoredAny
            => Role::Deserializer,
        Op::VisitBool | Op::VisitI8 | Op::VisitI16 | Op::VisitI32 | Op::VisitI64
        | Op::VisitI128 | Op::VisitU8 | Op::VisitU16 | Op::VisitU32 | Op::VisitU64
        | Op::VisitU128 | Op::VisitF32 | Op::VisitF64 | Op::VisitChar | Op::VisitStr
        | Op::VisitBorrowedStr | Op::VisitString | Op::VisitBytes | Op::VisitBorrowedBytes
        | Op::VisitByteBuf | Op::VisitNone | Op::VisitSome | Op::VisitUnit
        | Op::VisitNewtypeStruct | Op::VisitSeq | Op::VisitMap | Op::VisitEnum
            => Role::Visitor,
        Op::NextElementSeed | Op::NextElement => Role::SeqAccess,
        Op::NextKeySeed | Op::NextValueSeed | Op::NextEntrySeed | Op::NextKey
        | Op::NextValue | Op::NextEntry => Role::MapAccess,
        Op::VariantSeed | Op::Variant => Role::EnumAccess,
    }
}

/// Whether the trace record for an operation carries the received value
/// itself: true exactly for the visits of terminal scalars, which are the
/// only operations handed a concrete value rather than an opaque object.
pub open spec fn carries_value_spec(op: Op) -> bool {
    match op {
        Op::VisitBool | Op::VisitI8 | Op::VisitI16 | Op::VisitI32 | Op::VisitI64
        | Op::VisitI128 | Op::VisitU8 | Op::VisitU16 | Op::VisitU32 | Op::VisitU64
        | Op::VisitU128 | Op::VisitF32 | Op::VisitF64 | Op::VisitChar | Op::VisitStr
        | Op::VisitBorrowedStr | Op::VisitString | Op::VisitBytes | Op::VisitBorrowedBytes
        | Op::VisitByteBuf => true,
        _ => false,
    }
}

/// Whether the trace record for an operation carries the received value.
pub fn carries_value(op: Op) -> (b: bool)
    ensures
        b == carries_value_spec(op),
{
    match op {
        Op::VisitBool | Op::VisitI8 | Op::VisitI16 | Op::VisitI32 | Op::VisitI64
        | Op::VisitI128 | Op::VisitU8 | Op::VisitU16 | Op::VisitU32 | Op::VisitU64
        | Op::VisitU128 | Op::VisitF32 | Op::VisitF64 | Op::VisitChar | Op::VisitStr
        | Op::VisitBorrowedStr | Op::VisitString | Op::VisitBytes | Op::VisitBorrowedBytes
        | Op::VisitByteBuf => true,
        _ => false,
    }
}

/// The label under which a role appears in the trace.
pub open spec fn role_label_spec(role: Role) -> Seq<char> {
    match role {
        Role::Deserialize => "Deserialize"@,
        Role::Deserializer => "Deserializer"@,
        Role::Visitor => "Visitor"@,
        Role::DeserializeSeed => "DeserializeSeed"@,
        Role::SeqAccess => "SeqAccess"@,
        Role::MapAccess => "MapAccess"@,
        Role::EnumAccess => "EnumAccess"@,
    }
}

/// The label under which a role appears in the trace.
pub fn role_label(role: Role) -> (s: &'static str)
    ensures
        s@ == role_label_spec(role),
{
    match role {
        Role::Deserialize => "Deserialize",
        Role::Deserializer => "Deserializer",
        Role::Visitor => "Visitor",
        Role::DeserializeSeed => "DeserializeSeed",
        Role::SeqAccess => "SeqAccess",
        Role::MapAccess => "MapAccess",
        Role::EnumAccess => "EnumAccess",
    }
}

/// The label under which an operation appears in the trace. A visit of an
/// absent or unit value shows empty argument parentheses; a visit that hands
/// over a nested object shows elided arguments; a visit that carries a scalar
/// shows no parentheses here, since the record appends the value itself.
pub open spec fn op_label_spec(op: Op) -> Seq<char> {
    match op {
        Op::Deserialize => "deserialize"@,
        Op::SeedDeserialize => "deserialize"@,
        Op::DeserializeAny => "deserialize_any"@,
        Op::DeserializeBool => "deserialize_bool"@,
        Op::DeserializeI8 => "deserialize_i8"@,
        Op::DeserializeI16 => "deserialize_i16"@,
        Op::DeserializeI32 => "deserialize_i32"@,
        Op::DeserializeI64 => "deserialize_i64"@,
        Op::DeserializeI128 => "deserialize_i128"@,
        Op::DeserializeU8 => "deserialize_u8"@,
        Op::DeserializeU16 => "deserialize_u16"@,
        Op::DeserializeU32 => "deserialize_u32"@,
        Op::DeserializeU64 => "deserialize_u64"@,
        Op::DeserializeU128 => "deserialize_u128"@,
        Op::DeserializeF32 => "deserialize_f32"@,
        Op::DeserializeF64 => "deserialize_f64"@,
        Op::DeserializeChar => "deserialize_char"@,
        Op::DeserializeStr => "deserialize_str"@,
        Op::DeserializeString => "deserialize_string"@,
        Op::DeserializeBytes => "deserialize_bytes"@,
        Op::DeserializeByteBuf => "deserialize_byte_buf"@,
        Op::DeserializeOption => "deserialize_option"@,
        Op::DeserializeUnit => "deserialize_unit"@,
        Op::DeserializeUnitStruct => "deserialize_unit_struct"@,
        Op::DeserializeNewtypeStruct => "deserialize_newtype_struct"@,
        Op::DeserializeSeq => "deserialize_seq"@,
        Op::DeserializeTuple => "deserialize_tuple"@,
        Op::DeserializeTupleStruct => "deserialize_tuple_struct"@,
        Op::DeserializeMap => "deserialize_map"@,
        Op::DeserializeStruct => "deserialize_struct"@,
        Op::DeserializeEnum => "deserialize_enum"@,
        Op::DeserializeIdentifier => "deserialize_identifier"@,
        Op::DeserializeIgnoredAny => "deserialize_ignored_any"@,
        Op::VisitBool => "visit_bool"@,
        Op::VisitI8 => "visit_i8"@,
        Op::VisitI16 => "visit_i16"@,
        Op::VisitI32 => "visit_i32"@,
        Op::VisitI64 => "visit_i64"@,
        Op::VisitI128 => "visit_i128"@,
        Op::VisitU8 => "visit_u8"@,
        Op::VisitU16 => "visit_u16"@,
        Op::VisitU32 => "visit_u32"@,
        Op::VisitU64 => "visit_u64"@,
        Op::VisitU128 => "visit_u128"@,
        Op::VisitF32 => "visit_f32"@,
        Op::VisitF64 => "visit_f64"@,
        Op::VisitChar => "visit_char"@,
        Op::VisitStr => "visit_str"@,
        Op::VisitBorrowedStr => "visit_borrowed_str"@,
        Op::VisitString => "visit_string"@,
        Op::VisitBytes => "visit_bytes"@,
        Op::VisitBorrowedBytes => "visit_borrowed_bytes"@,
        Op::VisitByteBuf => "visit_byte_buf"@,
        Op::VisitNone => "visit_none()"@,
        Op::VisitSome => "visit_some(...)"@,
        Op::VisitUnit => "visit_unit()"@,
        Op::VisitNewtypeStruct => "visit_newtype_struct(...)"@,
        Op::VisitSeq => "visit_seq(...)"@,
        Op::VisitMap => "visit_map(...)"@,
        Op::VisitEnum => "visit_enum(...)"@,
        Op::NextElementSeed => "next_element_seed"@,
        Op::NextElement => "next_element"@,
        Op::NextKeySeed => "next_key_seed"@,
        Op::NextValueSeed => "next_value_seed"@,
        Op::NextEntrySeed => "next_entry_seed"@,
        Op::NextKey => "next_key"@,
        Op::NextValue => "next_value"@,
        Op::NextEntry => "next_entry"@,
        Op::VariantSeed => "variant_seed"@,
        Op::Variant => "variant"@,
    }
}

/// The label under which an operation appears in the trace.
pub fn op_label(op: Op) -> (s: &'static str)
    ensures
        s@ == op_label_spec(op),
{
    match op {
        Op::Deserialize => "deserialize",
        Op::SeedDeserialize => "deserialize",
        Op::DeserializeAny => "deserialize_any",
        Op::DeserializeBool => "deserialize_bool",
        Op::DeserializeI8 => "deserialize_i8",
        Op::DeserializeI16 => "deserialize_i16",
        Op::DeserializeI32 => "deserialize_i32",
        Op::DeserializeI64 => "deserialize_i64",
        Op::DeserializeI128 => "deserialize_i128",
        Op::DeserializeU8 => "deserialize_u8",
        Op::DeserializeU16 => "deserialize_u16",
        Op::DeserializeU32 => "deserialize_u32",
        Op::DeserializeU64 => "deserialize_u64",
        Op::DeserializeU128 => "deserialize_u128",
        Op::DeserializeF32 => "deserialize_f32",
        Op::DeserializeF64 => "deserialize_f64",
        Op::DeserializeChar => "deserialize_char",
        Op::DeserializeStr => "deserialize_str",
        Op::DeserializeString => "deserialize_string",
        Op::DeserializeBytes => "deserialize_bytes",
        Op::DeserializeByteBuf => "deserialize_byte_buf",
        Op::DeserializeOption => "deserialize_option",
        Op::DeserializeUnit => "deserialize_unit",
        Op::DeserializeUnitStruct => "deserialize_unit_struct",
        Op::DeserializeNewtypeStruct => "deserialize_newtype_struct",
        Op::DeserializeSeq => "deserialize_seq",
        Op::DeserializeTuple => "deserialize_tuple",
        Op::DeserializeTupleStruct => "deserialize_tuple_struct",
        Op::DeserializeMap => "deserialize_map",
        Op::DeserializeStruct => "deserialize_struct",
        Op::DeserializeEnum => "deserialize_enum",
        Op::DeserializeIdentifier => "deserialize_identifier",
        Op::DeserializeIgnoredAny => "deserialize_ignored_any",
        Op::VisitBool => "visit_bool",
        Op::VisitI8 => "visit_i8",
        Op::VisitI16 => "visit_i16",
        Op::VisitI32 => "visit_i32",
        Op::VisitI64 => "visit_i64",
        Op::VisitI128 => "visit_i128",
        Op::VisitU8 => "visit_u8",
        Op::VisitU16 => "visit_u16",
        Op::VisitU32 => "visit_u32",
        Op::VisitU64 => "visit_u64",
        Op::VisitU128 => "visit_u128",
        Op::VisitF32 => "visit_f32",
        Op::VisitF64 => "visit_f64",
        Op::VisitChar => "visit_char",
        Op::VisitStr => "visit_str",
        Op::VisitBorrowedStr => "visit_borrowed_str",
        Op::VisitString => "visit_string",
        Op::VisitBytes => "visit_bytes",
        Op::VisitBorrowedBytes => "visit_borrowed_bytes",
        Op::VisitByteBuf => "visit_byte_buf",
        Op::VisitNone => "visit_none()",
        Op::VisitSome => "visit_some(...)",
        Op::VisitUnit => "visit_unit()",
        Op::VisitNewtypeStruct => "visit_newtype_struct(...)",
        Op::VisitSeq => "visit_seq(...)",
        Op::VisitMap => "visit_map(...)",
        Op::VisitEnum => "visit_enum(...)",
        Op::NextElementSeed => "next_element_seed",
        Op::NextElement => "next_element",
        Op::NextKeySeed => "next_key_seed",
        Op::NextValueSeed => "next_value_seed",
        Op::NextEntrySeed => "next_entry_seed",
        Op::NextKey => "next_key",
        Op::NextValue => "next_value",
        Op::NextEntry => "next_entry",
        Op::VariantSeed => "variant_seed",
        Op::Variant => "variant",
    }
}

/// The full fixed text of the trace record for one forwarded operation: the
/// owning role's label, a separator, and the operation's label.
pub open spec fn tag_spec(op: Op) -> Seq<char> {
    role_label_spec(role_of(op)) + ": "@ + op_label_spec(op)
}

/// The full fixed text of the trace record for one forwarded operation.
pub fn tag(op: Op) -> (t: String)
    ensures
        t@ == tag_spec(op),
{
    let mut t = String::from_str(role_label(role(op)));
    t.append(": ");
    t.append(op_label(op));
    t
}

/// No role's label is empty: every role is visible in the trace.
pub proof fn lemma_role_label_nonempty(role: Role)
    ensures
        role_label_spec(role).len() > 0,
{
    reveal_strlit("Deserialize");
    reveal_strlit("Deserializer");
    reveal_strlit("Visitor");
    reveal_strlit("DeserializeSeed");
    reveal_strlit("SeqAccess");
    reveal_strlit("MapAccess");
    reveal_strlit("EnumAccess");
}

/// No operation's label is empty: every operation is visible in the trace.
pub proof fn lemma_op_label_nonempty(op: Op)
    ensures
        op_label_spec(op).len() > 0,
{
    reveal_strlit("deserialize");
    reveal_strlit("deserialize_any");
    reveal_strlit("deserialize_bool");
    reveal_strlit("deserialize_i8");
    reveal_strlit("deserialize_i16");
    reveal_strlit("deserialize_i32");
    reveal_strlit("deserialize_i64");
    reveal_strlit("deserialize_i128");
    reveal_strlit("deserialize_u8");
    reveal_strlit("deserialize_u16");
    reveal_strlit("deserialize_u32");
    reveal_strlit("deserialize_u64");
    reveal_strlit("deserialize_u128");
    reveal_strlit("deserialize_f32");
    reveal_strlit("deserialize_f64");
    reveal_strlit("deserialize_char");
    reveal_strlit("deserialize_str");
    reveal_strlit("deserialize_string");
    reveal_strlit("deserialize_bytes");
    reveal_strlit("deserialize_byte_buf");
    reveal_strlit("deserialize_option");
    reveal_strlit("deserialize_unit");
    reveal_strlit("deserialize_unit_struct");
    reveal_strlit("deserialize_newtype_struct");
    reveal_strlit("deserialize_seq");
    reveal_strlit("deserialize_tuple");
    reveal_strlit("deserialize_tuple_struct");
    reveal_strlit("deserialize_map");
    reveal_strlit("deserialize_struct");
    reveal_strlit("deserialize_enum");
    reveal_strlit("deserialize_identifier");
    reveal_strlit("deserialize_ignored_any");
    reveal_strlit("visit_bool");
    reveal_strlit("visit_i8");
    reveal_strlit("visit_i16");
    reveal_strlit("visit_i32");
    reveal_strlit("visit_i64");
    reveal_strlit("visit_i128");
    reveal_strlit("visit_u8");
    reveal_strlit("visit_u16");
    reveal_strlit("visit_u32");
    reveal_strlit("visit_u64");
    reveal_strlit("visit_u128");
    reveal_strlit("visit_f32");
    reveal_strlit("visit_f64");
    reveal_strlit("visit_char");
    reveal_strlit("visit_str");
    reveal_strlit("visit_borrowed_str");
    reveal_strlit("visit_string");
    reveal_strlit("visit_bytes");
    reveal_strlit("visit_borrowed_bytes");
    reveal_strlit("visit_byte_buf");
    reveal_strlit("visit_none()");
    reveal_strlit("visit_some(...)");
    reveal_strlit("visit_unit()");
    reveal_strlit("visit_newtype_struct(...)");
    reveal_strlit("visit_seq(...)");
    reveal_strlit("visit_map(...)");
    reveal_strlit("visit_enum(...)");
    reveal_strlit("next_element_seed");
    reveal_strlit("next_element");
    reveal_strlit("next_key_seed");
    reveal_strlit("next_value_seed");
    reveal_strlit("next_entry_seed");
    reveal_strlit("next_key");
    reveal_strlit("next_value");
    reveal_strlit("next_entry");
    reveal_strlit("variant_seed");
    reveal_strlit("variant");
}

/// Coverage: every operation of the protocol has its own forwarding trace
/// tag, and the tag names the role the operation belongs to — it is exactly
/// the role's label, a separator, and the operation's label, never empty.
pub proof fn lemma_tag_covers(op: Op)
    ensures
        tag_spec(op) == role_label_spec(role_of(op)) + ": "@ + op_label_spec(op),
        role_label_spec(role_of(op)).len() > 0,
        op_label_spec(op).len() > 0,
        tag_spec(op).len() > 2,
{
    lemma_role_label_nonempty(role_of(op));
    lemma_op_label_nonempty(op);
    reveal_strlit(": ");
}

/// Only the visitor is handed terminal scalars, so only its operations carry
/// a value into the trace record.
pub proof fn lemma_value_ops_are_visits(op: Op)
    ensures
        carries_value_spec(op) ==> role_of(op) == Role::Visitor,
{
}

} // verus!
