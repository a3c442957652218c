use detrace::ops::{carries_value, op_label, role, role_label, tag, Op, Role};

fn all_ops() -> Vec<Op> {
    vec![
        Op::Deserialize,
        Op::SeedDeserialize,
        Op::DeserializeAny,
        Op::DeserializeBool,
        Op::DeserializeI8,
        Op::DeserializeI16,
        Op::DeserializeI32,
        Op::DeserializeI64,
        Op::DeserializeI128,
        Op::DeserializeU8,
        Op::DeserializeU16,
        Op::DeserializeU32,
        Op::DeserializeU64,
        Op::DeserializeU128,
        Op::DeserializeF32,
        Op::DeserializeF64,
        Op::DeserializeChar,
        Op::DeserializeStr,
        Op::DeserializeString,
        Op::DeserializeBytes,
        Op::DeserializeByteBuf,
        Op::DeserializeOption,
        Op::DeserializeUnit,
        Op::DeserializeUnitStruct,
        Op::DeserializeNewtypeStruct,
        Op::DeserializeSeq,
        Op::DeserializeTuple,
        Op::DeserializeTupleStruct,
        Op::DeserializeMap,
        Op::DeserializeStruct,
        Op::DeserializeEnum,
        Op::DeserializeIdentifier,
        Op::DeserializeIgnoredAny,
        Op::VisitBool,
        Op::VisitI8,
        Op::VisitI16,
        Op::VisitI32,
        Op::VisitI64,
        Op::VisitI128,
        Op::VisitU8,
        Op::VisitU16,
        Op::VisitU32,
        Op::VisitU64,
        Op::VisitU128,
        Op::VisitF32,
        Op::VisitF64,
        Op::VisitChar,
        Op::VisitStr,
        Op::VisitBorrowedStr,
        Op::VisitString,
        Op::VisitBytes,
        Op::VisitBorrowedBytes,
        Op::VisitByteBuf,
        Op::VisitNone,
        Op::VisitSome,
        Op::VisitUnit,
        Op::VisitNewtypeStruct,
        Op::VisitSeq,
        Op::VisitMap,
        Op::VisitEnum,
        Op::NextElementSeed,
        Op::NextElement,
        Op::NextKeySeed,
        Op::NextValueSeed,
        Op::NextEntrySeed,
        Op::NextKey,
        Op::NextValue,
        Op::NextEntry,
        Op::VariantSeed,
        Op::Variant,
    ]
}

#[test]
fn driver_tags_name_role_and_operation() {
    assert_eq!(tag(Op::DeserializeAny), "Deserializer: deserialize_any");
    assert_eq!(tag(Op::DeserializeBool), "Deserializer: deserialize_bool");
    assert_eq!(tag(Op::DeserializeU64), "Deserializer: deserialize_u64");
    assert_eq!(tag(Op::DeserializeByteBuf), "Deserializer: deserialize_byte_buf");
    assert_eq!(tag(Op::DeserializeIgnoredAny), "Deserializer: deserialize_ignored_any");
}

#[test]
fn visitor_scalar_tags_have_no_argument_text() {
    assert_eq!(tag(Op::VisitBool), "Visitor: visit_bool");
    assert_eq!(tag(Op::VisitU64), "Visitor: visit_u64");
    assert_eq!(tag(Op::VisitBorrowedStr), "Visitor: visit_borrowed_str");
}

#[test]
fn visitor_nested_tags_elide_their_argument() {
    assert_eq!(tag(Op::VisitNone), "Visitor: visit_none()");
    assert_eq!(tag(Op::VisitUnit), "Visitor: visit_unit()");
    assert_eq!(tag(Op::VisitSome), "Visitor: visit_some(...)");
    assert_eq!(tag(Op::VisitSeq), "Visitor: visit_seq(...)");
    assert_eq!(tag(Op::VisitMap), "Visitor: visit_map(...)");
    assert_eq!(tag(Op::VisitEnum), "Visitor: visit_enum(...)");
}

#[test]
fn cursor_and_seed_tags_name_role_and_operation() {
    assert_eq!(tag(Op::Deserialize), "Deserialize: deserialize");
    assert_eq!(tag(Op::SeedDeserialize), "DeserializeSeed: deserialize");
    assert_eq!(tag(Op::NextElementSeed), "SeqAccess: next_element_seed");
    assert_eq!(tag(Op::NextElement), "SeqAccess: next_element");
    assert_eq!(tag(Op::NextEntrySeed), "MapAccess: next_entry_seed");
    assert_eq!(tag(Op::NextEntry), "MapAccess: next_entry");
    assert_eq!(tag(Op::VariantSeed), "EnumAccess: variant_seed");
    assert_eq!(tag(Op::Variant), "EnumAccess: variant");
}

#[test]
fn every_operation_has_a_tag_in_its_role() {
    for op in all_ops() {
        let t = tag(op);
        let prefix = format!("{}: ", role_label(role(op)));
        assert!(t.starts_with(&prefix));
        assert!(t.len() > prefix.len());
        assert_eq!(t, format!("{}{}", prefix, op_label(op)));
    }
}

#[test]
fn tags_outside_one_shared_label_are_distinct() {
    // The value-producing role and the seeded role both expose one operation
    // called "deserialize"; every other pair of operations has its own tag.
    let ops = all_ops();
    for (i, a) in ops.iter().enumerate() {
        for b in ops.iter().skip(i + 1) {
            if (*a, *b) == (Op::Deserialize, Op::SeedDeserialize) {
                continue;
            }
            assert_ne!(tag(*a), tag(*b), "{:?} and {:?} share a tag", a, b);
        }
    }
}

#[test]
fn only_scalar_visits_carry_their_value() {
    let scalar = [
        Op::VisitBool,
        Op::VisitI8,
        Op::VisitI16,
        Op::VisitI32,
        Op::VisitI64,
        Op::VisitI128,
        Op::VisitU8,
        Op::VisitU16,
        Op::VisitU32,
        Op::VisitU64,
        Op::VisitU128,
        Op::VisitF32,
        Op::VisitF64,
        Op::VisitChar,
        Op::VisitStr,
        Op::VisitBorrowedStr,
        Op::VisitString,
        Op::VisitBytes,
        Op::VisitBorrowedBytes,
        Op::VisitByteBuf,
    ];
    for op in all_ops() {
        assert_eq!(carries_value(op), scalar.contains(&op), "{:?}", op);
        if carries_value(op) {
            assert_eq!(role(op), Role::Visitor);
        }
    }
}

#[test]
fn roles_partition_the_operations() {
    let mut per_role = [0usize; 7];
    for op in all_ops() {
        let idx: usize = match role(op) {
            Role::Deserialize => 0,
            Role::DeserializeSeed => 1,
            Role::Deserializer => 2,
            Role::Visitor => 3,
            Role::SeqAccess => 4,
            Role::MapAccess => 5,
            Role::EnumAccess => 6,
        };
        per_role[idx] += 1;
    }
    assert_eq!(per_role, [1, 1, 31, 27, 2, 6, 2]);
}

#[test]
fn role_labels_are_the_protocol_names() {
    assert_eq!(role_label(Role::Deserialize), "Deserialize");
    assert_eq!(role_label(Role::Deserializer), "Deserializer");
    assert_eq!(role_label(Role::Visitor), "Visitor");
    assert_eq!(role_label(Role::DeserializeSeed), "DeserializeSeed");
    assert_eq!(role_label(Role::SeqAccess), "SeqAccess");
    assert_eq!(role_label(Role::MapAccess), "MapAccess");
    assert_eq!(role_label(Role::EnumAccess), "EnumAccess");
}
