use move_value::account_address::AccountAddress;
use move_value::errors::{DecodeError, TagError};
use move_value::filter::{hash, hash_seed, hash_value};
use move_value::identifier::{is_valid, Identifier};
use move_value::language_storage::{StructTag, TypeTag};
use move_value::structured::{
    Structured, MOVE_STRUCT_FIELDS, MOVE_STRUCT_NAME, MOVE_STRUCT_TYPE,
};
use move_value::value::{MoveFieldLayout, MoveStruct, MoveStructLayout, MoveTypeLayout, MoveValue};

fn word(s: &str) -> Identifier {
    Identifier::new(s.to_string()).unwrap()
}

fn addr(bytes: &[u8]) -> AccountAddress {
    let mut all = [0u8; 16];
    all[16 - bytes.len()..].copy_from_slice(bytes);
    AccountAddress::new(all)
}

fn tag_t() -> StructTag {
    StructTag { address: addr(&[1]), module: word("M"), name: word("T"), type_params: vec![] }
}

#[test]
fn fully_typed_struct_is_an_object_of_type_and_fields() {
    let s = MoveStruct::with_types(
        tag_t(),
        vec![(word("a"), MoveValue::U8(1)), (word("b"), MoveValue::U8(2))],
    );
    assert_eq!(
        s.to_structured(),
        Structured::Object {
            type_: "0x1::M::T".to_string(),
            fields: vec![
                ("a".to_string(), Structured::U8(1)),
                ("b".to_string(), Structured::U8(2))
            ],
        }
    );
}

#[test]
fn names_of_the_object_members() {
    assert_eq!(MOVE_STRUCT_NAME, "struct");
    assert_eq!(MOVE_STRUCT_TYPE, "type");
    assert_eq!(MOVE_STRUCT_FIELDS, "fields");
}

#[test]
fn field_named_struct_is_a_mapping_in_order() {
    let s = MoveStruct::with_fields(vec![
        (word("z"), MoveValue::U64(1)),
        (word("a"), MoveValue::Bool(true)),
    ]);
    assert_eq!(
        s.to_structured(),
        Structured::Mapping(vec![
            ("z".to_string(), Structured::U64(1)),
            ("a".to_string(), Structured::Bool(true))
        ])
    );
}

#[test]
fn bare_struct_is_a_tuple_and_vector_a_list() {
    let s = MoveValue::Struct(MoveStruct::new(vec![
        MoveValue::U128(5),
        MoveValue::vector_u8(vec![1, 2]),
        MoveValue::Signer(addr(&[7])),
    ]));
    assert_eq!(
        s.to_structured(),
        Structured::Tuple(vec![
            Structured::U128(5),
            Structured::List(vec![Structured::U8(1), Structured::U8(2)]),
            Structured::Address(addr(&[7])),
        ])
    );
}

#[test]
fn primitive_layouts_are_keywords() {
    assert_eq!(MoveTypeLayout::Bool.to_string(), "bool");
    assert_eq!(MoveTypeLayout::U8.to_string(), "u8");
    assert_eq!(MoveTypeLayout::U64.to_string(), "u64");
    assert_eq!(MoveTypeLayout::U128.to_string(), "u128");
    assert_eq!(MoveTypeLayout::Address.to_string(), "address");
    assert_eq!(MoveTypeLayout::Signer.to_string(), "signer");
    assert_eq!(
        MoveTypeLayout::Vector(Box::new(MoveTypeLayout::Vector(Box::new(MoveTypeLayout::U8))))
            .to_string(),
        "vector<vector<u8>>"
    );
}

#[test]
fn bare_layout_shows_positions() {
    let layouts: Vec<MoveTypeLayout> = (0..12).map(|_| MoveTypeLayout::U8).collect();
    assert_eq!(
        MoveStructLayout::new(layouts).to_string(),
        "{ 0: u8, 1: u8, 2: u8, 3: u8, 4: u8, 5: u8, 6: u8, 7: u8, 8: u8, 9: u8, 10: u8, 11: u8, }"
    );
    assert_eq!(MoveStructLayout::new(vec![]).to_string(), "{ }");
}

#[test]
fn named_layout_shows_names() {
    let fields = vec![
        MoveFieldLayout::new(word("a"), MoveTypeLayout::U64),
        MoveFieldLayout::new(word("b"), MoveTypeLayout::Vector(Box::new(MoveTypeLayout::Bool))),
    ];
    assert_eq!(fields[1].to_string(), "b: vector<bool>");
    assert_eq!(MoveStructLayout::with_fields(fields).to_string(), "{ a: u64, b: vector<bool>, }");
}

#[test]
fn typed_layout_shows_type_before_fields() {
    let fields = vec![MoveFieldLayout::new(word("a"), MoveTypeLayout::U64)];
    let layout = MoveTypeLayout::Struct(MoveStructLayout::with_types(tag_t(), fields));
    assert_eq!(layout.to_string(), "{ Type: 0x1::M::TFields:a: u64, }");
}

#[test]
fn struct_tag_text_with_type_arguments() {
    let inner = StructTag {
        address: addr(&[0xa5, 0x50, 0xc1, 0x8f]),
        module: word("Inner"),
        name: word("Box_1"),
        type_params: vec![TypeTag::U128],
    };
    let outer = StructTag {
        address: addr(&[]),
        module: word("M"),
        name: word("S"),
        type_params: vec![
            TypeTag::U8,
            TypeTag::Vector(Box::new(TypeTag::Address)),
            TypeTag::Struct(inner),
            TypeTag::Signer,
        ],
    };
    assert_eq!(
        outer.to_string(),
        "0x0::M::S<u8,vector<address>,0xa550c18f::Inner::Box_1<u128>,signer>"
    );
    assert_eq!(TypeTag::Vector(Box::new(TypeTag::Bool)).to_string(), "vector<bool>");
    assert_eq!(TypeTag::U64.to_string(), "u64");
}

#[test]
fn address_in_base_sixteen() {
    assert_eq!(addr(&[]).short_hex(), "0");
    assert_eq!(addr(&[1]).short_hex(), "1");
    assert_eq!(addr(&[0x0a, 0x0b]).short_hex(), "a0b");
    assert_eq!(AccountAddress::new([0xff; 16]).short_hex(), "ffffffffffffffffffffffffffffffff");
    assert_eq!(AccountAddress::new([0xff; 16]).to_u128(), u128::MAX);
    assert_eq!(addr(&[1, 0]).to_u128(), 256);
}

#[test]
fn address_from_bytes_wants_sixteen() {
    assert_eq!(AccountAddress::from_bytes(&[0; 15]), None);
    assert_eq!(AccountAddress::from_bytes(&[0; 17]), None);
    let bytes: Vec<u8> = (1..=16).collect();
    let a = AccountAddress::from_bytes(&bytes).unwrap();
    assert_eq!(a.to_vec(), bytes);
    assert_eq!(a.into_bytes().to_vec(), bytes);
}

#[test]
fn identifiers_are_validated() {
    assert!(is_valid("a"));
    assert!(is_valid("Coin_2"));
    assert!(is_valid("_x"));
    assert!(!is_valid(""));
    assert!(!is_valid("_"));
    assert!(!is_valid("9a"));
    assert!(!is_valid("a-b"));
    assert!(!is_valid("caf\u{e9}"));
    assert!(Identifier::new("a b".to_string()).is_none());
    let id = Identifier::new("Coin".to_string()).unwrap();
    assert_eq!(id.as_str(), "Coin");
    assert_eq!(id.to_string(), "Coin");
    assert_eq!(id.clone().into_string(), "Coin");
}

#[test]
fn hash_is_murmur3_under_the_low_bits_of_the_index() {
    assert_eq!(hash_seed(5), 5);
    assert_eq!(hash_seed((1 << 32) + 5), 5);
    assert_eq!(hash_seed(u64::MAX), u32::MAX);
    assert_eq!(hash_value(0), 0);
    assert_eq!(hash_value(613153351), 613153351);
    assert_eq!(hash_value(u32::MAX), 4294967295);
    assert_eq!(hash(b"hello", 0), 613153351);
    assert_eq!(hash(b"hello", 1 << 32), 613153351);
    assert_ne!(hash(b"hello", 1), hash(b"hello", 0));
    assert!(hash(b"some bytes", 7) <= u32::MAX as u64);
}

#[test]
fn errors_in_words() {
    assert_eq!(DecodeError::UnexpectedEof.message(), "unexpected end of input");
    assert_eq!(DecodeError::InvalidLength(12).message(), "invalid length 12, expected Struct");
    assert_eq!(DecodeError::ExpectedBoolean.message(), "expected boolean");
    assert_eq!(
        DecodeError::NonCanonicalUleb128.message(),
        "ULEB128 encoding was not minimal in size"
    );
    assert_eq!(
        DecodeError::Uleb128Overflow.message(),
        "ULEB128-encoded integer did not fit in the target size"
    );
    assert_eq!(
        DecodeError::ExceededMaxLen(2147483648).message(),
        "exceeded max sequence length: 2147483648"
    );
    assert_eq!(DecodeError::RemainingInput.message(), "remaining input");
    assert_eq!(
        TagError::MissingType.message(),
        "Invalid MoveTypeLayout -> StructTag conversion--needed MoveLayoutType::WithTypes"
    );
}
