use move_value::account_address::AccountAddress;
use move_value::encode::serialize_values;
use move_value::errors::DecodeError;
use move_value::identifier::Identifier;
use move_value::language_storage::StructTag;
use move_value::value::{MoveFieldLayout, MoveStruct, MoveStructLayout, MoveTypeLayout, MoveValue};

fn ident(s: &str) -> Identifier {
    Identifier::new(s.to_string()).unwrap()
}

fn address(last: u8) -> AccountAddress {
    let mut bytes = [0u8; 16];
    bytes[15] = last;
    AccountAddress::new(bytes)
}

fn tag() -> StructTag {
    StructTag { address: address(1), module: ident("M"), name: ident("S"), type_params: vec![] }
}

fn named_layouts() -> Vec<MoveFieldLayout> {
    vec![
        MoveFieldLayout::new(ident("a"), MoveTypeLayout::U64),
        MoveFieldLayout::new(ident("b"), MoveTypeLayout::Vector(Box::new(MoveTypeLayout::U8))),
    ]
}

#[test]
fn vector_of_three_bytes_has_length_prefix() {
    let v = MoveValue::vector_u8(vec![1, 2, 9]);
    assert_eq!(v.simple_serialize(), Some(vec![3, 1, 2, 9]));
}

#[test]
fn integers_are_little_endian() {
    assert_eq!(MoveValue::U8(7).simple_serialize(), Some(vec![7]));
    assert_eq!(
        MoveValue::U64(0x0102030405060708).simple_serialize(),
        Some(vec![8, 7, 6, 5, 4, 3, 2, 1])
    );
    assert_eq!(
        MoveValue::U128(0x0102030405060708090a0b0c0d0e0f10).simple_serialize(),
        Some(vec![16, 15, 14, 13, 12, 11, 10, 9, 8, 7, 6, 5, 4, 3, 2, 1])
    );
}

#[test]
fn booleans_are_one_byte() {
    assert_eq!(MoveValue::Bool(false).simple_serialize(), Some(vec![0]));
    assert_eq!(MoveValue::Bool(true).simple_serialize(), Some(vec![1]));
}

#[test]
fn address_and_signer_are_their_bytes() {
    let mut want = vec![0u8; 16];
    want[15] = 0x2a;
    assert_eq!(MoveValue::Address(address(0x2a)).simple_serialize(), Some(want.clone()));
    assert_eq!(MoveValue::Signer(address(0x2a)).simple_serialize(), Some(want));
}

#[test]
fn struct_is_its_fields_without_prefix() {
    let s = MoveValue::Struct(MoveStruct::new(vec![MoveValue::U8(5), MoveValue::Bool(true)]));
    assert_eq!(s.simple_serialize(), Some(vec![5, 1]));
}

#[test]
fn names_and_type_are_not_written() {
    let fields = vec![(ident("a"), MoveValue::U64(7)), (ident("b"), MoveValue::vector_u8(vec![1]))];
    let bare = MoveStruct::new(vec![MoveValue::U64(7), MoveValue::vector_u8(vec![1])]);
    let named = MoveStruct::with_fields(fields.clone());
    let typed = MoveStruct::with_types(tag(), fields);
    let want = Some(vec![7, 0, 0, 0, 0, 0, 0, 0, 1, 1]);
    assert_eq!(bare.simple_serialize(), want);
    assert_eq!(named.simple_serialize(), want);
    assert_eq!(typed.simple_serialize(), want);
}

#[test]
fn encoding_agrees_with_bcs_on_plain_values() {
    let s = MoveValue::Struct(MoveStruct::new(vec![
        MoveValue::U64(0xdead_beef),
        MoveValue::Bool(true),
        MoveValue::vector_u8(vec![1, 2, 9]),
        MoveValue::U128(u128::MAX - 3),
    ]));
    let want = bcs::to_bytes(&(0xdead_beefu64, true, vec![1u8, 2, 9], u128::MAX - 3)).unwrap();
    assert_eq!(s.simple_serialize(), Some(want));
}

#[test]
fn long_vector_prefix_agrees_with_bcs() {
    let bytes: Vec<u8> = (0..300u32).map(|i| (i % 251) as u8).collect();
    let v = MoveValue::vector_u8(bytes.clone());
    let got = v.simple_serialize().unwrap();
    assert_eq!(&got[..2], &[0xac, 0x02]);
    assert_eq!(got, bcs::to_bytes(&bytes).unwrap());
}

#[test]
fn length_prefix_at_digit_boundaries() {
    let short = MoveValue::vector_u8(vec![0; 127]).simple_serialize().unwrap();
    assert_eq!(short[0], 127);
    assert_eq!(short.len(), 128);
    let long = MoveValue::vector_u8(vec![0; 128]).simple_serialize().unwrap();
    assert_eq!(&long[..2], &[0x80, 0x01]);
    assert_eq!(long.len(), 130);
    let longer = MoveValue::vector_u8(vec![0; 16384]).simple_serialize().unwrap();
    assert_eq!(&longer[..3], &[0x80, 0x80, 0x01]);
}

#[test]
fn serialize_values_gives_each_encoding() {
    let vals = vec![MoveValue::U8(1), MoveValue::U64(2), MoveValue::vector_u8(vec![3])];
    assert_eq!(
        serialize_values(&vals),
        vec![vec![1], vec![2, 0, 0, 0, 0, 0, 0, 0], vec![1, 3]]
    );
}

#[test]
fn primitives_are_read_back() {
    assert_eq!(
        MoveValue::simple_deserialize(&[8, 7, 6, 5, 4, 3, 2, 1], &MoveTypeLayout::U64),
        Ok(MoveValue::U64(0x0102030405060708))
    );
    assert_eq!(
        MoveValue::simple_deserialize(
            &[16, 15, 14, 13, 12, 11, 10, 9, 8, 7, 6, 5, 4, 3, 2, 1],
            &MoveTypeLayout::U128
        ),
        Ok(MoveValue::U128(0x0102030405060708090a0b0c0d0e0f10))
    );
    assert_eq!(MoveValue::simple_deserialize(&[9], &MoveTypeLayout::U8), Ok(MoveValue::U8(9)));
    assert_eq!(
        MoveValue::simple_deserialize(&[1], &MoveTypeLayout::Bool),
        Ok(MoveValue::Bool(true))
    );
    assert_eq!(
        MoveValue::simple_deserialize(&[0], &MoveTypeLayout::Bool),
        Ok(MoveValue::Bool(false))
    );
}

#[test]
fn address_and_signer_are_distinct_kinds() {
    let mut bytes = vec![0u8; 16];
    bytes[15] = 3;
    assert_eq!(
        MoveValue::simple_deserialize(&bytes, &MoveTypeLayout::Address),
        Ok(MoveValue::Address(address(3)))
    );
    assert_eq!(
        MoveValue::simple_deserialize(&bytes, &MoveTypeLayout::Signer),
        Ok(MoveValue::Signer(address(3)))
    );
    assert_ne!(MoveValue::Address(address(3)), MoveValue::Signer(address(3)));
}

#[test]
fn round_trip_of_a_nested_value() {
    let layout = MoveTypeLayout::Struct(MoveStructLayout::new(vec![
        MoveTypeLayout::U64,
        MoveTypeLayout::Vector(Box::new(MoveTypeLayout::Struct(MoveStructLayout::new(vec![
            MoveTypeLayout::Bool,
            MoveTypeLayout::Address,
        ])))),
        MoveTypeLayout::Struct(MoveStructLayout::new(vec![])),
        MoveTypeLayout::U128,
    ]));
    let value = MoveValue::Struct(MoveStruct::new(vec![
        MoveValue::U64(77),
        MoveValue::Vector(vec![
            MoveValue::Struct(MoveStruct::new(vec![
                MoveValue::Bool(true),
                MoveValue::Address(address(1)),
            ])),
            MoveValue::Struct(MoveStruct::new(vec![
                MoveValue::Bool(false),
                MoveValue::Address(address(2)),
            ])),
        ]),
        MoveValue::Struct(MoveStruct::new(vec![])),
        MoveValue::U128(1 << 100),
    ]));
    let bytes = value.simple_serialize().unwrap();
    assert_eq!(MoveValue::simple_deserialize(&bytes, &layout), Ok(value));
}

#[test]
fn round_trip_ends_in_an_empty_struct() {
    let layout = MoveStructLayout::new(vec![
        MoveTypeLayout::U8,
        MoveTypeLayout::Struct(MoveStructLayout::new(vec![])),
    ]);
    let value = MoveStruct::new(vec![MoveValue::U8(4), MoveValue::Struct(MoveStruct::new(vec![]))]);
    let bytes = value.simple_serialize().unwrap();
    assert_eq!(bytes, vec![4]);
    assert_eq!(MoveStruct::simple_deserialize(&bytes, &layout), Ok(value));
}

#[test]
fn layout_kind_decides_struct_kind() {
    let bytes = vec![7, 0, 0, 0, 0, 0, 0, 0, 2, 5, 6];
    let values = vec![MoveValue::U64(7), MoveValue::vector_u8(vec![5, 6])];
    let fields =
        vec![(ident("a"), MoveValue::U64(7)), (ident("b"), MoveValue::vector_u8(vec![5, 6]))];

    let bare = MoveStructLayout::new(vec![
        MoveTypeLayout::U64,
        MoveTypeLayout::Vector(Box::new(MoveTypeLayout::U8)),
    ]);
    assert_eq!(MoveStruct::simple_deserialize(&bytes, &bare), Ok(MoveStruct::new(values)));

    let named = MoveStructLayout::with_fields(named_layouts());
    assert_eq!(
        MoveStruct::simple_deserialize(&bytes, &named),
        Ok(MoveStruct::with_fields(fields.clone()))
    );

    let typed = MoveStructLayout::with_types(tag(), named_layouts());
    let got = MoveStruct::simple_deserialize(&bytes, &typed).unwrap();
    assert_eq!(got, MoveStruct::with_types(tag(), fields));
    assert_eq!(got.simple_serialize(), Some(bytes));
}

#[test]
fn missing_field_is_named_by_position() {
    let layout =
        MoveStructLayout::new(vec![MoveTypeLayout::U8, MoveTypeLayout::U8, MoveTypeLayout::U8]);
    assert_eq!(
        MoveStruct::simple_deserialize(&[1, 2], &layout),
        Err(DecodeError::InvalidLength(2))
    );
    assert_eq!(MoveStruct::simple_deserialize(&[], &layout), Err(DecodeError::InvalidLength(0)));
    assert_eq!(
        MoveStruct::simple_deserialize(&[1, 2, 3], &layout),
        Ok(MoveStruct::new(vec![MoveValue::U8(1), MoveValue::U8(2), MoveValue::U8(3)]))
    );
}

#[test]
fn missing_struct_field_is_named_by_its_own_position() {
    let inner = MoveTypeLayout::Struct(MoveStructLayout::new(vec![
        MoveTypeLayout::U8,
        MoveTypeLayout::U8,
    ]));
    let layout = MoveStructLayout::new(vec![MoveTypeLayout::U8, inner]);
    assert_eq!(MoveStruct::simple_deserialize(&[1], &layout), Err(DecodeError::InvalidLength(1)));
    assert_eq!(
        MoveStruct::simple_deserialize(&[1, 2], &layout),
        Err(DecodeError::InvalidLength(1))
    );
    assert_eq!(MoveStruct::simple_deserialize(&[], &layout), Err(DecodeError::InvalidLength(0)));
}

#[test]
fn missing_named_field_is_named_by_position() {
    let layout = MoveStructLayout::with_fields(named_layouts());
    assert_eq!(
        MoveStruct::simple_deserialize(&[7, 0, 0, 0, 0, 0, 0, 0], &layout),
        Err(DecodeError::InvalidLength(1))
    );
}

#[test]
fn input_that_ends_inside_a_value() {
    assert_eq!(
        MoveValue::simple_deserialize(&[1, 2, 3], &MoveTypeLayout::U64),
        Err(DecodeError::UnexpectedEof)
    );
    assert_eq!(
        MoveValue::simple_deserialize(&[0; 15], &MoveTypeLayout::U128),
        Err(DecodeError::UnexpectedEof)
    );
    assert_eq!(
        MoveValue::simple_deserialize(&[0; 15], &MoveTypeLayout::Address),
        Err(DecodeError::UnexpectedEof)
    );
    assert_eq!(
        MoveValue::simple_deserialize(&[], &MoveTypeLayout::Bool),
        Err(DecodeError::UnexpectedEof)
    );
    let layout = MoveStructLayout::new(vec![MoveTypeLayout::U64, MoveTypeLayout::U64]);
    let mut bytes = vec![0u8; 12];
    bytes[0] = 1;
    assert_eq!(MoveStruct::simple_deserialize(&bytes, &layout), Err(DecodeError::UnexpectedEof));
    let vector = MoveTypeLayout::Vector(Box::new(MoveTypeLayout::U8));
    assert_eq!(MoveValue::simple_deserialize(&[3, 1, 2], &vector), Err(DecodeError::UnexpectedEof));
}

#[test]
fn byte_that_is_no_boolean() {
    assert_eq!(
        MoveValue::simple_deserialize(&[2], &MoveTypeLayout::Bool),
        Err(DecodeError::ExpectedBoolean)
    );
}

#[test]
fn malformed_length_prefixes() {
    let vector = MoveTypeLayout::Vector(Box::new(MoveTypeLayout::U8));
    assert_eq!(
        MoveValue::simple_deserialize(&[0x80, 0x00], &vector),
        Err(DecodeError::NonCanonicalUleb128)
    );
    assert_eq!(
        MoveValue::simple_deserialize(&[0xff, 0xff, 0xff, 0xff, 0x1f], &vector),
        Err(DecodeError::Uleb128Overflow)
    );
    assert_eq!(
        MoveValue::simple_deserialize(&[0x80, 0x80, 0x80, 0x80, 0x80, 0x01], &vector),
        Err(DecodeError::Uleb128Overflow)
    );
    assert_eq!(
        MoveValue::simple_deserialize(&[0x80, 0x80, 0x80, 0x80, 0x08], &vector),
        Err(DecodeError::ExceededMaxLen(2147483648))
    );
    assert_eq!(MoveValue::simple_deserialize(&[0x80], &vector), Err(DecodeError::UnexpectedEof));
}

#[test]
fn malformed_prefixes_fail_in_bcs_too() {
    assert!(bcs::from_bytes::<Vec<u8>>(&[0x80, 0x00]).is_err());
    assert!(bcs::from_bytes::<Vec<u8>>(&[0xff, 0xff, 0xff, 0xff, 0x1f]).is_err());
    assert!(bcs::from_bytes::<Vec<u8>>(&[0x80, 0x80, 0x80, 0x80, 0x08]).is_err());
    assert_eq!(bcs::from_bytes::<Vec<u8>>(&[2, 7, 8]).unwrap(), vec![7u8, 8]);
    let vector = MoveTypeLayout::Vector(Box::new(MoveTypeLayout::U8));
    assert_eq!(
        MoveValue::simple_deserialize(&[2, 7, 8], &vector),
        Ok(MoveValue::vector_u8(vec![7, 8]))
    );
}

#[test]
fn bytes_left_over_are_refused_at_the_boundary() {
    assert_eq!(
        MoveValue::simple_deserialize(&[1, 2], &MoveTypeLayout::U8),
        Err(DecodeError::RemainingInput)
    );
    let layout = MoveStructLayout::new(vec![MoveTypeLayout::U8]);
    assert_eq!(MoveStruct::simple_deserialize(&[1, 2], &layout), Err(DecodeError::RemainingInput));
}

#[test]
fn prefix_decoding_leaves_the_rest() {
    let bytes = [9u8, 1, 2, 0xaa, 0xbb];
    let vector = MoveTypeLayout::Vector(Box::new(MoveTypeLayout::U8));
    assert_eq!(MoveTypeLayout::U8.deserialize(&bytes), Ok((MoveValue::U8(9), 1)));
    assert_eq!(vector.deserialize(&bytes[1..]), Ok((MoveValue::vector_u8(vec![2]), 2)));
    let layout = MoveStructLayout::new(vec![MoveTypeLayout::U8, MoveTypeLayout::U8]);
    assert_eq!(
        layout.deserialize(&bytes[2..]),
        Ok((MoveStruct::new(vec![MoveValue::U8(2), MoveValue::U8(0xaa)]), 2))
    );
    assert_eq!(layout.deserialize(&bytes[4..]), Err(DecodeError::InvalidLength(1)));
    assert_eq!(layout.deserialize(&[]), Err(DecodeError::InvalidLength(0)));
}

#[test]
fn vector_of_addresses() {
    let v = MoveValue::vector_address(vec![address(1), address(2)]);
    assert_eq!(v, MoveValue::Vector(vec![MoveValue::Address(address(1)), MoveValue::Address(address(2))]));
    let bytes = v.simple_serialize().unwrap();
    assert_eq!(bytes.len(), 33);
    assert_eq!(bytes[0], 2);
    let layout = MoveTypeLayout::Vector(Box::new(MoveTypeLayout::Address));
    assert_eq!(MoveValue::simple_deserialize(&bytes, &layout), Ok(v));
}
