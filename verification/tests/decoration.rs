use move_value::account_address::AccountAddress;
use move_value::errors::TagError;
use move_value::identifier::Identifier;
use move_value::language_storage::{StructTag, TypeTag};
use move_value::value::{MoveFieldLayout, MoveStruct, MoveStructLayout, MoveTypeLayout, MoveValue};

fn name(s: &str) -> Identifier {
    Identifier::new(s.to_string()).unwrap()
}

fn one() -> AccountAddress {
    let mut bytes = [0u8; 16];
    bytes[15] = 1;
    AccountAddress::new(bytes)
}

fn coin() -> StructTag {
    StructTag { address: one(), module: name("Coin"), name: name("T"), type_params: vec![] }
}

fn two_fields() -> Vec<MoveFieldLayout> {
    vec![
        MoveFieldLayout::new(name("a"), MoveTypeLayout::U8),
        MoveFieldLayout::new(name("b"), MoveTypeLayout::U64),
    ]
}

#[test]
fn fully_typed_struct_is_left_unchanged() {
    let typed = MoveStruct::with_types(
        coin(),
        vec![(name("x"), MoveValue::U8(1)), (name("y"), MoveValue::U64(2))],
    );
    let layouts = vec![
        MoveStructLayout::new(vec![MoveTypeLayout::U8]),
        MoveStructLayout::with_fields(two_fields()),
        MoveStructLayout::with_types(coin(), two_fields()),
        MoveStructLayout::with_types(coin(), vec![]),
    ];
    for layout in layouts.iter() {
        assert_eq!(typed.clone().decorate(layout), typed);
    }
}

#[test]
fn bare_struct_takes_the_names_of_the_layout() {
    let bare = MoveStruct::new(vec![MoveValue::U8(1), MoveValue::U64(2)]);
    let got = bare.decorate(&MoveStructLayout::with_fields(two_fields()));
    assert_eq!(
        got,
        MoveStruct::with_fields(vec![(name("a"), MoveValue::U8(1)), (name("b"), MoveValue::U64(2))])
    );
}

#[test]
fn bare_struct_takes_names_and_type() {
    let bare = MoveStruct::new(vec![MoveValue::U8(1), MoveValue::U64(2)]);
    let got = bare.decorate(&MoveStructLayout::with_types(coin(), two_fields()));
    assert_eq!(
        got,
        MoveStruct::with_types(
            coin(),
            vec![(name("a"), MoveValue::U8(1)), (name("b"), MoveValue::U64(2))]
        )
    );
}

#[test]
fn named_struct_keeps_its_names_and_takes_the_type() {
    let named =
        MoveStruct::with_fields(vec![(name("x"), MoveValue::U8(1)), (name("y"), MoveValue::U64(2))]);
    let got = named.decorate(&MoveStructLayout::with_types(coin(), two_fields()));
    assert_eq!(
        got,
        MoveStruct::with_types(
            coin(),
            vec![(name("x"), MoveValue::U8(1)), (name("y"), MoveValue::U64(2))]
        )
    );
}

#[test]
fn decoration_never_demotes() {
    let named = MoveStruct::with_fields(vec![(name("x"), MoveValue::U8(1))]);
    assert_eq!(named.clone().decorate(&MoveStructLayout::new(vec![MoveTypeLayout::U8])), named);
    assert_eq!(named.clone().decorate(&MoveStructLayout::with_fields(two_fields())), named);
    let bare = MoveStruct::new(vec![MoveValue::U8(1)]);
    assert_eq!(bare.clone().decorate(&MoveStructLayout::new(vec![MoveTypeLayout::U8])), bare);
}

#[test]
fn decoration_twice_is_decoration_once() {
    let layout = MoveTypeLayout::Vector(Box::new(MoveTypeLayout::Struct(
        MoveStructLayout::with_fields(two_fields()),
    )));
    let value = MoveValue::Vector(vec![
        MoveValue::Struct(MoveStruct::new(vec![MoveValue::U8(1), MoveValue::U64(2)])),
        MoveValue::Struct(MoveStruct::new(vec![MoveValue::U8(3), MoveValue::U64(4)])),
    ]);
    let once = value.decorate(&layout);
    let twice = once.clone().decorate(&layout);
    assert_eq!(once, twice);
    assert_eq!(
        once,
        MoveValue::Vector(vec![
            MoveValue::Struct(MoveStruct::with_fields(vec![
                (name("a"), MoveValue::U8(1)),
                (name("b"), MoveValue::U64(2))
            ])),
            MoveValue::Struct(MoveStruct::with_fields(vec![
                (name("a"), MoveValue::U8(3)),
                (name("b"), MoveValue::U64(4))
            ])),
        ])
    );
}

#[test]
fn nested_structs_are_decorated() {
    let inner = MoveStructLayout::with_fields(vec![MoveFieldLayout::new(
        name("flag"),
        MoveTypeLayout::Bool,
    )]);
    let outer = MoveStructLayout::with_types(
        coin(),
        vec![MoveFieldLayout::new(name("inner"), MoveTypeLayout::Struct(inner))],
    );
    let value = MoveStruct::new(vec![MoveValue::Struct(MoveStruct::new(vec![MoveValue::Bool(true)]))]);
    assert_eq!(
        value.decorate(&outer),
        MoveStruct::with_types(
            coin(),
            vec![(
                name("inner"),
                MoveValue::Struct(MoveStruct::with_fields(vec![(
                    name("flag"),
                    MoveValue::Bool(true)
                )]))
            )]
        )
    );
}

#[test]
fn decoration_follows_the_shorter_of_values_and_fields() {
    let long = MoveStruct::new(vec![MoveValue::U8(1), MoveValue::U64(2), MoveValue::Bool(true)]);
    assert_eq!(
        long.decorate(&MoveStructLayout::with_fields(two_fields())),
        MoveStruct::with_fields(vec![(name("a"), MoveValue::U8(1)), (name("b"), MoveValue::U64(2))])
    );
    let short = MoveStruct::new(vec![MoveValue::U8(1)]);
    assert_eq!(
        short.decorate(&MoveStructLayout::with_fields(two_fields())),
        MoveStruct::with_fields(vec![(name("a"), MoveValue::U8(1))])
    );
}

#[test]
fn value_of_another_shape_passes_through() {
    let layout = MoveTypeLayout::Struct(MoveStructLayout::with_fields(two_fields()));
    assert_eq!(MoveValue::U8(3).decorate(&layout), MoveValue::U8(3));
    let v = MoveValue::vector_u8(vec![1, 2]);
    assert_eq!(v.clone().decorate(&layout), v);
    let s = MoveValue::Struct(MoveStruct::new(vec![MoveValue::U8(1)]));
    assert_eq!(s.clone().decorate(&MoveTypeLayout::U8), s);
}

#[test]
fn decoration_agrees_with_decoding() {
    let bytes = vec![1, 2, 0, 0, 0, 0, 0, 0, 0];
    let bare = MoveStructLayout::new(vec![MoveTypeLayout::U8, MoveTypeLayout::U64]);
    let typed = MoveStructLayout::with_types(coin(), two_fields());
    let decoded_bare = MoveStruct::simple_deserialize(&bytes, &bare).unwrap();
    let decoded_typed = MoveStruct::simple_deserialize(&bytes, &typed).unwrap();
    assert_eq!(decoded_bare.decorate(&typed), decoded_typed);
}

#[test]
fn flat_fields_of_a_bare_struct() {
    let bare = MoveStruct::new(vec![MoveValue::U8(1), MoveValue::U64(2)]);
    assert_eq!(bare.fields(), &[MoveValue::U8(1), MoveValue::U64(2)][..]);
    let layout = MoveStructLayout::new(vec![MoveTypeLayout::U8, MoveTypeLayout::Bool]);
    assert_eq!(layout.fields(), &[MoveTypeLayout::U8, MoveTypeLayout::Bool][..]);
}

#[test]
fn into_fields_drops_names_and_type() {
    let want = vec![MoveValue::U8(1), MoveValue::U64(2)];
    let fields = vec![(name("a"), MoveValue::U8(1)), (name("b"), MoveValue::U64(2))];
    assert_eq!(MoveStruct::new(want.clone()).into_fields(), want);
    assert_eq!(MoveStruct::with_fields(fields.clone()).into_fields(), want);
    assert_eq!(MoveStruct::with_types(coin(), fields).into_fields(), want);
}

#[test]
fn layout_into_fields_drops_names_and_type() {
    let want = vec![MoveTypeLayout::U8, MoveTypeLayout::U64];
    assert_eq!(MoveStructLayout::new(want.clone()).into_fields(), want);
    assert_eq!(MoveStructLayout::with_fields(two_fields()).into_fields(), want);
    assert_eq!(MoveStructLayout::with_types(coin(), two_fields()).into_fields(), want);
}

#[test]
fn type_tag_of_a_fully_typed_layout() {
    let typed = MoveStructLayout::with_types(coin(), two_fields());
    assert_eq!(typed.struct_tag(), Ok(coin()));
    assert_eq!(MoveTypeLayout::Struct(typed.clone()).type_tag(), Ok(TypeTag::Struct(coin())));
    assert_eq!(
        MoveTypeLayout::Vector(Box::new(MoveTypeLayout::Struct(typed))).type_tag(),
        Ok(TypeTag::Vector(Box::new(TypeTag::Struct(coin()))))
    );
}

#[test]
fn no_type_tag_without_a_type() {
    let bare = MoveStructLayout::new(vec![MoveTypeLayout::U8]);
    let named = MoveStructLayout::with_fields(two_fields());
    assert_eq!(bare.struct_tag(), Err(TagError::MissingType));
    assert_eq!(named.struct_tag(), Err(TagError::MissingType));
    assert_eq!(MoveTypeLayout::Struct(bare).type_tag(), Err(TagError::MissingType));
    assert_eq!(
        MoveTypeLayout::Vector(Box::new(MoveTypeLayout::Struct(named))).type_tag(),
        Err(TagError::MissingType)
    );
}

#[test]
fn type_tags_of_primitive_layouts() {
    assert_eq!(MoveTypeLayout::Bool.type_tag(), Ok(TypeTag::Bool));
    assert_eq!(MoveTypeLayout::U8.type_tag(), Ok(TypeTag::U8));
    assert_eq!(MoveTypeLayout::U64.type_tag(), Ok(TypeTag::U64));
    assert_eq!(MoveTypeLayout::U128.type_tag(), Ok(TypeTag::U128));
    assert_eq!(MoveTypeLayout::Address.type_tag(), Ok(TypeTag::Address));
    assert_eq!(MoveTypeLayout::Signer.type_tag(), Ok(TypeTag::Signer));
    assert_eq!(
        MoveTypeLayout::Vector(Box::new(MoveTypeLayout::U8)).type_tag(),
        Ok(TypeTag::Vector(Box::new(TypeTag::U8)))
    );
}

#[test]
fn decoration_keeps_the_bytes() {
    let inner = MoveStructLayout::with_fields(vec![MoveFieldLayout::new(
        name("flag"),
        MoveTypeLayout::Bool,
    )]);
    let layout = MoveTypeLayout::Struct(MoveStructLayout::with_types(
        coin(),
        vec![
            MoveFieldLayout::new(name("n"), MoveTypeLayout::U64),
            MoveFieldLayout::new(
                name("items"),
                MoveTypeLayout::Vector(Box::new(MoveTypeLayout::Struct(inner))),
            ),
        ],
    ));
    let bare = MoveValue::Struct(MoveStruct::new(vec![
        MoveValue::U64(9),
        MoveValue::Vector(vec![
            MoveValue::Struct(MoveStruct::new(vec![MoveValue::Bool(true)])),
            MoveValue::Struct(MoveStruct::new(vec![MoveValue::Bool(false)])),
        ]),
    ]));
    let bytes = bare.simple_serialize().unwrap();
    assert_eq!(bytes, vec![9, 0, 0, 0, 0, 0, 0, 0, 2, 1, 0]);
    let decorated = bare.decorate(&layout);
    assert_eq!(decorated.simple_serialize(), Some(bytes.clone()));
    assert_eq!(MoveValue::simple_deserialize(&bytes, &layout), Ok(decorated));
}
