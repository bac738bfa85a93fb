use enum_debug::{
    derive_enum_debug, generate, read_declaration, EnumDebug, Generated, Instance, Sink, SinkError,
};

pub enum One {
    VariantWithoutValue,
}

impl EnumDebug for One {
    fn fmt(&self, f: &mut Sink) -> Result<(), SinkError> {
        match self {
            One::VariantWithoutValue => f.write_str("VariantWithoutValue"),
        }
    }

    fn fmt_type_name(&self, f: &mut Sink) -> Result<(), SinkError> {
        f.write_str("One")
    }
}

pub enum More {
    VariantWithoutValue,
    VariantWithValue(String),
    VariantWithStruct { field: String },
}

impl EnumDebug for More {
    fn fmt(&self, f: &mut Sink) -> Result<(), SinkError> {
        match self {
            More::VariantWithoutValue => f.write_str("VariantWithoutValue"),
            More::VariantWithValue(..) => f.write_str("VariantWithValue"),
            More::VariantWithStruct { .. } => f.write_str("VariantWithStruct"),
        }
    }

    fn fmt_type_name(&self, f: &mut Sink) -> Result<(), SinkError> {
        f.write_str("More")
    }
}

pub enum Modded1 {
    VariantWithoutValue,
}

impl EnumDebug for Modded1 {
    fn fmt(&self, f: &mut Sink) -> Result<(), SinkError> {
        match self {
            Modded1::VariantWithoutValue => f.write_str("VariantWithoutValue"),
        }
    }

    fn fmt_type_name(&self, f: &mut Sink) -> Result<(), SinkError> {
        f.write_str("Foo")
    }
}

fn generated(source: &str) -> Generated {
    let input: syn::DeriveInput = syn::parse_str(source).unwrap();
    generate(&read_declaration(&input)).unwrap()
}

fn display(generated: &Generated, own_path: &str, active: usize) -> String {
    Instance::new(generated, own_path, active).unwrap().variant().to_string()
}

fn debug(generated: &Generated, own_path: &str, active: usize) -> String {
    Instance::new(generated, own_path, active).unwrap().variant().to_debug_string()
}

#[test]
fn hand_written_one() {
    assert_eq!(One::VariantWithoutValue.variant().to_string(), "VariantWithoutValue");
    assert_eq!(One::VariantWithoutValue.variant().to_debug_string(), "One::VariantWithoutValue");
}

#[test]
fn hand_written_more() {
    let plain = More::VariantWithoutValue;
    let tuple = More::VariantWithValue("foo".into());
    let record = More::VariantWithStruct { field: "foo".into() };
    assert_eq!(plain.variant().to_string(), "VariantWithoutValue");
    assert_eq!(plain.variant().to_debug_string(), "More::VariantWithoutValue");
    assert_eq!(tuple.variant().to_string(), "VariantWithValue");
    assert_eq!(tuple.variant().to_debug_string(), "More::VariantWithValue");
    assert_eq!(record.variant().to_string(), "VariantWithStruct");
    assert_eq!(record.variant().to_debug_string(), "More::VariantWithStruct");
    if let More::VariantWithValue(value) = &tuple {
        assert_eq!(value, "foo");
    }
    if let More::VariantWithStruct { field } = &record {
        assert_eq!(field, "foo");
    }
}

#[test]
fn hand_written_with_another_name() {
    assert_eq!(Modded1::VariantWithoutValue.variant().to_string(), "VariantWithoutValue");
    assert_eq!(
        Modded1::VariantWithoutValue.variant().to_debug_string(),
        "Foo::VariantWithoutValue"
    );
}

#[test]
fn generated_one() {
    let one = generated("pub enum One { VariantWithoutValue }");
    assert_eq!(one.variant_names(), vec!["VariantWithoutValue".to_string()]);
    assert_eq!(display(&one, "derive::One", 0), "VariantWithoutValue");
    assert_eq!(debug(&one, "derive::One", 0), "One::VariantWithoutValue");
}

#[test]
fn generated_more() {
    let more = generated(
        "pub enum More { VariantWithoutValue, VariantWithValue(String), \
         VariantWithStruct { field: String } }",
    );
    assert_eq!(
        more.variant_names(),
        vec![
            "VariantWithoutValue".to_string(),
            "VariantWithValue".to_string(),
            "VariantWithStruct".to_string()
        ]
    );
    assert_eq!(display(&more, "derive::More", 0), "VariantWithoutValue");
    assert_eq!(debug(&more, "derive::More", 0), "More::VariantWithoutValue");
    assert_eq!(display(&more, "derive::More", 1), "VariantWithValue");
    assert_eq!(debug(&more, "derive::More", 1), "More::VariantWithValue");
    assert_eq!(display(&more, "derive::More", 2), "VariantWithStruct");
    assert_eq!(debug(&more, "derive::More", 2), "More::VariantWithStruct");
    assert!(Instance::new(&more, "derive::More", 3).is_none());
}

#[test]
fn generated_with_a_fixed_name() {
    let modded =
        generated("#[enum_debug(name = \"Foo\")] pub enum Modded1 { VariantWithoutValue }");
    assert_eq!(modded.type_name_at("derive::Modded1"), "Foo");
    assert_eq!(display(&modded, "derive::Modded1", 0), "VariantWithoutValue");
    assert_eq!(debug(&modded, "derive::Modded1", 0), "Foo::VariantWithoutValue");
}

#[test]
fn generated_with_its_own_path() {
    let modded = generated("#[enum_debug(path)] pub enum Modded2 { VariantWithoutValue }");
    assert_eq!(modded.type_name_at("derive::Modded2"), "derive::Modded2");
    assert_eq!(display(&modded, "derive::Modded2", 0), "VariantWithoutValue");
    assert_eq!(debug(&modded, "derive::Modded2", 0), "derive::Modded2::VariantWithoutValue");
    // The path follows the place where the type stands.
    assert_eq!(debug(&modded, "other::scope::Modded2", 0), "other::scope::Modded2::VariantWithoutValue");
}

#[test]
fn generated_for_an_enum_without_variants() {
    let empty = generated("pub enum Empty {}");
    assert_eq!(empty.variant_names(), Vec::<String>::new());
    assert_eq!(empty.type_name_at("derive::Empty"), "Empty");
    assert!(Instance::new(&empty, "derive::Empty", 0).is_none());
    let input: syn::DeriveInput = syn::parse_str("pub enum Empty {}").unwrap();
    let text = derive_enum_debug(&input).unwrap();
    assert!(text.contains("match self {\n            #[allow(dead_code)]\n            _ =>"));
}

#[test]
fn variant_list_has_every_variant_in_order() {
    let many = generated("enum Many { Z, A(u8), M { x: u8 }, B, Y(u8, u8) }");
    let names = many.variant_names();
    assert_eq!(names.len(), 5);
    assert_eq!(names, vec!["Z", "A", "M", "B", "Y"]);
    for (active, name) in names.iter().enumerate() {
        assert_eq!(&many.variant_name(active), name);
        assert_eq!(&display(&many, "Many", active), name);
        assert_eq!(debug(&many, "Many", active), format!("Many::{}", name));
    }
}
