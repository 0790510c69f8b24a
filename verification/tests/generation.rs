use builder::descriptor::FieldDescriptor;
use builder::descriptor::GenError;
use builder::descriptor::NamedField;
use builder::descriptor::TypeDescriptor;
use builder::descriptor::TypeShape;
use builder::descriptor::extract_fields;
use builder::emit::assembly_fragment;
use builder::emit::builder_ident;
use builder::emit::check_fragment;
use builder::emit::missing_field_message;
use builder::emit::setter_method;
use builder::emit::storage_slot;

fn named(name: &str, ty: &str) -> FieldDescriptor {
    FieldDescriptor { name: Some(String::from(name)), ty: String::from(ty) }
}

fn point_descriptor() -> TypeDescriptor {
    TypeDescriptor {
        name: String::from("Point"),
        shape: TypeShape::Record(vec![named("x", "Int"), named("y", "Int")]),
    }
}

#[test]
fn extraction_keeps_names_and_types_in_order() {
    let fields = extract_fields(&point_descriptor()).unwrap();
    assert_eq!(fields.len(), 2);
    assert_eq!(fields[0].name, "x");
    assert_eq!(fields[0].ty, "Int");
    assert_eq!(fields[1].name, "y");
    assert_eq!(fields[1].ty, "Int");
}

#[test]
fn unit_has_one_fragment_per_field_at_its_position() {
    let descriptor = TypeDescriptor {
        name: String::from("Config"),
        shape: TypeShape::Record(vec![
            named("host", "String"),
            named("port", "u16"),
            named("retries", "u8"),
        ]),
    };
    let unit = builder::unit::derive(&descriptor).unwrap();
    assert_eq!(unit.storage_slots.len(), 3);
    assert_eq!(unit.setters.len(), 3);
    assert_eq!(unit.checks.len(), 3);
    assert_eq!(unit.assemblies.len(), 3);
    assert!(unit.storage_slots[1].starts_with("port: "));
    assert!(unit.setters[1].starts_with("fn port("));
    assert!(unit.checks[1].starts_with("if self.port."));
    assert!(unit.assemblies[1].starts_with("port: "));
}

#[test]
fn enumeration_is_rejected_whole() {
    let descriptor = TypeDescriptor { name: String::from("Color"), shape: TypeShape::Enumeration };
    match builder::unit::derive(&descriptor) {
        Err(e) => assert_eq!(e, GenError::UnsupportedShape),
        Ok(_) => panic!("an enumeration must be rejected"),
    }
}

#[test]
fn union_is_rejected_whole() {
    let descriptor = TypeDescriptor { name: String::from("Raw"), shape: TypeShape::Union };
    match builder::unit::derive(&descriptor) {
        Err(e) => assert_eq!(e, GenError::UnsupportedShape),
        Ok(_) => panic!("a union must be rejected"),
    }
}

#[test]
fn nameless_member_is_rejected_whole() {
    let descriptor = TypeDescriptor {
        name: String::from("Pair"),
        shape: TypeShape::Record(vec![
            FieldDescriptor { name: None, ty: String::from("u32") },
            FieldDescriptor { name: None, ty: String::from("u32") },
        ]),
    };
    match builder::unit::derive(&descriptor) {
        Err(e) => assert_eq!(e, GenError::MissingFieldIdentifier),
        Ok(_) => panic!("a nameless member must be rejected"),
    }
}

#[test]
fn one_nameless_member_among_named_ones_still_rejects() {
    let descriptor = TypeDescriptor {
        name: String::from("Mixed"),
        shape: TypeShape::Record(vec![
            named("a", "u8"),
            FieldDescriptor { name: None, ty: String::from("u8") },
        ]),
    };
    match builder::unit::derive(&descriptor) {
        Err(e) => assert_eq!(e, GenError::MissingFieldIdentifier),
        Ok(_) => panic!("a nameless member must be rejected"),
    }
}

#[test]
fn builder_name_appends_builder() {
    assert_eq!(builder_ident("Point"), "PointBuilder");
}

#[test]
fn slot_wraps_type_in_option() {
    let field = NamedField { name: String::from("x"), ty: String::from("Int") };
    assert_eq!(storage_slot(&field), "x: Option<Int>,\n");
}

#[test]
fn slot_preserves_nesting_of_nullable_types() {
    let field = NamedField { name: String::from("label"), ty: String::from("Option<String>") };
    assert_eq!(storage_slot(&field), "label: Option<Option<String>>,\n");
}

#[test]
fn setter_stores_and_returns_the_builder() {
    let field = NamedField { name: String::from("x"), ty: String::from("Int") };
    assert_eq!(setter_method(&field), "fn x(&mut self, x: Int) -> &mut Self { self.x = Some(x); self }\n");
}

#[test]
fn check_fails_build_with_the_field_message() {
    let field = NamedField { name: String::from("x"), ty: String::from("Int") };
    assert_eq!(
        check_fragment(&field),
        "if self.x.is_none() { return Err(\"field `x` must be specified\".into()); }\n"
    );
}

#[test]
fn assembly_copies_the_slot_value() {
    let field = NamedField { name: String::from("x"), ty: String::from("Int") };
    assert_eq!(assembly_fragment(&field), "x: self.x.clone().unwrap(),\n");
}

#[test]
fn missing_message_names_the_field() {
    assert_eq!(missing_field_message("y"), "field `y` must be specified");
}

#[test]
fn point_unit_renders_exactly() {
    let unit = builder::unit::derive(&point_descriptor()).unwrap();
    assert_eq!(unit.record_name, "Point");
    assert_eq!(unit.builder_name, "PointBuilder");
    assert_eq!(unit.storage_slots[0], "x: Option<Int>,\n");
    assert_eq!(unit.storage_slots[1], "y: Option<Int>,\n");
    let factory = "impl Point {\nfn builder() -> PointBuilder {\nPointBuilder {\nx: None,\ny: None,\n}\n}\n}\n";
    assert_eq!(unit.factory, factory);
    let decl = "pub struct PointBuilder {\nx: Option<Int>,\ny: Option<Int>,\n}\n";
    assert_eq!(unit.builder_decl, decl);
    let build_method = "pub fn build(&mut self) -> Result<Point, Box<dyn std::error::Error>> {\n\
        if self.x.is_none() { return Err(\"field `x` must be specified\".into()); }\n\
        if self.y.is_none() { return Err(\"field `y` must be specified\".into()); }\n\
        Ok(Point {\nx: self.x.clone().unwrap(),\ny: self.y.clone().unwrap(),\n})\n}\n";
    assert_eq!(unit.build_method, build_method);
    let setters = "fn x(&mut self, x: Int) -> &mut Self { self.x = Some(x); self }\n\
        fn y(&mut self, y: Int) -> &mut Self { self.y = Some(y); self }\n";
    let expected = format!("{factory}{decl}impl PointBuilder {{\n{setters}{build_method}}}\n");
    assert_eq!(unit.render(), expected);
}

#[test]
fn empty_record_derives_an_empty_builder() {
    let descriptor = TypeDescriptor { name: String::from("Unit"), shape: TypeShape::Record(vec![]) };
    let unit = builder::unit::derive(&descriptor).unwrap();
    assert_eq!(unit.storage_slots.len(), 0);
    assert_eq!(unit.setters.len(), 0);
    assert_eq!(unit.checks.len(), 0);
    assert_eq!(unit.assemblies.len(), 0);
    assert_eq!(unit.factory, "impl Unit {\nfn builder() -> UnitBuilder {\nUnitBuilder {\n}\n}\n}\n");
    assert_eq!(unit.builder_decl, "pub struct UnitBuilder {\n}\n");
}

#[test]
fn generation_is_a_pure_function_of_the_descriptor() {
    let descriptor = point_descriptor();
    let first = builder::unit::derive(&descriptor).unwrap();
    let second = builder::unit::derive(&descriptor).unwrap();
    assert_eq!(first.render(), second.render());
}
