use builder::ast::{DataShape, FieldDecl, FieldLayout, ShapeError, SourceDecl, TypeRef};
use builder::classify::try_get_option_generics;
use builder::emit::extract_named_fields;

fn applied(name: &str, args: &[&str]) -> TypeRef {
    TypeRef::Applied {
        name: name.to_string(),
        args: args.iter().map(|a| a.to_string()).collect(),
    }
}

fn other(text: &str) -> TypeRef {
    TypeRef::Other { text: text.to_string() }
}

fn field(name: &str, ty: TypeRef) -> FieldDecl {
    FieldDecl { name: name.to_string(), ty }
}

fn record(vis: &str, name: &str, fields: Vec<FieldDecl>) -> SourceDecl {
    SourceDecl {
        vis: vis.to_string(),
        name: name.to_string(),
        data: DataShape::Record(FieldLayout::Named(fields)),
    }
}

#[test]
fn classify_option_of_string() {
    assert_eq!(
        try_get_option_generics(&applied("Option", &["String"])),
        Ok("String".to_string())
    );
}

#[test]
fn classify_plain_named_type() {
    assert_eq!(try_get_option_generics(&other("u64")), Err("u64".to_string()));
}

#[test]
fn classify_other_generic_type() {
    assert_eq!(
        try_get_option_generics(&applied("Vec", &["String"])),
        Err("Vec<String>".to_string())
    );
}

#[test]
fn classify_option_with_two_arguments() {
    assert_eq!(
        try_get_option_generics(&applied("Option", &["A", "B"])),
        Err("Option<A, B>".to_string())
    );
}

#[test]
fn classify_option_with_no_arguments() {
    assert_eq!(
        try_get_option_generics(&applied("Option", &[])),
        Err("Option<>".to_string())
    );
}

#[test]
fn classify_qualified_path_defeats_detection() {
    // The check is literal and syntactic: a multi-segment path to the very
    // same wrapper still classifies as required.
    assert_eq!(
        try_get_option_generics(&other("std::option::Option<i32>")),
        Err("std::option::Option<i32>".to_string())
    );
}

#[test]
fn shape_error_messages() {
    assert_eq!(
        ShapeError::NotRecord.message(),
        "Builder derive only supports struct"
    );
    assert_eq!(
        ShapeError::NotNamedFields.message(),
        "Builder derive only supports named fields"
    );
}

#[test]
fn rejects_tagged_union() {
    let decl = SourceDecl {
        vis: String::new(),
        name: "Either".to_string(),
        data: DataShape::TaggedUnion,
    };
    assert_eq!(builder::emit::derive(&decl), Err(ShapeError::NotRecord));
}

#[test]
fn rejects_untagged_union() {
    let decl = SourceDecl {
        vis: String::new(),
        name: "Raw".to_string(),
        data: DataShape::UntaggedUnion,
    };
    assert_eq!(builder::emit::derive(&decl), Err(ShapeError::NotRecord));
}

#[test]
fn rejects_positional_fields() {
    let decl = SourceDecl {
        vis: String::new(),
        name: "Pair".to_string(),
        data: DataShape::Record(FieldLayout::Positional),
    };
    assert_eq!(builder::emit::derive(&decl), Err(ShapeError::NotNamedFields));
}

#[test]
fn rejects_unit_record() {
    let decl = SourceDecl {
        vis: String::new(),
        name: "Marker".to_string(),
        data: DataShape::Record(FieldLayout::Unit),
    };
    assert_eq!(builder::emit::derive(&decl), Err(ShapeError::NotNamedFields));
}

#[test]
fn extractor_accepts_named_record() {
    let decl = record("pub", "User", vec![field("id", other("u64"))]);
    let fields = extract_named_fields(&decl).expect("named record");
    assert_eq!(fields.len(), 1);
    assert_eq!(fields[0].name, "id");
}

#[test]
fn generates_full_unit() {
    let decl = record(
        "pub",
        "User",
        vec![
            field("id", other("u64")),
            field("name", other("String")),
            field("nickname", applied("Option", &["String"])),
        ],
    );
    let code = builder::emit::derive(&decl).expect("record with named fields");
    let expected = "impl User {\n\
                    \x20   pub fn builder() -> UserBuilder {\n\
                    \x20       UserBuilder {\n\
                    \x20           id: None,\n\
                    \x20           name: None,\n\
                    \x20           nickname: None,\n\
                    \x20       }\n\
                    \x20   }\n\
                    }\n\
                    \n\
                    pub struct UserBuilder {\n\
                    \x20   id: Option<u64>,\n\
                    \x20   name: Option<String>,\n\
                    \x20   nickname: Option<String>,\n\
                    }\n\
                    \n\
                    impl UserBuilder {\n\
                    \x20   pub fn id(&mut self, id: u64) -> &mut Self {\n\
                    \x20       self.id = Some(id);\n\
                    \x20       self\n\
                    \x20   }\n\
                    \x20   pub fn name(&mut self, name: String) -> &mut Self {\n\
                    \x20       self.name = Some(name);\n\
                    \x20       self\n\
                    \x20   }\n\
                    \x20   pub fn nickname(&mut self, nickname: String) -> &mut Self {\n\
                    \x20       self.nickname = Some(nickname);\n\
                    \x20       self\n\
                    \x20   }\n\
                    \x20   pub fn build(&mut self) -> Result<User, Box<dyn std::error::Error>> {\n\
                    \x20       Ok(User {\n\
                    \x20           id: self.id.clone().ok_or(Box::<dyn std::error::Error>::from(\"field id is not set\".to_string()))?,\n\
                    \x20           name: self.name.clone().ok_or(Box::<dyn std::error::Error>::from(\"field name is not set\".to_string()))?,\n\
                    \x20           nickname: self.nickname.clone(),\n\
                    \x20       })\n\
                    \x20   }\n\
                    }\n";
    assert_eq!(code, expected);
}

#[test]
fn private_record_gets_no_visibility_prefix() {
    let decl = record("", "Point", vec![field("x", other("i32"))]);
    let code = builder::emit::derive(&decl).expect("record with named fields");
    assert!(code.contains("\nstruct PointBuilder {\n"));
    assert!(!code.contains("pub struct PointBuilder"));
}

#[test]
fn optional_field_setter_takes_inner_type() {
    let decl = record(
        "pub",
        "Job",
        vec![field("timeout", applied("Option", &["Duration"]))],
    );
    let code = builder::emit::derive(&decl).expect("record with named fields");
    assert!(code.contains("pub fn timeout(&mut self, timeout: Duration) -> &mut Self"));
    assert!(code.contains("timeout: Option<Duration>,"));
    assert!(code.contains("timeout: self.timeout.clone(),"));
    assert!(!code.contains("timeout is not set"));
}
