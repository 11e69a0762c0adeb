use poem_openapi::registry::{MetaSchema, MetaSecurityScheme, MetaTag, Registry};

#[test]
fn a_new_registry_is_empty() {
    let registry = Registry::new();
    assert_eq!(registry.len(), 0);
    assert!(!registry.contains("Pet"));
    assert!(!registry.is_pending("Pet"));
    assert_eq!(registry.security_scheme("basic"), None);
    assert_eq!(registry.tag("pets"), None);
}

#[test]
fn a_schema_is_registered_once() {
    let mut registry = Registry::new();
    registry.create_schema("Pet", MetaSchema::new("object"));
    assert!(registry.contains("Pet"));
    assert_eq!(registry.len(), 1);
    registry.create_schema("Pet", MetaSchema::new("object"));
    assert_eq!(registry.len(), 1);
    assert_eq!(registry.resolve("Pet"), &MetaSchema { ty: "object", format: None });
}

#[test]
fn the_first_schema_under_a_name_stays() {
    let mut registry = Registry::new();
    registry.create_schema("Id", MetaSchema::new_with_format("integer", "int64"));
    registry.create_schema("Id", MetaSchema::new("string"));
    assert_eq!(registry.resolve("Id"), &MetaSchema { ty: "integer", format: Some("int64") });
    registry.create_schema("Name", MetaSchema::new("string"));
    assert_eq!(registry.len(), 2);
    assert_eq!(registry.resolve("Name"), &MetaSchema::new("string"));
    assert_eq!(registry.resolve("Id"), &MetaSchema::new_with_format("integer", "int64"));
}

#[test]
fn a_type_that_meets_itself_stops() {
    let mut registry = Registry::new();
    assert!(registry.begin("Node"));
    assert!(registry.is_pending("Node"));
    assert!(registry.contains("Node"));
    assert_eq!(registry.resolve("Node"), &MetaSchema::placeholder());
    // the type registers its members, and finds itself among them
    assert!(!registry.begin("Node"));
    registry.create_schema("Node", MetaSchema::new("string"));
    assert!(registry.is_pending("Node"));
    registry.finish("Node", MetaSchema::new("object"));
    assert!(!registry.is_pending("Node"));
    assert_eq!(registry.resolve("Node"), &MetaSchema::new("object"));
    assert_eq!(registry.len(), 1);
    assert!(!registry.begin("Node"));
    assert_eq!(registry.resolve("Node"), &MetaSchema::new("object"));
}

#[test]
fn begin_leaves_a_registered_schema_alone() {
    let mut registry = Registry::new();
    registry.create_schema("Pet", MetaSchema::new("object"));
    assert!(!registry.begin("Pet"));
    assert!(!registry.is_pending("Pet"));
    assert_eq!(registry.resolve("Pet"), &MetaSchema::new("object"));
}

fn basic() -> MetaSecurityScheme {
    MetaSecurityScheme {
        ty: "http",
        description: Some("Basic authorization"),
        name: None,
        key_in: None,
        scheme: Some("basic"),
        bearer_format: None,
    }
}

#[test]
fn a_security_scheme_is_registered_once() {
    let mut registry = Registry::new();
    registry.create_security_scheme("MyBasic", basic());
    let mut other = basic();
    other.scheme = Some("bearer");
    registry.create_security_scheme("MyBasic", other);
    assert_eq!(registry.security_scheme("MyBasic"), Some(&basic()));
    assert_eq!(registry.security_scheme("Other"), None);
    assert_eq!(registry.len(), 0);
}

#[test]
fn a_tag_is_registered_once() {
    let mut registry = Registry::new();
    registry.create_tag(MetaTag { name: "pets", description: Some("about pets") });
    registry.create_tag(MetaTag { name: "pets", description: None });
    assert_eq!(registry.tag("pets"), Some(&MetaTag { name: "pets", description: Some("about pets") }));
    assert_eq!(registry.tag("users"), None);
}
