use poem_openapi::http::Route;
use poem_openapi::registry::{MetaApi, MetaOperation, MetaSchema, MetaTag, Registry};
use poem_openapi::{ApiResponse, OpenApi, PlainText};

fn operation(path: &'static str, method: &'static str) -> MetaOperation {
    MetaOperation {
        path,
        method,
        request: None,
        responses: <PlainText<String> as ApiResponse>::meta(),
        security: vec![],
    }
}

struct Pets;

impl OpenApi for Pets {
    fn meta() -> Vec<MetaApi> {
        vec![MetaApi { operations: vec![operation("/pets", "get"), operation("/pets", "post")] }]
    }

    fn register(registry: &mut Registry) {
        registry.create_schema("Pet", MetaSchema::new("object"));
        registry.create_schema("Id", MetaSchema::new_with_format("integer", "int64"));
        registry.create_tag(MetaTag { name: "pets", description: None });
    }

    fn add_routes(self, route: Route) -> Route {
        route.at("/pets", 1).at("/shared", 10)
    }
}

struct Users;

impl OpenApi for Users {
    fn meta() -> Vec<MetaApi> {
        vec![MetaApi { operations: vec![operation("/users", "get")] }]
    }

    fn register(registry: &mut Registry) {
        registry.create_schema("User", MetaSchema::new("object"));
        registry.create_schema("Id", MetaSchema::new("string"));
    }

    fn add_routes(self, route: Route) -> Route {
        route.at("/users", 2).at("/shared", 20)
    }
}

struct Health;

impl OpenApi for Health {
    fn meta() -> Vec<MetaApi> {
        vec![MetaApi { operations: vec![operation("/health", "get")] }]
    }

    fn register(_registry: &mut Registry) {}

    fn add_routes(self, route: Route) -> Route {
        route.at("/health", 3)
    }
}

struct Nothing;

impl OpenApi for Nothing {
    fn meta() -> Vec<MetaApi> {
        vec![]
    }

    fn register(_registry: &mut Registry) {}

    fn add_routes(self, route: Route) -> Route {
        route
    }
}

fn meta_of<T: OpenApi>(_api: &T) -> Vec<MetaApi> {
    T::meta()
}

fn register_of<T: OpenApi>(_api: &T, registry: &mut Registry) {
    T::register(registry)
}

fn paths(meta: &[MetaApi]) -> Vec<&'static str> {
    meta.iter().flat_map(|api| api.operations.iter().map(|operation| operation.path)).collect()
}

#[test]
fn combined_meta_is_the_first_then_the_second() {
    let combined = Pets.combine(Users);
    let mut expected = Pets::meta();
    expected.extend(Users::meta());
    assert_eq!(meta_of(&combined), expected);
    assert_eq!(paths(&meta_of(&combined)), vec!["/pets", "/pets", "/users"]);
    let reversed = Users.combine(Pets);
    assert_eq!(paths(&meta_of(&reversed)), vec!["/users", "/pets", "/pets"]);
}

#[test]
fn combined_meta_with_nothing() {
    assert_eq!(meta_of(&Nothing.combine(Pets)), Pets::meta());
    assert_eq!(meta_of(&Pets.combine(Nothing)), Pets::meta());
    assert_eq!(meta_of(&Nothing.combine(Nothing)), vec![]);
}

#[test]
fn every_grouping_keeps_the_order_of_declaration() {
    let expected = vec!["/pets", "/pets", "/users", "/health"];
    assert_eq!(paths(&meta_of(&Pets.combine(Users).combine(Health))), expected);
    assert_eq!(paths(&meta_of(&Pets.combine(Users.combine(Health)))), expected);
    let four = vec!["/pets", "/pets", "/users", "/health", "/users"];
    assert_eq!(paths(&meta_of(&Pets.combine(Users).combine(Health).combine(Users))), four);
    assert_eq!(paths(&meta_of(&Pets.combine(Users.combine(Health)).combine(Users))), four);
    assert_eq!(paths(&meta_of(&Pets.combine(Users).combine(Health.combine(Users)))), four);
    assert_eq!(paths(&meta_of(&Pets.combine(Users.combine(Health).combine(Users)))), four);
    assert_eq!(paths(&meta_of(&Pets.combine(Users.combine(Health.combine(Users))))), four);
}

#[test]
fn combined_register_shares_one_registry() {
    let mut registry = Registry::new();
    register_of(&Pets.combine(Users), &mut registry);
    assert_eq!(registry.len(), 3);
    assert_eq!(registry.resolve("Pet"), &MetaSchema::new("object"));
    assert_eq!(registry.resolve("User"), &MetaSchema::new("object"));
    // both declare `Id`: what the first registered stays
    assert_eq!(registry.resolve("Id"), &MetaSchema::new_with_format("integer", "int64"));
    assert!(registry.tag("pets").is_some());
    register_of(&Pets.combine(Users), &mut registry);
    assert_eq!(registry.len(), 3);
    assert_eq!(registry.resolve("Id"), &MetaSchema::new_with_format("integer", "int64"));
}

#[test]
fn combined_routes_let_the_second_have_the_say() {
    let route = Pets.combine(Users).add_routes(Route::new().at("/shared", 0).at("/base", 9));
    assert_eq!(route.find("/pets"), Some(1));
    assert_eq!(route.find("/users"), Some(2));
    assert_eq!(route.find("/shared"), Some(20));
    assert_eq!(route.find("/base"), Some(9));
    assert_eq!(route.len(), 6);
    let route = Users.combine(Pets).add_routes(Route::new());
    assert_eq!(route.find("/shared"), Some(10));
}

#[test]
fn combine_pairs_the_two() {
    let combined = Pets.combine(Users);
    let first: Pets = combined.0;
    let second: Users = combined.1;
    assert_eq!(first.add_routes(Route::new()).find("/shared"), Some(10));
    assert_eq!(second.add_routes(Route::new()).find("/shared"), Some(20));
}
