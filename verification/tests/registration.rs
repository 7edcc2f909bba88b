use booksapi::builder;
use booksapi::registry::{BuildError, Builder, Route};

#[test]
fn service_registers_the_book_listing() {
    let registered = builder();
    assert_eq!(
        registered.routes,
        vec![Route { name: "books.list".to_string(), description: "List all books".to_string() }]
    );
}

#[test]
fn service_builds_and_dispatches_by_name() {
    let router = builder().build().expect("one endpoint cannot share its name");
    assert_eq!(router.routes().len(), 1);
    assert_eq!(router.find("books.list"), Some(0));
    assert_eq!(router.find("books.create"), None);
    assert_eq!(router.find(""), None);
    assert_eq!(router.find("Books.List"), None);
}

#[test]
fn empty_builder_builds_an_empty_table() {
    let router = Builder::new().build().expect("nothing is registered twice");
    assert!(router.routes().is_empty());
    assert_eq!(router.find("books.list"), None);
}

#[test]
fn routes_keep_the_order_of_registration() {
    let router = Builder::new()
        .route("pets.list", "List all pets")
        .route("books.list", "List all books")
        .route("pets.create", "Add a pet")
        .build()
        .expect("the names differ");
    let names: Vec<&str> = router.routes().iter().map(|r| r.name.as_str()).collect();
    assert_eq!(names, vec!["pets.list", "books.list", "pets.create"]);
    assert_eq!(router.find("pets.list"), Some(0));
    assert_eq!(router.find("books.list"), Some(1));
    assert_eq!(router.find("pets.create"), Some(2));
    assert_eq!(router.routes()[2].description, "Add a pet");
}

#[test]
fn shared_name_fails_the_build() {
    let built = Builder::new()
        .route("books.list", "List all books")
        .route("books.list", "List the books once more")
        .build();
    assert_eq!(built.err(), Some(BuildError::DuplicateName { name: "books.list".to_string() }));
}

#[test]
fn shared_name_fails_wherever_it_stands() {
    let built = Builder::new()
        .route("a", "first")
        .route("b", "second")
        .route("c", "third")
        .route("a", "fourth")
        .build();
    assert_eq!(built.err(), Some(BuildError::DuplicateName { name: "a".to_string() }));
}

#[test]
fn first_name_registered_twice_is_reported() {
    let built = Builder::new()
        .route("a", "")
        .route("b", "")
        .route("b", "")
        .route("a", "")
        .build();
    assert_eq!(built.err(), Some(BuildError::DuplicateName { name: "b".to_string() }));
}

#[test]
fn same_description_under_two_names_is_no_clash() {
    let built = Builder::new().route("x", "same").route("y", "same").build();
    assert!(built.is_ok());
}

#[test]
fn building_twice_gives_the_same_table() {
    let first = builder().build().unwrap();
    let second = builder().build().unwrap();
    assert_eq!(first.routes(), second.routes());
}
