use compiler::rs::parse_structs;
use compiler::schema::{ApiSchema, Endpoint, HttpMethod, SchemaType};
use compiler::ts::codegen;
use compiler::Error;

#[test]
fn messages() {
    assert_eq!(
        Error::DuplicateKey("User".to_owned()).message(),
        "the name `User` is used twice"
    );
    assert_eq!(
        Error::UnresolvedReference("Ghost".to_owned()).message(),
        "the struct `Ghost` is not defined"
    );
    let schema = ApiSchema {
        structs: vec![("[".to_owned(), Vec::new())],
        ..ApiSchema::default()
    };
    let error = parse_structs(&schema).unwrap_err();
    assert_eq!(error.message(), "cannot parse string into token stream");
}

#[test]
fn each_error_has_an_input_that_gives_it() {
    let endpoint = |returns: &str| Endpoint {
        uri: "/".to_owned(),
        method: HttpMethod::Delete,
        input: SchemaType::Int,
        returns: SchemaType::Struct(returns.to_owned()),
    };
    let made = ApiSchema::new(
        String::new(),
        String::new(),
        Vec::new(),
        vec![("a".to_owned(), endpoint("A")), ("a".to_owned(), endpoint("A"))],
    );
    assert!(matches!(made, Err(Error::DuplicateKey(_))));

    let schema = ApiSchema::new(
        String::new(),
        String::new(),
        vec![("(".to_owned(), Vec::new())],
        vec![("a".to_owned(), endpoint("A"))],
    )
    .unwrap();
    assert!(matches!(codegen(&schema), Err(Error::UnresolvedReference(_))));

    let schema = ApiSchema::new(
        String::new(),
        String::new(),
        vec![("(".to_owned(), Vec::new())],
        vec![("a".to_owned(), endpoint("("))],
    )
    .unwrap();
    assert!(codegen(&schema).is_ok());
    assert!(matches!(parse_structs(&schema), Err(Error::Lex(_))));
}
