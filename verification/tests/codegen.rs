use compiler::schema::{ApiSchema, Endpoint, HttpMethod, SchemaType};
use compiler::ts::codegen::{client_class, emit, render_interfaces, synthesize_methods};
use compiler::ts::{codegen, MethodBuilder};
use compiler::Error;

fn user_schema() -> ApiSchema {
    ApiSchema {
        version: "0.1.0".to_owned(),
        schema_diff: "none".to_owned(),
        structs: vec![
            (
                "User".to_owned(),
                vec![
                    ("id".to_owned(), SchemaType::Int),
                    ("name".to_owned(), SchemaType::String),
                ],
            ),
            (
                "Order".to_owned(),
                vec![
                    ("total".to_owned(), SchemaType::Float),
                    ("paid".to_owned(), SchemaType::Boolean),
                    ("owner".to_owned(), SchemaType::Struct("User".to_owned())),
                ],
            ),
        ],
        endpoints: vec![
            (
                "get_user".to_owned(),
                Endpoint {
                    uri: "https://example.com/user".to_owned(),
                    method: HttpMethod::Get,
                    input: SchemaType::Int,
                    returns: SchemaType::Struct("User".to_owned()),
                },
            ),
            (
                "add_order".to_owned(),
                Endpoint {
                    uri: "https://example.com/order".to_owned(),
                    method: HttpMethod::Post,
                    input: SchemaType::Struct("Order".to_owned()),
                    returns: SchemaType::Boolean,
                },
            ),
        ],
    }
}

const INTERFACES: &str = "export interface User{\n\tid: number,\n\tname: string,\n}\n\nexport interface Order{\n\ttotal: number,\n\tpaid: boolean,\n\towner: User,\n}\n\n";

#[test]
fn generated_client() {
    let text = codegen(&user_schema()).unwrap();
    let expected = format!(
        "{}{}{}{}{}{}{}",
        INTERFACES,
        "export class Client {\n",
        "\tchecksum: string\n",
        "\tconstructor(checksum: string,) {\t\tthis . checksum = checksum ;\n}\n",
        "\tasync get_user(payload: number,): Promise<User> {\n\t\ttry { const response = await fetch (\"https://example.com/user\" , { headers : { \"Api-Checksum\" : this . checksum } }) ; if (response . ok) { const body : User = await response . json () ; return body ; } else { const error = await response . json () ; throw error ; } } catch (err) { throw err ; }\n}\n",
        "\tasync add_order(payload: Order,): Promise<boolean> {\n\t\ttry { const response = await fetch (\"https://example.com/order\" , { headers : { \"Api-Checksum\" : this . checksum } , method : \"POST\" , body : JSON . stringify (payload) }) ; if (response . ok) { const body : boolean = await response . json () ; return body ; } else { const error = await response . json () ; throw error ; } } catch (err) { throw err ; }\n}\n",
        "}",
    );
    assert_eq!(text, expected);
}

#[test]
fn generating_twice_gives_the_same_text() {
    let schema = user_schema();
    assert_eq!(codegen(&schema).unwrap(), codegen(&schema).unwrap());
    assert_eq!(codegen(&schema.clone()).unwrap(), codegen(&schema).unwrap());
}

#[test]
fn empty_schema_gives_the_bare_client() {
    let schema = ApiSchema {
        version: String::new(),
        schema_diff: String::new(),
        structs: Vec::new(),
        endpoints: Vec::new(),
    };
    assert_eq!(
        codegen(&schema).unwrap(),
        "export class Client {\n\tchecksum: string\n\tconstructor(checksum: string,) {\t\tthis . checksum = checksum ;\n}\n}"
    );
}

#[test]
fn interfaces_follow_the_order_of_the_structs() {
    let schema = user_schema();
    assert_eq!(render_interfaces(&schema.structs), INTERFACES);
    let mut swapped = schema.structs.clone();
    swapped.swap(0, 1);
    assert_eq!(
        render_interfaces(&swapped),
        "export interface Order{\n\ttotal: number,\n\tpaid: boolean,\n\towner: User,\n}\n\nexport interface User{\n\tid: number,\n\tname: string,\n}\n\n"
    );
    assert_eq!(render_interfaces(&Vec::new()), "");
}

#[test]
fn client_class_of_given_bodies() {
    let schema = user_schema();
    let methods = vec![
        MethodBuilder::endpoint_method("get_user", &schema.endpoints[0].1, "a"),
        MethodBuilder::endpoint_method("add_order", &schema.endpoints[1].1, ""),
    ];
    let class = client_class("b", methods);
    assert_eq!(
        class.render(),
        "export class Client {\n\tchecksum: string\n\tconstructor(checksum: string,) {\t\tb\n}\n\tasync get_user(payload: number,): Promise<User> {\n\t\ta\n}\n\tasync add_order(payload: Order,): Promise<boolean> {\n\n}\n}"
    );
    assert_eq!(emit(&schema, &class), format!("{}{}", INTERFACES, class.render()));
}

#[test]
fn methods_follow_the_order_of_the_endpoints() {
    let schema = user_schema();
    let methods = synthesize_methods(&schema.endpoints);
    let names: Vec<&str> = methods.iter().map(|m| m.identifier()).collect();
    assert_eq!(names, vec!["get_user", "add_order"]);
    assert!(synthesize_methods(&Vec::new()).is_empty());
}

#[test]
fn unresolved_reference_is_reported_and_nothing_is_generated() {
    let mut schema = user_schema();
    schema.structs.remove(0);
    assert!(matches!(
        codegen(&schema),
        Err(Error::UnresolvedReference(name)) if name == "User"
    ));

    let mut schema = user_schema();
    schema.endpoints[1].1.returns = SchemaType::Struct("Receipt".to_owned());
    assert!(matches!(
        codegen(&schema),
        Err(Error::UnresolvedReference(name)) if name == "Receipt"
    ));
}

#[test]
fn repeated_name_is_reported_first_and_nothing_is_generated() {
    let mut schema = user_schema();
    schema.structs.push(("User".to_owned(), Vec::new()));
    assert!(matches!(codegen(&schema), Err(Error::DuplicateKey(name)) if name == "User"));

    let mut schema = user_schema();
    schema.structs[1].1.push(("paid".to_owned(), SchemaType::Int));
    assert!(matches!(codegen(&schema), Err(Error::DuplicateKey(name)) if name == "paid"));

    let mut schema = user_schema();
    let again = schema.endpoints[0].clone();
    schema.endpoints.push(again);
    assert!(matches!(codegen(&schema), Err(Error::DuplicateKey(name)) if name == "get_user"));

    let mut schema = user_schema();
    schema.structs.remove(0);
    let again = schema.endpoints[0].clone();
    schema.endpoints.push(again);
    assert!(matches!(codegen(&schema), Err(Error::DuplicateKey(name)) if name == "get_user"));
}

#[test]
fn every_struct_name_has_its_interface_and_its_methods() {
    let mut schema = user_schema();
    schema.structs.push(("User)".to_owned(), Vec::new()));
    schema.endpoints[1].1.returns = SchemaType::Struct("User)".to_owned());
    let text = codegen(&schema).unwrap();
    assert!(text.contains("export interface User){\n}\n\n"));
    assert!(text.contains("\tasync add_order(payload: Order,): Promise<User)> {\n"));
    assert!(text.contains("const body : User) = await response . json () ;"));
    assert_eq!(synthesize_methods(&schema.endpoints).len(), 2);
}
