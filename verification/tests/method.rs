use compiler::ts::{MethodBuilder, TsType};

#[test]
fn async_method() {
    let method = MethodBuilder::new("get_user")
        .is_async()
        .add_param("uid", TsType::Number)
        .return_type(TsType::Custom("User".to_string()))
        .body("")
        .build();

    let body = format!("{}{}{}", "async get_user(uid: number,): Promise<User> {", "\n", "\n}");

    assert_eq!(method.render(), body);
}

#[test]
fn sync_method() {
    let method = MethodBuilder::new("init").body("").build();

    let body = format!("{}{}", "init() {", "\n}");

    assert_eq!(method.render(), body);
}

#[test]
fn sync_method_with_return_type() {
    let method = MethodBuilder::new("id").return_type(TsType::Number).build();
    assert_eq!(method.render(), "id(): number {\n\n}");
}

#[test]
fn body_stands_behind_two_tabs() {
    let method = MethodBuilder::new("greet").body("return 1;").build();
    assert_eq!(method.render(), "greet() {\t\treturn 1;\n}");
    let method = MethodBuilder::new("greet")
        .return_type(TsType::String)
        .is_async()
        .body("return 'x';")
        .build();
    assert_eq!(method.render(), "async greet(): Promise<string> {\n\t\treturn 'x';\n}");
}

#[test]
fn parameters_keep_their_order_and_each_has_a_comma() {
    let method = MethodBuilder::new("f")
        .add_param("b", TsType::Boolean)
        .add_param("a", TsType::Array(Box::new(TsType::String)))
        .add_param("b", TsType::Number)
        .build();
    assert_eq!(method.render(), "f(b: boolean,a: string[],b: number,) {\n}");
    let names: Vec<&str> = method.parameters().iter().map(|p| p.name()).collect();
    assert_eq!(names, vec!["b", "a", "b"]);
}

#[test]
fn builder_starts_empty_and_getters_give_what_was_set() {
    let method = MethodBuilder::new("").build();
    assert!(!method.is_async());
    assert_eq!(method.identifier(), "");
    assert_eq!(method.body(), "");
    assert_eq!(method.return_type(), &None);
    assert!(method.parameters().is_empty());
    assert_eq!(method.render(), "() {\n}");

    let method = MethodBuilder::new("class")
        .is_async()
        .body("first")
        .body("second")
        .return_type(TsType::Number)
        .return_type(TsType::Boolean)
        .build();
    assert!(method.is_async());
    assert_eq!(method.identifier(), "class");
    assert_eq!(method.body(), "second");
    assert_eq!(method.return_type(), &Some(TsType::Boolean));
}

#[test]
fn rendering_twice_gives_the_same_text() {
    let method = MethodBuilder::new("get_user")
        .is_async()
        .add_param("uid", TsType::Number)
        .return_type(TsType::Custom("User".to_string()))
        .body("return uid;")
        .build();
    assert_eq!(method.render(), method.render());
    assert_eq!(method.clone().render(), method.render());
}
