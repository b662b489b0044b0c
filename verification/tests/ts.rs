use compiler::schema::{Endpoint, HttpMethod, SchemaType};
use compiler::tokens::can_print;
use compiler::ts::endpoint::{fill_request, print_or_keep, FETCH_TEMPLATE, SEND_TEMPLATE};
use compiler::ts::{MethodBuilder, TsType};
use std::str::FromStr;

/// The text that the token printer gives for a piece of source.
fn printed(source: &str) -> String {
    proc_macro2::TokenStream::from_str(source).unwrap().to_string()
}

#[test]
fn get_method_code_gen() {
    let endpoint = Endpoint {
        uri: "https://youtube.com/user".to_owned(),
        method: HttpMethod::Get,
        input: SchemaType::Boolean,
        returns: SchemaType::String,
    };

    let method = MethodBuilder::from_endpoint("get_user", &endpoint);

    let body = printed(
        r#"
        try{
            const response = await fetch("https://youtube.com/user",{
                headers:{
                    "Api-Checksum": this.checksum
                }
            });
            if (response.ok){
                const body: string = await response.json();
                return body;
            }else{
                const error = await response.json();
                throw error;
            }
        } catch (err){
            throw err;
        }
        "#,
    );

    assert_eq!(method.body(), &body);
}

#[test]
fn post_method_code_gen() {
    let endpoint = Endpoint {
        uri: "https://example.com/user".to_owned(),
        method: HttpMethod::Post,
        input: SchemaType::Struct("UserPayload".to_string()),
        returns: SchemaType::Struct("User".to_string()),
    };

    let method = MethodBuilder::from_endpoint("get_user", &endpoint);

    let body = printed(
        r#"
        try{
            const response = await fetch("https://example.com/user",{
                headers:{
                    "Api-Checksum": this.checksum
                },
                method: "POST",
                body: JSON.stringify(payload)
            });
            if (response.ok){
                const body: User = await response.json();
                return body;
            }else{
                const error = await response.json();
                throw error;
            }
        } catch (err){
            throw err;
        }
        "#,
    );

    assert_eq!(method.body(), &body);
}

fn endpoint(method: HttpMethod, uri: &str, input: SchemaType, returns: SchemaType) -> Endpoint {
    Endpoint { uri: uri.to_owned(), method, input, returns }
}

#[test]
fn get_method_body_is_the_printed_token_text() {
    let method = MethodBuilder::from_endpoint(
        "get_user",
        &endpoint(
            HttpMethod::Get,
            "https://youtube.com/user",
            SchemaType::Boolean,
            SchemaType::String,
        ),
    );
    assert_eq!(
        method.body(),
        "try { const response = await fetch (\"https://youtube.com/user\" , { headers : { \"Api-Checksum\" : this . checksum } }) ; if (response . ok) { const body : string = await response . json () ; return body ; } else { const error = await response . json () ; throw error ; } } catch (err) { throw err ; }"
    );
}

#[test]
fn get_method_has_no_verb_and_no_payload() {
    let method = MethodBuilder::from_endpoint(
        "get_user",
        &endpoint(HttpMethod::Get, "https://youtube.com/user", SchemaType::Int, SchemaType::Int),
    );
    assert!(!method.body().contains("method"));
    assert!(!method.body().contains("JSON"));
    assert!(method.body().contains("\"Api-Checksum\" : this . checksum"));
}

#[test]
fn other_verbs_name_themselves_and_send_the_payload() {
    for (verb, token) in [
        (HttpMethod::Post, "\"POST\""),
        (HttpMethod::Patch, "\"PATCH\""),
        (HttpMethod::Delete, "\"DELETE\""),
    ] {
        let method = MethodBuilder::from_endpoint(
            "change",
            &endpoint(verb, "/things", SchemaType::Struct("Thing".to_owned()), SchemaType::Float),
        );
        assert!(method.body().contains(&format!(
            "}} , method : {} , body : JSON . stringify (payload) }})",
            token
        )));
        assert!(method.body().contains("const body : number = await"));
    }
}

#[test]
fn synthesized_method_is_async_with_one_payload_parameter() {
    let method = MethodBuilder::from_endpoint(
        "create_user",
        &endpoint(
            HttpMethod::Post,
            "https://example.com/user",
            SchemaType::Struct("UserPayload".to_owned()),
            SchemaType::Struct("User".to_owned()),
        ),
    );
    assert!(method.is_async());
    assert_eq!(method.identifier(), "create_user");
    assert_eq!(method.parameters().len(), 1);
    assert_eq!(method.parameters()[0].name(), "payload");
    assert_eq!(method.parameters()[0].ts_type(), &TsType::Custom("UserPayload".to_owned()));
    assert_eq!(method.return_type(), &Some(TsType::Custom("User".to_owned())));
    assert!(method.render().starts_with(
        "async create_user(payload: UserPayload,): Promise<User> {\n\t\ttry { const response"
    ));
    assert!(method.render().ends_with("catch (err) { throw err ; }\n}"));
}

#[test]
fn address_is_escaped_as_a_string_literal() {
    let method = MethodBuilder::from_endpoint(
        "odd",
        &endpoint(HttpMethod::Get, "a\"b\\c\n", SchemaType::Int, SchemaType::Int),
    );
    assert!(method.body().contains("fetch (\"a\\\"b\\\\c\\n\" , {"));
}

#[test]
fn same_endpoint_gives_the_same_method() {
    let endpoint =
        endpoint(HttpMethod::Patch, "/users", SchemaType::String, SchemaType::Boolean);
    let first = MethodBuilder::from_endpoint("rename", &endpoint);
    let second = MethodBuilder::from_endpoint("rename", &endpoint);
    assert_eq!(first, second);
    assert_eq!(first.render(), second.render());
}

#[test]
fn every_type_name_gives_a_method_and_stands_in_it_as_it_is() {
    for name in ["User)", "", "My Type", "a-b", "class", "Foo<Bar>", "\"", "{[(", "//", "__uri__"] {
        let method = MethodBuilder::from_endpoint(
            "odd",
            &endpoint(
                HttpMethod::Post,
                "/odd",
                SchemaType::Struct(name.to_owned()),
                SchemaType::Struct(name.to_owned()),
            ),
        );
        assert_eq!(method.return_type(), &Some(TsType::Custom(name.to_owned())));
        assert_eq!(method.parameters()[0].ts_type(), &TsType::Custom(name.to_owned()));
        assert_eq!(
            method.body(),
            format!(
                "try {{ const response = await fetch (\"/odd\" , {{ headers : {{ \"Api-Checksum\" : this . checksum }} , method : \"POST\" , body : JSON . stringify (payload) }}) ; if (response . ok) {{ const body : {} = await response . json () ; return body ; }} else {{ const error = await response . json () ; throw error ; }} }} catch (err) {{ throw err ; }}",
                name
            )
        );
        assert!(method
            .render()
            .starts_with(&format!("async odd(payload: {},): Promise<{}> {{\n", name, name)));
    }
}

#[test]
fn marks_in_what_an_endpoint_brings_are_left_alone() {
    let method = MethodBuilder::from_endpoint(
        "marks",
        &endpoint(
            HttpMethod::Patch,
            "__type__ __verb__ __uri__",
            SchemaType::Int,
            SchemaType::Struct("__uri__ __verb__".to_owned()),
        ),
    );
    assert!(method.body().starts_with(
        "try { const response = await fetch (\"__type__ __verb__ __uri__\" , { headers"
    ));
    assert!(method.body().contains(", method : \"PATCH\" , body"));
    assert!(method.body().contains("const body : __uri__ __verb__ = await"));
}

#[test]
fn templates_as_the_printer_writes_them() {
    assert_eq!(
        print_or_keep(FETCH_TEMPLATE),
        "try { const response = await fetch (__uri__ , { headers : { \"Api-Checksum\" : this . checksum } }) ; if (response . ok) { const body : __type__ = await response . json () ; return body ; } else { const error = await response . json () ; throw error ; } } catch (err) { throw err ; }"
    );
    assert_eq!(
        print_or_keep(SEND_TEMPLATE),
        printed(SEND_TEMPLATE)
    );
    assert!(print_or_keep(SEND_TEMPLATE).contains(", method : __verb__ , body : JSON . stringify (payload) })"));
    assert_eq!(HttpMethod::Get.template(), FETCH_TEMPLATE);
    for verb in [HttpMethod::Post, HttpMethod::Patch, HttpMethod::Delete] {
        assert_eq!(verb.template(), SEND_TEMPLATE);
    }
}

#[test]
fn source_that_the_lexer_refuses_stays_as_it_is() {
    assert_eq!(print_or_keep("a ) b"), "a ) b");
    assert_eq!(print_or_keep("\"open"), "\"open");
    assert_eq!(print_or_keep("a.b(c)"), "a . b (c)");
    assert_eq!(print_or_keep(""), "");
}

#[test]
fn verb_as_a_string_literal() {
    assert_eq!(HttpMethod::Get.literal(), "\"GET\"");
    assert_eq!(HttpMethod::Post.literal(), "\"POST\"");
    assert_eq!(HttpMethod::Patch.literal(), "\"PATCH\"");
    assert_eq!(HttpMethod::Delete.literal(), "\"DELETE\"");
}

#[test]
fn marks_of_a_printed_template_are_filled() {
    let printed = "fetch (__uri__ , { method : __verb__ }) ; const body : __type__ = x ;";
    assert_eq!(
        fill_request(printed, "\"/a\"", Some("\"POST\""), &TsType::Custom("User".to_owned())),
        "fetch (\"/a\" , { method : \"POST\" }) ; const body : User = x ;"
    );
    assert_eq!(
        fill_request(printed, "\"/a\"", None, &TsType::Boolean),
        "fetch (\"/a\" , { method : __verb__ }) ; const body : boolean = x ;"
    );
    assert_eq!(
        fill_request(
            printed,
            "\"__type__\"",
            Some("__uri__"),
            &TsType::Custom("__verb__ __uri__".to_owned())
        ),
        "fetch (\"__type__\" , { method : __uri__ }) ; const body : __verb__ __uri__ = x ;"
    );
    assert_eq!(fill_request("no marks", "a", Some("b"), &TsType::Number), "no marks");
    assert_eq!(
        fill_request("__type__ __type__", "a", None, &TsType::Number),
        "number __type__"
    );
}

#[test]
fn endpoint_method_takes_the_body_as_it_is() {
    let method = MethodBuilder::endpoint_method(
        "get_user",
        &endpoint(HttpMethod::Get, "/u", SchemaType::Boolean, SchemaType::String),
        "return 1;",
    );
    assert_eq!(method.render(), "async get_user(payload: boolean,): Promise<string> {\n\t\treturn 1;\n}");
}

#[test]
fn source_with_too_many_brackets_stays_as_it_is() {
    let fits = "[".repeat(128) + &"]".repeat(128) + "a.b";
    assert!(can_print(&fits));
    assert!(print_or_keep(&fits).ends_with("] a . b"));
    let deep = "[".repeat(129) + &"]".repeat(129) + "a.b";
    assert!(!can_print(&deep));
    assert_eq!(print_or_keep(&deep), deep);
    assert!(can_print(""));
    assert!(can_print(&"x]})".repeat(1000)));
    assert!(!can_print(&"{".repeat(129)));
    assert!(can_print(&"({[".repeat(42)));
    assert!(!can_print(&"({[".repeat(43)));
    assert!(can_print(FETCH_TEMPLATE));
    assert!(can_print(SEND_TEMPLATE));
}

#[test]
fn deep_type_name_still_has_its_method() {
    let deep = "(".repeat(5000);
    let method = MethodBuilder::from_endpoint(
        "deep",
        &endpoint(HttpMethod::Get, "/", SchemaType::Int, SchemaType::Struct(deep.clone())),
    );
    assert_eq!(method.return_type(), &Some(TsType::Custom(deep.clone())));
    assert!(method.body().contains(&format!("const body : {} = await", deep)));
}
