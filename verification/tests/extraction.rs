use openapi_requests::document::{
    MediaType, OpenAPI, Operation, Parameter, ParameterData, PathItem, ReferenceOr, Response,
    Responses, Schema, StatusCode,
};
use openapi_requests::extractor::requests::{
    extract_params_from_openapi, extract_request_from_openapi, extract_requests_from_openapi,
    extract_response_type_from_openapi, openapi_operation_to_request, variable_type_from_string,
};
use openapi_requests::request::{Method, Request, Variable, VariableType};

fn data(name: &str, required: bool) -> ParameterData {
    ParameterData { name: name.to_string(), required, schema: None }
}

fn query(name: &str, required: bool) -> ReferenceOr<Parameter> {
    ReferenceOr::Item(Parameter::Query { parameter_data: data(name, required) })
}

fn path_parameter(name: &str, required: bool) -> ReferenceOr<Parameter> {
    ReferenceOr::Item(Parameter::Path { parameter_data: data(name, required) })
}

fn header(name: &str, required: bool) -> ReferenceOr<Parameter> {
    ReferenceOr::Item(Parameter::Header { parameter_data: data(name, required) })
}

fn cookie(name: &str, required: bool) -> ReferenceOr<Parameter> {
    ReferenceOr::Item(Parameter::Cookie { parameter_data: data(name, required) })
}

fn pointer<T>(reference: &str) -> ReferenceOr<T> {
    ReferenceOr::Reference { reference: reference.to_string() }
}

fn string_variable(name: &str, optional: bool) -> Variable {
    Variable {
        name: name.to_string(),
        optional,
        value: None,
        variable_type: VariableType::StringType,
    }
}

fn referenced(media_type: &str, reference: &str) -> (String, MediaType) {
    (media_type.to_string(), MediaType { schema: Some(pointer(reference)) })
}

fn inline(media_type: &str, schema: Schema) -> (String, MediaType) {
    (media_type.to_string(), MediaType { schema: Some(ReferenceOr::Item(schema)) })
}

fn bare(media_type: &str) -> (String, MediaType) {
    (media_type.to_string(), MediaType { schema: None })
}

fn response(content: Vec<(String, MediaType)>) -> ReferenceOr<Response> {
    ReferenceOr::Item(Response { content })
}

fn only_default(content: Vec<(String, MediaType)>) -> Responses {
    Responses { default: Some(response(content)), responses: vec![] }
}

fn no_responses() -> Responses {
    Responses { default: None, responses: vec![] }
}

fn operation(id: Option<&str>) -> Operation {
    Operation {
        operation_id: id.map(|id| id.to_string()),
        parameters: vec![],
        responses: no_responses(),
    }
}

fn empty_item() -> PathItem {
    PathItem {
        get: None,
        put: None,
        post: None,
        delete: None,
        options: None,
        head: None,
        patch: None,
        trace: None,
    }
}

fn complex(name: &str) -> Option<Box<VariableType>> {
    Some(Box::new(VariableType::ComplexType(name.to_string())))
}

fn plain_request(name: &str, path: &str, method: Method) -> Request {
    Request {
        name: name.to_string(),
        path: path.to_string(),
        method,
        params: vec![],
        response_type: None,
        error_type: None,
    }
}

#[test]
fn document_without_paths_yields_nothing() {
    let document = OpenAPI { paths: vec![] };
    assert_eq!(extract_requests_from_openapi(&document), vec![]);
}

#[test]
fn document_of_references_yields_nothing() {
    let document = OpenAPI {
        paths: vec![
            ("/a".to_string(), pointer("#/components/pathItems/A")),
            ("/b".to_string(), pointer("#/components/pathItems/B")),
            ("/c".to_string(), pointer("elsewhere")),
        ],
    };
    assert_eq!(extract_requests_from_openapi(&document), vec![]);
}

#[test]
fn referenced_path_entry_yields_nothing() {
    let requests =
        extract_request_from_openapi("/a".to_string(), pointer("#/components/pathItems/A"));
    assert_eq!(requests, vec![]);
}

#[test]
fn empty_path_item_yields_nothing() {
    let requests = extract_request_from_openapi("/a".to_string(), ReferenceOr::Item(empty_item()));
    assert_eq!(requests, vec![]);
}

#[test]
fn get_put_post_yield_three_requests_in_order() {
    let item = PathItem {
        post: Some(operation(Some("create"))),
        get: Some(operation(Some("list"))),
        put: Some(operation(Some("replace"))),
        ..empty_item()
    };
    let requests = extract_request_from_openapi("/things".to_string(), ReferenceOr::Item(item));
    assert_eq!(
        requests,
        vec![
            plain_request("list", "/things", Method::Get),
            plain_request("replace", "/things", Method::Put),
            plain_request("create", "/things", Method::Post),
        ]
    );
}

#[test]
fn absent_slots_are_skipped() {
    let item = PathItem {
        get: Some(operation(Some("list"))),
        post: Some(operation(Some("create"))),
        ..empty_item()
    };
    let requests = extract_request_from_openapi("/things".to_string(), ReferenceOr::Item(item));
    assert_eq!(
        requests,
        vec![
            plain_request("list", "/things", Method::Get),
            plain_request("create", "/things", Method::Post),
        ]
    );
}

#[test]
fn other_methods_are_invisible() {
    let item = PathItem {
        delete: Some(operation(Some("remove"))),
        options: Some(operation(Some("options"))),
        head: Some(operation(Some("head"))),
        patch: Some(operation(Some("patch"))),
        trace: Some(operation(Some("trace"))),
        ..empty_item()
    };
    let requests = extract_request_from_openapi("/things".to_string(), ReferenceOr::Item(item));
    assert_eq!(requests, vec![]);

    let item = PathItem {
        put: Some(operation(Some("replace"))),
        delete: Some(operation(Some("remove"))),
        ..empty_item()
    };
    let requests = extract_request_from_openapi("/things".to_string(), ReferenceOr::Item(item));
    assert_eq!(requests, vec![plain_request("replace", "/things", Method::Put)]);
}

#[test]
fn requests_follow_document_order() {
    let first = PathItem {
        get: Some(operation(Some("a_get"))),
        post: Some(operation(Some("a_post"))),
        ..empty_item()
    };
    let second = PathItem { put: Some(operation(Some("b_put"))), ..empty_item() };
    let third = PathItem {
        get: Some(operation(None)),
        put: Some(operation(Some("c_put"))),
        post: Some(operation(Some("c_post"))),
        ..empty_item()
    };
    let document = OpenAPI {
        paths: vec![
            ("/z".to_string(), ReferenceOr::Item(first)),
            ("/skipped".to_string(), pointer("#/components/pathItems/S")),
            ("/a".to_string(), ReferenceOr::Item(second)),
            ("/empty".to_string(), ReferenceOr::Item(empty_item())),
            ("/m".to_string(), ReferenceOr::Item(third)),
        ],
    };
    assert_eq!(
        extract_requests_from_openapi(&document),
        vec![
            plain_request("a_get", "/z", Method::Get),
            plain_request("a_post", "/z", Method::Post),
            plain_request("b_put", "/a", Method::Put),
            plain_request("", "/m", Method::Get),
            plain_request("c_put", "/m", Method::Put),
            plain_request("c_post", "/m", Method::Post),
        ]
    );
}

#[test]
fn extraction_leaves_the_document_as_it_was() {
    let item = PathItem { get: Some(operation(Some("list"))), ..empty_item() };
    let document = OpenAPI { paths: vec![("/things".to_string(), ReferenceOr::Item(item))] };
    let before = document.clone();
    let first = extract_requests_from_openapi(&document);
    let second = extract_requests_from_openapi(&document);
    assert_eq!(document, before);
    assert_eq!(first, second);
    assert_eq!(first, vec![plain_request("list", "/things", Method::Get)]);
}

#[test]
fn header_and_cookie_parameters_are_dropped() {
    let parameters = vec![
        header("X-Trace", true),
        query("limit", false),
        cookie("session", true),
        path_parameter("id", true),
        header("Accept", false),
        query("offset", true),
    ];
    assert_eq!(
        extract_params_from_openapi(parameters),
        vec![
            string_variable("limit", false),
            string_variable("id", true),
            string_variable("offset", true),
        ]
    );
}

#[test]
fn only_header_and_cookie_parameters_yield_nothing() {
    let parameters = vec![header("X-Trace", true), cookie("session", false)];
    assert_eq!(extract_params_from_openapi(parameters), vec![]);
}

#[test]
fn no_parameters_yield_no_variables() {
    assert_eq!(extract_params_from_openapi(vec![]), vec![]);
}

#[test]
fn referenced_parameters_are_dropped() {
    let parameters = vec![
        pointer("#/components/parameters/Page"),
        query("limit", true),
        pointer("#/components/parameters/Sort"),
    ];
    assert_eq!(extract_params_from_openapi(parameters), vec![string_variable("limit", true)]);
}

#[test]
fn optional_copies_the_required_flag() {
    let parameters = vec![query("needed", true), query("extra", false)];
    let variables = extract_params_from_openapi(parameters);
    assert_eq!(variables.len(), 2);
    assert!(variables[0].optional);
    assert!(!variables[1].optional);
}

#[test]
fn declared_parameter_schemas_are_not_inspected() {
    let parameters = vec![
        ReferenceOr::Item(Parameter::Query {
            parameter_data: ParameterData {
                name: "count".to_string(),
                required: false,
                schema: Some(ReferenceOr::Item(Schema::Integer)),
            },
        }),
        ReferenceOr::Item(Parameter::Path {
            parameter_data: ParameterData {
                name: "shape".to_string(),
                required: true,
                schema: Some(pointer("#/components/schemas/Shape")),
            },
        }),
    ];
    assert_eq!(
        extract_params_from_openapi(parameters),
        vec![string_variable("count", false), string_variable("shape", true)]
    );
}

#[test]
fn repeated_parameter_names_are_all_kept() {
    let parameters = vec![query("tag", false), path_parameter("tag", true), query("tag", false)];
    assert_eq!(
        extract_params_from_openapi(parameters),
        vec![
            string_variable("tag", false),
            string_variable("tag", true),
            string_variable("tag", false),
        ]
    );
}

#[test]
fn default_schema_reference_names_the_response_type() {
    let responses =
        only_default(vec![referenced("application/json", "#/components/schemas/Widget")]);
    assert_eq!(extract_response_type_from_openapi(responses), complex("Widget"));
}

#[test]
fn missing_default_means_no_response_type() {
    let responses = Responses {
        default: None,
        responses: vec![
            (
                StatusCode::Code(200),
                response(vec![referenced("application/json", "#/components/schemas/Widget")]),
            ),
            (
                StatusCode::Code(404),
                response(vec![referenced("application/json", "#/components/schemas/Problem")]),
            ),
            (StatusCode::Range(5), pointer("#/components/responses/Failure")),
        ],
    };
    assert_eq!(extract_response_type_from_openapi(responses), None);
    assert_eq!(extract_response_type_from_openapi(no_responses()), None);
}

#[test]
fn status_responses_do_not_change_the_response_type() {
    let responses = Responses {
        default: Some(response(vec![referenced(
            "application/json",
            "#/components/schemas/Widget",
        )])),
        responses: vec![(
            StatusCode::Code(200),
            response(vec![referenced("application/json", "#/components/schemas/Other")]),
        )],
    };
    assert_eq!(extract_response_type_from_openapi(responses), complex("Widget"));
}

#[test]
fn referenced_default_means_no_response_type() {
    let responses = Responses {
        default: Some(pointer("#/components/responses/Standard")),
        responses: vec![],
    };
    assert_eq!(extract_response_type_from_openapi(responses), None);
}

#[test]
fn default_without_content_means_no_response_type() {
    assert_eq!(extract_response_type_from_openapi(only_default(vec![])), None);
}

#[test]
fn content_without_schema_means_no_response_type() {
    let responses = only_default(vec![bare("application/json"), bare("text/plain")]);
    assert_eq!(extract_response_type_from_openapi(responses), None);
}

#[test]
fn inline_schemas_name_no_response_type() {
    let responses = only_default(vec![
        inline("application/json", Schema::Object),
        inline("text/plain", Schema::String),
    ]);
    assert_eq!(extract_response_type_from_openapi(responses), None);
}

#[test]
fn first_schema_reference_wins() {
    let responses = only_default(vec![
        bare("text/plain"),
        inline("text/csv", Schema::Array),
        referenced("application/json", "#/components/schemas/First"),
        referenced("application/xml", "#/components/schemas/Second"),
    ]);
    assert_eq!(extract_response_type_from_openapi(responses), complex("First"));
}

#[test]
fn reference_without_separator_is_the_name() {
    let responses = only_default(vec![referenced("application/json", "Widget")]);
    assert_eq!(extract_response_type_from_openapi(responses), complex("Widget"));
}

#[test]
fn reference_edge_cases() {
    let responses = only_default(vec![referenced("application/json", "")]);
    assert_eq!(extract_response_type_from_openapi(responses), complex(""));

    let responses = only_default(vec![referenced("application/json", "#/components/schemas/")]);
    assert_eq!(extract_response_type_from_openapi(responses), complex(""));

    let responses = only_default(vec![referenced("application/json", "/")]);
    assert_eq!(extract_response_type_from_openapi(responses), complex(""));

    let responses = only_default(vec![referenced("application/json", "/Widget")]);
    assert_eq!(extract_response_type_from_openapi(responses), complex("Widget"));

    let responses = only_default(vec![referenced("application/json", "a//b")]);
    assert_eq!(extract_response_type_from_openapi(responses), complex("b"));
}

#[test]
fn reference_with_wide_characters() {
    let responses =
        only_default(vec![referenced("text/plain", "#/sch\u{e9}mas/\u{1f600}/W\u{ef}dget\u{2713}")]);
    assert_eq!(extract_response_type_from_openapi(responses), complex("W\u{ef}dget\u{2713}"));
}

#[test]
fn no_type_is_resolved_by_name() {
    assert_eq!(variable_type_from_string("String"), None);
    assert_eq!(variable_type_from_string(""), None);
    assert_eq!(variable_type_from_string("Widget"), None);
}

#[test]
fn unnamed_operation_has_empty_name() {
    let request = openapi_operation_to_request("/things".to_string(), Method::Put, operation(None));
    assert_eq!(request.name, "");
    assert_eq!(request, plain_request("", "/things", Method::Put));
}

#[test]
fn operation_request_carries_everything() {
    let described = Operation {
        operation_id: Some("findThings".to_string()),
        parameters: vec![
            path_parameter("owner", true),
            header("X-Trace", false),
            query("limit", false),
        ],
        responses: Responses {
            default: Some(response(vec![
                inline("text/plain", Schema::String),
                referenced("application/json", "#/components/schemas/ThingList"),
            ])),
            responses: vec![(StatusCode::Code(200), pointer("#/components/responses/Ok"))],
        },
    };
    let request =
        openapi_operation_to_request("/owners/{owner}/things".to_string(), Method::Post, described);
    assert_eq!(
        request,
        Request {
            name: "findThings".to_string(),
            path: "/owners/{owner}/things".to_string(),
            method: Method::Post,
            params: vec![
                Box::new(string_variable("owner", true)),
                Box::new(string_variable("limit", false)),
            ],
            response_type: complex("ThingList"),
            error_type: None,
        }
    );
}

#[test]
fn error_type_is_never_filled() {
    let described = Operation {
        operation_id: Some("fails".to_string()),
        parameters: vec![],
        responses: Responses {
            default: Some(response(vec![referenced(
                "application/json",
                "#/components/schemas/Error",
            )])),
            responses: vec![(
                StatusCode::Range(4),
                response(vec![referenced("application/json", "#/components/schemas/Error")]),
            )],
        },
    };
    let item = PathItem {
        get: Some(described.clone()),
        put: Some(described.clone()),
        post: Some(described),
        ..empty_item()
    };
    let document = OpenAPI { paths: vec![("/fails".to_string(), ReferenceOr::Item(item))] };
    let requests = extract_requests_from_openapi(&document);
    assert_eq!(requests.len(), 3);
    for request in requests {
        assert_eq!(request.error_type, None);
        assert_eq!(request.response_type, complex("Error"));
        assert_eq!(request.path, "/fails");
    }
}

#[test]
fn items_scenario() {
    let listing = Operation {
        operation_id: None,
        parameters: vec![query("limit", true)],
        responses: only_default(vec![referenced("application/json", "#/components/schemas/Item")]),
    };
    let item = PathItem { get: Some(listing), ..empty_item() };
    let document = OpenAPI { paths: vec![("/items".to_string(), ReferenceOr::Item(item))] };
    assert_eq!(
        extract_requests_from_openapi(&document),
        vec![Request {
            name: "".to_string(),
            path: "/items".to_string(),
            method: Method::Get,
            params: vec![Box::new(Variable {
                name: "limit".to_string(),
                optional: true,
                value: None,
                variable_type: VariableType::StringType,
            })],
            response_type: Some(Box::new(VariableType::ComplexType("Item".to_string()))),
            error_type: None,
        }]
    );
}
