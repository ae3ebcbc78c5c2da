//! The functions that extract request descriptors.

use vstd::prelude::*;

use crate::document::{
    OpenAPI, Operation, Parameter, ParameterData, PathItem, ReferenceOr, ReferenceOrView,
    ResponseView, Responses,
};
use crate::extractor::laws::paths::lemma_only_references_no_requests;
use crate::extractor::model::{
    data_variable, document_requests, entry_requests, lemma_first_schema_reference_at,
    lemma_first_schema_reference_none, lemma_params_of_take_next,
    lemma_paths_requests_take_next, operation_request, params_of, path_item_requests,
    paths_requests, response_type_of, schema_reference,
};
use crate::reference::reference_name;
use crate::request::{Method, Request, Variable, VariableType, VariableTypeView};

verus! {

/// Describes one kept parameter as a variable.
fn variable_from_data(parameter_data: ParameterData) -> (variable: Variable)
    ensures
        variable@ == data_variable(parameter_data@),
        variable.variable_type@ == VariableTypeView::StringType,
        variable.value is None,
{
    Variable {
        name: parameter_data.name,
        optional: parameter_data.required,
        value: None,
        variable_type: VariableType::StringType,
    }
}

/// Appends a variable to a list of variables.
fn push_variable(variables: &mut Vec<Variable>, variable: Variable)
    ensures
        final(variables)@ == old(variables)@.push(variable),
        final(variables).deep_view() == old(variables).deep_view().push(variable@),
{
    variables.push(variable);
    assert(variables.deep_view() =~= old(variables).deep_view().push(variable@));
}

/// Describes the parameters of an operation: one variable for each inline
/// parameter sent in the query or in the path, in the list's order.
pub fn extract_params_from_openapi(parameters: Vec<ReferenceOr<Parameter>>) -> (variables: Vec<
    Variable,
>)
    ensures
        variables.deep_view() == params_of(parameters.deep_view()),
        forall|k: int|
            0 <= k < variables@.len() ==> {
                &&& (#[trigger] variables@[k]).variable_type@ == VariableTypeView::StringType
                &&& variables@[k].value is None
            },
{
    let mut variables: Vec<Variable> = Vec::new();
    let ghost all = parameters.deep_view();

    for parameter in it: parameters.into_iter()
        invariant
            it.seq().len() == all.len(),
            forall|i: int| 0 <= i < all.len() ==> all[i] == (#[trigger] it.seq()[i]).deep_view(),
            variables.deep_view() == params_of(all.take(it.index())),
            forall|k: int|
                0 <= k < variables@.len() ==> {
                    &&& (#[trigger] variables@[k]).variable_type@ == VariableTypeView::StringType
                    &&& variables@[k].value is None
                },
    {
        proof {
            lemma_params_of_take_next(all, it.index());
        }
        if let ReferenceOr::Item(parameter) = parameter {
            match parameter {
                Parameter::Query { parameter_data } => {
                    push_variable(&mut variables, variable_from_data(parameter_data));
                },
                Parameter::Path { parameter_data } => {
                    push_variable(&mut variables, variable_from_data(parameter_data));
                },
                _ => (),
            }
        }
    }
    proof {
        assert(all.take(all.len() as int) == all);
    }
    variables
}

/// Resolves a type by its name. No type is known by name: the result is
/// always absent.
#[allow(unused_variables)]
pub fn variable_type_from_string(t: &str) -> (variable_type: Option<Box<VariableType>>)
    ensures
        variable_type is None,
{
    None
}

/// Infers the type of an operation's response payload from its default
/// response: the complex type named by the first schema reference among the
/// payloads of that response, in their stored order. Payloads without a
/// schema are passed over, and so are those with an inline schema, for
/// which `variable_type_from_string` finds no type. Responses declared for
/// a status are not consulted, and neither is a default response given by
/// reference.
pub fn extract_response_type_from_openapi(responses: Responses) -> (response_type: Option<
    Box<VariableType>,
>)
    ensures
        response_type.deep_view() == response_type_of(responses@),
        responses.default is None ==> response_type is None,
{
    if let Some(response) = responses.default {
        if let ReferenceOr::Item(response) = response {
            let ghost content = response.content.deep_view();
            for entry in it: response.content.into_iter()
                invariant
                    responses@.default == Some(ReferenceOrView::Item(ResponseView { content })),
                    it.seq().len() == content.len(),
                    forall|i: int|
                        0 <= i < content.len() ==> content[i] == (
                        #[trigger] it.seq()[i]).deep_view(),
                    forall|j: int|
                        0 <= j < it.index() ==> schema_reference(#[trigger] content[j].1) is None,
            {
                proof {
                    assert(content[it.index()] == entry.deep_view());
                }
                match entry.1.schema {
                    Some(ReferenceOr::Reference { reference }) => {
                        proof {
                            lemma_first_schema_reference_at(content, it.index());
                        }
                        let name = reference_name(reference.as_str());
                        return Some(Box::new(VariableType::ComplexType(name)));
                    },
                    Some(ReferenceOr::Item(_)) => {
                        // An inline schema names no type. The fallback type
                        // is asked for by name, and none is known by name.
                        let resolved = variable_type_from_string("String");
                        if resolved.is_some() {
                            return resolved;
                        }
                    },
                    None => {},
                }
            }
            proof {
                lemma_first_schema_reference_none(content);
            }
        }
    }
    None
}

/// Describes one operation, found under `method` on `path`, as a request.
/// The request is named by the operation's identifier, or has an empty name
/// where the operation has none.
pub fn openapi_operation_to_request(
    path: String,
    method: Method,
    operation: Operation,
) -> (request: Request)
    ensures
        request@ == operation_request(path@, method, operation@),
        operation.operation_id is None ==> request.name@ == Seq::<char>::empty(),
        request.path == path,
        request.method == method,
        request.error_type is None,
{
    let name = match operation.operation_id {
        Some(id) => id,
        None => String::new(),
    };
    let variables = extract_params_from_openapi(operation.parameters);
    let ghost described = variables.deep_view();
    let mut params: Vec<Box<Variable>> = Vec::new();
    for variable in it: variables.into_iter()
        invariant
            it.seq().len() == described.len(),
            forall|i: int|
                0 <= i < described.len() ==> described[i] == (#[trigger] it.seq()[i]).deep_view(),
            params.deep_view() == described.take(it.index()),
    {
        let ghost boxed = params.deep_view();
        params.push(Box::new(variable));
        assert(params.deep_view() =~= boxed.push(described[it.index()]));
        assert(described.take(it.index() + 1) =~= boxed.push(described[it.index()]));
    }
    assert(described.take(described.len() as int) == described);
    Request {
        name,
        path,
        params,
        method,
        response_type: extract_response_type_from_openapi(operation.responses),
        error_type: None,
    }
}

/// Describes the operations of one entry of the path mapping: one request
/// for each of the GET, PUT and POST slots that holds an operation, in that
/// order, each on the entry's path. An entry given by reference yields none.
pub fn extract_request_from_openapi(path: String, data: ReferenceOr<PathItem>) -> (requests: Vec<
    Request,
>)
    ensures
        requests.deep_view() == entry_requests(path@, data@),
        data is Reference ==> requests@.len() == 0,
        forall|k: int| 0 <= k < requests@.len() ==> (#[trigger] requests@[k]).path@ == path@,
        data matches ReferenceOr::Item(item) && item.get is Some && item.put is Some
            && item.post is Some ==> {
            &&& requests@.len() == 3
            &&& requests@[0].method == Method::Get
            &&& requests@[1].method == Method::Put
            &&& requests@[2].method == Method::Post
        },
{
    let mut requests: Vec<Request> = Vec::new();

    if let ReferenceOr::Item(data) = data {
        if let Some(operation) = data.get {
            requests.push(openapi_operation_to_request(path.clone(), Method::Get, operation));
        }
        if let Some(operation) = data.put {
            requests.push(openapi_operation_to_request(path.clone(), Method::Put, operation));
        }
        if let Some(operation) = data.post {
            requests.push(openapi_operation_to_request(path.clone(), Method::Post, operation));
        }
        assert(requests.deep_view() =~= path_item_requests(path@, data@));
    } else {
        assert(requests.deep_view() =~= Seq::empty());
    }

    requests
}

/// Describes every operation of a document: the requests of its path
/// entries, path by path in document order, and within a path in the order
/// GET, PUT, POST.
pub fn extract_requests_from_openapi(openapi: &OpenAPI) -> (requests: Vec<Request>)
    ensures
        requests.deep_view() == document_requests(openapi@),
        openapi.paths@.len() == 0 ==> requests@.len() == 0,
        (forall|i: int|
            0 <= i < openapi.paths@.len() ==> (#[trigger] openapi.paths@[i]).1 is Reference)
            ==> requests@.len() == 0,
{
    let mut requests: Vec<Request> = Vec::new();
    let ghost paths = openapi@.paths;

    for i in 0..openapi.paths.len()
        invariant
            paths == openapi.paths.deep_view(),
            requests.deep_view() == paths_requests(paths.take(i as int)),
    {
        let entry = &openapi.paths[i];
        let ghost gathered = requests.deep_view();
        let found = extract_request_from_openapi(entry.0.clone(), entry.1.clone());
        let ghost added = found.deep_view();
        proof {
            assert(paths[i as int] == entry.deep_view());
            lemma_paths_requests_take_next(paths, i as int);
        }
        for request in it: found.into_iter()
            invariant
                it.seq().len() == added.len(),
                forall|k: int|
                    0 <= k < added.len() ==> added[k] == (#[trigger] it.seq()[k]).deep_view(),
                requests.deep_view() == gathered + added.take(it.index()),
        {
            let ghost so_far = requests.deep_view();
            requests.push(request);
            assert(requests.deep_view() =~= so_far.push(added[it.index()]));
            assert(gathered + added.take(it.index() + 1) =~= so_far.push(added[it.index()]));
        }
        assert(added.take(added.len() as int) == added);
    }
    proof {
        assert(paths.take(paths.len() as int) == paths);
        if forall|i: int|
            0 <= i < openapi.paths@.len() ==> (#[trigger] openapi.paths@[i]).1 is Reference {
            assert forall|i: int| 0 <= i < paths.len() implies (
            #[trigger] paths[i]).1 is Reference by {
                assert(paths[i] == openapi.paths@[i].deep_view());
            }
            lemma_only_references_no_requests(openapi@);
        }
    }
    requests
}

} // verus!
