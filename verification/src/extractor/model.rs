//! What extraction yields, stated over the models of the description and of
//! the request descriptors.

use vstd::prelude::*;

use crate::document::{
    MediaTypeView, OpenAPIView, OperationView, ParameterDataView, ParameterView, PathItemView,
    ReferenceOrView, ResponsesView,
};
use crate::reference::last_segment;
use crate::request::{Method, RequestView, VariableTypeView, VariableView};

verus! {

/// The variable that describes a parameter: its name, a string type, no
/// value, and the parameter's `required` flag as the variable's `optional`.
pub open spec fn data_variable(data: ParameterDataView) -> VariableView {
    VariableView {
        name: data.name,
        optional: data.required,
        value: None,
        variable_type: VariableTypeView::StringType,
    }
}

/// The variable for one entry of a parameter list. Only inline parameters
/// sent in the query or in the path have one.
pub open spec fn parameter_variable(parameter: ReferenceOrView<ParameterView>) -> Option<
    VariableView,
> {
    match parameter {
        ReferenceOrView::Item(ParameterView::Query { parameter_data }) => Some(
            data_variable(parameter_data),
        ),
        ReferenceOrView::Item(ParameterView::Path { parameter_data }) => Some(
            data_variable(parameter_data),
        ),
        _ => None,
    }
}

/// The variables of a parameter list: those of its entries that have one, in
/// the list's order.
pub open spec fn params_of(parameters: Seq<ReferenceOrView<ParameterView>>) -> Seq<VariableView> {
    parameters.filter_map(|parameter: ReferenceOrView<ParameterView>| parameter_variable(parameter))
}

/// Taking one more entry of a parameter list adds that entry's variable, if
/// it has one, behind the variables of the entries before it.
pub proof fn lemma_params_of_take_next(parameters: Seq<ReferenceOrView<ParameterView>>, i: int)
    requires
        0 <= i < parameters.len(),
    ensures
        params_of(parameters.take(i + 1)) == match parameter_variable(parameters[i]) {
            Some(variable) => params_of(parameters.take(i)).push(variable),
            None => params_of(parameters.take(i)),
        },
{
    let keep = |parameter: ReferenceOrView<ParameterView>| parameter_variable(parameter);
    parameters.lemma_filter_map_take_succ(keep, i);
    let before = parameters.take(i).filter_map(keep);
    match parameter_variable(parameters[i]) {
        Some(variable) => {
            assert(before + seq![variable] =~= before.push(variable));
        },
        None => {
            assert(before + Seq::empty() =~= before);
        },
    }
}

/// The reference string of a payload whose schema is given by reference.
pub open spec fn schema_reference(media: MediaTypeView) -> Option<Seq<char>> {
    match media.schema {
        Some(ReferenceOrView::Reference { reference }) => Some(reference),
        _ => None,
    }
}

/// The first schema reference among the payloads of a response, in their
/// stored order.
pub open spec fn first_schema_reference(content: Seq<(Seq<char>, MediaTypeView)>) -> Option<
    Seq<char>,
>
    decreases content.len(),
{
    if content.len() == 0 {
        None
    } else {
        match schema_reference(content.first().1) {
            Some(reference) => Some(reference),
            None => first_schema_reference(content.drop_first()),
        }
    }
}

/// The first schema reference is the one of the earliest payload that has
/// one.
pub proof fn lemma_first_schema_reference_at(content: Seq<(Seq<char>, MediaTypeView)>, i: int)
    requires
        0 <= i < content.len(),
        forall|j: int| 0 <= j < i ==> schema_reference(#[trigger] content[j].1) is None,
        schema_reference(content[i].1) is Some,
    ensures
        first_schema_reference(content) == schema_reference(content[i].1),
    decreases i,
{
    if i > 0 {
        let rest = content.drop_first();
        assert(schema_reference(content[0].1) is None);
        assert forall|j: int| 0 <= j < i - 1 implies schema_reference(
            #[trigger] rest[j].1,
        ) is None by {
            assert(rest[j] == content[j + 1]);
        }
        lemma_first_schema_reference_at(rest, i - 1);
    }
}

/// There is no first schema reference where no payload has one.
pub proof fn lemma_first_schema_reference_none(content: Seq<(Seq<char>, MediaTypeView)>)
    requires
        forall|j: int| 0 <= j < content.len() ==> schema_reference(#[trigger] content[j].1) is None,
    ensures
        first_schema_reference(content) is None,
    decreases content.len(),
{
    if content.len() > 0 {
        let rest = content.drop_first();
        assert(schema_reference(content[0].1) is None);
        assert forall|j: int| 0 <= j < rest.len() implies schema_reference(
            #[trigger] rest[j].1,
        ) is None by {
            assert(rest[j] == content[j + 1]);
        }
        lemma_first_schema_reference_none(rest);
    }
}

/// The response type of an operation: the complex type named by the first
/// schema reference of its inline default response, where there is one.
pub open spec fn response_type_of(responses: ResponsesView) -> Option<VariableTypeView> {
    match responses.default {
        Some(ReferenceOrView::Item(response)) => match first_schema_reference(response.content) {
            Some(reference) => Some(VariableTypeView::ComplexType(last_segment(reference))),
            None => None,
        },
        _ => None,
    }
}

/// The request that describes `operation`, found under `method` on `path`.
pub open spec fn operation_request(
    path: Seq<char>,
    method: Method,
    operation: OperationView,
) -> RequestView {
    RequestView {
        name: match operation.operation_id {
            Some(id) => id,
            None => Seq::empty(),
        },
        path,
        method,
        params: params_of(operation.parameters),
        response_type: response_type_of(operation.responses),
        error_type: None,
    }
}

/// The operation that a path item holds in the slot of a method.
pub open spec fn method_slot(item: PathItemView, method: Method) -> Option<OperationView> {
    match method {
        Method::Get => item.get,
        Method::Put => item.put,
        Method::Post => item.post,
    }
}

/// The requests of one method slot of a path item: one where the slot holds
/// an operation, none where it is empty.
pub open spec fn slot_requests(
    path: Seq<char>,
    method: Method,
    slot: Option<OperationView>,
) -> Seq<RequestView> {
    match slot {
        Some(operation) => seq![operation_request(path, method, operation)],
        None => Seq::empty(),
    }
}

/// The requests of an inline path item: those of its GET, PUT and POST
/// slots, in that order.
pub open spec fn path_item_requests(path: Seq<char>, item: PathItemView) -> Seq<RequestView> {
    slot_requests(path, Method::Get, method_slot(item, Method::Get)) + slot_requests(
        path,
        Method::Put,
        method_slot(item, Method::Put),
    ) + slot_requests(path, Method::Post, method_slot(item, Method::Post))
}

/// The requests of one entry of the path mapping. An entry given by
/// reference has none.
pub open spec fn entry_requests(path: Seq<char>, data: ReferenceOrView<PathItemView>) -> Seq<
    RequestView,
> {
    match data {
        ReferenceOrView::Item(item) => path_item_requests(path, item),
        ReferenceOrView::Reference { .. } => Seq::empty(),
    }
}

/// The requests of a path mapping: those of its entries, one entry after
/// the other in the mapping's order.
pub open spec fn paths_requests(paths: Seq<(Seq<char>, ReferenceOrView<PathItemView>)>) -> Seq<
    RequestView,
> {
    paths.flat_map(
        |entry: (Seq<char>, ReferenceOrView<PathItemView>)| entry_requests(entry.0, entry.1),
    )
}

/// The requests of a document: those of its path mapping.
pub open spec fn document_requests(document: OpenAPIView) -> Seq<RequestView> {
    paths_requests(document.paths)
}

/// One more entry behind a path mapping adds that entry's requests behind
/// those of the mapping.
pub proof fn lemma_paths_requests_push(
    paths: Seq<(Seq<char>, ReferenceOrView<PathItemView>)>,
    entry: (Seq<char>, ReferenceOrView<PathItemView>),
)
    ensures
        paths_requests(paths.push(entry)) == paths_requests(paths) + entry_requests(
            entry.0,
            entry.1,
        ),
{
    let of_entry = |entry: (Seq<char>, ReferenceOrView<PathItemView>)|
        entry_requests(entry.0, entry.1);
    paths.lemma_flat_map_push(of_entry, entry);
}

/// Taking one more entry of a path mapping adds that entry's requests
/// behind those of the entries before it.
pub proof fn lemma_paths_requests_take_next(
    paths: Seq<(Seq<char>, ReferenceOrView<PathItemView>)>,
    i: int,
)
    requires
        0 <= i < paths.len(),
    ensures
        paths_requests(paths.take(i + 1)) == paths_requests(paths.take(i)) + entry_requests(
            paths[i].0,
            paths[i].1,
        ),
{
    lemma_paths_requests_push(paths.take(i), paths[i]);
    assert(paths.take(i).push(paths[i]) =~= paths.take(i + 1));
}

} // verus!
