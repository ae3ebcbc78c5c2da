//! What holds of the response type of every operation.

use vstd::prelude::*;

use crate::document::{MediaTypeView, ReferenceOrView, ResponseView, ResponsesView, StatusCode};
use crate::extractor::model::{
    first_schema_reference, lemma_first_schema_reference_at, response_type_of, schema_reference,
};
use crate::reference::lemma_last_segment_of_path;
use crate::request::VariableTypeView;

verus! {

/// Without a default response there is no response type.
pub proof fn lemma_no_default_no_response_type(responses: ResponsesView)
    requires
        responses.default is None,
    ensures
        response_type_of(responses) is None,
{
}

/// The responses declared for a status make no difference to the response
/// type.
pub proof fn lemma_status_responses_are_ignored(
    responses: ResponsesView,
    declared: Seq<(StatusCode, ReferenceOrView<ResponseView>)>,
)
    ensures
        response_type_of(ResponsesView { default: responses.default, responses: declared })
            == response_type_of(responses),
{
}

/// Where a payload of the inline default response gives its schema by a
/// reference that ends in `'/'` and a name, and no payload before it gives
/// its schema by reference, the response type is the complex type of that
/// name.
pub proof fn lemma_response_type_is_named_by_reference(
    responses: ResponsesView,
    i: int,
    prefix: Seq<char>,
    name: Seq<char>,
)
    requires
        responses.default is Some,
        responses.default->0 is Item,
        0 <= i < responses.default->0->Item_0.content.len(),
        forall|j: int|
            0 <= j < i ==> schema_reference(
                (#[trigger] responses.default->0->Item_0.content[j]).1,
            ) is None,
        schema_reference(responses.default->0->Item_0.content[i].1) == Some(
            prefix.push('/') + name,
        ),
        !name.contains('/'),
    ensures
        response_type_of(responses) == Some(VariableTypeView::ComplexType(name)),
{
    let content = responses.default->0->Item_0.content;
    lemma_first_schema_reference_at(content, i);
    lemma_last_segment_of_path(prefix, name);
}

/// What the first schema reference is: that of the earliest payload whose
/// schema is given by reference, and absent exactly where no payload has
/// one.
pub proof fn lemma_first_schema_reference_is_earliest(content: Seq<(Seq<char>, MediaTypeView)>)
    ensures
        first_schema_reference(content) is None <==> forall|j: int|
            0 <= j < content.len() ==> schema_reference((#[trigger] content[j]).1) is None,
        first_schema_reference(content) is Some ==> exists|i: int|
            {
                &&& 0 <= i < content.len()
                &&& schema_reference((#[trigger] content[i]).1) == first_schema_reference(content)
                &&& forall|j: int|
                    0 <= j < i ==> schema_reference((#[trigger] content[j]).1) is None
            },
    decreases content.len(),
{
    if content.len() > 0 {
        let rest = content.drop_first();
        lemma_first_schema_reference_is_earliest(rest);
        if schema_reference(content[0].1) is Some {
            assert(schema_reference(content[0].1) == first_schema_reference(content));
        } else {
            assert forall|j: int| 0 <= j < rest.len() implies #[trigger] rest[j] == content[j
                + 1] by {}
            if first_schema_reference(rest) is Some {
                let at = choose|i: int|
                    {
                        &&& 0 <= i < rest.len()
                        &&& schema_reference((#[trigger] rest[i]).1) == first_schema_reference(rest)
                        &&& forall|j: int|
                            0 <= j < i ==> schema_reference((#[trigger] rest[j]).1) is None
                    };
                assert(rest[at] == content[at + 1]);
                assert forall|j: int| 0 <= j < at + 1 implies schema_reference(
                    (#[trigger] content[j]).1,
                ) is None by {
                    if j > 0 {
                        assert(rest[j - 1] == content[j]);
                    }
                }
                assert(schema_reference(content[at + 1].1) == first_schema_reference(content));
            } else {
                assert forall|j: int| 0 <= j < content.len() implies schema_reference(
                    (#[trigger] content[j]).1,
                ) is None by {
                    if j > 0 {
                        assert(rest[j - 1] == content[j]);
                    }
                }
            }
        }
    }
}

} // verus!
