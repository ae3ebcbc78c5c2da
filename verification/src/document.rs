//! The parsed API description that extraction reads.
//!
//! Mappings of the description are kept as vectors of key and value, in the
//! order in which the description lists them.

use vstd::prelude::*;

mod cloning;

verus! {

/// Either a pointer to something defined elsewhere in the document, or the
/// thing itself.
#[derive(Debug, PartialEq, Eq)]
pub enum ReferenceOr<T> {
    Reference { reference: String },
    Item(T),
}

/// Mathematical model of a [`ReferenceOr`].
pub enum ReferenceOrView<T> {
    Reference { reference: Seq<char> },
    Item(T),
}

impl<T: DeepView> View for ReferenceOr<T> {
    type V = ReferenceOrView<T::V>;

    open spec fn view(&self) -> ReferenceOrView<T::V> {
        match self {
            ReferenceOr::Reference { reference } => ReferenceOrView::Reference {
                reference: reference@,
            },
            ReferenceOr::Item(item) => ReferenceOrView::Item(item.deep_view()),
        }
    }
}

impl<T: DeepView> DeepView for ReferenceOr<T> {
    type V = ReferenceOrView<T::V>;

    open spec fn deep_view(&self) -> ReferenceOrView<T::V> {
        self.view()
    }
}

/// What an inline schema declares itself to be.
#[derive(Clone, Copy, Debug, PartialEq, Eq)]
pub enum Schema {
    String,
    Number,
    Integer,
    Boolean,
    Array,
    Object,
    /// A composition of schemas, or a schema without a declared type.
    Other,
}

impl View for Schema {
    type V = Schema;

    open spec fn view(&self) -> Schema {
        *self
    }
}

impl DeepView for Schema {
    type V = Schema;

    open spec fn deep_view(&self) -> Schema {
        *self
    }
}

/// What every parameter carries, whatever its location.
#[derive(Debug, PartialEq, Eq)]
pub struct ParameterData {
    pub name: String,
    pub required: bool,
    /// The schema that the parameter declares, where it declares one.
    pub schema: Option<ReferenceOr<Schema>>,
}

/// Mathematical model of a [`ParameterData`].
pub struct ParameterDataView {
    pub name: Seq<char>,
    pub required: bool,
    pub schema: Option<ReferenceOrView<Schema>>,
}

impl View for ParameterData {
    type V = ParameterDataView;

    open spec fn view(&self) -> ParameterDataView {
        ParameterDataView {
            name: self.name@,
            required: self.required,
            schema: self.schema.deep_view(),
        }
    }
}

impl DeepView for ParameterData {
    type V = ParameterDataView;

    open spec fn deep_view(&self) -> ParameterDataView {
        self.view()
    }
}

/// A parameter of an operation, by the place where it is sent.
#[derive(Debug, PartialEq, Eq)]
pub enum Parameter {
    Query { parameter_data: ParameterData },
    Header { parameter_data: ParameterData },
    Path { parameter_data: ParameterData },
    Cookie { parameter_data: ParameterData },
}

/// Mathematical model of a [`Parameter`].
pub enum ParameterView {
    Query { parameter_data: ParameterDataView },
    Header { parameter_data: ParameterDataView },
    Path { parameter_data: ParameterDataView },
    Cookie { parameter_data: ParameterDataView },
}

impl ParameterView {
    /// What the parameter carries, whatever its location.
    pub open spec fn data(self) -> ParameterDataView {
        match self {
            ParameterView::Query { parameter_data } => parameter_data,
            ParameterView::Header { parameter_data } => parameter_data,
            ParameterView::Path { parameter_data } => parameter_data,
            ParameterView::Cookie { parameter_data } => parameter_data,
        }
    }
}

impl View for Parameter {
    type V = ParameterView;

    open spec fn view(&self) -> ParameterView {
        match self {
            Parameter::Query { parameter_data } => ParameterView::Query {
                parameter_data: parameter_data@,
            },
            Parameter::Header { parameter_data } => ParameterView::Header {
                parameter_data: parameter_data@,
            },
            Parameter::Path { parameter_data } => ParameterView::Path {
                parameter_data: parameter_data@,
            },
            Parameter::Cookie { parameter_data } => ParameterView::Cookie {
                parameter_data: parameter_data@,
            },
        }
    }
}

impl DeepView for Parameter {
    type V = ParameterView;

    open spec fn deep_view(&self) -> ParameterView {
        self.view()
    }
}

/// The description of a payload in one media type.
#[derive(Debug, PartialEq, Eq)]
pub struct MediaType {
    pub schema: Option<ReferenceOr<Schema>>,
}

/// Mathematical model of a [`MediaType`].
pub struct MediaTypeView {
    pub schema: Option<ReferenceOrView<Schema>>,
}

impl View for MediaType {
    type V = MediaTypeView;

    open spec fn view(&self) -> MediaTypeView {
        MediaTypeView { schema: self.schema.deep_view() }
    }
}

impl DeepView for MediaType {
    type V = MediaTypeView;

    open spec fn deep_view(&self) -> MediaTypeView {
        self.view()
    }
}

/// One response of an operation: its payloads, keyed by media type.
#[derive(Debug, PartialEq, Eq)]
pub struct Response {
    pub content: Vec<(String, MediaType)>,
}

/// Mathematical model of a [`Response`].
pub struct ResponseView {
    pub content: Seq<(Seq<char>, MediaTypeView)>,
}

impl View for Response {
    type V = ResponseView;

    open spec fn view(&self) -> ResponseView {
        ResponseView { content: self.content.deep_view() }
    }
}

impl DeepView for Response {
    type V = ResponseView;

    open spec fn deep_view(&self) -> ResponseView {
        self.view()
    }
}

/// The key of a response that is declared for a status: one code, or the
/// hundred codes that share a leading digit.
#[derive(Clone, Copy, Debug, PartialEq, Eq)]
pub enum StatusCode {
    Code(u16),
    Range(u16),
}

impl View for StatusCode {
    type V = StatusCode;

    open spec fn view(&self) -> StatusCode {
        *self
    }
}

impl DeepView for StatusCode {
    type V = StatusCode;

    open spec fn deep_view(&self) -> StatusCode {
        *self
    }
}

/// The responses of an operation: the one declared as default, and those
/// declared for a status.
#[derive(Debug, PartialEq, Eq)]
pub struct Responses {
    pub default: Option<ReferenceOr<Response>>,
    pub responses: Vec<(StatusCode, ReferenceOr<Response>)>,
}

/// Mathematical model of a [`Responses`].
pub struct ResponsesView {
    pub default: Option<ReferenceOrView<ResponseView>>,
    pub responses: Seq<(StatusCode, ReferenceOrView<ResponseView>)>,
}

impl View for Responses {
    type V = ResponsesView;

    open spec fn view(&self) -> ResponsesView {
        ResponsesView {
            default: self.default.deep_view(),
            responses: self.responses.deep_view(),
        }
    }
}

impl DeepView for Responses {
    type V = ResponsesView;

    open spec fn deep_view(&self) -> ResponsesView {
        self.view()
    }
}

/// One HTTP method on one path.
#[derive(Debug, PartialEq, Eq)]
pub struct Operation {
    pub operation_id: Option<String>,
    pub parameters: Vec<ReferenceOr<Parameter>>,
    pub responses: Responses,
}

/// Mathematical model of an [`Operation`].
pub struct OperationView {
    pub operation_id: Option<Seq<char>>,
    pub parameters: Seq<ReferenceOrView<ParameterView>>,
    pub responses: ResponsesView,
}

impl View for Operation {
    type V = OperationView;

    open spec fn view(&self) -> OperationView {
        OperationView {
            operation_id: self.operation_id.deep_view(),
            parameters: self.parameters.deep_view(),
            responses: self.responses@,
        }
    }
}

impl DeepView for Operation {
    type V = OperationView;

    open spec fn deep_view(&self) -> OperationView {
        self.view()
    }
}

/// The operations of one path, at most one for each method.
#[derive(Debug, PartialEq, Eq)]
pub struct PathItem {
    pub get: Option<Operation>,
    pub put: Option<Operation>,
    pub post: Option<Operation>,
    pub delete: Option<Operation>,
    pub options: Option<Operation>,
    pub head: Option<Operation>,
    pub patch: Option<Operation>,
    pub trace: Option<Operation>,
}

/// Mathematical model of a [`PathItem`].
pub struct PathItemView {
    pub get: Option<OperationView>,
    pub put: Option<OperationView>,
    pub post: Option<OperationView>,
    pub delete: Option<OperationView>,
    pub options: Option<OperationView>,
    pub head: Option<OperationView>,
    pub patch: Option<OperationView>,
    pub trace: Option<OperationView>,
}

impl View for PathItem {
    type V = PathItemView;

    open spec fn view(&self) -> PathItemView {
        PathItemView {
            get: self.get.deep_view(),
            put: self.put.deep_view(),
            post: self.post.deep_view(),
            delete: self.delete.deep_view(),
            options: self.options.deep_view(),
            head: self.head.deep_view(),
            patch: self.patch.deep_view(),
            trace: self.trace.deep_view(),
        }
    }
}

impl DeepView for PathItem {
    type V = PathItemView;

    open spec fn deep_view(&self) -> PathItemView {
        self.view()
    }
}

/// A parsed API description: its paths, in document order.
#[derive(Debug, PartialEq, Eq)]
pub struct OpenAPI {
    pub paths: Vec<(String, ReferenceOr<PathItem>)>,
}

/// Mathematical model of an [`OpenAPI`].
pub struct OpenAPIView {
    pub paths: Seq<(Seq<char>, ReferenceOrView<PathItemView>)>,
}

impl OpenAPIView {
    /// No path occurs twice among the keys of the path mapping.
    pub open spec fn has_distinct_paths(self) -> bool {
        forall|i: int, j: int|
            0 <= i < j < self.paths.len() ==> (#[trigger] self.paths[i]).0 != (
            #[trigger] self.paths[j]).0
    }
}

impl View for OpenAPI {
    type V = OpenAPIView;

    open spec fn view(&self) -> OpenAPIView {
        OpenAPIView { paths: self.paths.deep_view() }
    }
}

impl DeepView for OpenAPI {
    type V = OpenAPIView;

    open spec fn deep_view(&self) -> OpenAPIView {
        self.view()
    }
}

} // verus!
