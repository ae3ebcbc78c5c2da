//! The request descriptors that extraction produces.

use vstd::prelude::*;

verus! {

/// The HTTP methods for which requests are described.
#[derive(Clone, Copy, Debug, PartialEq, Eq)]
pub enum Method {
    Get,
    Put,
    Post,
}

/// The type of a parameter or of a response payload.
#[derive(Clone, Debug, PartialEq, Eq)]
pub enum VariableType {
    /// A plain string.
    StringType,
    /// A schema defined elsewhere in the document, by its name.
    ComplexType(String),
}

/// Mathematical model of a [`VariableType`].
pub enum VariableTypeView {
    StringType,
    ComplexType(Seq<char>),
}

impl View for VariableType {
    type V = VariableTypeView;

    open spec fn view(&self) -> VariableTypeView {
        match self {
            VariableType::StringType => VariableTypeView::StringType,
            VariableType::ComplexType(name) => VariableTypeView::ComplexType(name@),
        }
    }
}

impl DeepView for VariableType {
    type V = VariableTypeView;

    open spec fn deep_view(&self) -> VariableTypeView {
        self.view()
    }
}

/// One input parameter of a request.
#[derive(Clone, Debug, PartialEq, Eq)]
pub struct Variable {
    pub name: String,
    pub optional: bool,
    /// A value bound to the parameter; extraction only describes parameters
    /// and never binds one.
    pub value: Option<String>,
    pub variable_type: VariableType,
}

/// Mathematical model of a [`Variable`].
pub struct VariableView {
    pub name: Seq<char>,
    pub optional: bool,
    pub value: Option<Seq<char>>,
    pub variable_type: VariableTypeView,
}

impl View for Variable {
    type V = VariableView;

    open spec fn view(&self) -> VariableView {
        VariableView {
            name: self.name@,
            optional: self.optional,
            value: self.value.deep_view(),
            variable_type: self.variable_type@,
        }
    }
}

impl DeepView for Variable {
    type V = VariableView;

    open spec fn deep_view(&self) -> VariableView {
        self.view()
    }
}

/// One operation of the described API: a method on a path, with what it
/// takes and what it answers.
#[derive(Clone, Debug, PartialEq, Eq)]
pub struct Request {
    /// The operation's identifier, empty where it has none.
    pub name: String,
    pub path: String,
    pub method: Method,
    pub params: Vec<Box<Variable>>,
    pub response_type: Option<Box<VariableType>>,
    /// Reserved; extraction never fills it.
    pub error_type: Option<Box<VariableType>>,
}

/// Mathematical model of a [`Request`].
pub struct RequestView {
    pub name: Seq<char>,
    pub path: Seq<char>,
    pub method: Method,
    pub params: Seq<VariableView>,
    pub response_type: Option<VariableTypeView>,
    pub error_type: Option<VariableTypeView>,
}

impl View for Request {
    type V = RequestView;

    open spec fn view(&self) -> RequestView {
        RequestView {
            name: self.name@,
            path: self.path@,
            method: self.method,
            params: self.params.deep_view(),
            response_type: self.response_type.deep_view(),
            error_type: self.error_type.deep_view(),
        }
    }
}

impl DeepView for Request {
    type V = RequestView;

    open spec fn deep_view(&self) -> RequestView {
        self.view()
    }
}

} // verus!
