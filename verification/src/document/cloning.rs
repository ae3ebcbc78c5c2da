//! Copies of the description's parts. Each copy has the model of the value
//! it was made from.

use vstd::prelude::*;

use crate::document::{
    MediaType, OpenAPI, Operation, Parameter, ParameterData, PathItem, ReferenceOr, Response,
    Responses, StatusCode,
};

verus! {

impl<T: Clone> Clone for ReferenceOr<T> {
    fn clone(&self) -> (res: Self)
        ensures
            match (*self, res) {
                (
                    ReferenceOr::Reference { reference: from },
                    ReferenceOr::Reference { reference: to },
                ) => from == to,
                (ReferenceOr::Item(from), ReferenceOr::Item(to)) => cloned::<T>(from, to),
                _ => false,
            },
    {
        match self {
            ReferenceOr::Reference { reference } => ReferenceOr::Reference {
                reference: reference.clone(),
            },
            ReferenceOr::Item(item) => ReferenceOr::Item(item.clone()),
        }
    }
}

impl Clone for ParameterData {
    fn clone(&self) -> (res: Self)
        ensures
            res@ == self@,
    {
        ParameterData {
            name: self.name.clone(),
            required: self.required,
            schema: self.schema.clone(),
        }
    }
}

impl Clone for Parameter {
    fn clone(&self) -> (res: Self)
        ensures
            res@ == self@,
    {
        match self {
            Parameter::Query { parameter_data } => Parameter::Query {
                parameter_data: parameter_data.clone(),
            },
            Parameter::Header { parameter_data } => Parameter::Header {
                parameter_data: parameter_data.clone(),
            },
            Parameter::Path { parameter_data } => Parameter::Path {
                parameter_data: parameter_data.clone(),
            },
            Parameter::Cookie { parameter_data } => Parameter::Cookie {
                parameter_data: parameter_data.clone(),
            },
        }
    }
}

impl Clone for MediaType {
    fn clone(&self) -> (res: Self)
        ensures
            res@ == self@,
    {
        MediaType { schema: self.schema.clone() }
    }
}

impl Clone for Response {
    fn clone(&self) -> (res: Self)
        ensures
            res@ == self@,
    {
        let mut content: Vec<(String, MediaType)> = Vec::new();
        for i in 0..self.content.len()
            invariant
                content.len() == i,
                forall|j: int|
                    0 <= j < i ==> (#[trigger] content[j]).deep_view()
                        == self.content[j].deep_view(),
        {
            let entry = &self.content[i];
            content.push((entry.0.clone(), entry.1.clone()));
        }
        assert(content.deep_view() =~= self.content.deep_view());
        Response { content }
    }
}

impl Clone for Responses {
    fn clone(&self) -> (res: Self)
        ensures
            res@ == self@,
    {
        let mut responses: Vec<(StatusCode, ReferenceOr<Response>)> = Vec::new();
        for i in 0..self.responses.len()
            invariant
                responses.len() == i,
                forall|j: int|
                    0 <= j < i ==> (#[trigger] responses[j]).deep_view()
                        == self.responses[j].deep_view(),
        {
            let entry = &self.responses[i];
            responses.push((entry.0, entry.1.clone()));
        }
        assert(responses.deep_view() =~= self.responses.deep_view());
        Responses { default: self.default.clone(), responses }
    }
}

impl Clone for Operation {
    fn clone(&self) -> (res: Self)
        ensures
            res@ == self@,
    {
        let parameters = self.parameters.clone();
        assert(parameters.deep_view() =~= self.parameters.deep_view());
        Operation {
            operation_id: self.operation_id.clone(),
            parameters,
            responses: self.responses.clone(),
        }
    }
}

impl Clone for PathItem {
    fn clone(&self) -> (res: Self)
        ensures
            res@ == self@,
    {
        PathItem {
            get: self.get.clone(),
            put: self.put.clone(),
            post: self.post.clone(),
            delete: self.delete.clone(),
            options: self.options.clone(),
            head: self.head.clone(),
            patch: self.patch.clone(),
            trace: self.trace.clone(),
        }
    }
}

impl Clone for OpenAPI {
    fn clone(&self) -> (res: Self)
        ensures
            res@ == self@,
    {
        let mut paths: Vec<(String, ReferenceOr<PathItem>)> = Vec::new();
        for i in 0..self.paths.len()
            invariant
                paths.len() == i,
                forall|j: int|
                    0 <= j < i ==> (#[trigger] paths[j]).deep_view() == self.paths[j].deep_view(),
        {
            let entry = &self.paths[i];
            paths.push((entry.0.clone(), entry.1.clone()));
        }
        assert(paths.deep_view() =~= self.paths.deep_view());
        OpenAPI { paths }
    }
}

} // verus!
