//! What holds of the variables of every parameter list.

use vstd::prelude::*;

use crate::document::{ParameterView, ReferenceOrView};
use crate::extractor::model::{
    data_variable, lemma_params_of_take_next, parameter_variable, params_of,
};
use crate::request::VariableTypeView;

verus! {

/// A parameter that is sent in a header or in a cookie, or given by
/// reference, has no variable; an inline parameter that is sent in the query
/// or in the path has one, which is a string without a value.
pub proof fn lemma_kept_parameters(parameter: ReferenceOrView<ParameterView>)
    ensures
        parameter_variable(parameter) is Some <==> parameter is Item && (
        parameter->Item_0 is Query || parameter->Item_0 is Path),
        parameter_variable(parameter) matches Some(variable) ==> {
            &&& variable.variable_type == VariableTypeView::StringType
            &&& variable.value is None
        },
{
}

/// Every variable of a parameter list describes one of its kept parameters,
/// and stands where the variables of the parameters before that one end. So
/// no parameter that is sent in a header or in a cookie is among them.
pub proof fn lemma_variables_come_from_kept_parameters(
    parameters: Seq<ReferenceOrView<ParameterView>>,
    k: int,
)
    requires
        0 <= k < params_of(parameters).len(),
    ensures
        exists|i: int|
            {
                &&& 0 <= i < parameters.len()
                &&& parameter_variable(#[trigger] parameters[i]) == Some(params_of(parameters)[k])
                &&& params_of(parameters.take(i)).len() == k
            },
    decreases parameters.len(),
{
    if parameters.len() == 0 {
        assert(parameters.take(0) =~= parameters);
    } else {
        let last = parameters.len() - 1;
        let front = parameters.take(last);
        lemma_params_of_take_next(parameters, last);
        assert(parameters.take(last + 1) =~= parameters);
        if k < params_of(front).len() {
            lemma_variables_come_from_kept_parameters(front, k);
            let i = choose|i: int|
                {
                    &&& 0 <= i < front.len()
                    &&& parameter_variable(#[trigger] front[i]) == Some(params_of(front)[k])
                    &&& params_of(front.take(i)).len() == k
                };
            assert(front[i] == parameters[i]);
            assert(front.take(i) =~= parameters.take(i));
        } else {
            assert(parameter_variable(parameters[last]) == Some(params_of(parameters)[k]));
        }
    }
}

/// Every kept parameter of a parameter list has its variable among the
/// list's variables, at the place where the variables of the parameters
/// before it end.
pub proof fn lemma_kept_parameters_are_described(
    parameters: Seq<ReferenceOrView<ParameterView>>,
    i: int,
)
    requires
        0 <= i < parameters.len(),
        parameter_variable(parameters[i]) is Some,
    ensures
        params_of(parameters.take(i)).len() < params_of(parameters).len(),
        Some(params_of(parameters)[params_of(parameters.take(i)).len() as int])
            == parameter_variable(parameters[i]),
    decreases parameters.len(),
{
    let last = parameters.len() - 1;
    let front = parameters.take(last);
    lemma_params_of_take_next(parameters, last);
    assert(parameters.take(last + 1) =~= parameters);
    if i < last {
        assert(front[i] == parameters[i]);
        lemma_kept_parameters_are_described(front, i);
        assert(front.take(i) =~= parameters.take(i));
    }
}

/// The variables of the parameters up to a place are no more than those of
/// the parameters up to a later place, and fewer where a kept parameter
/// stands between the two: variables keep the order of their parameters.
pub proof fn lemma_variables_keep_parameter_order(
    parameters: Seq<ReferenceOrView<ParameterView>>,
    i: int,
    j: int,
)
    requires
        0 <= i < j <= parameters.len(),
    ensures
        params_of(parameters.take(i)).len() <= params_of(parameters.take(j)).len(),
        parameter_variable(parameters[i]) is Some ==> params_of(parameters.take(i)).len()
            < params_of(parameters.take(j)).len(),
    decreases j - i,
{
    lemma_params_of_take_next(parameters, j - 1);
    if i < j - 1 {
        lemma_variables_keep_parameter_order(parameters, i, j - 1);
    }
}

/// The variable of a kept parameter has the parameter's name, and the
/// parameter's `required` flag as its `optional` flag.
pub proof fn lemma_variable_copies_name_and_flag(parameter: ReferenceOrView<ParameterView>)
    requires
        parameter_variable(parameter) is Some,
    ensures
        parameter_variable(parameter) == Some(data_variable(parameter->Item_0.data())),
        parameter_variable(parameter)->0.name == parameter->Item_0.data().name,
        parameter_variable(parameter)->0.optional == parameter->Item_0.data().required,
{
}

} // verus!
