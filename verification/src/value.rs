//! Scalar values: the unit passed across the expression-evaluation
//! boundary when a single value rather than a whole column is needed.

use vstd::prelude::*;

verus! {

broadcast use vstd::std_specs::vec::group_vec_axioms;

/// Mathematical model of a single scalar value.
pub enum ValueModel {
    Null,
    Bool(bool),
    Int(i64),
    UInt(u64),
    Str(Seq<char>),
    Struct(Seq<ValueModel>),
    Arr(Seq<ValueModel>),
}

/// A single typed scalar value. A `Struct` value's arity and field order
/// must match its associated struct type's field list.
pub enum DataValue {
    Null,
    Boolean(bool),
    Int64(i64),
    UInt64(u64),
    String(String),
    Struct(Vec<DataValue>),
    Array(Vec<DataValue>),
}

/// Model of one scalar value.
pub open spec fn value_model(v: DataValue) -> ValueModel
    decreases v, 1int, 0int,
{
    match v {
        DataValue::Null => ValueModel::Null,
        DataValue::Boolean(b) => ValueModel::Bool(b),
        DataValue::Int64(i) => ValueModel::Int(i),
        DataValue::UInt64(u) => ValueModel::UInt(u),
        DataValue::String(s) => ValueModel::Str(s@),
        DataValue::Struct(vs) => {
            proof {
                broadcast use vstd::seq::group_seq_axioms;

                assert(decreases_to!(vs => vs@));
            }
            ValueModel::Struct(value_models_prefix(vs@, vs@.len() as int))
        },
        DataValue::Array(vs) => {
            proof {
                broadcast use vstd::seq::group_seq_axioms;

                assert(decreases_to!(vs => vs@));
            }
            ValueModel::Arr(value_models_prefix(vs@, vs@.len() as int))
        },
    }
}

/// Models of the first `n` values of `vs`.
pub open spec fn value_models_prefix(vs: Seq<DataValue>, n: int) -> Seq<ValueModel>
    decreases vs, 0int, n,
        when n <= vs.len()
{
    if n <= 0 {
        Seq::empty()
    } else {
        proof {
            broadcast use vstd::seq::group_seq_axioms;

            assert(decreases_to!(vs => vs[n - 1]));
        }
        value_models_prefix(vs, n - 1).push(value_model(vs[n - 1]))
    }
}

/// The model of a value sequence is taken element by element.
pub proof fn lemma_value_models_prefix(vs: Seq<DataValue>, n: int)
    requires
        0 <= n <= vs.len(),
    ensures
        value_models_prefix(vs, n).len() == n,
        forall|i: int| 0 <= i < n ==> value_models_prefix(vs, n)[i] == value_model(vs[i]),
    decreases n,
{
    if n > 0 {
        lemma_value_models_prefix(vs, n - 1);
    }
}

impl View for DataValue {
    type V = ValueModel;

    open spec fn view(&self) -> ValueModel {
        value_model(*self)
    }
}

} // verus!
