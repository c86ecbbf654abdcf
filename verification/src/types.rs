//! Structural data types: immutable, reference-counted descriptors of the
//! logical shape of a column, compared structurally through their model.

use std::sync::Arc;
use vstd::prelude::*;

verus! {

broadcast use vstd::std_specs::vec::group_vec_axioms;

/// Shared handle to an immutable data type.
pub type DataTypePtr = Arc<DataType>;

/// Mathematical model of a data type.
pub enum TypeModel {
    Boolean,
    Int8,
    Int16,
    Int32,
    Int64,
    UInt8,
    UInt16,
    UInt32,
    UInt64,
    Str,
    Date,
    Date32,
    DateTime32,
    Nullable(Box<TypeModel>),
    Struct(Seq<Seq<char>>, Seq<TypeModel>),
    Arr(Box<TypeModel>),
}

/// The logical type of a column or scalar. `Date` and `Date32` count days
/// since the epoch, `DateTime32` counts seconds since the epoch.
pub enum DataType {
    Boolean,
    Int8,
    Int16,
    Int32,
    Int64,
    UInt8,
    UInt16,
    UInt32,
    UInt64,
    String,
    Date,
    Date32,
    DateTime32,
    Nullable(DataTypePtr),
    Struct(Vec<String>, Vec<DataTypePtr>),
    Array(DataTypePtr),
}

/// Model of one data type.
pub open spec fn type_model(t: DataType) -> TypeModel
    decreases t, 1int, 0int,
{
    match t {
        DataType::Boolean => TypeModel::Boolean,
        DataType::Int8 => TypeModel::Int8,
        DataType::Int16 => TypeModel::Int16,
        DataType::Int32 => TypeModel::Int32,
        DataType::Int64 => TypeModel::Int64,
        DataType::UInt8 => TypeModel::UInt8,
        DataType::UInt16 => TypeModel::UInt16,
        DataType::UInt32 => TypeModel::UInt32,
        DataType::UInt64 => TypeModel::UInt64,
        DataType::String => TypeModel::Str,
        DataType::Date => TypeModel::Date,
        DataType::Date32 => TypeModel::Date32,
        DataType::DateTime32 => TypeModel::DateTime32,
        DataType::Nullable(inner) => TypeModel::Nullable(Box::new(type_model(*inner))),
        DataType::Struct(names, types) => {
            proof {
                broadcast use vstd::seq::group_seq_axioms;

                assert(decreases_to!(types => types@));
            }
            TypeModel::Struct(
                Seq::new(names@.len(), |i: int| names@[i]@),
                type_models_prefix(types@, types@.len() as int),
            )
        },
        DataType::Array(inner) => TypeModel::Arr(Box::new(type_model(*inner))),
    }
}

/// Models of the first `n` types of `ts`.
pub open spec fn type_models_prefix(ts: Seq<DataTypePtr>, n: int) -> Seq<TypeModel>
    decreases ts, 0int, n,
        when n <= ts.len()
{
    if n <= 0 {
        Seq::empty()
    } else {
        proof {
            broadcast use vstd::seq::group_seq_axioms;

            assert(decreases_to!(ts => ts[n - 1]));
        }
        type_models_prefix(ts, n - 1).push(type_model(*ts[n - 1]))
    }
}

/// The model of a type sequence is taken element by element.
pub proof fn lemma_type_models_prefix(ts: Seq<DataTypePtr>, n: int)
    requires
        0 <= n <= ts.len(),
    ensures
        type_models_prefix(ts, n).len() == n,
        forall|i: int| 0 <= i < n ==> type_models_prefix(ts, n)[i] == type_model(*ts[i]),
    decreases n,
{
    if n > 0 {
        lemma_type_models_prefix(ts, n - 1);
    }
}

impl View for DataType {
    type V = TypeModel;

    open spec fn view(&self) -> TypeModel {
        type_model(*self)
    }
}

impl DataType {
    /// Whether a column of this type stores nullable rows.
    pub fn is_nullable(&self) -> (r: bool)
        ensures
            r == (self@ is Nullable),
    {
        match self {
            DataType::Nullable(_) => true,
            _ => false,
        }
    }
}

} // verus!
