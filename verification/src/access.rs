//! Extracting single logical values out of a column.

use crate::column::Column;
use crate::column::col_len;
use crate::column::col_range_models;
use crate::column::col_row_prefix;
use crate::column::col_value_at;
use crate::column::col_well_formed;
use crate::column::lemma_col_len_bounds;
use crate::column::lemma_col_range_models;
use crate::column::lemma_col_row_prefix;
use crate::column::lemma_cols_well_formed_prefix;
use crate::column::lemma_offsets_monotone;
use crate::value::DataValue;
use crate::value::value_models_prefix;
use crate::value::lemma_value_models_prefix;
use vstd::prelude::*;

verus! {

broadcast use vstd::seq::group_seq_axioms, vstd::std_specs::vec::group_vec_axioms;

impl Column {
    /// The logical value at row `index`. The caller guarantees the index is
    /// in range; nothing is checked at run time. For a nullable column this
    /// reads the inner column at the requested row — the validity bit is
    /// reported by `null_at`, not here.
    #[verifier::loop_isolation(false)]
    pub fn get_unchecked(&self, index: usize) -> (r: DataValue)
        requires
            col_well_formed(*self),
            index < col_len(*self),
        ensures
            r@ == col_value_at(*self, index as int),
        decreases *self,
    {
        match self {
            Column::Boolean(p) => DataValue::Boolean(p.value(index)),
            Column::Int8(p) => DataValue::Int64(p.value(index) as i64),
            Column::Int16(p) => DataValue::Int64(p.value(index) as i64),
            Column::Int32(p) => DataValue::Int64(p.value(index) as i64),
            Column::Int64(p) => DataValue::Int64(p.value(index)),
            Column::UInt8(p) => DataValue::UInt64(p.value(index) as u64),
            Column::UInt16(p) => DataValue::UInt64(p.value(index) as u64),
            Column::UInt32(p) => DataValue::UInt64(p.value(index) as u64),
            Column::UInt64(p) => DataValue::UInt64(p.value(index)),
            Column::String(s) => DataValue::String(s.value(index).clone()),
            Column::Nullable(n) => n.column.get_unchecked(index),
            Column::Struct(s) => {
                let count = s.values.len();
                proof {
                    lemma_cols_well_formed_prefix(s.values@, count as int);
                }
                let mut fields: Vec<DataValue> = Vec::new();
                let mut k: usize = 0;
                while k < count
                    invariant
                        0 <= k <= count,
                        fields@.len() == k,
                        forall|m: int|
                            0 <= m < k ==> fields@[m]@ == col_value_at(
                                #[trigger] *s.values@[m],
                                index as int,
                            ),
                    decreases count - k,
                {
                    let field = s.values[k].get_unchecked(index);
                    fields.push(field);
                    k = k + 1;
                }
                let r = DataValue::Struct(fields);
                proof {
                    match &r {
                        DataValue::Struct(fs) => {
                            lemma_value_models_prefix(fs@, count as int);
                            lemma_col_row_prefix(s.values@, index as int, count as int);
                            assert forall|m: int| 0 <= m < count implies value_models_prefix(
                                fs@,
                                count as int,
                            )[m] == col_row_prefix(s.values@, index as int, count as int)[m] by {
                                assert(fs@[m]@ == col_value_at(*s.values@[m], index as int));
                            }
                            assert(value_models_prefix(fs@, count as int) =~= col_row_prefix(
                                s.values@,
                                index as int,
                                count as int,
                            ));
                        },
                        _ => (),
                    }
                }
                r
            },
            Column::Array(a) => {
                let on: usize = a.offsets.len();
                proof {
                    assert(on == a.offsets@.len());
                    lemma_offsets_monotone(
                        a.offsets@,
                        a.start as int,
                        a.start + a.length,
                        a.start as int,
                        a.start + index,
                    );
                    lemma_offsets_monotone(
                        a.offsets@,
                        a.start as int,
                        a.start + a.length,
                        a.start + index + 1,
                        a.start + a.length,
                    );
                }
                let lo = a.offsets[a.start + index];
                let hi = a.offsets[a.start + index + 1];
                proof {
                    assert(a.offsets@[a.start + index] <= a.offsets@[a.start + index + 1]);
                    lemma_col_len_bounds(&a.values);
                    assert(lo >= 0);
                    assert(hi <= col_len(*a.values));
                }
                let mut items: Vec<DataValue> = Vec::new();
                let ghost glo = lo as int;
                let mut j: usize = lo as usize;
                while j < hi as usize
                    invariant
                        glo <= j <= hi as usize,
                        items@.len() == j - glo,
                        forall|m: int|
                            0 <= m < items@.len() ==> (#[trigger] items@[m])@ == col_value_at(
                                *a.values,
                                glo + m,
                            ),
                    decreases hi as usize - j,
                {
                    let item = a.values.get_unchecked(j);
                    items.push(item);
                    j = j + 1;
                }
                let r = DataValue::Array(items);
                proof {
                    match &r {
                        DataValue::Array(its) => {
                            lemma_value_models_prefix(its@, hi - glo);
                            lemma_col_range_models(&a.values, glo, hi - glo);
                            assert(value_models_prefix(its@, hi - glo) =~= col_range_models(
                                *a.values,
                                glo,
                                hi - glo,
                            ));
                        },
                        _ => (),
                    }
                }
                r
            },
        }
    }

    /// The checked counterpart of `get_unchecked`, for boundaries facing
    /// untrusted input: returns `None` exactly when the row is out of range.
    pub fn get(&self, index: usize) -> (r: Option<DataValue>)
        requires
            col_well_formed(*self),
        ensures
            index < col_len(*self) ==> (r matches Option::Some(v) && v@ == col_value_at(
                *self,
                index as int,
            )),
            index >= col_len(*self) ==> r is None,
    {
        if index < self.len() {
            Some(self.get_unchecked(index))
        } else {
            None
        }
    }
}

} // verus!
