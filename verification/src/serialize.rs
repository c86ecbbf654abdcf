//! Canonical text serialization: one serializer per data type, rendering
//! single values and whole columns. Numbers render in locale-independent
//! decimal, booleans as `1`/`0`, temporal values in fixed UTC formats, and
//! struct values as a parenthesized list whose string and temporal fields
//! are single-quoted (the nested rendering deliberately differs from the
//! top-level one, mirroring nested literal syntax).

use crate::column::Column;
use crate::column::ColumnRef;
use crate::column::col_len;
use crate::column::col_value_at;
use crate::column::col_well_formed;
use crate::error::ErrorCode;
use crate::error::ErrorKind;
use crate::types::DataType;
use crate::types::TypeModel;
use crate::value::DataValue;
use crate::value::ValueModel;
use crate::value::lemma_value_models_prefix;
use crate::types::lemma_type_models_prefix;
use crate::text::date_in_range;
use crate::text::date_text;
use crate::text::date_to_string;
use crate::text::datetime_text;
use crate::text::datetime_to_string;
use crate::text::dec_text;
use crate::text::int_text;
use crate::text::i64_to_string;
use crate::text::u64_to_string;
use vstd::prelude::*;

verus! {

broadcast use vstd::seq::group_seq_axioms, vstd::std_specs::vec::group_vec_axioms;

/// Whether a field of this type is single-quoted inside a struct literal.
pub open spec fn quoted_kind(t: TypeModel) -> bool {
    t is Str || t is Date || t is Date32 || t is DateTime32
}

/// A rendering wrapped in single quotes.
pub open spec fn quote_wrap(s: Seq<char>) -> Seq<char> {
    seq!['\''] + s + seq!['\'']
}

/// The canonical rendering of one scalar under one type, or nothing when
/// the value does not fit the type: a mismatched tag, a number outside the
/// type's width, or a date outside the four-digit year range.
pub open spec fn scalar_text(t: TypeModel, v: ValueModel) -> Option<Seq<char>>
    decreases t, 0int, 0int,
{
    match t {
        TypeModel::Boolean => match v {
            ValueModel::Bool(b) => Some(if b { seq!['1'] } else { seq!['0'] }),
            _ => None,
        },
        TypeModel::Int8 => int_scalar_text(v, -128, 127),
        TypeModel::Int16 => int_scalar_text(v, -32768, 32767),
        TypeModel::Int32 => int_scalar_text(v, -0x8000_0000, 0x7fff_ffff),
        TypeModel::Int64 => int_scalar_text(v, -0x8000_0000_0000_0000, 0x7fff_ffff_ffff_ffff),
        TypeModel::UInt8 => uint_scalar_text(v, 255),
        TypeModel::UInt16 => uint_scalar_text(v, 65535),
        TypeModel::UInt32 => uint_scalar_text(v, 0xffff_ffff),
        TypeModel::UInt64 => uint_scalar_text(v, 0xffff_ffff_ffff_ffff),
        TypeModel::Str => match v {
            ValueModel::Str(s) => Some(s),
            _ => None,
        },
        TypeModel::Date => date_scalar_text(v, 0, 65535),
        TypeModel::Date32 => date_scalar_text(v, -0x8000_0000, 0x7fff_ffff),
        TypeModel::DateTime32 => match numeric_value(v, 0, 0xffff_ffff) {
            Some(secs) => if date_in_range(secs / 86400) {
                Some(datetime_text(secs))
            } else {
                None
            },
            None => None,
        },
        TypeModel::Nullable(inner) => scalar_text(*inner, v),
        TypeModel::Struct(names, types) => match v {
            ValueModel::Struct(fields) => {
                if fields.len() == types.len() {
                    match struct_body_text(types, fields, types.len() as int) {
                        Some(body) => Some(seq!['('] + body + seq![')']),
                        None => None,
                    }
                } else {
                    None
                }
            },
            _ => None,
        },
        TypeModel::Arr(_) => None,
    }
}

/// The numeric content of a scalar, if it is an integer inside the bounds.
pub open spec fn numeric_value(v: ValueModel, lo: int, hi: int) -> Option<int> {
    match v {
        ValueModel::Int(i) => if lo <= i <= hi {
            Some(i as int)
        } else {
            None
        },
        ValueModel::UInt(u) => if lo <= u <= hi {
            Some(u as int)
        } else {
            None
        },
        _ => None,
    }
}

/// The rendering of a scalar under a signed integer type of given bounds.
pub open spec fn int_scalar_text(v: ValueModel, lo: int, hi: int) -> Option<Seq<char>> {
    match numeric_value(v, lo, hi) {
        Some(n) => Some(int_text(n)),
        None => None,
    }
}

/// The rendering of a scalar under an unsigned integer type of given bound.
pub open spec fn uint_scalar_text(v: ValueModel, hi: int) -> Option<Seq<char>> {
    match numeric_value(v, 0, hi) {
        Some(n) => Some(dec_text(n)),
        None => None,
    }
}

/// The rendering of a scalar under a date type: the value is an epoch day
/// count within the type's width and the four-digit year range.
pub open spec fn date_scalar_text(v: ValueModel, lo: int, hi: int) -> Option<Seq<char>> {
    match numeric_value(v, lo, hi) {
        Some(days) => if date_in_range(days) {
            Some(date_text(days))
        } else {
            None
        },
        None => None,
    }
}

/// One struct field's rendering: the scalar rendering, quoted when the
/// field's type is a string or temporal kind.
pub open spec fn field_text(t: TypeModel, v: ValueModel) -> Option<Seq<char>>
    decreases t, 1int, 0int,
{
    match scalar_text(t, v) {
        Some(s) => Some(
            if quoted_kind(t) {
                quote_wrap(s)
            } else {
                s
            },
        ),
        None => None,
    }
}

/// The comma-separated renderings of the first `n` struct fields, or
/// nothing if any of them fails.
pub open spec fn struct_body_text(types: Seq<TypeModel>, fields: Seq<ValueModel>, n: int) -> Option<
    Seq<char>,
>
    decreases types, 2int, n,
        when n <= types.len() && n <= fields.len()
{
    if n <= 0 {
        Some(Seq::empty())
    } else {
        proof {
            assert(decreases_to!(types => types[n - 1]));
        }
        let rest = struct_body_text(types, fields, n - 1);
        let cur = field_text(types[n - 1], fields[n - 1]);
        match rest {
            Some(r) => match cur {
                Some(c) => Some(
                    if n == 1 {
                        c
                    } else {
                        r + seq![',', ' '] + c
                    },
                ),
                None => None,
            },
            None => None,
        }
    }
}

/// A failed field makes the whole struct body fail.
pub proof fn lemma_struct_body_none(types: Seq<TypeModel>, fields: Seq<ValueModel>, k: int, n: int)
    requires
        0 <= k < n <= types.len(),
        n <= fields.len(),
        field_text(types[k], fields[k]) is None,
    ensures
        struct_body_text(types, fields, n) is None,
    decreases n,
{
    if k < n - 1 {
        lemma_struct_body_none(types, fields, k, n - 1);
    }
}

} // verus!

verus! {

/// Builds the structured error every serialization failure reports: the
/// value does not fit the data type.
fn bad_value_error() -> (r: ErrorCode)
    ensures
        r.spec_kind() == ErrorKind::BadDataValueType,
{
    ErrorCode::create(
        ErrorKind::BadDataValueType,
        String::from_str("value does not fit the data type"),
    )
}

/// Extracts a signed integer within `[lo, hi]` from a scalar.
fn int_value_in(v: &DataValue, lo: i64, hi: i64) -> (r: Option<i64>)
    ensures
        match r {
            Option::Some(n) => numeric_value(v@, lo as int, hi as int) == Some(n as int),
            Option::None => numeric_value(v@, lo as int, hi as int) is None,
        },
{
    match v {
        DataValue::Int64(i) => {
            if lo <= *i && *i <= hi {
                Some(*i)
            } else {
                None
            }
        },
        DataValue::UInt64(u) => {
            if hi >= 0 && *u <= hi as u64 && (lo <= 0 || *u >= lo as u64) {
                Some(*u as i64)
            } else {
                None
            }
        },
        _ => None,
    }
}

/// Extracts an unsigned integer within `[0, hi]` from a scalar.
fn uint_value_in(v: &DataValue, hi: u64) -> (r: Option<u64>)
    ensures
        match r {
            Option::Some(n) => numeric_value(v@, 0, hi as int) == Some(n as int),
            Option::None => numeric_value(v@, 0, hi as int) is None,
        },
{
    match v {
        DataValue::Int64(i) => {
            if *i >= 0 && (*i as u64) <= hi {
                Some(*i as u64)
            } else {
                None
            }
        },
        DataValue::UInt64(u) => {
            if *u <= hi {
                Some(*u)
            } else {
                None
            }
        },
        _ => None,
    }
}

/// Whether fields of this type are single-quoted inside a struct literal.
fn is_quoted_kind(t: &DataType) -> (r: bool)
    ensures
        r == quoted_kind(t@),
{
    match t {
        DataType::String => true,
        DataType::Date => true,
        DataType::Date32 => true,
        DataType::DateTime32 => true,
        _ => false,
    }
}

/// Renders one scalar under one data type, or reports that the value does
/// not fit the type: a mismatched tag, a number outside the type's width,
/// or a date outside the four-digit year range.
#[verifier::loop_isolation(false)]
#[verifier::rlimit(100)]
pub fn serialize_scalar(t: &DataType, v: &DataValue) -> (r: Result<String, ErrorCode>)
    ensures
        match r {
            Result::Ok(s) => scalar_text(t@, v@) == Some(s@),
            Result::Err(e) => scalar_text(t@, v@) is None && e.spec_kind()
                == ErrorKind::BadDataValueType,
        },
    decreases *t,
{
    match t {
        DataType::Boolean => match v {
            DataValue::Boolean(b) => {
                proof {
                    reveal_strlit("1");
                    reveal_strlit("0");
                }
                let s = if *b {
                    "1"
                } else {
                    "0"
                };
                proof {
                    assert(s@ =~= (if *b {
                        seq!['1']
                    } else {
                        seq!['0']
                    }));
                }
                Ok(s.to_owned())
            },
            _ => Err(bad_value_error()),
        },
        DataType::Int8 => match int_value_in(v, -128, 127) {
            Option::Some(n) => Ok(i64_to_string(n)),
            Option::None => Err(bad_value_error()),
        },
        DataType::Int16 => match int_value_in(v, -32768, 32767) {
            Option::Some(n) => Ok(i64_to_string(n)),
            Option::None => Err(bad_value_error()),
        },
        DataType::Int32 => match int_value_in(v, -0x8000_0000, 0x7fff_ffff) {
            Option::Some(n) => Ok(i64_to_string(n)),
            Option::None => Err(bad_value_error()),
        },
        DataType::Int64 => match int_value_in(v, i64::MIN, i64::MAX) {
            Option::Some(n) => Ok(i64_to_string(n)),
            Option::None => Err(bad_value_error()),
        },
        DataType::UInt8 => match uint_value_in(v, 255) {
            Option::Some(n) => Ok(u64_to_string(n)),
            Option::None => Err(bad_value_error()),
        },
        DataType::UInt16 => match uint_value_in(v, 65535) {
            Option::Some(n) => Ok(u64_to_string(n)),
            Option::None => Err(bad_value_error()),
        },
        DataType::UInt32 => match uint_value_in(v, 0xffff_ffff) {
            Option::Some(n) => Ok(u64_to_string(n)),
            Option::None => Err(bad_value_error()),
        },
        DataType::UInt64 => match uint_value_in(v, 0xffff_ffff_ffff_ffff) {
            Option::Some(n) => Ok(u64_to_string(n)),
            Option::None => Err(bad_value_error()),
        },
        DataType::String => match v {
            DataValue::String(s) => Ok(s.clone()),
            _ => Err(bad_value_error()),
        },
        DataType::Date => match int_value_in(v, 0, 65535) {
            Option::Some(days) => match date_to_string(days) {
                Option::Some(s) => Ok(s),
                Option::None => Err(bad_value_error()),
            },
            Option::None => Err(bad_value_error()),
        },
        DataType::Date32 => match int_value_in(v, -0x8000_0000, 0x7fff_ffff) {
            Option::Some(days) => match date_to_string(days) {
                Option::Some(s) => Ok(s),
                Option::None => Err(bad_value_error()),
            },
            Option::None => Err(bad_value_error()),
        },
        DataType::DateTime32 => match uint_value_in(v, 0xffff_ffff) {
            Option::Some(secs) => match datetime_to_string(secs as u32) {
                Option::Some(s) => Ok(s),
                Option::None => Err(bad_value_error()),
            },
            Option::None => Err(bad_value_error()),
        },
        DataType::Nullable(inner) => serialize_scalar(inner, v),
        DataType::Struct(names, types) => match v {
            DataValue::Struct(fields) => {
                let ghost tms = crate::types::type_models_prefix(types@, types@.len() as int);
                let ghost vms = crate::value::value_models_prefix(fields@, fields@.len() as int);
                proof {
                    lemma_type_models_prefix(types@, types@.len() as int);
                    lemma_value_models_prefix(fields@, fields@.len() as int);
                }
                if fields.len() != types.len() {
                    return Err(bad_value_error());
                }
                let count = types.len();
                proof {
                    reveal_strlit("(");
                    reveal_strlit(")");
                    reveal_strlit(", ");
                    reveal_strlit("'");
                }
                let mut body = String::new();
                let mut k: usize = 0;
                while k < count
                    invariant
                        0 <= k <= count,
                        struct_body_text(tms, vms, k as int) == Some(body@),
                    decreases count - k,
                {
                    proof {
                        assert(decreases_to!(*t => *types));
                        assert(decreases_to!(*types => types@));
                        assert(decreases_to!(types@ => types@[k as int]));
                    }
                    let field = match serialize_scalar(&types[k], &fields[k]) {
                        Result::Ok(s) => s,
                        Result::Err(e) => {
                            proof {
                                lemma_struct_body_none(tms, vms, k as int, count as int);
                            }
                            return Err(e);
                        },
                    };
                    if k > 0 {
                        body.append(", ");
                    }
                    if is_quoted_kind(&types[k]) {
                        body.append("'");
                        body.append(field.as_str());
                        body.append("'");
                    } else {
                        body.append(field.as_str());
                    }
                    proof {
                        assert(struct_body_text(tms, vms, k + 1) == Some(body@)) by {
                            assert(field_text(tms[k as int], vms[k as int]) == Some(
                                if quoted_kind(tms[k as int]) {
                                    quote_wrap(field@)
                                } else {
                                    field@
                                },
                            ));
                            match struct_body_text(tms, vms, k + 1) {
                                Option::Some(bt) => {
                                    assert(bt =~= body@);
                                },
                                Option::None => (),
                            }
                        }
                    }
                    k = k + 1;
                }
                let mut out = String::from_str("(");
                out.append(body.as_str());
                out.append(")");
                proof {
                    assert(scalar_text(t@, v@) == Some(out@)) by {
                        match scalar_text(t@, v@) {
                            Option::Some(st) => {
                                assert(st =~= out@);
                            },
                            Option::None => (),
                        }
                    }
                }
                Ok(out)
            },
            _ => Err(bad_value_error()),
        },
        DataType::Array(_) => Err(bad_value_error()),
    }
}

} // verus!

verus! {

/// Whether a column stores rows the given type's serializer can render
/// column-wise: the storage variant matches the type, recursively through
/// struct children.
pub open spec fn accepts_col(t: TypeModel, c: Column) -> bool
    decreases c, 0int, 0int,
{
    match t {
        TypeModel::Boolean => c is Boolean,
        TypeModel::Int8 => c is Int8,
        TypeModel::Int16 => c is Int16,
        TypeModel::Int32 => c is Int32,
        TypeModel::Int64 => c is Int64,
        TypeModel::UInt8 => c is UInt8,
        TypeModel::UInt16 => c is UInt16,
        TypeModel::UInt32 => c is UInt32,
        TypeModel::UInt64 => c is UInt64,
        TypeModel::Str => c is String,
        TypeModel::Date => c is UInt16,
        TypeModel::Date32 => c is Int32,
        TypeModel::DateTime32 => c is UInt32,
        TypeModel::Struct(names, types) => match c {
            Column::Struct(s) => {
                proof {
                    assert(decreases_to!(s.values => s.values@));
                }
                &&& s.values@.len() == types.len()
                &&& accepts_prefix(types, s.values@, types.len() as int)
            },
            _ => false,
        },
        TypeModel::Nullable(_) => false,
        TypeModel::Arr(_) => false,
    }
}

/// Whether the first `n` child columns match the first `n` field types.
pub open spec fn accepts_prefix(ts: Seq<TypeModel>, vs: Seq<ColumnRef>, n: int) -> bool
    decreases vs, 0int, n,
        when n <= vs.len() && n <= ts.len()
{
    if n <= 0 {
        true
    } else {
        proof {
            assert(decreases_to!(vs => vs[n - 1]));
        }
        accepts_prefix(ts, vs, n - 1) && accepts_col(ts[n - 1], *vs[n - 1])
    }
}

/// Matching of a child prefix means each child matches its field type.
pub proof fn lemma_accepts_prefix(ts: Seq<TypeModel>, vs: Seq<ColumnRef>, n: int)
    requires
        0 <= n <= vs.len(),
        n <= ts.len(),
    ensures
        accepts_prefix(ts, vs, n) <==> (forall|k: int|
            0 <= k < n ==> accepts_col(ts[k], #[trigger] *vs[k])),
    decreases n,
{
    if n > 0 {
        lemma_accepts_prefix(ts, vs, n - 1);
    }
}

/// Whether the column's storage variant matches this data type.
#[verifier::loop_isolation(false)]
#[verifier::rlimit(60)]
fn column_accepted(t: &DataType, c: &Column) -> (r: bool)
    ensures
        r == accepts_col(t@, *c),
    decreases *c,
{
    match t {
        DataType::Boolean => matches!(c, Column::Boolean(_)),
        DataType::Int8 => matches!(c, Column::Int8(_)),
        DataType::Int16 => matches!(c, Column::Int16(_)),
        DataType::Int32 => matches!(c, Column::Int32(_)),
        DataType::Int64 => matches!(c, Column::Int64(_)),
        DataType::UInt8 => matches!(c, Column::UInt8(_)),
        DataType::UInt16 => matches!(c, Column::UInt16(_)),
        DataType::UInt32 => matches!(c, Column::UInt32(_)),
        DataType::UInt64 => matches!(c, Column::UInt64(_)),
        DataType::String => matches!(c, Column::String(_)),
        DataType::Date => matches!(c, Column::UInt16(_)),
        DataType::Date32 => matches!(c, Column::Int32(_)),
        DataType::DateTime32 => matches!(c, Column::UInt32(_)),
        DataType::Struct(names, types) => match c {
            Column::Struct(s) => {
                let ghost tms = crate::types::type_models_prefix(types@, types@.len() as int);
                proof {
                    lemma_type_models_prefix(types@, types@.len() as int);
                }
                if s.values.len() != types.len() {
                    return false;
                }
                proof {
                    lemma_accepts_prefix(tms, s.values@, types@.len() as int);
                }
                let count = types.len();
                let mut k: usize = 0;
                let mut all = true;
                while k < count
                    invariant
                        0 <= k <= count,
                        all == accepts_prefix(tms, s.values@, k as int),
                    decreases count - k,
                {
                    proof {
                        assert(decreases_to!(*c => *s));
                        assert(decreases_to!(*s => s.values));
                        assert(decreases_to!(s.values => s.values@));
                        assert(decreases_to!(s.values@ => s.values@[k as int]));
                    }
                    let ok = column_accepted(&types[k], &s.values[k]);
                    all = all && ok;
                    k = k + 1;
                }
                all
            },
            _ => false,
        },
        DataType::Nullable(_) => false,
        DataType::Array(_) => false,
    }
}

/// A serializer for one data type, as handed out by `create_serializer`.
pub struct Serializer<'a> {
    pub data_type: &'a DataType,
}

impl DataType {
    /// The serializer rendering values and columns of this type.
    pub fn create_serializer<'a>(&'a self) -> (r: Serializer<'a>)
        ensures
            r.data_type == self,
    {
        Serializer { data_type: self }
    }
}

impl<'a> Serializer<'a> {
    /// Renders one scalar value in the type's canonical text form. Succeeds
    /// exactly when the value fits the type; a failure reports the value
    /// and type mismatch as a recoverable error.
    pub fn serialize_value(&self, value: &DataValue) -> (r: Result<String, ErrorCode>)
        ensures
            match r {
                Result::Ok(s) => scalar_text(self.data_type@, value@) == Some(s@),
                Result::Err(e) => scalar_text(self.data_type@, value@) is None && e.spec_kind()
                    == ErrorKind::BadDataValueType,
            },
    {
        serialize_scalar(self.data_type, value)
    }

    /// Renders a whole column, one text per row. Succeeds exactly when the
    /// column's storage matches the type and every row fits it; each row's
    /// text then equals the canonical rendering of that row's value, so a
    /// rendered column agrees row for row with `serialize_value` applied to
    /// each row's extracted value.
    #[verifier::loop_isolation(false)]
    pub fn serialize_column(&self, column: &ColumnRef) -> (r: Result<Vec<String>, ErrorCode>)
        requires
            col_well_formed(**column),
        ensures
            !accepts_col(self.data_type@, **column) ==> r is Err,
            accepts_col(self.data_type@, **column) ==> match r {
                Result::Ok(out) => out@.len() == col_len(**column) && (forall|i: int|
                    0 <= i < col_len(**column) ==> scalar_text(
                        self.data_type@,
                        col_value_at(**column, i),
                    ) == Some(#[trigger] out@[i]@)),
                Result::Err(_) => exists|i: int|
                    0 <= i < col_len(**column) && scalar_text(
                        self.data_type@,
                        #[trigger] col_value_at(**column, i),
                    ) is None,
            },
            r matches Result::Err(e) ==> e.spec_kind() == ErrorKind::BadDataValueType,
    {
        if !column_accepted(self.data_type, column) {
            return Err(bad_value_error());
        }
        let total = column.len();
        let mut out: Vec<String> = Vec::new();
        let mut i: usize = 0;
        while i < total
            invariant
                0 <= i <= total,
                out@.len() == i,
                forall|m: int|
                    0 <= m < i ==> scalar_text(self.data_type@, col_value_at(**column, m)) == Some(
                        #[trigger] out@[m]@,
                    ),
            decreases total - i,
        {
            let row = column.get_unchecked(i);
            match serialize_scalar(self.data_type, &row) {
                Result::Ok(s) => {
                    out.push(s);
                },
                Result::Err(e) => {
                    proof {
                        assert(scalar_text(self.data_type@, col_value_at(**column, i as int))
                            is None);
                    }
                    return Err(e);
                },
            }
            i = i + 1;
        }
        Ok(out)
    }
}

} // verus!
