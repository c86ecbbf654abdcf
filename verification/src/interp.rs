//! The table-creation interpreter's decision core: given the plan and what
//! the catalog reported (existing tables, known engines, the tenant quota),
//! decide whether creation may proceed and which error stops it. The
//! surrounding session, catalog and stream plumbing are outside
//! collaborators that feed this function and perform its decision.

use crate::error::ErrorCode;
use crate::error::ErrorKind;
use vstd::prelude::*;

verus! {

/// What `str::to_lowercase` returns for these characters; the result
/// depends on the characters alone.
pub uninterp spec fn lower_of(s: Seq<char>) -> Seq<char>;

/// Relies on std's `str::to_lowercase`: the Unicode lowercase mapping of
/// the string, a function of the characters alone.
#[verifier::external_body]
fn to_lowercase(s: &str) -> (r: String)
    ensures
        r@ == lower_of(s@),
{
    s.to_lowercase()
}

/// The plan a table-creation statement compiles to: where the table goes,
/// what engine backs it, its cluster keys, and whether rows are to be
/// filled from a select source.
pub struct CreateTablePlanV2 {
    pub tenant: String,
    pub catalog: String,
    pub database: String,
    pub table: String,
    pub engine: String,
    pub cluster_keys: Vec<String>,
    pub as_select: bool,
}

/// A table engine the catalog offers: its name and whether it supports
/// cluster keys.
pub struct StorageDescription {
    pub engine_name: String,
    pub support_cluster_key: bool,
}

/// What a validated plan goes on to do.
#[derive(Debug)]
pub enum CreateTableAction {
    CreateTable,
    CreateTableAsSelect,
}

/// The index of the first engine whose name equals the requested one,
/// case-insensitively, among the first `n`.
pub open spec fn first_engine_match(es: Seq<StorageDescription>, q: Seq<char>, n: int) -> Option<
    int,
>
    decreases n,
{
    if n <= 0 {
        None
    } else {
        match first_engine_match(es, q, n - 1) {
            Some(k) => Some(k),
            None => if lower_of(es[n - 1].engine_name@) == lower_of(q) {
                Some(n - 1)
            } else {
                None
            },
        }
    }
}

/// Whether the tenant's per-database table quota bars another table.
pub open spec fn quota_exceeded(max_tables_per_database: u64, existing: int) -> bool {
    max_tables_per_database != 0 && existing >= max_tables_per_database
}

/// Whether some existing table already carries the planned name.
pub open spec fn has_duplicate_name(tables: Seq<String>, name: Seq<char>) -> bool {
    exists|k: int| 0 <= k < tables.len() && tables[k]@ == name
}

/// Whether some schema field carries the given name.
pub open spec fn names_contain(fields: Seq<String>, name: Seq<char>) -> bool {
    exists|k: int| 0 <= k < fields.len() && fields[k]@ == name
}

/// The schema a creation-from-select inserts under: the select source's
/// fields that the created table's schema also has, in select order.
/// Fields the table lacks are implicitly dropped; the cast of mismatched
/// field types happens downstream, at insertion.
#[verifier::loop_isolation(false)]
pub fn select_insert_fields(table_fields: &Vec<String>, select_fields: &Vec<String>) -> (r: Vec<
    String,
>)
    ensures
        r@ == select_fields@.filter(
            |f: String| names_contain(table_fields@, f@),
        ),
{
    let ghost pred = |f: String| names_contain(table_fields@, f@);
    let mut out: Vec<String> = Vec::new();
    proof {
        reveal(Seq::filter);
        assert(select_fields@.take(0) =~= Seq::<String>::empty());
        assert(select_fields@.take(0).filter(pred) =~= Seq::<String>::empty());
    }
    let mut j: usize = 0;
    while j < select_fields.len()
        invariant
            0 <= j <= select_fields@.len(),
            out@ == select_fields@.take(j as int).filter(pred),
        decreases select_fields@.len() - j,
    {
        let mut member = false;
        let mut k: usize = 0;
        while k < table_fields.len()
            invariant
                0 <= k <= table_fields@.len(),
                member <==> (exists|m: int|
                    0 <= m < k && table_fields@[m]@ == select_fields@[j as int]@),
            decreases table_fields@.len() - k,
        {
            if table_fields[k].eq(&select_fields[j]) {
                member = true;
            }
            k = k + 1;
        }
        if member {
            out.push(select_fields[j].clone());
        }
        proof {
            reveal(Seq::filter);
            let taken = select_fields@.take(j + 1);
            assert(taken.drop_last() =~= select_fields@.take(j as int));
            assert(taken.last() == select_fields@[j as int]);
            assert(out@ =~= taken.filter(pred));
        }
        j = j + 1;
    }
    proof {
        assert(select_fields@.take(select_fields@.len() as int) =~= select_fields@);
    }
    out
}

/// The interpreter of a table-creation plan.
pub struct CreateTableInterpreterV2 {
    pub plan: CreateTablePlanV2,
}

impl CreateTableInterpreterV2 {
    /// Wraps a plan for execution; never fails.
    pub fn try_create(plan: CreateTablePlanV2) -> (r: Result<CreateTableInterpreterV2, ErrorCode>)
        ensures
            r matches Result::Ok(it) && it.plan == plan,
    {
        Ok(CreateTableInterpreterV2 { plan })
    }

    /// The interpreter's display name.
    pub fn name(&self) -> (r: &'static str)
        ensures
            r@ == "CreateTableInterpreterV2"@,
    {
        "CreateTableInterpreterV2"
    }

    /// The decision at the heart of execution. In order: a non-zero tenant
    /// quota already reached stops creation; a known engine (matched
    /// case-insensitively) that does not support cluster keys rejects a
    /// plan that has them; an unknown engine is an error unless the table
    /// name already exists (that duplicate is left for the catalog to
    /// report); otherwise creation proceeds, as a plain creation or as a
    /// creation filled from the select source.
    #[verifier::loop_isolation(false)]
    pub fn check_create_table(
        &self,
        max_tables_per_database: u64,
        existing_tables: &Vec<String>,
        engines: &Vec<StorageDescription>,
    ) -> (r: Result<CreateTableAction, ErrorCode>)
        ensures
            ({
                let quota = quota_exceeded(max_tables_per_database, existing_tables@.len() as int);
                let found = first_engine_match(engines@, self.plan.engine@, engines@.len() as int);
                let duplicate = has_duplicate_name(existing_tables@, self.plan.table@);
                match r {
                    Result::Ok(action) => {
                        &&& !quota
                        &&& match found {
                            Some(k) => self.plan.cluster_keys@.len() == 0 || engines@[k].support_cluster_key,
                            None => duplicate,
                        }
                        &&& action == (if self.plan.as_select {
                            CreateTableAction::CreateTableAsSelect
                        } else {
                            CreateTableAction::CreateTable
                        })
                    },
                    Result::Err(e) => {
                        if quota {
                            e.spec_kind() == ErrorKind::TenantQuotaExceeded
                        } else {
                            match found {
                                Some(k) => self.plan.cluster_keys@.len() > 0
                                    && !engines@[k].support_cluster_key && e.spec_kind()
                                    == ErrorKind::UnsupportedEngineParams,
                                None => !duplicate && e.spec_kind() == ErrorKind::UnknownTableEngine,
                            }
                        }
                    },
                }
            }),
    {
        if max_tables_per_database != 0 && existing_tables.len() as u64 >= max_tables_per_database {
            return Err(
                ErrorCode::create(
                    ErrorKind::TenantQuotaExceeded,
                    String::from_str("max tables per database quota exceeded"),
                ),
            );
        }
        let mut name_not_duplicate = true;
        let mut k: usize = 0;
        while k < existing_tables.len()
            invariant
                0 <= k <= existing_tables@.len(),
                name_not_duplicate <==> !(exists|m: int|
                    0 <= m < k && existing_tables@[m]@ == self.plan.table@),
            decreases existing_tables@.len() - k,
        {
            if existing_tables[k].eq(&self.plan.table) {
                name_not_duplicate = false;
            }
            k = k + 1;
        }

        let wanted = to_lowercase(self.plan.engine.as_str());
        let mut found: Option<usize> = None;
        let mut j: usize = 0;
        while j < engines.len()
            invariant
                0 <= j <= engines@.len(),
                match found {
                    Some(f) => f < j && first_engine_match(engines@, self.plan.engine@, j as int)
                        == Some(f as int),
                    None => first_engine_match(engines@, self.plan.engine@, j as int) is None,
                },
                wanted@ == lower_of(self.plan.engine@),
            decreases engines@.len() - j,
        {
            if found.is_none() {
                let candidate = to_lowercase(engines[j].engine_name.as_str());
                if candidate.eq(&wanted) {
                    found = Some(j);
                }
            }
            j = j + 1;
        }

        match found {
            Option::Some(f) => {
                if engines[f].support_cluster_key == false && self.plan.cluster_keys.len() > 0 {
                    return Err(
                        ErrorCode::create(
                            ErrorKind::UnsupportedEngineParams,
                            String::from_str("unsupported cluster key for this engine"),
                        ),
                    );
                }
            },
            Option::None => {
                if name_not_duplicate {
                    return Err(
                        ErrorCode::create(
                            ErrorKind::UnknownTableEngine,
                            String::from_str("unknown table engine"),
                        ),
                    );
                }
            },
        }

        if self.plan.as_select {
            Ok(CreateTableAction::CreateTableAsSelect)
        } else {
            Ok(CreateTableAction::CreateTable)
        }
    }
}

} // verus!
