//! Bound statement parameters and `SET`-clause fragments.
//!
//! The partial-update builder never interpolates values into statement text:
//! it emits `"column = ?"` fragments and a matching ordered list of bound
//! parameters.

use vstd::prelude::*;

verus! {

/// A positional bound parameter for a store statement.
#[derive(Debug, Clone)]
pub enum SqlParam {
    Text(String),
    Int(i64),
}

/// The spec-level value of a bound parameter.
pub enum SqlParamV {
    Text(Seq<char>),
    Int(i64),
}

impl View for SqlParam {
    type V = SqlParamV;

    open spec fn view(&self) -> SqlParamV {
        match self {
            SqlParam::Text(s) => SqlParamV::Text(s@),
            SqlParam::Int(i) => SqlParamV::Int(*i),
        }
    }
}

/// The spec-level values of a parameter list.
pub open spec fn params_view(ps: Seq<SqlParam>) -> Seq<SqlParamV> {
    ps.map_values(|q: SqlParam| q@)
}

/// Joins `"column = ?"` fragments with `", "` into one SET clause.
pub open spec fn join_fragments(fs: Seq<Seq<char>>) -> Seq<char>
    decreases fs.len(),
{
    if fs.len() == 0 {
        Seq::empty()
    } else if fs.len() == 1 {
        fs[0]
    } else {
        fs[0] + ", "@ + join_fragments(fs.drop_first())
    }
}

} // verus!
