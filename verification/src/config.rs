//! The configuration step of an import run.
//!
//! Before any write, the engine resolves the default baseline id: the config
//! table must hold a row whose key is `baseline_id_default`, that row must
//! carry a value, and the value must parse as a signed 64-bit integer id.
//! Each failure mode is a distinct error and aborts the run before any write.

use vstd::prelude::*;
use vstd::string::StringExecFns;
use crate::error::ImportError;
use crate::models::{Config, ConfigView};
use crate::parse::{parse_i64, spec_parse_i64};

verus! {

/// The first config row whose key is `key`, if any.
pub open spec fn spec_find_config(rows: Seq<ConfigView>, key: Seq<char>) -> Option<ConfigView>
    decreases rows.len(),
{
    if rows.len() == 0 {
        None
    } else if rows[0].config_key == key {
        Some(rows[0])
    } else {
        spec_find_config(rows.drop_first(), key)
    }
}

/// What the config step resolves from the config table: the value of the
/// `baseline_id_default` row read as an integer id, or the exact error.
pub open spec fn spec_default_baseline_id(rows: Seq<ConfigView>) -> Result<i64, ImportError> {
    match spec_find_config(rows, "baseline_id_default"@) {
        None => Err(ImportError::ConfigKeyNotFound),
        Some(row) => match row.config_value {
            None => Err(ImportError::ConfigValueMissing),
            Some(v) => match spec_parse_i64(v) {
                None => Err(ImportError::ConfigValueInvalid),
                Some(id) => Ok(id),
            },
        },
    }
}

/// Find the index of the first config row whose key is `key`.
pub fn lookup_config(rows: &Vec<Config>, key: &String) -> (r: Option<usize>)
    ensures
        match r {
            Some(i) => {
                &&& i < rows@.len()
                &&& spec_find_config(rows.deep_view(), key@) == Some(rows@[i as int]@)
            },
            None => spec_find_config(rows.deep_view(), key@) is None,
        },
{
    let n = rows.len();
    let mut i: usize = 0;
    proof {
        assert(rows.deep_view().skip(0) =~= rows.deep_view());
    }
    while i < n
        invariant
            i <= n,
            n == rows@.len(),
            spec_find_config(rows.deep_view(), key@) == spec_find_config(
                rows.deep_view().skip(i as int),
                key@,
            ),
        decreases n - i,
    {
        proof {
            assert(rows.deep_view().skip(i as int)[0] == rows@[i as int]@);
        }
        if rows[i].config_key == *key {
            return Some(i);
        }
        proof {
            assert(rows.deep_view().skip(i as int).drop_first() =~= rows.deep_view().skip(
                i as int + 1,
            ));
        }
        i = i + 1;
    }
    proof {
        assert(rows.deep_view().skip(n as int) =~= Seq::<ConfigView>::empty());
    }
    None
}

/// Resolve the default baseline id that parameterizes an import run.
pub fn resolve_default_baseline_id(rows: &Vec<Config>) -> (r: Result<i64, ImportError>)
    ensures
        r == spec_default_baseline_id(rows.deep_view()),
{
    let key: String = String::from_str("baseline_id_default");
    match lookup_config(rows, &key) {
        None => Err(ImportError::ConfigKeyNotFound),
        Some(i) => match &rows[i].config_value {
            None => Err(ImportError::ConfigValueMissing),
            Some(v) => match parse_i64(v.as_str()) {
                None => Err(ImportError::ConfigValueInvalid),
                Some(id) => Ok(id),
            },
        },
    }
}

/// Resolving the default baseline id twice against unchanged storage yields
/// the same result: the outcome is a function of the config rows alone.
pub proof fn lemma_config_lookup_idempotent(
    rows: Seq<ConfigView>,
    r1: Result<i64, ImportError>,
    r2: Result<i64, ImportError>,
)
    requires
        r1 == spec_default_baseline_id(rows),
        r2 == spec_default_baseline_id(rows),
    ensures
        r1 == r2,
{
}

} // verus!
