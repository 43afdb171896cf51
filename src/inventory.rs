//! Inventory queries: a builder for osquery SQL text, the predefined
//! queries, and reading the table name out of a query.

use vstd::prelude::*;
use crate::text::{chars_of, find_from, occurs_at, is_blank, is_blank_char};

pub mod query;
pub mod types;

verus! {

/// What `str::to_lowercase` makes of a text.
pub uninterp spec fn lowercase_of(s: Seq<char>) -> Seq<char>;

/// Relies on `str::to_lowercase` of std: the result depends on the text
/// alone.
#[verifier::external_body]
pub(crate) fn to_lowercase(s: &str) -> (r: String)
    ensures
        r@ == lowercase_of(s@),
{
    s.to_lowercase()
}

/// The first index at or after `i` holding a blank or `;`, or the length.
pub open spec fn name_end(s: Seq<char>, i: int) -> int
    decreases s.len() - i,
{
    if 0 <= i < s.len() && !is_blank(s[i]) && s[i] != ';' {
        name_end(s, i + 1)
    } else {
        i
    }
}

/// The first occurrence of `from ` in `lower`, if any.
pub open spec fn from_position(lower: Seq<char>) -> Option<int> {
    if exists|i: int| occurs_at(lower, "from "@, i) {
        Some(choose|i: int| occurs_at(lower, "from "@, i) && forall|j: int|
            0 <= j < i ==> !occurs_at(lower, "from "@, j))
    } else {
        None
    }
}

/// The table name of `sql`, given `lower`, its lowercase form: the word
/// after the first `from ` of `lower`, read from `sql` at the same place
/// and ending at a blank, a `;` or the end.
pub open spec fn table_name(sql: Seq<char>, lower: Seq<char>) -> Option<Seq<char>> {
    match from_position(lower) {
        None => None,
        Some(p) => if p + 5 <= sql.len() {
            Some(sql.subrange(p + 5, name_end(sql, p + 5)))
        } else {
            None
        },
    }
}

/// The table name of `sql`, given `lower`, its lowercase form.
pub fn table_name_in(sql: &str, lower: &str) -> (r: Option<String>)
    ensures
        match table_name(sql@, lower@) {
            None => r is None,
            Some(t) => r is Some && r->Some_0@ == t,
        },
{
    let lv = chars_of(lower);
    let sv = chars_of(sql);
    proof {
        reveal_strlit("from ");
    }
    let key = chars_of("from ");
    match find_from(&lv, &key, 0) {
        None => {
            proof {
                assert(!exists|i: int| occurs_at(lower@, "from "@, i));
            }
            None
        },
        Some(p) => {
            proof {
                assert(occurs_at(lower@, "from "@, p as int));
                let c = choose|i: int| occurs_at(lower@, "from "@, i) && forall|j: int|
                    0 <= j < i ==> !occurs_at(lower@, "from "@, j);
                assert(c == p) by {
                    if c < p {
                        assert(!occurs_at(lower@, "from "@, c));
                    } else if c > p {
                        assert(!occurs_at(lower@, "from "@, p as int));
                    }
                }
            }
            if p > sv.len() || sv.len() - p < 5 {
                return None;
            }
            let start = p + 5;
            let mut e = start;
            while e < sv.len() && !is_blank_char(sv[e]) && sv[e] != ';'
                invariant
                    start <= e <= sv@.len(),
                    sv@ == sql@,
                    name_end(sql@, start as int) == name_end(sql@, e as int),
                decreases sv@.len() - e,
            {
                e = e + 1;
            }
            Some(String::from_str(sql.substring_char(start, e)))
        },
    }
}

/// The table that a query reads, taken after its first `FROM` (in any
/// letter case).
pub fn extract_table_name(sql: &str) -> (r: Option<String>)
    ensures
        match table_name(sql@, lowercase_of(sql@)) {
            None => r is None,
            Some(t) => r is Some && r->Some_0@ == t,
        },
{
    let lower = to_lowercase(sql);
    table_name_in(sql, lower.as_str())
}

} // verus!
