//! User records and the text of the query that fetches them by badge.

use vstd::prelude::*;
use vstd::string::StringExecFns;
use crate::text::{decimal, push_decimal};

verus! {

/// One user as the users table holds it.
#[derive(Clone, Debug, PartialEq, Eq)]
pub struct UserInfo {
    pub badge: Option<String>,
    pub name: Option<String>,
}

/// The placeholders of `count` bound values: `$1,$2,` and so on up to
/// `$count`, with commas between them.
pub open spec fn placeholders(count: nat) -> Seq<char>
    decreases count,
{
    if count == 0 {
        Seq::<char>::empty()
    } else if count == 1 {
        "$"@ + decimal(1)
    } else {
        placeholders((count - 1) as nat) + ","@ + "$"@ + decimal(count)
    }
}

/// The query that selects the users whose badge is one of `count` bound
/// values.
pub open spec fn user_query_spec(count: nat) -> Seq<char> {
    "select * from tb_cmdb_users where badge in ("@ + placeholders(count) + ")"@
}

/// The text of the query for the users with the badges given; each badge is
/// bound to the placeholder of its position. At least one badge is needed.
pub fn user_query(badges: &Vec<String>) -> (sql: String)
    requires
        badges.len() >= 1,
    ensures
        sql@ == user_query_spec(badges.len() as nat),
{
    let count = badges.len();
    let mut sql = String::from_str("select * from tb_cmdb_users where badge in (");
    sql.append("$");
    push_decimal(&mut sql, 1);
    let ghost head = "select * from tb_cmdb_users where badge in ("@;
    assert(sql@ =~= head + placeholders(1));
    let mut i: usize = 1;
    while i < count
        invariant
            1 <= i <= count,
            head == "select * from tb_cmdb_users where badge in ("@,
            sql@ == head + placeholders(i as nat),
        decreases count - i,
    {
        i = i + 1;
        let ghost before = sql@;
        sql.append(",");
        sql.append("$");
        push_decimal(&mut sql, i as u64);
        assert(sql@ =~= head + placeholders(i as nat)) by {
            assert(sql@ =~= before + ","@ + "$"@ + decimal(i as nat));
        }
    }
    sql.append(")");
    assert(sql@ =~= user_query_spec(count as nat));
    sql
}

/// The text of the query for the users with the badges given, where there
/// is any badge; without one no query can be written.
pub fn try_user_query(badges: &Vec<String>) -> (sql: Option<String>)
    ensures
        badges.len() == 0 ==> sql is None,
        badges.len() >= 1 ==> sql is Some && sql->0@ == user_query_spec(badges.len() as nat),
{
    if badges.len() == 0 {
        None
    } else {
        Some(user_query(badges))
    }
}

} // verus!
