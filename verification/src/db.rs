//! Database status reporting.
use vstd::prelude::*;
use crate::text::{decimal, join_with, push_decimal};

verus! {

/// The status line shown for a connected database: the number of tables and
/// their names, comma-separated, in the order given.
pub open spec fn status_line(names: Seq<Seq<char>>) -> Seq<char> {
    "connected ("@ + decimal(names.len()) + " tables: "@ + join_with(names, ", "@) + ")"@
}

/// The status line for a database whose tables are `table_names`, e.g.
/// `connected (2 tables: messages, tasks)`.
pub fn db_status_message(table_names: &Vec<String>) -> (r: String)
    ensures
        r@ == status_line(table_names.deep_view()),
{
    let ghost names = table_names.deep_view();
    let mut out = String::new();
    out.append("connected (");
    push_decimal(&mut out, table_names.len() as u64);
    out.append(" tables: ");
    let ghost prefix = out@;
    let n = table_names.len();
    let mut i: usize = 0;
    while i < n
        invariant
            n == table_names@.len(),
            names == table_names.deep_view(),
            i <= n,
            out@ == prefix + join_with(names.take(i as int), ", "@),
        decreases n - i,
    {
        if i > 0 {
            out.append(", ");
        }
        out.append(table_names[i].as_str());
        assert(names.take((i + 1) as int).drop_last() =~= names.take(i as int));
        assert(names[i as int] == table_names@[i as int]@);
        assert(out@ =~= prefix + join_with(names.take((i + 1) as int), ", "@));
        i = i + 1;
    }
    assert(names.take(n as int) =~= names);
    out.append(")");
    out
}

} // verus!
