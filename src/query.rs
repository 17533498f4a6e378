//! The text of the filtered transaction listing, with numbered parameters.
//!
//! The caller's id is always parameter 1; each filter present takes the next
//! number, in the order account, direction, status; the page limit and offset
//! come last.
use vstd::prelude::*;
use crate::models::TransactionPaginationParams;

verus! {

/// The part of the listing that every query shares.
pub open spec fn list_base() -> Seq<char> {
    "SELECT t.id, t.account_id, t.amount, t.type, t.status, t.description, t.created_at, t.updated_at FROM transactions t JOIN accounts a ON t.account_id = a.id WHERE a.user_id = $1"@
}

/// The decimal digit of `n`, for `n < 10`.
pub open spec fn digit(n: nat) -> char {
    (('0' as u32) + n) as char
}

/// The parameter marker `$n`, for `n < 10`.
pub open spec fn marker(n: nat) -> Seq<char> {
    seq!['$', digit(n)]
}

/// The condition for one filter, numbered `n`, when the filter is present.
pub open spec fn filter_clause(present: bool, column: Seq<char>, n: nat) -> Seq<char> {
    if present {
        " AND t."@ + column + " = "@ + marker(n)
    } else {
        Seq::empty()
    }
}

/// The full listing query for the filters that are present.
pub open spec fn list_query_text(by_account: bool, by_type: bool, by_status: bool) -> Seq<char> {
    let n1: nat = 2;
    let n2: nat = if by_account { n1 + 1 } else { n1 };
    let n3: nat = if by_type { n2 + 1 } else { n2 };
    let n4: nat = if by_status { n3 + 1 } else { n3 };
    list_base() + filter_clause(by_account, "account_id"@, n1) + filter_clause(by_type, "type"@, n2)
        + filter_clause(by_status, "status"@, n3) + " ORDER BY t.created_at DESC LIMIT "@ + marker(n4)
        + " OFFSET "@ + marker(n4 + 1)
}

fn marker_text(n: u8) -> (r: &'static str)
    requires
        2 <= n <= 6,
    ensures
        r@ == marker(n as nat),
{
    proof {
        reveal_strlit("$2");
        reveal_strlit("$3");
        reveal_strlit("$4");
        reveal_strlit("$5");
        reveal_strlit("$6");
    }
    if n == 2 {
        let r = "$2";
        proof { assert(r@ =~= marker(2)); }
        r
    } else if n == 3 {
        let r = "$3";
        proof { assert(r@ =~= marker(3)); }
        r
    } else if n == 4 {
        let r = "$4";
        proof { assert(r@ =~= marker(4)); }
        r
    } else if n == 5 {
        let r = "$5";
        proof { assert(r@ =~= marker(5)); }
        r
    } else {
        let r = "$6";
        proof { assert(r@ =~= marker(6)); }
        r
    }
}

fn push_filter(q: &mut String, present: bool, column: &str, n: u8) -> (next: u8)
    requires
        2 <= n <= 4,
    ensures
        final(q)@ == old(q)@ + filter_clause(present, column@, n as nat),
        next == (if present { n + 1 } else { n as int }),
{
    if present {
        q.append(" AND t.");
        q.append(column);
        q.append(" = ");
        q.append(marker_text(n));
        proof {
            assert(final(q)@ =~= old(q)@ + filter_clause(present, column@, n as nat));
        }
        n + 1
    } else {
        proof {
            assert(q@ =~= old(q)@ + filter_clause(present, column@, n as nat));
        }
        n
    }
}

/// The listing query for the filters that `params` sets.
pub fn transaction_list_query(params: &TransactionPaginationParams) -> (r: String)
    ensures
        r@ == list_query_text(
            params.account_id is Some,
            params.transaction_type is Some,
            params.status is Some,
        ),
{
    let mut q = "SELECT t.id, t.account_id, t.amount, t.type, t.status, t.description, t.created_at, t.updated_at FROM transactions t JOIN accounts a ON t.account_id = a.id WHERE a.user_id = $1".to_owned();
    let n: u8 = 2;
    let n = push_filter(&mut q, params.account_id.is_some(), "account_id", n);
    let n = push_filter(&mut q, params.transaction_type.is_some(), "type", n);
    let n = push_filter(&mut q, params.status.is_some(), "status", n);
    q.append(" ORDER BY t.created_at DESC LIMIT ");
    q.append(marker_text(n));
    q.append(" OFFSET ");
    q.append(marker_text(n + 1));
    proof {
        assert(q@ =~= list_query_text(
            params.account_id is Some,
            params.transaction_type is Some,
            params.status is Some,
        ));
    }
    q
}

} // verus!
