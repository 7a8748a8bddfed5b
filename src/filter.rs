//! Filter and update expressions rendered to SQL with numbered placeholders.
//!
//! A value never enters the text: each leaf emits its placeholder and pushes
//! its value in one step, so the n-th placeholder always refers to the n-th
//! entry of the parameter list.
use vstd::prelude::*;
use crate::text::{
    placeholder, placeholder_list, quoted, push_placeholder, push_placeholder_list, push_quoted,
};

verus! {

/// A value bound to a placeholder.
#[derive(Debug, Clone, PartialEq)]
pub enum Value {
    Null,
    Bool(bool),
    Int(i64),
    Text(String),
    Bytes(Vec<u8>),
    /// Seconds since the unix epoch.
    Timestamp(i64),
}

/// A comparison between a column and a value.
#[derive(Debug, Clone, Copy, PartialEq, Eq, Structural)]
pub enum Op {
    Eq,
    Ne,
    Lt,
    Le,
    Gt,
    Ge,
    Like,
}

/// A predicate tree over columns.
#[derive(Debug)]
pub enum Expr {
    /// `column op value`; a null value compares by `IS [NOT] NULL`.
    Cmp(String, Op, Value),
    /// `column IS NULL`, or `IS NOT NULL` when the flag is set.
    IsNull(String, bool),
    /// `column IN (values)`; an empty list never matches.
    In(String, Vec<Value>),
    And(Box<Expr>, Box<Expr>),
    Or(Box<Expr>, Box<Expr>),
}

pub open spec fn op_text(op: Op) -> Seq<char> {
    match op {
        Op::Eq => " = "@,
        Op::Ne => " != "@,
        Op::Lt => " < "@,
        Op::Le => " <= "@,
        Op::Gt => " > "@,
        Op::Ge => " >= "@,
        Op::Like => " LIKE "@,
    }
}

/// The values that an expression binds, leaf by leaf from left to right.
pub open spec fn leaves(e: Expr) -> Seq<Value>
    decreases e,
{
    match e {
        Expr::Cmp(_, _, v) => if v is Null {
            Seq::empty()
        } else {
            seq![v]
        },
        Expr::IsNull(_, _) => Seq::empty(),
        Expr::In(_, vs) => vs@,
        Expr::And(a, b) => leaves(*a) + leaves(*b),
        Expr::Or(a, b) => leaves(*a) + leaves(*b),
    }
}

/// The text of a comparison with a null value.
pub open spec fn null_cmp_text(col: Seq<char>, op: Op) -> Seq<char> {
    match op {
        Op::Eq => quoted(col) + " IS NULL"@,
        Op::Ne => quoted(col) + " IS NOT NULL"@,
        _ => "FALSE"@,
    }
}

/// The text of an expression whose first placeholder is `$(k+1)`.
pub open spec fn expr_text(e: Expr, k: nat) -> Seq<char>
    decreases e,
{
    match e {
        Expr::Cmp(c, op, v) => if v is Null {
            null_cmp_text(c@, op)
        } else {
            quoted(c@) + op_text(op) + placeholder(k + 1)
        },
        Expr::IsNull(c, neg) => if neg {
            quoted(c@) + " IS NOT NULL"@
        } else {
            quoted(c@) + " IS NULL"@
        },
        Expr::In(c, vs) => if vs@.len() == 0 {
            "FALSE"@
        } else {
            quoted(c@) + " IN ("@ + placeholder_list(k, vs@.len()) + ")"@
        },
        Expr::And(a, b) => "("@ + expr_text(*a, k) + " AND "@ + expr_text(
            *b,
            k + leaves(*a).len(),
        ) + ")"@,
        Expr::Or(a, b) => "("@ + expr_text(*a, k) + " OR "@ + expr_text(
            *b,
            k + leaves(*a).len(),
        ) + ")"@,
    }
}

/// The numbers of the placeholders in an expression's text, in the order in
/// which they stand there.
pub open spec fn slots(e: Expr, k: nat) -> Seq<nat>
    decreases e,
{
    match e {
        Expr::Cmp(_, _, v) => if v is Null {
            Seq::empty()
        } else {
            seq![k + 1]
        },
        Expr::IsNull(_, _) => Seq::empty(),
        Expr::In(_, vs) => Seq::new(vs@.len(), |i: int| (k + i + 1) as nat),
        Expr::And(a, b) => slots(*a, k) + slots(*b, k + leaves(*a).len()),
        Expr::Or(a, b) => slots(*a, k) + slots(*b, k + leaves(*a).len()),
    }
}

/// The WHERE clause of an optional expression: empty when there is none.
pub open spec fn where_text(e: Option<Expr>, k: nat) -> Seq<char> {
    match e {
        None => Seq::empty(),
        Some(e) => " WHERE "@ + expr_text(e, k),
    }
}

pub open spec fn where_params(e: Option<Expr>) -> Seq<Value> {
    match e {
        None => Seq::empty(),
        Some(e) => leaves(e),
    }
}

/// `"col" = $(k+1), "col" = $(k+2), ...` over the fields in order.
pub open spec fn set_text(fields: Seq<(String, Value)>, k: nat) -> Seq<char>
    decreases fields.len(),
{
    if fields.len() == 0 {
        Seq::empty()
    } else if fields.len() == 1 {
        quoted(fields[0].0@) + " = "@ + placeholder(k + 1)
    } else {
        set_text(fields.drop_last(), k) + ", "@ + quoted(fields.last().0@) + " = "@ + placeholder(
            k + fields.len(),
        )
    }
}

pub open spec fn set_params(fields: Seq<(String, Value)>) -> Seq<Value> {
    fields.map_values(|f: (String, Value)| f.1)
}

/// Appends the text of `e`, numbered after the parameters already in
/// `params`, and moves its values to the end of `params`.
pub fn push_expr(e: Expr, sql: &mut String, params: &mut Vec<Value>)
    ensures
        final(sql)@ == old(sql)@ + expr_text(e, old(params)@.len()),
        final(params)@ == old(params)@ + leaves(e),
    decreases e,
{
    let ghost e0 = e;
    let ghost k = params@.len();
    match e {
        Expr::Cmp(c, op, v) => {
            if let Value::Null = v {
                push_null_cmp(c.as_str(), op, sql);
                proof {
                    assert(params@ =~= old(params)@ + leaves(e0));
                }
            } else {
                push_quoted(sql, c.as_str());
                push_op(op, sql);
                params.push(v);
                push_placeholder(sql, params.len() as u64);
                proof {
                    assert(sql@ =~= old(sql)@ + expr_text(e0, k));
                    assert(params@ =~= old(params)@ + leaves(e0));
                }
            }
        },
        Expr::IsNull(c, neg) => {
            push_quoted(sql, c.as_str());
            if neg {
                sql.append(" IS NOT NULL");
            } else {
                sql.append(" IS NULL");
            }
            proof {
                assert(sql@ =~= old(sql)@ + expr_text(e0, k));
                assert(params@ =~= old(params)@ + leaves(e0));
            }
        },
        Expr::In(c, vs) => {
            let mut vs = vs;
            let m = vs.len();
            if m == 0 {
                sql.append("FALSE");
                proof {
                    assert(params@ =~= old(params)@ + leaves(e0));
                }
            } else {
                params.append(&mut vs);
                let first = (params.len() - m) as u64;
                push_quoted(sql, c.as_str());
                sql.append(" IN (");
                push_placeholder_list(sql, first, m as u64);
                sql.append(")");
                proof {
                    assert(sql@ =~= old(sql)@ + expr_text(e0, k));
                    assert(params@ =~= old(params)@ + leaves(e0));
                }
            }
        },
        Expr::And(a, b) => {
            sql.append("(");
            push_expr(*a, sql, params);
            sql.append(" AND ");
            push_expr(*b, sql, params);
            sql.append(")");
            proof {
                assert(sql@ =~= old(sql)@ + expr_text(e0, k));
                assert(params@ =~= old(params)@ + leaves(e0));
            }
        },
        Expr::Or(a, b) => {
            sql.append("(");
            push_expr(*a, sql, params);
            sql.append(" OR ");
            push_expr(*b, sql, params);
            sql.append(")");
            proof {
                assert(sql@ =~= old(sql)@ + expr_text(e0, k));
                assert(params@ =~= old(params)@ + leaves(e0));
            }
        },
    }
}

fn push_op(op: Op, sql: &mut String)
    ensures
        final(sql)@ == old(sql)@ + op_text(op),
{
    match op {
        Op::Eq => sql.append(" = "),
        Op::Ne => sql.append(" != "),
        Op::Lt => sql.append(" < "),
        Op::Le => sql.append(" <= "),
        Op::Gt => sql.append(" > "),
        Op::Ge => sql.append(" >= "),
        Op::Like => sql.append(" LIKE "),
    }
}

fn push_null_cmp(col: &str, op: Op, sql: &mut String)
    ensures
        final(sql)@ == old(sql)@ + null_cmp_text(col@, op),
{
    match op {
        Op::Eq => {
            push_quoted(sql, col);
            sql.append(" IS NULL");
        },
        Op::Ne => {
            push_quoted(sql, col);
            sql.append(" IS NOT NULL");
        },
        _ => sql.append("FALSE"),
    }
    proof {
        assert(final(sql)@ =~= old(sql)@ + null_cmp_text(col@, op));
    }
}

/// Renders an optional expression as a WHERE clause: `" WHERE <expr>"`, or
/// nothing when there is no expression. Placeholders start at `$1`.
pub fn render_where(e: Option<Expr>) -> (r: (String, Vec<Value>))
    ensures
        r.0@ == where_text(e, 0),
        r.1@ == where_params(e),
{
    let mut sql = String::new();
    let mut params: Vec<Value> = Vec::new();
    push_where(e, &mut sql, &mut params);
    proof {
        assert(params@ =~= where_params(e));
    }
    (sql, params)
}

/// Appends the WHERE clause of `e`, numbered after the parameters already in
/// `params`, and moves its values to the end of `params`.
pub fn push_where(e: Option<Expr>, sql: &mut String, params: &mut Vec<Value>)
    ensures
        final(sql)@ == old(sql)@ + where_text(e, old(params)@.len()),
        final(params)@ == old(params)@ + where_params(e),
{
    match e {
        None => {
            proof {
                assert(sql@ =~= old(sql)@ + where_text(None, old(params)@.len()));
                assert(params@ =~= old(params)@ + where_params(None));
            }
        },
        Some(e) => {
            let ghost e0 = e;
            sql.append(" WHERE ");
            push_expr(e, sql, params);
            proof {
                assert(sql@ =~= old(sql)@ + where_text(Some(e0), old(params)@.len()));
            }
        },
    }
}

/// Renders `"col1" = $(k+1), "col2" = $(k+2), ...` over the fields in the
/// order given, and their values in the same order.
pub fn render_set(fields: Vec<(String, Value)>, k: u64) -> (r: (String, Vec<Value>))
    requires
        k + fields@.len() <= u64::MAX,
    ensures
        r.0@ == set_text(fields@, k as nat),
        r.1@ == set_params(fields@),
{
    let ghost all = fields@;
    let mut fields = fields;
    let mut sql = String::new();
    let mut params: Vec<Value> = Vec::new();
    let n = fields.len();
    let mut i: usize = 0;
    while i < n
        invariant
            n == all.len(),
            i <= n,
            fields@ == all.skip(i as int),
            k + n <= u64::MAX,
            sql@ == set_text(all.take(i as int), k as nat),
            params@ == set_params(all.take(i as int)),
        decreases n - i,
    {
        let (name, value) = fields.remove(0);
        proof {
            assert(name == all[i as int].0 && value == all[i as int].1);
            assert(all.take(i + 1).drop_last() =~= all.take(i as int));
            assert(fields@ =~= all.skip(i + 1));
        }
        if i > 0 {
            sql.append(", ");
        }
        push_quoted(&mut sql, name.as_str());
        sql.append(" = ");
        push_placeholder(&mut sql, k + i as u64 + 1);
        params.push(value);
        i = i + 1;
        proof {
            assert(sql@ =~= set_text(all.take(i as int), k as nat));
            assert(params@ =~= set_params(all.take(i as int)));
        }
    }
    proof {
        assert(all.take(n as int) =~= all);
    }
    (sql, params)
}

/// With no expression the WHERE clause and its parameter list are empty, so
/// appending the clause to a query leaves the query as it was.
pub proof fn lemma_empty_where(base: Seq<char>, k: nat)
    ensures
        where_text(None, k).len() == 0,
        where_params(None).len() == 0,
        base + where_text(None, k) == base,
{
    assert(base + where_text(None, k) =~= base);
}

/// Placeholders with the numbers `nums`, in that order, joined by ", ".
pub open spec fn placeholders_of(nums: Seq<nat>) -> Seq<char>
    decreases nums.len(),
{
    if nums.len() == 0 {
        Seq::empty()
    } else if nums.len() == 1 {
        placeholder(nums[0])
    } else {
        placeholders_of(nums.drop_last()) + ", "@ + placeholder(nums.last())
    }
}

/// The text of an expression whose placeholders, from left to right, carry
/// the numbers `nums`.
pub open spec fn text_with(e: Expr, nums: Seq<nat>) -> Seq<char>
    decreases e,
{
    match e {
        Expr::Cmp(c, op, v) => if v is Null {
            null_cmp_text(c@, op)
        } else {
            quoted(c@) + op_text(op) + placeholder(nums[0])
        },
        Expr::IsNull(c, neg) => if neg {
            quoted(c@) + " IS NOT NULL"@
        } else {
            quoted(c@) + " IS NULL"@
        },
        Expr::In(c, vs) => if vs@.len() == 0 {
            "FALSE"@
        } else {
            quoted(c@) + " IN ("@ + placeholders_of(nums.take(vs@.len() as int)) + ")"@
        },
        Expr::And(a, b) => "("@ + text_with(*a, nums.take(leaves(*a).len() as int)) + " AND "@
            + text_with(*b, nums.skip(leaves(*a).len() as int)) + ")"@,
        Expr::Or(a, b) => "("@ + text_with(*a, nums.take(leaves(*a).len() as int)) + " OR "@
            + text_with(*b, nums.skip(leaves(*a).len() as int)) + ")"@,
    }
}

proof fn lemma_placeholder_list_numbers(k: nat, m: nat)
    ensures
        placeholder_list(k, m) == placeholders_of(Seq::new(m, |i: int| (k + i + 1) as nat)),
    decreases m,
{
    let nums = Seq::new(m, |i: int| (k + i + 1) as nat);
    if m > 1 {
        let prev = Seq::new((m - 1) as nat, |i: int| (k + i + 1) as nat);
        lemma_placeholder_list_numbers(k, (m - 1) as nat);
        assert(nums.drop_last() =~= prev);
    }
}

/// A rendered expression numbers its placeholders by position: the text is
/// the expression with the placeholders `$(k+1)`, `$(k+2)`, ... from left to
/// right, one for each bound value, so the n-th placeholder refers to the
/// n-th value of the parameter list.
pub proof fn lemma_placeholders_in_order(e: Expr, k: nat)
    ensures
        slots(e, k).len() == leaves(e).len(),
        forall|i: int| 0 <= i < slots(e, k).len() ==> slots(e, k)[i] == k + i + 1,
        expr_text(e, k) == text_with(e, slots(e, k)),
    decreases e,
{
    match e {
        Expr::And(a, b) => {
            let la = leaves(*a).len();
            lemma_placeholders_in_order(*a, k);
            lemma_placeholders_in_order(*b, k + la);
            assert(slots(e, k).take(la as int) =~= slots(*a, k));
            assert(slots(e, k).skip(la as int) =~= slots(*b, k + la));
        },
        Expr::Or(a, b) => {
            let la = leaves(*a).len();
            lemma_placeholders_in_order(*a, k);
            lemma_placeholders_in_order(*b, k + la);
            assert(slots(e, k).take(la as int) =~= slots(*a, k));
            assert(slots(e, k).skip(la as int) =~= slots(*b, k + la));
        },
        Expr::In(c, vs) => {
            lemma_placeholder_list_numbers(k, vs@.len());
            assert(slots(e, k).take(vs@.len() as int) =~= slots(e, k));
        },
        _ => {},
    }
}

} // verus!
