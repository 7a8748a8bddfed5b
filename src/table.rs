//! The statements of a table: create, insert, select, count, update, delete.
use vstd::prelude::*;
use crate::filter::{push_where, render_set, set_params, set_text, where_params, where_text, Expr, Value};
use crate::schema::{create_text, Info};
use crate::text::{placeholder_list, push_placeholder_list, push_quoted, quoted, quoted_list};

verus! {

/// A table: its name and its columns.
#[derive(Debug, Clone)]
pub struct Table {
    pub name: String,
    pub info: Info,
}

/// How many rows a single-row query found, when it found more than one.
#[derive(Debug, Clone, Copy, PartialEq, Eq, Structural)]
pub struct CardinalityError {
    pub found: usize,
}

impl Table {
    pub open spec fn names(&self) -> Seq<Seq<char>> {
        self.info.names()
    }

    pub open spec fn select_text(&self) -> Seq<char> {
        "SELECT "@ + quoted_list(self.names()) + " FROM "@ + quoted(self.name@)
    }

    pub fn new(name: String, info: Info) -> (r: Table)
        ensures
            r.name@ == name@,
            r.info.columns@ == info.columns@,
    {
        Table { name, info }
    }

    pub fn name(&self) -> (r: &str)
        ensures
            r@ == self.name@,
    {
        self.name.as_str()
    }

    pub fn info(&self) -> (r: &Info)
        ensures
            r.columns@ == self.info.columns@,
    {
        &self.info
    }

    /// The DDL batch of the table and its indexes; each statement is guarded
    /// by `IF NOT EXISTS`, so running the batch again changes nothing.
    pub fn create_sql(&self) -> (r: String)
        ensures
            r@ == create_text(self.name@, self.info.columns@),
    {
        self.info.create_sql(self.name.as_str())
    }

    /// `INSERT INTO "t" ("a", "b") VALUES ($1, $2)`: one placeholder for each
    /// column, in column order.
    pub fn insert_sql(&self) -> (r: String)
        ensures
            r@ == "INSERT INTO "@ + quoted(self.name@) + " ("@ + quoted_list(self.names())
                + ") VALUES ("@ + placeholder_list(0, self.info.columns@.len()) + ")"@,
    {
        let mut s = String::new();
        s.append("INSERT INTO ");
        push_quoted(&mut s, self.name.as_str());
        s.append(" (");
        let cols = self.info.select_columns();
        s.append(cols.as_str());
        s.append(") VALUES (");
        push_placeholder_list(&mut s, 0, self.info.columns.len() as u64);
        s.append(")");
        proof {
            assert(s@ =~= "INSERT INTO "@ + quoted(self.name@) + " ("@ + quoted_list(self.names())
                + ") VALUES ("@ + placeholder_list(0, self.info.columns@.len()) + ")"@);
        }
        s
    }

    /// `SELECT <columns> FROM "t"` followed by the WHERE clause of `filter`.
    pub fn select_sql(&self, filter: Option<Expr>) -> (r: (String, Vec<Value>))
        ensures
            r.0@ == self.select_text() + where_text(filter, 0),
            r.1@ == where_params(filter),
    {
        let mut s = String::new();
        s.append("SELECT ");
        let cols = self.info.select_columns();
        s.append(cols.as_str());
        s.append(" FROM ");
        push_quoted(&mut s, self.name.as_str());
        let ghost head = s@;
        let mut params: Vec<Value> = Vec::new();
        push_where(filter, &mut s, &mut params);
        proof {
            assert(head =~= self.select_text());
            assert(params@ =~= where_params(filter));
        }
        (s, params)
    }

    /// `SELECT COUNT(*) FROM "t"` followed by the WHERE clause of `filter`.
    pub fn count_sql(&self, filter: Option<Expr>) -> (r: (String, Vec<Value>))
        ensures
            r.0@ == "SELECT COUNT(*) FROM "@ + quoted(self.name@) + where_text(filter, 0),
            r.1@ == where_params(filter),
    {
        let mut s = String::new();
        s.append("SELECT COUNT(*) FROM ");
        push_quoted(&mut s, self.name.as_str());
        let mut params: Vec<Value> = Vec::new();
        push_where(filter, &mut s, &mut params);
        proof {
            assert(params@ =~= where_params(filter));
        }
        (s, params)
    }

    /// `DELETE FROM "t"` followed by the WHERE clause of `filter`.
    pub fn delete_sql(&self, filter: Option<Expr>) -> (r: (String, Vec<Value>))
        ensures
            r.0@ == "DELETE FROM "@ + quoted(self.name@) + where_text(filter, 0),
            r.1@ == where_params(filter),
    {
        let mut s = String::new();
        s.append("DELETE FROM ");
        push_quoted(&mut s, self.name.as_str());
        let mut params: Vec<Value> = Vec::new();
        push_where(filter, &mut s, &mut params);
        proof {
            assert(params@ =~= where_params(filter));
        }
        (s, params)
    }

    /// `UPDATE "t" SET <fields>` followed by the WHERE clause of `filter`;
    /// the WHERE placeholders go on numbering after those of SET.
    pub fn update_sql(&self, fields: Vec<(String, Value)>, filter: Option<Expr>) -> (r: (
        String,
        Vec<Value>,
    ))
        ensures
            r.0@ == "UPDATE "@ + quoted(self.name@) + " SET "@ + set_text(fields@, 0) + where_text(
                filter,
                fields@.len(),
            ),
            r.1@ == set_params(fields@) + where_params(filter),
    {
        let ghost fs = fields@;
        let mut s = String::new();
        s.append("UPDATE ");
        push_quoted(&mut s, self.name.as_str());
        s.append(" SET ");
        let n = fields.len() as u64;
        assert(n == fs.len());
        let (set, mut params) = render_set(fields, 0);
        s.append(set.as_str());
        push_where(filter, &mut s, &mut params);
        proof {
            assert(set_params(fs).len() == fs.len());
        }
        (s, params)
    }
}

/// The outcome of a query that expects at most one row and found `rows`:
/// no row, the first one, or an error when there are several.
pub fn single_row(rows: usize) -> (r: Result<Option<usize>, CardinalityError>)
    ensures
        rows == 0 ==> r == Ok::<Option<usize>, CardinalityError>(None),
        rows == 1 ==> r == Ok::<Option<usize>, CardinalityError>(Some(0usize)),
        rows > 1 ==> r == Err::<Option<usize>, CardinalityError>(CardinalityError { found: rows }),
{
    if rows == 0 {
        Ok(None)
    } else if rows == 1 {
        Ok(Some(0))
    } else {
        Err(CardinalityError { found: rows })
    }
}

/// The count that a `SELECT COUNT(*)` returned: zero when no row came back.
pub fn count_value(row: Option<i64>) -> (r: u64)
    ensures
        r == match row {
            None => 0,
            Some(n) => if n < 0 {
                0
            } else {
                n as u64
            },
        },
{
    match row {
        None => 0,
        Some(n) => if n < 0 {
            0
        } else {
            n as u64
        },
    }
}

} // verus!
