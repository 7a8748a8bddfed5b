//! Schema descriptors: the ordered columns of a table, rendered to column
//! lists and to DDL.
use vstd::prelude::*;
use crate::text::{decimal, push_decimal, push_quoted, quoted, quoted_list};

verus! {

/// The PostgreSQL scalar types that a column can hold.
#[derive(Debug, Clone, Copy, PartialEq, Eq, Structural)]
pub enum SqlType {
    Boolean,
    SmallInt,
    Integer,
    BigInt,
    Real,
    DoublePrecision,
    Text,
    Bytea,
    Timestamp,
    Date,
    Json,
}

/// A scalar or an array of scalars.
#[derive(Debug, Clone, Copy, PartialEq, Eq, Structural)]
pub enum ColumnType {
    Scalar(SqlType),
    Array(SqlType),
}

/// One column of a table.
#[derive(Debug, Clone)]
pub struct Column {
    pub name: String,
    pub ty: ColumnType,
    /// The fixed length of an array column.
    pub len: Option<u32>,
    pub primary: bool,
    pub unique: bool,
    pub index: bool,
}

/// The ordered columns of a table. The order fixes the column lists of
/// SELECT and INSERT and the positions in a row.
#[derive(Debug, Clone)]
pub struct Info {
    pub columns: Vec<Column>,
}

/// What a record type tells about its table.
pub trait TableTemplate {
    fn table_info() -> Info;
}

pub open spec fn sql_type_text(t: SqlType) -> Seq<char> {
    match t {
        SqlType::Boolean => "boolean"@,
        SqlType::SmallInt => "smallint"@,
        SqlType::Integer => "integer"@,
        SqlType::BigInt => "bigint"@,
        SqlType::Real => "real"@,
        SqlType::DoublePrecision => "double precision"@,
        SqlType::Text => "text"@,
        SqlType::Bytea => "bytea"@,
        SqlType::Timestamp => "timestamp"@,
        SqlType::Date => "date"@,
        SqlType::Json => "json"@,
    }
}

/// A scalar type by its name; an array as `type[]`, or `type[N]` with a
/// fixed length.
pub open spec fn type_text(ty: ColumnType, len: Option<u32>) -> Seq<char> {
    match ty {
        ColumnType::Scalar(t) => sql_type_text(t),
        ColumnType::Array(t) => match len {
            None => sql_type_text(t) + "[]"@,
            Some(n) => sql_type_text(t) + "["@ + decimal(n as nat) + "]"@,
        },
    }
}

/// `"name" type`, with ` PRIMARY KEY` for the primary key.
pub open spec fn column_def(c: Column) -> Seq<char> {
    quoted(c.name@) + " "@ + type_text(c.ty, c.len) + if c.primary {
        " PRIMARY KEY"@
    } else {
        Seq::empty()
    }
}

pub open spec fn column_defs(cols: Seq<Column>) -> Seq<char>
    decreases cols.len(),
{
    if cols.len() == 0 {
        Seq::empty()
    } else if cols.len() == 1 {
        column_def(cols[0])
    } else {
        column_defs(cols.drop_last()) + ", "@ + column_def(cols.last())
    }
}

pub open spec fn names_of(cols: Seq<Column>) -> Seq<Seq<char>> {
    cols.map_values(|c: Column| c.name@)
}

/// The index statement of one column: a unique index for a unique column,
/// a plain one for an indexed column, none for the primary key or others.
pub open spec fn index_stmt(table: Seq<char>, c: Column) -> Seq<char> {
    if c.primary {
        Seq::empty()
    } else if c.unique {
        "\nCREATE UNIQUE INDEX IF NOT EXISTS "@ + quoted(table + "_"@ + c.name@ + "_key"@) + " ON "@
            + quoted(table) + " ("@ + quoted(c.name@) + ");"@
    } else if c.index {
        "\nCREATE INDEX IF NOT EXISTS "@ + quoted(table + "_"@ + c.name@ + "_idx"@) + " ON "@
            + quoted(table) + " ("@ + quoted(c.name@) + ");"@
    } else {
        Seq::empty()
    }
}

pub open spec fn index_stmts(table: Seq<char>, cols: Seq<Column>) -> Seq<char>
    decreases cols.len(),
{
    if cols.len() == 0 {
        Seq::empty()
    } else {
        index_stmts(table, cols.drop_last()) + index_stmt(table, cols.last())
    }
}

/// The DDL batch of a table: the table, then the index of each unique or
/// indexed column, every statement guarded by `IF NOT EXISTS`.
pub open spec fn create_text(table: Seq<char>, cols: Seq<Column>) -> Seq<char> {
    "CREATE TABLE IF NOT EXISTS "@ + quoted(table) + " ("@ + column_defs(cols) + ");"@
        + index_stmts(table, cols)
}

impl Info {
    pub open spec fn names(&self) -> Seq<Seq<char>> {
        names_of(self.columns@)
    }

    pub fn new(columns: Vec<Column>) -> (r: Info)
        ensures
            r.columns@ == columns@,
    {
        Info { columns }
    }

    /// The quoted column names in declaration order, joined by ", ".
    pub fn select_columns(&self) -> (r: String)
        ensures
            r@ == quoted_list(self.names()),
    {
        let cols = &self.columns;
        let ghost names = self.names();
        let mut s = String::new();
        let mut i: usize = 0;
        while i < cols.len()
            invariant
                i <= cols@.len(),
                names == names_of(cols@),
                s@ == quoted_list(names.take(i as int)),
            decreases cols@.len() - i,
        {
            if i > 0 {
                s.append(", ");
            }
            push_quoted(&mut s, cols[i].name.as_str());
            i = i + 1;
            proof {
                assert(names.take(i as int).drop_last() =~= names.take(i - 1));
                assert(s@ =~= quoted_list(names.take(i as int)));
            }
        }
        proof {
            assert(names.take(i as int) =~= names);
        }
        s
    }

    /// The column list of an INSERT: the same as that of a SELECT.
    pub fn insert_columns(&self) -> (r: String)
        ensures
            r@ == quoted_list(self.names()),
    {
        self.select_columns()
    }

    /// The DDL batch that creates the table `table` and its indexes.
    pub fn create_sql(&self, table: &str) -> (r: String)
        ensures
            r@ == create_text(table@, self.columns@),
    {
        let cols = &self.columns;
        let mut s = String::new();
        s.append("CREATE TABLE IF NOT EXISTS ");
        push_quoted(&mut s, table);
        s.append(" (");
        let ghost head = s@;
        let mut i: usize = 0;
        while i < cols.len()
            invariant
                i <= cols@.len(),
                s@ == head + column_defs(cols@.take(i as int)),
            decreases cols@.len() - i,
        {
            if i > 0 {
                s.append(", ");
            }
            push_column_def(&mut s, &cols[i]);
            i = i + 1;
            proof {
                assert(cols@.take(i as int).drop_last() =~= cols@.take(i - 1));
                assert(s@ =~= head + column_defs(cols@.take(i as int)));
            }
        }
        s.append(");");
        let ghost mid = s@;
        proof {
            assert(cols@.take(i as int) =~= cols@);
            assert(cols@.take(0) =~= Seq::<Column>::empty());
        }
        let mut j: usize = 0;
        while j < cols.len()
            invariant
                j <= cols@.len(),
                s@ == mid + index_stmts(table@, cols@.take(j as int)),
            decreases cols@.len() - j,
        {
            push_index_stmt(&mut s, table, &cols[j]);
            j = j + 1;
            proof {
                assert(cols@.take(j as int).drop_last() =~= cols@.take(j - 1));
                assert(s@ =~= mid + index_stmts(table@, cols@.take(j as int)));
            }
        }
        proof {
            assert(cols@.take(j as int) =~= cols@);
            assert(s@ =~= create_text(table@, cols@));
        }
        s
    }
}

fn push_sql_type(s: &mut String, t: SqlType)
    ensures
        final(s)@ == old(s)@ + sql_type_text(t),
{
    match t {
        SqlType::Boolean => s.append("boolean"),
        SqlType::SmallInt => s.append("smallint"),
        SqlType::Integer => s.append("integer"),
        SqlType::BigInt => s.append("bigint"),
        SqlType::Real => s.append("real"),
        SqlType::DoublePrecision => s.append("double precision"),
        SqlType::Text => s.append("text"),
        SqlType::Bytea => s.append("bytea"),
        SqlType::Timestamp => s.append("timestamp"),
        SqlType::Date => s.append("date"),
        SqlType::Json => s.append("json"),
    }
}

fn push_column_def(s: &mut String, c: &Column)
    ensures
        final(s)@ == old(s)@ + column_def(*c),
{
    push_quoted(s, c.name.as_str());
    s.append(" ");
    match c.ty {
        ColumnType::Scalar(t) => push_sql_type(s, t),
        ColumnType::Array(t) => {
            push_sql_type(s, t);
            match c.len {
                None => s.append("[]"),
                Some(n) => {
                    s.append("[");
                    push_decimal(s, n as u64);
                    s.append("]");
                },
            }
        },
    }
    if c.primary {
        s.append(" PRIMARY KEY");
    }
    proof {
        assert(final(s)@ =~= old(s)@ + column_def(*c));
    }
}

fn push_index_stmt(s: &mut String, table: &str, c: &Column)
    ensures
        final(s)@ == old(s)@ + index_stmt(table@, *c),
{
    if c.primary {
    } else if c.unique {
        s.append("\nCREATE UNIQUE INDEX IF NOT EXISTS ");
        s.append("\"");
        s.append(table);
        s.append("_");
        s.append(c.name.as_str());
        s.append("_key");
        s.append("\"");
        s.append(" ON ");
        push_quoted(s, table);
        s.append(" (");
        push_quoted(s, c.name.as_str());
        s.append(");");
    } else if c.index {
        s.append("\nCREATE INDEX IF NOT EXISTS ");
        s.append("\"");
        s.append(table);
        s.append("_");
        s.append(c.name.as_str());
        s.append("_idx");
        s.append("\"");
        s.append(" ON ");
        push_quoted(s, table);
        s.append(" (");
        push_quoted(s, c.name.as_str());
        s.append(");");
    }
    proof {
        assert(final(s)@ =~= old(s)@ + index_stmt(table@, *c));
    }
}

} // verus!
