//! One-time migrations: a named SQL script runs once, under a transaction,
//! and a record in a bookkeeping table remembers that it ran.
use vstd::prelude::*;
use crate::filter::{leaves, Expr, Op, Value};
use crate::schema::{create_text, Column, ColumnType, Info, SqlType};
use crate::table::Table;
use crate::text::{placeholder, placeholder_list, quoted, quoted_list};

verus! {

/// The migrations of a database and the table that records them.
#[derive(Debug, Clone)]
pub struct Migrations {
    pub table: Table,
}

/// What `init` does once it knows whether the bookkeeping table exists.
#[derive(Debug, Clone, Copy, PartialEq, Eq, Structural)]
pub enum InitAction {
    CreateTable,
    Nothing,
}

/// What `apply` does once it knows whether the migration was recorded.
#[derive(Debug, Clone, Copy, PartialEq, Eq, Structural)]
pub enum ApplyAction {
    /// Run the script, record the migration, commit.
    Execute,
    /// It ran before: change nothing and report success.
    Skip,
}

pub open spec fn spec_init_action(exists: bool) -> InitAction {
    if exists {
        InitAction::Nothing
    } else {
        InitAction::CreateTable
    }
}

pub open spec fn spec_apply_action(found: bool) -> ApplyAction {
    if found {
        ApplyAction::Skip
    } else {
        ApplyAction::Execute
    }
}

pub fn init_action(exists: bool) -> (r: InitAction)
    ensures
        r == spec_init_action(exists),
{
    if exists {
        InitAction::Nothing
    } else {
        InitAction::CreateTable
    }
}

pub fn apply_action(found: bool) -> (r: ApplyAction)
    ensures
        r == spec_apply_action(found),
{
    if found {
        ApplyAction::Skip
    } else {
        ApplyAction::Execute
    }
}

/// One `apply` of `name` on a database whose recorded migrations are
/// `applied`, with a script that succeeds or not: the migrations recorded
/// afterwards, and how many times the script ran. A failing script rolls the
/// transaction back, so nothing is recorded.
pub open spec fn apply_model(applied: Set<Seq<char>>, name: Seq<char>, script_ok: bool) -> (
    Set<Seq<char>>,
    nat,
) {
    match spec_apply_action(applied.contains(name)) {
        ApplyAction::Skip => (applied, 0),
        ApplyAction::Execute => (
            if script_ok {
                applied.insert(name)
            } else {
                applied
            },
            1,
        ),
    }
}

/// Applying a migration twice with a script that succeeds runs the script
/// once, or never if it was recorded before; the second apply changes
/// nothing, and afterwards the migration is recorded.
pub proof fn lemma_apply_idempotent(applied: Set<Seq<char>>, name: Seq<char>)
    ensures
        ({
            let (s1, n1) = apply_model(applied, name, true);
            let (s2, n2) = apply_model(s1, name, true);
            &&& n1 + n2 == if applied.contains(name) {
                0nat
            } else {
                1nat
            }
            &&& n2 == 0
            &&& s2 == s1
            &&& s2.contains(name)
        }),
{
}

/// A script that fails leaves the migration unrecorded, so the next apply
/// runs it again.
pub proof fn lemma_failed_apply_retried(applied: Set<Seq<char>>, name: Seq<char>)
    requires
        !applied.contains(name),
    ensures
        ({
            let (s1, n1) = apply_model(applied, name, false);
            &&& n1 == 1
            &&& !s1.contains(name)
            &&& spec_apply_action(s1.contains(name)) == ApplyAction::Execute
        }),
{
}

pub open spec fn table_exists_text() -> Seq<char> {
    "SELECT EXISTS (SELECT FROM information_schema.tables WHERE table_schema = 'public' AND table_name = $1)"@
}

impl Migrations {
    /// The columns of the bookkeeping table: the name as primary key and the
    /// time it was applied, with an index.
    pub open spec fn is_bookkeeping(info: Info) -> bool {
        &&& info.columns@.len() == 2
        &&& info.columns@[0].name@ == "name"@
        &&& info.columns@[0].ty == ColumnType::Scalar(SqlType::Text)
        &&& info.columns@[0].primary
        &&& info.columns@[1].name@ == "applied_at"@
        &&& info.columns@[1].ty == ColumnType::Scalar(SqlType::Timestamp)
        &&& !info.columns@[1].primary
        &&& info.columns@[1].index
    }

    /// Migrations recorded in `table_name`, or in `migrations`.
    pub fn new(table_name: Option<String>) -> (r: Migrations)
        ensures
            match table_name {
                Some(n) => r.table.name@ == n@,
                None => r.table.name@ == "migrations"@,
            },
            Self::is_bookkeeping(r.table.info),
    {
        let name = match table_name {
            Some(n) => n,
            None => String::from_str("migrations"),
        };
        let mut columns: Vec<Column> = Vec::new();
        columns.push(
            Column {
                name: String::from_str("name"),
                ty: ColumnType::Scalar(SqlType::Text),
                len: None,
                primary: true,
                unique: false,
                index: false,
            },
        );
        columns.push(
            Column {
                name: String::from_str("applied_at"),
                ty: ColumnType::Scalar(SqlType::Timestamp),
                len: None,
                primary: false,
                unique: false,
                index: true,
            },
        );
        Migrations { table: Table::new(name, Info::new(columns)) }
    }

    pub fn table_name(&self) -> (r: &str)
        ensures
            r@ == self.table.name@,
    {
        self.table.name()
    }

    /// The query whose one boolean says whether the bookkeeping table
    /// exists; the table's name is its parameter.
    pub fn table_exists_sql(&self) -> (r: (String, Vec<Value>))
        ensures
            r.0@ == table_exists_text(),
            r.1@.len() == 1,
            r.1@[0] is Text,
            r.1@[0]->Text_0@ == self.table.name@,
    {
        let mut params: Vec<Value> = Vec::new();
        params.push(Value::Text(String::from_str(self.table.name())));
        (
            String::from_str(
                "SELECT EXISTS (SELECT FROM information_schema.tables WHERE table_schema = 'public' AND table_name = $1)",
            ),
            params,
        )
    }

    /// The DDL batch of the bookkeeping table and its index.
    pub fn create_sql(&self) -> (r: String)
        ensures
            r@ == create_text(self.table.name@, self.table.info.columns@),
    {
        self.table.create_sql()
    }

    /// The query for the record of migration `name`.
    pub fn find_sql(&self, name: &str) -> (r: (String, Vec<Value>))
        ensures
            r.0@ == self.table.select_text() + " WHERE "@ + quoted("name"@) + " = "@ + placeholder(1),
            r.1@.len() == 1,
            r.1@[0] is Text,
            r.1@[0]->Text_0@ == name@,
    {
        let col = String::from_str("name");
        let value = Value::Text(String::from_str(name));
        let ghost e = Expr::Cmp(col, Op::Eq, value);
        let r = self.table.select_sql(Some(Expr::Cmp(col, Op::Eq, value)));
        proof {
            assert(leaves(e) =~= seq![value]);
        }
        r
    }

    /// The statement that records a migration: its name is `$1`, the time it
    /// was applied `$2`.
    pub fn record_sql(&self) -> (r: String)
        ensures
            r@ == "INSERT INTO "@ + quoted(self.table.name@) + " ("@ + quoted_list(self.table.names())
                + ") VALUES ("@ + placeholder_list(0, self.table.info.columns@.len()) + ")"@,
    {
        self.table.insert_sql()
    }

    /// The parameters of `record_sql` for migration `name` applied at
    /// `applied_at`, in seconds since the unix epoch.
    pub fn record_params(name: &str, applied_at: i64) -> (r: Vec<Value>)
        ensures
            r@.len() == 2,
            r@[0] is Text,
            r@[0]->Text_0@ == name@,
            r@[1] == Value::Timestamp(applied_at),
    {
        let mut params: Vec<Value> = Vec::new();
        params.push(Value::Text(String::from_str(name)));
        params.push(Value::Timestamp(applied_at));
        params
    }
}

} // verus!
