use vstd::prelude::*;
use crate::catalog::{CatalogModel, apply_spec, probe_spec};
use crate::error::DbError;
use crate::schema::{Column, Index, Table, late_columns, patched_columns};
use crate::statement::{Probe, Statement};

verus! {

/// A diagnostic line that a routine emits.
#[derive(Clone, Copy, Debug, PartialEq, Eq, Structural)]
pub enum Notice {
    /// A column was added to `tokens`.
    Added(Column),
    /// The legacy trigger and its function were dropped.
    TriggerRemoved,
}

pub open spec fn added_text(c: Column) -> Seq<char> {
    match c {
            Column::Id => "Added id column to tokens table"@,
            Column::TenantUrl => "Added tenant_url column to tokens table"@,
            Column::AccessToken => "Added access_token column to tokens table"@,
            Column::CreatedAt => "Added created_at column to tokens table"@,
            Column::UpdatedAt => "Added updated_at column to tokens table"@,
            Column::PortalUrl => "Added portal_url column to tokens table"@,
            Column::EmailNote => "Added email_note column to tokens table"@,
            Column::TagName => "Added tag_name column to tokens table"@,
            Column::TagColor => "Added tag_color column to tokens table"@,
            Column::BanStatus => "Added ban_status column to tokens table"@,
            Column::PortalInfo => "Added portal_info column to tokens table"@,
            Column::AuthSession => "Added auth_session column to tokens table"@,
            Column::Suspensions => "Added suspensions column to tokens table"@,
            Column::BalanceColorMode => "Added balance_color_mode column to tokens table"@,
            Column::SkipCheck => "Added skip_check column to tokens table"@,
    }
}

pub open spec fn notice_text(n: Notice) -> Seq<char> {
    match n {
        Notice::Added(c) => added_text(c),
        Notice::TriggerRemoved => "Removed updated_at trigger and function"@,
    }
}

fn added_line(c: Column) -> (r: &'static str)
    ensures
        r@ == added_text(c),
{
    match c {
            Column::Id => "Added id column to tokens table",
            Column::TenantUrl => "Added tenant_url column to tokens table",
            Column::AccessToken => "Added access_token column to tokens table",
            Column::CreatedAt => "Added created_at column to tokens table",
            Column::UpdatedAt => "Added updated_at column to tokens table",
            Column::PortalUrl => "Added portal_url column to tokens table",
            Column::EmailNote => "Added email_note column to tokens table",
            Column::TagName => "Added tag_name column to tokens table",
            Column::TagColor => "Added tag_color column to tokens table",
            Column::BanStatus => "Added ban_status column to tokens table",
            Column::PortalInfo => "Added portal_info column to tokens table",
            Column::AuthSession => "Added auth_session column to tokens table",
            Column::Suspensions => "Added suspensions column to tokens table",
            Column::BalanceColorMode => "Added balance_color_mode column to tokens table",
            Column::SkipCheck => "Added skip_check column to tokens table",
    }
}

impl Notice {
    /// The line as it is written to the diagnostic stream.
    pub fn text(&self) -> (r: &'static str)
        ensures
            r@ == notice_text(*self),
    {
        match self {
            Notice::Added(c) => added_line(*c),
            Notice::TriggerRemoved => "Removed updated_at trigger and function",
        }
    }
}

/// One step of a routine.
#[derive(Clone, Copy, Debug, PartialEq, Eq, Structural)]
pub enum Step {
    /// Issue a statement.
    Run(Statement),
    /// Probe for a column of `tokens`; if it is absent, add it and say so.
    AddIfMissing(Column),
    /// Emit a diagnostic line.
    Say(Notice),
}

/// What running some steps against a catalog comes to: success or the
/// first error, the catalog left behind, and the lines emitted.
pub ghost struct Outcome {
    pub result: Result<(), DbError>,
    pub catalog: CatalogModel,
    pub notices: Seq<Notice>,
}

pub open spec fn done(m: CatalogModel, notices: Seq<Notice>) -> Outcome {
    Outcome { result: Ok(()), catalog: m, notices }
}

pub open spec fn failed(e: DbError, m: CatalogModel) -> Outcome {
    Outcome { result: Err(e), catalog: m, notices: Seq::empty() }
}

/// Adds a column that a probe found missing.
pub open spec fn add_effect(m: CatalogModel, c: Column) -> Outcome {
    match apply_spec(m, Statement::AddColumn(c)) {
        Ok(m2) => done(m2, seq![Notice::Added(c)]),
        Err(e) => failed(e, m),
    }
}

/// The effect of one step.
pub open spec fn step_effect(m: CatalogModel, st: Step) -> Outcome {
    match st {
        Step::Run(s) => match apply_spec(m, s) {
            Ok(m2) => done(m2, Seq::empty()),
            Err(e) => failed(e, m),
        },
        Step::AddIfMissing(c) => if probe_spec(m, Probe::ColumnExists(c)) {
            done(m, Seq::empty())
        } else {
            add_effect(m, c)
        },
        Step::Say(n) => done(m, seq![n]),
    }
}

/// Puts the lines `first` before those of `o`.
pub open spec fn after(first: Seq<Notice>, o: Outcome) -> Outcome {
    Outcome { notices: first + o.notices, ..o }
}

/// Runs `steps` from index `i` on, stopping at the first error.
pub open spec fn run_from(steps: Seq<Step>, i: int, m: CatalogModel) -> Outcome
    decreases steps.len() - i,
{
    if i < 0 || i >= steps.len() {
        done(m, Seq::empty())
    } else {
        let o = step_effect(m, steps[i]);
        if o.result is Err {
            o
        } else {
            after(o.notices, run_from(steps, i + 1, o.catalog))
        }
    }
}

pub open spec fn run(steps: Seq<Step>, m: CatalogModel) -> Outcome {
    run_from(steps, 0, m)
}

pub open spec fn creator_steps() -> Seq<Step> {
    seq![
        Step::Run(Statement::CreateTokens),
        Step::Run(Statement::CreateIndex(Index::CreatedAt)),
        Step::Run(Statement::CreateIndex(Index::UpdatedAt)),
        Step::Run(Statement::CreateSyncStatus),
        Step::Run(Statement::DropTrigger),
        Step::Run(Statement::DropTriggerFunction),
    ]
}

pub open spec fn cleaner_steps() -> Seq<Step> {
    seq![
        Step::Run(Statement::DropTrigger),
        Step::Run(Statement::DropTriggerFunction),
        Step::Say(Notice::TriggerRemoved),
    ]
}

pub open spec fn patcher_steps() -> Seq<Step> {
    late_columns().map_values(|c: Column| Step::AddIfMissing(c))
}

pub open spec fn dropper_steps() -> Seq<Step> {
    seq![
        Step::Run(Statement::DropTable(Table::SyncStatus)),
        Step::Run(Statement::DropTable(Table::Tokens)),
        Step::Run(Statement::DropTriggerFunction),
    ]
}

/// The startup routine: creator, then trigger cleaner, then patcher.
pub open spec fn startup_steps() -> Seq<Step> {
    creator_steps() + cleaner_steps() + patcher_steps()
}

/// Creates both tables and the indexes if absent, then drops the legacy
/// trigger and its function.
pub fn create_tables() -> (r: Vec<Step>)
    ensures
        r@ == creator_steps(),
{
    let r = vec![
        Step::Run(Statement::CreateTokens),
        Step::Run(Statement::CreateIndex(Index::CreatedAt)),
        Step::Run(Statement::CreateIndex(Index::UpdatedAt)),
        Step::Run(Statement::CreateSyncStatus),
        Step::Run(Statement::DropTrigger),
        Step::Run(Statement::DropTriggerFunction),
    ];
    assert(r@ =~= creator_steps());
    r
}

/// Drops the legacy trigger and its function, then says so.
pub fn remove_updated_at_trigger() -> (r: Vec<Step>)
    ensures
        r@ == cleaner_steps(),
{
    let r = vec![
        Step::Run(Statement::DropTrigger),
        Step::Run(Statement::DropTriggerFunction),
        Step::Say(Notice::TriggerRemoved),
    ];
    assert(r@ =~= cleaner_steps());
    r
}

/// Adds each late column that `tokens` lacks, in canonical order.
pub fn add_new_fields_if_not_exist() -> (r: Vec<Step>)
    ensures
        r@ == patcher_steps(),
{
    let cols = patched_columns();
    let mut r: Vec<Step> = Vec::new();
    let mut i: usize = 0;
    while i < cols.len()
        invariant
            i <= cols@.len(),
            cols@ == late_columns(),
            r@ == late_columns().take(i as int).map_values(|c: Column| Step::AddIfMissing(c)),
        decreases cols@.len() - i,
    {
        r.push(Step::AddIfMissing(cols[i]));
        i = i + 1;
        assert(r@ =~= late_columns().take(i as int).map_values(|c: Column| Step::AddIfMissing(c)));
    }
    assert(late_columns().take(i as int) =~= late_columns());
    r
}

/// Drops `sync_status`, then `tokens`, then the legacy trigger function.
pub fn drop_tables() -> (r: Vec<Step>)
    ensures
        r@ == dropper_steps(),
{
    let r = vec![
        Step::Run(Statement::DropTable(Table::SyncStatus)),
        Step::Run(Statement::DropTable(Table::Tokens)),
        Step::Run(Statement::DropTriggerFunction),
    ];
    assert(r@ =~= dropper_steps());
    r
}

/// The whole startup routine.
pub fn startup() -> (r: Vec<Step>)
    ensures
        r@ == startup_steps(),
{
    let mut r = create_tables();
    let mut cleaner = remove_updated_at_trigger();
    let mut patcher = add_new_fields_if_not_exist();
    r.append(&mut cleaner);
    r.append(&mut patcher);
    r
}

/// Reads the answer of the probe `Probe::TableExists(Table::Tokens)`: the
/// first row's boolean, if a row came back. No row means no table.
pub fn check_tables_exist(first_row: Option<bool>) -> (r: bool)
    ensures
        r == (first_row == Some(true)),
{
    match first_row {
        Some(b) => b,
        None => false,
    }
}

} // verus!
