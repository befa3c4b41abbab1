use vstd::prelude::*;
use crate::schema::{Column, Index, Table, table_name_spec, column_name_spec};

verus! {

/// A data-definition statement that the routine issues.
#[derive(Clone, Copy, Debug, PartialEq, Eq, Structural)]
pub enum Statement {
    /// `CREATE TABLE IF NOT EXISTS tokens (...)` with every column.
    CreateTokens,
    /// `CREATE INDEX IF NOT EXISTS idx_tokens_<column> ON tokens(<column>)`.
    CreateIndex(Index),
    /// `CREATE TABLE IF NOT EXISTS sync_status (...)`.
    CreateSyncStatus,
    /// `DROP TRIGGER IF EXISTS update_tokens_updated_at ON tokens`.
    DropTrigger,
    /// `DROP FUNCTION IF EXISTS update_updated_at_column() CASCADE`.
    DropTriggerFunction,
    /// `DROP TABLE IF EXISTS <table> CASCADE`.
    DropTable(Table),
    /// `ALTER TABLE tokens ADD COLUMN <column> <type>`.
    AddColumn(Column),
}

/// A catalog question whose answer is one boolean.
#[derive(Clone, Copy, Debug, PartialEq, Eq, Structural)]
pub enum Probe {
    TableExists(Table),
    /// A column of `tokens`.
    ColumnExists(Column),
}

pub open spec fn add_column_text(c: Column) -> Seq<char> {
    match c {
        Column::Id => "ALTER TABLE tokens ADD COLUMN id VARCHAR(255)"@,
        Column::TenantUrl => "ALTER TABLE tokens ADD COLUMN tenant_url TEXT"@,
        Column::AccessToken => "ALTER TABLE tokens ADD COLUMN access_token TEXT"@,
        Column::CreatedAt => "ALTER TABLE tokens ADD COLUMN created_at TIMESTAMP WITH TIME ZONE"@,
        Column::UpdatedAt => "ALTER TABLE tokens ADD COLUMN updated_at TIMESTAMP WITH TIME ZONE DEFAULT NOW()"@,
        Column::PortalUrl => "ALTER TABLE tokens ADD COLUMN portal_url TEXT"@,
        Column::EmailNote => "ALTER TABLE tokens ADD COLUMN email_note TEXT"@,
        Column::TagName => "ALTER TABLE tokens ADD COLUMN tag_name TEXT"@,
        Column::TagColor => "ALTER TABLE tokens ADD COLUMN tag_color TEXT"@,
        Column::BanStatus => "ALTER TABLE tokens ADD COLUMN ban_status JSONB"@,
        Column::PortalInfo => "ALTER TABLE tokens ADD COLUMN portal_info JSONB"@,
        Column::AuthSession => "ALTER TABLE tokens ADD COLUMN auth_session TEXT"@,
        Column::Suspensions => "ALTER TABLE tokens ADD COLUMN suspensions JSONB"@,
        Column::BalanceColorMode => "ALTER TABLE tokens ADD COLUMN balance_color_mode TEXT"@,
        Column::SkipCheck => "ALTER TABLE tokens ADD COLUMN skip_check BOOLEAN"@,
    }
}

/// The SQL text of each statement.
pub open spec fn sql_text(s: Statement) -> Seq<char> {
    match s {
        Statement::CreateTokens => "CREATE TABLE IF NOT EXISTS tokens (id VARCHAR(255) PRIMARY KEY, tenant_url TEXT NOT NULL, access_token TEXT NOT NULL, created_at TIMESTAMP WITH TIME ZONE NOT NULL, updated_at TIMESTAMP WITH TIME ZONE NOT NULL DEFAULT NOW(), portal_url TEXT, email_note TEXT, tag_name TEXT, tag_color TEXT, ban_status JSONB, portal_info JSONB, auth_session TEXT, suspensions JSONB, balance_color_mode TEXT, skip_check BOOLEAN)"@,
        Statement::CreateIndex(Index::CreatedAt) => "CREATE INDEX IF NOT EXISTS idx_tokens_created_at ON tokens(created_at)"@,
        Statement::CreateIndex(Index::UpdatedAt) => "CREATE INDEX IF NOT EXISTS idx_tokens_updated_at ON tokens(updated_at)"@,
        Statement::CreateSyncStatus => "CREATE TABLE IF NOT EXISTS sync_status (id SERIAL PRIMARY KEY, last_sync_at TIMESTAMP WITH TIME ZONE, sync_direction VARCHAR(50), status VARCHAR(50), error_message TEXT, tokens_synced INTEGER DEFAULT 0, created_at TIMESTAMP WITH TIME ZONE DEFAULT NOW())"@,
        Statement::DropTrigger => "DROP TRIGGER IF EXISTS update_tokens_updated_at ON tokens"@,
        Statement::DropTriggerFunction => "DROP FUNCTION IF EXISTS update_updated_at_column() CASCADE"@,
        Statement::DropTable(Table::Tokens) => "DROP TABLE IF EXISTS tokens CASCADE"@,
        Statement::DropTable(Table::SyncStatus) => "DROP TABLE IF EXISTS sync_status CASCADE"@,
        Statement::AddColumn(c) => add_column_text(c),
    }
}

/// The query text of each probe; the names go as parameters `$1`, `$2`.
pub open spec fn probe_text(p: Probe) -> Seq<char> {
    match p {
        Probe::TableExists(_) => "SELECT EXISTS (SELECT FROM information_schema.tables WHERE table_schema = 'public' AND table_name = $1)"@,
        Probe::ColumnExists(_) => "SELECT EXISTS (SELECT FROM information_schema.columns WHERE table_schema = 'public' AND table_name = $1 AND column_name = $2)"@,
    }
}

/// The parameters of each probe, in order.
pub open spec fn probe_params(p: Probe) -> Seq<Seq<char>> {
    match p {
        Probe::TableExists(t) => seq![table_name_spec(t)],
        Probe::ColumnExists(c) => seq![table_name_spec(Table::Tokens), column_name_spec(c)],
    }
}

fn add_column_sql(c: Column) -> (r: &'static str)
    ensures
        r@ == add_column_text(c),
{
    match c {
        Column::Id => "ALTER TABLE tokens ADD COLUMN id VARCHAR(255)",
        Column::TenantUrl => "ALTER TABLE tokens ADD COLUMN tenant_url TEXT",
        Column::AccessToken => "ALTER TABLE tokens ADD COLUMN access_token TEXT",
        Column::CreatedAt => "ALTER TABLE tokens ADD COLUMN created_at TIMESTAMP WITH TIME ZONE",
        Column::UpdatedAt => "ALTER TABLE tokens ADD COLUMN updated_at TIMESTAMP WITH TIME ZONE DEFAULT NOW()",
        Column::PortalUrl => "ALTER TABLE tokens ADD COLUMN portal_url TEXT",
        Column::EmailNote => "ALTER TABLE tokens ADD COLUMN email_note TEXT",
        Column::TagName => "ALTER TABLE tokens ADD COLUMN tag_name TEXT",
        Column::TagColor => "ALTER TABLE tokens ADD COLUMN tag_color TEXT",
        Column::BanStatus => "ALTER TABLE tokens ADD COLUMN ban_status JSONB",
        Column::PortalInfo => "ALTER TABLE tokens ADD COLUMN portal_info JSONB",
        Column::AuthSession => "ALTER TABLE tokens ADD COLUMN auth_session TEXT",
        Column::Suspensions => "ALTER TABLE tokens ADD COLUMN suspensions JSONB",
        Column::BalanceColorMode => "ALTER TABLE tokens ADD COLUMN balance_color_mode TEXT",
        Column::SkipCheck => "ALTER TABLE tokens ADD COLUMN skip_check BOOLEAN",
    }
}

impl Statement {
    /// The statement as SQL text.
    pub fn sql(&self) -> (r: &'static str)
        ensures
            r@ == sql_text(*self),
    {
        match self {
            Statement::CreateTokens => "CREATE TABLE IF NOT EXISTS tokens (id VARCHAR(255) PRIMARY KEY, tenant_url TEXT NOT NULL, access_token TEXT NOT NULL, created_at TIMESTAMP WITH TIME ZONE NOT NULL, updated_at TIMESTAMP WITH TIME ZONE NOT NULL DEFAULT NOW(), portal_url TEXT, email_note TEXT, tag_name TEXT, tag_color TEXT, ban_status JSONB, portal_info JSONB, auth_session TEXT, suspensions JSONB, balance_color_mode TEXT, skip_check BOOLEAN)",
            Statement::CreateIndex(Index::CreatedAt) => "CREATE INDEX IF NOT EXISTS idx_tokens_created_at ON tokens(created_at)",
            Statement::CreateIndex(Index::UpdatedAt) => "CREATE INDEX IF NOT EXISTS idx_tokens_updated_at ON tokens(updated_at)",
            Statement::CreateSyncStatus => "CREATE TABLE IF NOT EXISTS sync_status (id SERIAL PRIMARY KEY, last_sync_at TIMESTAMP WITH TIME ZONE, sync_direction VARCHAR(50), status VARCHAR(50), error_message TEXT, tokens_synced INTEGER DEFAULT 0, created_at TIMESTAMP WITH TIME ZONE DEFAULT NOW())",
            Statement::DropTrigger => "DROP TRIGGER IF EXISTS update_tokens_updated_at ON tokens",
            Statement::DropTriggerFunction => "DROP FUNCTION IF EXISTS update_updated_at_column() CASCADE",
            Statement::DropTable(Table::Tokens) => "DROP TABLE IF EXISTS tokens CASCADE",
            Statement::DropTable(Table::SyncStatus) => "DROP TABLE IF EXISTS sync_status CASCADE",
            Statement::AddColumn(c) => add_column_sql(*c),
        }
    }
}

impl Probe {
    /// The query text, with the names as parameters.
    pub fn query(&self) -> (r: &'static str)
        ensures
            r@ == probe_text(*self),
    {
        match self {
            Probe::TableExists(_) => "SELECT EXISTS (SELECT FROM information_schema.tables WHERE table_schema = 'public' AND table_name = $1)",
            Probe::ColumnExists(_) => "SELECT EXISTS (SELECT FROM information_schema.columns WHERE table_schema = 'public' AND table_name = $1 AND column_name = $2)",
        }
    }

    /// The values bound to the query's parameters, in order.
    pub fn params(&self) -> (r: Vec<&'static str>)
        ensures
            r@.len() == probe_params(*self).len(),
            forall|i: int| 0 <= i < r@.len() ==> (#[trigger] r@[i])@ == probe_params(*self)[i],
    {
        match self {
            Probe::TableExists(t) => vec![t.name()],
            Probe::ColumnExists(c) => vec![Table::Tokens.name(), c.name()],
        }
    }
}

} // verus!
