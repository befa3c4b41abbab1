use vstd::prelude::*;

verus! {

/// The two tables that the routine owns.
#[derive(Clone, Copy, Debug, PartialEq, Eq, Structural)]
pub enum Table {
    Tokens,
    SyncStatus,
}

/// The non-unique indexes over `tokens`.
#[derive(Clone, Copy, Debug, PartialEq, Eq, Structural)]
pub enum Index {
    CreatedAt,
    UpdatedAt,
}

/// The columns of `tokens`.
#[derive(Clone, Copy, Debug, PartialEq, Eq, Structural)]
pub enum Column {
    Id,
    TenantUrl,
    AccessToken,
    CreatedAt,
    UpdatedAt,
    PortalUrl,
    EmailNote,
    TagName,
    TagColor,
    BanStatus,
    PortalInfo,
    AuthSession,
    Suspensions,
    BalanceColorMode,
    SkipCheck,
}

/// Every column of `tokens`, in the order of its creation statement.
pub open spec fn token_columns() -> Seq<Column> {
    seq![
        Column::Id,
        Column::TenantUrl,
        Column::AccessToken,
        Column::CreatedAt,
        Column::UpdatedAt,
        Column::PortalUrl,
        Column::EmailNote,
        Column::TagName,
        Column::TagColor,
        Column::BanStatus,
        Column::PortalInfo,
        Column::AuthSession,
        Column::Suspensions,
        Column::BalanceColorMode,
        Column::SkipCheck,
    ]
}

/// The columns that older deployments may lack, in the order the patcher
/// adds them.
pub open spec fn late_columns() -> Seq<Column> {
    seq![
        Column::AuthSession,
        Column::Suspensions,
        Column::TagName,
        Column::TagColor,
        Column::BalanceColorMode,
        Column::SkipCheck,
    ]
}

/// The number of columns of `sync_status`.
pub const SYNC_STATUS_COLUMN_COUNT: usize = 7;

pub proof fn lemma_every_column_listed(c: Column)
    ensures
        token_columns().contains(c),
{
    let s = token_columns();
    let i: int = match c {
        Column::Id => 0,
        Column::TenantUrl => 1,
        Column::AccessToken => 2,
        Column::CreatedAt => 3,
        Column::UpdatedAt => 4,
        Column::PortalUrl => 5,
        Column::EmailNote => 6,
        Column::TagName => 7,
        Column::TagColor => 8,
        Column::BanStatus => 9,
        Column::PortalInfo => 10,
        Column::AuthSession => 11,
        Column::Suspensions => 12,
        Column::BalanceColorMode => 13,
        Column::SkipCheck => 14,
    };
    assert(s[i] == c);
}

/// All columns of `tokens` in creation order.
pub fn all_token_columns() -> (r: Vec<Column>)
    ensures
        r@ == token_columns(),
{
    let r = vec![
        Column::Id,
        Column::TenantUrl,
        Column::AccessToken,
        Column::CreatedAt,
        Column::UpdatedAt,
        Column::PortalUrl,
        Column::EmailNote,
        Column::TagName,
        Column::TagColor,
        Column::BanStatus,
        Column::PortalInfo,
        Column::AuthSession,
        Column::Suspensions,
        Column::BalanceColorMode,
        Column::SkipCheck,
    ];
    assert(r@ =~= token_columns());
    r
}

/// The patcher's columns in their canonical order.
pub fn patched_columns() -> (r: Vec<Column>)
    ensures
        r@ == late_columns(),
{
    let r = vec![
        Column::AuthSession,
        Column::Suspensions,
        Column::TagName,
        Column::TagColor,
        Column::BalanceColorMode,
        Column::SkipCheck,
    ];
    assert(r@ =~= late_columns());
    r
}

pub open spec fn table_name_spec(t: Table) -> Seq<char> {
    match t {
        Table::Tokens => "tokens"@,
        Table::SyncStatus => "sync_status"@,
    }
}

pub open spec fn column_name_spec(c: Column) -> Seq<char> {
    match c {
        Column::Id => "id"@,
        Column::TenantUrl => "tenant_url"@,
        Column::AccessToken => "access_token"@,
        Column::CreatedAt => "created_at"@,
        Column::UpdatedAt => "updated_at"@,
        Column::PortalUrl => "portal_url"@,
        Column::EmailNote => "email_note"@,
        Column::TagName => "tag_name"@,
        Column::TagColor => "tag_color"@,
        Column::BanStatus => "ban_status"@,
        Column::PortalInfo => "portal_info"@,
        Column::AuthSession => "auth_session"@,
        Column::Suspensions => "suspensions"@,
        Column::BalanceColorMode => "balance_color_mode"@,
        Column::SkipCheck => "skip_check"@,
    }
}

impl Table {
    /// The table's name in the catalog.
    pub fn name(&self) -> (r: &'static str)
        ensures
            r@ == table_name_spec(*self),
    {
        match self {
            Table::Tokens => "tokens",
            Table::SyncStatus => "sync_status",
        }
    }
}

impl Column {
    /// The column's name in the catalog.
    pub fn name(&self) -> (r: &'static str)
        ensures
            r@ == column_name_spec(*self),
    {
        match self {
            Column::Id => "id",
            Column::TenantUrl => "tenant_url",
            Column::AccessToken => "access_token",
            Column::CreatedAt => "created_at",
            Column::UpdatedAt => "updated_at",
            Column::PortalUrl => "portal_url",
            Column::EmailNote => "email_note",
            Column::TagName => "tag_name",
            Column::TagColor => "tag_color",
            Column::BanStatus => "ban_status",
            Column::PortalInfo => "portal_info",
            Column::AuthSession => "auth_session",
            Column::Suspensions => "suspensions",
            Column::BalanceColorMode => "balance_color_mode",
            Column::SkipCheck => "skip_check",
        }
    }
}

} // verus!
