use token_schema::{
    Action, Catalog, Cell, Column, DbError, Event, Index, Notice, Probe, SYNC_STATUS_COLUMN_COUNT,
    Session, Statement, Step, Table, add_new_fields_if_not_exist, all_token_columns,
    check_tables_exist, create_tables, drop_tables, patched_columns, remove_updated_at_trigger,
    startup,
};

fn migrated() -> Catalog {
    let mut cat = Catalog::empty();
    cat.run_steps(startup()).unwrap();
    cat
}

fn columns_without(missing: Column) -> Vec<Column> {
    all_token_columns().into_iter().filter(|c| *c != missing).collect()
}

fn legacy_row(columns: &[Column], id: &str) -> Vec<Cell> {
    columns
        .iter()
        .map(|c| match c {
            Column::Id => Cell::Text(id.to_string()),
            Column::TenantUrl => Cell::Text("https://x".to_string()),
            Column::AccessToken => Cell::Text("t".to_string()),
            Column::CreatedAt => Cell::Stamp(1704067200),
            Column::UpdatedAt => Cell::Stamp(1704067200),
            _ => Cell::Null,
        })
        .collect()
}

#[test]
fn test_create_tables() {
    let mut cat = Catalog::empty();
    let result = cat.run_steps(create_tables());
    assert!(result.is_ok());
}

#[test]
fn test_drop_tables() {
    let mut cat = Catalog::empty();
    let _ = cat.run_steps(create_tables());
    let result = cat.run_steps(drop_tables());
    assert!(result.is_ok());
}

#[test]
fn fresh_database_gets_full_schema() {
    let cat = migrated();
    assert_eq!(cat.column_count(), Some(15));
    assert_eq!(cat.columns().unwrap(), &all_token_columns());
    assert!(cat.answer(Probe::TableExists(Table::SyncStatus)));
    assert_eq!(SYNC_STATUS_COLUMN_COUNT, 7);
    assert!(cat.has_index(Index::CreatedAt));
    assert!(cat.has_index(Index::UpdatedAt));
    for c in all_token_columns() {
        assert!(cat.answer(Probe::ColumnExists(c)));
    }
    assert_eq!(cat.row_count(), Some(0));
}

#[test]
fn fresh_database_notices() {
    let mut cat = Catalog::empty();
    let notices = cat.run_steps(startup()).unwrap();
    assert_eq!(notices, vec![Notice::TriggerRemoved]);
}

#[test]
fn patcher_adds_skip_check_as_null() {
    let columns = columns_without(Column::SkipCheck);
    let mut cat = Catalog::with_tokens(&columns).unwrap();
    cat.insert_row(legacy_row(&columns, "a")).unwrap();
    let notices = cat.run_steps(add_new_fields_if_not_exist()).unwrap();
    assert_eq!(notices, vec![Notice::Added(Column::SkipCheck)]);
    assert!(cat.answer(Probe::ColumnExists(Column::SkipCheck)));
    assert_eq!(cat.cell(0, Column::SkipCheck), Some(&Cell::Null));
    assert_eq!(cat.cell(0, Column::Id), Some(&Cell::Text("a".to_string())));
    assert_eq!(cat.cell(0, Column::TenantUrl), Some(&Cell::Text("https://x".to_string())));
    assert_eq!(cat.row_count(), Some(1));
}

#[test]
fn legacy_trigger_is_removed_and_stamp_kept() {
    let mut cat = Catalog::with_tokens(&all_token_columns()).unwrap();
    cat.install_legacy_trigger().unwrap();
    assert_eq!(cat.stamp_after_update(100, 200), 200);
    cat.run_steps(startup()).unwrap();
    assert!(!cat.has_trigger());
    assert!(!cat.has_trigger_function());
    assert_eq!(cat.stamp_after_update(100, 200), 100);
}

#[test]
fn second_run_adds_nothing() {
    let mut cat = migrated();
    let first = cat.clone();
    let notices = cat.run_steps(startup()).unwrap();
    assert!(notices.iter().all(|n| !matches!(n, Notice::Added(_))));
    assert_eq!(notices, vec![Notice::TriggerRemoved]);
    assert_eq!(cat, first);
}

#[test]
fn drop_then_rerun_restores_state() {
    let mut cat = migrated();
    let first = cat.clone();
    cat.run_steps(drop_tables()).unwrap();
    cat.run_steps(startup()).unwrap();
    assert_eq!(cat, first);
}

#[test]
fn idempotent_from_base_schema() {
    let mut cat = Catalog::empty();
    cat.run_steps(create_tables()).unwrap();
    cat.run_steps(startup()).unwrap();
    let once = cat.clone();
    cat.run_steps(startup()).unwrap();
    assert_eq!(cat, once);
}

#[test]
fn idempotent_from_legacy_schema() {
    let columns = columns_without(Column::AuthSession);
    let mut cat = Catalog::with_tokens(&columns).unwrap();
    let notices = cat.run_steps(startup()).unwrap();
    assert_eq!(notices, vec![Notice::TriggerRemoved, Notice::Added(Column::AuthSession)]);
    let once = cat.clone();
    let again = cat.run_steps(startup()).unwrap();
    assert_eq!(again, vec![Notice::TriggerRemoved]);
    assert_eq!(cat, once);
}

#[test]
fn patcher_keeps_rows_and_values() {
    let columns = columns_without(Column::AuthSession);
    let mut cat = Catalog::with_tokens(&columns).unwrap();
    for id in ["a", "b", "c"] {
        cat.insert_row(legacy_row(&columns, id)).unwrap();
    }
    cat.run_steps(add_new_fields_if_not_exist()).unwrap();
    assert_eq!(cat.row_count(), Some(3));
    assert!(cat.answer(Probe::ColumnExists(Column::AuthSession)));
    assert_eq!(cat.columns().unwrap()[..14], columns[..]);
    for (row, id) in ["a", "b", "c"].iter().enumerate() {
        assert_eq!(cat.cell(row, Column::Id), Some(&Cell::Text(id.to_string())));
        assert_eq!(cat.cell(row, Column::UpdatedAt), Some(&Cell::Stamp(1704067200)));
        assert_eq!(cat.cell(row, Column::AuthSession), Some(&Cell::Null));
    }
    assert_eq!(cat.cell(3, Column::Id), None);
}

#[test]
fn patcher_adds_late_columns_in_order() {
    let base: Vec<Column> = all_token_columns()
        .into_iter()
        .filter(|c| !patched_columns().contains(c))
        .collect();
    let mut cat = Catalog::with_tokens(&base).unwrap();
    let notices = cat.run_steps(add_new_fields_if_not_exist()).unwrap();
    let expected: Vec<Notice> = patched_columns().into_iter().map(Notice::Added).collect();
    assert_eq!(notices, expected);
    assert_eq!(cat.columns().unwrap()[9..], patched_columns()[..]);
}

#[test]
fn dropper_empties_database() {
    let mut cat = migrated();
    cat.run_steps(drop_tables()).unwrap();
    assert!(!cat.answer(Probe::TableExists(Table::Tokens)));
    assert!(!cat.answer(Probe::TableExists(Table::SyncStatus)));
    assert_eq!(cat, Catalog::empty());
    assert!(cat.run_steps(create_tables()).is_ok());
}

#[test]
fn patcher_on_missing_table_fails() {
    let mut cat = Catalog::empty();
    assert_eq!(cat.run_steps(add_new_fields_if_not_exist()), Err(DbError::Catalog));
    assert_eq!(cat, Catalog::empty());
}

#[test]
fn duplicate_column_is_refused() {
    let mut cat = migrated();
    assert_eq!(cat.apply(Statement::AddColumn(Column::SkipCheck)), Err(DbError::Duplicate));
    let mut empty = Catalog::empty();
    assert_eq!(empty.apply(Statement::CreateIndex(Index::CreatedAt)), Err(DbError::Catalog));
}

#[test]
fn legacy_table_with_repeated_column_is_refused() {
    assert!(Catalog::with_tokens(&vec![Column::Id, Column::Id]).is_none());
}

#[test]
fn row_of_wrong_length_is_refused() {
    let mut cat = Catalog::with_tokens(&vec![Column::Id, Column::TenantUrl]).unwrap();
    assert_eq!(cat.insert_row(vec![Cell::Null]), Err(DbError::Catalog));
    assert_eq!(cat.row_count(), Some(0));
    let mut empty = Catalog::empty();
    assert_eq!(empty.insert_row(vec![]), Err(DbError::Catalog));
    assert_eq!(empty.install_legacy_trigger(), Err(DbError::Catalog));
}

#[test]
fn statement_texts() {
    assert_eq!(
        Statement::CreateIndex(Index::CreatedAt).sql(),
        "CREATE INDEX IF NOT EXISTS idx_tokens_created_at ON tokens(created_at)"
    );
    assert_eq!(
        Statement::DropTriggerFunction.sql(),
        "DROP FUNCTION IF EXISTS update_updated_at_column() CASCADE"
    );
    assert_eq!(
        Statement::AddColumn(Column::Suspensions).sql(),
        "ALTER TABLE tokens ADD COLUMN suspensions JSONB"
    );
    assert_eq!(
        Statement::AddColumn(Column::SkipCheck).sql(),
        "ALTER TABLE tokens ADD COLUMN skip_check BOOLEAN"
    );
    assert_eq!(Statement::DropTable(Table::SyncStatus).sql(), "DROP TABLE IF EXISTS sync_status CASCADE");
    assert!(Statement::CreateTokens.sql().contains("skip_check BOOLEAN"));
    assert!(Statement::CreateTokens.sql().contains("id VARCHAR(255) PRIMARY KEY"));
}

#[test]
fn probe_texts_and_params() {
    let p = Probe::ColumnExists(Column::AuthSession);
    assert!(p.query().contains("information_schema.columns"));
    assert!(p.query().contains("table_schema = 'public'"));
    assert_eq!(p.params(), vec!["tokens", "auth_session"]);
    let t = Probe::TableExists(Table::Tokens);
    assert!(t.query().contains("information_schema.tables"));
    assert_eq!(t.params(), vec!["tokens"]);
}

#[test]
fn notice_texts() {
    assert_eq!(Notice::Added(Column::TagColor).text(), "Added tag_color column to tokens table");
    assert_eq!(Notice::TriggerRemoved.text(), "Removed updated_at trigger and function");
}

#[test]
fn table_probe_answer() {
    assert!(check_tables_exist(Some(true)));
    assert!(!check_tables_exist(Some(false)));
    assert!(!check_tables_exist(None));
}

#[test]
fn routine_orders() {
    assert_eq!(create_tables().len(), 6);
    assert_eq!(create_tables()[0], Step::Run(Statement::CreateTokens));
    assert_eq!(
        remove_updated_at_trigger(),
        vec![
            Step::Run(Statement::DropTrigger),
            Step::Run(Statement::DropTriggerFunction),
            Step::Say(Notice::TriggerRemoved)
        ]
    );
    assert_eq!(
        drop_tables(),
        vec![
            Step::Run(Statement::DropTable(Table::SyncStatus)),
            Step::Run(Statement::DropTable(Table::Tokens)),
            Step::Run(Statement::DropTriggerFunction)
        ]
    );
    assert_eq!(startup().len(), 15);
}

#[test]
fn session_walks_a_missing_column() {
    let mut s = Session::new(vec![Step::AddIfMissing(Column::TagName)]);
    assert_eq!(s.next_action(), Action::Ask(Probe::ColumnExists(Column::TagName)));
    s.handle(Event::Completed);
    assert_eq!(s.next_action(), Action::Ask(Probe::ColumnExists(Column::TagName)));
    s.handle(Event::Answered(None));
    assert_eq!(s.next_action(), Action::Execute(Statement::AddColumn(Column::TagName)));
    s.handle(Event::Completed);
    assert_eq!(s.next_action(), Action::Emit(Notice::Added(Column::TagName)));
    s.handle(Event::Completed);
    assert_eq!(s.next_action(), Action::Finished);
}

#[test]
fn session_skips_a_present_column() {
    let mut s = Session::new(vec![Step::AddIfMissing(Column::TagName)]);
    s.handle(Event::Answered(Some(true)));
    assert_eq!(s.next_action(), Action::Finished);
}

#[test]
fn session_stops_on_error() {
    let mut s = Session::new(create_tables());
    assert_eq!(s.next_action(), Action::Execute(Statement::CreateTokens));
    s.handle(Event::Completed);
    s.handle(Event::Errored(DbError::Authorization));
    assert_eq!(s.next_action(), Action::Failed(DbError::Authorization));
    s.handle(Event::Completed);
    assert_eq!(s.next_action(), Action::Failed(DbError::Authorization));
}

#[test]
fn sqlstate_classes() {
    assert_eq!(DbError::from_sqlstate(None), DbError::Transport);
    assert_eq!(DbError::from_sqlstate(Some("08006")), DbError::Transport);
    assert_eq!(DbError::from_sqlstate(Some("42501")), DbError::Authorization);
    assert_eq!(DbError::from_sqlstate(Some("28P01")), DbError::Authorization);
    assert_eq!(DbError::from_sqlstate(Some("42701")), DbError::Duplicate);
    assert_eq!(DbError::from_sqlstate(Some("42P07")), DbError::Duplicate);
    assert_eq!(DbError::from_sqlstate(Some("42P01")), DbError::Catalog);
    assert_eq!(DbError::from_sqlstate(Some("4")), DbError::Catalog);
}
