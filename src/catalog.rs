use vstd::prelude::*;
use crate::error::DbError;
use crate::schema::{Column, Index, Table, token_columns, all_token_columns};
use crate::statement::{Probe, Statement};

verus! {

/// A stored value.
#[derive(Clone, Debug, PartialEq, Eq)]
pub enum Cell {
    Null,
    Text(String),
    Flag(bool),
    Stamp(i64),
}

/// The abstract state of `tokens`: its columns in order, and the values
/// stored column by column, each column holding one cell per row.
pub ghost struct TableModel {
    pub columns: Seq<Column>,
    pub data: Seq<Seq<Cell>>,
    pub rows: nat,
}

/// The abstract state of the schema objects that the routine manages.
pub ghost struct CatalogModel {
    pub tokens: Option<TableModel>,
    pub sync_status: bool,
    pub index_created_at: bool,
    pub index_updated_at: bool,
    pub trigger: bool,
    pub trigger_function: bool,
}

pub open spec fn table_wf(t: TableModel) -> bool {
    &&& t.columns.no_duplicates()
    &&& t.data.len() == t.columns.len()
    &&& forall|j: int| 0 <= j < t.data.len() ==> (#[trigger] t.data[j]).len() == t.rows
}

/// A consistent catalog: indexes and the trigger live on an existing
/// `tokens`, and the trigger needs its function.
pub open spec fn catalog_wf(m: CatalogModel) -> bool {
    &&& m.tokens is Some ==> table_wf(m.tokens->Some_0)
    &&& m.tokens is None ==> !m.index_created_at && !m.index_updated_at && !m.trigger
    &&& m.trigger ==> m.trigger_function
}

pub open spec fn has_index(m: CatalogModel, i: Index) -> bool {
    match i {
        Index::CreatedAt => m.index_created_at,
        Index::UpdatedAt => m.index_updated_at,
    }
}

pub open spec fn has_column(m: CatalogModel, c: Column) -> bool {
    m.tokens is Some && m.tokens->Some_0.columns.contains(c)
}

pub open spec fn has_table(m: CatalogModel, t: Table) -> bool {
    match t {
        Table::Tokens => m.tokens is Some,
        Table::SyncStatus => m.sync_status,
    }
}

/// `tokens` as its creation statement makes it: every column, no rows.
pub open spec fn fresh_tokens() -> TableModel {
    TableModel {
        columns: token_columns(),
        data: Seq::new(token_columns().len(), |j: int| Seq::<Cell>::empty()),
        rows: 0,
    }
}

pub open spec fn null_column(rows: nat) -> Seq<Cell> {
    Seq::new(rows, |i: int| Cell::Null)
}

pub open spec fn with_index(m: CatalogModel, i: Index) -> CatalogModel {
    match i {
        Index::CreatedAt => CatalogModel { index_created_at: true, ..m },
        Index::UpdatedAt => CatalogModel { index_updated_at: true, ..m },
    }
}

/// What a statement does to the catalog, or the error it raises.
pub open spec fn apply_spec(m: CatalogModel, s: Statement) -> Result<CatalogModel, DbError> {
    match s {
        Statement::CreateTokens => Ok(
            if m.tokens is Some { m } else { CatalogModel { tokens: Some(fresh_tokens()), ..m } },
        ),
        Statement::CreateIndex(i) => if m.tokens is None {
            Err(DbError::Catalog)
        } else {
            Ok(with_index(m, i))
        },
        Statement::CreateSyncStatus => Ok(CatalogModel { sync_status: true, ..m }),
        Statement::DropTrigger => Ok(CatalogModel { trigger: false, ..m }),
        Statement::DropTriggerFunction => Ok(
            CatalogModel { trigger: false, trigger_function: false, ..m },
        ),
        Statement::DropTable(Table::Tokens) => Ok(
            CatalogModel {
                tokens: None,
                index_created_at: false,
                index_updated_at: false,
                trigger: false,
                ..m
            },
        ),
        Statement::DropTable(Table::SyncStatus) => Ok(CatalogModel { sync_status: false, ..m }),
        Statement::AddColumn(c) => match m.tokens {
            None => Err(DbError::Catalog),
            Some(t) => if t.columns.contains(c) {
                Err(DbError::Duplicate)
            } else {
                Ok(
                    CatalogModel {
                        tokens: Some(
                            TableModel {
                                columns: t.columns.push(c),
                                data: t.data.push(null_column(t.rows)),
                                rows: t.rows,
                            },
                        ),
                        ..m
                    },
                )
            },
        },
    }
}

/// The answer a probe gets.
pub open spec fn probe_spec(m: CatalogModel, p: Probe) -> bool {
    match p {
        Probe::TableExists(t) => has_table(m, t),
        Probe::ColumnExists(c) => has_column(m, c),
    }
}

/// The `updated_at` a row has after an update of its other columns, when it
/// held `before` and the update ran at instant `now`: only the legacy
/// trigger rewrites it.
pub open spec fn stamp_after_update_spec(m: CatalogModel, before: i64, now: i64) -> i64 {
    if m.trigger {
        now
    } else {
        before
    }
}

pub proof fn lemma_apply_keeps_wf(m: CatalogModel, s: Statement)
    requires
        catalog_wf(m),
        apply_spec(m, s) is Ok,
    ensures
        catalog_wf(apply_spec(m, s)->Ok_0),
{
    let r = apply_spec(m, s)->Ok_0;
    match s {
        Statement::AddColumn(c) => {
            let t = m.tokens->Some_0;
            let u = r.tokens->Some_0;
            assert forall|j: int| 0 <= j < u.data.len() implies (#[trigger] u.data[j]).len()
                == u.rows by {
                if j < t.data.len() {
                    assert(u.data[j] == t.data[j]);
                }
            }
            assert(u.columns.no_duplicates()) by {
                assert forall|a: int, b: int|
                    0 <= a < u.columns.len() && 0 <= b < u.columns.len() && a != b implies
                    u.columns[a] != u.columns[b] by {
                    if a == t.columns.len() as int {
                        assert(t.columns.contains(t.columns[b]));
                    } else if b == t.columns.len() as int {
                        assert(t.columns.contains(t.columns[a]));
                    }
                }
            }
        },
        Statement::CreateTokens => {
            if m.tokens is None {
                assert(token_columns().no_duplicates());
            }
        },
        _ => {},
    }
}

/// The columns of `tokens`, with the cells stored column by column.
#[derive(Clone, Debug, PartialEq, Eq)]
pub struct TokensTable {
    columns: Vec<Column>,
    data: Vec<Vec<Cell>>,
    rows: usize,
}

impl TokensTable {
    pub closed spec fn view(&self) -> TableModel {
        TableModel {
            columns: self.columns@,
            data: self.data@.map_values(|v: Vec<Cell>| v@),
            rows: self.rows as nat,
        }
    }
}

/// An in-memory catalog that executes statements as the database does.
#[derive(Clone, Debug, PartialEq, Eq)]
pub struct Catalog {
    tokens: Option<TokensTable>,
    sync_status: bool,
    index_created_at: bool,
    index_updated_at: bool,
    trigger: bool,
    trigger_function: bool,
}

impl View for Catalog {
    type V = CatalogModel;

    closed spec fn view(&self) -> CatalogModel {
        CatalogModel {
            tokens: match self.tokens {
                Some(t) => Some(t.view()),
                None => None,
            },
            sync_status: self.sync_status,
            index_created_at: self.index_created_at,
            index_updated_at: self.index_updated_at,
            trigger: self.trigger,
            trigger_function: self.trigger_function,
        }
    }
}

/// The empty database.
pub open spec fn empty_model() -> CatalogModel {
    CatalogModel {
        tokens: None,
        sync_status: false,
        index_created_at: false,
        index_updated_at: false,
        trigger: false,
        trigger_function: false,
    }
}

fn column_position(columns: &Vec<Column>, c: Column) -> (r: Option<usize>)
    ensures
        match r {
            Some(j) => j < columns@.len() && columns@[j as int] == c,
            None => !columns@.contains(c),
        },
{
    let mut j: usize = 0;
    while j < columns.len()
        invariant
            j <= columns@.len(),
            forall|k: int| 0 <= k < j ==> columns@[k] != c,
        decreases columns@.len() - j,
    {
        if columns[j] == c {
            return Some(j);
        }
        j = j + 1;
    }
    None
}

fn nulls(rows: usize) -> (r: Vec<Cell>)
    ensures
        r@ == null_column(rows as nat),
{
    let mut r: Vec<Cell> = Vec::new();
    let mut i: usize = 0;
    while i < rows
        invariant
            i <= rows,
            r@ == null_column(i as nat),
        decreases rows - i,
    {
        r.push(Cell::Null);
        i = i + 1;
        assert(r@ =~= null_column(i as nat));
    }
    r
}

fn fresh_table() -> (r: TokensTable)
    ensures
        r.view() == fresh_tokens(),
{
    let columns = all_token_columns();
    let mut data: Vec<Vec<Cell>> = Vec::new();
    let mut j: usize = 0;
    while j < columns.len()
        invariant
            j <= columns@.len(),
            columns@ == token_columns(),
            data@.len() == j,
            forall|k: int| 0 <= k < j ==> (#[trigger] data@[k])@ == Seq::<Cell>::empty(),
        decreases columns@.len() - j,
    {
        data.push(Vec::new());
        j = j + 1;
    }
    let r = TokensTable { columns, data, rows: 0 };
    assert(r.view().data =~= fresh_tokens().data);
    r
}

impl Catalog {
    pub closed spec fn wf(&self) -> bool {
        catalog_wf(self@)
    }

    /// A database with none of the routine's objects.
    pub fn empty() -> (r: Catalog)
        ensures
            r@ == empty_model(),
            r.wf(),
    {
        Catalog {
            tokens: None,
            sync_status: false,
            index_created_at: false,
            index_updated_at: false,
            trigger: false,
            trigger_function: false,
        }
    }

    /// Executes one statement: on success the catalog is as `apply_spec`
    /// says, on failure it is unchanged.
    pub fn apply(&mut self, s: Statement) -> (r: Result<(), DbError>)
        requires
            old(self).wf(),
        ensures
            final(self).wf(),
            match apply_spec(old(self)@, s) {
                Ok(m) => r is Ok && final(self)@ == m,
                Err(e) => r == Err::<(), DbError>(e) && final(self)@ == old(self)@,
            },
    {
        proof {
            if apply_spec(self@, s) is Ok {
                lemma_apply_keeps_wf(self@, s);
            }
        }
        match s {
            Statement::CreateTokens => {
                if self.tokens.is_none() {
                    self.tokens = Some(fresh_table());
                }
                Ok(())
            },
            Statement::CreateIndex(i) => {
                if self.tokens.is_none() {
                    return Err(DbError::Catalog);
                }
                match i {
                    Index::CreatedAt => self.index_created_at = true,
                    Index::UpdatedAt => self.index_updated_at = true,
                }
                Ok(())
            },
            Statement::CreateSyncStatus => {
                self.sync_status = true;
                Ok(())
            },
            Statement::DropTrigger => {
                self.trigger = false;
                Ok(())
            },
            Statement::DropTriggerFunction => {
                self.trigger = false;
                self.trigger_function = false;
                Ok(())
            },
            Statement::DropTable(Table::Tokens) => {
                self.tokens = None;
                self.index_created_at = false;
                self.index_updated_at = false;
                self.trigger = false;
                Ok(())
            },
            Statement::DropTable(Table::SyncStatus) => {
                self.sync_status = false;
                Ok(())
            },
            Statement::AddColumn(c) => {
                match self.tokens.take() {
                    None => Err(DbError::Catalog),
                    Some(t) => {
                        if column_position(&t.columns, c).is_some() {
                            self.tokens = Some(t);
                            return Err(DbError::Duplicate);
                        }
                        let TokensTable { mut columns, mut data, rows } = t;
                        let ghost old_data = data@;
                        columns.push(c);
                        data.push(nulls(rows));
                        let u = TokensTable { columns, data, rows };
                        assert(u.view().data =~= old_data.map_values(|v: Vec<Cell>| v@).push(
                            null_column(rows as nat),
                        ));
                        self.tokens = Some(u);
                        Ok(())
                    },
                }
            },
        }
    }

    /// Answers a probe.
    pub fn answer(&self, p: Probe) -> (r: bool)
        ensures
            r == probe_spec(self@, p),
    {
        match p {
            Probe::TableExists(Table::Tokens) => self.tokens.is_some(),
            Probe::TableExists(Table::SyncStatus) => self.sync_status,
            Probe::ColumnExists(c) => match &self.tokens {
                None => false,
                Some(t) => column_position(&t.columns, c).is_some(),
            },
        }
    }
}

/// `tokens` with the given columns and no rows.
pub open spec fn bare_tokens(columns: Seq<Column>) -> TableModel {
    TableModel {
        columns,
        data: Seq::new(columns.len(), |j: int| Seq::<Cell>::empty()),
        rows: 0,
    }
}

/// The value stored in row `row` of column `c`, if both exist.
pub open spec fn cell_spec(m: CatalogModel, row: int, c: Column) -> Option<Cell> {
    if has_column(m, c) && 0 <= row < m.tokens->Some_0.rows {
        let t = m.tokens->Some_0;
        Some(t.data[t.columns.index_of(c)][row])
    } else {
        None
    }
}

impl Catalog {
    /// A database that holds only a `tokens` table with exactly `columns`,
    /// in order, and no rows, as an older deployment may have; `None` when
    /// a column repeats.
    pub fn with_tokens(columns: &Vec<Column>) -> (r: Option<Catalog>)
        ensures
            match r {
                Some(c) => c.wf() && c@ == (CatalogModel {
                    tokens: Some(bare_tokens(columns@)),
                    ..empty_model()
                }),
                None => !columns@.no_duplicates(),
            },
    {
        let mut cat = Catalog::empty();
        cat.tokens = Some(TokensTable { columns: Vec::new(), data: Vec::new(), rows: 0 });
        proof {
            assert(cat@.tokens->Some_0.data =~= bare_tokens(Seq::empty()).data);
            assert(columns@.take(0) =~= Seq::<Column>::empty());
        }
        let mut i: usize = 0;
        while i < columns.len()
            invariant
                i <= columns@.len(),
                cat.wf(),
                cat@ == (CatalogModel {
                    tokens: Some(bare_tokens(columns@.take(i as int))),
                    ..empty_model()
                }),
            decreases columns@.len() - i,
        {
            let c = columns[i];
            let ghost before = cat@;
            match cat.apply(Statement::AddColumn(c)) {
                Ok(()) => {},
                Err(_) => {
                    proof {
                        let pre = columns@.take(i as int);
                        let p = choose|p: int| 0 <= p < pre.len() && pre[p] == c;
                        assert(columns@[p] == columns@[i as int]);
                    }
                    return None;
                },
            }
            proof {
                assert(columns@.take(i + 1) =~= columns@.take(i as int).push(c));
                assert(null_column(0) =~= Seq::<Cell>::empty());
                assert(cat@.tokens->Some_0.data =~= bare_tokens(columns@.take(i + 1)).data);
            }
            i = i + 1;
        }
        assert(columns@.take(i as int) =~= columns@);
        Some(cat)
    }

    /// Stores a row whose cells follow the order of the columns of
    /// `tokens`. Fails with `Catalog`, changing nothing, when `tokens` is
    /// missing, the row's length differs from the number of columns, or the
    /// row count is at its limit.
    pub fn insert_row(&mut self, row: Vec<Cell>) -> (r: Result<(), DbError>)
        requires
            old(self).wf(),
        ensures
            final(self).wf(),
            match old(self)@.tokens {
                Some(t) => if row@.len() == t.columns.len() && t.rows < usize::MAX {
                    r is Ok && final(self)@ == (CatalogModel {
                        tokens: Some(TableModel {
                            columns: t.columns,
                            data: Seq::new(t.data.len(), |j: int| t.data[j].push(row@[j])),
                            rows: t.rows + 1,
                        }),
                        ..old(self)@
                    })
                } else {
                    r == Err::<(), DbError>(DbError::Catalog) && final(self)@ == old(self)@
                },
                None => r == Err::<(), DbError>(DbError::Catalog) && final(self)@ == old(self)@,
            },
    {
        let t = match self.tokens.take() {
            None => return Err(DbError::Catalog),
            Some(t) => t,
        };
        if row.len() != t.columns.len() || t.rows == usize::MAX {
            self.tokens = Some(t);
            return Err(DbError::Catalog);
        }
        let ghost tm = t.view();
        let ghost cells = row@;
        let TokensTable { columns, data: mut rest, rows } = t;
        let mut row = row;
        let mut data: Vec<Vec<Cell>> = Vec::new();
        let n = columns.len();
        let mut j: usize = 0;
        while j < n
            invariant
                n == columns@.len() == tm.columns.len() == tm.data.len() == cells.len(),
                j <= n,
                data@.len() == j,
                rest@.len() == n - j,
                row@ == cells.skip(j as int),
                forall|k: int| 0 <= k < n - j ==> (#[trigger] rest@[k])@ == tm.data[k + j],
                forall|k: int| 0 <= k < j ==> (#[trigger] data@[k])@ == tm.data[k].push(cells[k]),
            decreases n - j,
        {
            let ghost rest0 = rest@;
            let mut col = rest.remove(0);
            let cell = row.remove(0);
            col.push(cell);
            data.push(col);
            proof {
                assert forall|k: int| 0 <= k < n - (j + 1) implies (#[trigger] rest@[k])@ == tm.data[k + j + 1] by {
                    assert(rest@[k] == rest0[k + 1]);
                }
                assert(row@ =~= cells.skip(j + 1));
            }
            j = j + 1;
        }
        let u = TokensTable { columns, data, rows: rows + 1 };
        assert(u.view().data =~= Seq::new(tm.data.len(), |k: int| tm.data[k].push(cells[k])));
        self.tokens = Some(u);
        Ok(())
    }

    /// Installs the legacy trigger and its function on `tokens`, as older
    /// deployments did. Fails with `Catalog` when `tokens` is missing.
    pub fn install_legacy_trigger(&mut self) -> (r: Result<(), DbError>)
        requires
            old(self).wf(),
        ensures
            final(self).wf(),
            if old(self)@.tokens is Some {
                r is Ok && final(self)@ == (CatalogModel {
                    trigger: true,
                    trigger_function: true,
                    ..old(self)@
                })
            } else {
                r == Err::<(), DbError>(DbError::Catalog) && final(self)@ == old(self)@
            },
    {
        if self.tokens.is_none() {
            return Err(DbError::Catalog);
        }
        self.trigger = true;
        self.trigger_function = true;
        Ok(())
    }

    /// The `updated_at` a row ends with when it held `before` and an update
    /// of its other columns ran at `now`.
    pub fn stamp_after_update(&self, before: i64, now: i64) -> (r: i64)
        ensures
            r == stamp_after_update_spec(self@, before, now),
    {
        if self.trigger {
            now
        } else {
            before
        }
    }

    /// The value in row `row` of column `c`, if both exist.
    pub fn cell(&self, row: usize, c: Column) -> (r: Option<&Cell>)
        requires
            self.wf(),
        ensures
            match r {
                Some(x) => cell_spec(self@, row as int, c) == Some(*x),
                None => cell_spec(self@, row as int, c) is None,
            },
    {
        match &self.tokens {
            None => None,
            Some(t) => {
                if row >= t.rows {
                    return None;
                }
                match column_position(&t.columns, c) {
                    None => None,
                    Some(p) => {
                        proof {
                            let cols = t.columns@;
                            assert(cols.contains(c));
                            let q = cols.index_of(c);
                            assert(cols[q] == c);
                            assert(q == p as int);
                            assert(t.view().data[p as int] == t.data@[p as int]@);
                        }
                        Some(&t.data[p][row])
                    },
                }
            },
        }
    }

    /// The number of columns of `tokens`, if it exists.
    pub fn column_count(&self) -> (r: Option<usize>)
        ensures
            match self@.tokens {
                Some(t) => r == Some(t.columns.len() as usize),
                None => r is None,
            },
    {
        match &self.tokens {
            None => None,
            Some(t) => Some(t.columns.len()),
        }
    }

    /// The number of rows of `tokens`, if it exists.
    pub fn row_count(&self) -> (r: Option<usize>)
        ensures
            match self@.tokens {
                Some(t) => r == Some(t.rows as usize),
                None => r is None,
            },
    {
        match &self.tokens {
            None => None,
            Some(t) => Some(t.rows),
        }
    }

    /// The columns of `tokens` in order, if it exists.
    pub fn columns(&self) -> (r: Option<&Vec<Column>>)
        ensures
            match self@.tokens {
                Some(t) => r is Some && r->Some_0@ == t.columns,
                None => r is None,
            },
    {
        match &self.tokens {
            None => None,
            Some(t) => Some(&t.columns),
        }
    }

    pub fn has_index(&self, i: Index) -> (r: bool)
        ensures
            r == has_index(self@, i),
    {
        match i {
            Index::CreatedAt => self.index_created_at,
            Index::UpdatedAt => self.index_updated_at,
        }
    }

    pub fn has_trigger(&self) -> (r: bool)
        ensures
            r == self@.trigger,
    {
        self.trigger
    }

    pub fn has_trigger_function(&self) -> (r: bool)
        ensures
            r == self@.trigger_function,
    {
        self.trigger_function
    }
}

} // verus!
