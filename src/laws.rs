use vstd::prelude::*;
use crate::catalog::{
    CatalogModel, TableModel, apply_spec, catalog_wf, empty_model, fresh_tokens, has_column,
    has_index, lemma_apply_keeps_wf, null_column, stamp_after_update_spec,
};
use crate::routine::{
    Notice, Outcome, Step, after, cleaner_steps, creator_steps, done, dropper_steps,
    patcher_steps, run, run_from, startup_steps, step_effect,
};
use crate::schema::{Column, Index, late_columns, lemma_every_column_listed, token_columns};
use crate::session::{lemma_after_after, lemma_after_empty};
use crate::statement::Statement;

verus! {

/// `u` holds every row and every column of `t` unchanged, and any further
/// columns hold no values.
pub open spec fn extends(t: TableModel, u: TableModel) -> bool {
    &&& u.rows == t.rows
    &&& t.columns.len() <= u.columns.len()
    &&& forall|j: int|
        0 <= j < t.columns.len() ==> (#[trigger] u.columns[j]) == t.columns[j] && u.data[j]
            == t.data[j]
    &&& forall|j: int| t.columns.len() <= j < u.columns.len() ==> (#[trigger] u.data[j]) == null_column(t.rows)
}

/// The catalog after the creator: both tables, both indexes, no trigger.
pub open spec fn created(m: CatalogModel) -> CatalogModel {
    CatalogModel {
        tokens: if m.tokens is Some { m.tokens } else { Some(fresh_tokens()) },
        sync_status: true,
        index_created_at: true,
        index_updated_at: true,
        trigger: false,
        trigger_function: false,
    }
}

/// Runs `a` and then, unless it failed, `b`.
pub open spec fn then(o: Outcome, b: Seq<Step>) -> Outcome {
    if o.result is Err {
        o
    } else {
        after(o.notices, run(b, o.catalog))
    }
}

proof fn lemma_run_shift(a: Seq<Step>, b: Seq<Step>, k: int, m: CatalogModel)
    requires
        0 <= k <= b.len(),
    ensures
        run_from(a + b, a.len() + k, m) == run_from(b, k, m),
    decreases b.len() - k,
{
    if k < b.len() {
        assert((a + b)[a.len() + k] == b[k]);
        let o = step_effect(m, b[k]);
        if o.result is Ok {
            lemma_run_shift(a, b, k + 1, o.catalog);
        }
    }
}

proof fn lemma_run_from_append(a: Seq<Step>, b: Seq<Step>, i: int, m: CatalogModel)
    requires
        0 <= i <= a.len(),
    ensures
        run_from(a + b, i, m) == then(run_from(a, i, m), b),
    decreases a.len() - i,
{
    if i == a.len() {
        lemma_run_shift(a, b, 0, m);
        lemma_after_empty(run(b, m));
    } else {
        assert((a + b)[i] == a[i]);
        let o = step_effect(m, a[i]);
        if o.result is Ok {
            lemma_run_from_append(a, b, i + 1, o.catalog);
            let r = run_from(a, i + 1, o.catalog);
            if r.result is Ok {
                lemma_after_after(o.notices, r.notices, run(b, r.catalog));
            }
        }
    }
}

/// Running `a + b` is running `a`, then `b` from where `a` left off.
pub proof fn lemma_run_append(a: Seq<Step>, b: Seq<Step>, m: CatalogModel)
    ensures
        run(a + b, m) == then(run(a, m), b),
{
    lemma_run_from_append(a, b, 0, m);
}

/// The creator never fails and leaves the catalog as `created` says.
pub proof fn lemma_creator(m: CatalogModel)
    requires
        catalog_wf(m),
    ensures
        run(creator_steps(), m) == done(created(m), Seq::empty()),
        catalog_wf(created(m)),
{
    reveal_with_fuel(run_from, 7);
    let s = creator_steps();
    let m1 = apply_spec(m, s[0]->Run_0)->Ok_0;
    lemma_apply_keeps_wf(m, s[0]->Run_0);
    let m2 = apply_spec(m1, s[1]->Run_0)->Ok_0;
    let m3 = apply_spec(m2, s[2]->Run_0)->Ok_0;
    let m4 = apply_spec(m3, s[3]->Run_0)->Ok_0;
    let m5 = apply_spec(m4, s[4]->Run_0)->Ok_0;
    let m6 = apply_spec(m5, s[5]->Run_0)->Ok_0;
    assert(m6 == created(m));
    assert(Seq::<Notice>::empty() + Seq::<Notice>::empty() =~= Seq::<Notice>::empty());
    assert(token_columns().no_duplicates());
}

/// The trigger cleaner never fails, drops the trigger and its function and
/// says so.
pub proof fn lemma_cleaner(m: CatalogModel)
    ensures
        run(cleaner_steps(), m) == done(
            CatalogModel { trigger: false, trigger_function: false, ..m },
            seq![Notice::TriggerRemoved],
        ),
{
    reveal_with_fuel(run_from, 4);
    assert(Seq::<Notice>::empty() + (Seq::<Notice>::empty() + (seq![Notice::TriggerRemoved]
        + Seq::<Notice>::empty())) =~= seq![Notice::TriggerRemoved]);
}

pub open spec fn only_additions(steps: Seq<Step>, i: int) -> bool {
    forall|k: int| i <= k < steps.len() ==> (#[trigger] steps[k]) is AddIfMissing
}

/// Patching from step `i` on never fails on an existing `tokens`, keeps its
/// rows and columns, adds the missing columns, and changes nothing when none
/// is missing.
pub proof fn lemma_patch_from(steps: Seq<Step>, i: int, m: CatalogModel)
    requires
        0 <= i <= steps.len(),
        only_additions(steps, i),
        catalog_wf(m),
        m.tokens is Some,
    ensures
        ({
            let o = run_from(steps, i, m);
            &&& o.result is Ok
            &&& catalog_wf(o.catalog)
            &&& o.catalog.tokens is Some
            &&& extends(m.tokens->Some_0, o.catalog.tokens->Some_0)
            &&& CatalogModel { tokens: m.tokens, ..o.catalog } == m
            &&& forall|k: int|
                i <= k < steps.len() ==> has_column(o.catalog, (#[trigger] steps[k])->AddIfMissing_0)
            &&& (forall|k: int| i <= k < steps.len() ==> has_column(m, (#[trigger] steps[k])->AddIfMissing_0))
                ==> o == done(m, Seq::empty())
        }),
    decreases steps.len() - i,
{
    if i < steps.len() {
        let c = steps[i]->AddIfMissing_0;
        assert(steps[i] is AddIfMissing);
        let o = step_effect(m, steps[i]);
        let t = m.tokens->Some_0;
        if !has_column(m, c) {
            lemma_apply_keeps_wf(m, Statement::AddColumn(c));
        }
        let m1 = o.catalog;
        assert(extends(t, m1.tokens->Some_0));
        lemma_patch_from(steps, i + 1, m1);
        let r = run_from(steps, i + 1, m1);
        let u = r.catalog.tokens->Some_0;
        let v = m1.tokens->Some_0;
        assert(extends(v, u));
        assert(t.columns.len() <= v.columns.len());
        assert(extends(t, u)) by {
            assert forall|j: int| 0 <= j < t.columns.len() implies (#[trigger] u.columns[j])
                == t.columns[j] && u.data[j] == t.data[j] by {
                assert(v.columns[j] == t.columns[j] && v.data[j] == t.data[j]);
                assert(u.columns[j] == v.columns[j] && u.data[j] == v.data[j]);
            }
            assert forall|j: int| t.columns.len() <= j < u.columns.len() implies (#[trigger] u.data[j])
                == null_column(t.rows) by {
                if j < v.columns.len() {
                    assert(v.data[j] == null_column(t.rows));
                }
            }
        }
        assert(has_column(r.catalog, c)) by {
            if has_column(m, c) {
                let p = choose|p: int| 0 <= p < t.columns.len() && t.columns[p] == c;
                assert(u.columns[p] == c);
            } else {
                assert(v.columns[t.columns.len() as int] == c);
                assert(u.columns[t.columns.len() as int] == c);
            }
        }
        if forall|k: int| i <= k < steps.len() ==> has_column(m, (#[trigger] steps[k])->AddIfMissing_0) {
            assert(has_column(m, c));
            lemma_after_empty(r);
        }
    }
}

/// The patcher never fails on an existing `tokens`: it keeps every row and
/// every existing column's values, and afterwards each late column is
/// present, holding no value in the rows that predate it.
pub proof fn law_patcher_preserves_data(m: CatalogModel)
    requires
        catalog_wf(m),
        m.tokens is Some,
    ensures
        ({
            let o = run(patcher_steps(), m);
            &&& o.result is Ok
            &&& o.catalog.tokens is Some
            &&& extends(m.tokens->Some_0, o.catalog.tokens->Some_0)
            &&& forall|c: Column| late_columns().contains(c) ==> has_column(o.catalog, c)
        }),
{
    let p = patcher_steps();
    lemma_patch_from(p, 0, m);
    assert forall|c: Column| late_columns().contains(c) implies has_column(run(p, m).catalog, c) by {
        let k = choose|k: int| 0 <= k < late_columns().len() && late_columns()[k] == c;
        assert(p[k]->AddIfMissing_0 == c);
    }
}

/// What the startup routine does to any consistent catalog.
pub proof fn lemma_startup(m: CatalogModel)
    requires
        catalog_wf(m),
    ensures
        ({
            let o = run(startup_steps(), m);
            let base = CatalogModel { trigger: false, trigger_function: false, ..created(m) };
            &&& o.result is Ok
            &&& catalog_wf(o.catalog)
            &&& o.catalog.tokens is Some
            &&& extends(base.tokens->Some_0, o.catalog.tokens->Some_0)
            &&& CatalogModel { tokens: base.tokens, ..o.catalog } == base
            &&& forall|c: Column| late_columns().contains(c) ==> has_column(o.catalog, c)
            &&& (forall|c: Column| late_columns().contains(c) ==> has_column(base, c))
                ==> o == done(base, seq![Notice::TriggerRemoved])
        }),
{
    let a = creator_steps();
    let b = cleaner_steps();
    let p = patcher_steps();
    lemma_run_append(a + b, p, m);
    lemma_run_append(a, b, m);
    lemma_creator(m);
    lemma_cleaner(created(m));
    lemma_after_empty(run(b, created(m)));
    let base = CatalogModel { trigger: false, trigger_function: false, ..created(m) };
    lemma_patch_from(p, 0, base);
    let o = run(startup_steps(), m);
    assert forall|c: Column| late_columns().contains(c) implies has_column(o.catalog, c) by {
        let k = choose|k: int| 0 <= k < late_columns().len() && late_columns()[k] == c;
        assert(p[k]->AddIfMissing_0 == c);
    }
    if forall|c: Column| late_columns().contains(c) ==> has_column(base, c) {
        assert forall|k: int| 0 <= k < p.len() implies has_column(base, (#[trigger] p[k])->AddIfMissing_0) by {
            assert(late_columns().contains(late_columns()[k]));
        }
        assert(seq![Notice::TriggerRemoved] + Seq::<Notice>::empty() =~= seq![Notice::TriggerRemoved]);
    }
}

/// Idempotence: on any consistent catalog the startup routine succeeds, and
/// a second run succeeds too, leaves the catalog exactly as the first run
/// left it, and adds no column: its only line is the cleaner's.
pub proof fn law_startup_idempotent(m: CatalogModel)
    requires
        catalog_wf(m),
    ensures
        ({
            let o1 = run(startup_steps(), m);
            let o2 = run(startup_steps(), o1.catalog);
            &&& o1.result is Ok
            &&& o2.result is Ok
            &&& o2.catalog == o1.catalog
            &&& o2.notices == seq![Notice::TriggerRemoved]
        }),
{
    lemma_startup(m);
    let c1 = run(startup_steps(), m).catalog;
    lemma_startup(c1);
    let base = CatalogModel { trigger: false, trigger_function: false, ..created(c1) };
    assert(base == c1);
}

/// Completeness: from an empty database the startup routine succeeds and
/// leaves both tables, both indexes and every column of `tokens`.
pub proof fn law_complete_from_empty()
    ensures
        ({
            let o = run(startup_steps(), empty_model());
            &&& o.result is Ok
            &&& o.catalog.tokens == Some(fresh_tokens())
            &&& o.catalog.tokens->Some_0.columns == token_columns()
            &&& o.catalog.sync_status
            &&& has_index(o.catalog, Index::CreatedAt)
            &&& has_index(o.catalog, Index::UpdatedAt)
            &&& forall|c: Column| has_column(o.catalog, c)
        }),
{
    let m = empty_model();
    lemma_startup(m);
    let base = CatalogModel { trigger: false, trigger_function: false, ..created(m) };
    assert forall|c: Column| has_column(base, c) by {
        lemma_every_column_listed(c);
    }
}

/// No trigger survives: after the startup routine, from any consistent
/// catalog, neither the legacy trigger nor its function exists.
pub proof fn law_no_trigger_survives(m: CatalogModel)
    requires
        catalog_wf(m),
    ensures
        run(startup_steps(), m).result is Ok,
        !run(startup_steps(), m).catalog.trigger,
        !run(startup_steps(), m).catalog.trigger_function,
{
    lemma_startup(m);
}

/// After the startup routine, an update of a row's other columns leaves its
/// `updated_at` as it was.
pub proof fn law_updated_at_kept(m: CatalogModel, before: i64, now: i64)
    requires
        catalog_wf(m),
    ensures
        stamp_after_update_spec(run(startup_steps(), m).catalog, before, now) == before,
{
    lemma_startup(m);
}

/// The dropper leaves an empty database, from any consistent catalog, and
/// the creator and the startup routine then succeed.
pub proof fn law_dropper_inverse(m: CatalogModel)
    requires
        catalog_wf(m),
    ensures
        run(dropper_steps(), m) == done(empty_model(), Seq::empty()),
        run(creator_steps(), empty_model()).result is Ok,
        run(startup_steps(), empty_model()).result is Ok,
{
    reveal_with_fuel(run_from, 4);
    assert(Seq::<Notice>::empty() + (Seq::<Notice>::empty() + (Seq::<Notice>::empty()
        + Seq::<Notice>::empty())) =~= Seq::<Notice>::empty());
    lemma_creator(empty_model());
    lemma_startup(empty_model());
}

} // verus!
