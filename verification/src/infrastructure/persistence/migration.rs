//! Preparing the store: the schema statements and the runner that submits
//! them.

use crate::common::result::{AppError, AppResult};
use crate::store::memory::MemoryStore;
use crate::store::model::{lemma_effect_wf, StoreState};
use crate::store::schema::{layout, EntityKind, SchemaRegistry, ENTITY_COUNT};
use crate::store::statement::{
    statements, Action, ActionView, ReplyView, Statement, StatementView, StoreReply,
};
use vstd::prelude::*;

verus! {

/// The statements that prepare the store for one entity: the table first,
/// then each declared index, in the order the registry lists them.
pub open spec fn table_migration(kind: EntityKind) -> Seq<StatementView> {
    seq![StatementView::CreateTable { kind }] + Seq::new(
        layout(kind).indexes.len(),
        |i: int| StatementView::CreateIndex { kind, column: layout(kind).indexes[i] },
    )
}

/// The statements that prepare the store for one entity.
pub fn migrate_table(kind: EntityKind) -> (plan: Vec<Statement>)
    ensures
        statements(plan@) == table_migration(kind),
{
    let schema = SchemaRegistry::describe(kind);
    let mut plan: Vec<Statement> = Vec::new();
    plan.push(Statement::CreateTable { kind });
    let mut i: usize = 0;
    while i < schema.indexes.len()
        invariant
            i <= schema.indexes.len(),
            schema@ == layout(kind),
            plan.len() == i + 1,
            plan[0]@ == (StatementView::CreateTable { kind }),
            forall|j: int|
                0 <= j < i ==> (#[trigger] plan[j + 1])@ == (StatementView::CreateIndex {
                    kind,
                    column: layout(kind).indexes[j],
                }),
        decreases schema.indexes.len() - i,
    {
        assert(schema@.indexes[i as int] == schema.indexes[i as int] as int);
        plan.push(Statement::CreateIndex { kind, column: schema.indexes[i] });
        i += 1;
    }
    assert(statements(plan@) =~= table_migration(kind)) by {
        assert(schema@.indexes.len() == schema.indexes.len());
        assert forall|j: int| 0 <= j < plan.len() implies statements(plan@)[j] == table_migration(
            kind,
        )[j] by {
            if j > 0 {
                assert(plan[(j - 1) + 1]@ == (StatementView::CreateIndex {
                    kind,
                    column: layout(kind).indexes[j - 1],
                }));
            }
        }
    }
    plan
}

/// The statements that prepare the store for every entity, entity by
/// entity in creation order. No table depends on another.
pub open spec fn full_migration() -> Seq<StatementView> {
    table_migration(EntityKind::Topic) + table_migration(EntityKind::TopicMessage)
        + table_migration(EntityKind::LatestMessage) + table_migration(EntityKind::Notification)
        + table_migration(EntityKind::TopicUser) + table_migration(EntityKind::UserTopic)
}

/// The statements that prepare the store for every entity.
pub fn migrate_all() -> (plan: Vec<Statement>)
    ensures
        statements(plan@) == full_migration(),
{
    let mut plan: Vec<Statement> = Vec::new();
    let mut i: usize = 0;
    assert(statements(plan@) =~= Seq::<StatementView>::empty());
    while i < ENTITY_COUNT
        invariant
            i <= ENTITY_COUNT,
            statements(plan@) == migration_up_to(i as int),
        decreases ENTITY_COUNT - i,
    {
        match EntityKind::from_index(i) {
            Some(kind) => {
                let mut more = migrate_table(kind);
                let ghost before = plan@;
                let ghost added = more@;
                plan.append(&mut more);
                assert(statements(plan@) =~= statements(before) + statements(added));
            },
            None => {},
        }
        i += 1;
    }
    assert(migration_up_to(6) =~= full_migration()) by {
        reveal_with_fuel(migration_up_to, 7);
    }
    plan
}

/// The statements that prepare the store for the first `count` entities.
pub open spec fn migration_up_to(count: int) -> Seq<StatementView>
    decreases count,
{
    if count <= 0 {
        Seq::empty()
    } else {
        migration_up_to(count - 1) + table_migration(EntityKind::at(count - 1))
    }
}

/// The store after the statements of a plan, submitted one by one until one
/// is not applied, and whether all were.
pub open spec fn apply_plan(state: StoreState, plan: Seq<StatementView>) -> (StoreState, bool)
    decreases plan.len(),
{
    if plan.len() == 0 {
        (state, true)
    } else {
        let (before, ok) = apply_plan(state, plan.drop_last());
        if !ok {
            (before, false)
        } else {
            let (after, reply) = before.step(ActionView::Single(plan.last()), false);
            (after, reply is Applied)
        }
    }
}

/// Whether the store already holds what a schema statement creates.
pub open spec fn prepared(state: StoreState, statement: StatementView) -> bool {
    match statement {
        StatementView::CreateTable { kind } => state.table(kind).created,
        StatementView::CreateIndex { kind, column } => state.table(kind).created && state.table(
            kind,
        ).indexes.contains(column) && layout(kind).indexed(column),
        _ => false,
    }
}

/// Whether a plan holds schema statements only, each index declared by the
/// registry and created after its table.
pub open spec fn ordered(plan: Seq<StatementView>) -> bool {
    forall|i: int|
        0 <= i < plan.len() ==> match #[trigger] plan[i] {
            StatementView::CreateTable { .. } => true,
            StatementView::CreateIndex { kind, column } => layout(kind).indexed(column) && exists|
                j: int,
            |
                0 <= j < i && plan[j] == (StatementView::CreateTable { kind }),
            _ => false,
        }
}

/// A schema statement whose effect is already there is applied and changes
/// nothing.
pub proof fn lemma_prepared_step(state: StoreState, statement: StatementView)
    requires
        state.tables.len() == ENTITY_COUNT,
        prepared(state, statement),
    ensures
        state.step(ActionView::Single(statement), false) == (state, ReplyView::Applied),
{
    let kind = statement.kind();
    let table = state.table(kind);
    let after = table.effect(statement);
    assert(after.indexes =~= table.indexes);
    assert(after == table);
    assert(state.tables.update(kind.ordinal(), after) =~= state.tables);
}

/// A schema statement takes away nothing that was there.
pub proof fn lemma_schema_grows(state: StoreState, statement: StatementView, other: StatementView)
    requires
        state.tables.len() == ENTITY_COUNT,
        statement is CreateTable || statement is CreateIndex,
        prepared(state, other),
    ensures
        prepared(state.effect(statement), other),
{
}

/// An ordered plan is applied in full, and afterwards the store holds
/// everything the plan creates.
pub proof fn lemma_plan_prepares(state: StoreState, plan: Seq<StatementView>)
    requires
        state.wf(),
        ordered(plan),
    ensures
        apply_plan(state, plan).1,
        apply_plan(state, plan).0.wf(),
        forall|i: int|
            0 <= i < plan.len() ==> prepared(apply_plan(state, plan).0, #[trigger] plan[i]),
    decreases plan.len(),
{
    if plan.len() > 0 {
        let front = plan.drop_last();
        let last = plan.last();
        assert(last == plan[plan.len() - 1]);
        assert forall|i: int| 0 <= i < front.len() implies match #[trigger] front[i] {
            StatementView::CreateTable { .. } => true,
            StatementView::CreateIndex { kind, column } => layout(kind).indexed(column) && exists|
                j: int,
            |
                0 <= j < i && front[j] == (StatementView::CreateTable { kind }),
            _ => false,
        } by {
            assert(front[i] == plan[i]);
            if let StatementView::CreateIndex { kind, column } = plan[i] {
                let j = choose|j: int|
                    0 <= j < i && plan[j] == (StatementView::CreateTable { kind });
                assert(front[j] == plan[j]);
            }
        }
        lemma_plan_prepares(state, front);
        let before = apply_plan(state, front).0;
        match last {
            StatementView::CreateTable { kind } => {
                assert(before.accepts(last));
            },
            StatementView::CreateIndex { kind, column } => {
                let j = choose|j: int|
                    0 <= j < plan.len() - 1 && plan[j] == (StatementView::CreateTable { kind });
                assert(front[j] == plan[j]);
                assert(prepared(before, front[j]));
                assert(before.accepts(last));
            },
            _ => {},
        }
        lemma_effect_wf(before, last);
        let after = before.effect(last);
        assert(prepared(after, last));
        assert forall|i: int| 0 <= i < plan.len() implies prepared(after, #[trigger] plan[i]) by {
            if i < plan.len() - 1 {
                assert(front[i] == plan[i]);
                assert(prepared(before, front[i]));
                lemma_schema_grows(before, last, plan[i]);
            }
        }
    }
}

/// A plan whose every effect is already there is applied in full and
/// changes nothing.
pub proof fn lemma_prepared_plan(state: StoreState, plan: Seq<StatementView>)
    requires
        state.tables.len() == ENTITY_COUNT,
        forall|i: int| 0 <= i < plan.len() ==> prepared(state, #[trigger] plan[i]),
    ensures
        apply_plan(state, plan) == (state, true),
    decreases plan.len(),
{
    if plan.len() > 0 {
        let front = plan.drop_last();
        assert forall|i: int| 0 <= i < front.len() implies prepared(state, #[trigger] front[i]) by {
            assert(front[i] == plan[i]);
        }
        lemma_prepared_plan(state, front);
        assert(prepared(state, plan[plan.len() - 1]));
        lemma_prepared_step(state, plan.last());
    }
}

/// The full migration is an ordered plan.
pub proof fn lemma_full_migration_ordered()
    ensures
        ordered(full_migration()),
{
    let plan = full_migration();
    let listed = seq![
        StatementView::CreateTable { kind: EntityKind::Topic },
        StatementView::CreateIndex { kind: EntityKind::Topic, column: 2 },
        StatementView::CreateTable { kind: EntityKind::TopicMessage },
        StatementView::CreateTable { kind: EntityKind::LatestMessage },
        StatementView::CreateTable { kind: EntityKind::Notification },
        StatementView::CreateTable { kind: EntityKind::TopicUser },
        StatementView::CreateTable { kind: EntityKind::UserTopic },
    ];
    assert(layout(EntityKind::Topic).indexes[0] == 2);
    assert(plan =~= listed);
    assert(layout(EntityKind::Topic).indexed(2));
    assert forall|i: int| 0 <= i < plan.len() implies match #[trigger] plan[i] {
        StatementView::CreateTable { .. } => true,
        StatementView::CreateIndex { kind, column } => layout(kind).indexed(column) && exists|
            j: int,
        |
            0 <= j < i && plan[j] == (StatementView::CreateTable { kind }),
        _ => false,
    } by {
        if i == 1 {
            assert(plan[0] == (StatementView::CreateTable { kind: EntityKind::Topic }));
        }
    }
}

/// Migration is idempotent. From any store the full migration is applied
/// without error; run again on the store it leaves, it is applied without
/// error once more and changes nothing: not a table, not an index, not a
/// row.
pub proof fn lemma_migration_idempotent(state: StoreState)
    requires
        state.wf(),
    ensures
        ({
            let (once, first) = apply_plan(state, full_migration());
            let (twice, second) = apply_plan(once, full_migration());
            first && second && twice == once
        }),
{
    lemma_full_migration_ordered();
    lemma_plan_prepares(state, full_migration());
    lemma_prepared_plan(apply_plan(state, full_migration()).0, full_migration());
}

/// Once a plan has failed at a statement, nothing after that statement is
/// submitted.
pub proof fn lemma_failure_stops(state: StoreState, plan: Seq<StatementView>, count: int)
    requires
        0 <= count <= plan.len(),
        !apply_plan(state, plan.take(count)).1,
    ensures
        apply_plan(state, plan) == apply_plan(state, plan.take(count)),
    decreases plan.len() - count,
{
    if count < plan.len() {
        assert(plan.take(count + 1).drop_last() =~= plan.take(count));
        lemma_failure_stops(state, plan, count + 1);
    } else {
        assert(plan.take(count) =~= plan);
    }
}

/// Submits the schema statements one at a time and stops at the first that
/// is not applied. The caller asks for the next action, submits it, and
/// records the reply; it must not serve requests before the outcome is
/// success.
pub struct MigrationRunner {
    plan: Vec<Statement>,
    done: usize,
    failed: bool,
}

impl MigrationRunner {
    /// The statements the runner submits.
    pub closed spec fn plan(&self) -> Seq<StatementView> {
        statements(self.plan@)
    }

    /// How many statements have been applied.
    pub closed spec fn done(&self) -> int {
        self.done as int
    }

    /// Whether a statement was not applied.
    pub closed spec fn failed(&self) -> bool {
        self.failed
    }

    /// Whether a statement is still to be submitted.
    pub open spec fn pending(&self) -> bool {
        !self.failed() && 0 <= self.done() < self.plan().len()
    }

    /// A runner for the full migration.
    pub fn new() -> (runner: MigrationRunner)
        ensures
            runner.plan() == full_migration(),
            runner.done() == 0,
            !runner.failed(),
    {
        MigrationRunner { plan: migrate_all(), done: 0, failed: false }
    }

    /// The action to submit next, if there is one.
    pub fn next(&self) -> (action: Option<Action>)
        ensures
            match action {
                Some(action) => self.pending() && action@ == ActionView::Single(
                    self.plan()[self.done()],
                ),
                None => !self.pending(),
            },
    {
        if self.failed || self.done >= self.plan.len() {
            None
        } else {
            Some(Action::Single(self.plan[self.done].duplicate()))
        }
    }

    /// Records the reply to the action last handed out. Anything but
    /// success is fatal.
    pub fn record(&mut self, reply: &StoreReply)
        ensures
            final(self).plan() == old(self).plan(),
            old(self).pending() && reply@ is Applied ==> final(self).done() == old(self).done() + 1
                && !final(self).failed(),
            old(self).pending() && !(reply@ is Applied) ==> final(self).done() == old(self).done()
                && final(self).failed(),
            !old(self).pending() ==> final(self).done() == old(self).done() && final(self).failed()
                == old(self).failed(),
    {
        if !self.failed && self.done < self.plan.len() {
            match reply {
                StoreReply::Applied => {
                    self.done = self.done + 1;
                },
                _ => {
                    self.failed = true;
                },
            }
        }
    }

    /// Where the migration stands: nothing while statements are pending,
    /// then success or the fatal error.
    pub fn outcome(&self) -> (r: Option<AppResult<()>>)
        ensures
            self.pending() ==> r is None,
            self.failed() ==> r == Some(Err::<(), AppError>(AppError::MigrationFailed)),
            !self.pending() && !self.failed() ==> r == Some(Ok::<(), AppError>(())),
    {
        if self.failed {
            Some(Err(AppError::MigrationFailed))
        } else if self.done < self.plan.len() {
            None
        } else {
            Some(Ok(()))
        }
    }

    /// Runs the full migration against a store held in memory: statement
    /// by statement, up to the first that is not applied.
    pub fn migrate(store: &mut MemoryStore) -> (r: AppResult<()>)
        requires
            old(store).wf(),
        ensures
            final(store).wf(),
            (final(store)@, r is Ok) == apply_plan(old(store)@, full_migration()),
            r is Err ==> r == Err::<(), AppError>(AppError::MigrationFailed),
    {
        let mut runner = MigrationRunner::new();
        let ghost plan = runner.plan();
        let ghost start = store@;
        assert(plan.take(0) =~= Seq::<StatementView>::empty());
        loop
            invariant
                store.wf(),
                runner.plan() == plan,
                0 <= runner.done() <= plan.len(),
                runner.failed() ==> runner.done() < plan.len() && apply_plan(
                    start,
                    plan.take(runner.done() + 1),
                ) == (store@, false),
                !runner.failed() ==> apply_plan(start, plan.take(runner.done())) == (store@, true),
            ensures
                store.wf(),
                !runner.pending(),
                apply_plan(start, plan) == (store@, !runner.failed()),
            decreases plan.len() - runner.done() + (if runner.failed() { 0int } else { 1int }),
        {
            match runner.next() {
                Some(action) => {
                    let ghost at = runner.done();
                    assert(plan.take(at + 1).drop_last() =~= plan.take(at));
                    assert(plan.take(at + 1).last() == plan[at]);
                    let reply = store.submit(&action, false);
                    runner.record(&reply);
                },
                None => {
                    proof {
                        if runner.failed() {
                            lemma_failure_stops(start, plan, runner.done() + 1);
                        } else {
                            assert(plan.take(runner.done()) =~= plan);
                        }
                    }
                    break ;
                },
            }
        }
        match runner.outcome() {
            Some(Ok(_)) => Ok(()),
            _ => Err(AppError::MigrationFailed),
        }
    }
}

} // verus!
