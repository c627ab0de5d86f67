//! The tables of subscriptions and the statements that change them.

use vstd::prelude::*;

verus! {

/// A change of the tables.
#[derive(Debug)]
pub enum Statement {
    InsertSubscription { id: i64, hub: String, topic: String, secret: String },
    InsertPending { id: i64 },
    InsertActive { id: i64, expires_at: i64 },
    InsertRenewing { old: i64, new: i64 },
    /// Deletes a subscription with all that refers to it.
    DeleteSubscription { id: i64 },
    DeletePending { id: i64 },
    /// Deletes the subscriptions to a topic with all that refers to them.
    DeleteTopic { topic: String },
    /// Deletes the subscriptions that are not active.
    DeleteDangling,
}

/// The value of `Statement`.
pub enum StatementView {
    InsertSubscription { id: i64, row: Row },
    InsertPending { id: i64 },
    InsertActive { id: i64, expires_at: i64 },
    InsertRenewing { old: i64, new: i64 },
    DeleteSubscription { id: i64 },
    DeletePending { id: i64 },
    DeleteTopic { topic: Seq<char> },
    DeleteDangling,
}

impl View for Statement {
    type V = StatementView;

    open spec fn view(&self) -> StatementView {
        match self {
            Statement::InsertSubscription { id, hub, topic, secret } =>
                StatementView::InsertSubscription {
                    id: *id,
                    row: Row { hub: hub@, topic: topic@, secret: secret@ },
                },
            Statement::InsertPending { id } => StatementView::InsertPending { id: *id },
            Statement::InsertActive { id, expires_at } =>
                StatementView::InsertActive { id: *id, expires_at: *expires_at },
            Statement::InsertRenewing { old, new } =>
                StatementView::InsertRenewing { old: *old, new: *new },
            Statement::DeleteSubscription { id } => StatementView::DeleteSubscription { id: *id },
            Statement::DeletePending { id } => StatementView::DeletePending { id: *id },
            Statement::DeleteTopic { topic } => StatementView::DeleteTopic { topic: topic@ },
            Statement::DeleteDangling => StatementView::DeleteDangling,
        }
    }
}

/// The values of statements.
pub open spec fn statements_view(statements: Seq<Statement>) -> Seq<StatementView> {
    Seq::new(statements.len(), |i: int| statements[i]@)
}

/// A row of the table of subscriptions.
pub struct Row {
    pub hub: Seq<char>,
    pub topic: Seq<char>,
    pub secret: Seq<char>,
}

/// The contents of the tables.
pub struct Tables {
    pub subscriptions: Map<i64, Row>,
    pub pending: Set<i64>,
    /// The active subscriptions with the times at which they expire.
    pub active: Map<i64, i64>,
    /// The active subscriptions with the pending ones that will replace them.
    pub renewing: Set<(i64, i64)>,
}

impl Tables {
    /// Tells whether each row refers to rows that are there, and no subscription is both pending
    /// and active.
    pub open spec fn wf(self) -> bool {
        &&& forall|id: i64| #[trigger]
            self.pending.contains(id) ==> self.subscriptions.contains_key(id)
        &&& forall|id: i64| #[trigger]
            self.active.contains_key(id) ==> self.subscriptions.contains_key(id)
        &&& forall|id: i64| #[trigger]
            self.pending.contains(id) ==> !self.active.contains_key(id)
        &&& forall|pair: (i64, i64)| #[trigger]
            self.renewing.contains(pair) ==> self.active.contains_key(pair.0)
                && self.pending.contains(pair.1)
    }

    /// The tables without the subscriptions in `gone` and without what refers to them.
    pub open spec fn without(self, gone: Set<i64>) -> Tables {
        Tables {
            subscriptions: self.subscriptions.remove_keys(gone),
            pending: self.pending.difference(gone),
            active: self.active.remove_keys(gone),
            renewing: self.renewing.filter(
                |pair: (i64, i64)| !gone.contains(pair.0) && !gone.contains(pair.1),
            ),
        }
    }

    /// The tables after a statement.
    pub open spec fn apply(self, statement: StatementView) -> Tables {
        match statement {
            StatementView::InsertSubscription { id, row } => Tables {
                subscriptions: self.subscriptions.insert(id, row),
                ..self
            },
            StatementView::InsertPending { id } => Tables {
                pending: self.pending.insert(id),
                ..self
            },
            StatementView::InsertActive { id, expires_at } => Tables {
                active: self.active.insert(id, expires_at),
                ..self
            },
            StatementView::InsertRenewing { old, new } => Tables {
                renewing: self.renewing.insert((old, new)),
                ..self
            },
            StatementView::DeleteSubscription { id } => self.without(set![id]),
            StatementView::DeletePending { id } => Tables {
                pending: self.pending.remove(id),
                renewing: self.renewing.filter(|pair: (i64, i64)| pair.1 != id),
                ..self
            },
            StatementView::DeleteTopic { topic } => self.without(
                Set::new(
                    |id: i64|
                        self.subscriptions.contains_key(id) && self.subscriptions[id].topic
                            == topic,
                ),
            ),
            StatementView::DeleteDangling => self.without(
                Set::new(
                    |id: i64| self.subscriptions.contains_key(id) && !self.active.contains_key(id),
                ),
            ),
        }
    }

    /// The tables after some statements, one after another.
    pub open spec fn run(self, statements: Seq<StatementView>) -> Tables
        decreases statements.len(),
    {
        if statements.len() == 0 {
            self
        } else {
            self.run(statements.drop_last()).apply(statements.last())
        }
    }
}

/// What removes subscriptions with all that refers to them keeps the tables consistent.
pub proof fn removal_keeps_consistency(tables: Tables, gone: Set<i64>)
    requires
        tables.wf(),
    ensures
        tables.without(gone).wf(),
{
}

/// Removing what is dangling leaves exactly the active subscriptions.
pub proof fn dangling_subscriptions_are_removed(tables: Tables)
    requires
        tables.wf(),
    ensures
        tables.apply(StatementView::DeleteDangling).wf(),
        tables.apply(StatementView::DeleteDangling).subscriptions.dom() == tables.active.dom(),
        tables.apply(StatementView::DeleteDangling).active == tables.active,
        tables.apply(StatementView::DeleteDangling).pending == Set::<i64>::empty(),
        tables.apply(StatementView::DeleteDangling).renewing == Set::<(i64, i64)>::empty(),
{
}

/// Once the subscriptions to a topic were deleted, none is left, and those to other topics stay.
pub proof fn topic_is_left(tables: Tables, topic: Seq<char>)
    requires
        tables.wf(),
    ensures
        ({
            let after = tables.apply(StatementView::DeleteTopic { topic });
            &&& after.wf()
            &&& forall|id: i64| #[trigger]
                after.subscriptions.contains_key(id) <==> tables.subscriptions.contains_key(id)
                    && tables.subscriptions[id].topic != topic
            &&& forall|id: i64| #[trigger]
                after.active.contains_key(id) <==> tables.active.contains_key(id)
                    && tables.subscriptions[id].topic != topic
        }),
{
}

/// Deleting a subscription takes it out of every table, with every renewal that it has a part in, and
/// leaves the others alone.
pub proof fn subscription_is_deleted(tables: Tables, id: i64, other: i64, pair: (i64, i64))
    ensures
        ({
            let after = tables.apply(StatementView::DeleteSubscription { id });
            &&& !after.subscriptions.contains_key(id)
            &&& !after.pending.contains(id)
            &&& !after.active.contains_key(id)
            &&& other != id ==> {
                &&& after.subscriptions.contains_key(other) == tables.subscriptions.contains_key(
                    other,
                )
                &&& tables.subscriptions.contains_key(other) ==> after.subscriptions[other]
                    == tables.subscriptions[other]
                &&& after.pending.contains(other) == tables.pending.contains(other)
                &&& after.active.contains_key(other) == tables.active.contains_key(other)
                &&& tables.active.contains_key(other) ==> after.active[other]
                    == tables.active[other]
            }
            &&& after.renewing.contains(pair) <==> tables.renewing.contains(pair) && pair.0 != id
                && pair.1 != id
        }),
{
}

/// What is inserted is there, and nothing else changes.
pub proof fn rows_are_inserted(tables: Tables, id: i64, row: Row, expires_at: i64, new: i64)
    ensures
        ({
            let after = tables.apply(StatementView::InsertSubscription { id, row });
            &&& after.subscriptions == tables.subscriptions.insert(id, row)
            &&& after.pending == tables.pending && after.active == tables.active && after.renewing
                == tables.renewing
        }),
        ({
            let after = tables.apply(StatementView::InsertPending { id });
            &&& after.pending == tables.pending.insert(id)
            &&& after.subscriptions == tables.subscriptions && after.active == tables.active
                && after.renewing == tables.renewing
        }),
        ({
            let after = tables.apply(StatementView::InsertActive { id, expires_at });
            &&& after.active == tables.active.insert(id, expires_at)
            &&& after.subscriptions == tables.subscriptions && after.pending == tables.pending
                && after.renewing == tables.renewing
        }),
        ({
            let after = tables.apply(StatementView::InsertRenewing { old: id, new });
            &&& after.renewing == tables.renewing.insert((id, new))
            &&& after.subscriptions == tables.subscriptions && after.pending == tables.pending
                && after.active == tables.active
        }),
{
}

/// A subscription that is no longer pending renews nothing any more; nothing else changes.
pub proof fn pending_is_deleted(tables: Tables, id: i64, other: i64, pair: (i64, i64))
    ensures
        ({
            let after = tables.apply(StatementView::DeletePending { id });
            &&& !after.pending.contains(id)
            &&& other != id ==> after.pending.contains(other) == tables.pending.contains(other)
            &&& after.renewing.contains(pair) <==> tables.renewing.contains(pair) && pair.1 != id
            &&& after.subscriptions == tables.subscriptions && after.active == tables.active
        }),
{
}

/// Statements take effect one after another: some and then others are the same as all of them.
pub proof fn statements_run_in_order(
    tables: Tables,
    a: Seq<StatementView>,
    b: Seq<StatementView>,
)
    ensures
        tables.run(a + b) == tables.run(a).run(b),
        b.len() == 1 ==> tables.run(b) == tables.apply(b[0]),
        b.len() == 0 ==> tables.run(b) == tables,
    decreases b.len(),
{
    if b.len() == 0 {
        assert(a + b == a);
    } else {
        statements_run_in_order(tables, a, b.drop_last());
        assert((a + b).drop_last() == a + b.drop_last());
        if b.len() == 1 {
            assert(tables.run(b.drop_last()) == tables);
        }
    }
}

} // verus!
