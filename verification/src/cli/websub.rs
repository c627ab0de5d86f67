//! Managing subscriptions.

use vstd::prelude::*;

use crate::decimal::push_i64;
#[allow(unused_imports)]
use crate::decimal::signed_decimal;
use crate::sets::contains_id;
#[allow(unused_imports)]
use crate::sets::contains_push;
use crate::uri::Uri;
use crate::websub::hub::{unsubscribe, HubRequest};
#[allow(unused_imports)]
use crate::websub::hub::unsubscribe_request;
use crate::websub::store::Statement;
#[allow(unused_imports)]
use crate::websub::store::StatementView;

verus! {

/// A subscription as it is listed.
#[derive(Debug)]
pub struct Row {
    pub id: i64,
    pub hub: String,
    pub topic: String,
    pub secret: String,
    /// When the subscription expires, if it is active.
    pub expires_at: Option<i64>,
}

/// The text of a subscription: its fields with tabs between them.
pub open spec fn row_text(row: Row, show_secrets: bool) -> Seq<char> {
    signed_decimal(row.id as int) + "\t"@ + row.hub@ + "\t"@ + row.topic@ + "\t"@ + (
    if show_secrets {
        row.secret@
    } else {
        Seq::empty()
    }) + "\t"@ + match row.expires_at {
        Some(time) => signed_decimal(time as int),
        None => Seq::empty(),
    }
}

/// The text of subscriptions.
pub open spec fn rows_text(rows: Seq<Row>, show_secrets: bool) -> Seq<char>
    decreases rows.len(),
{
    if rows.len() == 0 {
        Seq::empty()
    } else {
        rows_text(rows.drop_last(), show_secrets) + row_text(rows.last(), show_secrets)
    }
}

/// Adds the text of a subscription.
fn push_row(out: &mut String, row: &Row, show_secrets: bool)
    ensures
        final(out)@ == old(out)@ + row_text(*row, show_secrets),
{
    push_i64(out, row.id);
    out.append("\t");
    out.append(row.hub.as_str());
    out.append("\t");
    out.append(row.topic.as_str());
    out.append("\t");
    if show_secrets {
        out.append(row.secret.as_str());
    }
    out.append("\t");
    if let Some(time) = row.expires_at {
        push_i64(out, time);
    }
    assert(out@ == old(out)@ + row_text(*row, show_secrets));
}

/// Returns the text of subscriptions.
pub fn list(rows: &Vec<Row>, show_secrets: bool) -> (r: String)
    ensures
        r@ == rows_text(rows@, show_secrets),
{
    let mut text = String::new();
    let mut i: usize = 0;
    assert(rows@.take(0) == Seq::<Row>::empty());
    while i < rows.len()
        invariant
            i <= rows@.len(),
            text@ == rows_text(rows@.take(i as int), show_secrets),
        decreases rows@.len() - i,
    {
        assert(rows@.take(i + 1).drop_last() == rows@.take(i as int));
        assert(rows@.take(i + 1).last() == rows@[i as int]);
        push_row(&mut text, &rows[i], show_secrets);
        i += 1;
    }
    assert(rows@.take(i as int) == rows@);
    text
}

/// The subscriptions to end: all of them, or those of some IDs.
pub open spec fn selected(rows: Seq<Row>, all: bool, ids: Seq<i64>) -> Seq<Row>
    decreases rows.len(),
{
    if rows.len() == 0 {
        Seq::empty()
    } else {
        let rest = selected(rows.drop_last(), all, ids);
        if all || ids.contains(rows.last().id) {
            rest.push(rows.last())
        } else {
            rest
        }
    }
}

/// Returns the statements that delete subscriptions, and the requests to unsubscribe: for all of
/// them, or for those of some IDs.
pub fn unsubscribe_selected(callback: &Uri, rows: &Vec<Row>, all: bool, ids: &Vec<i64>) -> (r: Vec<
    (Statement, HubRequest),
>)
    ensures
        r@.len() == selected(rows@, all, ids@).len(),
        forall|i: int|
            0 <= i < r@.len() ==> {
                let row = selected(rows@, all, ids@)[i];
                &&& (#[trigger] r@[i]).0@ == (StatementView::DeleteSubscription { id: row.id })
                &&& r@[i].1@ == unsubscribe_request(callback@, row.id, row.hub@, row.topic@)
            },
{
    let mut plans: Vec<(Statement, HubRequest)> = Vec::new();
    let mut i: usize = 0;
    assert(rows@.take(0) == Seq::<Row>::empty());
    while i < rows.len()
        invariant
            i <= rows@.len(),
            plans@.len() == selected(rows@.take(i as int), all, ids@).len(),
            forall|j: int|
                0 <= j < plans@.len() ==> {
                    let row = selected(rows@.take(i as int), all, ids@)[j];
                    &&& (#[trigger] plans@[j]).0@ == (StatementView::DeleteSubscription {
                        id: row.id,
                    })
                    &&& plans@[j].1@ == unsubscribe_request(
                        callback@,
                        row.id,
                        row.hub@,
                        row.topic@,
                    )
                },
        decreases rows@.len() - i,
    {
        assert(rows@.take(i + 1).drop_last() == rows@.take(i as int));
        assert(rows@.take(i + 1).last() == rows@[i as int]);
        let row = &rows[i];
        if all || contains_id(ids, row.id) {
            plans.push(unsubscribe(callback, row.id, row.hub.as_str(), row.topic.as_str()));
        }
        i += 1;
    }
    assert(rows@.take(i as int) == rows@);
    plans
}

/// Subscriptions that follow others are listed behind them. Each is listed by its ID, its hub, its
/// topic, its secret where that is to be shown, and the time at which it expires, if there is one.
pub proof fn rows_are_listed_in_order(a: Seq<Row>, b: Seq<Row>, row: Row, show_secrets: bool)
    ensures
        rows_text(a + b, show_secrets) == rows_text(a, show_secrets) + rows_text(b, show_secrets),
        rows_text(seq![row], true) == signed_decimal(row.id as int) + "\t"@ + row.hub@ + "\t"@
            + row.topic@ + "\t"@ + row.secret@ + "\t"@ + match row.expires_at {
            Some(time) => signed_decimal(time as int),
            None => Seq::empty(),
        },
        rows_text(seq![row], false) == signed_decimal(row.id as int) + "\t"@ + row.hub@ + "\t"@
            + row.topic@ + "\t"@ + "\t"@ + match row.expires_at {
            Some(time) => signed_decimal(time as int),
            None => Seq::empty(),
        },
    decreases b.len(),
{
    let one = seq![row];
    let none: Seq<char> = Seq::empty();
    reveal_with_fuel(rows_text, 2);
    assert(one.drop_last() == Seq::<Row>::empty());
    assert(one.last() == row);
    assert(none + row_text(row, true) == row_text(row, true));
    assert(none + row_text(row, false) == row_text(row, false));
    let head = signed_decimal(row.id as int) + "\t"@ + row.hub@ + "\t"@ + row.topic@ + "\t"@;
    assert(head + none == head);
    if b.len() == 0 {
        assert(a + b == a);
        assert(rows_text(a, show_secrets) + rows_text(b, show_secrets) == rows_text(
            a,
            show_secrets,
        ));
    } else {
        let before = b.drop_last();
        rows_are_listed_in_order(a, before, row, show_secrets);
        assert((a + b).drop_last() == a + before);
        assert((a + b).last() == b.last());
        assert(rows_text(a + b, show_secrets) == rows_text(a, show_secrets) + rows_text(
            b,
            show_secrets,
        ));
    }
}

/// Where secrets are not to be shown, what is listed does not depend on them.
pub proof fn hidden_secrets_leave_no_trace(rows: Seq<Row>, others: Seq<Row>)
    requires
        rows.len() == others.len(),
        forall|i: int|
            0 <= i < rows.len() ==> {
                &&& (#[trigger] rows[i]).id == others[i].id
                &&& rows[i].hub == others[i].hub
                &&& rows[i].topic == others[i].topic
                &&& rows[i].expires_at == others[i].expires_at
            },
    ensures
        rows_text(rows, false) == rows_text(others, false),
    decreases rows.len(),
{
    if rows.len() > 0 {
        let a = rows.drop_last();
        let b = others.drop_last();
        assert forall|i: int| 0 <= i < a.len() implies {
            &&& (#[trigger] a[i]).id == b[i].id
            &&& a[i].hub == b[i].hub
            &&& a[i].topic == b[i].topic
            &&& a[i].expires_at == b[i].expires_at
        } by {
            assert(a[i] == rows[i] && b[i] == others[i]);
        }
        hidden_secrets_leave_no_trace(a, b);
        assert(rows[rows.len() - 1] == rows.last());
        assert(others[rows.len() - 1] == others.last());
    }
}

/// The subscriptions to end are all of them where that is asked for, and else exactly those whose IDs
/// are given, in their order.
pub proof fn rows_are_selected_by_their_ids(
    a: Seq<Row>,
    b: Seq<Row>,
    all: bool,
    ids: Seq<i64>,
    row: Row,
)
    ensures
        selected(a + b, all, ids) == selected(a, all, ids) + selected(b, all, ids),
        selected(b, true, ids) == b,
        selected(b, false, ids).contains(row) <==> b.contains(row) && ids.contains(row.id),
        (forall|i: int| 0 <= i < b.len() ==> ids.contains((#[trigger] b[i]).id)) ==> selected(
            b,
            false,
            ids,
        ) == b,
    decreases b.len(),
{
    if b.len() == 0 {
        assert(a + b == a);
        assert(selected(a, all, ids) + selected(b, all, ids) == selected(a, all, ids));
        assert(selected(b, true, ids) == b);
        assert(selected(b, false, ids) == b);
    } else {
        let before = b.drop_last();
        rows_are_selected_by_their_ids(a, before, all, ids, row);
        assert((a + b).drop_last() == a + before);
        assert((a + b).last() == b.last());
        assert(b == before.push(b.last()));
        contains_push(before, b.last(), row);
        contains_push(selected(before, false, ids), b.last(), row);
        assert(selected(a + b, all, ids) == selected(a, all, ids) + selected(b, all, ids));
        if forall|i: int| 0 <= i < b.len() ==> ids.contains((#[trigger] b[i]).id) {
            assert forall|i: int| 0 <= i < before.len() implies ids.contains(
                (#[trigger] before[i]).id,
            ) by {
                assert(before[i] == b[i]);
            }
            assert(b[b.len() - 1] == b.last());
        }
    }
}

} // verus!
