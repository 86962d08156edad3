//! What pages and exports show, told by what is stored.
use crate::address::Address;
use crate::admin::summaries;
use crate::agreements::{ids_under, indexes_are_exact};
use crate::charging::turned_down;
use crate::error::Error;
use crate::queries::{
    law_owned_lists_exactly_the_subscriptions_of_a_subscriber, owned, page_refusal, slice_of,
};
use crate::statements::History;
use crate::types::{
    BillingStatement, BillingStatementsPage, Subscription, SubscriptionsPage, MAX_SCAN_DEPTH,
    MAX_SUBSCRIPTION_LIST_PAGE,
};
use crate::vault::VaultState;
use vstd::prelude::*;

verus! {

/// A page of subscriptions has at least one and not too many entries; any other size is turned down.
pub proof fn law_page_sizes_are_bounded(limit: u32)
    ensures
        page_refusal(limit) is None <==> 1 <= limit <= MAX_SUBSCRIPTION_LIST_PAGE,
        page_refusal(limit) is Some ==> page_refusal(limit) == turned_down(Error::InvalidInput),
{
}

/// A page of a list from place `start` on has as many entries as asked for, or as the list has left.
/// Its entry `i` is the stored subscription whose identifier stands at place `start + i` of the list.
pub proof fn law_pages_show_what_the_list_names(
    state: VaultState,
    list: Seq<u32>,
    start: int,
    limit: int,
)
    requires
        0 <= start,
        0 <= limit,
    ensures
        ({
            let page = state.fetched(slice_of(list, start, limit));
            &&& page.len() == if list.len() <= start {
                0
            } else if list.len() - start < limit {
                list.len() - start
            } else {
                limit
            }
            &&& forall|i: int|
                0 <= i < page.len() ==> #[trigger] page[i] == state.subscriptions[list[start + i]]
        }),
{
}

/// What one reads who asks for page after page, each of `limit` entries, from the beginning of a list.
pub open spec fn read_through(state: VaultState, list: Seq<u32>, limit: int, pages: nat) -> Seq<
    Subscription,
>
    decreases pages,
{
    if pages == 0 {
        Seq::empty()
    } else {
        read_through(state, list, limit, (pages - 1) as nat) + state.fetched(
            slice_of(list, (pages - 1) * limit, limit),
        )
    }
}

/// Page after page, a list is read without gaps and without repetition: place by place, what is read
/// are the stored subscriptions that the list names.
pub proof fn law_pages_leave_no_gaps(state: VaultState, list: Seq<u32>, limit: int, pages: nat)
    requires
        0 < limit,
    ensures
        ({
            let read = read_through(state, list, limit, pages);
            &&& read.len() == if pages * limit < list.len() {
                pages * limit
            } else {
                list.len() as int
            }
            &&& forall|p: int|
                0 <= p < read.len() ==> #[trigger] read[p] == state.subscriptions[list[p]]
        }),
    decreases pages,
{
    if pages > 0 {
        let before = (pages - 1) * limit;
        assert(pages * limit == before + limit && 0 <= before) by (nonlinear_arith)
            requires
                0 < pages,
                0 < limit,
                before == (pages - 1) * limit,
        ;
        law_pages_leave_no_gaps(state, list, limit, (pages - 1) as nat);
        law_pages_show_what_the_list_names(state, list, before, limit);
        let earlier = read_through(state, list, limit, (pages - 1) as nat);
        let page = state.fetched(slice_of(list, before, limit));
        let read = read_through(state, list, limit, pages);
        assert forall|p: int| 0 <= p < read.len() implies #[trigger] read[p]
            == state.subscriptions[list[p]] by {
            if p < earlier.len() {
                assert(read[p] == earlier[p]);
            } else {
                assert(read[p] == page[p - earlier.len()]);
            }
        }
    } else {
        assert(pages * limit == 0) by (nonlinear_arith)
            requires
                pages == 0,
        ;
    }
}

/// Where the lists are exact, the pages of a merchant show every subscription of that merchant, once,
/// and no other; and so do the pages of a token.
pub proof fn law_every_subscription_is_read_once(
    state: VaultState,
    owner: Address,
    limit: int,
    pages: nat,
    id: u32,
)
    requires
        indexes_are_exact(state),
        0 < limit,
        state.subscriptions.contains_key(id),
        ids_under(state.merchant_index, owner).len() <= pages * limit,
        ids_under(state.token_index, owner).len() <= pages * limit,
    ensures
        ({
            let list = ids_under(state.merchant_index, owner);
            let read = read_through(state, list, limit, pages);
            &&& read.len() == list.len()
            &&& forall|p: int| 0 <= p < read.len() ==> (#[trigger] read[p]).merchant == owner
            &&& state.subscriptions[id].merchant == owner ==> exists|p: int|
                0 <= p < list.len() && #[trigger] list[p] == id && read[p] == state.subscriptions[id]
            &&& forall|p: int, q: int|
                0 <= p < q < list.len() ==> #[trigger] list[p] != #[trigger] list[q]
        }),
        ({
            let list = ids_under(state.token_index, owner);
            let read = read_through(state, list, limit, pages);
            &&& read.len() == list.len()
            &&& forall|p: int| 0 <= p < read.len() ==> (#[trigger] read[p]).token == owner
            &&& state.subscriptions[id].token == owner ==> exists|p: int|
                0 <= p < list.len() && #[trigger] list[p] == id && read[p] == state.subscriptions[id]
            &&& forall|p: int, q: int|
                0 <= p < q < list.len() ==> #[trigger] list[p] != #[trigger] list[q]
        }),
{
    let merchants = ids_under(state.merchant_index, owner);
    let tokens = ids_under(state.token_index, owner);
    law_pages_leave_no_gaps(state, merchants, limit, pages);
    law_pages_leave_no_gaps(state, tokens, limit, pages);
    let sold = read_through(state, merchants, limit, pages);
    let settled = read_through(state, tokens, limit, pages);
    assert forall|p: int| 0 <= p < sold.len() implies (#[trigger] sold[p]).merchant == owner by {
        assert(sold[p] == state.subscriptions[merchants[p]]);
    }
    assert forall|p: int| 0 <= p < settled.len() implies (#[trigger] settled[p]).token == owner by {
        assert(settled[p] == state.subscriptions[tokens[p]]);
    }
    if state.subscriptions[id].merchant == owner {
        assert(merchants.contains(id));
        let at = choose|p: int| 0 <= p < merchants.len() && merchants[p] == id;
        assert(sold[at] == state.subscriptions[merchants[at]]);
    }
    if state.subscriptions[id].token == owner {
        assert(tokens.contains(id));
        let at = choose|p: int| 0 <= p < tokens.len() && tokens[p] == id;
        assert(settled[at] == state.subscriptions[tokens[at]]);
    }
}

/// A page of a subscriber shows, in ascending order and up to where it says that it goes on, exactly
/// the stored subscriptions of that subscriber. It stops when it is full, when it has looked at as many
/// identifiers as a query may, or at the end; and a page that does not say where to go on has reached
/// the end.
pub proof fn law_subscriber_pages_show_what_is_stored(
    state: VaultState,
    page: SubscriptionsPage,
    subscriber: Address,
    start: u32,
    limit: u32,
)
    requires
        1 <= limit <= MAX_SUBSCRIPTION_LIST_PAGE,
        state.is_subscriber_page(page, subscriber, start, limit),
    ensures
        ({
            let ids = page.subscription_ids@;
            let end: int = match page.next_start_id {
                Some(next) => next as int,
                None => state.next_id as int,
            };
            &&& forall|id: u32| #[trigger]
                ids.contains(id) <==> start <= id < end && state.subscriptions.contains_key(id)
                    && state.subscriptions[id].subscriber == subscriber
            &&& forall|i: int, j: int| 0 <= i < j < ids.len() ==> ids[i] < ids[j]
            &&& ids.len() <= limit
            &&& end - start <= MAX_SCAN_DEPTH
            &&& page.next_start_id matches Some(next) ==> {
                &&& start < next < state.next_id
                &&& next - start < MAX_SCAN_DEPTH ==> ids.len() == limit && ids.last() == next - 1
            }
        }),
{
    let ids = page.subscription_ids@;
    if start < state.next_id {
        let end = state.reach(page);
        law_owned_lists_exactly_the_subscriptions_of_a_subscriber(
            state.subscriptions,
            subscriber,
            start as int,
            end,
        );
        assert(owned(state.subscriptions, subscriber, start as int, end).len() <= owned(
            state.subscriptions,
            subscriber,
            start as int,
            end - 1,
        ).len() + 1);
    }
}

/// The exported summaries of a range are those of the stored subscriptions with identifiers in it, each
/// once, in ascending order.
pub proof fn law_summaries_show_what_is_stored(
    subscriptions: Map<u32, Subscription>,
    start: int,
    end: int,
)
    requires
        0 <= start,
        end <= u32::MAX,
    ensures
        ({
            let page = summaries(subscriptions, start, end);
            &&& forall|i: int|
                #![trigger page[i]]
                0 <= i < page.len() ==> start <= page[i].subscription_id < end
                    && subscriptions.contains_key(page[i].subscription_id) && page[i].subscription
                    == subscriptions[page[i].subscription_id]
            &&& forall|i: int, j: int|
                0 <= i < j < page.len() ==> (#[trigger] page[i]).subscription_id < (
                #[trigger] page[j]).subscription_id
            &&& forall|id: u32|
                start <= id < end && #[trigger] subscriptions.contains_key(id) ==> exists|i: int|
                    0 <= i < page.len() && (#[trigger] page[i]).subscription_id == id
        }),
    decreases end - start,
{
    if start < end {
        law_summaries_show_what_is_stored(subscriptions, start, end - 1);
        let rest = summaries(subscriptions, start, end - 1);
        let page = summaries(subscriptions, start, end);
        let last = (end - 1) as u32;
        assert forall|id: u32|
            start <= id < end && #[trigger] subscriptions.contains_key(id) implies exists|i: int|
            0 <= i < page.len() && (#[trigger] page[i]).subscription_id == id by {
            if id == last {
                assert(page[rest.len() as int].subscription_id == id);
            } else {
                let at = choose|i: int| 0 <= i < rest.len() && rest[i].subscription_id == id;
                assert(page[at] == rest[at]);
            }
        }
    }
}

/// A page of summaries looks at as many identifiers as asked for, or as there are from its start on.
pub proof fn law_exports_end_where_asked(state: VaultState, start: u32, limit: u32)
    ensures
        state.export_end(start, limit) <= start + limit,
        state.export_end(start, limit) <= state.next_id,
        state.export_end(start, limit) == start + limit || state.export_end(start, limit)
            == state.next_id,
{
}

/// The statement at place `place`, counted from the oldest or from the newest.
pub open spec fn read_at(h: History, place: int, newest_first: bool) -> BillingStatement {
    if newest_first {
        h.statements[h.statements.len() - 1 - place]
    } else {
        h.statements[place]
    }
}

/// `page` shows the statements from place `from` on: as many as asked for or as there are, one by one
/// in reading order, with the number of the statement that comes next, if one does, and the count of
/// all.
pub open spec fn shows_statements(
    h: History,
    page: BillingStatementsPage,
    from: int,
    limit: u32,
    newest_first: bool,
) -> bool {
    let left = h.statements.len() - from;
    let shown = page.statements@.len() as int;
    &&& shown == if left < limit {
        left
    } else {
        limit as int
    }
    &&& forall|i: int|
        0 <= i < shown ==> #[trigger] page.statements@[i] == read_at(h, from + i, newest_first)
    &&& page.next_cursor is Some <==> shown < left
    &&& page.next_cursor matches Some(cursor) ==> cursor == read_at(
        h,
        from + shown,
        newest_first,
    ).sequence
    &&& page.total == h.statements.len()
}

/// A page with an offset leaves out that many statements, or all of them.
pub proof fn law_offset_pages_show_what_is_stored(
    h: History,
    page: BillingStatementsPage,
    offset: u32,
    limit: u32,
    newest_first: bool,
)
    requires
        h.is_page(page, h.offset_place(offset), limit, newest_first),
    ensures
        offset <= h.statements.len() ==> shows_statements(
            h,
            page,
            offset as int,
            limit,
            newest_first,
        ),
        offset > h.statements.len() ==> page.statements@.len() == 0 && page.next_cursor is None
            && page.total == h.statements.len(),
{
}

/// A page with a cursor shows the statements from the one with that number on, towards the newer ones
/// or towards the older ones. A page without a cursor begins at the first of them.
pub proof fn law_cursor_pages_show_what_is_stored(
    h: History,
    page: BillingStatementsPage,
    cursor: Option<u32>,
    limit: u32,
    newest_first: bool,
)
    requires
        h.numbered(),
        h.is_page(page, h.cursor_place(cursor, newest_first), limit, newest_first),
    ensures
        cursor is None ==> shows_statements(h, page, 0, limit, newest_first),
        cursor matches Some(number) ==> exists|from: int|
            {
                &&& 0 <= from <= h.statements.len()
                &&& #[trigger] shows_statements(h, page, from, limit, newest_first)
                &&& forall|i: int|
                    0 <= i < h.statements.len() ==> (from <= i <==> if newest_first {
                        (#[trigger] read_at(h, i, newest_first)).sequence <= number
                    } else {
                        read_at(h, i, newest_first).sequence >= number
                    })
            },
{
    if let Some(number) = cursor {
        let from = h.cursor_place(cursor, newest_first);
        assert(shows_statements(h, page, from, limit, newest_first));
        assert forall|i: int| 0 <= i < h.statements.len() implies (from <= i <==> if newest_first {
            (#[trigger] read_at(h, i, newest_first)).sequence <= number
        } else {
            read_at(h, i, newest_first).sequence >= number
        }) by {
            let at = if newest_first {
                h.statements.len() - 1 - i
            } else {
                i
            };
            assert(h.statements[at].sequence == h.next_sequence - h.statements.len() + at);
        }
    }
}

} // verus!
