//! Reading subscriptions and statements page by page.
use crate::address::Address;
use crate::error::{Error, Failure, Reply};
use crate::statements::history;
use crate::store::{listed, IdIndex};
use crate::types::{
    BillingStatementsPage, Subscription, SubscriptionsPage, MAX_SCAN_DEPTH,
    MAX_SUBSCRIPTION_LIST_PAGE,
};
use crate::vault::{SubscriptionVault, VaultState};
use vstd::prelude::*;

verus! {

/// Subscription `id` is stored and belongs to `subscriber`.
pub open spec fn owns(subscriptions: Map<u32, Subscription>, subscriber: Address, id: u32) -> bool {
    subscriptions.contains_key(id) && subscriptions[id].subscriber == subscriber
}

/// The identifiers from `start` up to `end` of the subscriptions of `subscriber`, in order.
pub open spec fn owned(
    subscriptions: Map<u32, Subscription>,
    subscriber: Address,
    start: int,
    end: int,
) -> Seq<u32>
    decreases end - start,
{
    if start >= end {
        Seq::empty()
    } else if owns(subscriptions, subscriber, (end - 1) as u32) {
        owned(subscriptions, subscriber, start, end - 1).push((end - 1) as u32)
    } else {
        owned(subscriptions, subscriber, start, end - 1)
    }
}

/// Why a page of at most `limit` subscriptions is refused.
pub open spec fn page_refusal(limit: u32) -> Option<Failure> {
    if limit == 0 || limit > MAX_SUBSCRIPTION_LIST_PAGE {
        Some(Failure::Contract(Error::InvalidInput))
    } else {
        None
    }
}

/// The part of a list from place `start` on, at most `limit` items long.
pub open spec fn slice_of(list: Seq<u32>, start: int, limit: int) -> Seq<u32> {
    let from = if start < list.len() {
        start
    } else {
        list.len() as int
    };
    let to = if from + limit < list.len() {
        from + limit
    } else {
        list.len() as int
    };
    list.subrange(from, to)
}

impl VaultState {
    /// A scan for subscriptions of `subscriber` that starts at `start` stops at `end`: there it has
    /// reached the last identifier, looked at as many identifiers as a query may look at, or just
    /// found as many subscriptions as asked for.
    pub open spec fn scan_stops(self, subscriber: Address, start: u32, limit: u32, end: int) -> bool {
        let found = owned(self.subscriptions, subscriber, start as int, end).len();
        &&& start <= end <= self.next_id
        &&& end - start <= MAX_SCAN_DEPTH
        &&& end == self.next_id || end - start == MAX_SCAN_DEPTH || found == limit
        &&& start < end ==> owned(self.subscriptions, subscriber, start as int, end - 1).len()
            < limit
    }

    /// Where the scan behind a page has stopped.
    pub open spec fn reach(self, page: SubscriptionsPage) -> int {
        match page.next_start_id {
            Some(next) => next as int,
            None => self.next_id as int,
        }
    }

    /// `page` is the answer to a query for the subscriptions of `subscriber` from `start` on.
    pub open spec fn is_subscriber_page(
        self,
        page: SubscriptionsPage,
        subscriber: Address,
        start: u32,
        limit: u32,
    ) -> bool {
        if start >= self.next_id {
            page.subscription_ids@ == Seq::<u32>::empty() && page.next_start_id is None
        } else {
            &&& self.scan_stops(subscriber, start, limit, self.reach(page))
            &&& page.subscription_ids@ == owned(
                self.subscriptions,
                subscriber,
                start as int,
                self.reach(page),
            )
            &&& page.next_start_id matches Some(next) ==> next < self.next_id
        }
    }

    /// The stored subscriptions with the given identifiers.
    pub open spec fn fetched(self, ids: Seq<u32>) -> Seq<Subscription> {
        ids.map_values(|id: u32| self.subscriptions[id])
    }
}

impl SubscriptionVault {
    /// The subscriptions of a subscriber, from identifier `start` on.
    pub fn list_subscriptions_by_subscriber(&self, subscriber: Address, start: u32, limit: u32) -> (reply:
        Reply<SubscriptionsPage>)
        ensures
            match page_refusal(limit) {
                Some(failure) => reply == Err::<SubscriptionsPage, Failure>(failure),
                None => reply matches Ok(page) && self@.is_subscriber_page(
                    page,
                    subscriber,
                    start,
                    limit,
                ),
            },
    {
        if limit == 0 || limit > MAX_SUBSCRIPTION_LIST_PAGE {
            return Err(Failure::Contract(Error::InvalidInput));
        }
        let mut subscription_ids: Vec<u32> = Vec::new();
        let end: u32 = self.next_id();
        if start >= end {
            return Ok(SubscriptionsPage { subscription_ids, next_start_id: None });
        }
        let mut id: u32 = start;
        while id < end && id - start < MAX_SCAN_DEPTH && subscription_ids.len() < limit as usize
            invariant
                start <= id <= end == self@.next_id,
                id - start <= MAX_SCAN_DEPTH,
                subscription_ids@ == owned(
                    self@.subscriptions,
                    subscriber,
                    start as int,
                    id as int,
                ),
                0 < limit,
                subscription_ids@.len() <= limit,
                start < id ==> owned(self@.subscriptions, subscriber, start as int, id - 1).len()
                    < limit,
            decreases end - id,
        {
            if let Some(subscription) = self.find(id) {
                if subscription.subscriber == subscriber {
                    subscription_ids.push(id);
                }
            }
            id += 1;
        }
        let next_start_id: Option<u32> = if id < end {
            Some(id)
        } else {
            None
        };
        Ok(SubscriptionsPage { subscription_ids, next_start_id })
    }

    /// The listed subscriptions from the one at place `start` on.
    fn page_of(&self, index: &IdIndex, owner: Address, start: u32, limit: u32) -> (reply: Reply<
        Vec<Subscription>,
    >)
        requires
            self@.index_is_sound(index@),
        ensures
            match page_refusal(limit) {
                Some(failure) => reply == Err::<Vec<Subscription>, Failure>(failure),
                None => reply matches Ok(page) && page@ == self@.fetched(
                    slice_of(listed(index@, owner), start as int, limit as int),
                ),
            },
            reply matches Ok(page) ==> {
                let list = listed(index@, owner);
                &&& page@.len() == if list.len() <= start {
                    0
                } else if list.len() - start < limit {
                    list.len() - start
                } else {
                    limit as int
                }
                &&& forall|i: int|
                    0 <= i < page@.len() ==> #[trigger] page@[i] == self@.subscriptions[list[start
                        + i]]
            },
    {
        if limit == 0 || limit > MAX_SUBSCRIPTION_LIST_PAGE {
            return Err(Failure::Contract(Error::InvalidInput));
        }
        let ghost list = listed(index@, owner);
        let len: usize = index.count(owner);
        let mut page: Vec<Subscription> = Vec::new();
        if (start as usize) < len {
            let end: usize = if (limit as usize) < len - start as usize {
                start as usize + limit as usize
            } else {
                len
            };
            let mut i: usize = start as usize;
            while i < end
                invariant
                    start <= i <= end <= list.len(),
                    list == listed(index@, owner),
                    self@.index_is_sound(index@),
                    page@ == self@.fetched(list.subrange(start as int, i as int)),
                decreases end - i,
            {
                let id: u32 = index.id_at(owner, i);
                assert(self@.subscriptions.contains_key(listed(index@, owner)[i as int]));
                if let Some(subscription) = self.find(id) {
                    page.push(subscription);
                }
                i += 1;
                assert(list.subrange(start as int, i as int) =~= list.subrange(
                    start as int,
                    i - 1,
                ).push(id));
                assert(page@ =~= self@.fetched(list.subrange(start as int, i as int)));
            }
        }
        assert(page@ =~= self@.fetched(slice_of(list, start as int, limit as int)));
        Ok(page)
    }

    /// The subscriptions of a merchant, oldest first, from the one at place `start` on.
    pub fn get_subscriptions_by_merchant(&self, merchant: Address, start: u32, limit: u32) -> (reply: Reply<
        Vec<Subscription>,
    >)
        requires
            self@.wf(),
        ensures
            match page_refusal(limit) {
                Some(failure) => reply == Err::<Vec<Subscription>, Failure>(failure),
                None => reply matches Ok(page) && page@ == self@.fetched(
                    slice_of(listed(self@.merchant_index, merchant), start as int, limit as int),
                ),
            },
            reply matches Ok(page) ==> {
                let list = listed(self@.merchant_index, merchant);
                &&& page@.len() == if list.len() <= start {
                    0
                } else if list.len() - start < limit {
                    list.len() - start
                } else {
                    limit as int
                }
                &&& forall|i: int|
                    0 <= i < page@.len() ==> #[trigger] page@[i] == self@.subscriptions[list[start
                        + i]]
            },
    {
        self.page_of(self.merchant_index(), merchant, start, limit)
    }

    /// How many subscriptions a merchant has.
    pub fn get_merchant_subscription_count(&self, merchant: Address) -> (count: u32)
        requires
            self@.wf(),
        ensures
            count == listed(self@.merchant_index, merchant).len(),
    {
        assert(listed(self@.merchant_index, merchant).len() <= u32::MAX);
        self.merchant_list_len(merchant) as u32
    }

    /// The subscriptions settled in a token, oldest first, from the one at place `start` on.
    pub fn get_subscriptions_by_token(&self, token: Address, start: u32, limit: u32) -> (reply: Reply<
        Vec<Subscription>,
    >)
        requires
            self@.wf(),
        ensures
            match page_refusal(limit) {
                Some(failure) => reply == Err::<Vec<Subscription>, Failure>(failure),
                None => reply matches Ok(page) && page@ == self@.fetched(
                    slice_of(listed(self@.token_index, token), start as int, limit as int),
                ),
            },
            reply matches Ok(page) ==> {
                let list = listed(self@.token_index, token);
                &&& page@.len() == if list.len() <= start {
                    0
                } else if list.len() - start < limit {
                    list.len() - start
                } else {
                    limit as int
                }
                &&& forall|i: int|
                    0 <= i < page@.len() ==> #[trigger] page@[i] == self@.subscriptions[list[start
                        + i]]
            },
    {
        self.page_of(self.token_index(), token, start, limit)
    }

    /// How many subscriptions are settled in a token.
    pub fn get_token_subscription_count(&self, token: Address) -> (count: u32)
        requires
            self@.wf(),
        ensures
            count == listed(self@.token_index, token).len(),
    {
        assert(listed(self@.token_index, token).len() <= u32::MAX);
        self.token_list_len(token) as u32
    }

    /// The statements of a subscription without the first `offset` of them.
    pub fn get_sub_statements_offset(&self, id: u32, offset: u32, limit: u32, newest_first: bool) -> (reply:
        Reply<BillingStatementsPage>)
        requires
            self@.wf(),
        ensures
            limit == 0 ==> reply == Err::<BillingStatementsPage, Failure>(
                Failure::Contract(Error::InvalidInput),
            ),
            limit > 0 ==> (reply matches Ok(page) && history(self@.statements, id).is_page(
                page,
                history(self@.statements, id).offset_place(offset),
                limit,
                newest_first,
            )),
    {
        if limit == 0 {
            return Err(Failure::Contract(Error::InvalidInput));
        }
        Ok(self.statement_book().offset_page(id, offset, limit, newest_first))
    }

    /// The statements of a subscription from the one numbered `cursor` on, or from the first one.
    pub fn get_sub_statements_cursor(
        &self,
        id: u32,
        cursor: Option<u32>,
        limit: u32,
        newest_first: bool,
    ) -> (reply: Reply<BillingStatementsPage>)
        requires
            self@.wf(),
        ensures
            limit == 0 ==> reply == Err::<BillingStatementsPage, Failure>(
                Failure::Contract(Error::InvalidInput),
            ),
            limit > 0 ==> (reply matches Ok(page) && history(self@.statements, id).is_page(
                page,
                history(self@.statements, id).cursor_place(cursor, newest_first),
                limit,
                newest_first,
            )),
    {
        if limit == 0 {
            return Err(Failure::Contract(Error::InvalidInput));
        }
        Ok(self.statement_book().cursor_page(id, cursor, limit, newest_first))
    }
}

/// The owned identifiers of a range are the stored ones of that owner, in strictly ascending order.
pub proof fn law_owned_lists_exactly_the_subscriptions_of_a_subscriber(
    subscriptions: Map<u32, Subscription>,
    subscriber: Address,
    start: int,
    end: int,
)
    requires
        0 <= start <= end <= u32::MAX,
    ensures
        forall|id: u32|
            #![trigger owned(subscriptions, subscriber, start, end).contains(id)]
            owned(subscriptions, subscriber, start, end).contains(id) <==> start <= id < end && owns(
                subscriptions,
                subscriber,
                id,
            ),
        forall|i: int, j: int|
            0 <= i < j < owned(subscriptions, subscriber, start, end).len() ==> owned(
                subscriptions,
                subscriber,
                start,
                end,
            )[i] < owned(subscriptions, subscriber, start, end)[j],
        owned(subscriptions, subscriber, start, end).len() <= end - start,
    decreases end - start,
{
    if start < end {
        law_owned_lists_exactly_the_subscriptions_of_a_subscriber(
            subscriptions,
            subscriber,
            start,
            end - 1,
        );
        let rest = owned(subscriptions, subscriber, start, end - 1);
        let all = owned(subscriptions, subscriber, start, end);
        let last = (end - 1) as u32;
        assert forall|i: int| 0 <= i < rest.len() implies (#[trigger] rest[i]) < last by {
            assert(rest.contains(rest[i]));
        }
        assert forall|id: u32| all.contains(id) <==> start <= id < end && owns(
            subscriptions,
            subscriber,
            id,
        ) by {
            if owns(subscriptions, subscriber, last) {
                assert(all == rest.push(last));
                assert(all[rest.len() as int] == last);
                if rest.contains(id) {
                    let at = choose|i: int| 0 <= i < rest.len() && rest[i] == id;
                    assert(all[at] == id);
                }
                if all.contains(id) {
                    let at = choose|i: int| 0 <= i < all.len() && all[i] == id;
                    if at < rest.len() {
                        assert(rest[at] == id);
                    }
                }
            }
        }
    }
}

/// What a range owns is what its two parts own, one after the other.
pub proof fn law_adjacent_ranges_join(
    subscriptions: Map<u32, Subscription>,
    subscriber: Address,
    start: int,
    middle: int,
    end: int,
)
    requires
        start <= middle <= end,
    ensures
        owned(subscriptions, subscriber, start, middle) + owned(
            subscriptions,
            subscriber,
            middle,
            end,
        ) == owned(subscriptions, subscriber, start, end),
    decreases end - middle,
{
    if middle < end {
        law_adjacent_ranges_join(subscriptions, subscriber, start, middle, end - 1);
    }
    assert(owned(subscriptions, subscriber, start, middle) + owned(
        subscriptions,
        subscriber,
        middle,
        end,
    ) =~= owned(subscriptions, subscriber, start, end));
}

/// A query has one answer.
pub proof fn law_subscriber_page_is_determined(
    state: VaultState,
    subscriber: Address,
    start: u32,
    limit: u32,
    a: SubscriptionsPage,
    b: SubscriptionsPage,
)
    requires
        page_refusal(limit) is None,
        state.is_subscriber_page(a, subscriber, start, limit),
        state.is_subscriber_page(b, subscriber, start, limit),
    ensures
        a.subscription_ids@ == b.subscription_ids@,
        a.next_start_id == b.next_start_id,
{
    if start < state.next_id {
        lemma_scan_stops_once(state, subscriber, start, limit, state.reach(a), state.reach(b));
        lemma_scan_stops_once(state, subscriber, start, limit, state.reach(b), state.reach(a));
    }
}

/// A scan that stops at `end` does not go on beyond it.
proof fn lemma_scan_stops_once(
    state: VaultState,
    subscriber: Address,
    start: u32,
    limit: u32,
    end: int,
    later: int,
)
    requires
        limit > 0,
        start < state.next_id,
        state.scan_stops(subscriber, start, limit, end),
        state.scan_stops(subscriber, start, limit, later),
    ensures
        later <= end,
{
    if end < later {
        law_adjacent_ranges_join(state.subscriptions, subscriber, start as int, end, later - 1);
    }
}

/// A page holds at most `limit` subscriptions, all of them of the subscriber asked for, each once,
/// in ascending order.
pub proof fn law_subscriber_page_is_ascending_and_bounded(
    state: VaultState,
    page: SubscriptionsPage,
    subscriber: Address,
    start: u32,
    limit: u32,
)
    requires
        page_refusal(limit) is None,
        state.is_subscriber_page(page, subscriber, start, limit),
    ensures
        page.subscription_ids@.len() <= limit,
        forall|i: int, j: int|
            0 <= i < j < page.subscription_ids@.len() ==> page.subscription_ids@[i]
                < page.subscription_ids@[j],
        forall|i: int|
            0 <= i < page.subscription_ids@.len() ==> owns(
                state.subscriptions,
                subscriber,
                #[trigger] page.subscription_ids@[i],
            ),
{
    if start < state.next_id {
        let end = state.reach(page);
        law_owned_lists_exactly_the_subscriptions_of_a_subscriber(
            state.subscriptions,
            subscriber,
            start as int,
            end,
        );
        assert forall|i: int| 0 <= i < page.subscription_ids@.len() implies owns(
            state.subscriptions,
            subscriber,
            #[trigger] page.subscription_ids@[i],
        ) by {
            assert(page.subscription_ids@.contains(page.subscription_ids@[i]));
        }
        if start < end {
            assert(owned(state.subscriptions, subscriber, start as int, end).len() <= owned(
                state.subscriptions,
                subscriber,
                start as int,
                end - 1,
            ).len() + 1);
        }
    }
}

/// No subscription appears in the pages of two different subscribers.
pub proof fn law_subscribers_are_isolated(
    state: VaultState,
    page: SubscriptionsPage,
    other_page: SubscriptionsPage,
    subscriber: Address,
    other: Address,
    start: u32,
    other_start: u32,
    limit: u32,
    other_limit: u32,
    id: u32,
)
    requires
        subscriber != other,
        page_refusal(limit) is None,
        page_refusal(other_limit) is None,
        state.is_subscriber_page(page, subscriber, start, limit),
        state.is_subscriber_page(other_page, other, other_start, other_limit),
    ensures
        !(page.subscription_ids@.contains(id) && other_page.subscription_ids@.contains(id)),
{
    law_subscriber_page_is_ascending_and_bounded(state, page, subscriber, start, limit);
    law_subscriber_page_is_ascending_and_bounded(
        state,
        other_page,
        other,
        other_start,
        other_limit,
    );
}

/// Following the cursor of a page loses nothing and repeats nothing: a page and what lies behind its
/// cursor make up everything from the start of the page on, and a page without a cursor is
/// everything already. The cursor always lies past the start, so the last page is reached.
pub proof fn law_subscriber_cursor_covers_everything(
    state: VaultState,
    page: SubscriptionsPage,
    subscriber: Address,
    start: u32,
    limit: u32,
)
    requires
        page_refusal(limit) is None,
        state.is_subscriber_page(page, subscriber, start, limit),
    ensures
        match page.next_start_id {
            Some(next) => {
                &&& start < next < state.next_id
                &&& page.subscription_ids@ + owned(
                    state.subscriptions,
                    subscriber,
                    next as int,
                    state.next_id as int,
                ) == owned(
                    state.subscriptions,
                    subscriber,
                    start as int,
                    state.next_id as int,
                )
            },
            None => page.subscription_ids@ == owned(
                state.subscriptions,
                subscriber,
                start as int,
                state.next_id as int,
            ),
        },
{
    if start < state.next_id {
        law_adjacent_ranges_join(
            state.subscriptions,
            subscriber,
            start as int,
            state.reach(page),
            state.next_id as int,
        );
    }
}

/// A query that finds nothing within its scan depth says where to go on.
pub proof fn law_scan_depth_is_resumable(
    state: VaultState,
    page: SubscriptionsPage,
    subscriber: Address,
    start: u32,
    limit: u32,
)
    requires
        page_refusal(limit) is None,
        state.is_subscriber_page(page, subscriber, start, limit),
        start + MAX_SCAN_DEPTH < state.next_id,
        owned(
            state.subscriptions,
            subscriber,
            start as int,
            start + MAX_SCAN_DEPTH,
        ).len() < limit,
    ensures
        page.next_start_id == Some((start + MAX_SCAN_DEPTH) as u32),
{
    let end = state.reach(page);
    law_adjacent_ranges_join(
        state.subscriptions,
        subscriber,
        start as int,
        end,
        start + MAX_SCAN_DEPTH,
    );
}

/// Two consecutive pages of a list read as one longer page.
pub proof fn law_consecutive_pages_join(list: Seq<u32>, start: int, first: int, second: int)
    requires
        0 <= start,
        0 <= first,
        0 <= second,
    ensures
        slice_of(list, start, first) + slice_of(list, start + first, second) == slice_of(
            list,
            start,
            first + second,
        ),
{
    assert(slice_of(list, start, first) + slice_of(list, start + first, second) =~= slice_of(
        list,
        start,
        first + second,
    ));
}

/// A page that starts at the end of a list or past it is empty, and one that is long enough and
/// starts at the beginning is the whole list.
pub proof fn law_pages_end_with_the_list(list: Seq<u32>, start: int, limit: int)
    requires
        0 <= start,
        0 <= limit,
    ensures
        start >= list.len() ==> slice_of(list, start, limit).len() == 0,
        limit >= list.len() ==> slice_of(list, 0, limit) == list,
        slice_of(list, start, limit).len() <= limit,
{
    if limit >= list.len() {
        assert(slice_of(list, 0, limit) =~= list);
    }
}

} // verus!
