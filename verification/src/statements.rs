//! Billing statements: one numbered history per subscription, read page by page.
use crate::address::Address;
use crate::types::{BillingChargeKind, BillingStatement, BillingStatementsPage, CompactionSummary};
use std::collections::HashMap;
use vstd::prelude::*;

verus! {

broadcast use vstd::std_specs::hash::group_hash_axioms;

/// The statements of one subscription, oldest first, and the number of the next one.
#[verifier::ext_equal]
pub struct History {
    pub next_sequence: u32,
    pub statements: Seq<BillingStatement>,
}

/// The history of a subscription; one that was never charged has an empty one.
pub open spec fn history(book: Map<u32, History>, id: u32) -> History {
    if book.contains_key(id) {
        book[id]
    } else {
        History { next_sequence: 0, statements: Seq::empty() }
    }
}

impl History {
    /// The statements carry consecutive numbers, the last of them just below the next number.
    pub open spec fn numbered(self) -> bool {
        &&& self.statements.len() <= self.next_sequence
        &&& forall|i: int|
            0 <= i < self.statements.len() ==> (#[trigger] self.statements[i]).sequence
                == self.next_sequence - self.statements.len() + i
    }

    /// The history with one more statement.
    pub open spec fn extended(
        self,
        id: u32,
        amount: i128,
        merchant: Address,
        kind: BillingChargeKind,
        period_start: u64,
        period_end: u64,
    ) -> History {
        History {
            next_sequence: (self.next_sequence + 1) as u32,
            statements: self.statements.push(
                BillingStatement {
                    subscription_id: id,
                    sequence: self.next_sequence,
                    amount,
                    merchant,
                    kind,
                    period_start,
                    period_end,
                },
            ),
        }
    }

    /// How many of the oldest statements have to go so that at most `keep` remain.
    pub open spec fn excess(self, keep: u32) -> int {
        if self.statements.len() > keep {
            self.statements.len() - keep
        } else {
            0
        }
    }

    /// The history with only its `keep` newest statements.
    pub open spec fn trimmed(self, keep: u32) -> History {
        History {
            statements: self.statements.skip(self.excess(keep)),
            ..self
        }
    }

    /// The statements in reading order.
    pub open spec fn listing(self, newest_first: bool) -> Seq<BillingStatement> {
        if newest_first {
            self.statements.reverse()
        } else {
            self.statements
        }
    }

    /// How many statements come before the one numbered `cursor` in reading order.
    pub open spec fn place(self, cursor: u32, newest_first: bool) -> int {
        let len = self.statements.len() as int;
        let before = if newest_first {
            self.next_sequence - 1 - cursor
        } else {
            cursor - (self.next_sequence - len)
        };
        if before < 0 {
            0
        } else if before > len {
            len
        } else {
            before
        }
    }

    /// Where a page that starts at place `from` ends.
    pub open spec fn page_end(self, from: int, limit: u32) -> int {
        if from + limit < self.statements.len() {
            from + limit
        } else {
            self.statements.len() as int
        }
    }

    /// `page` holds the statements from place `from` on, at most `limit` of them, and a cursor to
    /// the statement that follows them, if there is one.
    pub open spec fn is_page(
        self,
        page: BillingStatementsPage,
        from: int,
        limit: u32,
        newest_first: bool,
    ) -> bool {
        let to = self.page_end(from, limit);
        &&& page.statements@ == self.listing(newest_first).subrange(from, to)
        &&& page.next_cursor == (if to < self.statements.len() {
            Some(self.listing(newest_first)[to].sequence)
        } else {
            None
        })
        &&& page.total == self.statements.len()
    }

    /// The place at which a page with offset `offset` starts.
    pub open spec fn offset_place(self, offset: u32) -> int {
        if offset < self.statements.len() {
            offset as int
        } else {
            self.statements.len() as int
        }
    }

    /// The place at which a page with cursor `cursor` starts.
    pub open spec fn cursor_place(self, cursor: Option<u32>, newest_first: bool) -> int {
        match cursor {
            Some(sequence) => self.place(sequence, newest_first),
            None => 0,
        }
    }
}

struct StoredHistory {
    next_sequence: u32,
    statements: Vec<BillingStatement>,
}

impl StoredHistory {
    spec fn model(self) -> History {
        History { next_sequence: self.next_sequence, statements: self.statements@ }
    }
}

/// The statements of all subscriptions.
pub struct StatementBook {
    histories: HashMap<u32, StoredHistory>,
}

impl View for StatementBook {
    type V = Map<u32, History>;

    closed spec fn view(&self) -> Map<u32, History> {
        self.histories@.map_values(|stored: StoredHistory| stored.model())
    }
}

/// Every history of a book carries consecutive numbers.
pub open spec fn all_numbered(book: Map<u32, History>) -> bool {
    forall|id: u32| #[trigger] book.contains_key(id) ==> book[id].numbered()
}

impl StatementBook {
    pub fn new() -> (book: StatementBook)
        ensures
            book@ == Map::<u32, History>::empty(),
    {
        let book = StatementBook { histories: HashMap::new() };
        assert(book@ =~= Map::<u32, History>::empty());
        book
    }

    /// The number that the next statement of a subscription gets.
    pub fn next_sequence(&self, id: u32) -> (sequence: u32)
        ensures
            sequence == history(self@, id).next_sequence,
    {
        match self.histories.get(&id) {
            Some(stored) => stored.next_sequence,
            None => 0,
        }
    }

    /// Adds a statement to the history of a subscription.
    pub fn append(
        &mut self,
        id: u32,
        amount: i128,
        merchant: Address,
        kind: BillingChargeKind,
        period_start: u64,
        period_end: u64,
    )
        requires
            history(old(self)@, id).next_sequence < u32::MAX,
        ensures
            final(self)@ == old(self)@.insert(
                id,
                history(old(self)@, id).extended(
                    id,
                    amount,
                    merchant,
                    kind,
                    period_start,
                    period_end,
                ),
            ),
    {
        let mut stored = match self.histories.remove(&id) {
            Some(stored) => stored,
            None => StoredHistory { next_sequence: 0, statements: Vec::new() },
        };
        assert(stored.model() =~= history(old(self)@, id));
        stored.statements.push(
            BillingStatement {
                subscription_id: id,
                sequence: stored.next_sequence,
                amount,
                merchant,
                kind,
                period_start,
                period_end,
            },
        );
        stored.next_sequence = stored.next_sequence + 1;
        self.histories.insert(id, stored);
        assert(self@ =~= old(self)@.insert(
            id,
            history(old(self)@, id).extended(id, amount, merchant, kind, period_start, period_end),
        ));
    }

    /// Drops the oldest statements of a subscription so that at most `keep` remain.
    pub fn compact(&mut self, id: u32, keep: u32) -> (summary: CompactionSummary)
        requires
            all_numbered(old(self)@),
        ensures
            final(self)@ == old(self)@.insert(id, history(old(self)@, id).trimmed(keep)),
            summary.pruned == history(old(self)@, id).excess(keep),
            summary.kept == history(old(self)@, id).trimmed(keep).statements.len(),
    {
        let stored = match self.histories.remove(&id) {
            Some(stored) => stored,
            None => StoredHistory { next_sequence: 0, statements: Vec::new() },
        };
        let ghost before = history(old(self)@, id);
        assert(stored.model() =~= before);
        assert(before.numbered());
        let len: usize = stored.statements.len();
        let excess: usize = if len > keep as usize {
            len - keep as usize
        } else {
            0
        };
        let mut kept: Vec<BillingStatement> = Vec::new();
        let mut i: usize = excess;
        while i < len
            invariant
                excess <= i <= len,
                len == stored.statements@.len(),
                kept@ == stored.statements@.subrange(excess as int, i as int),
            decreases len - i,
        {
            kept.push(stored.statements[i]);
            i += 1;
            assert(stored.statements@.subrange(excess as int, i as int)
                =~= stored.statements@.subrange(excess as int, i - 1).push(
                stored.statements@[i - 1],
            ));
        }
        let summary = CompactionSummary { pruned: excess as u32, kept: kept.len() as u32 };
        self.histories.insert(
            id,
            StoredHistory { next_sequence: stored.next_sequence, statements: kept },
        );
        assert(kept@ =~= before.statements.skip(excess as int));
        assert(self@ =~= old(self)@.insert(id, before.trimmed(keep)));
        summary
    }

    /// The statements from place `from` on, at most `limit` of them.
    fn page_from(&self, id: u32, from: u32, limit: u32, newest_first: bool) -> (page:
        BillingStatementsPage)
        requires
            all_numbered(self@),
            from <= history(self@, id).statements.len(),
        ensures
            history(self@, id).is_page(page, from as int, limit, newest_first),
    {
        let ghost h = history(self@, id);
        let mut statements: Vec<BillingStatement> = Vec::new();
        match self.histories.get(&id) {
            Some(stored) => {
                assert(stored.model() =~= h);
                assert(h.numbered());
                let len: usize = stored.statements.len();
                let to: usize = if limit as usize >= len - from as usize {
                    len
                } else {
                    from as usize + limit as usize
                };
                let ghost listing = h.listing(newest_first);
                let mut i: usize = from as usize;
                while i < to
                    invariant
                        from <= i <= to <= len,
                        len == stored.statements@.len(),
                        h.statements == stored.statements@,
                        listing == h.listing(newest_first),
                        statements@ == listing.subrange(from as int, i as int),
                    decreases to - i,
                {
                    let at: usize = if newest_first {
                        len - 1 - i
                    } else {
                        i
                    };
                    statements.push(stored.statements[at]);
                    i += 1;
                    assert(listing.subrange(from as int, i as int) =~= listing.subrange(
                        from as int,
                        i - 1,
                    ).push(listing[i - 1]));
                }
                let next_cursor: Option<u32> = if to < len {
                    let at: usize = if newest_first {
                        len - 1 - to
                    } else {
                        to
                    };
                    Some(stored.statements[at].sequence)
                } else {
                    None
                };
                BillingStatementsPage { statements, next_cursor, total: len as u32 }
            },
            None => {
                assert(statements@ =~= h.listing(newest_first).subrange(0, 0));
                BillingStatementsPage { statements, next_cursor: None, total: 0 }
            },
        }
    }

    /// The page that leaves out the first `offset` statements.
    pub fn offset_page(&self, id: u32, offset: u32, limit: u32, newest_first: bool) -> (page:
        BillingStatementsPage)
        requires
            all_numbered(self@),
        ensures
            history(self@, id).is_page(
                page,
                history(self@, id).offset_place(offset),
                limit,
                newest_first,
            ),
    {
        let len: u32 = self.len(id);
        let from: u32 = if offset < len {
            offset
        } else {
            len
        };
        self.page_from(id, from, limit, newest_first)
    }

    /// The page that starts at the statement numbered `cursor`, or at the first one.
    pub fn cursor_page(&self, id: u32, cursor: Option<u32>, limit: u32, newest_first: bool) -> (page:
        BillingStatementsPage)
        requires
            all_numbered(self@),
        ensures
            history(self@, id).is_page(
                page,
                history(self@, id).cursor_place(cursor, newest_first),
                limit,
                newest_first,
            ),
    {
        let len: u32 = self.len(id);
        let next: u32 = self.next_sequence(id);
        let from: u32 = match cursor {
            None => 0,
            Some(sequence) => if newest_first {
                if sequence >= next {
                    0
                } else if next - 1 - sequence > len {
                    len
                } else {
                    next - 1 - sequence
                }
            } else {
                if sequence <= next - len {
                    0
                } else if sequence - (next - len) > len {
                    len
                } else {
                    sequence - (next - len)
                }
            },
        };
        self.page_from(id, from, limit, newest_first)
    }

    /// How many statements a subscription has.
    fn len(&self, id: u32) -> (len: u32)
        requires
            all_numbered(self@),
        ensures
            len == history(self@, id).statements.len(),
            len <= history(self@, id).next_sequence,
    {
        match self.histories.get(&id) {
            Some(stored) => {
                assert(self@.contains_key(id) && self@[id] == stored.model());
                assert(self@[id].numbered());
                stored.statements.len() as u32
            },
            None => 0,
        }
    }
}

/// Adding a statement and dropping old ones both keep a history numbered.
pub proof fn law_histories_stay_numbered(
    h: History,
    id: u32,
    amount: i128,
    merchant: Address,
    kind: BillingChargeKind,
    period_start: u64,
    period_end: u64,
    keep: u32,
)
    requires
        h.numbered(),
    ensures
        h.next_sequence < u32::MAX ==> h.extended(
            id,
            amount,
            merchant,
            kind,
            period_start,
            period_end,
        ).numbered(),
        h.trimmed(keep).numbered(),
{
}

/// The cursor of a page leads to the statement right after the page: the next page neither skips a
/// statement nor repeats one, and the two together read as one longer page.
pub proof fn law_cursor_resumes_where_the_page_ended(
    h: History,
    page: BillingStatementsPage,
    next: BillingStatementsPage,
    from: int,
    limit: u32,
    next_limit: u32,
    newest_first: bool,
)
    requires
        h.numbered(),
        0 <= from <= h.statements.len(),
        h.is_page(page, from, limit, newest_first),
        page.next_cursor is Some,
        h.is_page(next, h.cursor_place(page.next_cursor, newest_first), next_limit, newest_first),
    ensures
        h.cursor_place(page.next_cursor, newest_first) == from + page.statements@.len(),
        page.statements@ + next.statements@ == h.listing(newest_first).subrange(
            from,
            h.page_end(from + page.statements@.len(), next_limit),
        ),
{
    let to = h.page_end(from, limit);
    assert(h.listing(newest_first)[to].sequence == page.next_cursor->0);
    assert(page.statements@ + next.statements@ =~= h.listing(newest_first).subrange(
        from,
        h.page_end(to, next_limit),
    ));
}

/// A page without a cursor reaches the end of the statements.
pub proof fn law_page_without_cursor_is_the_last(
    h: History,
    page: BillingStatementsPage,
    from: int,
    limit: u32,
    newest_first: bool,
)
    requires
        0 <= from <= h.statements.len(),
        h.is_page(page, from, limit, newest_first),
        page.next_cursor is None,
    ensures
        page.statements@ == h.listing(newest_first).skip(from),
{
    assert(page.statements@ =~= h.listing(newest_first).skip(from));
}

/// Read newest first, the statements come in the reverse of the order in which they were issued.
pub proof fn law_newest_first_reverses_the_listing(h: History)
    ensures
        h.listing(true) == h.listing(false).reverse(),
        h.listing(true).len() == h.listing(false).len(),
{
}

/// Read oldest first, the numbers of a page increase; read newest first, they decrease.
pub proof fn law_page_is_ordered_by_sequence(
    h: History,
    page: BillingStatementsPage,
    from: int,
    limit: u32,
    newest_first: bool,
    i: int,
    j: int,
)
    requires
        h.numbered(),
        0 <= from <= h.statements.len(),
        h.is_page(page, from, limit, newest_first),
        0 <= i < j < page.statements@.len(),
    ensures
        newest_first ==> page.statements@[i].sequence > page.statements@[j].sequence,
        !newest_first ==> page.statements@[i].sequence < page.statements@[j].sequence,
{
    let listing = h.listing(newest_first);
    assert(page.statements@[i] == listing[from + i]);
    assert(page.statements@[j] == listing[from + j]);
}

/// A page never holds more statements than asked for.
pub proof fn law_page_respects_its_limit(
    h: History,
    page: BillingStatementsPage,
    from: int,
    limit: u32,
    newest_first: bool,
)
    requires
        0 <= from <= h.statements.len(),
        h.is_page(page, from, limit, newest_first),
    ensures
        page.statements@.len() <= limit,
{
}

} // verus!
