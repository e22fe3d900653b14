//! The download of the whole system list, one page after the other.
//!
//! The download itself sends nothing. It is a state that is handed each
//! reply in turn and says what to do next: ask for the next page, wait and
//! ask for the same page again, stop with the full list, or stop with an
//! error.

use crate::model::System;
use crate::wire::{FailureKind, Reply};
use std::time::Duration;
use vstd::prelude::*;

verus! {

/// The number of the page that a download starts with.
pub const FIRST_PAGE: u64 = 1;

/// The failure that ended a download: the page that was asked for, and why
/// the request failed.
#[derive(Debug, Clone, Copy, PartialEq, Eq, Structural)]
pub struct FetchError {
    pub page: u64,
    pub kind: FailureKind,
}

/// A download in progress, as mathematical values.
pub struct FetcherView {
    /// The systems received so far, in the order they came.
    pub systems: Seq<System>,
    /// The number of the page to ask for next.
    pub page: int,
    /// The total count that came with the first page; zero before it came.
    pub total: int,
}

impl FetcherView {
    /// A download of which nothing has been received.
    pub open spec fn fresh() -> FetcherView {
        FetcherView { systems: Seq::empty(), page: FIRST_PAGE as int, total: 0 }
    }

    /// How many systems are still to come.
    pub open spec fn remaining(self) -> int {
        self.total - self.systems.len()
    }

    /// A download in progress either has received nothing, or still has
    /// systems to come.
    pub open spec fn well_formed(self) -> bool {
        &&& self.page >= FIRST_PAGE
        &&& self.page == FIRST_PAGE ==> self.systems.len() == 0 && self.total == 0
        &&& self.page > FIRST_PAGE ==> self.remaining() > 0
    }
}

/// Where a download stands.
pub enum Progress {
    /// More pages are to be asked for.
    Fetching(FetcherView),
    /// Every system has been received.
    Complete(Seq<System>),
    /// The request for the given page failed.
    Failed { page: int, kind: FailureKind },
}

/// What one reply does to a download in progress.
///
/// A rate-limit signal changes nothing. A failure ends the download, and
/// names the page that was asked for. A page is added behind what was
/// received before; the total count is taken from the first page alone;
/// the download is complete once no systems remain, and goes on to the next
/// page otherwise.
pub open spec fn advance(state: FetcherView, reply: Reply) -> Progress {
    match reply {
        Reply::RateLimited { .. } => Progress::Fetching(state),
        Reply::Failed { kind } => Progress::Failed { page: state.page, kind },
        Reply::Page { data, total } => {
            let next = FetcherView {
                systems: state.systems + data@,
                page: state.page + 1,
                total: if state.page == FIRST_PAGE {
                    total as int
                } else {
                    state.total
                },
            };
            if next.remaining() > 0 {
                Progress::Fetching(next)
            } else {
                Progress::Complete(next.systems)
            }
        },
    }
}

/// What one reply does to a download, in progress or not: once a download
/// is complete or has failed, replies change nothing.
pub open spec fn step(progress: Progress, reply: Reply) -> Progress {
    match progress {
        Progress::Fetching(state) => advance(state, reply),
        _ => progress,
    }
}

/// Where a download stands after a sequence of replies.
pub open spec fn run(progress: Progress, replies: Seq<Reply>) -> Progress
    decreases replies.len(),
{
    if replies.len() == 0 {
        progress
    } else {
        run(step(progress, replies[0]), replies.drop_first())
    }
}

/// The systems of all the pages among `replies`, in the order of the
/// replies.
pub open spec fn pages_of(replies: Seq<Reply>) -> Seq<System>
    decreases replies.len(),
{
    if replies.len() == 0 {
        Seq::empty()
    } else {
        match replies[0] {
            Reply::Page { data, .. } => data@ + pages_of(replies.drop_first()),
            _ => pages_of(replies.drop_first()),
        }
    }
}

/// The number of pages among `replies`.
pub open spec fn page_count(replies: Seq<Reply>) -> int
    decreases replies.len(),
{
    if replies.len() == 0 {
        0
    } else {
        match replies[0] {
            Reply::Page { .. } => 1 + page_count(replies.drop_first()),
            _ => page_count(replies.drop_first()),
        }
    }
}

/// The total count that the first page among `replies` announces; zero
/// when there is no page among them.
pub open spec fn announced_total(replies: Seq<Reply>) -> int
    decreases replies.len(),
{
    if replies.len() == 0 {
        0
    } else {
        match replies[0] {
            Reply::Page { total, .. } => total as int,
            _ => announced_total(replies.drop_first()),
        }
    }
}

/// Replies given one sequence after another act as the two in a row.
pub proof fn lemma_run_concat(progress: Progress, first: Seq<Reply>, second: Seq<Reply>)
    ensures
        run(progress, first + second) == run(run(progress, first), second),
    decreases first.len(),
{
    if first.len() == 0 {
        assert(first + second =~= second);
    } else {
        assert((first + second).drop_first() =~= first.drop_first() + second);
        lemma_run_concat(step(progress, first[0]), first.drop_first(), second);
    }
}

/// A single reply acts as one step.
pub proof fn lemma_run_one(progress: Progress, reply: Reply)
    ensures
        run(progress, seq![reply]) == step(progress, reply),
{
    let one = seq![reply];
    assert(one.drop_first() =~= Seq::<Reply>::empty());
    assert(run(progress, one) == run(step(progress, one[0]), one.drop_first()));
}

/// Once a download is complete or has failed, no reply changes that.
pub proof fn lemma_run_ended(progress: Progress, replies: Seq<Reply>)
    requires
        !(progress is Fetching),
    ensures
        run(progress, replies) == progress,
    decreases replies.len(),
{
    if replies.len() > 0 {
        lemma_run_ended(progress, replies.drop_first());
    }
}

/// The systems of two sequences of replies in a row are those of the first
/// followed by those of the second, and their pages add up.
pub proof fn lemma_pages_concat(first: Seq<Reply>, second: Seq<Reply>)
    ensures
        pages_of(first + second) == pages_of(first) + pages_of(second),
        page_count(first + second) == page_count(first) + page_count(second),
        page_count(first) >= 0,
        announced_total(first + second) == if page_count(first) > 0 {
            announced_total(first)
        } else {
            announced_total(second)
        },
    decreases first.len(),
{
    if first.len() == 0 {
        assert(first + second =~= second);
        assert(pages_of(first) + pages_of(second) =~= pages_of(second));
    } else {
        assert((first + second).drop_first() =~= first.drop_first() + second);
        lemma_pages_concat(first.drop_first(), second);
        assert(pages_of(first + second) =~= pages_of(first) + pages_of(second));
    }
}

/// While a download is in progress, it holds the systems of the pages it
/// was given, in the order they came, and its page counter has advanced
/// once for each of them.
pub proof fn lemma_progress_from(state: FetcherView, replies: Seq<Reply>)
    requires
        state.page >= FIRST_PAGE,
    ensures
        run(Progress::Fetching(state), replies) matches Progress::Fetching(later) ==> {
            &&& later.systems == state.systems + pages_of(replies)
            &&& later.page == state.page + page_count(replies)
            &&& later.total == if state.page == FIRST_PAGE && page_count(replies) > 0 {
                announced_total(replies)
            } else {
                state.total
            }
        },
    decreases replies.len(),
{
    lemma_announced_without_page(replies);
    if replies.len() == 0 {
        assert(state.systems + pages_of(replies) =~= state.systems);
    } else {
        lemma_announced_without_page(replies.drop_first());
        match advance(state, replies[0]) {
            Progress::Fetching(next) => {
                lemma_progress_from(next, replies.drop_first());
                if let Progress::Fetching(later) = run(Progress::Fetching(state), replies) {
                    assert(later.systems =~= state.systems + pages_of(replies));
                }
            },
            ended => {
                lemma_run_ended(ended, replies.drop_first());
            },
        }
    }
}

/// Without a page among the replies, no total has been announced.
proof fn lemma_announced_without_page(replies: Seq<Reply>)
    ensures
        page_count(replies) >= 0,
        page_count(replies) == 0 ==> announced_total(replies) == 0,
    decreases replies.len(),
{
    if replies.len() > 0 {
        lemma_announced_without_page(replies.drop_first());
    }
}

/// A download in progress stays well formed.
pub proof fn lemma_fetching_well_formed(state: FetcherView, replies: Seq<Reply>)
    requires
        state.well_formed(),
    ensures
        run(Progress::Fetching(state), replies) matches Progress::Fetching(later)
            ==> later.well_formed(),
    decreases replies.len(),
{
    if replies.len() > 0 {
        match advance(state, replies[0]) {
            Progress::Fetching(next) => {
                lemma_fetching_well_formed(next, replies.drop_first());
            },
            ended => {
                lemma_run_ended(ended, replies.drop_first());
            },
        }
    }
}

/// A rate-limit signal among the replies changes nothing in how the
/// download goes on: with the signal and without it, the same replies lead
/// to the same systems in the same order, or to the same failure.
pub proof fn law_rate_limit_is_transparent(
    progress: Progress,
    before: Seq<Reply>,
    wait: Duration,
    after: Seq<Reply>,
)
    ensures
        run(progress, before + seq![Reply::RateLimited { wait }] + after) == run(
            progress,
            before + after,
        ),
{
    let signal = Reply::RateLimited { wait };
    let reached = run(progress, before);
    lemma_run_concat(progress, before + seq![signal], after);
    lemma_run_concat(progress, before, seq![signal]);
    lemma_run_one(reached, signal);
    lemma_run_concat(progress, before, after);
}

/// A failed request ends the download with an error that names the page
/// that was asked for, whatever the replies that might follow: nothing of
/// a later page is taken in.
pub proof fn law_failure_names_the_page(
    progress: Progress,
    before: Seq<Reply>,
    kind: FailureKind,
    after: Seq<Reply>,
)
    requires
        run(progress, before) is Fetching,
    ensures
        run(progress, before + seq![Reply::Failed { kind }] + after) == (Progress::Failed {
            page: run(progress, before)->Fetching_0.page,
            kind,
        }),
{
    let failure = Reply::Failed { kind };
    let reached = run(progress, before);
    lemma_run_concat(progress, before + seq![failure], after);
    lemma_run_concat(progress, before, seq![failure]);
    lemma_run_one(reached, failure);
    lemma_run_ended(step(reached, failure), after);
}

/// From the start, the pages are asked for in increasing order, one number
/// after the other: after any replies that leave the download in progress,
/// the page to ask for is the first page plus the number of pages received,
/// the systems held are those pages' systems in the order they came, and
/// fewer of them are held than the first page announced.
pub proof fn law_pages_in_order(replies: Seq<Reply>)
    ensures
        run(Progress::Fetching(FetcherView::fresh()), replies) matches Progress::Fetching(state)
            ==> {
            &&& state.page == FIRST_PAGE + page_count(replies)
            &&& state.systems == pages_of(replies)
            &&& state.total == announced_total(replies)
            &&& page_count(replies) > 0 ==> pages_of(replies).len() < announced_total(replies)
        },
{
    lemma_fetching_well_formed(FetcherView::fresh(), replies);
    lemma_announced_without_page(replies);
    lemma_progress_from(FetcherView::fresh(), replies);
    assert(FetcherView::fresh().systems + pages_of(replies) =~= pages_of(replies));
}

/// The list that a download ends with is the concatenation, in the order of
/// the replies, of all the pages up to the one that completed it; and it
/// holds at least as many systems as the first page announced.
pub proof fn law_snapshot_is_all_pages(replies: Seq<Reply>)
    requires
        replies.len() > 0,
        run(Progress::Fetching(FetcherView::fresh()), replies.drop_last()) is Fetching,
    ensures
        run(Progress::Fetching(FetcherView::fresh()), replies) matches Progress::Complete(systems)
            ==> {
            &&& systems == pages_of(replies)
            &&& systems.len() >= announced_total(replies)
            &&& replies.last() is Page
        },
{
    let start = Progress::Fetching(FetcherView::fresh());
    let earlier = replies.drop_last();
    let last = replies.last();
    assert(replies =~= earlier + seq![last]);
    lemma_run_concat(start, earlier, seq![last]);
    lemma_run_one(run(start, earlier), last);
    law_pages_in_order(earlier);
    lemma_pages_concat(earlier, seq![last]);
    if let Reply::Page { data, .. } = last {
        assert(seq![last].drop_first() =~= Seq::<Reply>::empty());
        assert(pages_of(seq![last]) =~= data@ + pages_of(seq![last].drop_first()));
        assert(pages_of(seq![last]) =~= data@);
        assert(page_count(seq![last]) == 1 + page_count(seq![last].drop_first()));
    }
}

/// A download in progress.
#[derive(Debug)]
pub struct Fetcher {
    systems: Vec<System>,
    page: u64,
    total: i32,
}

impl View for Fetcher {
    type V = FetcherView;

    closed spec fn view(&self) -> FetcherView {
        FetcherView { systems: self.systems@, page: self.page as int, total: self.total as int }
    }
}

/// What to do after a reply.
#[derive(Debug)]
pub enum Outcome {
    /// Wait that long, then ask for the same page again.
    Retry { fetcher: Fetcher, wait: Duration },
    /// Ask for the next page.
    Next { fetcher: Fetcher },
    /// The download is complete: these are all the systems, in the order of
    /// the service.
    Complete { systems: Vec<System> },
    /// The download has failed. Nothing of what was received is kept.
    Failed { error: FetchError },
}

impl View for Outcome {
    type V = Progress;

    open spec fn view(&self) -> Progress {
        match *self {
            Outcome::Retry { fetcher, .. } => Progress::Fetching(fetcher@),
            Outcome::Next { fetcher } => Progress::Fetching(fetcher@),
            Outcome::Complete { systems } => Progress::Complete(systems@),
            Outcome::Failed { error } => Progress::Failed {
                page: error.page as int,
                kind: error.kind,
            },
        }
    }
}

impl Fetcher {
    #[verifier::type_invariant]
    spec fn inv(&self) -> bool {
        self@.well_formed()
    }

    /// A download of which nothing has been received yet. The first page is
    /// to be asked for.
    pub fn start() -> (fetcher: Fetcher)
        ensures
            fetcher@ == FetcherView::fresh(),
    {
        Fetcher { systems: Vec::new(), page: FIRST_PAGE, total: 0 }
    }

    /// The number of the page to ask for.
    pub fn page(&self) -> (page: u64)
        ensures
            page == self@.page,
            page >= FIRST_PAGE,
            self@.well_formed(),
    {
        proof {
            use_type_invariant(self);
        }
        self.page
    }

    /// The number of systems received so far.
    pub fn received(&self) -> (count: usize)
        ensures
            count == self@.systems.len(),
    {
        self.systems.len()
    }

    /// The number of systems still to come, once the first page has said
    /// how many there are.
    pub fn remaining(&self) -> (left: Option<u64>)
        ensures
            match left {
                Some(n) => self@.page > FIRST_PAGE && n == self@.remaining() && n > 0,
                None => self@.page == FIRST_PAGE,
            },
    {
        proof {
            use_type_invariant(self);
        }
        if self.page == FIRST_PAGE {
            None
        } else {
            Some(self.total as u64 - self.systems.len() as u64)
        }
    }

    /// Takes the reply to the request for the page `self.page()`, and says
    /// what to do next.
    ///
    /// A rate-limit signal leaves the download as it was, and hands back the
    /// time to wait. The page counter cannot go beyond what a `u64` holds.
    pub fn on_reply(self, reply: Reply) -> (outcome: Outcome)
        requires
            self@.page < u64::MAX,
        ensures
            outcome@ == advance(self@, reply),
            match reply {
                Reply::RateLimited { wait } => outcome matches Outcome::Retry { fetcher, wait: w }
                    && w == wait && fetcher@ == self@,
                Reply::Page { .. } => outcome is Next || outcome is Complete,
                Reply::Failed { kind } => outcome == (Outcome::Failed {
                    error: FetchError { page: self@.page as u64, kind },
                }),
            },
    {
        proof {
            use_type_invariant(&self);
        }
        match reply {
            Reply::RateLimited { wait } => Outcome::Retry { fetcher: self, wait },
            Reply::Failed { kind } => Outcome::Failed { error: FetchError { page: self.page, kind } },
            Reply::Page { data, total } => {
                let mut fetcher = self;
                let mut data = data;
                let total: i32 = if fetcher.page == FIRST_PAGE {
                    total
                } else {
                    fetcher.total
                };
                let mut systems = fetcher.systems;
                systems.append(&mut data);
                if total > 0 && systems.len() < total as usize {
                    Outcome::Next { fetcher: Fetcher { systems, page: fetcher.page + 1, total } }
                } else {
                    Outcome::Complete { systems }
                }
            },
        }
    }
}

} // verus!
