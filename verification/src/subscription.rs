//! The two block sources behind one subscription interface.
//!
//! A subscription is opened once, either over a bounded historical range
//! (catch-up) or against the live head of the chain, and is then polled for
//! one ordered block at a time. The catch-up source is a cursor that walks
//! `[start_block, end_block)` at a fixed stride; the live source filters
//! head notifications by a sampling stride and hands the retained heights to
//! the fetch-and-pair step. Everything here is the decision logic of those
//! two sources; performing the fetches, the background task and the channel
//! belong to the caller.

use vstd::prelude::*;

use crate::pairing::OrderedBlock;
use crate::Error;

verus! {

/// The closed-open block range `[start_block, end_block)` of a catch-up
/// subscription. Supplying one selects the catch-up source; supplying none
/// selects the live follower.
#[derive(Debug, Clone, Copy, PartialEq, Eq, Structural)]
pub struct SubscriptionConfig {
    pub start_block: u64,
    pub end_block: u64,
}

/// The heights a catch-up cursor at `start` will visit before reaching
/// `end`, advancing by `interval` after each: `start`, `start + interval`,
/// and so on, strictly below `end`.
pub open spec fn catch_up_heights(start: int, end: int, interval: int) -> Seq<int>
    decreases end - start,
{
    if start >= end || interval < 1 {
        Seq::empty()
    } else if start + interval >= end {
        seq![start]
    } else {
        seq![start] + catch_up_heights(start + interval, end, interval)
    }
}

/// The `i`-th height a catch-up cursor visits is exactly `start`, plus `i`
/// strides.
pub proof fn lemma_catch_up_heights_index(start: int, end: int, interval: int)
    requires
        interval >= 1,
    ensures
        forall|i: int|
            0 <= i < catch_up_heights(start, end, interval).len() ==> #[trigger] catch_up_heights(
                start,
                end,
                interval,
            )[i] == start + i * interval,
    decreases end - start,
{
    let r = catch_up_heights(start, end, interval);
    if start >= end {
        assert(r.len() == 0);
    } else if start + interval >= end {
        assert(r == seq![start]);
        assert forall|i: int| 0 <= i < r.len() implies r[i] == start + i * interval by {
            assert(i == 0);
            assert(r[0] == start);
        }
    } else {
        lemma_catch_up_heights_index(start + interval, end, interval);
        let rest = catch_up_heights(start + interval, end, interval);
        assert(r == seq![start] + rest);
        assert forall|i: int| 0 <= i < r.len() implies r[i] == start + i * interval by {
            if i == 0 {
                assert(r[0] == start);
            } else {
                assert(r[i] == rest[i - 1]);
                assert(rest[i - 1] == start + interval + (i - 1) * interval);
                assert(interval + (i - 1) * interval == i * interval) by (nonlinear_arith);
            }
        }
    }
}

/// A catch-up source delivers strictly increasing heights.
pub proof fn lemma_catch_up_heights_increasing(start: int, end: int, interval: int)
    requires
        interval >= 1,
    ensures
        forall|i: int, j: int|
            0 <= i < j < catch_up_heights(start, end, interval).len()
                ==> #[trigger] catch_up_heights(start, end, interval)[i]
                < #[trigger] catch_up_heights(start, end, interval)[j],
{
    let r = catch_up_heights(start, end, interval);
    lemma_catch_up_heights_index(start, end, interval);
    assert forall|i: int, j: int| 0 <= i < j < r.len() implies r[i] < r[j] by {
        assert(i * interval < j * interval) by (nonlinear_arith)
            requires
                i < j,
                interval >= 1,
        ;
    }
}

/// A catch-up over `[start, start + 3k)` at stride `k` schedules exactly
/// the three heights `start`, `start + k` and `start + 2k`; once the cursor
/// stands at `start + 3k` nothing remains, and nothing ever will.
pub proof fn lemma_catch_up_three_strides(start: int, k: int)
    requires
        k >= 1,
    ensures
        catch_up_heights(start, start + 3 * k, k) == seq![start, start + k, start + 2 * k],
        catch_up_heights(start + 3 * k, start + 3 * k, k) == Seq::<int>::empty(),
{
    let end = start + 3 * k;
    assert(catch_up_heights(start + 2 * k, end, k) =~= seq![start + 2 * k]);
    assert(catch_up_heights(start + k, end, k) =~= seq![start + k] + catch_up_heights(
        start + 2 * k,
        end,
        k,
    ));
    assert(catch_up_heights(start, end, k) =~= seq![start] + catch_up_heights(start + k, end, k));
    assert(catch_up_heights(start, end, k) =~= seq![start, start + k, start + 2 * k]);
}

/// The catch-up source: a cursor over `[start_block, end_block)` advancing
/// by `interval` after each delivered block. Each call for the next block
/// re-checks the cursor; no flag is kept, so an exhausted fetcher stays
/// exhausted.
#[derive(Debug, Clone, Copy, PartialEq, Eq, Structural)]
pub struct BlockFetcher {
    pub config: SubscriptionConfig,
    pub interval: u64,
}

impl BlockFetcher {
    /// The cursor has reached the end of the range: no further height will
    /// ever be delivered.
    pub open spec fn exhausted(&self) -> bool {
        self.config.start_block >= self.config.end_block
    }

    /// The heights this fetcher will still deliver, in delivery order.
    pub open spec fn remaining_heights(&self) -> Seq<int> {
        catch_up_heights(
            self.config.start_block as int,
            self.config.end_block as int,
            self.interval as int,
        )
    }

    pub fn new(config: SubscriptionConfig, interval: u64) -> (r: Self)
        ensures
            r == (BlockFetcher { config, interval }),
    {
        BlockFetcher { config, interval }
    }

    /// Retiring a catch-up source is a no-op: it owns no background
    /// resource.
    pub fn cancel(&self) {
    }

    /// The height the next delivered block must have, or
    /// `EndOfSubscription` when the range is exhausted — on this call and
    /// on every later one.
    pub fn next_height(&self) -> (r: Result<u64, Error>)
        ensures
            self.exhausted() ==> r == Err::<u64, Error>(Error::EndOfSubscription),
            !self.exhausted() ==> r == Ok::<u64, Error>(self.config.start_block),
    {
        if self.config.start_block >= self.config.end_block {
            Err(Error::EndOfSubscription)
        } else {
            Ok(self.config.start_block)
        }
    }

    /// Moves the cursor one stride forward after a successful delivery.
    /// Only the cursor moves: the end of the range and the stride are
    /// fixed for the fetcher's lifetime.
    pub fn advance(&mut self)
        requires
            !old(self).exhausted(),
            old(self).config.start_block + old(self).interval <= u64::MAX,
        ensures
            final(self).config.start_block == old(self).config.start_block + old(self).interval,
            final(self).config.end_block == old(self).config.end_block,
            final(self).interval == old(self).interval,
            old(self).interval >= 1 ==> final(self).remaining_heights() == old(
                self,
            ).remaining_heights().drop_first(),
    {
        proof {
            let start = old(self).config.start_block as int;
            let end = old(self).config.end_block as int;
            let interval = old(self).interval as int;
            if interval >= 1 {
                if start + interval >= end {
                    assert(catch_up_heights(start, end, interval) =~= seq![start]);
                    assert(catch_up_heights(start + interval, end, interval)
                        =~= seq![start].drop_first());
                } else {
                    assert(catch_up_heights(start, end, interval) == seq![start]
                        + catch_up_heights(start + interval, end, interval));
                    assert(catch_up_heights(start + interval, end, interval) =~= (seq![start]
                        + catch_up_heights(start + interval, end, interval)).drop_first());
                }
            }
        }
        self.config.start_block = self.config.start_block + self.interval;
    }
}

/// What `next_height` answers is always the first of the remaining
/// heights: the fetcher is exhausted exactly when no height remains, and
/// otherwise the cursor stands on the next height to deliver.
pub proof fn lemma_fetcher_schedule(f: BlockFetcher)
    requires
        f.interval >= 1,
    ensures
        f.exhausted() <==> f.remaining_heights().len() == 0,
        !f.exhausted() ==> f.remaining_heights()[0] == f.config.start_block as int,
{
}

/// A fetcher over a range of exactly three strides delivers exactly the
/// heights `start`, `start + k` and `start + 2k`, in that order, and is
/// exhausted afterwards.
pub proof fn lemma_fetcher_three_strides(f: BlockFetcher, k: u64)
    requires
        k >= 1,
        f.interval == k,
        f.config.end_block as int == f.config.start_block as int + 3 * (k as int),
    ensures
        f.remaining_heights() == seq![
            f.config.start_block as int,
            f.config.start_block as int + k as int,
            f.config.start_block as int + 2 * (k as int),
        ],
{
    lemma_catch_up_three_strides(f.config.start_block as int, k as int);
}

/// One observation of the live head stream: a header carrying a new block
/// number, or the remote end closing the stream.
#[derive(Debug, Clone, Copy, PartialEq, Eq, Structural)]
pub enum HeadEvent {
    Header(u64),
    Closed,
}

/// What the live follower does with one head event.
#[derive(Debug, Clone, Copy, PartialEq, Eq, Structural)]
pub enum FollowerAction {
    /// The height misses the sampling stride: discard it, fetch nothing.
    Skip,
    /// Fetch-and-pair this height and send the record to the consumer.
    FetchAndSend(u64),
    /// The stream ended: stop, reporting the end of the subscription.
    Terminate,
}

/// Decides the live follower's reaction to one head event: a height is
/// fetched exactly when it is a multiple of the sampling stride, and a
/// closed stream terminates the follower.
pub fn on_head_event(event: HeadEvent, interval: u64) -> (r: FollowerAction)
    requires
        interval >= 1,
    ensures
        event matches HeadEvent::Header(h) ==> r == (if h % interval == 0 {
            FollowerAction::FetchAndSend(h)
        } else {
            FollowerAction::Skip
        }),
        event matches HeadEvent::Closed ==> r == FollowerAction::Terminate,
        r matches FollowerAction::FetchAndSend(h) ==> event == HeadEvent::Header(h) && h % interval
            == 0,
{
    match event {
        HeadEvent::Header(h) => {
            if h % interval == 0 {
                FollowerAction::FetchAndSend(h)
            } else {
                FollowerAction::Skip
            }
        },
        HeadEvent::Closed => FollowerAction::Terminate,
    }
}

/// The consumer-side reading of one receive on the follower's channel: a
/// delivered record is a success, and a closed, drained channel is the end
/// of the source — by policy never an error, even when an internal fetch
/// failure closed the channel.
pub fn resolve_channel_recv(received: Option<OrderedBlock>) -> (r: Result<
    Option<OrderedBlock>,
    Error,
>)
    ensures
        r == Ok::<Option<OrderedBlock>, Error>(received),
{
    match received {
        Some(block) => Ok(Some(block)),
        None => Ok(None),
    }
}

/// The source a subscription runs on, fixed at construction: a catch-up
/// cursor when a range was supplied, the live follower otherwise.
#[derive(Debug, Clone, Copy, PartialEq, Eq, Structural)]
pub enum SubscriptionMode {
    CatchUp(BlockFetcher),
    LiveHeads { interval: u64 },
}

/// Selects the subscription source: the sole selector is whether a range
/// configuration was supplied.
pub fn open_subscription(config: Option<SubscriptionConfig>, interval: u64) -> (r: SubscriptionMode)
    ensures
        config matches Some(c) ==> r == SubscriptionMode::CatchUp(BlockFetcher { config: c, interval }),
        config is None ==> r == (SubscriptionMode::LiveHeads { interval }),
{
    match config {
        Some(c) => SubscriptionMode::CatchUp(BlockFetcher::new(c, interval)),
        None => SubscriptionMode::LiveHeads { interval },
    }
}

} // verus!
