use vstd::prelude::*;

use crate::ids::GenericChannelId;
use crate::kinds::ShouldCache;

verus! {

/// How long a search whose messages are not indexed yet waits at least before it is
/// sent again, in nanoseconds: half a second. Discord asks for "a short delay" when its
/// `retry_after` is zero.
pub const SHORT_DELAY_NANOS: u128 = 500_000_000;

/// What Discord answered to one search request.
#[derive(Clone, Copy, Debug)]
pub enum SearchOutcome {
    /// The messages are not indexed yet; Discord asks to retry after the given time,
    /// in nanoseconds.
    NotIndexed { retry_after_nanos: u128 },
    /// The search results came back.
    Results,
}

/// What a search does next.
#[derive(Clone, Copy, Debug)]
pub enum SearchStep {
    /// Wait this many nanoseconds, then send the same request again.
    Retry { delay_nanos: u128 },
    /// Stop: the results are in.
    Finish,
}

/// The larger of two numbers.
pub open spec fn max_int(a: int, b: int) -> int {
    if a >= b { a } else { b }
}

/// The step that follows an answer of Discord.
pub open spec fn step_after(outcome: SearchOutcome) -> SearchStep {
    match outcome {
        SearchOutcome::NotIndexed { retry_after_nanos } => SearchStep::Retry {
            delay_nanos: max_int(retry_after_nanos as int, SHORT_DELAY_NANOS as int) as u128,
        },
        SearchOutcome::Results => SearchStep::Finish,
    }
}

/// Decides what a search does after an answer: while the messages are not indexed it
/// waits for the time Discord asks, but at least `SHORT_DELAY_NANOS`, and sends the
/// request again; once the results are in it stops.
pub fn next_search_step(outcome: SearchOutcome) -> (r: SearchStep)
    ensures
        r == step_after(outcome),
{
    match outcome {
        SearchOutcome::NotIndexed { retry_after_nanos } => {
            let delay_nanos = if retry_after_nanos >= SHORT_DELAY_NANOS {
                retry_after_nanos
            } else {
                SHORT_DELAY_NANOS
            };
            SearchStep::Retry { delay_nanos }
        },
        SearchOutcome::Results => SearchStep::Finish,
    }
}

/// A retried search never waits less than `SHORT_DELAY_NANOS`, nor less than Discord
/// asks, and it waits no longer than needed for both.
pub proof fn lemma_retry_delay(retry_after_nanos: u128)
    ensures
        step_after(SearchOutcome::NotIndexed { retry_after_nanos }) matches SearchStep::Retry {
            delay_nanos,
        } && delay_nanos >= SHORT_DELAY_NANOS && delay_nanos >= retry_after_nanos && (
        delay_nanos == SHORT_DELAY_NANOS || delay_nanos == retry_after_nanos),
{
}

/// Whether the found messages go into the cache: only where there is a cache and the
/// caller asked for it.
pub fn should_fill_cache(has_cache: bool, should_cache: ShouldCache) -> (r: bool)
    ensures
        r == (has_cache && should_cache == ShouldCache::Yes),
{
    has_cache && should_cache == ShouldCache::Yes
}

/// The positions, in increasing order, at which `channel` occurs in `channels`.
pub open spec fn indices_of(channels: Seq<GenericChannelId>, channel: GenericChannelId) -> Seq<
    usize,
>
    decreases channels.len(),
{
    if channels.len() == 0 {
        Seq::empty()
    } else {
        let rest = indices_of(channels.drop_last(), channel);
        if channels.last() == channel {
            rest.push((channels.len() - 1) as usize)
        } else {
            rest
        }
    }
}

/// The positions where a channel occurs are exactly those that hold it, and they come
/// in increasing order.
pub proof fn lemma_indices_of(channels: Seq<GenericChannelId>, channel: GenericChannelId)
    requires
        channels.len() <= usize::MAX,
    ensures
        forall|p: int|
            0 <= p < indices_of(channels, channel).len() ==> {
                &&& #[trigger] indices_of(channels, channel)[p] < channels.len()
                &&& channels[indices_of(channels, channel)[p] as int] == channel
            },
        forall|p: int, q: int|
            0 <= p < q < indices_of(channels, channel).len() ==> #[trigger] indices_of(
                channels,
                channel,
            )[p] < #[trigger] indices_of(channels, channel)[q],
        forall|k: int|
            0 <= k < channels.len() && #[trigger] channels[k] == channel ==> indices_of(
                channels,
                channel,
            ).contains(k as usize),
    decreases channels.len(),
{
    if channels.len() > 0 {
        let init = channels.drop_last();
        lemma_indices_of(init, channel);
        let rest = indices_of(init, channel);
        if channels.last() == channel {
            let k = (channels.len() - 1) as usize;
            assert(indices_of(channels, channel) == rest.push(k));
            assert forall|j: int|
                0 <= j < channels.len() && #[trigger] channels[j] == channel implies indices_of(
                channels,
                channel,
            ).contains(j as usize) by {
                if j < channels.len() - 1 {
                    assert(init[j] == channel);
                    let p = choose|p: int| 0 <= p < rest.len() && rest[p] == j as usize;
                    assert(indices_of(channels, channel)[p] == j as usize);
                } else {
                    assert(indices_of(channels, channel)[rest.len() as int] == k);
                }
            }
        } else {
            assert forall|j: int|
                0 <= j < channels.len() && #[trigger] channels[j] == channel implies indices_of(
                channels,
                channel,
            ).contains(j as usize) by {
                assert(j < channels.len() - 1);
                assert(init[j] == channel);
            }
        }
    }
}

/// Whether some group is that of `channel`.
pub open spec fn has_group(groups: Seq<(GenericChannelId, Vec<usize>)>, channel: GenericChannelId) -> bool {
    exists|i: int| 0 <= i < groups.len() && #[trigger] groups[i].0 == channel
}

fn positions_of(channels: &Vec<GenericChannelId>, channel: GenericChannelId) -> (r: Vec<usize>)
    ensures
        r@ == indices_of(channels@, channel),
{
    let mut r: Vec<usize> = Vec::new();
    let n = channels.len();
    for k in 0..n
        invariant
            n == channels@.len(),
            r@ == indices_of(channels@.take(k as int), channel),
    {
        proof {
            assert(channels@.take(k + 1).drop_last() =~= channels@.take(k as int));
        }
        if channels[k] == channel {
            r.push(k);
        }
    }
    proof {
        assert(channels@.take(n as int) =~= channels@);
    }
    r
}

fn contains_channel(keys: &Vec<GenericChannelId>, channel: GenericChannelId) -> (r: bool)
    ensures
        r == keys@.contains(channel),
{
    let n = keys.len();
    for i in 0..n
        invariant
            n == keys@.len(),
            forall|j: int| 0 <= j < i ==> keys@[j] != channel,
    {
        if keys[i] == channel {
            return true;
        }
    }
    false
}

/// Groups the found messages by the channel they were sent in, as the cache keeps
/// messages per channel. `channels[k]` is the channel of the `k`-th message; each group
/// is a channel with the positions of its messages, in their order, and every message
/// lies in the group of its channel.
pub fn group_by_channel(channels: &Vec<GenericChannelId>) -> (r: Vec<
    (GenericChannelId, Vec<usize>),
>)
    ensures
        forall|i: int, j: int| 0 <= i < j < r@.len() ==> #[trigger] r@[i].0 != #[trigger] r@[j].0,
        forall|i: int|
            0 <= i < r@.len() ==> #[trigger] r@[i].1@ == indices_of(channels@, r@[i].0),
        forall|i: int| 0 <= i < r@.len() ==> channels@.contains(#[trigger] r@[i].0),
        forall|k: int| 0 <= k < channels@.len() ==> has_group(r@, #[trigger] channels@[k]),
{
    let mut keys: Vec<GenericChannelId> = Vec::new();
    let n = channels.len();
    for k in 0..n
        invariant
            n == channels@.len(),
            forall|i: int, j: int|
                0 <= i < j < keys@.len() ==> #[trigger] keys@[i] != #[trigger] keys@[j],
            forall|i: int| 0 <= i < keys@.len() ==> channels@.contains(#[trigger] keys@[i]),
            forall|m: int| 0 <= m < k ==> keys@.contains(#[trigger] channels@[m]),
    {
        let c = channels[k];
        if !contains_channel(&keys, c) {
            let ghost old_keys = keys@;
            keys.push(c);
            proof {
                assert(channels@[k as int] == c);
                assert forall|m: int| 0 <= m < k + 1 implies keys@.contains(
                    #[trigger] channels@[m],
                ) by {
                    if m < k {
                        let i = choose|i: int| 0 <= i < old_keys.len() && old_keys[i] == channels@[m];
                        assert(keys@[i] == old_keys[i]);
                    } else {
                        assert(keys@[keys@.len() - 1] == channels@[m]);
                    }
                }
            }
        }
    }
    let mut groups: Vec<(GenericChannelId, Vec<usize>)> = Vec::new();
    let g = keys.len();
    for i in 0..g
        invariant
            g == keys@.len(),
            groups@.len() == i,
            forall|j: int| 0 <= j < i ==> #[trigger] groups@[j].0 == keys@[j],
            forall|j: int|
                0 <= j < i ==> #[trigger] groups@[j].1@ == indices_of(channels@, groups@[j].0),
    {
        let c = keys[i];
        let members = positions_of(channels, c);
        groups.push((c, members));
    }
    proof {
        assert forall|i: int, j: int| 0 <= i < j < groups@.len() implies #[trigger] groups@[i].0
            != #[trigger] groups@[j].0 by {
            assert(keys@[i] != keys@[j]);
        }
        assert forall|i: int| 0 <= i < groups@.len() implies channels@.contains(
            #[trigger] groups@[i].0,
        ) by {
            assert(channels@.contains(keys@[i]));
        }
        assert forall|k: int| 0 <= k < channels@.len() implies has_group(
            groups@,
            #[trigger] channels@[k],
        ) by {
            assert(keys@.contains(channels@[k]));
            let i = choose|i: int| 0 <= i < keys@.len() && keys@[i] == channels@[k];
            assert(groups@[i].0 == channels@[k]);
        }
    }
    groups
}

} // verus!
