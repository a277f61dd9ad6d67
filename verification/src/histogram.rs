//! Intensity histograms: 256 counts, one for each value a channel can take.

use vstd::prelude::*;

use crate::common::{blue, green, lemma_channel_range, red};

verus! {

/// One of the three colour channels a histogram is built for.
pub enum Channel {
    Red,
    Green,
    Blue,
}

impl Channel {
    /// The value of this channel in a pixel packed in storage order.
    pub open spec fn of(self, px: u32) -> int {
        match self {
            Channel::Red => red(px),
            Channel::Green => green(px),
            Channel::Blue => blue(px),
        }
    }
}

/// How many of the pixels have the intensity `value` in the given channel.
pub open spec fn channel_count(pixels: Seq<u32>, channel: Channel, value: int) -> nat
    decreases pixels.len(),
{
    if pixels.len() == 0 {
        0
    } else {
        let rest = channel_count(pixels.drop_last(), channel, value);
        if channel.of(pixels.last()) == value {
            rest + 1
        } else {
            rest
        }
    }
}

/// Whether `bins` is the histogram of the given channel over the pixels: one
/// bin for each intensity from 0 to 255, holding the number of pixels with
/// that intensity.
pub open spec fn is_histogram_of(bins: Seq<u32>, pixels: Seq<u32>, channel: Channel) -> bool {
    &&& bins.len() == 256
    &&& forall|value: int|
        0 <= value < 256 ==> #[trigger] bins[value] == channel_count(pixels, channel, value)
}

/// The sum of the first `n` bins.
pub open spec fn prefix_sum(bins: Seq<u32>, n: int) -> int
    decreases n,
{
    if n <= 0 {
        0
    } else {
        prefix_sum(bins, n - 1) + bins[n - 1]
    }
}

/// Whether every bin is zero.
pub open spec fn all_zero(bins: Seq<u32>) -> bool {
    forall|i: int| 0 <= i < bins.len() ==> bins[i] == 0
}

/// Whether `i` is the lowest intensity whose bin is not zero.
pub open spec fn is_lowest_nonzero(bins: Seq<u32>, i: int) -> bool {
    &&& 0 <= i < bins.len()
    &&& bins[i] != 0
    &&& forall|j: int| 0 <= j < i ==> bins[j] == 0
}

/// Whether `i` is the highest intensity whose bin is not zero.
pub open spec fn is_highest_nonzero(bins: Seq<u32>, i: int) -> bool {
    &&& 0 <= i < bins.len()
    &&& bins[i] != 0
    &&& forall|j: int| i < j < bins.len() ==> bins[j] == 0
}

/// [Histogram](https://en.wikipedia.org/wiki/Histogram) for maximally 256 intensity values
#[derive(Debug)]
pub struct Histogram {
    data: [u32; 256],
}

impl View for Histogram {
    type V = Seq<u32>;

    /// The 256 counts, indexed by intensity.
    closed spec fn view(&self) -> Seq<u32> {
        self.data@
    }
}

impl Clone for Histogram {
    /// A copy with the same counts.
    fn clone(&self) -> (copy: Self)
        ensures
            copy@ == self@,
    {
        Self { data: self.data }
    }
}

impl Histogram {
    /// The sum of all 256 counts.
    pub open spec fn total(&self) -> int {
        prefix_sum(self@, 256)
    }

    /// A histogram has exactly 256 bins.
    pub proof fn lemma_len(&self)
        ensures
            self@.len() == 256,
    {
    }

    /// Returns the count for a given intensity value
    pub fn get_count(&self, intensity: u8) -> (count: u32)
        ensures
            count == self@[intensity as int],
    {
        self.data[intensity as usize]
    }

    /// Returns the lowest intensity count and the corresponding intensity value (index)
    ///
    /// This is the first bin that is not zero, searched from intensity 0
    /// upward. A histogram whose bins are all zero has no such bin: for it the
    /// result is the sentinel `(0, 0)`, which no other histogram gives, since a
    /// count that is returned for a bin found is never zero.
    pub fn get_low(&self) -> (low: (u32, usize))
        ensures
            all_zero(self@) ==> low == (0u32, 0usize),
            !all_zero(self@) ==> is_lowest_nonzero(self@, low.1 as int) && low.0
                == self@[low.1 as int],
    {
        let mut i: usize = 0;
        while i < 256
            invariant
                i <= 256,
                forall|j: int| 0 <= j < i ==> self.data@[j] == 0,
            decreases 256 - i,
        {
            let val = self.data[i];
            if val != 0 {
                return (val, i);
            }
            i += 1;
        }
        (0, 0)
    }

    /// Returns the highest intensity count and the corresponding intensity value (index)
    ///
    /// This is the first bin that is not zero, searched from intensity 255
    /// downward. A histogram whose bins are all zero has no such bin: for it
    /// the result is the sentinel `(0, 0)`, which no other histogram gives,
    /// since a count that is returned for a bin found is never zero.
    pub fn get_high(&self) -> (high: (u32, usize))
        ensures
            all_zero(self@) ==> high == (0u32, 0usize),
            !all_zero(self@) ==> is_highest_nonzero(self@, high.1 as int) && high.0
                == self@[high.1 as int],
    {
        let mut i: usize = 256;
        while i > 0
            invariant
                i <= 256,
                forall|j: int| i <= j < 256 ==> self.data@[j] == 0,
            decreases i,
        {
            i -= 1;
            let val = self.data[i];
            if val != 0 {
                return (val, i);
            }
        }
        (0, 0)
    }

    /// [Cumulates](https://en.wikipedia.org/wiki/Histogram#Cumulative_histogram) the histogram
    ///
    /// Afterwards every bin holds the sum of the bins up to and including its
    /// own intensity. The transform is not idempotent: a second call sums the
    /// sums. The total of the counts must fit in a `u32`.
    pub fn cumulate(&mut self)
        requires
            old(self).total() <= u32::MAX,
        ensures
            final(self)@[0] == old(self)@[0],
            forall|i: int|
                0 <= i < 256 ==> #[trigger] final(self)@[i] == prefix_sum(old(self)@, i + 1),
    {
        assert(prefix_sum(self.data@, 1) == self.data@[0]) by {
            reveal_with_fuel(prefix_sum, 2);
        }
        let mut i: usize = 1;
        while i < 256
            invariant
                1 <= i <= 256,
                prefix_sum(old(self).data@, 256) <= u32::MAX,
                self.data@[0] == old(self).data@[0],
                forall|j: int|
                    0 <= j < i ==> #[trigger] self.data@[j] == prefix_sum(old(self).data@, j + 1),
                forall|j: int| i <= j < 256 ==> self.data@[j] == old(self).data@[j],
            decreases 256 - i,
        {
            proof {
                lemma_prefix_sum_monotone(old(self).data@, i + 1, 256);
            }
            self.data[i] = self.data[i] + self.data[i - 1];
            i += 1;
        }
    }
}

impl From<[u32; 256]> for Histogram {
    /// The histogram whose bins are the given counts.
    fn from(data: [u32; 256]) -> (histogram: Self)
        ensures
            histogram@ == data@,
    {
        Self { data }
    }
}

impl vstd::std_specs::convert::FromSpecImpl<[u32; 256]> for Histogram {
    open spec fn obeys_from_spec() -> bool {
        true
    }

    closed spec fn from_spec(data: [u32; 256]) -> Self {
        Histogram { data }
    }
}

/// A sum of more bins is not smaller than a sum of fewer.
pub proof fn lemma_prefix_sum_monotone(bins: Seq<u32>, m: int, n: int)
    requires
        m <= n,
    ensures
        prefix_sum(bins, m) <= prefix_sum(bins, n),
    decreases n - m,
{
    if m < n {
        lemma_prefix_sum_monotone(bins, m, n - 1);
    }
}

/// How many of the pixels have an intensity below `bound` in the given channel.
spec fn count_below(pixels: Seq<u32>, channel: Channel, bound: int) -> nat
    decreases pixels.len(),
{
    if pixels.len() == 0 {
        0
    } else {
        let rest = count_below(pixels.drop_last(), channel, bound);
        if channel.of(pixels.last()) < bound {
            rest + 1
        } else {
            rest
        }
    }
}

/// No intensity is counted more often than there are pixels.
pub proof fn lemma_channel_count_bound(pixels: Seq<u32>, channel: Channel, value: int)
    ensures
        channel_count(pixels, channel, value) <= pixels.len(),
    decreases pixels.len(),
{
    if pixels.len() > 0 {
        lemma_channel_count_bound(pixels.drop_last(), channel, value);
    }
}

/// Adding one pixel raises the count of its own intensity by one and leaves
/// every other count as it is.
pub proof fn lemma_channel_count_push(pixels: Seq<u32>, px: u32, channel: Channel, value: int)
    ensures
        channel_count(pixels.push(px), channel, value) == channel_count(pixels, channel, value) + (
        if channel.of(px) == value {
            1nat
        } else {
            0nat
        }),
{
    assert(pixels.push(px).drop_last() =~= pixels);
}

/// Counting one more pixel: raising the bin of the pixel's own intensity by
/// one turns the histogram of some pixels into that of the pixels with the new
/// one added.
pub proof fn lemma_histogram_push(bins: Seq<u32>, pixels: Seq<u32>, px: u32, channel: Channel)
    requires
        is_histogram_of(bins, pixels, channel),
        pixels.len() < u32::MAX,
    ensures
        0 <= channel.of(px) < 256,
        bins[channel.of(px)] < u32::MAX,
        is_histogram_of(
            bins.update(channel.of(px), (bins[channel.of(px)] + 1) as u32),
            pixels.push(px),
            channel,
        ),
{
    lemma_channel_range(px);
    lemma_channel_count_bound(pixels, channel, channel.of(px));
    let counted = bins.update(channel.of(px), (bins[channel.of(px)] + 1) as u32);
    assert forall|value: int| 0 <= value < 256 implies #[trigger] counted[value] == channel_count(
        pixels.push(px),
        channel,
        value,
    ) by {
        lemma_channel_count_push(pixels, px, channel, value);
    }
}

proof fn lemma_count_below_step(pixels: Seq<u32>, channel: Channel, bound: int)
    ensures
        count_below(pixels, channel, bound + 1) == count_below(pixels, channel, bound)
            + channel_count(pixels, channel, bound),
    decreases pixels.len(),
{
    if pixels.len() > 0 {
        lemma_count_below_step(pixels.drop_last(), channel, bound);
    }
}

proof fn lemma_count_below_all(pixels: Seq<u32>, channel: Channel)
    ensures
        count_below(pixels, channel, 0) == 0,
        count_below(pixels, channel, 256) == pixels.len(),
    decreases pixels.len(),
{
    if pixels.len() > 0 {
        lemma_count_below_all(pixels.drop_last(), channel);
        lemma_channel_range(pixels.last());
    }
}

proof fn lemma_prefix_sum_counts(bins: Seq<u32>, pixels: Seq<u32>, channel: Channel, n: int)
    requires
        is_histogram_of(bins, pixels, channel),
        0 <= n <= 256,
    ensures
        prefix_sum(bins, n) == count_below(pixels, channel, n),
    decreases n,
{
    if n == 0 {
        lemma_count_below_all(pixels, channel);
    } else {
        lemma_prefix_sum_counts(bins, pixels, channel, n - 1);
        lemma_count_below_step(pixels, channel, n - 1);
    }
}

/// The bins of a histogram built over some pixels sum to the number of those
/// pixels, whatever the channel.
pub proof fn lemma_histogram_total(bins: Seq<u32>, pixels: Seq<u32>, channel: Channel)
    requires
        is_histogram_of(bins, pixels, channel),
    ensures
        prefix_sum(bins, 256) == pixels.len(),
{
    lemma_prefix_sum_counts(bins, pixels, channel, 256);
    lemma_count_below_all(pixels, channel);
}

} // verus!
