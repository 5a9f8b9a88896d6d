//! Audio device summaries: for each input or output device, its widest
//! channel count and which of the standard podcast rates its supported ranges
//! cover.

use vstd::prelude::*;

verus! {

/// Standard sample rates surfaced in the UI (Hz).
pub const STANDARD_RATES: [u32; 4] = [44_100, 48_000, 88_200, 96_000];

/// The standard rates, as a sequence.
pub open spec fn standard_rates() -> Seq<u32> {
    seq![44_100u32, 48_000u32, 88_200u32, 96_000u32]
}

/// One audio device with the capabilities the UI needs.
#[derive(Debug, Clone, PartialEq)]
pub struct AudioDevice {
    /// Human-readable device name as reported by the OS.
    pub name: String,
    /// `"input"` or `"output"`.
    pub direction: String,
    /// Max channel count across the device's supported configs (0 if unknown).
    pub channels: u16,
    /// Standard sample rates (Hz) the device supports.
    pub sample_rates: Vec<u32>,
    /// Whether this is the host's default device for its direction.
    pub is_default: bool,
}

/// The result of enumerating the system's audio devices.
#[derive(Debug, Clone, PartialEq)]
pub struct AudioDeviceList {
    /// The audio host backing this enumeration.
    pub host: String,
    pub inputs: Vec<AudioDevice>,
    pub outputs: Vec<AudioDevice>,
}

/// The direction a device is enumerated for.
#[derive(Debug, Clone, Copy, PartialEq, Eq, Structural)]
pub enum Direction {
    Input,
    Output,
}

/// The wire name of a direction.
pub open spec fn direction_name(d: Direction) -> Seq<char> {
    match d {
        Direction::Input => "input"@,
        Direction::Output => "output"@,
    }
}

impl Direction {
    /// The wire name: `"input"` or `"output"`.
    pub fn as_str(self) -> (s: &'static str)
        ensures
            s@ == direction_name(self),
    {
        match self {
            Direction::Input => "input",
            Direction::Output => "output",
        }
    }
}

/// One supported stream configuration range a device reports.
#[derive(Debug, Clone, Copy, PartialEq, Eq, Structural)]
pub struct ConfigRange {
    pub channels: u16,
    pub min_sample_rate: u32,
    pub max_sample_rate: u32,
}

/// The widest channel count among `configs` (0 for none).
pub open spec fn widest_channels(configs: Seq<ConfigRange>) -> u16
    decreases configs.len(),
{
    if configs.len() == 0 {
        0
    } else {
        let rest = widest_channels(configs.drop_last());
        if configs.last().channels > rest { configs.last().channels } else { rest }
    }
}

/// The lowest minimum rate among `configs` (`u32::MAX` for none).
pub open spec fn lowest_rate(configs: Seq<ConfigRange>) -> u32
    decreases configs.len(),
{
    if configs.len() == 0 {
        u32::MAX
    } else {
        let rest = lowest_rate(configs.drop_last());
        if configs.last().min_sample_rate < rest { configs.last().min_sample_rate } else { rest }
    }
}

/// The highest maximum rate among `configs` (0 for none).
pub open spec fn highest_rate(configs: Seq<ConfigRange>) -> u32
    decreases configs.len(),
{
    if configs.len() == 0 {
        0
    } else {
        let rest = highest_rate(configs.drop_last());
        if configs.last().max_sample_rate > rest { configs.last().max_sample_rate } else { rest }
    }
}

/// The rates of `rates` within `[lo, hi]`, in order.
pub open spec fn rates_within(rates: Seq<u32>, lo: u32, hi: u32) -> Seq<u32>
    decreases rates.len(),
{
    if rates.len() == 0 {
        Seq::empty()
    } else {
        let rest = rates_within(rates.drop_last(), lo, hi);
        if lo <= rates.last() && rates.last() <= hi { rest.push(rates.last()) } else { rest }
    }
}

/// The standard rates a device with `configs` supports: those inside the span
/// from its lowest to its highest advertised rate; none when it reports no
/// usable rate.
pub open spec fn supported_standard_rates(configs: Seq<ConfigRange>) -> Seq<u32> {
    if lowest_rate(configs) == u32::MAX {
        Seq::empty()
    } else {
        rates_within(standard_rates(), lowest_rate(configs), highest_rate(configs))
    }
}

/// Summarise one device: its name (or "Unknown device" when it would not
/// report one), direction, widest channel count, supported standard rates, and
/// whether it is the host default.
pub fn summarise(
    name: Option<String>,
    dir: Direction,
    is_default: bool,
    configs: &[ConfigRange],
) -> (d: AudioDevice)
    ensures
        name matches Some(n) ==> d.name@ == n@,
        name is None ==> d.name@ == "Unknown device"@,
        d.direction@ == direction_name(dir),
        d.channels == widest_channels(configs@),
        d.sample_rates@ == supported_standard_rates(configs@),
        d.is_default == is_default,
        forall|i: int| 0 <= i < configs@.len() ==> #[trigger] configs@[i].channels <= d.channels,
        configs@.len() == 0 ==> d.channels == 0,
        configs@.len() > 0 ==> exists|i: int|
            0 <= i < configs@.len() && #[trigger] configs@[i].channels == d.channels,
        forall|r: u32| #[trigger]
            standard_rates().contains(r) ==> (d.sample_rates@.contains(r) <==> ((exists|i: int|
                0 <= i < configs@.len() && #[trigger] configs@[i].min_sample_rate <= r) && (exists|
                j: int|
                0 <= j < configs@.len() && r <= #[trigger] configs@[j].max_sample_rate))),
{
    proof {
        lemma_widest_channels_is_the_maximum(configs@);
        assert forall|r: u32| #[trigger]
            standard_rates().contains(r) implies (supported_standard_rates(configs@).contains(r)
            <==> ((exists|i: int|
            0 <= i < configs@.len() && #[trigger] configs@[i].min_sample_rate <= r) && (exists|
            j: int|
            0 <= j < configs@.len() && r <= #[trigger] configs@[j].max_sample_rate))) by {
            lemma_listed_rates_are_those_in_span(configs@, r);
        }
    }
    let name = match name {
        Some(n) => n,
        None => "Unknown device".to_string(),
    };
    let mut max_channels: u16 = 0;
    let mut rate_min: u32 = u32::MAX;
    let mut rate_max: u32 = 0;
    let n = configs.len();
    let mut i: usize = 0;
    while i < n
        invariant
            n == configs@.len(),
            i <= n,
            max_channels == widest_channels(configs@.take(i as int)),
            rate_min == lowest_rate(configs@.take(i as int)),
            rate_max == highest_rate(configs@.take(i as int)),
        decreases n - i,
    {
        let cfg = configs[i];
        if cfg.channels > max_channels {
            max_channels = cfg.channels;
        }
        if cfg.min_sample_rate < rate_min {
            rate_min = cfg.min_sample_rate;
        }
        if cfg.max_sample_rate > rate_max {
            rate_max = cfg.max_sample_rate;
        }
        proof {
            assert(configs@.take(i + 1).drop_last() =~= configs@.take(i as int));
        }
        i = i + 1;
    }
    assert(configs@.take(n as int) =~= configs@);
    let mut sample_rates: Vec<u32> = Vec::new();
    if rate_min != u32::MAX {
        let mut k: usize = 0;
        while k < 4
            invariant
                k <= 4,
                sample_rates@ == rates_within(standard_rates().take(k as int), rate_min, rate_max),
            decreases 4 - k,
        {
            let r = STANDARD_RATES[k];
            assert(r == standard_rates()[k as int]);
            if r >= rate_min && r <= rate_max {
                sample_rates.push(r);
            }
            proof {
                assert(standard_rates().take(k + 1).drop_last() =~= standard_rates().take(k as int));
            }
            k = k + 1;
        }
        assert(standard_rates().take(4) =~= standard_rates());
    }
    AudioDevice {
        name,
        direction: dir.as_str().to_string(),
        channels: max_channels,
        sample_rates,
        is_default,
    }
}

/// A device summary only ever lists standard rates, each inside the span the
/// device advertises, in ascending order.
pub proof fn lemma_supported_rates_are_standard_and_in_span(configs: Seq<ConfigRange>, i: int)
    requires
        0 <= i < supported_standard_rates(configs).len(),
    ensures
        standard_rates().contains(supported_standard_rates(configs)[i]),
        lowest_rate(configs) <= supported_standard_rates(configs)[i] <= highest_rate(configs),
        i > 0 ==> supported_standard_rates(configs)[i - 1] < supported_standard_rates(configs)[i],
{
    let lo = lowest_rate(configs);
    let hi = highest_rate(configs);
    lemma_rates_within(standard_rates(), lo, hi, i);
}

proof fn lemma_rates_within(rates: Seq<u32>, lo: u32, hi: u32, i: int)
    requires
        0 <= i < rates_within(rates, lo, hi).len(),
        forall|a: int, b: int| 0 <= a < b < rates.len() ==> rates[a] < rates[b],
    ensures
        rates.contains(rates_within(rates, lo, hi)[i]),
        lo <= rates_within(rates, lo, hi)[i] <= hi,
        i > 0 ==> rates_within(rates, lo, hi)[i - 1] < rates_within(rates, lo, hi)[i],
        forall|j: int| 0 <= j < rates_within(rates, lo, hi).len() ==> rates.contains(#[trigger] rates_within(rates, lo, hi)[j]),
    decreases rates.len(),
{
    let rest = rates_within(rates.drop_last(), lo, hi);
    let init = rates.drop_last();
    assert forall|a: int, b: int| 0 <= a < b < init.len() implies init[a] < init[b] by {
        assert(init[a] == rates[a] && init[b] == rates[b]);
    }
    if rest.len() > 0 {
        lemma_rates_within(init, lo, hi, if i < rest.len() { i } else { rest.len() - 1 });
    }
    assert forall|j: int| 0 <= j < rest.len() implies rates.contains(#[trigger] rest[j]) by {
        lemma_rates_within(init, lo, hi, j);
        let w = choose|w: int| 0 <= w < init.len() && init[w] == rest[j];
        assert(rates[w] == rest[j]);
    }
    if i < rest.len() {
        if i > 0 {
            lemma_rates_within(init, lo, hi, i);
        }
    } else {
        assert(rates.contains(rates.last()) ) by {
            assert(rates[rates.len() - 1] == rates.last());
        }
        if i > 0 {
            lemma_rates_within(init, lo, hi, i - 1);
            let w = choose|w: int| 0 <= w < init.len() && init[w] == rest[i - 1];
            assert(rates[w] < rates[rates.len() - 1]);
        }
    }
}

/// The widest channel count is the maximum over the configs: none has more,
/// one has exactly that many, and it is 0 when there are no configs.
pub proof fn lemma_widest_channels_is_the_maximum(configs: Seq<ConfigRange>)
    ensures
        forall|i: int| 0 <= i < configs.len() ==> #[trigger] configs[i].channels <= widest_channels(
            configs,
        ),
        configs.len() == 0 ==> widest_channels(configs) == 0,
        configs.len() > 0 ==> exists|i: int|
            0 <= i < configs.len() && #[trigger] configs[i].channels == widest_channels(configs),
    decreases configs.len(),
{
    if configs.len() > 0 {
        let init = configs.drop_last();
        lemma_widest_channels_is_the_maximum(init);
        assert forall|i: int| 0 <= i < configs.len() implies #[trigger] configs[i].channels
            <= widest_channels(configs) by {
            if i < init.len() {
                assert(configs[i] == init[i]);
            }
        }
        let last = configs.len() - 1;
        if configs.last().channels > widest_channels(init) {
            assert(configs[last].channels == widest_channels(configs));
        } else if init.len() == 0 {
            assert(widest_channels(configs) == 0);
            assert(configs[last].channels == 0);
        } else {
            let w = choose|i: int| 0 <= i < init.len() && #[trigger] init[i].channels == widest_channels(init);
            assert(configs[w] == init[w]);
            assert(configs[w].channels == widest_channels(configs));
        }
    }
}

/// The lowest advertised rate is at most every config's minimum, and is some
/// config's minimum unless it is `u32::MAX`.
proof fn lemma_lowest_rate_is_the_minimum(configs: Seq<ConfigRange>)
    ensures
        forall|i: int| 0 <= i < configs.len() ==> lowest_rate(configs) <= #[trigger] configs[i].min_sample_rate,
        lowest_rate(configs) != u32::MAX ==> exists|i: int|
            0 <= i < configs.len() && #[trigger] configs[i].min_sample_rate == lowest_rate(configs),
    decreases configs.len(),
{
    if configs.len() > 0 {
        let init = configs.drop_last();
        lemma_lowest_rate_is_the_minimum(init);
        assert forall|i: int| 0 <= i < configs.len() implies lowest_rate(configs) <= #[trigger] configs[i].min_sample_rate by {
            if i < init.len() {
                assert(configs[i] == init[i]);
            }
        }
        let last = configs.len() - 1;
        if configs.last().min_sample_rate < lowest_rate(init) {
            assert(configs[last].min_sample_rate == lowest_rate(configs));
        } else if lowest_rate(configs) != u32::MAX {
            let w = choose|i: int| 0 <= i < init.len() && #[trigger] init[i].min_sample_rate == lowest_rate(init);
            assert(configs[w] == init[w]);
        }
    }
}

/// The highest advertised rate is at least every config's maximum, and is
/// some config's maximum unless it is 0.
proof fn lemma_highest_rate_is_the_maximum(configs: Seq<ConfigRange>)
    ensures
        forall|i: int| 0 <= i < configs.len() ==> #[trigger] configs[i].max_sample_rate <= highest_rate(configs),
        highest_rate(configs) != 0 ==> exists|i: int|
            0 <= i < configs.len() && #[trigger] configs[i].max_sample_rate == highest_rate(configs),
    decreases configs.len(),
{
    if configs.len() > 0 {
        let init = configs.drop_last();
        lemma_highest_rate_is_the_maximum(init);
        assert forall|i: int| 0 <= i < configs.len() implies #[trigger] configs[i].max_sample_rate <= highest_rate(configs) by {
            if i < init.len() {
                assert(configs[i] == init[i]);
            }
        }
        let last = configs.len() - 1;
        if configs.last().max_sample_rate > highest_rate(init) {
            assert(configs[last].max_sample_rate == highest_rate(configs));
        } else if highest_rate(configs) != 0 {
            let w = choose|i: int| 0 <= i < init.len() && #[trigger] init[i].max_sample_rate == highest_rate(init);
            assert(configs[w] == init[w]);
        }
    }
}

/// A rate survives the span filter exactly when it is in the list and inside
/// the span.
proof fn lemma_rates_within_members(rates: Seq<u32>, lo: u32, hi: u32, r: u32)
    ensures
        rates_within(rates, lo, hi).contains(r) <==> (rates.contains(r) && lo <= r <= hi),
    decreases rates.len(),
{
    if rates.len() > 0 {
        let init = rates.drop_last();
        lemma_rates_within_members(init, lo, hi, r);
        let rest = rates_within(init, lo, hi);
        assert(rates =~= init.push(rates.last()));
        if rates.contains(r) {
            let w = choose|w: int| 0 <= w < rates.len() && rates[w] == r;
            if w < init.len() {
                assert(init[w] == r);
            }
        }
        if init.contains(r) {
            let w = choose|w: int| 0 <= w < init.len() && init[w] == r;
            assert(rates[w] == r);
        }
        if lo <= rates.last() && rates.last() <= hi {
            let t = rest.push(rates.last());
            assert(t[t.len() - 1] == rates.last());
            if rest.contains(r) {
                let w = choose|w: int| 0 <= w < rest.len() && rest[w] == r;
                assert(t[w] == r);
            }
            if t.contains(r) {
                let w = choose|w: int| 0 <= w < t.len() && t[w] == r;
                if w < rest.len() {
                    assert(rest[w] == r);
                }
            }
        }
    }
}

/// A device lists a standard rate exactly when some advertised config goes
/// down to it and some advertised config goes up to it: the listed rates are
/// the standard ones inside the device's overall span.
pub proof fn lemma_listed_rates_are_those_in_span(configs: Seq<ConfigRange>, r: u32)
    requires
        standard_rates().contains(r),
    ensures
        supported_standard_rates(configs).contains(r) <==> ((exists|i: int|
            0 <= i < configs.len() && #[trigger] configs[i].min_sample_rate <= r) && (exists|j: int|
            0 <= j < configs.len() && r <= #[trigger] configs[j].max_sample_rate)),
{
    lemma_lowest_rate_is_the_minimum(configs);
    lemma_highest_rate_is_the_maximum(configs);
    let lo = lowest_rate(configs);
    let hi = highest_rate(configs);
    let w = choose|w: int| 0 <= w < standard_rates().len() && standard_rates()[w] == r;
    assert(r < u32::MAX);
    if lo != u32::MAX {
        lemma_rates_within_members(standard_rates(), lo, hi, r);
        let a = choose|i: int| 0 <= i < configs.len() && #[trigger] configs[i].min_sample_rate == lo;
    } else {
        assert(supported_standard_rates(configs) =~= Seq::<u32>::empty());
    }
}

} // verus!
