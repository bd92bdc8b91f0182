//! The device catalog: which input device an identifier means, and which
//! stream configuration a device is opened with.
//!
//! The caller asks the audio host what devices and configurations there are;
//! the choice among them is made here.

use vstd::prelude::*;
use crate::text::same_text;

verus! {

/// Whether `identifier` is the word that stands for the host's default
/// input device.
pub open spec fn is_default_identifier(identifier: Seq<char>) -> bool {
    identifier == "default"@
}

/// Whether the device at place `i` has a name, and that name is `identifier`.
pub open spec fn named_at(names: Seq<Option<String>>, i: int, identifier: Seq<char>) -> bool {
    0 <= i < names.len() && names[i] is Some && names[i]->0@ == identifier
}

/// The sample rate of the speech classifier, tried first.
pub const NATIVE_SAMPLE_RATE: u32 = 16000;

/// The rate tried where the native rate is not supported.
pub const SECOND_SAMPLE_RATE: u32 = 48000;

/// The rate tried where neither of the first two is supported.
pub const THIRD_SAMPLE_RATE: u32 = 44100;

/// Why no device or configuration could be chosen.
#[derive(Debug, Clone, Copy, PartialEq, Eq, Structural)]
pub enum DeviceFault {
    /// The identifier is `"default"` and the host has no default input device.
    NoDefaultDevice,
    /// No input device has the identifier as its name.
    DeviceNotFound,
    /// The device offers no configuration that supports any sample rate.
    UnsupportedConfig,
}

/// The device that an identifier stands for.
#[derive(Debug, Clone, Copy, PartialEq, Eq, Structural)]
pub enum DeviceChoice {
    /// The host's default input device.
    HostDefault,
    /// The device at this place in the host's list of input devices.
    Listed(usize),
}

/// A range of sample rates that a device supports, both ends included.
#[derive(Debug, Clone, Copy, PartialEq, Eq, Structural)]
pub struct ConfigRange {
    pub min_sample_rate: u32,
    pub max_sample_rate: u32,
}

/// The configuration a stream is opened with.
#[derive(Debug, Clone, Copy, PartialEq, Eq, Structural)]
pub struct StreamSettings {
    pub channels: u16,
    pub sample_rate: u32,
}

impl ConfigRange {
    /// Whether the range holds any rate at all.
    pub open spec fn usable(self) -> bool {
        self.min_sample_rate <= self.max_sample_rate
    }

    /// Whether `rate` lies in the range.
    pub open spec fn supports(self, rate: nat) -> bool {
        self.min_sample_rate <= rate <= self.max_sample_rate
    }
}

/// Whether the configuration at place `i` supports `rate`.
pub open spec fn supports_at(configs: Seq<ConfigRange>, i: int, rate: nat) -> bool {
    0 <= i < configs.len() && configs[i].supports(rate)
}

/// Whether any of the configurations supports `rate`.
pub open spec fn any_supports(configs: Seq<ConfigRange>, rate: nat) -> bool {
    exists|i: int| supports_at(configs, i, rate)
}

/// Whether the configuration at place `i` holds any rate.
pub open spec fn usable_at(configs: Seq<ConfigRange>, i: int) -> bool {
    0 <= i < configs.len() && configs[i].usable()
}

/// Whether any of the configurations holds any rate.
pub open spec fn any_usable(configs: Seq<ConfigRange>) -> bool {
    exists|i: int| usable_at(configs, i)
}

/// The highest rate that any of the configurations supports; zero where
/// none supports any.
pub open spec fn highest_rate(configs: Seq<ConfigRange>) -> nat
    decreases configs.len(),
{
    if configs.len() == 0 {
        0
    } else {
        let before = highest_rate(configs.drop_last());
        let last = configs.last();
        if last.usable() && last.max_sample_rate > before {
            last.max_sample_rate as nat
        } else {
            before
        }
    }
}

/// The sample rate a device is opened with: 16 kHz where a configuration
/// supports it, else 48 kHz, else 44.1 kHz, else the highest rate that the
/// device supports.
pub open spec fn preferred_rate(configs: Seq<ConfigRange>) -> nat {
    if any_supports(configs, NATIVE_SAMPLE_RATE as nat) {
        NATIVE_SAMPLE_RATE as nat
    } else if any_supports(configs, SECOND_SAMPLE_RATE as nat) {
        SECOND_SAMPLE_RATE as nat
    } else if any_supports(configs, THIRD_SAMPLE_RATE as nat) {
        THIRD_SAMPLE_RATE as nat
    } else {
        highest_rate(configs)
    }
}

/// The highest rate is supported by a configuration, and no configuration
/// supports a higher one.
pub proof fn lemma_highest_rate(configs: Seq<ConfigRange>)
    ensures
        any_usable(configs) ==> any_supports(configs, highest_rate(configs)),
        forall|i: int, rate: nat| #[trigger]
            supports_at(configs, i, rate) ==> rate <= highest_rate(configs),
    decreases configs.len(),
{
    if configs.len() > 0 {
        let front = configs.drop_last();
        let last_at = configs.len() - 1;
        lemma_highest_rate(front);
        assert forall|i: int, rate: nat| #[trigger]
            supports_at(configs, i, rate) implies rate <= highest_rate(configs) by {
            if i < last_at {
                assert(supports_at(front, i, rate));
            }
        }
        if any_usable(configs) {
            let w = choose|i: int| usable_at(configs, i);
            if highest_rate(configs) == highest_rate(front) {
                if w < last_at {
                    assert(usable_at(front, w));
                    let k = choose|k: int| supports_at(front, k, highest_rate(front));
                    assert(supports_at(configs, k, highest_rate(configs)));
                } else {
                    assert(configs[w].max_sample_rate <= highest_rate(front));
                    if !any_usable(front) {
                        assert(highest_rate(front) == 0) by {
                            lemma_highest_rate_of_none(front);
                        }
                        assert(supports_at(configs, w, highest_rate(configs)));
                    } else {
                        let k = choose|k: int| supports_at(front, k, highest_rate(front));
                        assert(supports_at(configs, k, highest_rate(configs)));
                    }
                }
            } else {
                assert(supports_at(configs, last_at, highest_rate(configs)));
            }
        }
    } else {
        if any_usable(configs) {
            let w = choose|i: int| usable_at(configs, i);
            assert(false);
        }
    }
}

proof fn lemma_highest_rate_of_none(configs: Seq<ConfigRange>)
    requires
        !any_usable(configs),
    ensures
        highest_rate(configs) == 0,
    decreases configs.len(),
{
    if configs.len() > 0 {
        let front = configs.drop_last();
        assert(!usable_at(configs, configs.len() - 1));
        assert forall|i: int| !usable_at(front, i) by {
            assert(!usable_at(configs, i));
        }
        lemma_highest_rate_of_none(front);
    }
}

/// Whether `identifier` asks for the host's default input device, so that
/// the host's list of devices need not be read.
pub fn asks_for_default(identifier: &str) -> (default: bool)
    ensures
        default == is_default_identifier(identifier@),
{
    same_text(identifier, "default")
}

/// Finds the input device that `identifier` stands for. `default_present`
/// says whether the host has a default input device; `names` holds the name
/// of each input device in the host's order, `None` where the host could not
/// tell it.
///
/// The word `"default"` stands for the host's default device. Any other
/// identifier stands for the first device with exactly that name.
pub fn resolve_device(identifier: &str, default_present: bool, names: &Vec<Option<String>>) -> (choice:
    Result<DeviceChoice, DeviceFault>)
    ensures
        match choice {
            Ok(DeviceChoice::HostDefault) => is_default_identifier(identifier@)
                && default_present,
            Ok(DeviceChoice::Listed(place)) => !is_default_identifier(identifier@) && named_at(
                names@,
                place as int,
                identifier@,
            ) && forall|j: int| 0 <= j < place ==> !named_at(names@, j, identifier@),
            Err(DeviceFault::NoDefaultDevice) => is_default_identifier(identifier@)
                && !default_present,
            Err(DeviceFault::DeviceNotFound) => !is_default_identifier(identifier@) && forall|
                j: int,
            | !named_at(names@, j, identifier@),
            Err(DeviceFault::UnsupportedConfig) => false,
        },
{
    if asks_for_default(identifier) {
        if default_present {
            Ok(DeviceChoice::HostDefault)
        } else {
            Err(DeviceFault::NoDefaultDevice)
        }
    } else {
        let mut i: usize = 0;
        while i < names.len()
            invariant
                i <= names.len(),
                !is_default_identifier(identifier@),
                forall|j: int| 0 <= j < i ==> !named_at(names@, j, identifier@),
            decreases names.len() - i,
        {
            let found = match &names[i] {
                Some(name) => same_text(name.as_str(), identifier),
                None => false,
            };
            if found {
                return Ok(DeviceChoice::Listed(i));
            }
            i += 1;
        }
        Err(DeviceFault::DeviceNotFound)
    }
}

/// Chooses the configuration of a stream from the ranges of sample rates
/// that the device reports. The stream is mono; its rate is 16 kHz where a
/// range holds it, else 48 kHz, else 44.1 kHz, else the highest rate of any
/// range. Fails exactly where no range holds any rate.
pub fn negotiate_config(configs: &Vec<ConfigRange>) -> (settings: Result<
    StreamSettings,
    DeviceFault,
>)
    ensures
        match settings {
            Ok(s) => any_usable(configs@) && s.channels == 1 && s.sample_rate == preferred_rate(
                configs@,
            ),
            Err(fault) => fault == DeviceFault::UnsupportedConfig && !any_usable(configs@),
        },
{
    let mut native = false;
    let mut second = false;
    let mut third = false;
    let mut usable = false;
    let mut highest: u32 = 0;
    let mut i: usize = 0;
    while i < configs.len()
        invariant
            i <= configs.len(),
            native <==> any_supports(configs@.take(i as int), NATIVE_SAMPLE_RATE as nat),
            second <==> any_supports(configs@.take(i as int), SECOND_SAMPLE_RATE as nat),
            third <==> any_supports(configs@.take(i as int), THIRD_SAMPLE_RATE as nat),
            usable <==> any_usable(configs@.take(i as int)),
            highest == highest_rate(configs@.take(i as int)),
        decreases configs.len() - i,
    {
        let range = configs[i];
        proof {
            let seen = configs@.take(i as int);
            let next = configs@.take(i + 1);
            assert(next.drop_last() =~= seen);
            assert(next.last() == range);
            lemma_any_supports_push(seen, range, NATIVE_SAMPLE_RATE as nat);
            lemma_any_supports_push(seen, range, SECOND_SAMPLE_RATE as nat);
            lemma_any_supports_push(seen, range, THIRD_SAMPLE_RATE as nat);
            lemma_any_usable_push(seen, range);
            assert(next =~= seen.push(range));
        }
        if range.min_sample_rate <= range.max_sample_rate {
            usable = true;
            if range.min_sample_rate <= NATIVE_SAMPLE_RATE && NATIVE_SAMPLE_RATE
                <= range.max_sample_rate {
                native = true;
            }
            if range.min_sample_rate <= SECOND_SAMPLE_RATE && SECOND_SAMPLE_RATE
                <= range.max_sample_rate {
                second = true;
            }
            if range.min_sample_rate <= THIRD_SAMPLE_RATE && THIRD_SAMPLE_RATE
                <= range.max_sample_rate {
                third = true;
            }
            if range.max_sample_rate > highest {
                highest = range.max_sample_rate;
            }
        }
        i += 1;
    }
    assert(configs@.take(i as int) =~= configs@);
    if !usable {
        Err(DeviceFault::UnsupportedConfig)
    } else {
        let sample_rate = if native {
            NATIVE_SAMPLE_RATE
        } else if second {
            SECOND_SAMPLE_RATE
        } else if third {
            THIRD_SAMPLE_RATE
        } else {
            highest
        };
        Ok(StreamSettings { channels: 1, sample_rate })
    }
}

proof fn lemma_any_supports_push(configs: Seq<ConfigRange>, range: ConfigRange, rate: nat)
    ensures
        any_supports(configs.push(range), rate) <==> any_supports(configs, rate) || range.supports(
            rate,
        ),
{
    let longer = configs.push(range);
    if any_supports(configs, rate) {
        let i = choose|i: int| supports_at(configs, i, rate);
        assert(supports_at(longer, i, rate));
    }
    if range.supports(rate) {
        assert(supports_at(longer, configs.len() as int, rate));
    }
    if any_supports(longer, rate) {
        let i = choose|i: int| supports_at(longer, i, rate);
        if i < configs.len() {
            assert(supports_at(configs, i, rate));
        }
    }
}

proof fn lemma_any_usable_push(configs: Seq<ConfigRange>, range: ConfigRange)
    ensures
        any_usable(configs.push(range)) <==> any_usable(configs) || range.usable(),
{
    let longer = configs.push(range);
    if any_usable(configs) {
        let i = choose|i: int| usable_at(configs, i);
        assert(usable_at(longer, i));
    }
    if range.usable() {
        assert(usable_at(longer, configs.len() as int));
    }
    if any_usable(longer) {
        let i = choose|i: int| usable_at(longer, i);
        if i < configs.len() {
            assert(usable_at(configs, i));
        }
    }
}

} // verus!
