//! The parameters of one streaming session.

use vstd::prelude::*;

verus! {

/// Which way samples flow.
#[derive(Clone, Copy, Debug, PartialEq, Eq, Structural)]
pub enum Direction {
    Rx,
    Tx,
}

/// How samples are framed on the pipe.
#[derive(Clone, Copy, Debug, PartialEq, Eq, Structural)]
pub enum Format {
    /// A free-running stream without per-transfer metadata.
    Continuous,
    /// Every transfer carries a timestamp and flags.
    MetadataFramed,
}

/// One RF channel of the transceiver.
#[derive(Clone, Copy, Debug, PartialEq, Eq, Structural)]
pub enum Channel {
    Rx1,
    Tx1,
    Rx2,
    Tx2,
}

/// How the channels of a session are laid out on the sample pipe.
#[derive(Clone, Copy, Debug, PartialEq, Eq, Structural)]
pub enum Layout {
    RxX1,
    RxX2,
    TxX1,
    TxX2,
}

/// Why a set of parameters is no stream configuration.
#[derive(Clone, Copy, Debug, PartialEq, Eq, Structural)]
pub enum ConfigError {
    /// The channel set is empty.
    NoChannels,
    /// A channel occurs twice in the channel set.
    DuplicateChannel,
    /// The sample rate is zero.
    ZeroSampleRate,
    /// The number of samples per transfer is zero.
    ZeroFrameCount,
}

impl Channel {
    /// The number by which the device knows the channel.
    pub open spec fn index(self) -> int {
        match self {
            Channel::Rx1 => 0,
            Channel::Tx1 => 1,
            Channel::Rx2 => 2,
            Channel::Tx2 => 3,
        }
    }

    /// The number by which the device knows the channel.
    pub fn id(self) -> (n: i32)
        ensures
            n == self.index(),
    {
        match self {
            Channel::Rx1 => 0,
            Channel::Tx1 => 1,
            Channel::Rx2 => 2,
            Channel::Tx2 => 3,
        }
    }
}

/// No channel occurs twice in `channels`.
pub open spec fn distinct(channels: Seq<Channel>) -> bool {
    forall|i: int, j: int| 0 <= i < j < channels.len() ==> channels[i] != channels[j]
}

/// The first rule that the parameters break, if any: the channel set is
/// looked at first, then the sample rate, then the frame count.
pub open spec fn violation(channels: Seq<Channel>, sample_rate: u32, frame_count: u32) -> Option<
    ConfigError,
> {
    if channels.len() == 0 {
        Some(ConfigError::NoChannels)
    } else if !distinct(channels) {
        Some(ConfigError::DuplicateChannel)
    } else if sample_rate == 0 {
        Some(ConfigError::ZeroSampleRate)
    } else if frame_count == 0 {
        Some(ConfigError::ZeroFrameCount)
    } else {
        None
    }
}

/// A stream configuration as plain values.
pub struct ConfigModel {
    pub direction: Direction,
    pub channels: Seq<Channel>,
    pub sample_rate: u32,
    pub frame_count: u32,
    pub iteration_count: u64,
    pub format: Format,
    pub burst_mode: bool,
}

impl ConfigModel {
    /// The channel set is a non-empty set, and rate and frame count are
    /// positive.
    pub open spec fn valid(self) -> bool {
        violation(self.channels, self.sample_rate, self.frame_count) is None
    }

    /// The pipe layout for the session: by direction and number of channels,
    /// for one or two channels.
    pub open spec fn layout(self) -> Option<Layout> {
        if self.channels.len() == 1 {
            Some(
                match self.direction {
                    Direction::Rx => Layout::RxX1,
                    Direction::Tx => Layout::TxX1,
                },
            )
        } else if self.channels.len() == 2 {
            Some(
                match self.direction {
                    Direction::Rx => Layout::RxX2,
                    Direction::Tx => Layout::TxX2,
                },
            )
        } else {
            None
        }
    }
}

/// The immutable parameters of one streaming session.
#[derive(Debug)]
pub struct StreamConfig {
    direction: Direction,
    channel_set: Vec<Channel>,
    sample_rate: u32,
    frame_count: u32,
    iteration_count: u64,
    format: Format,
    burst_mode: bool,
}

impl View for StreamConfig {
    type V = ConfigModel;

    closed spec fn view(&self) -> ConfigModel {
        ConfigModel {
            direction: self.direction,
            channels: self.channel_set@,
            sample_rate: self.sample_rate,
            frame_count: self.frame_count,
            iteration_count: self.iteration_count,
            format: self.format,
            burst_mode: self.burst_mode,
        }
    }
}

/// Tells whether some channel occurs twice in `channels`.
pub fn has_duplicate(channels: &Vec<Channel>) -> (found: bool)
    ensures
        found == !distinct(channels@),
{
    let n = channels.len();
    let mut j: usize = 0;
    while j < n
        invariant
            n == channels.len(),
            j <= n,
            forall|a: int, b: int| 0 <= a < b < j ==> channels@[a] != channels@[b],
        decreases n - j,
    {
        let mut i: usize = 0;
        while i < j
            invariant
                n == channels.len(),
                j < n,
                i <= j,
                forall|a: int| 0 <= a < i ==> channels@[a] != channels@[j as int],
            decreases j - i,
        {
            if channels[i] == channels[j] {
                return true;
            }
            i = i + 1;
        }
        j = j + 1;
    }
    false
}

impl StreamConfig {
    /// Every configuration is valid: `new` lets no other come into being.
    pub open spec fn wf(&self) -> bool {
        self@.valid()
    }

    /// Checks the parameters and makes a configuration of them.
    pub fn new(
        direction: Direction,
        channel_set: Vec<Channel>,
        sample_rate: u32,
        frame_count: u32,
        iteration_count: u64,
        format: Format,
        burst_mode: bool,
    ) -> (made: Result<StreamConfig, ConfigError>)
        ensures
            made matches Ok(config) ==> config.wf() && config@ == (ConfigModel {
                direction,
                channels: channel_set@,
                sample_rate,
                frame_count,
                iteration_count,
                format,
                burst_mode,
            }),
            made matches Err(e) ==> violation(channel_set@, sample_rate, frame_count) == Some(e),
            made is Ok <==> violation(channel_set@, sample_rate, frame_count) is None,
    {
        if channel_set.len() == 0 {
            return Err(ConfigError::NoChannels);
        }
        if has_duplicate(&channel_set) {
            return Err(ConfigError::DuplicateChannel);
        }
        if sample_rate == 0 {
            return Err(ConfigError::ZeroSampleRate);
        }
        if frame_count == 0 {
            return Err(ConfigError::ZeroFrameCount);
        }
        Ok(
            StreamConfig {
                direction,
                channel_set,
                sample_rate,
                frame_count,
                iteration_count,
                format,
                burst_mode,
            },
        )
    }

    /// The pipe layout to configure the device with, where the channel set
    /// has one that the device offers.
    pub fn layout(&self) -> (layout: Option<Layout>)
        ensures
            layout == self@.layout(),
    {
        let n = self.channel_set.len();
        if n == 1 {
            match self.direction {
                Direction::Rx => Some(Layout::RxX1),
                Direction::Tx => Some(Layout::TxX1),
            }
        } else if n == 2 {
            match self.direction {
                Direction::Rx => Some(Layout::RxX2),
                Direction::Tx => Some(Layout::TxX2),
            }
        } else {
            None
        }
    }

    /// Which way samples flow.
    pub fn direction(&self) -> (d: Direction)
        ensures
            d == self@.direction,
    {
        self.direction
    }

    /// The channels of the session, in order.
    pub fn channel_set(&self) -> (channels: &Vec<Channel>)
        ensures
            channels@ == self@.channels,
    {
        &self.channel_set
    }

    /// Samples per second.
    pub fn sample_rate(&self) -> (n: u32)
        ensures
            n == self@.sample_rate,
    {
        self.sample_rate
    }

    /// Samples per transfer.
    pub fn frame_count(&self) -> (n: u32)
        ensures
            n == self@.frame_count,
    {
        self.frame_count
    }

    /// Transfers per bounded session.
    pub fn iteration_count(&self) -> (n: u64)
        ensures
            n == self@.iteration_count,
    {
        self.iteration_count
    }

    /// How samples are framed on the pipe.
    pub fn format(&self) -> (f: Format)
        ensures
            f == self@.format,
    {
        self.format
    }

    /// Whether the session frames its transfers as bursts.
    pub fn burst_mode(&self) -> (b: bool)
        ensures
            b == self@.burst_mode,
    {
        self.burst_mode
    }
}

} // verus!
