//! The one-time setup of a session, as the list of device calls to make. The
//! caller makes them in order and stops at the first that fails.

use crate::config::{Channel, ConfigModel, Direction, Format, Layout, StreamConfig};
use vstd::prelude::*;

verus! {

/// The RF front-end parameters, the same for every channel of a session.
#[derive(Clone, Copy, Debug, PartialEq, Eq, Structural)]
pub struct RfParams {
    /// Centre frequency in Hz.
    pub frequency: u64,
    /// Gain in dB.
    pub gain: i32,
}

/// The buffering of the sample pipe.
#[derive(Clone, Copy, Debug, PartialEq, Eq, Structural)]
pub struct Buffering {
    pub buffer_count: u32,
    pub buffer_size: u32,
    pub transfer_count: u32,
    pub stream_timeout_ms: u32,
}

/// One device call of the setup or the teardown of a session.
#[derive(Clone, Copy, Debug, PartialEq, Eq, Structural)]
pub enum SetupCall {
    SetFrequency { channel: Channel, frequency: u64 },
    SetSampleRate { channel: Channel, rate: u32 },
    /// Switch the channel's gain control to manual.
    SetManualGain { channel: Channel },
    SetGain { channel: Channel, gain: i32 },
    ConfigureSync { layout: Layout, format: Format, buffering: Buffering },
    EnableModule { channel: Channel, enable: bool },
}

/// The calls that tune one channel: frequency, sample rate, manual gain
/// control for a receiving session, gain.
pub open spec fn channel_calls(
    channel: Channel,
    direction: Direction,
    sample_rate: u32,
    rf: RfParams,
) -> Seq<SetupCall> {
    let head = seq![
        SetupCall::SetFrequency { channel, frequency: rf.frequency },
        SetupCall::SetSampleRate { channel, rate: sample_rate },
    ];
    let gain = seq![SetupCall::SetGain { channel, gain: rf.gain }];
    match direction {
        Direction::Rx => head + seq![SetupCall::SetManualGain { channel }] + gain,
        Direction::Tx => head + gain,
    }
}

/// The calls that tune every channel of `channels`, channel by channel.
pub open spec fn tuning(
    channels: Seq<Channel>,
    direction: Direction,
    sample_rate: u32,
    rf: RfParams,
) -> Seq<SetupCall>
    decreases channels.len(),
{
    if channels.len() == 0 {
        Seq::empty()
    } else {
        tuning(channels.drop_last(), direction, sample_rate, rf) + channel_calls(
            channels.last(),
            direction,
            sample_rate,
            rf,
        )
    }
}

/// One call per channel that switches its module on or off.
pub open spec fn switching(channels: Seq<Channel>, enable: bool) -> Seq<SetupCall> {
    Seq::new(channels.len(), |i: int| SetupCall::EnableModule { channel: channels[i], enable })
}

/// The setup of a session: every channel is tuned, the pipe is configured
/// once, every module is enabled. There is none for a channel set that the
/// device has no layout for.
pub open spec fn setup_calls(config: ConfigModel, rf: RfParams, buffering: Buffering) -> Option<
    Seq<SetupCall>,
> {
    match config.layout() {
        None => None,
        Some(layout) => Some(
            tuning(config.channels, config.direction, config.sample_rate, rf)
                + seq![SetupCall::ConfigureSync { layout, format: config.format, buffering }]
                + switching(config.channels, true),
        ),
    }
}

/// Lists the device calls that set a session up.
pub fn setup_plan(config: &StreamConfig, rf: RfParams, buffering: Buffering) -> (plan: Option<
    Vec<SetupCall>,
>)
    ensures
        plan is Some <==> setup_calls(config@, rf, buffering) is Some,
        plan matches Some(calls) ==> calls@ == setup_calls(config@, rf, buffering)->0,
{
    let layout = match config.layout() {
        Some(layout) => layout,
        None => {
            return None;
        },
    };
    let channels = config.channel_set();
    let direction = config.direction();
    let sample_rate = config.sample_rate();
    let mut calls: Vec<SetupCall> = Vec::new();
    let mut n: usize = 0;
    while n < channels.len()
        invariant
            n <= channels.len(),
            calls@ == tuning(channels@.take(n as int), direction, sample_rate, rf),
        decreases channels.len() - n,
    {
        let channel = channels[n];
        proof {
            let upto = channels@.take(n + 1);
            assert(upto.drop_last() == channels@.take(n as int));
        }
        calls.push(SetupCall::SetFrequency { channel, frequency: rf.frequency });
        calls.push(SetupCall::SetSampleRate { channel, rate: sample_rate });
        match direction {
            Direction::Rx => {
                calls.push(SetupCall::SetManualGain { channel });
            },
            Direction::Tx => {},
        }
        calls.push(SetupCall::SetGain { channel, gain: rf.gain });
        n = n + 1;
    }
    assert(channels@.take(n as int) == channels@);
    calls.push(SetupCall::ConfigureSync { layout, format: config.format(), buffering });
    let ghost tuned = calls@;
    let mut m: usize = 0;
    while m < channels.len()
        invariant
            m <= channels.len(),
            calls@.len() == tuned.len() + m,
            forall|k: int| 0 <= k < tuned.len() ==> calls@[k] == tuned[k],
            forall|k: int|
                0 <= k < m ==> calls@[tuned.len() + k] == (SetupCall::EnableModule {
                    channel: channels@[k],
                    enable: true,
                }),
        decreases channels.len() - m,
    {
        calls.push(SetupCall::EnableModule { channel: channels[m], enable: true });
        m = m + 1;
    }
    assert(calls@ == tuned + switching(channels@, true));
    Some(calls)
}

/// Lists the device calls that end a session, however it ended: every
/// module is disabled.
pub fn teardown_plan(config: &StreamConfig) -> (calls: Vec<SetupCall>)
    ensures
        calls@ == switching(config@.channels, false),
{
    let channels = config.channel_set();
    let mut calls: Vec<SetupCall> = Vec::new();
    let mut m: usize = 0;
    while m < channels.len()
        invariant
            m <= channels.len(),
            calls@.len() == m,
            forall|k: int|
                0 <= k < m ==> calls@[k] == (SetupCall::EnableModule {
                    channel: channels@[k],
                    enable: false,
                }),
        decreases channels.len() - m,
    {
        calls.push(SetupCall::EnableModule { channel: channels[m], enable: false });
        m = m + 1;
    }
    calls
}

} // verus!
