//! Channels as an application names them, their positions on the wire, and
//! channel maps.

use vstd::prelude::*;

verus! {

/// The most channels a channel map can hold.
pub const CHANNELS_MAX: usize = 32;

/// A channel of a layout, as an application names it.
#[derive(Clone, Copy, Debug, PartialEq, Eq, Structural)]
pub enum Channel {
    Invalid,
    Mono,
    Left,
    Right,
    Center,
    LeftSurround,
    RightSurround,
    RearLeftSurround,
    RearCenter,
    RearRightSurround,
    LowFrequency,
}

/// The position of a channel on the wire.
#[derive(Clone, Copy, Debug, PartialEq, Eq, Structural)]
pub enum ChannelPosition {
    Invalid,
    Mono,
    FrontLeft,
    FrontRight,
    FrontCenter,
    RearCenter,
    RearLeft,
    RearRight,
    Lfe,
    FrontLeftOfCenter,
    FrontRightOfCenter,
    SideLeft,
    SideRight,
    /// An auxiliary channel, by its number.
    Aux(u8),
    TopCenter,
    TopFrontLeft,
    TopFrontRight,
    TopFrontCenter,
    TopRearLeft,
    TopRearRight,
    TopRearCenter,
}

impl ChannelPosition {
    /// Whether the position lies on the left side.
    pub open spec fn spec_is_left(self) -> bool {
        match self {
            ChannelPosition::FrontLeft
            | ChannelPosition::RearLeft
            | ChannelPosition::FrontLeftOfCenter
            | ChannelPosition::SideLeft
            | ChannelPosition::TopFrontLeft
            | ChannelPosition::TopRearLeft => true,
            _ => false,
        }
    }

    /// Whether the position lies on the right side.
    pub open spec fn spec_is_right(self) -> bool {
        match self {
            ChannelPosition::FrontRight
            | ChannelPosition::RearRight
            | ChannelPosition::FrontRightOfCenter
            | ChannelPosition::SideRight
            | ChannelPosition::TopFrontRight
            | ChannelPosition::TopRearRight => true,
            _ => false,
        }
    }

    /// Whether the position lies on the left side.
    pub fn is_left(self) -> (b: bool)
        ensures
            b == self.spec_is_left(),
    {
        match self {
            ChannelPosition::FrontLeft
            | ChannelPosition::RearLeft
            | ChannelPosition::FrontLeftOfCenter
            | ChannelPosition::SideLeft
            | ChannelPosition::TopFrontLeft
            | ChannelPosition::TopRearLeft => true,
            _ => false,
        }
    }

    /// Whether the position lies on the right side.
    pub fn is_right(self) -> (b: bool)
        ensures
            b == self.spec_is_right(),
    {
        match self {
            ChannelPosition::FrontRight
            | ChannelPosition::RearRight
            | ChannelPosition::FrontRightOfCenter
            | ChannelPosition::SideRight
            | ChannelPosition::TopFrontRight
            | ChannelPosition::TopRearRight => true,
            _ => false,
        }
    }
}

/// The wire position of an application's channel.
pub open spec fn position_of(channel: Channel) -> ChannelPosition {
    match channel {
        Channel::Invalid => ChannelPosition::Invalid,
        Channel::Mono => ChannelPosition::Mono,
        Channel::Left => ChannelPosition::FrontLeft,
        Channel::Right => ChannelPosition::FrontRight,
        Channel::Center => ChannelPosition::FrontCenter,
        Channel::LeftSurround => ChannelPosition::SideLeft,
        Channel::RightSurround => ChannelPosition::SideRight,
        Channel::RearLeftSurround => ChannelPosition::RearLeft,
        Channel::RearCenter => ChannelPosition::RearCenter,
        Channel::RearRightSurround => ChannelPosition::RearRight,
        Channel::LowFrequency => ChannelPosition::Lfe,
    }
}

/// The wire position of a channel of a layout.
pub fn cubeb_channel_to_pa_channel(channel: Channel) -> (position: ChannelPosition)
    requires
        channel != Channel::Invalid,
    ensures
        position == position_of(channel),
        position != ChannelPosition::Invalid,
{
    match channel {
        Channel::Invalid => ChannelPosition::Invalid,
        Channel::Mono => ChannelPosition::Mono,
        Channel::Left => ChannelPosition::FrontLeft,
        Channel::Right => ChannelPosition::FrontRight,
        Channel::Center => ChannelPosition::FrontCenter,
        Channel::LeftSurround => ChannelPosition::SideLeft,
        Channel::RightSurround => ChannelPosition::SideRight,
        Channel::RearLeftSurround => ChannelPosition::RearLeft,
        Channel::RearCenter => ChannelPosition::RearCenter,
        Channel::RearRightSurround => ChannelPosition::RearRight,
        Channel::LowFrequency => ChannelPosition::Lfe,
    }
}

/// The positions of a stream's channels, in the order of the samples in a
/// frame.
#[derive(Debug)]
pub struct ChannelMap {
    pub map: Vec<ChannelPosition>,
}

impl View for ChannelMap {
    type V = Seq<ChannelPosition>;

    open spec fn view(&self) -> Seq<ChannelPosition> {
        self.map@
    }
}

/// Whether a left and a right position both occur among `positions`.
pub open spec fn balanceable(positions: Seq<ChannelPosition>) -> bool {
    (exists|i: int| 0 <= i < positions.len() && (#[trigger] positions[i]).spec_is_left()) && (
    exists|j: int| 0 <= j < positions.len() && (#[trigger] positions[j]).spec_is_right())
}

impl ChannelMap {
    /// The number of channels.
    pub fn channels(&self) -> (n: usize)
        ensures
            n == self@.len(),
    {
        self.map.len()
    }

    /// Whether a balance between left and right can be set on this map: it
    /// can where at least one position lies on each side.
    pub fn can_balance(&self) -> (b: bool)
        ensures
            b == balanceable(self@),
    {
        let mut left: bool = false;
        let mut right: bool = false;
        let mut i: usize = 0;
        while i < self.map.len()
            invariant
                i <= self.map.len(),
                left == exists|k: int| 0 <= k < i && (#[trigger] self.map@[k]).spec_is_left(),
                right == exists|k: int| 0 <= k < i && (#[trigger] self.map@[k]).spec_is_right(),
            decreases self.map.len() - i,
        {
            let position: ChannelPosition = self.map[i];
            if position.is_left() {
                left = true;
            }
            if position.is_right() {
                right = true;
            }
            proof {
                if !left {
                    assert forall|k: int| 0 <= k < i + 1 implies !(#[trigger] self.map@[k]).spec_is_left() by {}
                }
                if !right {
                    assert forall|k: int| 0 <= k < i + 1 implies !(#[trigger] self.map@[k]).spec_is_right() by {}
                }
                if position.spec_is_left() {
                    assert(self.map@[i as int].spec_is_left());
                }
                if position.spec_is_right() {
                    assert(self.map@[i as int].spec_is_right());
                }
            }
            i += 1;
        }
        left && right
    }
}

/// The channel map of a layout whose channels come in `order`.
pub fn layout_to_channel_map(order: &Vec<Channel>) -> (cm: ChannelMap)
    requires
        order@.len() <= CHANNELS_MAX,
        forall|i: int| 0 <= i < order@.len() ==> order@[i] != Channel::Invalid,
    ensures
        cm@ == order@.map_values(|c: Channel| position_of(c)),
{
    let mut map: Vec<ChannelPosition> = Vec::new();
    let mut i: usize = 0;
    while i < order.len()
        invariant
            i <= order@.len(),
            map@.len() == i,
            forall|k: int| 0 <= k < order@.len() ==> order@[k] != Channel::Invalid,
            forall|k: int| 0 <= k < i ==> map@[k] == position_of(#[trigger] order@[k]),
        decreases order@.len() - i,
    {
        map.push(cubeb_channel_to_pa_channel(order[i]));
        i += 1;
    }
    assert(map@ =~= order@.map_values(|c: Channel| position_of(c)));
    ChannelMap { map }
}

} // verus!
