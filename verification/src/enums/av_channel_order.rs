use vstd::prelude::*;

verus! {

/// Channel orders of a channel layout (FFmpeg's `AVChannelOrder`).
#[derive(Clone, Copy, Debug, Eq)]
pub enum AVChannelOrder {
    /// Only the channel count is known (`AV_CHANNEL_ORDER_UNSPEC`).
    Unspecified,
    /// Channels in native order, described by a bit mask.
    Native,
    /// Channels in a custom order.
    Custom,
    /// Ambisonic audio.
    Ambisonic,
    /// Any other raw channel order value.
    Other(u32),
}

impl AVChannelOrder {
    /// The raw FFmpeg value of the variant.
    pub open spec fn spec_raw(self) -> u32 {
        match self {
            AVChannelOrder::Unspecified => 0u32,
            AVChannelOrder::Native => 1u32,
            AVChannelOrder::Custom => 2u32,
            AVChannelOrder::Ambisonic => 3u32,
            AVChannelOrder::Other(v) => v,
        }
    }

    /// The variant for a raw FFmpeg value; values without a named variant become `Other`.
    pub open spec fn spec_from_raw(v: u32) -> AVChannelOrder {
        if v == 0u32 {
            AVChannelOrder::Unspecified
        } else if v == 1u32 {
            AVChannelOrder::Native
        } else if v == 2u32 {
            AVChannelOrder::Custom
        } else if v == 3u32 {
            AVChannelOrder::Ambisonic
        } else {
            AVChannelOrder::Other(v)
        }
    }

    /// Whether the value is in its one canonical form: `Other` only holds values
    /// without a named variant.
    pub open spec fn is_canonical(self) -> bool {
        self matches AVChannelOrder::Other(v) ==> AVChannelOrder::spec_from_raw(v) is Other
    }

    /// Returns the raw FFmpeg value.
    pub fn raw(self) -> (r: u32)
        ensures
            r == self.spec_raw(),
    {
        match self {
            AVChannelOrder::Unspecified => 0,
            AVChannelOrder::Native => 1,
            AVChannelOrder::Custom => 2,
            AVChannelOrder::Ambisonic => 3,
            AVChannelOrder::Other(v) => v,
        }
    }

    /// Returns the value for a raw FFmpeg value.
    pub fn from_raw(v: u32) -> (r: AVChannelOrder)
        ensures
            r == AVChannelOrder::spec_from_raw(v),
            r.spec_raw() == v,
            r.is_canonical(),
    {
        if v == 0 {
            AVChannelOrder::Unspecified
        } else if v == 1 {
            AVChannelOrder::Native
        } else if v == 2 {
            AVChannelOrder::Custom
        } else if v == 3 {
            AVChannelOrder::Ambisonic
        } else {
            AVChannelOrder::Other(v)
        }
    }
}

/// A raw value survives the trip into a `AVChannelOrder` and back.
pub proof fn lemma_av_channel_order_raw_round_trip(v: u32)
    ensures
        AVChannelOrder::spec_from_raw(v).spec_raw() == v,
        AVChannelOrder::spec_from_raw(v).is_canonical(),
{
}

/// A canonical `AVChannelOrder` survives the trip to its raw value and back.
pub proof fn lemma_av_channel_order_value_round_trip(x: AVChannelOrder)
    requires
        x.is_canonical(),
    ensures
        AVChannelOrder::spec_from_raw(x.spec_raw()) == x,
{
}

impl PartialEq for AVChannelOrder {
    /// Two values are equal when they stand for the same raw FFmpeg value, whichever
    /// variant holds it.
    fn eq(&self, other: &Self) -> (r: bool) {
        self.raw() == other.raw()
    }
}

impl vstd::std_specs::cmp::PartialEqSpecImpl for AVChannelOrder {
    open spec fn obeys_eq_spec() -> bool {
        true
    }

    open spec fn eq_spec(&self, other: &Self) -> bool {
        self.spec_raw() == other.spec_raw()
    }
}

} // verus!
