use vstd::prelude::*;

verus! {

/// Capabilities of a container format (`AVOutputFormat::flags`), a set of bits.
#[derive(Clone, Copy, Debug, PartialEq, Eq, Structural)]
pub struct AVFormatFlags(pub i32);

#[allow(non_upper_case_globals)]
impl AVFormatFlags {
    /// The format does not need a file to be opened (`AVFMT_NOFILE`).
    pub const NoFile: i32 = 1;

    /// The format needs a numbered sequence of file names (`AVFMT_NEEDNUMBER`).
    pub const NeedNumber: i32 = 2;

    /// The format is experimental (`AVFMT_EXPERIMENTAL`).
    pub const Experimental: i32 = 4;

    /// Stream identifiers are shown (`AVFMT_SHOW_IDS`).
    pub const ShowIds: i32 = 8;

    /// The format wants global headers (`AVFMT_GLOBALHEADER`).
    pub const GlobalHeader: i32 = 64;

    /// The format does not store timestamps (`AVFMT_NOTIMESTAMPS`).
    pub const NoTimestamps: i32 = 128;

    /// The format uses the generic index (`AVFMT_GENERIC_INDEX`).
    pub const GenericIndex: i32 = 256;

    /// The format allows timestamp discontinuities (`AVFMT_TS_DISCONT`).
    pub const TsDiscontinuous: i32 = 512;

    /// The format allows a variable frame rate (`AVFMT_VARIABLE_FPS`).
    pub const VariableFps: i32 = 1024;

    /// The format does not need width and height (`AVFMT_NODIMENSIONS`).
    pub const NoDimensions: i32 = 2048;

    /// The format has no streams (`AVFMT_NOSTREAMS`).
    pub const NoStreams: i32 = 4096;

    /// The format cannot seek by binary search (`AVFMT_NOBINSEARCH`).
    pub const NoBinarySearch: i32 = 8192;

    /// The format cannot seek by generic search (`AVFMT_NOGENSEARCH`).
    pub const NoGenericSearch: i32 = 16384;

    /// The format cannot seek by byte position (`AVFMT_NO_BYTE_SEEK`).
    pub const NoByteSeek: i32 = 32768;

    /// The format allows flushing by passing no packet.
    pub const AllowFlush: i32 = 65536;

    /// Timestamps need not be strictly increasing (`AVFMT_TS_NONSTRICT`).
    pub const TsNonStrict: i32 = 131072;

    /// The format allows negative timestamps (`AVFMT_TS_NEGATIVE`).
    pub const TsNegative: i32 = 262144;

    /// Seeking goes by presentation timestamp (`AVFMT_SEEK_TO_PTS`).
    pub const SeekToPts: i32 = 67108864;

    /// The flags set in both operands.
    pub fn bitand(self, rhs: AVFormatFlags) -> (r: AVFormatFlags)
        ensures
            r.0 == self.0 & rhs.0,
    {
        AVFormatFlags(self.0 & rhs.0)
    }

    /// The flags set in either operand.
    pub fn bitor(self, rhs: AVFormatFlags) -> (r: AVFormatFlags)
        ensures
            r.0 == self.0 | rhs.0,
    {
        AVFormatFlags(self.0 | rhs.0)
    }

    /// Returns `true` when any of the bits of `flag` is set.
    pub fn contains(self, flag: i32) -> (r: bool)
        ensures
            r == (self.0 & flag != 0),
    {
        self.0 & flag != 0
    }

    /// Returns the raw value as a `u32`.
    pub fn to_u32(self) -> (r: u32)
        ensures
            r == self.0 as u32,
    {
        self.0 as u32
    }

    /// The flags with the raw value `value` (reinterpreted as an `i32`).
    pub fn from_u32(value: u32) -> (r: AVFormatFlags)
        ensures
            r.0 == value as i32,
    {
        AVFormatFlags(value as i32)
    }
}

/// Flags of a format context (`AVFormatContext::flags`), a set of bits.
#[derive(Clone, Copy, Debug, PartialEq, Eq, Structural)]
pub struct AVFmtFlags(pub i32);

#[allow(non_upper_case_globals)]
impl AVFmtFlags {
    /// Generate missing timestamps (`AVFMT_FLAG_GENPTS`).
    pub const GenPts: i32 = 1;

    /// Ignore the index (`AVFMT_FLAG_IGNIDX`).
    pub const IgnoreIndex: i32 = 2;

    /// Do not block when reading packets (`AVFMT_FLAG_NONBLOCK`).
    pub const NonBlock: i32 = 4;

    /// Ignore decoding timestamps (`AVFMT_FLAG_IGNDTS`).
    pub const IgnoreDts: i32 = 8;

    /// Do not infer missing values (`AVFMT_FLAG_NOFILLIN`).
    pub const NoFillIn: i32 = 16;

    /// Do not use parsers (`AVFMT_FLAG_NOPARSE`).
    pub const NoParse: i32 = 32;

    /// Do not buffer frames (`AVFMT_FLAG_NOBUFFER`).
    pub const NoBuffer: i32 = 64;

    /// The caller supplied custom I/O (`AVFMT_FLAG_CUSTOM_IO`).
    pub const CustomIO: i32 = 128;

    /// Discard corrupt frames (`AVFMT_FLAG_DISCARD_CORRUPT`).
    pub const DiscardCorrupt: i32 = 256;

    /// Flush the I/O context after each packet (`AVFMT_FLAG_FLUSH_PACKETS`).
    pub const FlushPackets: i32 = 512;

    /// Write bit-exact output (`AVFMT_FLAG_BITEXACT`).
    pub const BitExact: i32 = 1024;

    /// Sort packets by decoding timestamp (`AVFMT_FLAG_SORT_DTS`).
    pub const SortDts: i32 = 65536;

    /// Allow fast but inaccurate seeks (`AVFMT_FLAG_FAST_SEEK`).
    pub const FastSeek: i32 = 524288;

    /// Stop muxing when the shortest stream stops.
    pub const Shortest: i32 = 1048576;

    /// Add bitstream filters as needed (`AVFMT_FLAG_AUTO_BSF`).
    pub const AutoBsf: i32 = 2097152;

    /// The flags set in both operands.
    pub fn bitand(self, rhs: AVFmtFlags) -> (r: AVFmtFlags)
        ensures
            r.0 == self.0 & rhs.0,
    {
        AVFmtFlags(self.0 & rhs.0)
    }

    /// The flags set in either operand.
    pub fn bitor(self, rhs: AVFmtFlags) -> (r: AVFmtFlags)
        ensures
            r.0 == self.0 | rhs.0,
    {
        AVFmtFlags(self.0 | rhs.0)
    }

    /// Returns `true` when any of the bits of `flag` is set.
    pub fn contains(self, flag: i32) -> (r: bool)
        ensures
            r == (self.0 & flag != 0),
    {
        self.0 & flag != 0
    }

    /// Returns the raw value as a `u32`.
    pub fn to_u32(self) -> (r: u32)
        ensures
            r == self.0 as u32,
    {
        self.0 as u32
    }

    /// The flags with the raw value `value` (reinterpreted as an `i32`).
    pub fn from_u32(value: u32) -> (r: AVFmtFlags)
        ensures
            r.0 == value as i32,
    {
        AVFmtFlags(value as i32)
    }
}

} // verus!
