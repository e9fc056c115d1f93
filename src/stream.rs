use vstd::prelude::*;

verus! {

/// Stream decoding level: how many filter layers are undone when stream
/// data is read
#[derive(Debug, Clone, Copy, PartialEq, Eq, Structural, PartialOrd, Hash)]
pub enum StreamDecodeLevel {
    NoDecode,
    Generalized,
    Specialized,
    All,
}

/// The engine's code of each decode level.
pub open spec fn decode_level_code(l: StreamDecodeLevel) -> u32 {
    match l {
        StreamDecodeLevel::NoDecode => 0,
        StreamDecodeLevel::Generalized => 1,
        StreamDecodeLevel::Specialized => 2,
        StreamDecodeLevel::All => 3,
    }
}

impl StreamDecodeLevel {
    /// The engine's code of this decode level
    pub fn as_qpdf_enum(&self) -> (r: u32)
        ensures
            r == decode_level_code(*self),
    {
        match self {
            StreamDecodeLevel::NoDecode => 0,
            StreamDecodeLevel::Generalized => 1,
            StreamDecodeLevel::Specialized => 2,
            StreamDecodeLevel::All => 3,
        }
    }
}

/// Object stream mode
#[derive(Debug, Clone, Copy, PartialEq, Eq, Structural, PartialOrd, Hash)]
pub enum ObjectStreamMode {
    Disable,
    Preserve,
    Generate,
}

/// The engine's code of each object stream mode.
pub open spec fn object_stream_code(m: ObjectStreamMode) -> u32 {
    match m {
        ObjectStreamMode::Disable => 0,
        ObjectStreamMode::Preserve => 1,
        ObjectStreamMode::Generate => 2,
    }
}

impl ObjectStreamMode {
    /// The engine's code of this object stream mode
    pub fn as_qpdf_enum(&self) -> (r: u32)
        ensures
            r == object_stream_code(*self),
    {
        match self {
            ObjectStreamMode::Disable => 0,
            ObjectStreamMode::Preserve => 1,
            ObjectStreamMode::Generate => 2,
        }
    }
}

/// Stream data mode: whether stream data is written uncompressed, as it is,
/// or compressed
#[derive(Debug, Clone, Copy, PartialEq, Eq, Structural, PartialOrd, Hash)]
pub enum StreamDataMode {
    Uncompress,
    Preserve,
    Compress,
}

/// The engine's code of each stream data mode.
pub open spec fn stream_data_code(m: StreamDataMode) -> u32 {
    match m {
        StreamDataMode::Uncompress => 0,
        StreamDataMode::Preserve => 1,
        StreamDataMode::Compress => 2,
    }
}

impl StreamDataMode {
    /// The engine's code of this stream data mode
    pub fn as_qpdf_enum(&self) -> (r: u32)
        ensures
            r == stream_data_code(*self),
    {
        match self {
            StreamDataMode::Uncompress => 0,
            StreamDataMode::Preserve => 1,
            StreamDataMode::Compress => 2,
        }
    }
}

/// Stream data owned by the caller: the bytes that the engine handed out,
/// taken over once and released when this value is dropped.
pub struct QPdfStreamData {
    data: Vec<u8>,
}

impl View for QPdfStreamData {
    type V = Seq<u8>;

    closed spec fn view(&self) -> Seq<u8> {
        self.data@
    }
}

impl QPdfStreamData {
    /// Take ownership of a buffer of stream data
    pub fn new(data: Vec<u8>) -> (r: Self)
        ensures
            r@ == data@,
    {
        QPdfStreamData { data }
    }

    /// Get data length
    pub fn len(&self) -> (r: usize)
        ensures
            r == self@.len(),
    {
        self.data.len()
    }

    /// Return true if data has zero length
    pub fn is_empty(&self) -> (r: bool)
        ensures
            r == (self@.len() == 0),
    {
        self.len() == 0
    }

    /// The bytes of the data
    pub fn as_slice(&self) -> (r: &[u8])
        ensures
            r@ == self@,
    {
        self.data.as_slice()
    }

    /// Give up ownership of the bytes
    pub fn into_vec(self) -> (r: Vec<u8>)
        ensures
            r@ == self@,
    {
        self.data
    }
}

impl AsRef<[u8]> for QPdfStreamData {
    fn as_ref(&self) -> (r: &[u8])
        ensures
            r@ == self@,
    {
        self.data.as_slice()
    }
}

} // verus!
