//! The capability descriptor: identity strings and frequency tables of
//! arbitrary length, laid out in buffers of fixed capacity.

use vstd::prelude::*;
use vstd::utf8::encode_utf8;

verus! {

/// Bytes in an identity buffer; the last one always holds the terminator.
pub const IDENTITY_CAPACITY: usize = 64;

/// Most bytes of an identity string that a buffer keeps.
pub const IDENTITY_MAX_LEN: usize = 63;

/// Entries in a frequency table.
pub const FREQUENCY_CAPACITY: usize = 32;

/// `n` zero bytes.
pub open spec fn zero_bytes(n: int) -> Seq<u8> {
    Seq::new(n as nat, |i: int| 0u8)
}

/// `n` zero frequencies.
pub open spec fn zero_frequencies(n: int) -> Seq<u32> {
    Seq::new(n as nat, |i: int| 0u32)
}

/// The buffer that stores an identity string: the string's bytes followed by
/// zero padding where at most 63 of them exist, else the first 63 bytes
/// followed by the terminator.
pub open spec fn packed_identity(bytes: Seq<u8>) -> Seq<u8> {
    if bytes.len() <= IDENTITY_MAX_LEN {
        bytes + zero_bytes(IDENTITY_CAPACITY - bytes.len())
    } else {
        bytes.take(IDENTITY_MAX_LEN as int).push(0u8)
    }
}

/// The frequencies that a table keeps of a list: all of them where at most 32
/// exist, else the first 32, in their order.
pub open spec fn kept_frequencies(freqs: Seq<u32>) -> Seq<u32> {
    if freqs.len() <= FREQUENCY_CAPACITY {
        freqs
    } else {
        freqs.take(FREQUENCY_CAPACITY as int)
    }
}

/// The table that stores a frequency list: the kept frequencies followed by
/// zero entries up to the capacity.
pub open spec fn packed_frequencies(freqs: Seq<u32>) -> Seq<u32> {
    kept_frequencies(freqs) + zero_frequencies(FREQUENCY_CAPACITY - kept_frequencies(freqs).len())
}

/// Lays an identity string out in its buffer.
pub fn pack_identity(bytes: &[u8]) -> (buf: [u8; 64])
    ensures
        buf@ == packed_identity(bytes@),
{
    let mut buf = [0u8; 64];
    let n: usize = if bytes.len() < IDENTITY_MAX_LEN {
        bytes.len()
    } else {
        IDENTITY_MAX_LEN
    };
    let mut i: usize = 0;
    while i < n
        invariant
            i <= n <= IDENTITY_MAX_LEN,
            n <= bytes@.len(),
            forall|k: int| 0 <= k < i ==> buf@[k] == bytes@[k],
            forall|k: int| i <= k < IDENTITY_CAPACITY ==> buf@[k] == 0u8,
        decreases n - i,
    {
        buf[i] = bytes[i];
        i += 1;
    }
    buf
}

/// Lays a frequency list out in its table and counts the entries kept.
pub fn pack_frequencies(freqs: &[u32]) -> (out: ([u32; 32], u8))
    ensures
        out.0@ == packed_frequencies(freqs@),
        out.1 == kept_frequencies(freqs@).len(),
{
    let mut table = [0u32; 32];
    let n: usize = if freqs.len() < FREQUENCY_CAPACITY {
        freqs.len()
    } else {
        FREQUENCY_CAPACITY
    };
    let mut i: usize = 0;
    while i < n
        invariant
            i <= n <= FREQUENCY_CAPACITY,
            n <= freqs@.len(),
            forall|k: int| 0 <= k < i ==> table@[k] == freqs@[k],
            forall|k: int| i <= k < FREQUENCY_CAPACITY ==> table@[k] == 0u32,
        decreases n - i,
    {
        table[i] = freqs[i];
        i += 1;
    }
    (table, n as u8)
}

/// What the capability source reports of the chip, in full length.
#[derive(Debug, Clone, PartialEq, Eq)]
pub struct Capabilities {
    pub mac_model: String,
    pub chip_name: String,
    pub memory_gb: u8,
    pub ecpu_cores: u8,
    pub pcpu_cores: u8,
    pub gpu_cores: u8,
    pub ecpu_freqs: Vec<u32>,
    pub pcpu_freqs: Vec<u32>,
    pub gpu_freqs: Vec<u32>,
}

/// The descriptor handed to callers: the capabilities in buffers of fixed
/// capacity, each frequency table with the count of its entries in use.
#[derive(Debug, Clone, PartialEq, Eq)]
pub struct SocInfo {
    pub mac_model: [u8; 64],
    pub chip_name: [u8; 64],
    pub memory_gb: u8,
    pub ecpu_cores: u8,
    pub pcpu_cores: u8,
    pub ecpu_freqs: [u32; 32],
    pub pcpu_freqs: [u32; 32],
    pub gpu_cores: u8,
    pub gpu_freqs: [u32; 32],
    pub ecpu_freqs_count: u8,
    pub pcpu_freqs_count: u8,
    pub gpu_freqs_count: u8,
}

/// A table and its count agree: the count is within the capacity and every
/// entry past it is zero.
pub open spec fn table_wf(table: Seq<u32>, count: u8) -> bool {
    &&& table.len() == FREQUENCY_CAPACITY
    &&& count <= FREQUENCY_CAPACITY
    &&& forall|k: int| count <= k < FREQUENCY_CAPACITY ==> table[k] == 0u32
}

impl SocInfo {
    /// Every identity buffer ends in its terminator and every table agrees
    /// with its count.
    pub open spec fn wf(&self) -> bool {
        &&& self.mac_model@[IDENTITY_MAX_LEN as int] == 0u8
        &&& self.chip_name@[IDENTITY_MAX_LEN as int] == 0u8
        &&& table_wf(self.ecpu_freqs@, self.ecpu_freqs_count)
        &&& table_wf(self.pcpu_freqs@, self.pcpu_freqs_count)
        &&& table_wf(self.gpu_freqs@, self.gpu_freqs_count)
    }

    /// The frequency steps of the efficiency cores that the descriptor holds.
    pub open spec fn ecpu_steps(&self) -> Seq<u32> {
        self.ecpu_freqs@.take(self.ecpu_freqs_count as int)
    }

    /// The frequency steps of the performance cores that the descriptor holds.
    pub open spec fn pcpu_steps(&self) -> Seq<u32> {
        self.pcpu_freqs@.take(self.pcpu_freqs_count as int)
    }

    /// The frequency steps of the GPU that the descriptor holds.
    pub open spec fn gpu_steps(&self) -> Seq<u32> {
        self.gpu_freqs@.take(self.gpu_freqs_count as int)
    }

    /// The descriptor is the one that stands for `caps`: scalars as reported,
    /// strings and frequency lists cut to capacity.
    pub open spec fn describes(&self, caps: &Capabilities) -> bool {
        &&& self.mac_model@ == packed_identity(encode_utf8(caps.mac_model@))
        &&& self.chip_name@ == packed_identity(encode_utf8(caps.chip_name@))
        &&& self.memory_gb == caps.memory_gb
        &&& self.ecpu_cores == caps.ecpu_cores
        &&& self.pcpu_cores == caps.pcpu_cores
        &&& self.gpu_cores == caps.gpu_cores
        &&& self.ecpu_freqs@ == packed_frequencies(caps.ecpu_freqs@)
        &&& self.pcpu_freqs@ == packed_frequencies(caps.pcpu_freqs@)
        &&& self.gpu_freqs@ == packed_frequencies(caps.gpu_freqs@)
        &&& self.ecpu_freqs_count == kept_frequencies(caps.ecpu_freqs@).len()
        &&& self.pcpu_freqs_count == kept_frequencies(caps.pcpu_freqs@).len()
        &&& self.gpu_freqs_count == kept_frequencies(caps.gpu_freqs@).len()
    }

    /// Builds the descriptor of the reported capabilities.
    pub fn new(caps: &Capabilities) -> (info: SocInfo)
        ensures
            info.describes(caps),
            info.wf(),
            info.ecpu_steps() == kept_frequencies(caps.ecpu_freqs@),
            info.pcpu_steps() == kept_frequencies(caps.pcpu_freqs@),
            info.gpu_steps() == kept_frequencies(caps.gpu_freqs@),
    {
        let (ecpu_freqs, ecpu_freqs_count) = pack_frequencies(caps.ecpu_freqs.as_slice());
        let (pcpu_freqs, pcpu_freqs_count) = pack_frequencies(caps.pcpu_freqs.as_slice());
        let (gpu_freqs, gpu_freqs_count) = pack_frequencies(caps.gpu_freqs.as_slice());
        SocInfo {
            mac_model: pack_identity(caps.mac_model.as_str().as_bytes()),
            chip_name: pack_identity(caps.chip_name.as_str().as_bytes()),
            memory_gb: caps.memory_gb,
            ecpu_cores: caps.ecpu_cores,
            pcpu_cores: caps.pcpu_cores,
            ecpu_freqs,
            pcpu_freqs,
            gpu_cores: caps.gpu_cores,
            gpu_freqs,
            ecpu_freqs_count,
            pcpu_freqs_count,
            gpu_freqs_count,
        }
    }
}

/// The capabilities settle their descriptor: two descriptors of the same
/// capabilities are equal, buffer by buffer and count by count.
pub proof fn lemma_descriptor_unique(a: SocInfo, b: SocInfo, caps: &Capabilities)
    requires
        a.describes(caps),
        b.describes(caps),
    ensures
        a == b,
{
    assert(a.mac_model =~= b.mac_model);
    assert(a.chip_name =~= b.chip_name);
    assert(a.ecpu_freqs =~= b.ecpu_freqs);
    assert(a.pcpu_freqs =~= b.pcpu_freqs);
    assert(a.gpu_freqs =~= b.gpu_freqs);
}

/// Why the capability source could not be queried.
#[derive(Debug, Clone, Copy, PartialEq, Eq)]
pub enum DescribeError {
    /// The caller may not read the capability source.
    PermissionDenied,
    /// The hardware has no capability source that can be read.
    UnsupportedHardware,
}

/// Turns the outcome of one query of the capability source into the
/// descriptor, or hands the failure on; no descriptor stands in for a failed
/// query.
pub fn describe(report: Result<Capabilities, DescribeError>) -> (out: Result<
    SocInfo,
    DescribeError,
>)
    ensures
        match report {
            Ok(caps) => out matches Ok(info) && info.describes(&caps) && info.wf(),
            Err(e) => out == Err::<SocInfo, DescribeError>(e),
        },
{
    match report {
        Ok(caps) => Ok(SocInfo::new(&caps)),
        Err(e) => Err(e),
    }
}

} // verus!
