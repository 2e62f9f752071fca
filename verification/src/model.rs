//! The serialized model: an opaque buffer of which only the header is read.
//!
//! A model buffer starts with the position of its root table (four bytes,
//! little-endian) and a four-byte identifier. The root table starts with the
//! signed distance back to its field directory, whose first two entries are
//! its own length and the table's, each two bytes, and whose third is the
//! place of the schema version inside the table.

use vstd::prelude::*;
use crate::error::Error;

verus! {

/// The schema version that the engine understands.
pub const SCHEMA_VERSION: u32 = 3;

/// The two bytes at `at`, read as a little-endian number.
pub open spec fn le16(bytes: Seq<u8>, at: int) -> int
    recommends
        0 <= at,
        at + 2 <= bytes.len(),
{
    bytes[at] as int + 0x100 * (bytes[at + 1] as int)
}

/// The four bytes at `at`, read as a little-endian number.
pub open spec fn le32(bytes: Seq<u8>, at: int) -> int
    recommends
        0 <= at,
        at + 4 <= bytes.len(),
{
    bytes[at] as int + 0x100 * (bytes[at + 1] as int) + 0x1_0000 * (bytes[at + 2] as int)
        + 0x100_0000 * (bytes[at + 3] as int)
}

/// A 32-bit pattern read as a two's-complement number.
pub open spec fn signed32(pattern: int) -> int {
    if pattern >= 0x8000_0000 {
        pattern - 0x1_0000_0000
    } else {
        pattern
    }
}

/// The buffer carries the model identifier, the letters `TFL3`, behind the
/// root position.
pub open spec fn has_identifier(bytes: Seq<u8>) -> bool {
    &&& bytes.len() >= 8
    &&& bytes[4] == 0x54
    &&& bytes[5] == 0x46
    &&& bytes[6] == 0x4c
    &&& bytes[7] == 0x33
}

/// The schema version that the header records, or `None` where the header
/// records none or points outside the buffer.
pub open spec fn schema_version(bytes: Seq<u8>) -> Option<int> {
    if bytes.len() < 4 {
        None
    } else {
        let table = le32(bytes, 0);
        if table + 4 > bytes.len() {
            None
        } else {
            let directory = table - signed32(le32(bytes, table));
            if directory < 0 || directory + 6 > bytes.len() {
                None
            } else if le16(bytes, directory) < 6 {
                None
            } else {
                let place = le16(bytes, directory + 4);
                if place == 0 || table + place + 4 > bytes.len() {
                    None
                } else {
                    Some(le32(bytes, table + place))
                }
            }
        }
    }
}

/// The buffer starts like a model of the schema version that the engine
/// understands.
pub open spec fn recognized(bytes: Seq<u8>) -> bool {
    has_identifier(bytes) && schema_version(bytes) == Some(SCHEMA_VERSION as int)
}

fn read_le16(bytes: &[u8], at: usize) -> (value: u16)
    requires
        at + 2 <= bytes@.len(),
    ensures
        value == le16(bytes@, at as int),
{
    let low: u16 = bytes[at] as u16;
    let high: u16 = bytes[at + 1] as u16;
    low + 0x100 * high
}

fn read_le32(bytes: &[u8], at: usize) -> (value: u32)
    requires
        at + 4 <= bytes@.len(),
    ensures
        value == le32(bytes@, at as int),
{
    let b0: u32 = bytes[at] as u32;
    let b1: u32 = bytes[at + 1] as u32;
    let b2: u32 = bytes[at + 2] as u32;
    let b3: u32 = bytes[at + 3] as u32;
    b0 + 0x100 * b1 + 0x1_0000 * b2 + 0x100_0000 * b3
}

fn identifier_present(bytes: &[u8]) -> (yes: bool)
    ensures
        yes == has_identifier(bytes@),
{
    bytes.len() >= 8 && bytes[4] == 0x54 && bytes[5] == 0x46 && bytes[6] == 0x4c && bytes[7]
        == 0x33
}

/// Reads the schema version out of the header.
fn read_schema_version(bytes: &[u8]) -> (version: Option<u32>)
    ensures
        match version {
            Some(v) => schema_version(bytes@) == Some(v as int),
            None => schema_version(bytes@) is None,
        },
{
    let len: u64 = bytes.len() as u64;
    if len < 4 {
        return None;
    }
    let table: u32 = read_le32(bytes, 0);
    if table as u64 + 4 > len {
        return None;
    }
    let pattern: u32 = read_le32(bytes, table as usize);
    let back: i64 = if pattern >= 0x8000_0000 {
        pattern as i64 - 0x1_0000_0000
    } else {
        pattern as i64
    };
    let directory: i64 = table as i64 - back;
    if directory < 0 || directory as u64 + 6 > len {
        return None;
    }
    let directory: usize = directory as usize;
    if read_le16(bytes, directory) < 6 {
        return None;
    }
    let place: u16 = read_le16(bytes, directory + 4);
    if place == 0 || table as u64 + place as u64 + 4 > len {
        return None;
    }
    Some(read_le32(bytes, table as usize + place as usize))
}

/// A model buffer whose header has been checked. It borrows the caller's
/// bytes and never changes them.
pub struct Model<'m> {
    buffer: &'m [u8],
    version: u32,
}

impl<'m> Model<'m> {
    #[verifier::type_invariant]
    spec fn checked(self) -> bool {
        recognized(self.buffer@) && self.version == SCHEMA_VERSION
    }

    /// The bytes of the model.
    pub closed spec fn bytes(self) -> Seq<u8> {
        self.buffer@
    }

    /// Accepts a buffer as a model where it carries the model identifier and
    /// the schema version that the engine understands, and refuses every
    /// other buffer.
    pub fn from_buffer(buffer: &'m [u8]) -> (loaded: Result<Model<'m>, Error>)
        ensures
            match loaded {
                Ok(model) => recognized(buffer@) && model.bytes() == buffer@,
                Err(e) => !recognized(buffer@) && e == Error::InvalidModel,
            },
    {
        if !identifier_present(buffer) {
            return Err(Error::InvalidModel);
        }
        match read_schema_version(buffer) {
            Some(version) => {
                if version == SCHEMA_VERSION {
                    Ok(Model { buffer, version })
                } else {
                    Err(Error::InvalidModel)
                }
            },
            None => Err(Error::InvalidModel),
        }
    }

    /// The bytes of the model, for the engine to read.
    pub fn buffer(&self) -> (bytes: &'m [u8])
        ensures
            bytes@ == self.bytes(),
            recognized(bytes@),
    {
        proof {
            use_type_invariant(self);
        }
        self.buffer
    }

    /// The schema version of the model.
    pub fn version(&self) -> (version: u32)
        ensures
            version == SCHEMA_VERSION,
    {
        proof {
            use_type_invariant(self);
        }
        self.version
    }
}

} // verus!
