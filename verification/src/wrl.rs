//! The world file: a magic-and-version header followed by tagged entries,
//! each with a 24-byte type name, a length, a layer, a 24-byte entry name
//! and an opaque payload.

use vstd::prelude::*;

use crate::file::{le32_at, ByteReader, ReadString};

verus! {

/// A loaded world, remembering the path it was loaded from.
#[derive(Clone, Debug)]
pub struct WRLRoot {
    pub path: String,
}

/// One entry's header fields.
#[derive(Clone, Debug)]
pub struct WRLEntry {
    pub entry_type: Vec<u8>,
    pub u: u32,
    pub layer: u32,
}

/// One entry's payload, kept opaque.
#[derive(Clone, Debug)]
pub struct WRLData {
    pub data: Vec<u8>,
}

/// One named entry of a world file.
#[derive(Clone, Debug)]
pub struct WrlRecord {
    pub entry: WRLEntry,
    pub name: Vec<u8>,
    pub data: WRLData,
}

/// A whole world file: its root and its entries, in file order.
#[derive(Clone, Debug)]
pub struct WrlWorld {
    pub root: WRLRoot,
    pub records: Vec<WrlRecord>,
}

/// The file magic: the four ASCII bytes of "RC2W", little-endian.
pub const WRL_MAGIC: u32 = 0x5732_4352;

/// The one supported file version.
pub const WRL_VERSION: u32 = 11;

/// The entry magic: the four ASCII bytes of "OBMG", little-endian.
pub const OBMG_MAGIC: u32 = 0x474D_424F;

/// Bytes every entry consumes after its length field: its layer and name.
pub const WRL_ENTRY_HEADER: u32 = 28;

/// Why a world file was rejected.
#[derive(Clone, Copy, Debug, PartialEq, Eq, Structural)]
pub enum WrlError {
    /// The file does not start with the world magic.
    NotWrl,
    /// The file's version is not the supported one.
    WrongVersion,
    /// An entry does not start with the entry magic.
    MissingHeader,
    /// An entry declares a length shorter than its own header.
    BadEntryLength,
    /// The file ends inside a field or an entry payload.
    Truncated,
}

/// Every record a well-formed load produces: names fit their counted fields.
pub open spec fn record_wf(rec: WrlRecord) -> bool {
    rec.entry.entry_type@.len() <= 24 && rec.name@.len() <= 24
}

/// Load a world file from its bytes. The header must carry the world magic
/// and the supported version; then entries are read until the buffer is
/// exhausted. Each entry must carry the entry magic and a length of at least
/// its own header, and its payload must lie inside the buffer.
pub fn load_wrl(path: String, bytes: Vec<u8>) -> (res: Result<WrlWorld, WrlError>)
    ensures
        match res {
            Ok(w) => {
                &&& w.root.path == path
                &&& bytes@.len() >= 8
                &&& le32_at(bytes@, 0) == WRL_MAGIC
                &&& le32_at(bytes@, 4) == WRL_VERSION
                &&& forall|i: int| 0 <= i < w.records@.len() ==> record_wf(
                    #[trigger] w.records@[i],
                )
            },
            Err(WrlError::NotWrl) => bytes@.len() >= 4 && le32_at(bytes@, 0) != WRL_MAGIC,
            Err(WrlError::WrongVersion) => {
                &&& bytes@.len() >= 8
                &&& le32_at(bytes@, 0) == WRL_MAGIC
                &&& le32_at(bytes@, 4) != WRL_VERSION
            },
            Err(_) => true,
        },
{
    let ghost data = bytes@;
    let mut r = ByteReader::new(bytes);
    let magic = match r.read_u32_le() {
        Ok(v) => v,
        Err(_) => {
            return Err(WrlError::Truncated);
        },
    };
    if magic != WRL_MAGIC {
        return Err(WrlError::NotWrl);
    }
    let version = match r.read_u32_le() {
        Ok(v) => v,
        Err(_) => {
            return Err(WrlError::Truncated);
        },
    };
    if version != WRL_VERSION {
        return Err(WrlError::WrongVersion);
    }
    let mut records: Vec<WrlRecord> = Vec::new();
    while !r.is_empty()
        invariant
            r.data() == data,
            forall|i: int| 0 <= i < records@.len() ==> record_wf(#[trigger] records@[i]),
        decreases r.remaining(),
    {
        let header = match r.read_u32_le() {
            Ok(v) => v,
            Err(_) => {
                return Err(WrlError::Truncated);
            },
        };
        if header != OBMG_MAGIC {
            return Err(WrlError::MissingHeader);
        }
        let ghost type_pos = r.position();
        let entry_type = match r.read_sized_string(24) {
            Ok(v) => v,
            Err(_) => {
                return Err(WrlError::Truncated);
            },
        };
        proof {
            crate::file::lemma_counted_string_len(r.data(), type_pos as int, 24);
        }
        let u = match r.read_u32_le() {
            Ok(v) => v,
            Err(_) => {
                return Err(WrlError::Truncated);
            },
        };
        let entry_length = match r.read_u32_le() {
            Ok(v) => v,
            Err(_) => {
                return Err(WrlError::Truncated);
            },
        };
        if entry_length < WRL_ENTRY_HEADER {
            return Err(WrlError::BadEntryLength);
        }
        let here = r.tell();
        let total = r.data_len();
        if (entry_length as u64) > (total - here) as u64 {
            return Err(WrlError::Truncated);
        }
        let next: usize = here + entry_length as usize;
        let layer = match r.read_u32_le() {
            Ok(v) => v,
            Err(_) => {
                return Err(WrlError::Truncated);
            },
        };
        let ghost name_pos = r.position();
        let name = match r.read_sized_string(24) {
            Ok(v) => v,
            Err(_) => {
                return Err(WrlError::Truncated);
            },
        };
        proof {
            crate::file::lemma_counted_string_len(r.data(), name_pos as int, 24);
        }
        let payload_len: usize = next - r.tell();
        let payload = match r.read_exact(payload_len) {
            Ok(v) => v,
            Err(_) => {
                return Err(WrlError::Truncated);
            },
        };
        records.push(
            WrlRecord {
                entry: WRLEntry { entry_type, u, layer },
                name,
                data: WRLData { data: payload },
            },
        );
    }
    Ok(WrlWorld { root: WRLRoot { path }, records })
}

} // verus!
