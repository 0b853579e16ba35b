//! How the engine and its two column families are tuned, and the prefix
//! extractor of the main family.

use vstd::prelude::*;
use vstd::slice::slice_subrange;

use crate::codec::NAMESPACE_LEN;
use crate::engine::ColumnFamily;

verus! {

/// One mebibyte, in bytes.
pub const MIB: u64 = 1024 * 1024;

/// Size of one write buffer of either family.
pub const WRITE_BUFFER_SIZE: u64 = 32 * MIB;

/// How many write buffers a family may hold.
pub const MAX_WRITE_BUFFER_NUMBER: u32 = 4;

/// Bits per key of the bloom filters.
pub const BLOOM_BITS_PER_KEY: u32 = 10;

/// Number of background jobs of the engine.
pub const MAX_BACKGROUND_JOBS: u32 = 4;

/// The name under which the engine knows the prefix extractor.
pub const PREFIX_EXTRACTOR_NAME: &'static str = "U16BeSuffixTransform";

/// How the blocks of a level are compressed.
#[derive(Clone, Copy, Debug, PartialEq, Eq, Structural)]
pub enum Compression {
    /// Not at all.
    No,
    /// With LZ4.
    Lz4,
}

/// How the engine compacts a family.
#[derive(Clone, Copy, Debug, PartialEq, Eq, Structural)]
pub enum CompactionStyle {
    /// By levels, the engine's default.
    Level,
    /// First in, first out: the oldest segments are dropped first.
    Fifo,
}

/// Options of the engine as a whole.
#[derive(Clone, Copy, Debug, PartialEq, Eq, Structural)]
pub struct EngineOptions {
    /// Create the directory if it is not there.
    pub create_if_missing: bool,
    /// Number of background jobs.
    pub max_background_jobs: u32,
    /// Pipeline the writes to the write-ahead log and to the buffers.
    pub enable_pipelined_write: bool,
}

/// Options of a family's block-based tables.
#[derive(Clone, Copy, Debug, PartialEq, Eq, Structural)]
pub struct TableOptions {
    /// Bits per key of the bloom filter.
    pub bloom_bits_per_key: u32,
    /// Whether the bloom filter is kept per block rather than per file.
    pub bloom_block_based: bool,
    /// Size of the LRU block cache, in bytes.
    pub lru_cache_bytes: u64,
}

/// Options of one column family.
#[derive(Debug, PartialEq, Eq)]
pub struct FamilyOptions {
    /// The family that the options are for.
    pub family: ColumnFamily,
    /// Whether keys are grouped by the prefix extractor of [`U16BeSuffixTransform`].
    pub prefix_extractor: bool,
    /// Compression of each level, from the first; empty where one setting
    /// holds for all levels.
    pub compression_per_level: Vec<Compression>,
    /// Compression of all levels, where `compression_per_level` is empty.
    pub compression: Compression,
    /// How the family is compacted.
    pub compaction_style: CompactionStyle,
    /// Size of one write buffer, in bytes.
    pub write_buffer_size: u64,
    /// How many write buffers the family may hold.
    pub max_write_buffer_number: u32,
    /// Where given, the size of the base level, in bytes.
    pub max_bytes_for_level_base: Option<u64>,
    /// Options of the tables.
    pub table: TableOptions,
}

impl EngineOptions {
    /// The engine's options: the directory is created if missing, writes are
    /// pipelined, and four background jobs run.
    pub fn tuned() -> (options: EngineOptions)
        ensures
            options == (EngineOptions {
                create_if_missing: true,
                max_background_jobs: 4,
                enable_pipelined_write: true,
            }),
    {
        EngineOptions {
            create_if_missing: true,
            max_background_jobs: MAX_BACKGROUND_JOBS,
            enable_pipelined_write: true,
        }
    }
}

impl FamilyOptions {
    /// The options are those of the main family.
    pub open spec fn tuned_for_main(&self) -> bool {
        &&& self.family == ColumnFamily::Main
        &&& self.prefix_extractor
        &&& self.compression_per_level@ == seq![
            Compression::No,
            Compression::No,
            Compression::Lz4,
            Compression::Lz4,
            Compression::Lz4,
            Compression::Lz4,
            Compression::Lz4,
        ]
        &&& self.compression == Compression::No
        &&& self.compaction_style == CompactionStyle::Level
        &&& self.write_buffer_size == 32 * 1024 * 1024
        &&& self.max_write_buffer_number == 4
        &&& self.max_bytes_for_level_base == Some(134_217_728u64)
        &&& self.table.bloom_bits_per_key == 10
        &&& !self.table.bloom_block_based
        &&& self.table.lru_cache_bytes == 128 * 1024 * 1024
    }

    /// The options are those of the log family.
    pub open spec fn tuned_for_log(&self) -> bool {
        &&& self.family == ColumnFamily::Log
        &&& !self.prefix_extractor
        &&& self.compression_per_level@ == Seq::<Compression>::empty()
        &&& self.compression == Compression::No
        &&& self.compaction_style == CompactionStyle::Fifo
        &&& self.write_buffer_size == 32 * 1024 * 1024
        &&& self.max_write_buffer_number == 4
        &&& self.max_bytes_for_level_base == None::<u64>
        &&& self.table.bloom_bits_per_key == 10
        &&& !self.table.bloom_block_based
        &&& self.table.lru_cache_bytes == 64 * 1024 * 1024
    }

    /// The main family, tuned for point lookups and short range scans: keys
    /// grouped by their two-byte prefix, the two first levels uncompressed and
    /// five more under LZ4, four write buffers of 32 MiB, a base level of
    /// 128 MiB, a bloom filter of ten bits per key and a block cache of
    /// 128 MiB.
    pub fn main() -> (options: FamilyOptions)
        ensures
            options.tuned_for_main(),
    {
        let mut levels: Vec<Compression> = Vec::new();
        levels.push(Compression::No);
        levels.push(Compression::No);
        let mut level: usize = 2;
        while level < 7
            invariant
                2 <= level <= 7,
                levels@.len() == level,
                levels@[0] == Compression::No,
                levels@[1] == Compression::No,
                forall|i: int| 2 <= i < level ==> levels@[i] == Compression::Lz4,
            decreases 7 - level,
        {
            levels.push(Compression::Lz4);
            level = level + 1;
        }
        assert(levels@ =~= seq![
            Compression::No,
            Compression::No,
            Compression::Lz4,
            Compression::Lz4,
            Compression::Lz4,
            Compression::Lz4,
            Compression::Lz4,
        ]);
        FamilyOptions {
            family: ColumnFamily::Main,
            prefix_extractor: true,
            compression_per_level: levels,
            compression: Compression::No,
            compaction_style: CompactionStyle::Level,
            write_buffer_size: WRITE_BUFFER_SIZE,
            max_write_buffer_number: MAX_WRITE_BUFFER_NUMBER,
            max_bytes_for_level_base: Some(4 * WRITE_BUFFER_SIZE),
            table: TableOptions {
                bloom_bits_per_key: BLOOM_BITS_PER_KEY,
                bloom_block_based: false,
                lru_cache_bytes: 4 * WRITE_BUFFER_SIZE,
            },
        }
    }

    /// The log family, which is mostly appended to: no compression, first in
    /// first out compaction, four write buffers of 32 MiB, a bloom filter of
    /// ten bits per key and a block cache of 64 MiB.
    pub fn log() -> (options: FamilyOptions)
        ensures
            options.tuned_for_log(),
    {
        FamilyOptions {
            family: ColumnFamily::Log,
            prefix_extractor: false,
            compression_per_level: Vec::new(),
            compression: Compression::No,
            compaction_style: CompactionStyle::Fifo,
            write_buffer_size: WRITE_BUFFER_SIZE,
            max_write_buffer_number: MAX_WRITE_BUFFER_NUMBER,
            max_bytes_for_level_base: None,
            table: TableOptions {
                bloom_bits_per_key: BLOOM_BITS_PER_KEY,
                bloom_block_based: false,
                lru_cache_bytes: 2 * WRITE_BUFFER_SIZE,
            },
        }
    }
}

/// The prefix of a key, to the engine: its first two bytes.
pub open spec fn extracted_prefix(key: Seq<u8>) -> Seq<u8> {
    key.take(2)
}

/// The keys that have a prefix: those of at least two bytes.
pub open spec fn prefix_in_domain(key: Seq<u8>) -> bool {
    key.len() >= 2
}

/// The prefix extractor of the main family: the namespace id in front of a
/// key. Bloom filters and scans of one prefix go by it.
#[derive(Clone, Copy, Debug)]
pub struct U16BeSuffixTransform;

impl U16BeSuffixTransform {
    /// The prefix of a key that has one.
    pub fn transform<'a>(&self, key: &'a [u8]) -> (prefix: &'a [u8])
        requires
            prefix_in_domain(key@),
        ensures
            prefix@ == extracted_prefix(key@),
    {
        slice_subrange(key, 0, NAMESPACE_LEN)
    }

    /// Whether the key has a prefix.
    pub fn in_domain(&self, key: &[u8]) -> (inside: bool)
        ensures
            inside == prefix_in_domain(key@),
    {
        key.len() >= NAMESPACE_LEN
    }
}

} // verus!
