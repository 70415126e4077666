//! Encrypted search index shards.

use vstd::prelude::*;

use crate::text::{push_str, str_eq, to_owned_string};

verus! {

/// Magic string of a search index shard.
pub const SHARD_MAGIC: &'static str = "KCHAT_INDEX_SHARD_V1";

/// Current shard version.
pub const SHARD_VERSION: u32 = 1;

/// Compression of shard payloads.
pub const SHARD_COMPRESSION: &'static str = "zstd";

/// Encryption of shard payloads.
pub const SHARD_ENCRYPTION: &'static str = "xchacha20-poly1305";

/// Kind of search index.
#[derive(Debug, Clone, Copy, PartialEq, Eq, Structural, Hash)]
pub enum IndexType {
    Bloom,
    Text,
    Fuzzy,
    Vector,
    Media,
}

/// Shard types are index types.
pub type ShardType = IndexType;

/// The storage name of a shard type.
pub open spec fn shard_type_name(t: IndexType) -> Seq<char> {
    match t {
        IndexType::Text => "text"@,
        IndexType::Fuzzy => "fuzzy"@,
        IndexType::Vector => "vector"@,
        IndexType::Media => "media"@,
        IndexType::Bloom => "bloom"@,
    }
}

/// The shard type stored under `s`, if any.
pub open spec fn shard_type_of(s: Seq<char>) -> Option<IndexType> {
    if s == "text"@ {
        Some(IndexType::Text)
    } else if s == "fuzzy"@ {
        Some(IndexType::Fuzzy)
    } else if s == "vector"@ {
        Some(IndexType::Vector)
    } else if s == "media"@ {
        Some(IndexType::Media)
    } else if s == "bloom"@ {
        Some(IndexType::Bloom)
    } else {
        None
    }
}

impl IndexType {
    /// Every index type, in declaration order.
    pub fn all() -> (r: [IndexType; 5])
        ensures
            r@ == seq![IndexType::Bloom, IndexType::Text, IndexType::Fuzzy, IndexType::Vector, IndexType::Media],
    {
        let r = [IndexType::Bloom, IndexType::Text, IndexType::Fuzzy, IndexType::Vector, IndexType::Media];
        assert(r@ =~= seq![IndexType::Bloom, IndexType::Text, IndexType::Fuzzy, IndexType::Vector, IndexType::Media]);
        r
    }

    /// The storage name of this shard type.
    pub fn as_str(&self) -> (r: &'static str)
        ensures
            r@ == shard_type_name(*self),
    {
        match self {
            IndexType::Text => "text",
            IndexType::Fuzzy => "fuzzy",
            IndexType::Vector => "vector",
            IndexType::Media => "media",
            IndexType::Bloom => "bloom",
        }
    }

    /// The shard type stored under `s`; `None` for any other text.
    pub fn parse(s: &str) -> (r: Option<Self>)
        ensures
            r == shard_type_of(s@),
    {
        if str_eq(s, "text") {
            Some(IndexType::Text)
        } else if str_eq(s, "fuzzy") {
            Some(IndexType::Fuzzy)
        } else if str_eq(s, "vector") {
            Some(IndexType::Vector)
        } else if str_eq(s, "media") {
            Some(IndexType::Media)
        } else if str_eq(s, "bloom") {
            Some(IndexType::Bloom)
        } else {
            None
        }
    }
}

/// Parsing the storage name of a shard type gives the type back.
pub proof fn lemma_shard_type_round_trip(t: IndexType)
    ensures
        shard_type_of(shard_type_name(t)) == Some(t),
{
    reveal_strlit("text");
    reveal_strlit("fuzzy");
    reveal_strlit("vector");
    reveal_strlit("media");
    reveal_strlit("bloom");
    assert("text"@.len() == 4);
    assert("fuzzy"@.len() == 5);
    assert("vector"@.len() == 6);
    assert("media"@.len() == 5);
    assert("bloom"@.len() == 5);
    assert("fuzzy"@[0] != "media"@[0]);
    assert("fuzzy"@[0] != "bloom"@[0]);
    assert("media"@[0] != "bloom"@[0]);
}

/// Identity of a shard: conversation hash, time bucket and type.
#[derive(Debug, Clone, PartialEq, Eq, Hash)]
pub struct ShardId {
    pub conversation_hash: String,
    pub bucket: String,
    pub shard_type: ShardType,
}

impl ShardId {
    /// Storage key `<conversation_hash>__<bucket>__<type>`.
    pub fn to_key(&self) -> (r: String)
        ensures
            r@ == self.conversation_hash@ + "__"@ + self.bucket@ + "__"@ + shard_type_name(self.shard_type),
    {
        let mut out = to_owned_string(self.conversation_hash.as_str());
        push_str(&mut out, "__");
        push_str(&mut out, self.bucket.as_str());
        push_str(&mut out, "__");
        push_str(&mut out, self.shard_type.as_str());
        out
    }
}

/// Encrypted search index shard.
#[derive(Debug, Clone)]
pub struct SearchIndexShard {
    pub magic: String,
    pub version: u32,
    pub shard_id: uuid::Uuid,
    pub index_type: IndexType,
    pub conversation_id_hash: Vec<u8>,
    pub time_bucket: String,
    pub doc_count: u64,
    pub compression: String,
    pub encryption: String,
    pub nonce: [u8; 24],
    pub aad_hash: [u8; 32],
    pub ciphertext: Vec<u8>,
    pub ciphertext_sha256: [u8; 32],
}

impl SearchIndexShard {
    /// The shard carries the current magic, version, compression and
    /// encryption.
    pub fn has_valid_header(&self) -> (r: bool)
        ensures
            r == (self.magic@ == SHARD_MAGIC@ && self.version == SHARD_VERSION && self.compression@
                == SHARD_COMPRESSION@ && self.encryption@ == SHARD_ENCRYPTION@),
    {
        str_eq(self.magic.as_str(), SHARD_MAGIC) && self.version == SHARD_VERSION && str_eq(
            self.compression.as_str(),
            SHARD_COMPRESSION,
        ) && str_eq(self.encryption.as_str(), SHARD_ENCRYPTION)
    }
}

/// Text shard payload.
#[derive(Debug, Clone)]
pub struct TextShardPayload {
    pub entries: Vec<TextShardEntry>,
}

/// One message in a text shard.
#[derive(Debug, Clone)]
pub struct TextShardEntry {
    pub message_id: String,
    pub conversation_id: String,
    pub sender_id: String,
    pub created_at_ms: i64,
    pub text_content: String,
}

/// Fuzzy shard payload.
#[derive(Debug, Clone)]
pub struct FuzzyShardPayload {
    pub entries: Vec<FuzzyShardEntry>,
}

/// One token in a fuzzy shard.
#[derive(Debug, Clone)]
pub struct FuzzyShardEntry {
    pub token: String,
    pub script: String,
    pub message_id: String,
}

/// Vector shard payload.
#[derive(Debug, Clone)]
pub struct VectorShardPayload {
    pub model_version: String,
    pub entries: Vec<VectorShardEntry>,
}

/// One embedding in a vector shard.
#[derive(Debug, Clone)]
pub struct VectorShardEntry {
    pub message_id: String,
    pub embedding: Vec<u8>,
}

/// Bloom filter shard payload.
#[derive(Debug, Clone)]
pub struct BloomShardPayload {
    pub bits: Vec<u8>,
    pub bit_count: u64,
    pub hash_count: u8,
}

} // verus!
