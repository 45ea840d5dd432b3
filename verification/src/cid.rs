//! Content identifiers and the multihashes inside them.

use vstd::prelude::*;

verus! {

/// The content identifier of the `cid` crate.
#[verifier::external_type_specification]
#[verifier::external_body]
pub struct ExOutsideCid<const S: usize>(::cid::CidGeneric<S>);

/// The codec of every version 0 identifier.
pub const DAG_PB: u64 = 0x70;

/// The hash function of every version 0 identifier.
pub const SHA2_256: u64 = 0x12;

/// The most digest bytes that a multihash can hold.
pub const MAX_DIGEST: usize = 64;

/// The version of a content identifier.
#[derive(Clone, Copy, Debug, PartialEq, Eq, Structural)]
pub enum Version {
    V0,
    V1,
}

/// What a multihash says: a hash function's code and a digest.
pub struct MultihashView {
    pub code: u64,
    pub digest: Seq<u8>,
}

/// What a content identifier says.
pub struct CidView {
    pub version: Version,
    pub codec: u64,
    pub hash: MultihashView,
}

/// A digest is at most 64 bytes long.
pub open spec fn valid_hash(hash: MultihashView) -> bool {
    hash.digest.len() <= MAX_DIGEST
}

/// A version 0 identifier has the codec DAG-PB and a SHA2-256 digest of 32
/// bytes.
pub open spec fn valid_cid(cid: CidView) -> bool {
    &&& valid_hash(cid.hash)
    &&& cid.version == Version::V0 ==> {
        &&& cid.codec == DAG_PB
        &&& cid.hash.code == SHA2_256
        &&& cid.hash.digest.len() == 32
    }
}

/// A hash function's code with a digest of at most 64 bytes.
#[derive(Debug)]
pub struct Multihash {
    code: u64,
    digest: Vec<u8>,
}

impl View for Multihash {
    type V = MultihashView;

    closed spec fn view(&self) -> MultihashView {
        MultihashView { code: self.code, digest: self.digest@ }
    }
}

impl Clone for Multihash {
    fn clone(&self) -> (r: Self)
        ensures
            r@ == self@,
    {
        proof {
            use_type_invariant(self);
        }
        Multihash { code: self.code, digest: self.digest.clone() }
    }
}

impl Multihash {
    #[verifier::type_invariant]
    spec fn well_formed(self) -> bool {
        self.digest@.len() <= MAX_DIGEST
    }

    /// A multihash of `code` and `digest`, unless the digest is longer than
    /// 64 bytes.
    pub fn wrap(code: u64, digest: Vec<u8>) -> (r: Option<Multihash>)
        ensures
            r is Some <==> digest@.len() <= MAX_DIGEST,
            r matches Some(hash) ==> hash@ == (MultihashView { code, digest: digest@ }),
    {
        if digest.len() > MAX_DIGEST {
            None
        } else {
            Some(Multihash { code, digest })
        }
    }

    /// The code of the hash function.
    pub fn code(&self) -> (code: u64)
        ensures
            code == self@.code,
    {
        self.code
    }

    /// The number of digest bytes.
    pub fn size(&self) -> (size: u8)
        ensures
            size == self@.digest.len(),
            valid_hash(self@),
    {
        proof {
            use_type_invariant(self);
        }
        self.digest.len() as u8
    }

    /// The digest.
    pub fn digest(&self) -> (digest: &Vec<u8>)
        ensures
            digest@ == self@.digest,
            valid_hash(self@),
    {
        proof {
            use_type_invariant(self);
        }
        &self.digest
    }

    /// Whether two multihashes say the same.
    pub fn same(&self, other: &Multihash) -> (b: bool)
        ensures
            b == (self@ == other@),
    {
        let b = self.code == other.code && self.digest == other.digest;
        proof {
            if b {
                assert(self.digest@ =~= other.digest@);
            }
        }
        b
    }
}

/// A content identifier: version, codec and multihash.
#[derive(Debug)]
pub struct Cid {
    version: Version,
    codec: u64,
    hash: Multihash,
}

impl View for Cid {
    type V = CidView;

    closed spec fn view(&self) -> CidView {
        CidView { version: self.version, codec: self.codec, hash: self.hash@ }
    }
}

impl Clone for Cid {
    fn clone(&self) -> (r: Self)
        ensures
            r@ == self@,
    {
        proof {
            use_type_invariant(self);
        }
        Cid { version: self.version, codec: self.codec, hash: self.hash.clone() }
    }
}

impl Cid {
    #[verifier::type_invariant]
    spec fn well_formed(self) -> bool {
        valid_cid(self@)
    }

    /// The version 0 identifier of `hash`, which must be a SHA2-256 digest
    /// of 32 bytes.
    pub fn new_v0(hash: Multihash) -> (r: Option<Cid>)
        ensures
            r is Some <==> hash@.code == SHA2_256 && hash@.digest.len() == 32,
            r matches Some(cid) ==> cid@ == (CidView {
                version: Version::V0,
                codec: DAG_PB,
                hash: hash@,
            }),
    {
        if hash.code() != SHA2_256 || hash.size() != 32 {
            None
        } else {
            Some(Cid { version: Version::V0, codec: DAG_PB, hash })
        }
    }

    /// The version 1 identifier of `hash` under `codec`.
    pub fn new_v1(codec: u64, hash: Multihash) -> (cid: Cid)
        ensures
            cid@ == (CidView { version: Version::V1, codec, hash: hash@ }),
    {
        let _ = hash.size();
        Cid { version: Version::V1, codec, hash }
    }

    /// The identifier of the given version, codec and hash, unless the
    /// version is 0 and codec or hash are not what version 0 demands.
    pub fn new(version: Version, codec: u64, hash: Multihash) -> (r: Option<Cid>)
        ensures
            r is Some <==> valid_cid(CidView { version, codec, hash: hash@ }),
            r matches Some(cid) ==> cid@ == (CidView { version, codec, hash: hash@ }),
    {
        let _ = hash.size();
        match version {
            Version::V0 => {
                if codec != DAG_PB {
                    None
                } else {
                    Cid::new_v0(hash)
                }
            },
            Version::V1 => Some(Cid::new_v1(codec, hash)),
        }
    }

    /// The same content under version 1: a version 0 identifier keeps codec
    /// and hash, a version 1 identifier is unchanged.
    pub fn into_v1(self) -> (cid: Cid)
        ensures
            cid@ == (CidView { version: Version::V1, codec: self@.codec, hash: self@.hash }),
    {
        proof {
            use_type_invariant(&self);
        }
        Cid { version: Version::V1, codec: self.codec, hash: self.hash }
    }

    /// The version.
    pub fn version(&self) -> (version: Version)
        ensures
            version == self@.version,
    {
        self.version
    }

    /// The codec of the content.
    pub fn codec(&self) -> (codec: u64)
        ensures
            codec == self@.codec,
    {
        self.codec
    }

    /// The multihash of the content.
    pub fn hash(&self) -> (hash: &Multihash)
        ensures
            hash@ == self@.hash,
            valid_cid(self@),
    {
        proof {
            use_type_invariant(self);
        }
        &self.hash
    }

    /// Whether two identifiers say the same.
    pub fn same(&self, other: &Cid) -> (b: bool)
        ensures
            b == (self@ == other@),
    {
        self.version == other.version && self.codec == other.codec && self.hash.same(&other.hash)
    }
}

/// The identifier that `cid::Cid::try_from` reads in a text, or nothing
/// where it gives an error.
pub uninterp spec fn cid_of_text(text: Seq<char>) -> Option<CidView>;

/// The identifier that `cid::Cid::read_bytes` reads at the head of a byte
/// string, or nothing where it gives an error.
pub uninterp spec fn cid_of_bytes(bytes: Seq<u8>) -> Option<CidView>;

/// The text that `cid::Cid` displays for an identifier.
pub uninterp spec fn cid_text(cid: CidView) -> Seq<char>;

/// The bytes that `cid::Cid::to_bytes` gives for an identifier.
pub uninterp spec fn cid_bytes(cid: CidView) -> Seq<u8>;

/// The multihash that `multihash::Multihash::<32>::from_bytes` reads in a
/// byte string, or nothing where it gives an error.
pub uninterp spec fn multihash_of_bytes(bytes: Seq<u8>) -> Option<MultihashView>;

/// The digest that `multihash_codetable::Code::Sha2_256` computes.
pub uninterp spec fn sha2_256(data: Seq<u8>) -> Seq<u8>;

/// The digest that the hash function of the given code computes with
/// `multihash_codetable::Code`, or nothing where the code is not in its
/// table.
pub uninterp spec fn digest_of(code: u64, data: Seq<u8>) -> Option<Seq<u8>>;

/// Version, codec and multihash of an identifier of the `cid` crate, as
/// its methods `version`, `codec` and `hash` give them.
pub uninterp spec fn outside_view(cid: ::cid::Cid) -> CidView;

/// Copies version, codec, hash code and digest out of an identifier of the
/// `cid` crate, with its methods of those names. Such an identifier holds
/// at most 64 digest bytes and, under version 0, the codec DAG-PB and a
/// SHA2-256 digest of 32 bytes.
#[verifier::external_body]
pub(crate) fn model_of(cid: &::cid::Cid) -> (r: Cid)
    ensures
        r@ == outside_view(*cid),
{
    let version = match cid.version() {
        ::cid::Version::V0 => Version::V0,
        ::cid::Version::V1 => Version::V1,
    };
    let hash = Multihash { code: cid.hash().code(), digest: cid.hash().digest().to_vec() };
    Cid { version, codec: cid.codec(), hash }
}

/// Builds the identifier of the `cid` crate that has the same version,
/// codec, hash code and digest, with `Multihash::wrap` and `Cid::new`.
#[verifier::external_body]
pub(crate) fn outside_of(cid: &Cid) -> (r: ::cid::Cid)
    ensures
        outside_view(r) == cid@,
{
    let hash = ::multihash::Multihash::<64>::wrap(cid.hash.code, &cid.hash.digest).unwrap();
    let version = match cid.version {
        Version::V0 => ::cid::Version::V0,
        Version::V1 => ::cid::Version::V1,
    };
    ::cid::Cid::new(version, cid.codec, hash).unwrap()
}

/// Calls `cid::Cid::try_from` on a text.
#[verifier::external_body]
fn read_text(text: &str) -> (r: Option<::cid::Cid>)
    ensures
        match r {
            Some(cid) => cid_of_text(text@) == Some(outside_view(cid)),
            None => cid_of_text(text@) is None,
        },
{
    ::cid::Cid::try_from(text).ok()
}

/// Calls `cid::Cid::read_bytes` on a byte string, which reads one
/// identifier at its head.
#[verifier::external_body]
fn read_bytes(bytes: &[u8]) -> (r: Option<::cid::Cid>)
    ensures
        match r {
            Some(cid) => cid_of_bytes(bytes@) == Some(outside_view(cid)),
            None => cid_of_bytes(bytes@) is None,
        },
{
    ::cid::Cid::read_bytes(bytes).ok()
}

/// Calls `to_string` of an identifier of the `cid` crate.
#[verifier::external_body]
fn write_text(cid: &::cid::Cid) -> (text: String)
    ensures
        text@ == cid_text(outside_view(*cid)),
{
    cid.to_string()
}

/// Calls `cid::Cid::to_bytes`.
#[verifier::external_body]
fn write_bytes(cid: &::cid::Cid) -> (bytes: Vec<u8>)
    ensures
        bytes@ == cid_bytes(outside_view(*cid)),
{
    cid.to_bytes()
}

/// Calls `multihash::Multihash::<32>::from_bytes`, which takes a byte
/// string that holds one multihash of at most 32 digest bytes and nothing
/// after it, and copies code and digest out of the result.
#[verifier::external_body]
fn read_multihash(bytes: &[u8]) -> (r: Option<Multihash>)
    ensures
        r is Some <==> multihash_of_bytes(bytes@) is Some,
        r matches Some(hash) ==> multihash_of_bytes(bytes@) == Some(hash@)
            && hash@.digest.len() <= 32,
{
    let hash = ::multihash::Multihash::<32>::from_bytes(bytes).ok()?;
    Some(Multihash { code: hash.code(), digest: hash.digest().to_vec() })
}

/// Calls `digest` on `multihash_codetable::Code::Sha2_256`, which gives a
/// multihash of code 0x12 with the 32 bytes of the SHA2-256 digest.
#[verifier::external_body]
fn hash_sha2_256(data: &[u8]) -> (hash: Multihash)
    ensures
        hash@.code == SHA2_256,
        hash@.digest == sha2_256(data@),
        hash@.digest.len() == 32,
{
    let hash = ::multihash_codetable::MultihashDigest::digest(
        &::multihash_codetable::Code::Sha2_256,
        data,
    );
    Multihash { code: hash.code(), digest: hash.digest().to_vec() }
}

/// Looks the code up with `multihash_codetable::Code::try_from` and, where
/// the table has it, calls `digest` on the entry; the multihash that comes
/// back carries the code it was asked for.
#[verifier::external_body]
fn hash_with(code: u64, data: &[u8]) -> (r: Option<Multihash>)
    ensures
        r is Some <==> digest_of(code, data@) is Some,
        r matches Some(hash) ==> hash@.code == code && digest_of(code, data@) == Some(
            hash@.digest,
        ),
{
    let entry = ::multihash_codetable::Code::try_from(code).ok()?;
    let hash = ::multihash_codetable::MultihashDigest::digest(&entry, data);
    Some(Multihash { code: hash.code(), digest: hash.digest().to_vec() })
}

impl Multihash {
    /// Reads a byte string that holds one multihash of at most 32 digest
    /// bytes and nothing else.
    pub fn from_bytes(bytes: &[u8]) -> (r: Option<Multihash>)
        ensures
            r is Some <==> multihash_of_bytes(bytes@) is Some,
            r matches Some(hash) ==> multihash_of_bytes(bytes@) == Some(hash@)
                && hash@.digest.len() <= 32,
    {
        read_multihash(bytes)
    }

    /// The SHA2-256 multihash of `data`.
    pub fn sha2_256(data: &[u8]) -> (hash: Multihash)
        ensures
            hash@ == (MultihashView { code: SHA2_256, digest: sha2_256(data@) }),
            hash@.digest.len() == 32,
    {
        hash_sha2_256(data)
    }

    /// The multihash of `data` under the hash function of the given code,
    /// if that function is supported.
    pub fn of_data(code: u64, data: &[u8]) -> (r: Option<Multihash>)
        ensures
            match r {
                Some(hash) => digest_of(code, data@) == Some(hash@.digest) && hash@.code == code,
                None => digest_of(code, data@) is None,
            },
    {
        hash_with(code, data)
    }
}

impl Cid {
    /// Reads an identifier from its text.
    pub fn from_text(text: &str) -> (r: Option<Cid>)
        ensures
            r is Some <==> cid_of_text(text@) is Some,
            r matches Some(cid) ==> cid_of_text(text@) == Some(cid@),
    {
        match read_text(text) {
            Some(cid) => Some(model_of(&cid)),
            None => None,
        }
    }

    /// Reads the identifier at the head of a byte string.
    pub fn from_bytes(bytes: &[u8]) -> (r: Option<Cid>)
        ensures
            r is Some <==> cid_of_bytes(bytes@) is Some,
            r matches Some(cid) ==> cid_of_bytes(bytes@) == Some(cid@),
    {
        match read_bytes(bytes) {
            Some(cid) => Some(model_of(&cid)),
            None => None,
        }
    }

    /// The text of the identifier.
    pub fn to_text(&self) -> (text: String)
        ensures
            text@ == cid_text(self@),
    {
        let cid = outside_of(self);
        write_text(&cid)
    }

    /// The bytes of the identifier.
    pub fn to_bytes(&self) -> (bytes: Vec<u8>)
        ensures
            bytes@ == cid_bytes(self@),
    {
        let cid = outside_of(self);
        write_bytes(&cid)
    }
}

} // verus!
