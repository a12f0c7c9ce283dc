//! The one-byte parameters of a job.

use crate::defaults;
use crate::error::CryptError;
use vstd::prelude::*;

verus! {

/// The tunable sizes of a job, each in one byte.
#[derive(Debug, Clone, Copy)]
pub struct Parameters {
    pub block_size: u8,
    pub keyed_hash_size: u8,
    pub iv_size: u8,
    pub tag_size: u8,
}

/// What a value amounts to under the bounds of the size called `name`.
pub open spec fn bounded(name: &'static str, value: u8, least: u8, limit: u8) -> Result<
    (),
    CryptError,
> {
    if least <= value < limit {
        Ok(())
    } else {
        Err(CryptError::Constraint { name, value: value as usize })
    }
}

/// Checks a value against the bounds of the size called `name`.
fn check_bounds(name: &'static str, value: u8, least: u8, limit: u8) -> (r: Result<(), CryptError>)
    ensures
        r == bounded(name, value, least, limit),
{
    if least <= value && value < limit {
        Ok(())
    } else {
        Err(CryptError::Constraint { name, value: value as usize })
    }
}

impl Parameters {
    /// The first size that lies outside its bounds, if there is one: block,
    /// keyed hash, IV, tag.
    pub open spec fn verdict(self) -> Result<(), CryptError> {
        let block = bounded(
            "Block Size",
            self.block_size,
            defaults::BLOCK_SIZE_RANGE.start,
            defaults::BLOCK_SIZE_RANGE.end,
        );
        let hash = bounded(
            "Keyed Hash Size",
            self.keyed_hash_size,
            defaults::KEYED_HASH_SIZE_RANGE.start,
            defaults::KEYED_HASH_SIZE_RANGE.end,
        );
        let iv = bounded(
            "IV Size",
            self.iv_size,
            defaults::IV_SIZE_RANGE.start,
            defaults::IV_SIZE_RANGE.end,
        );
        let tag = bounded(
            "Tag Size",
            self.tag_size,
            defaults::TAG_SIZE_RANGE.start,
            defaults::TAG_SIZE_RANGE.end,
        );
        if block is Err {
            block
        } else if hash is Err {
            hash
        } else if iv is Err {
            iv
        } else {
            tag
        }
    }

    /// The four sizes in the order of their bytes.
    pub open spec fn bytes(self) -> Seq<u8> {
        seq![self.block_size, self.keyed_hash_size, self.iv_size, self.tag_size]
    }

    /// Checks every size against its bounds.
    pub fn check(&self) -> (r: Result<(), CryptError>)
        ensures
            r == self.verdict(),
    {
        match check_bounds(
            "Block Size",
            self.block_size,
            defaults::BLOCK_SIZE_RANGE.start,
            defaults::BLOCK_SIZE_RANGE.end,
        ) {
            Err(e) => return Err(e),
            Ok(_) => {},
        }
        match check_bounds(
            "Keyed Hash Size",
            self.keyed_hash_size,
            defaults::KEYED_HASH_SIZE_RANGE.start,
            defaults::KEYED_HASH_SIZE_RANGE.end,
        ) {
            Err(e) => return Err(e),
            Ok(_) => {},
        }
        match check_bounds(
            "IV Size",
            self.iv_size,
            defaults::IV_SIZE_RANGE.start,
            defaults::IV_SIZE_RANGE.end,
        ) {
            Err(e) => return Err(e),
            Ok(_) => {},
        }
        check_bounds(
            "Tag Size",
            self.tag_size,
            defaults::TAG_SIZE_RANGE.start,
            defaults::TAG_SIZE_RANGE.end,
        )
    }

    /// The number of bytes that the parameters take.
    pub fn paramsLen() -> (len: usize)
        ensures
            len == 4,
            forall|p: Parameters| #[trigger] p.bytes().len() == len,
    {
        let defaults: Vec<u8> = Self::default().to_bytes();
        defaults.len()
    }

    /// The four sizes, one byte each: block, keyed hash, IV, tag.
    pub fn to_bytes(self) -> (bytes: Vec<u8>)
        ensures
            bytes@ == self.bytes(),
    {
        let bytes = vec![self.block_size, self.keyed_hash_size, self.iv_size, self.tag_size];
        assert(bytes@ =~= self.bytes());
        bytes
    }

    /// The parameters that the first four bytes hold; none where there are
    /// fewer.
    pub fn from_bytes(parameters: Vec<u8>) -> (r: Option<Self>)
        ensures
            match r {
                Some(p) => parameters@.len() >= 4 && parameters@.take(4) == p.bytes(),
                None => parameters@.len() < 4,
            },
    {
        if parameters.len() < 4 {
            None
        } else {
            let p = Parameters {
                block_size: parameters[0],
                keyed_hash_size: parameters[1],
                iv_size: parameters[2],
                tag_size: parameters[3],
            };
            assert(parameters@.take(4) =~= p.bytes());
            Some(p)
        }
    }
}

impl Default for Parameters {
    /// The default of every size.
    fn default() -> (p: Self)
        ensures
            p == (Parameters {
                block_size: defaults::BLOCK_SIZE,
                keyed_hash_size: defaults::KEYED_HASH_SIZE,
                iv_size: defaults::IV_SIZE,
                tag_size: defaults::TAG_SIZE,
            }),
            p.verdict() is Ok,
    {
        Parameters {
            block_size: defaults::BLOCK_SIZE,
            keyed_hash_size: defaults::KEYED_HASH_SIZE,
            iv_size: defaults::IV_SIZE,
            tag_size: defaults::TAG_SIZE,
        }
    }
}

} // verus!
