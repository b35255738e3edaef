//! What a symbol reports about itself: its version and error correction level.

use vstd::prelude::*;
use vstd::string::*;
use crate::cli::Ecc;
use crate::text::{decimal, push_decimal};

verus! {

/// Version of a symbol: the version number, or for a rectangular symbol its
/// height, together with its width.
#[derive(Clone, Copy, Debug, PartialEq, Eq, Structural)]
pub struct Version(pub usize, pub Option<usize>);

impl Version {
    /// Constructs a new version.
    pub fn new(version: (usize, Option<usize>)) -> (r: Self)
        ensures
            r.0 == version.0,
            r.1 == version.1,
    {
        Self(version.0, version.1)
    }

    /// Gets the version.
    pub fn to_raw(self) -> (r: (usize, Option<usize>))
        ensures
            r == (self.0, self.1),
    {
        (self.0, self.1)
    }

    /// How the version reads: `R<height>x<width>` for a rectangular symbol,
    /// the bare number otherwise.
    pub open spec fn spec_to_string(self) -> Seq<char> {
        match self.1 {
            Some(width) => seq!['R'] + decimal(self.0 as nat) + seq!['x'] + decimal(width as nat),
            None => decimal(self.0 as nat),
        }
    }

    /// The version as text.
    pub fn to_string(&self) -> (r: String)
        ensures
            r@ == self.spec_to_string(),
    {
        let version = self.to_raw();
        let mut s = String::new();
        match version.1 {
            Some(width) => {
                s.append("R");
                push_decimal(&mut s, version.0);
                s.append("x");
                push_decimal(&mut s, width);
                proof {
                    reveal_strlit("R");
                    reveal_strlit("x");
                }
                assert(s@ =~= self.spec_to_string());
            },
            None => {
                push_decimal(&mut s, version.0);
                assert(s@ =~= self.spec_to_string());
            },
        }
        s
    }
}

/// Metadata of a symbol.
#[derive(Debug, PartialEq, Eq, Structural)]
pub struct Metadata {
    pub symbol_version: Version,
    pub error_correction_level: Ecc,
}

/// Something that can report the metadata of a symbol.
pub trait Extractor {
    /// Extracts the metadata.
    fn metadata(&self) -> Metadata;
}

impl Metadata {
    /// Constructs a new metadata.
    pub fn new(symbol_version: Version, error_correction_level: Ecc) -> (r: Self)
        ensures
            r.symbol_version == symbol_version,
            r.error_correction_level == error_correction_level,
    {
        Self { symbol_version, error_correction_level }
    }

    /// Gets the symbol version.
    pub fn symbol_version(&self) -> (r: Version)
        ensures
            r == self.symbol_version,
    {
        self.symbol_version
    }

    /// Gets the error correction level.
    pub fn error_correction_level(&self) -> (r: Ecc)
        ensures
            r == self.error_correction_level,
    {
        self.error_correction_level
    }
}

} // verus!
