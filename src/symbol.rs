//! The abstract barcode: a grid of light and dark modules with its version
//! and error correction level.

use vstd::prelude::*;
use crate::cli::Ecc;
use crate::metadata::{self, Extractor, Metadata};

verus! {

/// The version of a symbol, by family.
#[derive(Clone, Copy, Debug, PartialEq, Eq, Structural)]
pub enum SymbolVersion {
    /// A normal symbol, versions 1 to 40.
    Normal(i16),
    /// A Micro symbol, versions M1 to M4.
    Micro(i16),
    /// A rectangular Micro symbol: its height and its width in modules.
    RectMicro(i16, i16),
}

impl SymbolVersion {
    /// A Micro symbol of a version that exists.
    pub open spec fn spec_is_micro(self) -> bool {
        match self {
            SymbolVersion::Micro(v) => 1 <= v <= 4,
            _ => false,
        }
    }
}

/// A symbol. `modules` holds `width * height` modules row by row, `true`
/// for a dark module.
#[derive(Clone, Debug)]
pub struct Symbol {
    pub width: usize,
    pub height: usize,
    pub modules: Vec<bool>,
    pub version: SymbolVersion,
    pub ecc: Ecc,
}

/// The largest side of any symbol, in modules.
pub const MAX_SIDE: usize = 177;

impl Symbol {
    /// The modules fill the grid, whose sides are those of an actual symbol.
    pub open spec fn wf(&self) -> bool {
        &&& 0 < self.width <= MAX_SIDE
        &&& 0 < self.height <= MAX_SIDE
        &&& self.modules@.len() == self.width * self.height
    }

    /// The metadata that the version and level give.
    pub open spec fn spec_metadata(&self) -> Metadata {
        Metadata {
            symbol_version: match self.version {
                SymbolVersion::Normal(v) => metadata::Version(v as usize, None),
                SymbolVersion::Micro(v) => metadata::Version(v as usize, None),
                SymbolVersion::RectMicro(h, w) => metadata::Version(h as usize, Some(w as usize)),
            },
            error_correction_level: self.ecc,
        }
    }

    /// Whether the symbol is a Micro symbol.
    pub fn is_micro(&self) -> (r: bool)
        ensures
            r == self.version.spec_is_micro(),
    {
        match self.version {
            SymbolVersion::Micro(v) => 1 <= v && v <= 4,
            _ => false,
        }
    }
}

impl Extractor for Symbol {
    fn metadata(&self) -> (r: Metadata)
        ensures
            r == self.spec_metadata(),
    {
        let raw = match self.version {
            SymbolVersion::Normal(v) | SymbolVersion::Micro(v) => (v as usize, None),
            SymbolVersion::RectMicro(h, w) => (h as usize, Some(w as usize)),
        };
        Metadata::new(metadata::Version::new(raw), self.ecc)
    }
}

} // verus!
