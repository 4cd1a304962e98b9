//! Types for the C programming language.

use vstd::prelude::*;

verus! {

/// Representation of ISO standards for C, optionally with GNU extension
/// support.
#[derive(Clone, Copy, Debug, Default, PartialEq, Eq, Structural)]
pub enum Standard {
    /// The C89 standard, published as ISO/IEC 9899:1990.
    ///
    /// This corresponds to `-std=c89` for GCC(-compatibles).
    #[default]
    C89,
    /// The C99 standard, published as ISO/IEC 9899:1999.
    ///
    /// This corresponds to `-std=c99` for GCC(-compatibles).
    C99,
    /// The C11 standard, published as ISO/IEC 9899:2011.
    ///
    /// This corresponds to `-std=c11` for GCC(-compatibles).
    C11,
    /// The C17 standard, published as ISO/IEC 9899:2018.
    ///
    /// This corresponds to `-std=c17` for GCC(-compatibles).
    C17,
    /// The C23 standard, published as ISO/IEC 9899:2024.
    ///
    /// This corresponds to `-std=c23` for GCC(-compatibles).
    C23,
    /// The C89 standard with GNU C extensions.
    ///
    /// This corresponds to `-std=gnu89` for GCC(-compatibles).
    Gnu89,
    /// The C99 standard with GNU C extensions.
    ///
    /// This corresponds to `-std=gnu99` for GCC(-compatibles).
    Gnu99,
    /// The C11 standard with GNU C extensions.
    ///
    /// This corresponds to `-std=gnu11` for GCC(-compatibles).
    Gnu11,
    /// The C17 standard with GNU C extensions.
    ///
    /// This corresponds to `-std=gnu17` for GCC(-compatibles).
    Gnu17,
    /// The C23 standard with GNU C extensions.
    ///
    /// This corresponds to `-std=gnu23` for GCC(-compatibles).
    Gnu23,
}

/// The compiler argument selecting a C standard.
pub open spec fn standard_arg(s: Standard) -> Seq<char> {
    match s {
        Standard::C89 => "-std=c89"@,
        Standard::C99 => "-std=c99"@,
        Standard::C11 => "-std=c11"@,
        Standard::C17 => "-std=c17"@,
        Standard::C23 => "-std=c23"@,
        Standard::Gnu89 => "-std=gnu89"@,
        Standard::Gnu99 => "-std=gnu99"@,
        Standard::Gnu11 => "-std=gnu11"@,
        Standard::Gnu17 => "-std=gnu17"@,
        Standard::Gnu23 => "-std=gnu23"@,
    }
}

impl Standard {
    /// Convert `self` to a GCC-compatible compiler argument setting the
    /// represented C standard.
    pub fn to_arg(self) -> (r: &'static str)
        ensures
            r@ == standard_arg(self),
    {
        match self {
            Standard::C89 => "-std=c89",
            Standard::C99 => "-std=c99",
            Standard::C11 => "-std=c11",
            Standard::C17 => "-std=c17",
            Standard::C23 => "-std=c23",
            Standard::Gnu89 => "-std=gnu89",
            Standard::Gnu99 => "-std=gnu99",
            Standard::Gnu11 => "-std=gnu11",
            Standard::Gnu17 => "-std=gnu17",
            Standard::Gnu23 => "-std=gnu23",
        }
    }

    /// The standard of the manifest's language model that this one mirrors.
    pub fn from_config(standard: crate::config::Standard) -> (r: Standard)
        ensures
            standard_arg(r) == "-std="@ + crate::config::standard_str(standard),
    {
        let r = match standard {
            crate::config::Standard::C89 => Standard::C89,
            crate::config::Standard::C99 => Standard::C99,
            crate::config::Standard::C11 => Standard::C11,
            crate::config::Standard::C17 => Standard::C17,
            crate::config::Standard::C23 => Standard::C23,
            crate::config::Standard::Gnu89 => Standard::Gnu89,
            crate::config::Standard::Gnu99 => Standard::Gnu99,
            crate::config::Standard::Gnu11 => Standard::Gnu11,
            crate::config::Standard::Gnu17 => Standard::Gnu17,
            crate::config::Standard::Gnu23 => Standard::Gnu23,
        };
        proof {
            reveal_strlit("-std=");
            reveal_strlit("-std=c89");
            reveal_strlit("-std=c99");
            reveal_strlit("-std=c11");
            reveal_strlit("-std=c17");
            reveal_strlit("-std=c23");
            reveal_strlit("-std=gnu89");
            reveal_strlit("-std=gnu99");
            reveal_strlit("-std=gnu11");
            reveal_strlit("-std=gnu17");
            reveal_strlit("-std=gnu23");
            reveal_strlit("c89");
            reveal_strlit("c99");
            reveal_strlit("c11");
            reveal_strlit("c17");
            reveal_strlit("c23");
            reveal_strlit("gnu89");
            reveal_strlit("gnu99");
            reveal_strlit("gnu11");
            reveal_strlit("gnu17");
            reveal_strlit("gnu23");
            assert(standard_arg(r) =~= "-std="@ + crate::config::standard_str(standard));
        }
        r
    }
}

} // verus!
