//! The compiler's version, as far as the choice of sanitizer flag needs it.

use vstd::prelude::*;
use vstd::string::*;
use crate::decimal::{decimal_value, is_decimal, parse_decimal};
use crate::text::{contains, has_infix, has_prefix, index_of, index_of_char, strip_prefix};

verus! {

/// A compiler release: major and minor version.
#[derive(Clone, Copy, Debug, PartialEq, Eq, PartialOrd, Ord, Hash, Structural)]
pub struct RustVersion {
    pub major: u32,
    pub minor: u32,
}

/// Why a version line could not be read.
#[derive(Clone, Copy, Debug, PartialEq, Eq, Structural)]
pub enum VersionError {
    /// The line does not start with `rustc `.
    NoPrefix,
    /// The major version is not a number.
    BadMajor,
    /// No minor version follows the major one.
    MissingMinor,
    /// The minor version is not a number.
    BadMinor,
}

/// A run of decimal digits whose value fits in `u32`.
pub open spec fn is_u32_text(s: Seq<char>) -> bool {
    is_decimal(s) && decimal_value(s) <= u32::MAX
}

/// What a `rustc --version` line says: the major and minor version that
/// follow `rustc `, separated by dots.
pub open spec fn parse_version(s: Seq<char>) -> Result<RustVersion, VersionError> {
    if !has_prefix(s, "rustc "@) {
        Err(VersionError::NoPrefix)
    } else {
        let rest = s.subrange("rustc "@.len() as int, s.len() as int);
        let k = index_of_char(rest, '.');
        let major = rest.subrange(0, k as int);
        if !is_u32_text(major) {
            Err(VersionError::BadMajor)
        } else if k == rest.len() {
            Err(VersionError::MissingMinor)
        } else {
            let rest2 = rest.subrange(k as int + 1, rest.len() as int);
            let minor = rest2.subrange(0, index_of_char(rest2, '.') as int);
            if !is_u32_text(minor) {
                Err(VersionError::BadMinor)
            } else {
                Ok(
                    RustVersion {
                        major: decimal_value(major) as u32,
                        minor: decimal_value(minor) as u32,
                    },
                )
            }
        }
    }
}

/// `a` is the same release as `b` or a later one.
pub open spec fn at_least(a: RustVersion, b: RustVersion) -> bool {
    a.major > b.major || (a.major == b.major && a.minor >= b.minor)
}

fn parse_u32(s: &str) -> (r: Option<u32>)
    ensures
        r is Some <==> is_u32_text(s@),
        r matches Some(n) ==> n == decimal_value(s@),
{
    match parse_decimal(s) {
        Some(n) => if n <= u32::MAX as usize {
            Some(n as u32)
        } else {
            None
        },
        None => None,
    }
}

impl RustVersion {
    /// Reads a `rustc --version` line.
    pub fn parse(s: &str) -> (r: Result<RustVersion, VersionError>)
        ensures
            r == parse_version(s@),
    {
        proof {
            reveal_strlit("rustc ");
        }
        let rest = match strip_prefix(s, "rustc ") {
            Some(rest) => rest,
            None => return Err(VersionError::NoPrefix),
        };
        assert(rest@ =~= s@.subrange("rustc "@.len() as int, s@.len() as int));
        let n = rest.unicode_len();
        let k = index_of(rest, '.');
        let major = match parse_u32(rest.substring_char(0, k)) {
            Some(m) => m,
            None => return Err(VersionError::BadMajor),
        };
        if k == n {
            return Err(VersionError::MissingMinor);
        }
        let rest2 = rest.substring_char(k + 1, n);
        let k2 = index_of(rest2, '.');
        let minor = match parse_u32(rest2.substring_char(0, k2)) {
            Some(m) => m,
            None => return Err(VersionError::BadMinor),
        };
        Ok(RustVersion { major, minor })
    }

    /// Whether this release is `other` or a later one.
    pub fn is_at_least(&self, other: &RustVersion) -> (r: bool)
        ensures
            r == at_least(*self, *other),
    {
        self.major > other.major || (self.major == other.major && self.minor >= other.minor)
    }

    /// Whether sanitizers are stable in this release: from 1.85 on.
    pub fn has_sanitizers_on_stable(&self) -> (r: bool)
        ensures
            r == at_least(*self, RustVersion { major: 1, minor: 85 }),
    {
        let release_that_stabilized_sanitizers = RustVersion { major: 1, minor: 85 };
        self.is_at_least(&release_that_stabilized_sanitizers)
    }
}

impl std::str::FromStr for RustVersion {
    type Err = VersionError;

    fn from_str(s: &str) -> (r: Result<RustVersion, VersionError>)
        ensures
            r == parse_version(s@),
    {
        RustVersion::parse(s)
    }
}

/// The compiler flag that selects a sanitizer: `-Csanitizer` where sanitizers
/// are stable, else `-Zsanitizer`.
pub fn sanitizer_flag(version: &RustVersion) -> (r: &'static str)
    ensures
        r@ == if at_least(*version, RustVersion { major: 1, minor: 85 }) {
            "-Csanitizer"@
        } else {
            "-Zsanitizer"@
        },
{
    if version.has_sanitizers_on_stable() {
        "-Csanitizer"
    } else {
        "-Zsanitizer"
    }
}

/// Whether the compiler is a nightly one: its version line says so, or
/// nightly features were unlocked on a stable compiler (`bootstrap`).
pub fn is_nightly(version_string: &str, bootstrap: bool) -> (r: bool)
    ensures
        r == (has_infix(version_string@, "-nightly "@) || bootstrap),
{
    contains(version_string, "-nightly ") || bootstrap
}

} // verus!
