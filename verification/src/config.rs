//! Startup configuration.
//!
//! The command line is parsed outside the library; what arrives here are
//! the raw byte strings of the numeric flags. This module decides what
//! they mean: a numeric flag is a nonempty string of decimal digits whose
//! value lies in the accepted range, a missing flag falls back to its
//! default, and anything else is a configuration error naming the flag.
//! The module also decides which display pixel layouts the compositor's
//! byte order can serve.

use vstd::prelude::*;

verus! {

/// Default frame width, in pixels.
pub const DEFAULT_WIDTH: u32 = 1600;

/// Default frame height, in pixels.
pub const DEFAULT_HEIGHT: u32 = 1200;

/// Default antialias factor: rays per pixel axis.
pub const DEFAULT_AA: u32 = 4;

/// Largest accepted frame edge, in pixels.
pub const MAX_DIM: u32 = 0x4000;

/// Largest accepted antialias factor.
pub const MAX_AA_CONFIG: u32 = 256;

/// Whether a byte string is a nonempty run of decimal digits.
pub open spec fn spec_is_digits(s: Seq<u8>) -> bool {
    s.len() > 0 && forall|i: int| 0 <= i < s.len() ==> 0x30 <= #[trigger] s[i] <= 0x39
}

/// The number a run of decimal digits denotes.
pub open spec fn spec_digits_value(s: Seq<u8>) -> int
    decreases s.len(),
{
    if s.len() == 0 {
        0int
    } else {
        spec_digits_value(s.drop_last()) * 10 + (s.last() - 0x30)
    }
}

/// A run of digits never denotes a negative number.
pub proof fn lemma_digits_value_nonneg(s: Seq<u8>)
    requires
        forall|i: int| 0 <= i < s.len() ==> 0x30 <= #[trigger] s[i] <= 0x39,
    ensures
        spec_digits_value(s) >= 0,
    decreases s.len(),
{
    if s.len() > 0 {
        lemma_digits_value_nonneg(s.drop_last());
        assert(spec_digits_value(s.drop_last()) * 10 >= 0) by (nonlinear_arith)
            requires
                spec_digits_value(s.drop_last()) >= 0,
        ;
    }
}

/// Parses an unsigned decimal number, exactly when the string is a
/// nonempty run of digits denoting a value that fits.
pub fn parse_u32(s: &[u8]) -> (r: Option<u32>)
    ensures
        match r {
            Some(v) => spec_is_digits(s@) && v == spec_digits_value(s@),
            None => !spec_is_digits(s@) || spec_digits_value(s@) > u32::MAX,
        },
{
    if s.len() == 0 {
        return None;
    }
    let mut acc: u64 = 0;
    let mut i: usize = 0;
    while i < s.len()
        invariant
            i <= s.len(),
            forall|j: int| 0 <= j < i ==> 0x30 <= #[trigger] s@[j] <= 0x39,
            acc <= 0x1_0000_0000,
            if spec_digits_value(s@.take(i as int)) <= u32::MAX {
                acc == spec_digits_value(s@.take(i as int))
            } else {
                acc == 0x1_0000_0000
            },
        decreases s.len() - i,
    {
        let b = s[i];
        if b < 0x30 || b > 0x39 {
            return None;
        }
        let ghost prefix = s@.take(i as int);
        let ghost next_prefix = s@.take(i as int + 1);
        proof {
            assert(next_prefix.drop_last() =~= prefix);
            assert(next_prefix.last() == s@[i as int]);
            lemma_digits_value_nonneg(prefix);
        }
        acc = acc * 10 + (b - 0x30) as u64;
        if acc > 0xFFFF_FFFF {
            acc = 0x1_0000_0000;
        }
        proof {
            let v = spec_digits_value(prefix);
            let w = spec_digits_value(next_prefix);
            assert(w == v * 10 + (s@[i as int] - 0x30));
            if v > u32::MAX {
                assert(w > u32::MAX);
            }
        }
        i = i + 1;
    }
    proof {
        assert(s@.take(i as int) =~= s@);
    }
    if acc > 0xFFFF_FFFF {
        None
    } else {
        Some(acc as u32)
    }
}

/// The resolved startup configuration.
#[derive(Clone, Copy, Debug, PartialEq, Eq, Structural)]
pub struct Config {
    pub width: u32,
    pub height: u32,
    pub aa: u32,
    pub fps: bool,
}

/// Which flag made the configuration unusable.
#[derive(Clone, Copy, Debug, PartialEq, Eq, Structural)]
pub enum ConfigError {
    BadWidth,
    BadHeight,
    BadAntialias,
}

/// The byte strings an option carries, seen abstractly.
pub open spec fn spec_view_opt(o: Option<&[u8]>) -> Option<Seq<u8>> {
    match o {
        Option::Some(s) => Option::Some(s@),
        Option::None => Option::None,
    }
}

/// Whether a supplied flag fails to denote a number in `[lo, hi]`; a
/// missing flag never fails.
pub open spec fn spec_opt_bad(o: Option<Seq<u8>>, lo: int, hi: int) -> bool {
    match o {
        Option::Some(s) => !(spec_is_digits(s) && lo <= spec_digits_value(s) <= hi),
        Option::None => false,
    }
}

/// The value a flag resolves to: its denoted number, or the default when
/// it is missing.
pub open spec fn spec_opt_value(o: Option<Seq<u8>>, dflt: int) -> int {
    match o {
        Option::Some(s) => spec_digits_value(s),
        Option::None => dflt,
    }
}

/// Resolves the numeric command-line flags into a configuration: defaults
/// for missing flags, the first unusable flag reported as the error.
pub fn resolve_config(
    width: Option<&[u8]>,
    height: Option<&[u8]>,
    antialias: Option<&[u8]>,
    fps: bool,
) -> (r: Result<Config, ConfigError>)
    ensures
        ({
            let w = spec_view_opt(width);
            let h = spec_view_opt(height);
            let a = spec_view_opt(antialias);
            match r {
                Ok(c) => {
                    &&& !spec_opt_bad(w, 1, MAX_DIM as int)
                    &&& !spec_opt_bad(h, 1, MAX_DIM as int)
                    &&& !spec_opt_bad(a, 1, MAX_AA_CONFIG as int)
                    &&& c.width == spec_opt_value(w, DEFAULT_WIDTH as int)
                    &&& c.height == spec_opt_value(h, DEFAULT_HEIGHT as int)
                    &&& c.aa == spec_opt_value(a, DEFAULT_AA as int)
                    &&& c.fps == fps
                },
                Err(ConfigError::BadWidth) => spec_opt_bad(w, 1, MAX_DIM as int),
                Err(ConfigError::BadHeight) => {
                    &&& !spec_opt_bad(w, 1, MAX_DIM as int)
                    &&& spec_opt_bad(h, 1, MAX_DIM as int)
                },
                Err(ConfigError::BadAntialias) => {
                    &&& !spec_opt_bad(w, 1, MAX_DIM as int)
                    &&& !spec_opt_bad(h, 1, MAX_DIM as int)
                    &&& spec_opt_bad(a, 1, MAX_AA_CONFIG as int)
                },
            }
        }),
{
    let w = match width {
        Option::Some(s) => match parse_u32(s) {
            Option::Some(v) => {
                if v < 1 || v > MAX_DIM {
                    return Err(ConfigError::BadWidth);
                }
                v
            },
            Option::None => {
                return Err(ConfigError::BadWidth);
            },
        },
        Option::None => DEFAULT_WIDTH,
    };
    let h = match height {
        Option::Some(s) => match parse_u32(s) {
            Option::Some(v) => {
                if v < 1 || v > MAX_DIM {
                    return Err(ConfigError::BadHeight);
                }
                v
            },
            Option::None => {
                return Err(ConfigError::BadHeight);
            },
        },
        Option::None => DEFAULT_HEIGHT,
    };
    let a = match antialias {
        Option::Some(s) => match parse_u32(s) {
            Option::Some(v) => {
                if v < 1 || v > MAX_AA_CONFIG {
                    return Err(ConfigError::BadAntialias);
                }
                v
            },
            Option::None => {
                return Err(ConfigError::BadAntialias);
            },
        },
        Option::None => DEFAULT_AA,
    };
    Ok(Config { width: w, height: h, aa: a, fps })
}

/// A display surface's pixel layout, as far as the compositor cares.
#[derive(Clone, Copy, Debug, PartialEq, Eq, Structural)]
pub enum PixelLayout {
    /// 32-bit ARGB.
    Argb8888,
    /// 32-bit RGB with an unused byte.
    Rgb888,
    /// Anything else.
    Other,
}

/// Whether the compositor can serve a display surface of this layout; any
/// other layout is a fatal startup error.
pub fn layout_supported(l: PixelLayout) -> (r: bool)
    ensures
        r == (l == PixelLayout::Argb8888 || l == PixelLayout::Rgb888),
{
    match l {
        PixelLayout::Argb8888 => true,
        PixelLayout::Rgb888 => true,
        PixelLayout::Other => false,
    }
}

} // verus!
