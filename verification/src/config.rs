//! Game presets and the resolution of a pool configuration.
//!
//! A game is either one of two fixed presets or a custom game whose pool
//! parameters the caller supplies. Resolution turns a selection into a
//! `PoolConfig` or fails with the reason.

use vstd::prelude::*;
use vstd::string::StringExecFns;

verus! {

/// Selects one of the fixed presets or the custom mode.
#[derive(Clone, Copy, Debug, PartialEq, Eq)]
pub enum GameType {
    /// 6 numbers out of 49, one pool.
    Lotto,
    /// 5 numbers out of 50 and 2 numbers out of 12.
    Eurojackpot,
    /// Pool parameters supplied by the caller.
    Custom,
}

/// One drawing pool: how many numbers are taken, and from how large a range.
#[derive(Clone, Copy, Debug, PartialEq, Eq)]
pub struct SubConfig {
    pub number_count: usize,
    pub pool_size: usize,
}

/// The active configuration: a primary pool, and optionally a second pool
/// drawn independently for the same row.
#[derive(Clone, Copy, Debug, PartialEq, Eq)]
pub struct PoolConfig {
    pub primary: SubConfig,
    pub secondary: Option<SubConfig>,
}

/// Why a custom game could not be resolved.
#[derive(Clone, Copy, Debug, PartialEq, Eq)]
pub enum ResolveError {
    /// `numbercount_a` or `poolsize_a` is missing.
    MissingPrimary,
    /// `numbercount_b` was given without `poolsize_b`.
    MissingSecondaryPoolSize,
}

impl SubConfig {
    /// A pool is drawable when it asks for no more numbers than it holds.
    pub open spec fn valid(self) -> bool {
        self.number_count <= self.pool_size
    }
}

impl PoolConfig {
    pub open spec fn valid(self) -> bool {
        &&& self.primary.valid()
        &&& match self.secondary {
            Some(s) => s.valid(),
            None => true,
        }
    }

    pub fn is_valid(&self) -> (r: bool)
        ensures
            r == self.valid(),
    {
        self.primary.number_count <= self.primary.pool_size && match self.secondary {
            Some(s) => s.number_count <= s.pool_size,
            None => true,
        }
    }
}

/// A configuration with a single pool.
pub open spec fn single_config(n: usize, p: usize) -> PoolConfig {
    PoolConfig { primary: SubConfig { number_count: n, pool_size: p }, secondary: None }
}

/// A configuration with a second pool; the second pool is active only when
/// both of its parameters are positive.
pub open spec fn paired_config(n1: usize, p1: usize, n2: usize, p2: usize) -> PoolConfig {
    PoolConfig {
        primary: SubConfig { number_count: n1, pool_size: p1 },
        secondary: if n2 > 0 && p2 > 0 {
            Some(SubConfig { number_count: n2, pool_size: p2 })
        } else {
            None
        },
    }
}

pub open spec fn lotto_config() -> PoolConfig {
    single_config(6, 49)
}

pub open spec fn eurojackpot_config() -> PoolConfig {
    paired_config(5, 50, 2, 12)
}

/// Maps a game selection and the custom parameters to the configuration that
/// is played, or to the reason the selection is unusable.
///
/// The custom parameters are consulted only for `GameType::Custom`. Giving
/// `poolsize_b` without `numbercount_b` is accepted and leaves the second
/// pool inactive; the reverse is an error.
pub fn resolve_game(
    game: GameType,
    numbercount_a: Option<usize>,
    poolsize_a: Option<usize>,
    numbercount_b: Option<usize>,
    poolsize_b: Option<usize>,
) -> (r: Result<PoolConfig, ResolveError>)
    ensures
        game == GameType::Lotto ==> r == Ok::<PoolConfig, ResolveError>(lotto_config()),
        game == GameType::Eurojackpot ==> r == Ok::<PoolConfig, ResolveError>(
            eurojackpot_config(),
        ),
        game == GameType::Custom && (numbercount_a is None || poolsize_a is None) ==> r
            == Err::<PoolConfig, ResolveError>(ResolveError::MissingPrimary),
        game == GameType::Custom && numbercount_a is Some && poolsize_a is Some && numbercount_b
            is Some && poolsize_b is None ==> r == Err::<PoolConfig, ResolveError>(
            ResolveError::MissingSecondaryPoolSize,
        ),
        game == GameType::Custom && numbercount_a is Some && poolsize_a is Some && numbercount_b
            is None ==> r == Ok::<PoolConfig, ResolveError>(
            single_config(numbercount_a.unwrap(), poolsize_a.unwrap()),
        ),
        game == GameType::Custom && numbercount_a is Some && poolsize_a is Some && numbercount_b
            is Some && poolsize_b is Some ==> r == Ok::<PoolConfig, ResolveError>(
            paired_config(
                numbercount_a.unwrap(),
                poolsize_a.unwrap(),
                numbercount_b.unwrap(),
                poolsize_b.unwrap(),
            ),
        ),
{
    match game {
        GameType::Lotto => Ok(
            PoolConfig { primary: SubConfig { number_count: 6, pool_size: 49 }, secondary: None },
        ),
        GameType::Eurojackpot => Ok(
            PoolConfig {
                primary: SubConfig { number_count: 5, pool_size: 50 },
                secondary: Some(SubConfig { number_count: 2, pool_size: 12 }),
            },
        ),
        GameType::Custom => {
            let (na, pa) = match (numbercount_a, poolsize_a) {
                (Some(na), Some(pa)) => (na, pa),
                _ => {
                    return Err(ResolveError::MissingPrimary);
                },
            };
            match numbercount_b {
                None => Ok(
                    PoolConfig {
                        primary: SubConfig { number_count: na, pool_size: pa },
                        secondary: None,
                    },
                ),
                Some(nb) => match poolsize_b {
                    None => Err(ResolveError::MissingSecondaryPoolSize),
                    Some(pb) => {
                        let secondary = if nb > 0 && pb > 0 {
                            Some(SubConfig { number_count: nb, pool_size: pb })
                        } else {
                            None
                        };
                        Ok(
                            PoolConfig {
                                primary: SubConfig { number_count: na, pool_size: pa },
                                secondary,
                            },
                        )
                    },
                },
            }
        },
    }
}

impl ResolveError {
    /// The user-facing description of the error.
    pub fn message(&self) -> (r: String)
        ensures
            *self == ResolveError::MissingPrimary ==> r@ == "No numbercount_a and/or poolsize_a set"@,
            *self == ResolveError::MissingSecondaryPoolSize ==> r@
                == "poolsize_b must be set when numbercount_b is set"@,
    {
        match self {
            ResolveError::MissingPrimary => String::from_str(
                "No numbercount_a and/or poolsize_a set",
            ),
            ResolveError::MissingSecondaryPoolSize => String::from_str(
                "poolsize_b must be set when numbercount_b is set",
            ),
        }
    }
}

} // verus!
