use lottogen::config::GameType;
use lottogen::config::PoolConfig;
use lottogen::config::ResolveError;
use lottogen::config::SubConfig;
use lottogen::config::resolve_game;

#[test]
fn lotto_preset() {
    let r = resolve_game(GameType::Lotto, None, None, None, None);
    assert_eq!(
        r,
        Ok(PoolConfig {
            primary: SubConfig { number_count: 6, pool_size: 49 },
            secondary: None,
        })
    );
}

#[test]
fn eurojackpot_preset() {
    let r = resolve_game(GameType::Eurojackpot, None, None, None, None);
    assert_eq!(
        r,
        Ok(PoolConfig {
            primary: SubConfig { number_count: 5, pool_size: 50 },
            secondary: Some(SubConfig { number_count: 2, pool_size: 12 }),
        })
    );
}

#[test]
fn presets_ignore_custom_parameters() {
    let r = resolve_game(GameType::Lotto, Some(1), Some(2), Some(3), Some(4));
    assert_eq!(
        r,
        Ok(PoolConfig {
            primary: SubConfig { number_count: 6, pool_size: 49 },
            secondary: None,
        })
    );
}

#[test]
fn custom_missing_primary() {
    let r = resolve_game(GameType::Custom, None, None, None, None);
    assert_eq!(r, Err(ResolveError::MissingPrimary));

    let r = resolve_game(GameType::Custom, Some(3), None, None, None);
    assert_eq!(r, Err(ResolveError::MissingPrimary));

    let r = resolve_game(GameType::Custom, None, Some(10), None, None);
    assert_eq!(r, Err(ResolveError::MissingPrimary));
}

#[test]
fn custom_missing_secondary_poolsize() {
    let r = resolve_game(GameType::Custom, Some(3), Some(10), Some(1), None);
    assert_eq!(r, Err(ResolveError::MissingSecondaryPoolSize));
}

#[test]
fn custom_single_pool() {
    let r = resolve_game(GameType::Custom, Some(3), Some(10), None, None);
    assert_eq!(
        r,
        Ok(PoolConfig {
            primary: SubConfig { number_count: 3, pool_size: 10 },
            secondary: None,
        })
    );
}

#[test]
fn custom_two_pools() {
    let r = resolve_game(GameType::Custom, Some(3), Some(10), Some(2), Some(8));
    assert_eq!(
        r,
        Ok(PoolConfig {
            primary: SubConfig { number_count: 3, pool_size: 10 },
            secondary: Some(SubConfig { number_count: 2, pool_size: 8 }),
        })
    );
}

#[test]
fn custom_poolsize_b_alone_is_ignored() {
    let r = resolve_game(GameType::Custom, Some(3), Some(10), None, Some(8));
    assert_eq!(
        r,
        Ok(PoolConfig {
            primary: SubConfig { number_count: 3, pool_size: 10 },
            secondary: None,
        })
    );
}

#[test]
fn custom_zero_secondary_is_inactive() {
    let r = resolve_game(GameType::Custom, Some(3), Some(10), Some(0), Some(8));
    assert_eq!(
        r,
        Ok(PoolConfig {
            primary: SubConfig { number_count: 3, pool_size: 10 },
            secondary: None,
        })
    );

    let r = resolve_game(GameType::Custom, Some(3), Some(10), Some(2), Some(0));
    assert_eq!(
        r,
        Ok(PoolConfig {
            primary: SubConfig { number_count: 3, pool_size: 10 },
            secondary: None,
        })
    );
}

#[test]
fn error_messages_name_the_missing_parameter() {
    let primary = ResolveError::MissingPrimary.message();
    assert!(primary.contains("numbercount_a"));
    assert!(primary.contains("poolsize_a"));
    assert_eq!(primary, "No numbercount_a and/or poolsize_a set");

    let secondary = ResolveError::MissingSecondaryPoolSize.message();
    assert!(secondary.contains("poolsize_b"));
    assert_eq!(secondary, "poolsize_b must be set when numbercount_b is set");
}

#[test]
fn validity_of_configurations() {
    let ok = PoolConfig {
        primary: SubConfig { number_count: 6, pool_size: 49 },
        secondary: None,
    };
    assert!(ok.is_valid());

    let too_many = PoolConfig {
        primary: SubConfig { number_count: 50, pool_size: 49 },
        secondary: None,
    };
    assert!(!too_many.is_valid());

    let bad_secondary = PoolConfig {
        primary: SubConfig { number_count: 5, pool_size: 50 },
        secondary: Some(SubConfig { number_count: 13, pool_size: 12 }),
    };
    assert!(!bad_secondary.is_valid());
}
