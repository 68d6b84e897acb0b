use lottogen::config::GameType;
use lottogen::config::resolve_game;
use lottogen::field::generate_field;
use lottogen::field::generate_rows;

fn check_field(field: &[usize], number_count: usize, pool_size: usize) {
    assert_eq!(field.len(), number_count);
    for &v in field {
        assert!(1 <= v && v <= pool_size);
    }
    for w in field.windows(2) {
        assert!(w[0] < w[1], "not strictly ascending: {:?}", field);
    }
}

#[test]
fn field_is_distinct_sorted_and_in_range() {
    for _ in 0..200 {
        let f = generate_field(6, 49);
        check_field(&f, 6, 49);
    }
}

#[test]
fn field_with_count_equal_to_pool_holds_every_number() {
    for _ in 0..20 {
        let f = generate_field(5, 5);
        assert_eq!(f, vec![1, 2, 3, 4, 5]);
    }
}

#[test]
fn field_with_zero_count_is_empty() {
    let f = generate_field(0, 7);
    assert!(f.is_empty());
}

#[test]
fn field_frequencies_are_roughly_fair() {
    // Each of the 10 pool values should be drawn in about 3/10 of the
    // trials; with 20000 trials a wide band around the expected 6000
    // occurrences is ample and keeps the check stable.
    let trials = 20000;
    let mut counts = [0usize; 11];
    for _ in 0..trials {
        for v in generate_field(3, 10) {
            counts[v] += 1;
        }
    }
    for v in 1..=10 {
        assert!(
            4800 <= counts[v] && counts[v] <= 7200,
            "value {} drawn {} times in {} trials",
            v,
            counts[v],
            trials
        );
    }
}

#[test]
fn rows_follow_the_configuration_shape() {
    let cfg = resolve_game(GameType::Eurojackpot, None, None, None, None).unwrap();
    let rows = generate_rows(&cfg, 4);
    assert_eq!(rows.len(), 4);
    for row in &rows {
        check_field(&row.primary, 5, 50);
        let secondary = row.secondary.as_ref().expect("secondary pool is active");
        check_field(secondary, 2, 12);
    }
}

#[test]
fn single_pool_rows_have_no_secondary_field() {
    let cfg = resolve_game(GameType::Lotto, None, None, None, None).unwrap();
    let rows = generate_rows(&cfg, 3);
    assert_eq!(rows.len(), 3);
    for row in &rows {
        check_field(&row.primary, 6, 49);
        assert!(row.secondary.is_none());
    }
}
