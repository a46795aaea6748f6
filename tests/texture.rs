use rt_2::pixels::texture::checker_picks_first;

#[test]
fn checker_even_cells_take_first_color() {
    assert!(checker_picks_first(0, 0));
    assert!(checker_picks_first(1, 1));
    assert!(checker_picks_first(-1, 3));
    assert!(!checker_picks_first(1, 0));
    assert!(!checker_picks_first(0, -1));
    assert!(!checker_picks_first(-3, 0));
}

#[test]
fn checker_parity_at_extreme_cells() {
    assert!(checker_picks_first(i64::MAX, i64::MAX));
    assert!(!checker_picks_first(i64::MAX, 0));
    assert!(checker_picks_first(i64::MIN, 0));
    assert!(!checker_picks_first(i64::MIN, i64::MAX));
}
