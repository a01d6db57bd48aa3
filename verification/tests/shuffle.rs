use termplayer::shuffle::xorshift::advance;

#[test]
fn one_step_of_the_generator() {
    assert_eq!(advance(1), 0x4082_2041);
    assert_eq!(advance(0x4082_2041), 0x1000_4106_0c01_1441);
    assert_eq!(advance(0), 0);
}

#[test]
fn steps_agree_with_shifting_in_place() {
    let mut x = 0xDEAD_BEEFu64 | 1;
    for _ in 0..10_000 {
        let mut y = x;
        y ^= y << 13;
        y ^= y >> 7;
        y ^= y << 17;
        assert_eq!(advance(x), y);
        assert_ne!(y, 0);
        x = y;
    }
}

#[test]
fn states_do_not_come_back_soon() {
    let mut seen = std::collections::HashSet::new();
    let mut x = 1u64;
    for _ in 0..200_000 {
        assert_ne!(x, 0);
        assert!(seen.insert(x));
        x = advance(x);
    }
}
