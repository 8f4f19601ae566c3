use wallet_scan::balance::{balance_line, display_units, format_sol};

fn in_doubles(lamports: u64) -> String {
    format!("{:.4}", lamports as f64 / 1_000_000_000.0)
}

fn nearest_units(lamports: u64) -> u64 {
    let below = lamports / 100_000;
    let rest = lamports % 100_000;
    if rest > 50_000 || (rest == 50_000 && below % 2 == 1) {
        below + 1
    } else {
        below
    }
}

fn next(state: &mut u64) -> u64 {
    *state ^= *state << 13;
    *state ^= *state >> 7;
    *state ^= *state << 17;
    *state
}

#[test]
fn zero_balance_is_four_zero_decimals() {
    assert_eq!(format_sol(0), "0.0000");
    assert_eq!(balance_line(0), "💰 SOL: 0.0000 SOL");
}

#[test]
fn two_and_a_half_sol() {
    assert_eq!(format_sol(2_500_000_000), "2.5000");
    assert_eq!(balance_line(2_500_000_000), "💰 SOL: 2.5000 SOL");
}

#[test]
fn whole_sol_has_no_leading_zeros() {
    assert_eq!(format_sol(1_000_000_000), "1.0000");
    assert_eq!(format_sol(10_000_000_000), "10.0000");
    assert_eq!(format_sol(1_234_000_000_000), "1234.0000");
    assert_eq!(format_sol(1_000_000_000_000_000_000), "1000000000.0000");
}

#[test]
fn fraction_keeps_its_leading_zeros() {
    assert_eq!(format_sol(100_000), "0.0001");
    assert_eq!(format_sol(1_000_000), "0.0010");
    assert_eq!(format_sol(10_000_000), "0.0100");
    assert_eq!(format_sol(100_000_000), "0.1000");
    assert_eq!(format_sol(7_000_700_000), "7.0007");
}

#[test]
fn balance_rounds_to_the_nearest_ten_thousandth() {
    assert_eq!(format_sol(1), "0.0000");
    assert_eq!(format_sol(49_999), "0.0000");
    assert_eq!(format_sol(50_001), "0.0001");
    assert_eq!(format_sol(149_999), "0.0001");
    assert_eq!(format_sol(150_001), "0.0002");
    assert_eq!(format_sol(12_345_678_900), "12.3457");
    assert_eq!(format_sol(123_456_789_012), "123.4568");
    assert_eq!(format_sol(123_456_749_999), "123.4567");
}

#[test]
fn balance_halfway_goes_where_the_double_lies() {
    // One sixteenth of a SOL over two is held exactly, and goes to the even
    // digit; the others are held a little above or below the half.
    assert_eq!(format_sol(31_250_000), "0.0312");
    assert_eq!(format_sol(50_000), "0.0001");
    assert_eq!(format_sol(150_000), "0.0001");
    assert_eq!(format_sol(250_000), "0.0003");
    assert_eq!(format_sol(31_350_000), "0.0314");
}

#[test]
fn rounding_carries_into_the_whole_sol() {
    assert_eq!(format_sol(999_949_999), "0.9999");
    assert_eq!(format_sol(999_950_000), "1.0000");
    assert_eq!(format_sol(999_999_999), "1.0000");
    assert_eq!(format_sol(9_999_999_999), "10.0000");
}

#[test]
fn balances_beyond_the_significand() {
    assert_eq!(format_sol(9_007_199_254_740_991), "9007199.2547");
    assert_eq!(format_sol(9_007_199_254_740_992), "9007199.2547");
    assert_eq!(format_sol(9_007_199_254_740_993), "9007199.2547");
    assert_eq!(format_sol(9_223_372_036_854_775_808), "9223372036.8548");
    assert_eq!(display_units(u64::MAX), 184_467_440_737_096);
    assert_eq!(format_sol(u64::MAX), "18446744073.7096");
}

#[test]
fn balance_is_written_as_doubles_write_it() {
    let mut state: u64 = 0x2545_F491_4F6C_DD1D;
    for round in 0..200_000u32 {
        let lamports = next(&mut state) >> (round % 64);
        assert_eq!(format_sol(lamports), in_doubles(lamports), "{lamports}");
    }
}

#[test]
fn halfway_balances_are_written_as_doubles_write_them() {
    let mut state: u64 = 0x9E37_79B9_7F4A_7C15;
    for round in 0..100_000u32 {
        let odd = (next(&mut state) >> (20 + round % 44)) | 1;
        let lamports = odd.saturating_mul(50_000);
        assert_eq!(format_sol(lamports), in_doubles(lamports), "{lamports}");
    }
    for odd in 0..20_000u64 {
        let lamports = (2 * odd + 1) * 50_000;
        assert_eq!(format_sol(lamports), in_doubles(lamports), "{lamports}");
    }
}

#[test]
fn balances_at_the_edges_are_written_as_doubles_write_them() {
    for shift in 0..64u32 {
        let power = 1u64 << shift;
        for lamports in [power - 1, power, power + 1, power | (power >> 1), power | (power >> 11)] {
            assert_eq!(format_sol(lamports), in_doubles(lamports), "{lamports}");
        }
    }
    for back in 0..5_000u64 {
        let lamports = u64::MAX - back;
        assert_eq!(format_sol(lamports), in_doubles(lamports), "{lamports}");
        let lamports = (1u64 << 53) - 2_500 + back;
        assert_eq!(format_sol(lamports), in_doubles(lamports), "{lamports}");
        assert_eq!(format_sol(back), in_doubles(back), "{back}");
    }
}

#[test]
fn ordinary_balance_is_shown_to_the_nearest_ten_thousandth() {
    let mut state: u64 = 0xD1B5_4A32_D192_ED03;
    let mut tried = 0u32;
    while tried < 100_000 {
        let lamports = next(&mut state) >> (11 + tried % 50);
        tried += 1;
        if lamports % 100_000 == 50_000 {
            continue;
        }
        assert_eq!(display_units(lamports), nearest_units(lamports), "{lamports}");
    }
    for lamports in [0, 1, 49_999, 50_001, 99_999, 100_000, (1u64 << 53) - 1] {
        assert_eq!(display_units(lamports), nearest_units(lamports), "{lamports}");
    }
}
