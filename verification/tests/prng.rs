use lc4::hardware;
use lc4::prng::{ASG, LFSR};

#[test]
fn lfsr_new_holds_zero_and_stays_there() {
    let mut lfsr = LFSR::new();
    for _ in 0..32 {
        assert_eq!(lfsr.clock(), 0);
    }
    assert!(lfsr == LFSR::new());
}

#[test]
fn lfsr_clock_shifts_out_the_low_bit() {
    let mut lfsr = LFSR::new();
    lfsr.set_seed(0xACE1);
    let expected = [1u16, 0, 0, 0, 0, 1, 1, 1, 0, 0, 1, 1, 0, 1, 0, 1, 1, 1, 1, 0];
    for bit in expected {
        assert_eq!(lfsr.clock(), bit);
    }
    let mut same = LFSR::new();
    same.set_seed(0x2087);
    assert!(lfsr == same);
}

#[test]
fn lfsr_clock_feeds_back_taps_0_1_3_12() {
    // seed, state after one clock
    for (seed, next) in [(0x0001u16, 0x8000u16), (0x8000, 0x4000), (0xFFFF, 0x7FFF), (0x1234, 0x891A)] {
        let mut lfsr = LFSR::new();
        lfsr.set_seed(seed);
        lfsr.clock();
        let mut expected = LFSR::new();
        expected.set_seed(next);
        assert!(lfsr == expected, "seed {:#06x}", seed);
    }
}

#[test]
fn lfsr_returns_to_its_seed_after_65535_clocks_and_not_before() {
    for seed in [0x0001u16, 0x1234, 0xACE1, 0xFFFF] {
        let mut start = LFSR::new();
        start.set_seed(seed);
        let mut lfsr = LFSR::new();
        lfsr.set_seed(seed);
        for step in 1..65535u32 {
            lfsr.clock();
            assert!(lfsr != start, "seed {:#06x} came back after {} clocks", seed, step);
        }
        lfsr.clock();
        assert!(lfsr == start);
    }
}

#[test]
fn lfsr_never_reaches_zero_from_a_seed_that_is_not_zero() {
    let zero = LFSR::new();
    let mut lfsr = LFSR::new();
    lfsr.set_seed(0x0001);
    for _ in 0..65535u32 {
        lfsr.clock();
        assert!(lfsr != zero);
    }
}

#[test]
fn asg_of_zero_seeds_yields_zero() {
    let mut asg = ASG::new();
    assert_eq!(asg.clock(), 0);
    assert_eq!(asg.clock_16(), 0);
    assert!(asg == ASG::new());
}

#[test]
fn asg_clock_steps_the_selected_register() {
    // The clock register's low bit is 1: the first register steps and gives
    // its low bit.
    let mut asg = ASG::new();
    asg.set_seed(0x0001, 0x0003, 0x0000);
    assert_eq!(asg.clock(), 1);
    let mut expected = ASG::new();
    // 0x0001 -> 0x8000; 0x0003 -> 0x0001 (taps 0 and 1 cancel); second kept
    expected.set_seed(0x8000, 0x0001, 0x0000);
    assert!(asg == expected);
    // The clock register's low bit is 0: the second register steps.
    let mut asg = ASG::new();
    asg.set_seed(0x0002, 0x0000, 0x0001);
    assert_eq!(asg.clock(), 1);
    let mut expected = ASG::new();
    // 0x0002 -> 0x8001 (tap 1 set); second 0x0001 -> 0x8000
    expected.set_seed(0x8001, 0x0000, 0x8000);
    assert!(asg == expected);
}

#[test]
fn asg_clock_16_packs_the_first_bit_into_the_top() {
    let mut asg = ASG::new();
    asg.set_seed(0x1234, 0x1234, 0x1234);
    assert_eq!(asg.clock_16(), 0x158A);
    assert_eq!(asg.clock_16(), 0xA220);
    assert_eq!(asg.clock_16(), 0x95FF);
    let mut expected = ASG::new();
    expected.set_seed(0x3589, 0x27D6, 0x27D6);
    assert!(asg == expected);

    let mut asg = ASG::new();
    asg.set_seed(0xACE1, 0x1234, 0xBEEF);
    assert_eq!(asg.clock_16(), 0x7A7A);
    assert_eq!(asg.clock_16(), 0x45EA);
    assert_eq!(asg.clock_16(), 0xB55E);
}

#[test]
fn asg_clock_16_is_sixteen_clocks() {
    let mut bulk = ASG::new();
    bulk.set_seed(0xACE1, 0x1234, 0xBEEF);
    let mut single = ASG::new();
    single.set_seed(0xACE1, 0x1234, 0xBEEF);
    let word = bulk.clock_16();
    let mut packed = 0u16;
    for _ in 0..16 {
        packed = (packed << 1) | single.clock();
    }
    assert_eq!(word, packed);
    assert!(bulk == single);
}

#[test]
fn hardware_lfsr_gives_out_the_feedback_bit() {
    let mut lfsr = hardware::prng::LFSR::new();
    lfsr.set_seed(0xACE1);
    let expected = [1u16, 1, 1, 0, 1, 1, 1, 0, 0, 0, 0, 1, 0, 0, 0, 0, 0, 1, 0, 0];
    for bit in expected {
        assert_eq!(lfsr.clock(), bit);
    }
    let mut same = hardware::prng::LFSR::new();
    same.set_seed(0x2087);
    assert!(lfsr == same);
}

#[test]
fn hardware_lfsr_runs_sixteen_clocks_ahead() {
    let mut early = hardware::prng::LFSR::new();
    early.set_seed(0xBEEF);
    let mut late = LFSR::new();
    late.set_seed(0xBEEF);
    for _ in 0..16 {
        late.clock();
    }
    for _ in 0..1000 {
        assert_eq!(early.clock(), late.clock());
    }
}

#[test]
fn hardware_asg_selects_by_the_feedback_bit() {
    let mut asg = hardware::prng::ASG::new();
    assert_eq!(asg.clock(), 0);
    assert!(asg == hardware::prng::ASG::new());
    // 0x0001 feeds back 1: the first register steps and gives its feedback.
    asg.set_seed(0x0001, 0x0002, 0x0000);
    assert_eq!(asg.clock(), 1);
    let mut expected = hardware::prng::ASG::new();
    expected.set_seed(0x8000, 0x8001, 0x0000);
    assert!(asg == expected);
    // 0x8000 feeds back 0: the second register steps.
    assert_eq!(asg.clock(), 0);
    let mut expected = hardware::prng::ASG::new();
    expected.set_seed(0x4000, 0x8001, 0x0000);
    assert!(asg == expected);
}
