use vesting_contract::msg::VestingSchedule;

#[test]
fn periodic_vesting_vested_amount_hack() {
    let schedule = VestingSchedule::PeriodicVesting {
        start_time: 105,
        end_time: 110,
        vesting_interval: 5,
        amount: 500000u128,
    };
    assert_eq!(schedule.vested_amount(100).unwrap(), 0);
    assert_eq!(schedule.vested_amount(105).unwrap(), 0);
    assert_eq!(schedule.vested_amount(106).unwrap(), 0);
    assert_eq!(schedule.vested_amount(110).unwrap(), 500000u128);
}

#[test]
fn linear_vesting_vested_amount() {
    let schedule = VestingSchedule::LinearVesting {
        start_time: 100,
        end_time: 110,
        vesting_amount: 1000000u128,
    };

    assert_eq!(schedule.vested_amount(100).unwrap(), 0);
    assert_eq!(schedule.vested_amount(105).unwrap(), 500000u128);
    assert_eq!(schedule.vested_amount(110).unwrap(), 1000000u128);
    assert_eq!(schedule.vested_amount(115).unwrap(), 1000000u128);
}

#[test]
fn periodic_vesting_vested_amount() {
    let schedule = VestingSchedule::PeriodicVesting {
        start_time: 105,
        end_time: 110,
        vesting_interval: 5,
        amount: 500000u128,
    };

    assert_eq!(schedule.vested_amount(100).unwrap(), 0);
    assert_eq!(schedule.vested_amount(105).unwrap(), 0);
    assert_eq!(schedule.vested_amount(110).unwrap(), 500000u128);
    assert_eq!(schedule.vested_amount(115).unwrap(), 500000u128);
}

#[test]
fn linear_vesting_is_monotonic() {
    let schedule = VestingSchedule::LinearVesting {
        start_time: 100,
        end_time: 200,
        vesting_amount: 997,
    };
    let mut last: u128 = 0;
    let mut t: u64 = 90;
    while t <= 210 {
        let v = schedule.vested_amount(t).unwrap();
        assert!(v >= last);
        last = v;
        t += 1;
    }
    assert_eq!(last, 997);
}

#[test]
fn periodic_vesting_is_monotonic() {
    let schedule = VestingSchedule::PeriodicVesting {
        start_time: 1000,
        end_time: 5000,
        vesting_interval: 1000,
        amount: 250,
    };
    let mut last: u128 = 0;
    let mut t: u64 = 900;
    while t <= 5100 {
        let v = schedule.vested_amount(t).unwrap();
        assert!(v >= last);
        last = v;
        t += 50;
    }
    assert_eq!(last, 1000);
}

#[test]
fn vesting_is_zero_up_to_start_time() {
    let linear = VestingSchedule::LinearVesting {
        start_time: 500,
        end_time: 600,
        vesting_amount: 12345,
    };
    let periodic = VestingSchedule::PeriodicVesting {
        start_time: 500,
        end_time: 600,
        vesting_interval: 10,
        amount: 7,
    };
    for t in [0u64, 1, 250, 499, 500] {
        assert_eq!(linear.vested_amount(t).unwrap(), 0);
        assert_eq!(periodic.vested_amount(t).unwrap(), 0);
    }
}

#[test]
fn vesting_is_total_from_end_time_on() {
    let linear = VestingSchedule::LinearVesting {
        start_time: 500,
        end_time: 600,
        vesting_amount: 12345,
    };
    let periodic = VestingSchedule::PeriodicVesting {
        start_time: 500,
        end_time: 600,
        vesting_interval: 10,
        amount: 7,
    };
    for t in [600u64, 601, 1000, u64::MAX] {
        assert_eq!(linear.vested_amount(t).unwrap(), 12345);
        assert_eq!(periodic.vested_amount(t).unwrap(), 70);
    }
}

#[test]
fn linear_vesting_truncates() {
    // 1000 * (149 - 100) / (200 - 100) = 490 with truncating division
    let schedule = VestingSchedule::LinearVesting {
        start_time: 100,
        end_time: 200,
        vesting_amount: 1000,
    };
    assert_eq!(schedule.vested_amount(149).unwrap(), 490);
    assert_eq!(schedule.vested_amount(101).unwrap(), 10);
    assert_eq!(schedule.vested_amount(199).unwrap(), 990);
}

#[test]
fn periodic_vesting_tranches_at_interval_ends() {
    // amount * k at start_time + k * interval, for every k up to the count
    let schedule = VestingSchedule::PeriodicVesting {
        start_time: 1000,
        end_time: 5000,
        vesting_interval: 1000,
        amount: 1000,
    };
    for k in 0u64..=4 {
        assert_eq!(
            schedule.vested_amount(1000 + k * 1000).unwrap(),
            (k as u128) * 1000
        );
    }
    // within an interval the tranche has not landed yet
    assert_eq!(schedule.vested_amount(1999).unwrap(), 0);
    assert_eq!(schedule.vested_amount(2001).unwrap(), 1000);
}

#[test]
fn linear_vesting_overflow_is_reported() {
    let schedule = VestingSchedule::LinearVesting {
        start_time: 0,
        end_time: 10,
        vesting_amount: u128::MAX,
    };
    // u128::MAX * 5 overflows; the evaluator reports it instead of wrapping
    assert!(schedule.vested_amount(5).is_err());
    assert_eq!(schedule.vested_amount(10).unwrap(), u128::MAX);
}
