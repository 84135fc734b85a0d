use quietude::rng::TickBasedRng;
use quietude::utils::{
    decimal, frequency_to_period, insert_noise, isqrt, lfsr, product,
};

fn millionths(value: f64) -> u64 {
    (value * 1_000_000.0).round() as u64
}

fn units(value: u64) -> f64 {
    value as f64 / 1_000_000.0
}

#[test]
fn test_insert_noise() {
    let mut vals = vec![millionths(2.0), millionths(3.0)];
    let vals_old = vals.clone();
    let mut rng = TickBasedRng::new(0, 0);
    insert_noise(&mut vals, millionths(0.1) as u32, &mut rng);

    assert!(
        vals != vals_old
            && units(vals[0]) < 2.11
            && units(vals[0]) > 1.89
            && units(vals[1]) < 3.11
            && units(vals[1]) > 2.89
    );

    let mut vals = vec![millionths(0.0), millionths(0.0)];
    insert_noise(&mut vals, millionths(0.5) as u32, &mut rng);
    assert!(units(vals[0]) > -0.01 && units(vals[1]) > -0.01);

    let mut vals = vec![millionths(1.0), millionths(1.0)];
    insert_noise(&mut vals, millionths(0.5) as u32, &mut rng);
    assert!(units(vals[0]) < 1.01 && units(vals[1]) < 1.01);
}

#[test]
fn insert_noise_is_exact_and_replayable() {
    let mut vals = vec![2_000_000, 3_000_000];
    let mut rng = TickBasedRng::new(0, 0);
    insert_noise(&mut vals, 100_000, &mut rng);
    assert_eq!(vals, vec![2_045_821, 2_972_910]);
    assert_eq!(rng.num, Some(0x7fff_ffff));

    let mut again = vec![2_000_000, 3_000_000];
    let mut other = TickBasedRng::new(5, 7);
    other.rand();
    other.reset(0);
    other.seed = 0;
    insert_noise(&mut again, 100_000, &mut other);
    assert_eq!(again, vals);

    let mut still = vec![0, 17, 1_000_000];
    insert_noise(&mut still, 0, &mut rng);
    assert_eq!(still, vec![0, 17, 1_000_000]);

    let mut empty: Vec<u64> = vec![];
    let before = rng;
    insert_noise(&mut empty, 5, &mut rng);
    assert_eq!(rng, before);
}

#[test]
fn lfsr_steps_the_register() {
    assert_eq!(lfsr(0), 0);
    assert_eq!(lfsr(1), 0x8000_0000);
    assert_eq!(lfsr(2), 0x8000_0001);
    assert_eq!(lfsr(4), 0x8000_0002);
    assert_eq!(lfsr(1 << 22), 0x8020_0000);
    assert_eq!(lfsr(3), 1);
    assert_eq!(lfsr(0xffff_ffff), 0x7fff_ffff);
    assert_eq!(lfsr(0xffff_fffe), 0xffff_ffff);
}

#[test]
fn rng_replays_a_tick_from_seed_and_tick() {
    let mut a = TickBasedRng::new(12345, 678);
    let mut b = TickBasedRng::new(12345, 0);
    b.rand();
    b.rand();
    b.reset(678);
    let first: Vec<u32> = (0..50).map(|_| a.rand()).collect();
    let second: Vec<u32> = (0..50).map(|_| b.rand()).collect();
    assert_eq!(first, second);
    assert_eq!(first[0], lfsr(12345 + 678));
    assert_eq!(first[1], lfsr(lfsr(12345 + 678)));

    a.reset(678);
    let third: Vec<u32> = (0..50).map(|_| a.rand()).collect();
    assert_eq!(first, third);

    let mut c = TickBasedRng::new(12345, 679);
    assert_ne!(c.rand(), first[0]);
}

#[test]
fn rng_leaves_the_degenerate_sums() {
    let mut zero = TickBasedRng::new(0, 0);
    assert_eq!(
        [zero.rand(), zero.rand(), zero.rand()],
        [0xffff_ffff, 0x7fff_ffff, 0x3fff_ffff]
    );
    let mut wrapped = TickBasedRng::new(0xffff_ff00, 0x100);
    assert_eq!(
        [wrapped.rand(), wrapped.rand(), wrapped.rand()],
        [0xffff_ffff, 0x7fff_ffff, 0x3fff_ffff]
    );
    let mut ones = TickBasedRng::new(0xffff_fff0, 0xf);
    assert_eq!(
        [ones.rand(), ones.rand(), ones.rand()],
        [0xffff_fffe, 0xffff_ffff, 0x7fff_ffff]
    );
    for (seed, tick) in [(0u32, 0u32), (0xffff_ffff, 0), (1, 0xffff_ffff), (7, 0xffff_fff8)] {
        let mut rng = TickBasedRng::new(seed, tick);
        let mut last = None;
        for _ in 0..1000 {
            let value = rng.rand();
            assert_ne!(value, 0);
            assert_ne!(Some(value), last);
            last = Some(value);
        }
    }
}

#[test]
fn rng_new_and_reset_forget_the_draws() {
    let mut rng = TickBasedRng::new(9, 4);
    assert_eq!(rng, TickBasedRng { num: None, tick: 4, seed: 9 });
    let value = rng.rand();
    assert_eq!(rng.num, Some(value));
    rng.reset(11);
    assert_eq!(rng, TickBasedRng { num: None, tick: 11, seed: 9 });
}

#[test]
fn product_multiplies_millionths() {
    assert_eq!(product(&vec![]), Some(1_000_000));
    assert_eq!(product(&vec![500_000]), Some(500_000));
    assert_eq!(product(&vec![500_000, 500_000]), Some(250_000));
    assert_eq!(product(&vec![1_000_000, 30_000]), Some(30_000));
    assert_eq!(product(&vec![333_333, 30_000]), Some(9_999));
    assert_eq!(product(&vec![2_000_000, 3_000_000]), Some(6_000_000));
    assert_eq!(product(&vec![0, u64::MAX]), Some(0));
    assert_eq!(product(&vec![u64::MAX, u64::MAX]), None);
    assert_eq!(product(&vec![u64::MAX, u64::MAX, 0]), None);
}

#[test]
fn isqrt_rounds_down() {
    assert_eq!(isqrt(0), 0);
    assert_eq!(isqrt(1), 1);
    assert_eq!(isqrt(3), 1);
    assert_eq!(isqrt(4), 2);
    assert_eq!(isqrt(99), 9);
    assert_eq!(isqrt(100), 10);
    assert_eq!(isqrt(2_000_000), 1414);
    assert_eq!(isqrt(u128::MAX), u64::MAX);
    assert_eq!(isqrt((u64::MAX as u128) * (u64::MAX as u128) - 1), u64::MAX - 1);
}

#[test]
fn frequency_to_period_counts_milliseconds() {
    assert_eq!(frequency_to_period(1), 1000);
    assert_eq!(frequency_to_period(60), 16);
    assert_eq!(frequency_to_period(100), 10);
    assert_eq!(frequency_to_period(1000), 1);
    assert_eq!(frequency_to_period(1001), 0);
    assert_eq!(frequency_to_period(3), 333);
    assert_eq!(frequency_to_period(0), u64::MAX);
}

#[test]
fn decimal_writes_whole_numbers() {
    assert_eq!(decimal(0), "0");
    assert_eq!(decimal(7), "7");
    assert_eq!(decimal(10), "10");
    assert_eq!(decimal(-1), "-1");
    assert_eq!(decimal(1234567890), "1234567890");
    assert_eq!(decimal(i64::MAX), i64::MAX.to_string());
    assert_eq!(decimal(i64::MIN), i64::MIN.to_string());
}
