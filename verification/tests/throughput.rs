use extproc_loadtest::cli::Cli;
use extproc_loadtest::error::Error;
use extproc_loadtest::throughput::{get_all_throughputs, MAX_LEVELS};

fn cli(start: u64, end: u64, multiplier: u64, step: u64) -> Cli {
    Cli {
        uri: "http://localhost:50051".to_string(),
        test_duration_secs: 10,
        start_throughput: start,
        end_throughput: end,
        throughput_multiplier: multiplier,
        throughput_step: step,
        result_directory: None,
    }
}

#[test]
fn unit_multiplier_gives_the_arithmetic_sequence() {
    let levels = get_all_throughputs(&cli(3, 20, 1, 4)).unwrap();
    assert_eq!(levels, vec![3, 7, 11, 15, 19]);
}

#[test]
fn unit_multiplier_includes_a_level_equal_to_the_bound() {
    let levels = get_all_throughputs(&cli(10, 30, 1, 10)).unwrap();
    assert_eq!(levels, vec![10, 20, 30]);
}

#[test]
fn multiplier_scales_before_the_step_is_added() {
    let levels = get_all_throughputs(&cli(1, 100, 2, 1)).unwrap();
    assert_eq!(levels, vec![1, 3, 7, 15, 31, 63]);
}

#[test]
fn doubling_up_to_the_default_bound() {
    let levels = get_all_throughputs(&cli(1, 16378, 2, 0)).unwrap();
    assert_eq!(
        levels,
        vec![1, 2, 4, 8, 16, 32, 64, 128, 256, 512, 1024, 2048, 4096, 8192]
    );
}

#[test]
fn the_same_parameters_give_the_same_levels() {
    let first = get_all_throughputs(&cli(5, 5000, 3, 2)).unwrap();
    let second = get_all_throughputs(&cli(5, 5000, 3, 2)).unwrap();
    assert_eq!(first, second);
    assert_eq!(first, vec![5, 17, 53, 161, 485, 1457, 4373]);
}

#[test]
fn levels_are_strictly_increasing_and_within_the_bound() {
    let levels = get_all_throughputs(&cli(2, 1_000_000, 3, 7)).unwrap();
    assert!(!levels.is_empty());
    assert!(levels.windows(2).all(|pair| pair[0] < pair[1]));
    assert!(levels.iter().all(|level| *level <= 1_000_000));
}

#[test]
fn a_start_above_the_bound_gives_no_level() {
    let levels = get_all_throughputs(&cli(11, 10, 1, 1)).unwrap();
    assert!(levels.is_empty());
}

#[test]
fn a_start_equal_to_the_bound_gives_one_level() {
    let levels = get_all_throughputs(&cli(10, 10, 1, 1)).unwrap();
    assert_eq!(levels, vec![10]);
}

#[test]
fn a_rate_that_never_grows_is_refused() {
    match get_all_throughputs(&cli(1, 16378, 1, 0)) {
        Err(Error::TooManyThroughputsToTest) => {}
        other => panic!("expected TooManyThroughputsToTest, got {other:?}"),
    }
}

#[test]
fn a_hundred_levels_are_accepted() {
    let levels = get_all_throughputs(&cli(1, 100, 1, 1)).unwrap();
    assert_eq!(levels.len(), MAX_LEVELS);
    assert_eq!(levels[0], 1);
    assert_eq!(levels[99], 100);
}

#[test]
fn a_hundred_and_one_levels_are_refused() {
    match get_all_throughputs(&cli(1, 101, 1, 1)) {
        Err(Error::TooManyThroughputsToTest) => {}
        other => panic!("expected TooManyThroughputsToTest, got {other:?}"),
    }
}

#[test]
fn a_level_beyond_64_bits_ends_the_sweep() {
    let levels = get_all_throughputs(&cli(1 << 62, u64::MAX, 4, 0)).unwrap();
    assert_eq!(levels, vec![1 << 62]);
    let levels = get_all_throughputs(&cli(u64::MAX - 1, u64::MAX, 1, 5)).unwrap();
    assert_eq!(levels, vec![u64::MAX - 1]);
}

#[test]
fn a_multiplier_of_zero_falls_back_to_the_step() {
    let levels = get_all_throughputs(&cli(7, 9, 0, 10)).unwrap();
    assert_eq!(levels, vec![7]);
    match get_all_throughputs(&cli(7, 9, 0, 3)) {
        Err(Error::TooManyThroughputsToTest) => {}
        other => panic!("expected TooManyThroughputsToTest, got {other:?}"),
    }
}
