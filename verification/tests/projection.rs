use replay_source::projection::{find_outside, identity_projection, resolve};
use replay_source::text::{append_decimal, render_decimal};

#[test]
fn identity_counts_up_from_zero() {
    assert_eq!(identity_projection(0), Vec::<usize>::new());
    assert_eq!(identity_projection(1), vec![0]);
    assert_eq!(identity_projection(4), vec![0, 1, 2, 3]);
}

#[test]
fn resolve_keeps_a_request_as_it_is() {
    assert_eq!(resolve(&Some(vec![2, 0]), 4), vec![2, 0]);
    assert_eq!(resolve(&Some(vec![1, 1, 7]), 4), vec![1, 1, 7]);
    assert_eq!(resolve(&Some(vec![]), 4), Vec::<usize>::new());
}

#[test]
fn resolve_without_a_request_is_the_identity() {
    assert_eq!(resolve(&None, 4), vec![0, 1, 2, 3]);
    assert_eq!(resolve(&None, 0), Vec::<usize>::new());
}

#[test]
fn find_outside_accepts_a_valid_projection() {
    assert_eq!(find_outside(&vec![], 0), None);
    assert_eq!(find_outside(&vec![0, 1, 2, 3], 4), None);
    assert_eq!(find_outside(&vec![3, 3, 0], 4), None);
}

#[test]
fn find_outside_gives_the_first_bad_place() {
    assert_eq!(find_outside(&vec![4], 4), Some(0));
    assert_eq!(find_outside(&vec![0, 5, 1, 9], 4), Some(1));
    assert_eq!(find_outside(&vec![0, 1, 2, usize::MAX], 4), Some(3));
    assert_eq!(find_outside(&vec![0], 0), Some(0));
}

#[test]
fn decimal_of_small_numbers() {
    assert_eq!(render_decimal(0), "0");
    assert_eq!(render_decimal(7), "7");
    assert_eq!(render_decimal(10), "10");
    assert_eq!(render_decimal(109), "109");
    assert_eq!(render_decimal(1_234_567_890), "1234567890");
}

#[test]
fn decimal_agrees_with_the_standard_library() {
    let mut n: usize = 1;
    for _ in 0..19 {
        assert_eq!(render_decimal(n), n.to_string());
        assert_eq!(render_decimal(n - 1), (n - 1).to_string());
        n = n.wrapping_mul(10);
    }
    assert_eq!(render_decimal(usize::MAX), usize::MAX.to_string());
}

#[test]
fn append_decimal_keeps_what_was_there() {
    let mut text = String::from("n=");
    append_decimal(&mut text, 42);
    assert_eq!(text, "n=42");
    append_decimal(&mut text, 0);
    assert_eq!(text, "n=420");
}
