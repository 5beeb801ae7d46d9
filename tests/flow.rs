use basics::flow::{counting_up, countdown, divisibility, loop_break_value, reversed_range, Tick};

#[test]
fn divisibility_picks_first_divisor() {
    assert_eq!(divisibility(6), Some(3));
    assert_eq!(divisibility(8), Some(4));
    assert_eq!(divisibility(12), Some(4));
    assert_eq!(divisibility(10), Some(2));
    assert_eq!(divisibility(7), None);
    assert_eq!(divisibility(0), Some(4));
    assert_eq!(divisibility(-9), Some(3));
    assert_eq!(divisibility(-7), None);
}

#[test]
fn loop_break_value_doubles_limit() {
    assert_eq!(loop_break_value(10), 20);
    assert_eq!(loop_break_value(1), 2);
}

#[test]
fn counting_up_steps() {
    let expected = vec![
        Tick::Count(0),
        Tick::Remaining(10),
        Tick::Remaining(9),
        Tick::Count(1),
        Tick::Remaining(10),
        Tick::Remaining(9),
        Tick::Count(2),
        Tick::Remaining(10),
    ];
    assert_eq!(counting_up(2), expected);
    assert_eq!(counting_up(0), vec![Tick::Count(0), Tick::Remaining(10)]);
}

#[test]
fn countdown_from_three() {
    assert_eq!(countdown(3), vec![3, 2, 1]);
    assert_eq!(countdown(0), Vec::<u32>::new());
}

#[test]
fn reversed_range_one_to_four() {
    assert_eq!(reversed_range(1, 4), vec![3, 2, 1]);
    assert_eq!(reversed_range(4, 4), Vec::<u32>::new());
    assert_eq!(reversed_range(5, 2), Vec::<u32>::new());
}
