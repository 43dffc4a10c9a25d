use progress::{Progress, ProgressDisplay, ProgressIteratorExt, Unbounded, CLEAR};

fn shown(row: &str) -> String {
    format!("{}\n{}\n", CLEAR, row)
}

#[test]
fn counting_without_end() {
    let mut p = (0..).progress();
    let (text, item) = p.next();
    assert_eq!(text, shown(""));
    assert_eq!(item, Some(0));
    let (text, item) = p.next();
    assert_eq!(text, shown("*"));
    assert_eq!(item, Some(1));
    let (text, item) = p.next();
    assert_eq!(text, shown("**"));
    assert_eq!(item, Some(2));
}

#[test]
fn unbounded_lines_grow_by_one_mark() {
    let n: usize = 9;
    let v: Vec<usize> = (100..100 + n).collect();
    let mut p = Progress::new(v.iter());
    for k in 0..n {
        let (text, item) = p.next();
        assert_eq!(text, shown(&"*".repeat(k)));
        assert_eq!(item, Some(&(100 + k)));
    }
    assert_eq!(p.count(), n);
    let (text, item) = p.next();
    assert_eq!(text, shown(&"*".repeat(n)));
    assert_eq!(item, None);
}

#[test]
fn nothing_to_consume_draws_nothing_and_counts_nothing() {
    let v: Vec<i32> = Vec::new();
    let p = v.iter().progress();
    assert_eq!(p.count(), 0);
}

#[test]
fn count_equals_the_items_handed_out() {
    for n in [0usize, 1, 2, 17] {
        let mut p = (0..n).progress();
        let mut items = 0;
        for _ in 0..n {
            if p.next().1.is_some() {
                items += 1;
            }
        }
        assert_eq!(items, n);
        assert_eq!(p.count(), n);
    }
}

#[test]
fn a_step_that_finds_nothing_is_counted() {
    let v = vec![1];
    let mut p = v.iter().progress();
    assert_eq!(p.next().1, Some(&1));
    assert_eq!(p.count(), 1);
    assert_eq!(p.next().1, None);
    assert_eq!(p.count(), 2);
    assert_eq!(p.next().1, None);
    assert_eq!(p.count(), 3);
}

#[test]
fn count_never_goes_down() {
    let mut p = (0..3).progress().with_bounds();
    let mut last = p.count();
    for _ in 0..8 {
        p.next();
        assert_eq!(p.count(), last + 1);
        last = p.count();
    }
}

#[test]
fn new_and_progress_wrap_alike() {
    let v = vec![4, 5];
    let mut a = Progress::new(v.iter());
    let mut b = v.iter().progress();
    assert_eq!(a.count(), 0);
    assert_eq!(b.count(), 0);
    for _ in 0..3 {
        assert_eq!(a.next(), b.next());
    }
}

#[test]
fn items_come_in_the_order_of_the_base() {
    let v = vec!["x", "y", "z"];
    let mut p = v.clone().into_iter().progress();
    let mut got = Vec::new();
    while let (_, Some(item)) = p.next() {
        got.push(item);
    }
    assert_eq!(got, v);
    assert_eq!(p.count(), 4);
}

#[test]
fn unbounded_display_draws_one_mark_for_each_step() {
    let mut p = (0..).progress();
    assert_eq!(Unbounded.display(&p), "\n");
    for _ in 0..5 {
        p.next();
    }
    assert_eq!(Unbounded.display(&p), "*****\n");
    assert_eq!(p.strategy().display(&p), "*****\n");
}

#[test]
fn clear_is_the_escape_sequence() {
    assert_eq!(CLEAR, "\u{1b}[2J\u{1b}[1;1H");
    assert_eq!(CLEAR.chars().count(), 10);
}

#[test]
fn every_step_clears_before_it_draws() {
    let mut p = (0..2).progress().with_bounds();
    for _ in 0..4 {
        let (text, _) = p.next();
        let rest = text.strip_prefix(CLEAR).unwrap();
        assert!(rest.starts_with('\n'));
        assert!(rest.ends_with('\n'));
        assert_eq!(rest.matches('\n').count(), 2);
    }
}
