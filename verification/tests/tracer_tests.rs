use proxy_rs::elapsed::Elapsed;
use proxy_rs::order::str_less;
use proxy_rs::text::{format_decimal, format_duration};
use proxy_rs::tracer;

#[test]
fn decimal_text() {
    assert_eq!(format_decimal(0), "0");
    assert_eq!(format_decimal(7), "7");
    assert_eq!(format_decimal(10), "10");
    assert_eq!(format_decimal(1234), "1234");
    assert_eq!(format_decimal(usize::MAX), usize::MAX.to_string());
}

#[test]
fn duration_text_matches_debug() {
    assert_eq!(format_duration(0), "0ns");
    assert_eq!(format_duration(1_000), "1µs");
    assert_eq!(format_duration(250_000_000), "250ms");
    assert_eq!(format_duration(1_500_000_000), "1.5s");
    let max = std::time::Duration::MAX;
    assert_eq!(format_duration(max.as_nanos()), format!("{:?}", max));
}

#[test]
fn key_order_matches_string_order() {
    let words = ["", "a", "ab", "b", "B", "z", "é", "ä", "abc", "ab\u{10000}"];
    for x in words.iter() {
        for y in words.iter() {
            assert_eq!(str_less(x, y), x < y, "{:?} < {:?}", x, y);
        }
    }
}

#[test]
fn report_lists_names_in_order_with_counts() {
    let mut t = tracer::new("req".to_string());
    let b = t.trace("b".to_string());
    t.record(b, 2_000);
    let a1 = t.trace("a".to_string());
    t.record(a1, 1_000);
    let a2 = t.trace("a".to_string());
    t.record(a2, 3_000_000);
    let report = t.print_at(false, 1_500_000_000).unwrap();
    assert_eq!(
        report,
        "Tracer > req -> total: 1.5s\n\
         \t > Trace > a > called 2 times\n\
         \t\t > a > 1µs\n\
         \t\t > a > 3ms\n\
         \t > Trace > b > called 1 times\n\
         \t\t > b > 2µs\n"
    );
}

#[test]
fn empty_tracer_report() {
    let mut t = tracer::new("x".to_string());
    assert_eq!(t.print_at(false, 0).unwrap(), "Tracer > x -> total: 0ns\n");
}

#[test]
fn unmarked_print_repeats() {
    let mut t = tracer::new("x".to_string());
    let first = t.print_at(false, 5);
    let second = t.print_at(false, 5);
    assert_eq!(first, second);
    assert!(first.is_some());
}

#[test]
fn marked_print_silences_later_prints() {
    let mut t = tracer::new("x".to_string());
    assert!(t.print_at(true, 5).is_some());
    assert_eq!(t.print_at(false, 5), None);
    assert_eq!(t.print_at(true, 5), None);
    let s = t.trace("s".to_string());
    t.done(s);
    assert_eq!(t.print(false), None);
}

#[test]
fn ignored_tracer_prints_nothing() {
    let mut t = tracer::new("x".to_string()).ignore(true);
    assert_eq!(t.print_at(false, 5), None);
    assert_eq!(t.print(false), None);
    let mut u = tracer::new("x".to_string()).ignore(true).ignore(false);
    assert!(u.print_at(false, 5).is_some());
}

#[test]
fn at_least_holds_back_short_runs() {
    let mut t = tracer::new("x".to_string()).at_least_duration(100);
    assert_eq!(t.print_at(false, 99), None);
    assert_eq!(t.print_at(false, 100).unwrap(), "Tracer > x -> total: 100ns\n");
}

#[test]
fn marked_print_silences_even_when_held_back() {
    let mut t = tracer::new("x".to_string()).at_least_duration(100);
    assert_eq!(t.print_at(true, 50), None);
    assert_eq!(t.print_at(false, 500), None);
}

#[test]
fn print_with_clock_reports_traces() {
    let mut t = tracer::new("live".to_string());
    let s = t.trace("step".to_string());
    t.done(s);
    let s = t.trace("step".to_string());
    t.done(s);
    let report = t.print(false).unwrap();
    assert!(report.starts_with("Tracer > live -> total: "));
    assert!(report.contains("\t > Trace > step > called 2 times\n"));
    assert_eq!(report.matches("\t\t > step > ").count(), 2);
}

#[test]
fn at_least_far_away_holds_back_clock_print() {
    let mut t = tracer::new("x".to_string()).at_least_duration(u128::MAX);
    assert_eq!(t.print(false), None);
}

#[test]
fn same_traces_same_report() {
    let mut t1 = tracer::new("r".to_string());
    let mut t2 = tracer::new("r".to_string());
    for name in ["c", "a", "b"] {
        let tr = t1.trace(name.to_string());
        t1.record(tr, 10);
    }
    for name in ["b", "c", "a"] {
        let tr = t2.trace(name.to_string());
        t2.record(tr, 10);
    }
    assert_eq!(t1.print_at(false, 1), t2.print_at(false, 1));
}

#[test]
fn elapsed_report() {
    let e = Elapsed::new("load");
    assert_eq!(e.report_at(1_000_000), "ELAPSED: load -> 1ms");
    assert!(e.report().starts_with("ELAPSED: load -> "));
}
