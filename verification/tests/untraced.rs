use debugtrace::untraced::Trace;
use std::cell::Cell;
use std::collections::hash_map::DefaultHasher;
use std::fmt;
use std::hash::Hash;
use std::hash::Hasher;

struct Fails;

impl fmt::Debug for Fails {
    fn fmt(&self, f: &mut fmt::Formatter<'_>) -> fmt::Result {
        f.write_str("half")?;
        Err(fmt::Error)
    }
}

struct Observed<'a, T>(&'a T, &'a Cell<bool>);

impl<'a, T: fmt::Debug> fmt::Display for Observed<'a, T> {
    fn fmt(&self, f: &mut fmt::Formatter<'_>) -> fmt::Result {
        self.1.set(fmt::Debug::fmt(self.0, f).is_err());
        Ok(())
    }
}

fn digest<T: Hash>(value: &T) -> u64 {
    let mut hasher = DefaultHasher::new();
    value.hash(&mut hasher);
    hasher.finish()
}

fn may_fail(fail: bool) -> debugtrace::untraced::Result<u32, String> {
    if fail {
        let failed: Result<u32, String> = Err(String::from("my error"));
        Ok(failed?)
    } else {
        Ok(7)
    }
}

#[test]
fn untraced_round_trip_keeps_the_value() {
    assert_eq!(Trace::new(123).unwrap(), 123);
    assert_eq!(Trace::new("my error").unwrap(), "my error");
    assert_eq!(Trace::new(()).unwrap(), ());
}

#[test]
fn untraced_debug_is_that_of_the_value() {
    assert_eq!(Trace::new(123).debug_string(), "123");
    assert_eq!(Trace::new(123).debug_string(), format!("{:?}", 123));
    assert_eq!(Trace::new("a\"b").debug_string(), format!("{:?}", "a\"b"));
    assert_eq!(Trace::new(()).debug_string(), "()");
    assert_eq!(Trace::new(Some(vec![1u8, 2])).debug_string(), "Some([1, 2])");
}

#[test]
fn untraced_costs_what_the_value_costs() {
    assert_eq!(std::mem::size_of::<Trace<u32>>(), std::mem::size_of::<u32>());
    assert_eq!(std::mem::size_of::<Trace<()>>(), 0);
    assert_eq!(std::mem::size_of::<Trace<String>>(), std::mem::size_of::<String>());
    assert_eq!(std::mem::align_of::<Trace<u64>>(), std::mem::align_of::<u64>());
}

#[test]
fn untraced_equality_and_order_are_those_of_the_values() {
    assert!(Trace::new(1) == Trace::new(1));
    assert!(Trace::new(1) != Trace::new(2));
    assert!(Trace::new(1) < Trace::new(2));
    assert!(Trace::new("b") > Trace::new("a"));
    assert_eq!(Trace::new(1).cmp(&Trace::new(2)), std::cmp::Ordering::Less);
    assert_eq!(Trace::new(2).cmp(&Trace::new(2)), std::cmp::Ordering::Equal);
    assert_eq!(Trace::new(2).partial_cmp(&Trace::new(1)), Some(std::cmp::Ordering::Greater));
    assert_eq!(Trace::new(f64::NAN).partial_cmp(&Trace::new(1.0)), None);
}

#[test]
fn untraced_hash_is_that_of_the_value() {
    assert_eq!(digest(&Trace::new(123u32)), digest(&123u32));
    assert_ne!(digest(&Trace::new(123u32)), digest(&124u32));
}

#[test]
fn untraced_deref_reaches_the_value() {
    let mut t = Trace::new(vec![1, 2, 3]);
    assert_eq!(t.len(), 3);
    t.push(4);
    assert_eq!(*t, vec![1, 2, 3, 4]);
    *t = Vec::new();
    assert!(t.unwrap().is_empty());
}

#[test]
fn untraced_from_wraps_at_the_question_mark() {
    assert_eq!(may_fail(false).ok(), Some(7));
    match may_fail(true) {
        Ok(_) => panic!("the error was lost"),
        Err(e) => assert_eq!(e.unwrap(), "my error"),
    }
    let t: Trace<u8> = Trace::from(5u8);
    assert_eq!(*t, 5);
}

#[test]
fn untraced_clone_keeps_the_value() {
    let t = Trace::new(String::from("abc"));
    let c = t.clone();
    assert!(t == c);
    assert_eq!(c.unwrap(), "abc");
}

#[test]
fn untraced_prints_with_the_debug_format() {
    assert_eq!(format!("{:?}", Trace::new(123)), "123");
    assert_eq!(format!("{:?}", Trace::new("a\nb")), format!("{:?}", "a\nb"));
    assert_eq!(format!("{:?}", Trace::new(Trace::new(7))), "7");
}

#[test]
fn untraced_print_hands_flags_to_the_value() {
    let value = Some(vec![1, 2]);
    assert_eq!(format!("{:#?}", Trace::new(value.clone())), format!("{:#?}", value));
    assert_eq!(format!("{:6?}|", Trace::new(42)), format!("{:6?}|", 42));
    assert_eq!(format!("{:<6?}|", Trace::new(42)), "42    |");
    assert_eq!(format!("{:#x?}", Trace::new(255)), "0xff");
}

#[test]
fn untraced_cmp_is_that_of_the_values() {
    assert_eq!(Trace::new(3).cmp(&Trace::new(2)), std::cmp::Ordering::Greater);
    let values: [i32; 5] = [-2, 0, 1, 1, 7];
    for v1 in values {
        for v2 in values {
            let a = Trace::new(v1);
            let b = Trace::new(v2);
            assert_eq!(a.cmp(&b), v1.cmp(&v2));
            assert_eq!(a.cmp(&b) == std::cmp::Ordering::Equal, a == b);
            assert_eq!(a.cmp(&b), b.cmp(&a).reverse());
            assert_eq!(a.partial_cmp(&b), Some(a.cmp(&b)));
        }
    }
}

#[test]
fn untraced_print_hands_back_the_failure_of_the_value() {
    let trace = Trace::new(Fails);
    let failed = Cell::new(false);
    let written = format!("{}", Observed(&trace, &failed));
    assert!(failed.get());
    assert_eq!(written, "half");
    assert_eq!(trace.debug_string(), "half");
}
