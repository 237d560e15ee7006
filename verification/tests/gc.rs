use finalizer_safety::gc::{FinalizeUnchecked, Gc, NonFinalizable};
use std::fmt::{Debug, Display};

struct S1 {
    x: u64,
}

struct S2 {
    y: u64,
}

trait T: Send {
    fn f(&self) -> u64;
}

impl T for S1 {
    fn f(&self) -> u64 {
        self.x
    }
}

impl T for S2 {
    fn f(&self) -> u64 {
        self.y
    }
}

#[test]
fn tests_test_dispatchable() {
    let s1 = S1 { x: 1 };
    let s2 = S2 { y: 2 };
    let s1gc: Gc<S1> = Gc::new(s1);
    let s2gc: Gc<S2> = Gc::new(s2);
    assert_eq!(s1gc.f(), 1);
    assert_eq!(s2gc.f(), 2);

    let s1gcd: Gc<dyn T> = Gc::from_raw(Gc::<S1>::into_raw(s1gc));
    let s2gcd: Gc<dyn T> = Gc::from_raw(Gc::<S2>::into_raw(s2gc));
    assert_eq!(s1gcd.f(), 1);
    assert_eq!(s2gcd.f(), 2);
}

#[test]
fn raw_round_trip_keeps_the_value() {
    let a = Gc::new(7u8);
    let b = a.clone();
    let c = Gc::from_raw(Gc::into_raw(a));
    assert_eq!(*c, 7);
    assert!(Gc::ptr_eq(&b, &c));
}

#[test]
fn test_unsized() {
    let foo: Gc<[i32]> = Gc::from([1, 2, 3]);
    assert_eq!(foo, foo.clone());
}

#[test]
fn test_from_box() {
    let b: Box<u32> = Box::new(123);
    let g: Gc<u32> = Gc::from(b);

    assert_eq!(*g, 123);
}

#[test]
fn test_from_box_trait() {
    let b: Box<dyn Display> = Box::new(123);
    let g: Gc<dyn Display> = Gc::from(b);

    assert_eq!(g.to_string(), "123");
}

#[test]
fn test_from_box_trait_zero_sized() {
    let b: Box<dyn Debug> = Box::new(());
    let g: Gc<dyn Debug> = Gc::from(b);

    assert_eq!(format!("{:?}", &*g), "()");
}

#[test]
fn test_from_box_slice() {
    let s = vec![1, 2, 3].into_boxed_slice();
    let g: Gc<[u32]> = Gc::from(s);

    assert_eq!(&g[..], [1, 2, 3]);
}

#[test]
fn test_from_box_str() {
    let s = String::from("foo").into_boxed_str();
    let g: Gc<str> = Gc::from(s);

    assert_eq!(&g[..], "foo");
}

#[test]
fn test_from_vec() {
    let v = vec![1, 2, 3];
    let g: Gc<[u32]> = Gc::from(v);

    assert_eq!(&g[..], [1, 2, 3]);
}

#[test]
fn new_holds_the_value() {
    let g = Gc::new(5u8);
    assert_eq!(*g, 5);
    let h = Gc::new(String::from("abc"));
    assert_eq!(h.len(), 3);
    assert_eq!(*Gc::as_ptr(&h), "abc");
}

#[test]
fn from_value_and_strings() {
    let g: Gc<u64> = Gc::from(7u64);
    assert_eq!(*g, 7);
    let s: Gc<str> = Gc::from("hello");
    assert_eq!(&s[..], "hello");
    let t: Gc<str> = Gc::from(String::from("world"));
    assert_eq!(&t[..], "world");
}

#[test]
fn default_handle_holds_the_default_value() {
    let g: Gc<u32> = Gc::default();
    assert_eq!(*g, 0);
    let s: Gc<String> = Default::default();
    assert_eq!(*s, "");
}

#[test]
fn copies_share_their_value() {
    let a = Gc::new(vec![1, 2, 3]);
    let b = a.clone();
    assert!(Gc::ptr_eq(&a, &b));
    assert_eq!(*a, *b);
    // Equal values behind two handles: equal, but not the same.
    let c = Gc::new(vec![1, 2, 3]);
    assert!(!Gc::ptr_eq(&a, &c));
    assert!(a == c);
    let d = Gc::new(vec![4]);
    assert!(a != d);
}

#[test]
fn wrappers_hand_out_their_value() {
    let mut n = NonFinalizable::new(41u32);
    assert_eq!(*n + 1, 42);
    assert_eq!(n.0, 41);
    *n += 1;
    assert_eq!(*n, 42);
    let mut u = FinalizeUnchecked::new(String::from("x"));
    assert_eq!(*u, "x");
    u.push('y');
    assert_eq!(u.0, "xy");
}
