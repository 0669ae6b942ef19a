use std::cmp::Ordering;
use std::collections::hash_map::DefaultHasher;
use std::hash::Hash;
use std::hash::Hasher;
use std::sync::Arc;

use shared_ref::arc_or_ref::ArcOrRef;
use shared_ref::static_or_boxed::StaticOrBoxed;
use shared_ref::Shared;

const HELLO: &str = "hello";

fn hash_of<H: Hash + ?Sized>(v: &H) -> u64 {
    let mut state = DefaultHasher::new();
    v.hash(&mut state);
    state.finish()
}

#[test]
fn shared_static_and_shared_of_one_value_are_equal() {
    let a: Shared<str> = Shared::from(HELLO);
    let b: Shared<str> = Shared::from(String::from("hello"));
    assert!(a.is_static());
    assert!(b.is_shared());
    assert!(a == b);
    assert!(b == a);
    assert_eq!(hash_of(&a), hash_of(&b));
    assert_eq!(hash_of(&a), hash_of("hello"));
}

#[test]
fn shared_compares_with_bare_value() {
    let a: Shared<i32> = Shared::from(&42);
    assert!(a == 42i32);
    assert!(a != 41i32);
    assert_eq!(a.partial_cmp(&43i32), Some(Ordering::Less));
    assert_eq!(a.partial_cmp(&41i32), Some(Ordering::Greater));
}

#[test]
fn shared_orders_by_value_across_branches() {
    let stat: Shared<str> = Shared::from("abc");
    let shared_abd: Shared<str> = Shared::from(String::from("abd"));
    let shared_abc: Shared<str> = Shared::from(String::from("abc"));
    assert!(stat < shared_abd);
    assert!(shared_abd > stat);
    assert_eq!(stat.cmp(&shared_abc), Ordering::Equal);
    assert_eq!(shared_abd.cmp(&stat), Ordering::Greater);
    assert_eq!(stat.partial_cmp(&shared_abd), "abc".partial_cmp("abd"));
}

#[test]
fn shared_promotion_of_static_string() {
    let mut h: Shared<str> = Shared::from(HELLO);
    assert!(h.is_static());
    let first = Arc::clone(h.to_shared());
    assert!(h.is_shared());
    assert!(h.is_stared());
    assert!(!h.is_static());
    assert_eq!(&*first, "hello");
    let second = Arc::clone(h.to_shared());
    assert!(Arc::ptr_eq(&first, &second));
    assert!(Arc::ptr_eq(&first, h.as_shared().unwrap()));
}

#[test]
fn shared_promotion_keeps_existing_allocation() {
    let arc: Arc<str> = Arc::from("kept");
    let mut h: Shared<str> = Shared::from(Arc::clone(&arc));
    let got = Arc::clone(h.to_shared());
    assert!(Arc::ptr_eq(&arc, &got));
    assert_eq!(&*got, "kept");
}

#[test]
fn shared_promotion_of_static_slice() {
    let nums: &'static [u8] = &[1, 2, 3];
    let mut h: Shared<[u8]> = Shared::from(nums);
    let first = Arc::clone(h.to_shared());
    assert_eq!(&*first, &[1u8, 2, 3][..]);
    assert!(Arc::ptr_eq(&first, h.to_shared()));
}

#[test]
fn shared_accessors_report_branch() {
    let stat: Shared<str> = Shared::from(HELLO);
    assert_eq!(stat.as_static(), Some("hello"));
    assert!(stat.as_shared().is_none());
    let shared: Shared<str> = Shared::from(String::from("x"));
    assert!(shared.as_static().is_none());
    assert_eq!(shared.as_shared().map(|a| &**a), Some("x"));
}

#[test]
fn shared_from_string_holds_its_characters() {
    let h: Shared<str> = Shared::from(String::from("built"));
    assert!(h.is_shared());
    assert_eq!(&*h, "built");
    assert_eq!(h.as_ref().len(), 5);
}

#[test]
fn shared_from_arc_takes_the_allocation() {
    let arc = Arc::new(7u32);
    let h: Shared<u32> = Shared::from(Arc::clone(&arc));
    assert_eq!(Arc::strong_count(&arc), 2);
    assert!(Arc::ptr_eq(&arc, h.as_shared().unwrap()));
}

#[test]
fn shared_default_is_shared_default_value() {
    let h: Shared<str> = Shared::default();
    assert!(h.is_shared());
    assert_eq!(&*h, "");
    let n: Shared<u64> = Shared::default();
    assert!(n == 0u64);
}

#[test]
fn shared_clone_keeps_branch_and_allocation() {
    let stat: Shared<str> = Shared::from(HELLO);
    let c = stat.clone();
    assert!(c.is_static());
    assert_eq!(&*c, "hello");
    let arc: Arc<str> = Arc::from("y");
    let shared: Shared<str> = Shared::from(Arc::clone(&arc));
    let c2 = shared.clone();
    assert!(Arc::ptr_eq(&arc, c2.as_shared().unwrap()));
    assert_eq!(Arc::strong_count(&arc), 3);
}

#[test]
fn arc_or_ref_borrow_does_not_touch_count() {
    let a = Arc::new(42i32);
    assert_eq!(Arc::strong_count(&a), 1);
    let h: ArcOrRef<'_, i32> = ArcOrRef::from(&a);
    assert_eq!(*h, 42);
    assert_eq!(*h.as_ref(), 42);
    assert!(Arc::ptr_eq(&a, h.as_arc_ref()));
    assert_eq!(Arc::strong_count(&a), 1);
    let owned = h.into_arc();
    assert_eq!(Arc::strong_count(&a), 2);
    assert!(Arc::ptr_eq(&a, &owned));
}

#[test]
fn arc_or_ref_into_arc_of_borrowed_integer() {
    let a = Arc::new(42i32);
    let before = Arc::strong_count(&a);
    let b = ArcOrRef::<i32>::from(&a).into_arc();
    assert_eq!(*b, *a);
    assert_eq!(Arc::strong_count(&a), before + 1);
}

#[test]
fn arc_or_ref_into_arc_of_owned_moves() {
    let a = Arc::new(5u8);
    let h: ArcOrRef<'static, u8> = ArcOrRef::from(Arc::clone(&a));
    assert_eq!(Arc::strong_count(&a), 2);
    let b = h.into_arc();
    assert_eq!(Arc::strong_count(&a), 2);
    assert!(Arc::ptr_eq(&a, &b));
}

#[test]
fn arc_or_ref_into_owned_keeps_allocation() {
    let a: Arc<str> = Arc::from("own");
    let owned: ArcOrRef<'static, str> = {
        let h: ArcOrRef<'_, str> = ArcOrRef::from(&a);
        h.into_owned()
    };
    assert!(matches!(owned, ArcOrRef::Arc(_)));
    assert!(Arc::ptr_eq(&a, owned.as_arc_ref()));
    assert_eq!(Arc::strong_count(&a), 2);
}

#[test]
fn arc_or_ref_borrowed_and_owned_are_equal() {
    let a = Arc::new(String::from("same"));
    let borrowed: ArcOrRef<'_, String> = ArcOrRef::from(&a);
    let owned: ArcOrRef<'static, String> = ArcOrRef::from(String::from("same"));
    assert!(borrowed == owned);
    assert!(owned == borrowed);
    assert_eq!(hash_of(&borrowed), hash_of(&owned));
    assert_eq!(hash_of(&borrowed), hash_of("same"));
}

#[test]
fn arc_or_ref_orders_by_value() {
    let a = Arc::new(1u32);
    let small: ArcOrRef<'_, u32> = ArcOrRef::from(&a);
    let big: ArcOrRef<'static, u32> = ArcOrRef::from(2u32);
    assert!(small < big);
    assert!(big > small);
    assert_eq!(small.cmp(&big), Ordering::Less);
    assert_eq!(big.partial_cmp(&small), Some(Ordering::Greater));
}

#[test]
fn arc_or_ref_from_box_and_value() {
    let boxed: Box<str> = Box::from("boxed");
    let h: ArcOrRef<'static, str> = ArcOrRef::from(boxed);
    assert_eq!(&*h, "boxed");
    let v: ArcOrRef<'static, u16> = ArcOrRef::from(9u16);
    assert_eq!(*v, 9);
    assert_eq!(Arc::strong_count(v.as_arc_ref()), 1);
}

#[test]
fn arc_or_ref_clone_keeps_branch() {
    let a = Arc::new(3u8);
    let borrowed: ArcOrRef<'_, u8> = ArcOrRef::from(&a);
    let c = borrowed.clone();
    assert!(matches!(c, ArcOrRef::Ref(_)));
    assert_eq!(Arc::strong_count(&a), 1);
    let owned: ArcOrRef<'static, u8> = ArcOrRef::from(Arc::clone(&a));
    let c2 = owned.clone();
    assert!(matches!(c2, ArcOrRef::Arc(_)));
    assert_eq!(Arc::strong_count(&a), 3);
}

#[test]
fn static_or_boxed_branches_compare_as_values() {
    let stat: StaticOrBoxed<str> = StaticOrBoxed::from(HELLO);
    let boxed: StaticOrBoxed<str> = StaticOrBoxed::from(String::from("hello"));
    assert!(stat.is_static());
    assert!(boxed.is_boxed());
    assert!(*stat == *boxed);
    assert_eq!(hash_of(&stat), hash_of(&boxed));
    assert_eq!(hash_of(&stat), hash_of("hello"));
}

#[test]
fn static_or_boxed_compares_with_values() {
    let stat: StaticOrBoxed<i32> = StaticOrBoxed::from(&42);
    let boxed: StaticOrBoxed<i32> = StaticOrBoxed::from(Box::new(42));
    assert!(stat == 42i32);
    assert!(boxed == 42i32);
    assert!(stat < 50i32);
    assert!(boxed > 10i32);
    assert_eq!(boxed.partial_cmp(&42i32), Some(Ordering::Equal));
}

#[test]
fn static_or_boxed_accessors_report_branch() {
    let stat: StaticOrBoxed<str> = StaticOrBoxed::from(HELLO);
    assert_eq!(stat.as_static(), Some("hello"));
    assert!(stat.as_boxed().is_none());
    let boxed: StaticOrBoxed<str> = StaticOrBoxed::from(String::from("b"));
    assert!(boxed.as_static().is_none());
    assert_eq!(boxed.as_boxed().map(|b| &**b), Some("b"));
}

#[test]
fn static_or_boxed_clone_copies_value() {
    let boxed: StaticOrBoxed<Vec<u8>> = StaticOrBoxed::from(Box::new(vec![1u8, 2]));
    let c = boxed.clone();
    assert!(c.is_boxed());
    assert_eq!(*c, vec![1u8, 2]);
    let n: &'static i32 = &42;
    let stat: StaticOrBoxed<i32> = StaticOrBoxed::from(n);
    let c2 = stat.clone();
    assert!(c2.is_static());
    assert!(std::ptr::eq(c2.as_static().unwrap(), n));
}

#[test]
fn static_or_boxed_default_is_boxed_default() {
    let h: StaticOrBoxed<str> = StaticOrBoxed::default();
    assert!(h.is_boxed());
    assert_eq!(&*h, "");
}

#[test]
fn static_or_boxed_from_string_holds_its_characters() {
    let h: StaticOrBoxed<str> = StaticOrBoxed::from(String::from("text"));
    assert!(h.is_boxed());
    assert_eq!(&*h, "text");
}

#[test]
fn arc_or_ref_compares_across_value_types() {
    let view: Arc<str> = Arc::from("mixed");
    let borrowed: ArcOrRef<'_, str> = ArcOrRef::from(&view);
    let owned: ArcOrRef<'static, String> = ArcOrRef::from(String::from("mixed"));
    let other: ArcOrRef<'static, String> = ArcOrRef::from(String::from("zzz"));
    assert!(borrowed == owned);
    assert!(borrowed != other);
}
