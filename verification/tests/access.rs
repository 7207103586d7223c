use hlist::{Cons, Find, HList, Here, Nil, There};

#[test]
fn test_get() {
    let list = Nil.push(5i32).push("Foo");
    let a: i32 = *list.get();
    let b: &str = *list.get();
    assert!(a == 5i32);
    assert!(b == "Foo");
}

#[test]
fn test_index_as_type_parameter() {
    fn foo<I, L: Find<i32, I>>(list: &L) -> i32 {
        *list.get()
    }
    let list = Nil.push("foo").push(5i32).push("bar");
    assert!(foo(&list) == 5);
}

#[test]
fn push_puts_the_item_in_front_and_keeps_the_rest() {
    let one = Nil.push(7u8);
    assert_eq!(one.0, 7u8);
    let Cons(head, Nil) = one;
    assert_eq!(head, 7u8);

    let two = Nil.push(7u8).push("seven");
    assert_eq!(two.0, "seven");
    assert_eq!((two.1).0, 7u8);
}

#[test]
fn push_accepts_a_type_the_list_already_holds() {
    let list = Nil.push(1u32).push(2u32).push(3u32);
    let Cons(c, Cons(b, Cons(a, Nil))) = list;
    assert_eq!((a, b, c), (1u32, 2u32, 3u32));
}

#[test]
fn round_trip_finds_every_pushed_value_at_its_position() {
    let list = Nil.push(10u8).push(-20i16).push(30u32).push('x');
    assert_eq!(*Find::<char, Here>::get(&list), 'x');
    assert_eq!(*Find::<u32, There<Here>>::get(&list), 30u32);
    assert_eq!(*Find::<i16, There<There<Here>>>::get(&list), -20i16);
    assert_eq!(*Find::<u8, There<There<There<Here>>>>::get(&list), 10u8);
}

#[test]
fn construction_example_reads_both_elements() {
    let list = Nil.push(0i32).push(1i64);
    let at_zero: &i64 = Find::<i64, Here>::get(&list);
    let at_one: &i32 = Find::<i32, There<Here>>::get(&list);
    assert_eq!(*at_zero, 1i64);
    assert_eq!(*at_one, 0i32);
}

#[test]
fn construction_example_with_inferred_positions() {
    let list = Nil.push(0i32).push(1i64);
    let a: i64 = *list.get();
    assert!(a == 1);
    let b: i32 = *list.get();
    assert!(b == 0);
}

#[test]
fn inference_finds_the_only_element_of_a_type_at_the_head() {
    let list = Nil.push("first").push(2u8).push(3.5f64);
    let found: &f64 = list.get();
    assert_eq!(*found, 3.5f64);
}

#[test]
fn inference_finds_the_only_element_of_a_type_in_the_middle() {
    let list = Nil.push("first").push(2u8).push(3.5f64);
    let found: &u8 = list.get();
    assert_eq!(*found, 2u8);
}

#[test]
fn inference_finds_the_only_element_of_a_type_at_the_end() {
    let list = Nil.push("first").push(2u8).push(3.5f64);
    let found: &&str = list.get();
    assert_eq!(*found, "first");
}

#[test]
fn inference_does_not_depend_on_the_push_order() {
    let early = Nil.push(42u64).push('a').push(false);
    let late = Nil.push('a').push(false).push(42u64);
    let from_early: &u64 = early.get();
    let from_late: &u64 = late.get();
    assert_eq!(*from_early, 42u64);
    assert_eq!(*from_late, 42u64);
}

#[test]
fn duplicate_types_are_told_apart_by_position() {
    let a = String::from("pushed first");
    let b = String::from("pushed second");
    let list = Nil.push(a).push(b);
    assert_eq!(Find::<String, Here>::get(&list), "pushed second");
    assert_eq!(Find::<String, There<Here>>::get(&list), "pushed first");
}

#[test]
fn duplicate_types_below_other_elements() {
    let list = Nil.push(1i32).push(2i32).push("top");
    assert_eq!(*Find::<i32, There<Here>>::get(&list), 2i32);
    assert_eq!(*Find::<i32, There<There<Here>>>::get(&list), 1i32);
    let top: &&str = list.get();
    assert_eq!(*top, "top");
}

#[test]
fn single_element_list() {
    let list = Nil.push(vec![1u8, 2, 3]);
    let found: &Vec<u8> = list.get();
    assert_eq!(found, &vec![1u8, 2, 3]);
    assert_eq!(Find::<Vec<u8>, Here>::get(&list).len(), 3);
}

#[test]
fn a_list_can_be_an_element_of_a_list() {
    let inner = Nil.push(1u8).push(true);
    let outer = Nil.push("tag").push(inner);
    let found: &Cons<bool, Cons<u8, Nil>> = outer.get();
    let flag: &bool = found.get();
    let byte: &u8 = found.get();
    assert_eq!(*flag, true);
    assert_eq!(*byte, 1u8);
}

#[test]
fn get_borrows_without_consuming() {
    let list = Nil.push(5i32).push("Foo");
    let first: &i32 = list.get();
    let again: &i32 = list.get();
    assert_eq!(*first, 5);
    assert_eq!(*again, 5);
    let Cons(text, Cons(number, Nil)) = list;
    assert_eq!(text, "Foo");
    assert_eq!(number, 5);
}
