use lib_shared::vec::IntoIter;
use lib_shared::Vector;

#[test]
fn vector_collect() {
    let col = Vector::from_vec((0..10i32).into_iter().filter(|x| *x == 1).collect::<Vec<_>>());
    println!("collecting {:?}", col);
    assert_eq!(col.len(), 1);
    assert_eq!(col[0], 1);
}

#[test]
fn vector_push_keeps_order_through_the_shapes() {
    let mut v: Vector<i32> = Vector::new();
    assert!(v.is_empty());
    assert!(matches!(v, Vector::Empty));
    v.push(7);
    assert!(matches!(v, Vector::One(7)));
    v.push(8);
    v.push(9);
    assert_eq!(v.len(), 3);
    assert_eq!(v.as_slice(), &[7, 8, 9]);
    assert_eq!(v[2], 9);
    assert!(!v.is_empty());
}

#[test]
fn vector_remove_at_in_and_out_of_range() {
    let mut v: Vector<i32> = Vector::new();
    assert_eq!(v.remove_at(0), None);
    v.push(5);
    assert_eq!(v.remove_at(1), None);
    assert_eq!(v.len(), 1);
    assert_eq!(v.remove_at(0), Some(5));
    assert!(v.is_empty());
    for x in 0..5 {
        v.push(x);
    }
    assert_eq!(v.remove_at(1), Some(1));
    assert_eq!(v.as_slice(), &[0, 2, 3, 4]);
    assert_eq!(v.remove_at(4), None);
    assert_eq!(v.as_slice(), &[0, 2, 3, 4]);
}

#[test]
fn vector_remove_all_drops_every_match() {
    let mut v = Vector::from_vec(vec![1, 2, 3, 4, 5, 6]);
    v.remove_all(|x| x % 2 == 0);
    assert_eq!(v.as_slice(), &[1, 3, 5]);
    v.remove_all(|_| false);
    assert_eq!(v.as_slice(), &[1, 3, 5]);
    v.remove_all(|_| true);
    assert_eq!(v.len(), 0);
    let mut one = Vector::from_vec(vec![4]);
    one.remove_all(|x| *x == 4);
    assert!(one.is_empty());
    let mut none: Vector<i32> = Vector::default();
    none.remove_all(|_| true);
    assert!(none.is_empty());
}

#[test]
fn vector_remove_last_takes_the_last_match() {
    let mut v = Vector::from_vec(vec![1, 2, 3, 2, 5]);
    assert_eq!(v.remove_last(|x| *x == 2), Some(2));
    assert_eq!(v.as_slice(), &[1, 2, 3, 5]);
    assert_eq!(v.remove_last(|x| *x > 10), None);
    assert_eq!(v.as_slice(), &[1, 2, 3, 5]);
    let mut one = Vector::from_vec(vec![9]);
    assert_eq!(one.remove_last(|x| *x == 8), None);
    assert_eq!(one.remove_last(|x| *x == 9), Some(9));
    assert!(one.is_empty());
}

#[test]
fn vector_contains_and_clear() {
    let mut v = Vector::from_vec(vec![3]);
    assert!(v.contains(&3));
    assert!(!v.contains(&4));
    v.push(4);
    assert!(v.contains(&4));
    assert!(!v.contains(&5));
    v.clear();
    assert!(!v.contains(&3));
    assert!(v.is_empty());
}

#[test]
fn vector_slices_and_iteration() {
    let mut v = Vector::from_vec(vec![1, 2]);
    v.as_mut_slice()[0] = 10;
    assert_eq!(v.as_slice(), &[10, 2]);
    let mut one = Vector::from_vec(vec![1]);
    one.as_mut_slice()[0] = 11;
    assert_eq!(one[0], 11);
    let total: i32 = v.iter().sum();
    assert_eq!(total, 12);
    let mut it: IntoIter<i32> = v.into_iter();
    assert_eq!(it.size_hint(), (2, Some(2)));
    assert_eq!(it.as_slice(), &[10, 2]);
    it.as_mut_slice()[1] = 3;
    assert_eq!(it.next(), Some(10));
    assert_eq!(it.next(), Some(3));
    assert_eq!(it.next(), None);
    assert_eq!(it.size_hint(), (0, Some(0)));
    let empty: Vector<u8> = Vector::new();
    assert_eq!(empty.as_slice().len(), 0);
    assert_eq!(empty.into_iter().next(), None);
}

#[test]
fn vector_one_element_slices() {
    let mut v: Vector<&str> = Vector::new();
    v.push("only");
    assert_eq!(v.as_slice(), &["only"]);
    assert_eq!(v.iter().count(), 1);
    assert_eq!(&*v, &["only"]);
}

#[test]
fn vector_borrowed_iteration() {
    let v = Vector::from_vec(vec![2, 4, 6]);
    let mut seen = Vec::new();
    for x in &v {
        seen.push(*x);
    }
    assert_eq!(seen, vec![2, 4, 6]);
}

#[test]
fn vector_from_vec_takes_the_pushed_form() {
    assert!(matches!(Vector::<i32>::from_vec(vec![]), Vector::Empty));
    assert!(matches!(Vector::from_vec(vec![4]), Vector::One(4)));
    match Vector::from_vec(vec![4, 5]) {
        Vector::Dynamic(list) => assert_eq!(list, vec![4, 5]),
        _ => panic!("two elements are kept in a Vec"),
    }
}

#[test]
fn vector_removals_keep_the_form() {
    let mut one = Vector::from_vec(vec![1]);
    assert_eq!(one.remove_at(3), None);
    assert!(matches!(one, Vector::One(1)));
    assert_eq!(one.remove_at(0), Some(1));
    assert!(matches!(one, Vector::Empty));

    let mut dynamic = Vector::from_vec(vec![1, 2]);
    assert_eq!(dynamic.remove_at(0), Some(1));
    assert_eq!(dynamic.remove_at(0), Some(2));
    assert!(matches!(&dynamic, Vector::Dynamic(list) if list.is_empty()));

    let mut all = Vector::from_vec(vec![7]);
    all.remove_all(|x| *x == 7);
    assert!(matches!(all, Vector::Empty));
    let mut kept = Vector::from_vec(vec![7]);
    kept.remove_all(|x| *x == 8);
    assert!(matches!(kept, Vector::One(7)));

    let mut last = Vector::from_vec(vec![9]);
    assert_eq!(last.remove_last(|x| *x == 9), Some(9));
    assert!(matches!(last, Vector::Empty));
    let mut many = Vector::from_vec(vec![1, 9, 3]);
    many.remove_all(|x| *x != 3);
    assert!(matches!(&many, Vector::Dynamic(list) if list == &vec![3]));
}

#[test]
fn vector_into_iter_after_some_nexts() {
    let mut it = Vector::from_vec(vec![10, 20, 30]).into_iter();
    assert_eq!(it.as_slice(), &[10, 20, 30]);
    assert_eq!(it.next(), Some(10));
    assert_eq!(it.as_slice(), &[20, 30]);
    assert_eq!(it.size_hint(), (2, Some(2)));
    it.as_mut_slice()[1] = 33;
    assert_eq!(it.next(), Some(20));
    assert_eq!(it.next(), Some(33));
    assert_eq!(it.as_slice(), &[] as &[i32]);
    assert_eq!(it.next(), None);
    assert_eq!(it.next(), None);
}
