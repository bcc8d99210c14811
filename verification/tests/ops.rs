use type_vec::{IntoSize, Size, Vect};

#[test]
fn empty_constructors() {
    let v: Vect<u32> = Vect::new();
    assert_eq!(v.len(), 0);
    assert_eq!(v.into_vec(), Vec::<u32>::new());

    let v: Vect<u32> = Vect::with_capacity(16);
    assert_eq!(v.len(), 0);
    assert_eq!(v.into_vec(), Vec::<u32>::new());
}

#[test]
fn from_vec_is_dynamic() {
    let v = Vect::from_vec(vec![10u32, 20, 30]);
    assert_eq!(v.len(), 3);
    assert_eq!(v.try_get(1usize.into_size()), Some(&20));
    assert_eq!(v.into_vec(), vec![10, 20, 30]);
}

#[test]
fn push_appends() {
    let v: Vect<u32> = Vect::new();
    let v = v.push(8);
    assert_eq!(v.len(), 1);
    let v = v.push(9);
    assert_eq!(v.len(), 2);
    assert_eq!(v.into_vec(), vec![8, 9]);
}

#[test]
fn scenario_insert_remove_get() {
    // from an empty container: push 3, push 1, push 4
    let v: Vect<i64> = Vect::new();
    let v = v.push(3);
    let v = v.push(1);
    let v = v.push(4);
    assert_eq!(v.len(), 3);

    // insert 7 at the front
    let v = v.insert(Size::Exact(0), 7);
    assert_eq!(v.len(), 4);

    // insert 5 at the end position, which the inclusive bound admits
    let v = v.insert(Size::Exact(4), 5);
    assert_eq!(v.len(), 5);

    // insert 6 at the new end position
    let v = v.insert(Size::Exact(5), 6);
    assert_eq!(v.len(), 6);
    assert_eq!(v.try_get(0usize.into_size()), Some(&7));
    assert_eq!(v.try_get(1usize.into_size()), Some(&3));
    assert_eq!(v.try_get(2usize.into_size()), Some(&1));
    assert_eq!(v.try_get(3usize.into_size()), Some(&4));
    assert_eq!(v.try_get(4usize.into_size()), Some(&5));
    assert_eq!(v.try_get(5usize.into_size()), Some(&6));

    let (v, removed) = v.remove(Size::Exact(5));
    assert_eq!(removed, 6);
    assert_eq!(v.len(), 5);

    let (v, removed) = v.remove(Size::Exact(4));
    assert_eq!(removed, 5);
    assert_eq!(v.len(), 4);

    assert_eq!(v.get(Size::Exact(0)), &7);
    assert_eq!(v.get(Size::Exact(1)), &3);
    assert_eq!(v.get(Size::Exact(2)), &1);
    assert_eq!(v.get(Size::Exact(3)), &4);
    assert_eq!(v.try_get(4usize.into_size()), None);

    assert_eq!(v.into_vec(), vec![7, 3, 1, 4]);
}

#[test]
fn pop_twice() {
    let v: Vect<i64> = Vect::new();
    let v = v.push(7);
    let v = v.push(3);
    let v = v.push(1);
    let v = v.push(4);

    let (v, e) = v.pop();
    assert_eq!(e, 4);
    let (v, e) = v.pop();
    assert_eq!(e, 1);
    assert_eq!(v.len(), 2);
    assert_eq!(v.into_vec(), vec![7, 3]);
}

#[test]
fn try_pop_dynamic() {
    let v = Vect::from_vec(vec![7i64, 3, 1, 4]);
    let (v, e) = v.try_pop().unwrap();
    assert_eq!(e, 4);
    let (v, e) = v.try_pop().unwrap();
    assert_eq!(e, 1);
    assert_eq!(v.len(), 2);
    assert_eq!(v.into_vec(), vec![7, 3]);
}

#[test]
fn try_pop_empty_is_absent() {
    let v: Vect<u8> = Vect::from_vec(Vec::new());
    assert!(v.try_pop().is_none());
}

#[test]
fn retag_round_trip() {
    let v: Vect<u16> = Vect::new();
    let v = v.push(11);
    let v = v.push(22);
    let n = v.len();

    let d = v.into_dyn();
    assert_eq!(d.len(), n);

    // converting back at the true length succeeds and keeps the content
    let r = d.into_static(n);
    let r = r.unwrap();
    assert_eq!(r.len(), 2);
    assert_eq!(r.into_vec(), vec![11, 22]);
}

#[test]
fn retag_wrong_length_is_absent() {
    let v: Vect<u16> = Vect::new();
    let v = v.push(11);
    let v = v.push(22);
    let n = v.len();
    let d = v.into_dyn();
    assert!(d.into_static(n + 1).is_none());
}

#[test]
fn into_static_from_dynamic_source() {
    let d = Vect::from_vec(vec![1u8, 2, 3]);
    assert!(d.into_static(4).is_none());

    let d = Vect::from_vec(vec![1u8, 2, 3]);
    let s = d.into_static(3).unwrap();
    assert_eq!(s.get(Size::Exact(2)), &3);
}
