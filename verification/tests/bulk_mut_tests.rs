use bulks::{AsBulk, AsBulkMut, Bulk, BulkExt, IntoBulk};

#[test]
fn bulk_mut_replace() {
    let mut v = [1, 2, 3];
    let bulk = v.bulk_mut();
    let u: [_; 3] = bulk.map(|v| core::mem::replace(v, *v + 1)).collect();

    assert_eq!(v, [2, 3, 4]);
    assert_eq!(u, [1, 2, 3]);
}

#[test]
fn bulk_mut_on_vec_slice_and_option() {
    let mut v = vec![1, 2, 3];
    v.bulk_mut().for_each(|x| *x *= 10);
    assert_eq!(v, vec![10, 20, 30]);

    let s: &mut [i32] = &mut v[1..];
    s.bulk_mut().for_each(|x| *x += 1);
    assert_eq!(v, vec![10, 21, 31]);

    let mut o = Some(5);
    o.bulk_mut().for_each(|x| *x = 7);
    assert_eq!(o, Some(7));
    let mut n: Option<i32> = None;
    assert_eq!(n.bulk_mut().len(), 0);

    let r = (&v).into_bulk().copied().collect::<Vec<_>>();
    assert_eq!(r, vec![10, 21, 31]);
    assert_eq!(v.bulk().len(), 3);
}

#[test]
fn bulk_mut_rev_and_enumerate() {
    let mut a = [0usize; 4];
    a.bulk_mut().rev().enumerate().for_each(|(i, x)| *x = i);
    assert_eq!(a, [3, 2, 1, 0]);
}

#[test]
fn swap_through_bulk_mut_writes_back() {
    let mut a = [1, 2, 3, 4];
    let mut b = a.bulk_mut();
    b.swap_inplace(0, 3);
    assert_eq!(b.try_swap_inplace(1, 4), Err(()));
    assert_eq!(b.try_swap_inplace(1, 2), Ok(()));
    assert_eq!(a, [4, 3, 2, 1]);

    let mut v = vec![1, 2, 3];
    let mut s = v.bulk_mut();
    s.swap_inplace(0, 2);
    assert_eq!(s.try_swap_inplace(3, 0), Err(()));
    assert_eq!(v, vec![3, 2, 1]);
}
