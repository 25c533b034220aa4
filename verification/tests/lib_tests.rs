use bulks::{AsBulk, Bulk, BulkExt, CollectNearest, IntoBulk, IntoInplaceBulk};

#[test]
fn lib_it_works() {
    let a: [i32; 3] = [1, 2, 3];

    let f = |x| (x - 1) as usize;

    let b = a.bulk().copied().map(f).enumerate().inspect(|(i, x)| assert_eq!(i, x)).collect_nearest();

    assert_eq!(b, [(0, 0), (1, 1), (2, 2)] as [(usize, usize); 3]);
}

#[test]
fn nearest() {
    let a: [i32; 3] = [1, 2, 3];

    let f = |x| (x - 1) as usize;

    let b = a.bulk().copied().map(f).enumerate().inspect(|(i, x)| assert_eq!(i, x));

    fn nearest<T>(bulk: T) -> <T as CollectNearest>::Nearest
    where
        T: CollectNearest,
    {
        bulk.collect_nearest()
    }

    let b = nearest(b);

    assert_eq!(b, [(0, 0), (1, 1), (2, 2)] as [(usize, usize); 3]);
}

#[test]
fn test_option() {
    let a: [i32; 1] = [1];
    let b: [i32; 0] = [];

    let a: Option<i32> = a.into_bulk().map(|x| x + 1).collect();
    let b: Option<i32> = b.into_bulk().map(|x| x + 1).collect();

    assert_eq!(a, Some(2));
    assert_eq!(b, None);
}

#[test]
fn test_swap() {
    let a = [1, 2, 3, 4];

    let mut bulk = a.into_bulk();

    bulk.try_swap_inplace(0, 3).unwrap();
    bulk.try_swap_inplace(1, 2).unwrap();

    let b: [i32; 4] = bulk.rev().collect_array();

    assert_eq!(a, b);
    println!("{a:?}");
}

#[test]
fn array_it_works() {
    let a = [1, 2, 3];
    let b: [i32; 3] = a.bulk().copied().rev().map(|x| 4 - x).collect::<[i32; 3]>();
    println!("{:?}", b);
    assert_eq!(b, [1, 2, 3]);
}

#[test]
fn impl_array_it_works() {
    let a = [1, 2, 3];

    let b: [i32; 3] = a.bulk().copied().rev().map(|x| 4 - x).collect();

    println!("{:?}", b);
    assert_eq!(b, [1, 2, 3]);
}

#[test]
fn vec() {
    let a = vec![1i32, 2, 3, 4, 5];

    let bulk = a.into_bulk().map(|x| x as f64);

    let b: Vec<f64> = bulk.collect();

    println!("{b:?}");
    assert_eq!(b, vec![1.0, 2.0, 3.0, 4.0, 5.0]);
}

#[test]
fn test() {
    let r = 0usize..4;
    let r = r.into_bulk().map(|n| n + 1).collect::<Vec<_>>();

    assert_eq!(r, [1, 2, 3, 4]);

    let r = 0u16..=4;
    let r = r.into_bulk().map(|n| n + 1).collect::<Vec<_>>();

    assert_eq!(r, [1, 2, 3, 4, 5]);
}

#[test]
fn into_inplace_bulk_it_works() {
    let a = [1, 2, 3, 4, 5];

    let mut b = a.into_bulk().map(|x| 6 - x).into_inplace_bulk();

    b.swap_inplace(1, 3);

    let c = b.collect_nearest();

    assert_eq!(c, [5, 2, 3, 4, 1])
}
