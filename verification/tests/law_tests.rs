use bulks::{chain, AsBulk, Bulk, BulkExt, CollectNearest, DoubleEndedBulk, IntoBulk, IntoInplaceBulk};

#[test]
fn rev_twice_is_the_bulk() {
    let a = [3, 1, 4, 1, 5];
    let b = a.into_bulk().rev().rev().collect::<[_; 5]>();
    assert_eq!(b, a);
    assert_eq!(a.into_bulk().rev().rev().len(), 5);
}

#[test]
fn chain_split_gives_parts_back() {
    let x = [1, 2];
    let y = [3, 4, 5];
    let (l, r) = chain(x, y).split_at(2);
    assert_eq!(l.collect::<Vec<_>>(), vec![1, 2]);
    assert_eq!(r.collect::<Vec<_>>(), vec![3, 4, 5]);
    let (l, r) = chain(x, y).split_at(9);
    assert_eq!(l.collect::<Vec<_>>(), vec![1, 2, 3, 4, 5]);
    assert!(r.collect::<Vec<_>>().is_empty());
}

#[test]
fn chunks_and_remainder_reassemble() {
    let a = [1, 2, 3, 4, 5, 6, 7, 8];
    let (c, r) = a.into_bulk().array_chunks::<3>().collect_with_remainder::<Vec<_>>();
    let mut whole: Vec<i32> = c.into_bulk().flatten().collect();
    whole.extend(r.collect::<Vec<_>>());
    assert_eq!(whole, a.to_vec());
}

#[test]
fn chunk_consumers_see_the_same_chunks() {
    let a = [1, 2, 3, 4, 5, 6, 7];
    let mut seen = Vec::new();
    let r = a.into_bulk().array_chunks::<3>().for_each_with_remainder(|c| seen.push(c));
    let mut tried = Vec::new();
    let t = a.into_bulk().array_chunks::<3>().try_for_each_with_remainder(|c| {
        tried.push(c);
        Ok::<(), ()>(())
    });
    let (c, rest) = a.into_bulk().array_chunks::<3>().collect_with_remainder::<Vec<_>>();
    assert_eq!(seen, vec![[1, 2, 3], [4, 5, 6]]);
    assert_eq!(tried, seen);
    assert_eq!(c, seen);
    let r = r.collect::<Vec<_>>();
    assert_eq!(r, vec![7]);
    assert_eq!(t.ok().map(|b| b.collect::<Vec<_>>()), Some(r.clone()));
    assert_eq!(rest.collect::<Vec<_>>(), r);
}

#[test]
fn array_round_trip() {
    let a = [9u8, 8, 7, 6];
    assert_eq!(bulks::asm_bulk(a), a);
    let b: [u8; 4] = a.into_bulk().collect();
    assert_eq!(b, a);
}

#[test]
fn enumerate_is_zip_with_indices() {
    let a = *b"foo";
    let e = a.into_bulk().enumerate().collect::<Vec<_>>();
    let z = (0usize..3).into_bulk().zip(a).collect::<Vec<_>>();
    assert_eq!(e, z);
}

#[test]
fn flat_map_is_flatten_of_map() {
    let a = [1, 2, 3];
    let x = a.into_bulk().flat_map(|v| [v, 10 * v]).collect::<[_; 6]>();
    let y = a.into_bulk().map(|v| [v, 10 * v]).flatten().collect::<[_; 6]>();
    assert_eq!(x, y);
    assert_eq!(x, [1, 10, 2, 20, 3, 30]);
}

#[test]
fn swapping_twice_restores() {
    let a = [1, 2, 3, 4];
    let mut b = a.into_bulk();
    b.swap_inplace(0, 2);
    assert_eq!(b.into_inner(), [3, 2, 1, 4]);
    let mut b = a.into_bulk();
    b.swap_inplace(0, 2);
    b.swap_inplace(0, 2);
    assert_eq!(b.into_inner(), a);
    assert_eq!(bulks::asm_swap([1, 2, 3, 4]), [2, 1, 3, 4]);
    assert_eq!(bulks::asm_bench_swap([1, 2, 3, 4]), [2, 1, 3, 4]);
}

#[test]
fn try_swap_out_of_bounds_fails_and_keeps() {
    let mut b = [1, 2, 3].into_bulk();
    assert_eq!(b.try_swap_inplace(0, 3), Err(()));
    assert_eq!(b.try_swap_inplace(5, 1), Err(()));
    assert_eq!(b.into_inner(), [1, 2, 3]);
    let mut v = vec![1, 2, 3].into_bulk();
    assert_eq!(v.try_swap_inplace(2, 0), Ok(()));
    assert_eq!(v.try_swap_inplace(2, 3), Err(()));
    assert_eq!(v.into_inner(), vec![3, 2, 1]);
}

#[test]
fn lengths_are_predetermined() {
    let a = [1, 2, 3, 4, 5];
    assert_eq!(a.into_bulk().map(|x| x + 1).len(), 5);
    assert_eq!(a.into_bulk().enumerate().len(), 5);
    assert_eq!(a.into_bulk().rev().len(), 5);
    assert_eq!(a.into_bulk().inspect(|_| ()).len(), 5);
    assert_eq!(a.into_bulk().zip(a).len(), 5);
    assert_eq!(a.into_bulk().flat_map(|x| [x, x, x]).len(), 15);
    assert_eq!(a.into_bulk().intersperse(0).len(), 9);
    assert_eq!(a.into_bulk().array_chunks::<2>().len(), 2);
    assert_eq!(a.into_bulk().map_windows(|&[x, y]: &[i32; 2]| x + y).len(), 4);
    assert_eq!(a.into_bulk().step_by(2).len(), 3);
    assert_eq!(a.into_bulk().skip(2).len(), 3);
    assert_eq!(a.into_bulk().take(2).len(), 2);
    assert_eq!(a.into_bulk().chain(a).len(), 10);
    assert_eq!(a.into_bulk().resize(8, 0).len(), 8);
    assert_eq!(a.into_bulk().merge([1, 2], |x, y| x + y).len(), 5);
    assert_eq!(a.bulk().copied().len(), 5);
    assert_eq!([[1, 2], [3, 4]].into_bulk().flatten().len(), 4);
    assert_eq!(Some(1).into_bulk().len(), 1);
    assert_eq!(None::<i32>.into_bulk().len(), 0);
    assert_eq!((2u8..=4).into_bulk().len(), 3);
    assert_eq!((5i32..2).into_bulk().len(), 0);
}

#[test]
fn fold_in_order() {
    let a = ["a", "b", "c"];
    let s = a.into_bulk().fold(String::new(), |acc, x| acc + x);
    assert_eq!(s, "abc");
    assert_eq!([1, 2, 3].into_bulk().fold(0, |acc, x| acc * 10 + x), 123);
    assert_eq!(bulks::empty::<i32>().fold(7, |acc, x| acc + x), 7);
}

#[test]
fn try_fold_stops_at_error() {
    let r: Result<i32, ()> = ["1", "2", "3"].into_bulk().try_fold(0, |acc, s| s.parse::<i32>().map(|v| acc + v).map_err(|_| ()));
    assert_eq!(r, Ok(6));
    let mut seen = Vec::new();
    let r: Result<i32, &str> = ["1", "x", "3"].into_bulk().try_fold(0, |acc, s| {
        seen.push(s);
        s.parse::<i32>().map(|v| acc + v).map_err(|_| s)
    });
    assert_eq!(r, Err("x"));
    assert_eq!(seen, vec!["1", "x"]);
}

#[test]
fn try_reduce_cases() {
    let add = |a: i32, b: i32| a.checked_add(b).ok_or("overflow");
    assert_eq!([1, 2, 3].into_bulk().try_reduce(add), Ok(Some(6)));
    assert_eq!([i32::MAX, 1, 2].into_bulk().try_reduce(add), Err("overflow"));
    assert_eq!(bulks::empty::<i32>().try_reduce(add), Ok(None));
    assert_eq!([5].into_bulk().try_reduce(add), Ok(Some(5)));
}

#[test]
fn rev_for_each_orders() {
    let mut seen = Vec::new();
    [1, 2, 3].into_bulk().rev_for_each(|x| seen.push(x));
    assert_eq!(seen, vec![3, 2, 1]);
    let mut seen = Vec::new();
    let r = [1, 2, 3, 4].into_bulk().try_rev_for_each(|x| {
        seen.push(x);
        if x == 2 { Err(x) } else { Ok(()) }
    });
    assert_eq!(r, Err(2));
    assert_eq!(seen, vec![4, 3, 2]);
}

#[test]
fn collect_nearest_and_inplace() {
    let c: [i32; 3] = [3, 1, 2].into_bulk().rev().collect_nearest();
    assert_eq!(c, [2, 1, 3]);
    let e: [(usize, char); 2] = ['a', 'b'].bulk().copied().enumerate().map(|(i, c)| (i, c)).collect_nearest();
    assert_eq!(e, [(0, 'a'), (1, 'b')]);
    let v: Vec<i32> = [3, 1, 2].into_bulk().skip(1).collect_nearest();
    assert_eq!(v, vec![1, 2]);
    let w: Vec<i32> = vec![4, 5].into_bulk().map(|x| x + 1).collect_nearest();
    assert_eq!(w, vec![5, 6]);
    let mut b = vec![1, 2, 3].into_inplace_bulk();
    b.swap_inplace(0, 1);
    assert_eq!(b.into_inner(), vec![2, 1, 3]);
}

#[test]
fn resize_and_merge_edges() {
    assert_eq!(bulks::resize([1, 2, 3], 2, 0).collect::<Vec<_>>(), vec![1, 2]);
    assert_eq!(bulks::resize([1, 2, 3], 5, 0).collect::<Vec<_>>(), vec![1, 2, 3, 0, 0]);
    let mut k = 0;
    let v = bulks::resize_with([1, 2], 4, || {
        k += 1;
        10 * k
    })
    .collect::<Vec<_>>();
    assert_eq!(v, vec![1, 2, 10, 20]);
    let m = bulks::merge([1, 2, 3, 4], [10, 20], |a, b| a + b).collect::<Vec<i32>>();
    assert_eq!(m, vec![11, 22, 3, 4]);
    let m = bulks::merge([1], [10, 20, 30], |a, b| a + b).collect::<Vec<i32>>();
    assert_eq!(m, vec![11, 20, 30]);
    let r = bulks::repeat_n("x", 0).collect::<Vec<_>>();
    assert!(r.is_empty());
    assert_eq!(bulks::once_with(|| 3).collect::<Vec<_>>(), vec![3]);
}

#[test]
fn chain_try_for_each_stops_in_first_part() {
    let mut seen = Vec::new();
    let r = chain([1, 2], [3, 4]).try_for_each(|x| {
        seen.push(x);
        if x == 2 { Err(x) } else { Ok(()) }
    });
    assert_eq!(r, Err(2));
    assert_eq!(seen, vec![1, 2]);

    let mut seen = Vec::new();
    let r = chain([1, 2], [3, 4]).try_for_each(|x| {
        seen.push(x);
        if x == 3 { Err(x) } else { Ok(()) }
    });
    assert_eq!(r, Err(3));
    assert_eq!(seen, vec![1, 2, 3]);

    let r: Result<(), i32> = chain([1, 2], [3, 4]).try_for_each(|_| Ok(()));
    assert_eq!(r, Ok(()));
}

#[test]
fn ranges_and_rzip() {
    assert_eq!(bulks::range(2usize, 5).collect::<Vec<_>>(), vec![2, 3, 4]);
    assert_eq!(bulks::range_inclusive(2usize, 5).collect::<Vec<_>>(), vec![2, 3, 4, 5]);
    assert_eq!(bulks::range(5u8, 2).len(), 0);
    assert_eq!(bulks::range_inclusive(-2i32, -2).collect::<Vec<_>>(), vec![-2]);
    let z = bulks::rzip(0usize..10, *b"foo").collect::<Vec<_>>();
    assert_eq!(z, vec![(0, b'f'), (1, b'o'), (2, b'o')]);
}
