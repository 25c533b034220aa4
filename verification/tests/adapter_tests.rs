use bulks::{once_with, repeat_n_with, AsBulk, Bulk, BulkExt, IntoBulk};

#[test]
fn array_chunks_it_works() {
    let b = {
        let a: [u32; 6] = [1, 2, 3, 4, 5, 6];
        a.into_bulk().array_chunks::<2>().rev().enumerate().collect::<[_; 3]>()
    };

    println!("{b:?}");
    assert_eq!(b, [(0, [5, 6]), (1, [3, 4]), (2, [1, 2])]);

    let c = b
        .into_bulk()
        .map(|(_, b)| b.into_bulk().map(|b: u32| b.checked_sub(3)).collect::<Option<[_; 2]>>())
        .collect::<[_; 3]>();

    println!("{c:?}");
    assert_eq!(c, [Some([2, 3]), Some([0, 1]), None]);

    let a = [1, 2, 3, 4, 5, 6];
    let (b, r) = a.into_bulk().array_chunks::<4>().collect_with_remainder::<[_; 1]>();
    let r = r.collect::<Vec<_>>();

    println!("b = {b:?}");
    println!("r = {r:?}");
    assert_eq!(b, [[1, 2, 3, 4]]);
    assert_eq!(r, vec![5, 6]);
}

#[test]
fn chain_it_works() {
    let (a, b) = {
        let a = [1, 2, 3];
        let b = [4, 5, 6];

        let (a, b) = a.into_bulk().chain(b).split_at(4);
        (a.collect_array::<4>(), b.collect_array::<2>())
    };

    println!("{a:?} {b:?}");
    assert_eq!(a, [1, 2, 3, 4]);
    assert_eq!(b, [5, 6]);
}

#[test]
fn cloned_it_works() {
    let a = ["it", "works", "right?"];
    let a = a.into_bulk().map(|s| s.to_string()).collect::<[_; 3]>();
    let a = a.bulk().collect::<[_; 3]>();

    let b = a.into_bulk().cloned().collect::<[_; 3]>();

    println!("{b:?}");
    assert_eq!(b, ["it".to_string(), "works".to_string(), "right?".to_string()]);
}

#[test]
fn copied_it_works() {
    let a = ['v', 'e', 'r', 'y', 'c', 'o', 'o', 'l'];
    let a = a.bulk().collect_array::<8>();
    let b = a.into_bulk().copied().collect_array::<8>();

    println!("{b:?}");
    assert_eq!(b, ['v', 'e', 'r', 'y', 'c', 'o', 'o', 'l']);
}

#[test]
fn enumerate_it_works() {
    let a = ['0', '1', '2', '3', '4', '5', '6', '7'];

    for (i, a) in a.into_bulk().enumerate().collect::<Vec<_>>() {
        assert_eq!(i, a.to_string().parse().unwrap())
    }
}

#[test]
fn enumerate_from_it_works() {
    let a = ['1', '2', '3', '4', '5', '6', '7', '8'];

    for (i, a) in a.into_bulk().enumerate_from(1).collect::<Vec<_>>() {
        assert_eq!(i, a.to_string().parse().unwrap())
    }
}

#[test]
fn flat_map_it_works() {
    let a = [1, 2, 3];
    let b = a.into_bulk().flat_map(|x| [x, -x]).collect::<[_; 6]>();

    println!("{b:?}");
    assert_eq!(b, [1, -1, 2, -2, 3, -3]);
}

#[test]
fn flatten_it_works() {
    let a = [[1, -1], [2, -2], [3, -3]];
    let b = a.into_bulk().flatten().collect_array::<6>();

    println!("{b:?}");
    assert_eq!(b, [1, -1, 2, -2, 3, -3]);
}

#[test]
fn inspect_it_works() {
    let a = ['0', '1', '2', '3', '4', '5', '6', '7'];

    let b = a.into_bulk().map(|a| a.to_string().parse::<usize>()).try_collect_array::<8>().unwrap();

    println!("{b:?}");

    let c = b
        .into_bulk()
        .enumerate()
        .inspect(|&(i, a)| assert_eq!(i, a))
        .map(|(_, a)| a.to_string().chars().next())
        .try_collect_array::<8>()
        .unwrap();

    assert_eq!(a, c);
}

#[test]
fn intersperse_it_works() {
    let a = ['H', 'e', 'l', 'l', 'o'];
    let b = '_';

    let c_ref = a.bulk().intersperse(&b).collect::<String>();
    let c = a.into_bulk().intersperse(b).collect::<String>();

    assert_eq!(c, c_ref);
    println!("{:?}", c);
    assert_eq!(c, "H_e_l_l_o");
}

#[test]
fn intersperse_with_it_works() {
    let a = ['H', 'e', 'l', 'l', 'o'];
    let b = '_';
    let c = a.into_bulk().intersperse_with(|| b).collect::<String>();

    println!("{:?}", c);
    assert_eq!(c, "H_e_l_l_o");
}

#[test]
fn map_windows_it_works() {
    let mut i = 0;
    let a = repeat_n_with(
        || {
            i += 1;
            i
        },
        20,
    )
    .map_windows(|&[n, m]| n + m)
    .collect::<[_; 19]>();

    println!("{a:?}");
    let expected: Vec<i32> = (1..20).map(|n| 2 * n + 1).collect();
    assert_eq!(a.to_vec(), expected);
}

#[test]
fn merge_it_works() {
    let a = [1, 3, 5];
    let b = [2, 4, 6, 7];
    let bulk = a.into_bulk().merge(b, |a, b| a + b);
    let c = bulk.collect::<[_; 4]>();

    println!("{c:?}");
    assert_eq!(c, [3, 7, 11, 7])
}

#[test]
fn once_with_it_works() {
    fn one() -> i32 {
        1
    }

    let a = once_with(one).collect::<[_; 1]>();
    assert_eq!(a, [1])
}

#[test]
fn repeat_n_with_it_works() {
    let mut i = 0;
    let a = repeat_n_with(
        || {
            i += 1;
            i
        },
        4,
    )
    .collect_array::<4>();
    assert_eq!(a, [1, 2, 3, 4])
}

#[test]
fn resize_with_it_works() {
    let a = bulks::range(0, 7).rev().resize_with(10, || 7).collect::<Vec<_>>();

    println!("{a:?}");
    assert_eq!(a, vec![6, 5, 4, 3, 2, 1, 0, 7, 7, 7]);
}

#[test]
fn rev_it_works() {
    let a = [1, 2, 3, 4, 5, 6];
    let (a, b) = a.into_bulk().rev().split_at(2);
    let a = a.collect_array::<2>();
    let b = b.collect_array::<4>();

    println!("a = {a:?}");
    println!("b = {b:?}");
    assert_eq!(a, [6, 5]);
    assert_eq!(b, [4, 3, 2, 1]);
}

#[test]
fn skip_it_works() {
    let a = [1, 2, 3, 4, 5, 6, 7];
    let (a, b) = a.into_bulk().skip(2).split_at(2);
    let a = a.collect_array::<2>();
    let b = b.collect_array::<3>();

    println!("a = {a:?}");
    println!("b = {b:?}");
    assert_eq!(a, [3, 4]);
    assert_eq!(b, [5, 6, 7]);
}

#[test]
fn step_by_it_works() {
    let a = [1, 2, 3, 4, 5, 6, 7, 8, 9, 10];
    let a_even = a.into_bulk().step_by(2).collect::<[_; 5]>();
    println!("{a_even:?}");
    assert_eq!(a_even, [1, 3, 5, 7, 9]);

    let a_odd = a.into_bulk().skip(1).step_by(2).collect::<[_; 5]>();
    println!("{a_odd:?}");
    assert_eq!(a_odd, [2, 4, 6, 8, 10]);
}

#[test]
fn zip_it_works() {
    let a = [1, 3, 5];
    let b = [2, 4, 6];
    let bulk = a.into_bulk().zip(b).map(|(a, b)| a + b);
    let c = bulk.collect::<[_; 3]>();
    println!("{c:?}");
    assert_eq!(c, [3, 7, 11]);
}

#[test]
fn ugly() {
    let a = [1, 2, 3];
    let b = [2, 3, 4];

    let zipped = a.into_bulk().map(|x| x * 2).skip(1).zip(b.into_bulk().map(|x| x * 2).skip(1));

    let c = zipped.collect::<[_; 2]>();
    assert_eq!(c, [(4, 6), (6, 8)]);
}
