use bulks::{empty, once, repeat_n, repeat_n_with, zip, AsBulk, Bulk, BulkExt, FromBulkExt, IntoBulk};

#[test]
fn len_of_range() {
    let range = (0..5).into_bulk();
    assert_eq!(range.len(), 5);
}

#[test]
fn once_is_not_empty() {
    let one_element = once(0);
    assert!(!one_element.is_empty());
    assert!(empty::<i32>().is_empty());
}

#[test]
fn first_last_nth() {
    let a = [1, 2, 3];
    assert_eq!(a.into_bulk().first(), Some(1));
    assert_eq!(a.into_bulk().last(), Some(3));
    assert_eq!(a.into_bulk().nth(0), Some(1));
    assert_eq!(a.into_bulk().nth(2), Some(3));
    assert_eq!(a.into_bulk().nth(3), None);
    assert_eq!(empty::<i32>().first(), None);
    assert_eq!(empty::<i32>().last(), None);
}

#[test]
fn for_each_visits_in_order() {
    let a = [1, 2, 3, 4];
    let mut x0 = 0;
    a.into_bulk().for_each(|x| {
        assert_eq!(x, x0 + 1);
        x0 = x;
    });
    assert_eq!(x0, 4);
}

#[test]
fn try_for_each_stops_at_error() {
    let a = ["1", "2", "3", "4", "wrong"];
    let mut x0 = 0;
    let res = a.into_bulk().try_for_each(|x| {
        let x = x.parse::<u32>().map_err(|_| x)?;
        assert_eq!(x, x0 + 1);
        x0 = x;
        Ok(())
    });
    assert_eq!(res, Err("wrong"));
    assert_eq!(x0, 4);
}

#[test]
fn step_by_even_and_odd() {
    let a = [0, 1, 2, 3, 4, 5];
    let a_even = a.into_bulk().step_by(2).collect::<[_; 3]>();
    assert_eq!(a_even, [0, 2, 4]);
    let a_odd = a.into_bulk().skip(1).step_by(2).collect::<[_; 3]>();
    assert_eq!(a_odd, [1, 3, 5]);
}

#[test]
fn chain_arrays_and_bytes() {
    let s = b"abc".into_bulk().chain(b"def").copied().collect::<[u8; 6]>();
    assert_eq!(&s, b"abcdef");
    let a = [1, 2, 3].into_bulk().chain([4, 5, 6]).collect::<[_; 6]>();
    assert_eq!(a, [1, 2, 3, 4, 5, 6]);
    let a = bulks::chain([1, 2, 3], [4, 5, 6]).collect::<[_; 6]>();
    assert_eq!(a, [1, 2, 3, 4, 5, 6]);
}

#[test]
fn zip_pairs_and_nested() {
    let s = b"abc".into_bulk().copied().zip(b"def".into_bulk().copied()).collect::<[_; 3]>();
    assert_eq!(s, [(b'a', b'd'), (b'b', b'e'), (b'c', b'f')]);
    let xs = [1, 2, 3];
    let ys = [4, 5, 6];
    let zs = [7, 8, 9];
    let s = zip(xs, ys).collect::<[_; 3]>();
    assert_eq!(s, [(1, 4), (2, 5), (3, 6)]);
    let s = zip(zip(xs, ys), zs).collect::<[_; 3]>();
    assert_eq!(s, [((1, 4), 7), ((2, 5), 8), ((3, 6), 9)]);
    let c = zip([1, 2, 3].into_bulk().map(|x| x * 2).skip(1), [2, 3, 4].into_bulk().map(|x| x * 2).skip(1))
        .collect::<[_; 2]>();
    assert_eq!(c, [(4, 6), (6, 8)]);
}

#[test]
fn intersperse_numbers() {
    let a = [0, 1, 2].into_bulk().intersperse(100).collect::<[_; 5]>();
    assert_eq!(a, [0, 100, 1, 100, 2]);
    let words = ["Hello", "World", "!"];
    let hello: String = words.into_bulk().intersperse(" ").collect();
    assert_eq!(hello, "Hello World !");
}

#[derive(PartialEq, Debug)]
struct NotClone(usize);

#[test]
fn intersperse_with_not_clone() {
    let v = [NotClone(0), NotClone(1), NotClone(2)];
    let u = v.into_bulk().intersperse_with(|| NotClone(99)).collect::<[_; 5]>();
    assert_eq!(u, [NotClone(0), NotClone(99), NotClone(1), NotClone(99), NotClone(2)]);
}

#[test]
fn collect_chars_into_string() {
    let chars = ['g', 'd', 'k', 'k', 'n'];
    let hello: String = chars.bulk().map(|&x| x as u8).map(|x| (x + 1) as char).collect();
    assert_eq!(hello, "hello");
}

#[test]
fn map_and_rev() {
    let a = [1, 2, 3];
    let b = a.bulk().map(|x| 2 * x).collect::<[_; 3]>();
    assert_eq!(b, [2, 4, 6]);
    let v: [i32; 3] = [1, 2, 3].into_bulk().map(|x| x + 1).rev().collect();
    assert_eq!(v, [4, 3, 2]);
    let b: [i32; 3] = a.into_bulk().rev().collect();
    assert_eq!(b, [3, 2, 1]);
}

#[test]
fn map_with_state_forward() {
    let mut c = 0;
    let pairs = ['a', 'b', 'c']
        .into_bulk()
        .map(|letter| {
            c += 1;
            (letter, c)
        })
        .collect::<Vec<_>>();
    assert_eq!(pairs, vec![('a', 1), ('b', 2), ('c', 3)]);
}

#[test]
fn map_with_state_reversed() {
    let mut c = 0;
    let pairs = ['a', 'b', 'c']
        .into_bulk()
        .map(|letter| {
            c += 1;
            (letter, c)
        })
        .rev()
        .collect::<Vec<_>>();
    assert_eq!(pairs, vec![('c', 1), ('b', 2), ('a', 3)]);
}

#[test]
fn repeat_n_with_reversed() {
    let mut i = 0;
    let a = repeat_n_with(
        || {
            i += 1;
            i
        },
        4,
    )
    .rev()
    .collect::<Vec<_>>();
    assert_eq!(a, vec![1, 2, 3, 4]);
}

#[test]
fn inspect_reversed_order() {
    let mut seen = Vec::new();
    let b = [1, 2].into_bulk().chain([3, 4]).inspect(|x| seen.push(*x)).rev().collect::<Vec<_>>();
    assert_eq!(b, vec![4, 3, 2, 1]);
    assert_eq!(seen, vec![4, 3, 2, 1]);
    let mut seen = Vec::new();
    let b = [1, 2].into_bulk().inspect(|x| seen.push(*x)).enumerate().rev().collect::<Vec<_>>();
    assert_eq!(b, vec![(1, 2), (0, 1)]);
    assert_eq!(seen, vec![2, 1]);
    let mut calls = Vec::new();
    let b = [1, 2].into_bulk().flat_map(|x| {
        calls.push(x);
        [x, x * 10]
    }).rev().collect::<Vec<_>>();
    assert_eq!(b, vec![20, 2, 10, 1]);
    assert_eq!(calls, vec![2, 1]);
}

#[test]
fn enumerate_chars() {
    let b = ['a', 'b', 'c'].into_bulk().enumerate().collect::<[_; 3]>();
    assert_eq!(b, [(0, 'a'), (1, 'b'), (2, 'c')]);
    let e = (*b"foo").into_bulk().enumerate().collect::<[_; 3]>();
    assert_eq!(e, [(0, b'f'), (1, b'o'), (2, b'o')]);
    let e = (*b"foo").into_bulk().enumerate_from(1).collect::<[_; 3]>();
    assert_eq!(e, [(1, b'f'), (2, b'o'), (3, b'o')]);
}

#[test]
fn skip_and_take() {
    let a = [1, 2, 3];
    let b = a.into_bulk().skip(2).collect::<[_; 1]>();
    assert_eq!(b, [3]);
    let c = a.into_bulk().skip(2).collect::<Vec<_>>();
    assert_eq!(c, [3]);
    let b = a.into_bulk().take(3).collect::<Vec<_>>();
    assert_eq!(b, [1, 2, 3]);
    let b = a.into_bulk().take(2).collect::<Vec<_>>();
    assert_eq!(b, [1, 2]);
    let b = [1, 2].into_bulk().take(5).collect::<[_; 2]>();
    assert_eq!(b, [1, 2]);
    let b = bulks::take([1, 2, 3], 1).collect::<Vec<_>>();
    assert_eq!(b, [1]);
    let b = a.into_bulk().skip(7).collect::<Vec<_>>();
    assert!(b.is_empty());
}

#[test]
fn flatten_nested() {
    let data = [[1, 2, 3], [4, 5, 6]];
    let flattened: [_; 6] = data.into_bulk().flatten().collect();
    assert_eq!(flattened, [1, 2, 3, 4, 5, 6]);
    let d3 = [[[1, 2], [3, 4]], [[5, 6], [7, 8]]];
    let d2: [_; 4] = d3.into_bulk().flatten().collect();
    assert_eq!(d2, [[1, 2], [3, 4], [5, 6], [7, 8]]);
    let d1: [_; 8] = d3.into_bulk().flatten().flatten().collect();
    assert_eq!(d1, [1, 2, 3, 4, 5, 6, 7, 8]);
}

#[test]
fn map_windows_examples() {
    let strings = b"abcd"
        .bulk()
        .map(|&c| char::from(c))
        .map_windows(|[x, y]: &[char; 2]| format!("{}+{}", x, y))
        .collect::<[_; 3]>();
    assert_eq!(strings, ["a+b", "b+c", "c+d"]);

    let w = [1, 3, 8, 1].bulk().map_windows(|&[a, b]: &[&i32; 2]| a + b).collect::<[_; 3]>();
    assert_eq!(w, [1 + 3, 3 + 8, 8 + 1]);

    let w = b"ferris"
        .bulk()
        .map_windows(|w: &[&u8; 3]| w.bulk().copied().copied().collect::<[_; 3]>())
        .collect::<[_; 4]>();
    assert_eq!(w, [[b'f', b'e', b'r'], [b'e', b'r', b'r'], [b'r', b'r', b'i'], [b'r', b'i', b's']]);

    let w = [0.5, 1.0, 3.5, 3.0, 8.5, 8.5, f32::NAN].bulk().map_windows(|[a, b]: &[&f32; 2]| a <= b).collect::<[_; 6]>();
    assert_eq!(w, [true, true, false, true, true, false]);

    let short = [1].into_bulk().map_windows(|&[a, b]: &[i32; 2]| a + b).collect::<Vec<_>>();
    assert!(short.is_empty());
}

#[test]
fn mutate_increments() {
    let a = [1, 4, 2, 3];
    let b = a.into_bulk().mutate(|x| *x += 1).collect::<[_; 4]>();
    assert_eq!(b, [2, 5, 3, 4]);
}

#[test]
fn collect_into_arrays_and_results() {
    let a = [1, 2, 3];
    let doubled: [i32; 3] = a.bulk().map(|&x| x * 2).collect();
    assert_eq!(doubled, [2, 4, 6]);

    let results = [Ok(1), Err("nope"), Ok(3), Err("bad")];
    let result: Result<[i32; 4], &str> = results.into_bulk().collect();
    assert_eq!(result, Err("nope"));

    let results: [Result<i32, &str>; 2] = [Ok(1), Ok(3)];
    let result: Result<[i32; 2], &str> = results.into_bulk().collect();
    assert_eq!(result, Ok([1, 3]));

    let options = [Some(1), None, Some(3)];
    let result: Option<[i32; 3]> = options.into_bulk().collect();
    assert_eq!(result, None);
    let result = [Some(1), Some(2)].into_bulk().try_collect_array::<2>();
    assert_eq!(result, Some([1, 2]));
}

#[test]
fn copied_and_cloned_refs() {
    let a = [1, 2, 3];
    let v_copied: [_; 3] = a.bulk().copied().collect();
    let v_map: [_; 3] = a.bulk().map(|&x| x).collect();
    assert_eq!(v_copied, [1, 2, 3]);
    assert_eq!(v_map, [1, 2, 3]);
    let v_cloned: [_; 3] = a.bulk().cloned().collect();
    assert_eq!(v_cloned, [1, 2, 3]);
}

#[test]
fn array_chunks_lorem() {
    let lorem = ['l', 'o', 'r', 'e', 'm'];
    let (c, r) = lorem.into_bulk().array_chunks::<2>().collect_with_remainder::<[_; 2]>();
    assert_eq!(c, [['l', 'o'], ['r', 'e']]);
    assert_eq!(r.collect::<Vec<_>>(), vec!['m']);

    let data = [1, 1, 2, -2, 6, 0, 3, 1];
    let mut n = 0;
    data.bulk().array_chunks::<3>().for_each(|[x, y, z]| {
        assert_eq!(x + y + z, 4);
        n += 1;
    });
    assert_eq!(n, 2);
}

#[test]
fn array_chunks_rev_with_remainder() {
    let a = [1, 2, 3, 4, 5, 6, 7];
    let mut seen = Vec::new();
    let r = a.into_bulk().array_chunks::<3>().rev().for_each_with_remainder(|c| seen.push(c));
    assert_eq!(seen, vec![[4, 5, 6], [1, 2, 3]]);
    assert_eq!(r.collect::<Vec<_>>(), vec![7]);

    let r = a.into_bulk().array_chunks::<3>().try_for_each_with_remainder(|c| if c[0] > 3 { Err(c) } else { Ok(()) });
    assert_eq!(r.err(), Some([4, 5, 6]));
}

#[test]
fn sources_collect_back() {
    let v = [1, 2, 3];
    let u: [&i32; 3] = v.bulk().collect();
    assert_eq!(u, [&1, &2, &3]);
    let u: [i32; 3] = v.into_bulk().collect();
    assert_eq!(u, [1, 2, 3]);
    let nothing: [i32; 0] = empty::<i32>().collect();
    assert_eq!(nothing, []);
    let one: [_; 1] = once(1).collect();
    assert_eq!(one, [1]);
    let s = b"foobar";
    let s2: [u8; 6] = s.bulk().copied().rev().into_inner().collect();
    assert_eq!(&s2, b"foobar");
}

#[derive(PartialEq, Debug)]
struct Expensive;

#[test]
fn repeat_examples() {
    let four_fours: [_; 4] = repeat_n(4, 4).collect();
    assert_eq!(four_fours, [4, 4, 4, 4]);
    let things = repeat_n_with(|| Expensive, 4).collect::<[_; 4]>();
    assert_eq!(things, [Expensive, Expensive, Expensive, Expensive]);
    let v: Vec<i32> = Vec::with_capacity(123);
    let (first_four, last) = repeat_n(v, 5).split_at(4);
    let first_four = first_four.collect::<Vec<_>>();
    assert_eq!(first_four.len(), 4);
    for cloned in first_four {
        assert_eq!(cloned.len(), 0);
        assert_eq!(cloned.capacity(), 0);
    }
    let [last]: [Vec<i32>; 1] = last.collect();
    assert_eq!(last.len(), 0);
    assert_eq!(last.capacity(), 123);
}

#[test]
fn from_bulk_repeat() {
    let five_fives = repeat_n(5, 5);
    let v = <[i32; 5]>::from_bulk(five_fives);
    assert_eq!(v, [5, 5, 5, 5, 5]);
    let v: [i32; 5] = repeat_n(5, 5).collect();
    assert_eq!(v, [5, 5, 5, 5, 5]);
    let v = <Option<[i32; 5]>>::from_bulk(repeat_n(Some(5), 5));
    assert_eq!(v, Some([5, 5, 5, 5, 5]));
    let c = Vec::from_bulk((0..5).into_bulk());
    assert_eq!(c, vec![0, 1, 2, 3, 4]);
}

#[test]
fn reduce_statistics() {
    let a = [1, 5, -3, 7, 9, 3, -1, 3];

    let sum = a.into_bulk().reduce(|a, b| a + b).unwrap_or(0);
    let product = a.into_bulk().reduce(|a, b| a * b).unwrap_or(1);
    let min = a.into_bulk().reduce(|a, b| a.min(b)).unwrap();
    let max = a.into_bulk().reduce(|a, b| a.max(b)).unwrap();
    let mean = sum as f32 / a.len() as f32;
    let variance = a.into_bulk().map(|a| a as f32 - mean).map(|a| a * a).reduce(|a, b| a + b).unwrap_or(0.0).sqrt();

    assert_eq!(sum, 24);
    assert_eq!(product, 8505);
    assert_eq!(min, -3);
    assert_eq!(max, 9);
    assert_eq!(mean, 3.0);
    assert!(variance > 0.0);
    assert_eq!(empty::<i32>().reduce(|a, b| a + b), None);
}
