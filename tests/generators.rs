use quickcheck_lite::arbitrary::{char_at_most, chars_of, grow_string, grow_vec, shrink_string, shrink_vec, shrink_vec_at, string_of};
use quickcheck_lite::random::{index_below, seed_key, seeded};
use quickcheck_lite::Arbitrary;

#[test]
fn seed_folds_into_key() {
    let key = seed_key(&vec![0x0102030405060708]);
    assert_eq!(key.len(), 32);
    assert_eq!(&key[0..8], &[8, 7, 6, 5, 4, 3, 2, 1]);
    assert!(key[8..].iter().all(|b| *b == 0));
    let folded = seed_key(&vec![1, 2, 3, 4, 5]);
    assert_eq!(folded[0], 1 ^ 5);
    assert_eq!(folded[8], 2);
    assert_eq!(folded[16], 3);
    assert_eq!(folded[24], 4);
    assert_eq!(seed_key(&vec![]), vec![0u8; 32]);
}

#[test]
fn same_seed_same_draws() {
    let mut a = seeded(&vec![4, 5, 6]);
    let mut b = seeded(&vec![4, 5, 6]);
    let xs: Vec<u32> = (0..50).map(|_| u32::grow(&mut a, 1000)).collect();
    let ys: Vec<u32> = (0..50).map(|_| u32::grow(&mut b, 1000)).collect();
    assert_eq!(xs, ys);
    assert!(xs.iter().any(|x| *x != xs[0]));
}

#[test]
fn numbers_stay_within_size() {
    let mut rng = seeded(&vec![9]);
    for _ in 0..200 {
        assert_eq!(u32::grow(&mut rng, 0), 0);
        assert!(u32::grow(&mut rng, 17) <= 17);
        assert!(u32::shrink(&mut rng, &40) <= 40);
        assert_eq!(u32::shrink(&mut rng, &0), 0);
    }
    let big = u32::grow(&mut rng, u64::MAX);
    assert!(big <= u32::MAX);
}

#[test]
fn characters_stay_within_size() {
    let mut rng = seeded(&vec![10]);
    for _ in 0..200 {
        assert!((char::grow(&mut rng, 120) as u32) <= 120);
        assert!((char::shrink(&mut rng, &'z') as u32) <= 'z' as u32);
        assert_eq!(char::shrink(&mut rng, &'\0'), '\0');
    }
    for _ in 0..50 {
        let c = char::grow(&mut rng, u64::MAX);
        assert!((c as u32) <= 0x10FFFF);
    }
}

#[test]
fn surrogates_map_below_the_block() {
    assert_eq!(char_at_most(65), 'A');
    assert_eq!(char_at_most(0xD800), '\u{D7FF}');
    assert_eq!(char_at_most(0xDFFF), '\u{D7FF}');
    assert_eq!(char_at_most(0xE000), '\u{E000}');
    assert_eq!(char_at_most(0x10FFFF), '\u{10FFFF}');
}

#[test]
fn strings_and_chars_round_trip() {
    let s = "héllo, wörld".to_string();
    let cs = chars_of(&s);
    assert_eq!(cs, vec!['h', 'é', 'l', 'l', 'o', ',', ' ', 'w', 'ö', 'r', 'l', 'd']);
    assert_eq!(string_of(&cs), s);
    assert_eq!(string_of(&vec!['a', 'b']), "ab");
    assert_eq!(string_of(&vec![]), "");
}

#[test]
fn strings_stay_within_size() {
    let mut rng = seeded(&vec![12]);
    for _ in 0..100 {
        let s = grow_string(&mut rng, 30);
        assert!(s.chars().count() <= 30);
        assert!(s.chars().all(|c| (c as u32) <= 30));
    }
    assert_eq!(String::grow(&mut rng, 0), "");
}

#[test]
fn string_shrink_is_one_step() {
    let mut rng = seeded(&vec![13]);
    let s = "hello".to_string();
    for _ in 0..200 {
        let t = shrink_string(&mut rng, &s);
        let (a, b): (Vec<char>, Vec<char>) = (s.chars().collect(), t.chars().collect());
        if b.len() == 4 {
            assert!((0..5).any(|ix| {
                let mut c = a.clone();
                c.remove(ix);
                c == b
            }));
        } else {
            assert_eq!(b.len(), 5);
            let diffs: Vec<usize> = (0..5).filter(|i| a[*i] != b[*i]).collect();
            assert!(diffs.len() <= 1);
            for i in diffs {
                assert!(b[i] < a[i]);
            }
        }
    }
    assert_eq!(String::shrink(&mut rng, &String::new()), "");
}

#[test]
fn sequences_shrink_by_one_step() {
    let mut rng = seeded(&vec![14]);
    let v: Vec<u32> = vec![5, 6, 7];
    let mut saw_removal = false;
    let mut saw_replacement = false;
    for _ in 0..200 {
        let w = shrink_vec(&mut rng, &v);
        assert!(w.len() == 2 || w.len() == 3);
        if w.len() == 2 {
            saw_removal = true;
            assert!(w == vec![6, 7] || w == vec![5, 7] || w == vec![5, 6]);
        } else {
            saw_replacement = true;
            let diffs: Vec<usize> = (0..3).filter(|i| v[*i] != w[*i]).collect();
            assert!(diffs.len() <= 1);
            for i in diffs {
                assert!(w[i] < v[i]);
            }
        }
    }
    assert!(saw_removal && saw_replacement);
    let empty: Vec<u32> = vec![];
    assert!(shrink_vec(&mut rng, &empty).is_empty());
}

#[test]
fn sequences_stay_within_size() {
    let mut rng = seeded(&vec![15]);
    for _ in 0..100 {
        let v: Vec<u32> = grow_vec(&mut rng, 25);
        assert!(v.len() <= 25);
        assert!(v.iter().all(|x| *x <= 25));
    }
    let nested: Vec<Vec<u32>> = Vec::grow(&mut rng, 4);
    assert!(nested.len() <= 4 && nested.iter().all(|v| v.len() <= 4));
    let copy = nested.duplicate();
    assert_eq!(copy, nested);
}

#[test]
fn tuples_shrink_one_component() {
    let mut rng = seeded(&vec![16]);
    let pair = (50u32, "abc".to_string());
    for _ in 0..100 {
        let (a, b) = <(u32, String)>::shrink(&mut rng, &pair);
        assert!((a == 50 && b.chars().count() <= 3) || (b == "abc" && a <= 50));
    }
    let five = (1u32, 2u32, 3u32, 4u32, 5u32);
    for _ in 0..100 {
        let s = <(u32, u32, u32, u32, u32)>::shrink(&mut rng, &five);
        let changed = [s.0 != 1, s.1 != 2, s.2 != 3, s.3 != 4, s.4 != 5].iter().filter(|c| **c).count();
        assert!(changed <= 1);
        assert!(s.0 <= 1 && s.1 <= 2 && s.2 <= 3 && s.3 <= 4 && s.4 <= 5);
    }
    let t: (u32, char, u32) = Arbitrary::grow(&mut rng, 9);
    assert!(t.0 <= 9 && (t.1 as u32) <= 9 && t.2 <= 9);
    let q: (u32, u32, u32, u32) = Arbitrary::grow(&mut rng, 3);
    assert!(q.0 <= 3 && q.1 <= 3 && q.2 <= 3 && q.3 <= 3);
}

#[test]
fn index_is_below_bound() {
    let mut rng = seeded(&vec![17]);
    for _ in 0..100 {
        assert_eq!(index_below(&mut rng, 1), 0);
        assert!(index_below(&mut rng, 3) < 3);
    }
}

#[test]
fn shrink_at_index_removes_or_replaces() {
    let v: Vec<u32> = vec![5, 6, 7];
    assert_eq!(shrink_vec_at(&v, 0, None), vec![6, 7]);
    assert_eq!(shrink_vec_at(&v, 2, None), vec![5, 6]);
    assert_eq!(shrink_vec_at(&v, 1, Some(2)), vec![5, 2, 7]);
    let one = vec!["ab".to_string()];
    assert!(shrink_vec_at(&one, 0, None).is_empty());
}
