use std::path::PathBuf;

use termplayer::order::{playlist_order, scan_directory};

fn names(path: &str) -> Vec<Vec<u8>> {
    path.split('/').map(|name| name.as_bytes().to_vec()).collect()
}

fn ordered(paths: &[&str]) -> Vec<String> {
    let split: Vec<Vec<Vec<u8>>> = paths.iter().map(|path| names(path)).collect();
    playlist_order(&split).into_iter().map(|index| paths[index].to_string()).collect()
}

#[test]
fn paths_are_ordered_name_by_name() {
    assert_eq!(
        ordered(&["b.mp3", "a/z.mp3", "a.mp3", "a/b/c.mp3", "B.mp3", "a-b/x.mp3", "a"]),
        ["B.mp3", "a", "a/b/c.mp3", "a/z.mp3", "a-b/x.mp3", "a.mp3", "b.mp3"]
    );
    assert_eq!(ordered(&["10.mp3", "9.mp3", "1.mp3"]), ["1.mp3", "10.mp3", "9.mp3"]);
    assert!(ordered(&[]).is_empty());
    assert_eq!(ordered(&["x"]), ["x"]);
}

#[test]
fn bytes_that_are_no_text_are_ordered() {
    let paths = vec![vec![vec![0xff, 1]], vec![vec![0xfe, 9]], vec![vec![0xff]], vec![]];
    assert_eq!(playlist_order(&paths), [3, 1, 2, 0]);
}

#[test]
fn the_same_path_keeps_its_order() {
    let paths = vec![names("b"), names("a"), names("b"), names("a"), names("b")];
    assert_eq!(playlist_order(&paths), [1, 3, 0, 2, 4]);
}

#[test]
fn order_is_the_one_of_paths() {
    let letters = ["a", "b", "-", ".", "A", "é", " "];
    let mut x = 1u64;
    let mut next = |below: u64| {
        x ^= x << 13;
        x ^= x >> 7;
        x ^= x << 17;
        (x >> 20) % below
    };
    let mut paths: Vec<String> = Vec::new();
    for _ in 0..3000 {
        let mut path = String::new();
        for depth in 0..=next(3) {
            if depth > 0 {
                path.push('/');
            }
            path.push('x');
            for _ in 0..next(4) {
                path.push_str(letters[next(7) as usize]);
            }
        }
        paths.push(path);
    }
    let split: Vec<Vec<Vec<u8>>> = paths.iter().map(|path| names(path)).collect();
    let order = playlist_order(&split);
    let mut sorted: Vec<(PathBuf, usize)> =
        paths.iter().enumerate().map(|(index, path)| (PathBuf::from(path), index)).collect();
    sorted.sort();
    assert_eq!(order, sorted.into_iter().map(|(_, index)| index).collect::<Vec<usize>>());
}

#[test]
fn every_path_is_there_once() {
    let paths: Vec<Vec<Vec<u8>>> = (0..100u8).map(|n| vec![vec![n.wrapping_mul(37) % 7]]).collect();
    let mut order = playlist_order(&paths);
    order.sort();
    assert_eq!(order, (0..100).collect::<Vec<usize>>());
}

#[test]
fn playlist_of_a_directory() {
    let paths = vec![
        vec![],
        names("notes.txt"),
        names("b.mp3"),
        names("live.mp3"),
        names("live.mp3/1.FLAC"),
        names("a.ogg"),
        names(".mp3"),
        names("b.mp3"),
    ];
    let is_file = vec![false, true, true, false, true, true, true, true];
    assert_eq!(scan_directory(&paths, &is_file), [5, 2, 7, 4]);
    assert!(scan_directory(&vec![], &vec![]).is_empty());
    assert!(scan_directory(&vec![vec![]], &vec![true]).is_empty());
}
