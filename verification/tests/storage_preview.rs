use server_tui::model::storage::{
    aggregate_sizes, default_exclusions, format_size, should_exclude, StorageNode, StorageSort,
    StorageTab,
};
use server_tui::preview::{hex_dump_preview, largest_files_from_tree, preview_from_bytes, MAX_PREVIEW_BYTES};

fn file(name: &str, size: u64) -> StorageNode {
    StorageNode {
        name: name.into(),
        path: format!("/tmp/{name}"),
        is_dir: false,
        size,
        apparent_size: size,
        children: vec![],
        inaccessible: false,
        error: None,
    }
}

fn dir(name: &str, children: Vec<StorageNode>) -> StorageNode {
    StorageNode {
        name: name.into(),
        path: format!("/tmp/{name}"),
        is_dir: true,
        size: 0,
        apparent_size: 0,
        children,
        inaccessible: false,
        error: None,
    }
}

#[test]
fn aggregates_children() {
    let mut root = StorageNode {
        name: "root".into(),
        path: "/tmp/root".into(),
        is_dir: true,
        size: 0,
        apparent_size: 0,
        children: vec![
            StorageNode {
                name: "a".into(),
                path: "/tmp/root/a".into(),
                is_dir: false,
                size: 100,
                apparent_size: 100,
                children: vec![],
                inaccessible: false,
                error: None,
            },
            StorageNode {
                name: "b".into(),
                path: "/tmp/root/b".into(),
                is_dir: true,
                size: 0,
                apparent_size: 0,
                children: vec![StorageNode {
                    name: "c".into(),
                    path: "/tmp/root/b/c".into(),
                    is_dir: false,
                    size: 50,
                    apparent_size: 50,
                    children: vec![],
                    inaccessible: false,
                    error: None,
                }],
                inaccessible: false,
                error: None,
            },
        ],
        inaccessible: false,
        error: None,
    };
    aggregate_sizes(&mut root);
    assert_eq!(root.size, 150);
    assert_eq!(root.children[1].size, 50);
}

#[test]
fn aggregation_saturates() {
    let mut root = dir("r", vec![file("a", u64::MAX - 1), file("b", 5)]);
    aggregate_sizes(&mut root);
    assert_eq!(root.size, u64::MAX);
    let mut f = file("x", 7);
    aggregate_sizes(&mut f);
    assert_eq!(f.size, 7);
}

#[test]
fn excludes_virtual_fs() {
    assert!(should_exclude("/proc/1", &default_exclusions()));
    assert!(!should_exclude("/home", &default_exclusions()));
}

#[test]
fn exclusion_is_by_component() {
    let ex = default_exclusions();
    assert!(should_exclude("/proc", &ex));
    assert!(should_exclude("/proc/", &ex));
    assert!(!should_exclude("/processes", &ex));
    assert!(should_exclude("/run/user/1000", &ex));
}

#[test]
fn sort_by_size_then_name_is_stable_and_recursive() {
    let mut root = dir(
        "r",
        vec![
            file("b", 10),
            dir("d", vec![file("z", 1), file("y", 1), file("x", 2)]),
            file("a", 10),
            file("c", 30),
        ],
    );
    root.children[1].size = 4;
    root.sort_children(StorageSort::Size);
    let names: Vec<&str> = root.children.iter().map(|c| c.name.as_str()).collect();
    assert_eq!(names, vec!["c", "a", "b", "d"]);
    let inner: Vec<&str> = root.children[3].children.iter().map(|c| c.name.as_str()).collect();
    assert_eq!(inner, vec!["x", "y", "z"]);
    root.sort_children(StorageSort::Name);
    let names: Vec<&str> = root.children.iter().map(|c| c.name.as_str()).collect();
    assert_eq!(names, vec!["a", "b", "c", "d"]);
}

#[test]
fn name_sort_keeps_equal_names_in_place() {
    let mut root = dir("r", vec![file("same", 1), file("same", 2), file("a", 3)]);
    root.sort_children(StorageSort::Name);
    let sizes: Vec<u64> = root.children.iter().map(|c| c.size).collect();
    assert_eq!(sizes, vec![3, 1, 2]);
}

#[test]
fn find_child_by_name() {
    let root = dir("r", vec![file("a", 1), file("b", 2), file("b", 3)]);
    assert_eq!(root.find_child("b").map(|c| c.size), Some(2));
    assert!(root.find_child("zz").is_none());
}

#[test]
fn tabs_and_sorts_cycle() {
    assert_eq!(StorageTab::Mounts.next().next().next(), StorageTab::Mounts);
    assert_eq!(StorageTab::DirectoryUsage.label(), "dirs");
    assert_eq!(StorageSort::Size.next(), StorageSort::Name);
    assert_eq!(StorageSort::Name.label(), "name");
    assert_eq!(format_size(2048), "2.0 KiB");
}

#[test]
fn largest_collects_files() {
    let tree = StorageNode {
        name: "root".into(),
        path: "/tmp".into(),
        is_dir: true,
        size: 100,
        apparent_size: 100,
        children: vec![
            StorageNode {
                name: "big".into(),
                path: "/tmp/big".into(),
                is_dir: false,
                size: 90,
                apparent_size: 90,
                children: vec![],
                inaccessible: false,
                error: None,
            },
            StorageNode {
                name: "small".into(),
                path: "/tmp/small".into(),
                is_dir: false,
                size: 10,
                apparent_size: 10,
                children: vec![],
                inaccessible: false,
                error: None,
            },
        ],
        inaccessible: false,
        error: None,
    };
    let top = largest_files_from_tree(&tree, 50);
    assert_eq!(top[0].name, "big");
}

#[test]
fn largest_keeps_the_top_entries() {
    let tree = dir(
        "r",
        vec![
            file("a", 5),
            dir("d", vec![file("b", 9), file("c", 5), dir("e", vec![file("f", 7)])]),
            file("g", 1),
        ],
    );
    let top = largest_files_from_tree(&tree, 3);
    let names: Vec<&str> = top.iter().map(|n| n.name.as_str()).collect();
    assert_eq!(names, vec!["b", "f", "c"]);
    assert!(largest_files_from_tree(&tree, 0).is_empty());
    let one = largest_files_from_tree(&tree, 1);
    assert_eq!(one.len(), 1);
    assert_eq!(one[0].name, "b");
    assert_eq!(largest_files_from_tree(&tree, 100).len(), 5);
    assert!(largest_files_from_tree(&dir("empty", vec![]), 3).is_empty());
}

#[test]
fn hex_dump_lines() {
    assert_eq!(hex_dump_preview(&[0u8, 1, 2, 3]), "0000: 00 01 02 03 \n");
    let data: Vec<u8> = (0..200u32).map(|i| i as u8).collect();
    let dump = hex_dump_preview(&data);
    assert_eq!(dump.lines().count(), 8);
    assert!(dump.starts_with("0000: 00 01 02"));
    assert!(dump.contains("\n0070: 70 71"));
    assert!(dump.ends_with("7e 7f \n"));
}

#[test]
fn detects_binary() {
    let p = preview_from_bytes("/x/b.bin".into(), &[0u8, 1, 2, 3], 4);
    assert!(p.is_binary);
    assert_eq!(p.bytes_read, 4);
    assert!(!p.truncated);
    assert_eq!(p.text, "(binary file \u{2014} 4 bytes shown, 4 total hint)\n0000: 00 01 02 03 \n");
}

#[test]
fn text_preview_is_decoded_and_capped() {
    let p = preview_from_bytes("/x/a.txt".into(), b"hello\xff", 6);
    assert!(!p.is_binary);
    assert_eq!(p.text, "hello\u{fffd}");
    let big = vec![b'a'; MAX_PREVIEW_BYTES + 1];
    let p = preview_from_bytes("/x/big".into(), &big, 1 << 20);
    assert!(p.truncated);
    assert_eq!(p.bytes_read, MAX_PREVIEW_BYTES);
    assert_eq!(p.text.len(), MAX_PREVIEW_BYTES);
    assert_eq!(p.path, "/x/big");
}

#[test]
fn large_directories_sort_and_rank_quickly() {
    let n: u64 = 20_000;
    let kids: Vec<StorageNode> =
        (0..n).map(|i| file(&format!("f{:05}", (i * 7919) % n), (i * 31) % 1000)).collect();
    let mut root = dir("big", kids);
    root.sort_children(StorageSort::Size);
    for w in root.children.windows(2) {
        assert!(w[0].size > w[1].size || (w[0].size == w[1].size && w[0].name <= w[1].name));
    }
    let top = largest_files_from_tree(&root, 10);
    assert_eq!(top.len(), 10);
    assert_eq!(top[0].size, 999);
    root.sort_children(StorageSort::Name);
    assert_eq!(root.children[0].name, "f00000");
    assert_eq!(root.children[(n - 1) as usize].name, format!("f{:05}", n - 1));
}

#[test]
fn text_preview_drops_escape_sequences() {
    let p = preview_from_bytes("/x/a\u{1b}[2J.txt".into(), b"hello\x1b[31m\n\tred\x07\x7f", 16);
    assert!(!p.is_binary);
    assert!(!p.text.contains('\u{1b}'));
    assert_eq!(p.text, "hello[31m\n\tred");
    assert_eq!(p.path, "/x/a?[2J.txt");
}

#[test]
fn sanitizers() {
    assert_eq!(server_tui::sanitize::sanitize_text("a\u{9b}b\u{0}c\r\nd"), "abc\nd");
    assert_eq!(server_tui::sanitize::sanitize_path_display("a\nb\tc"), "a?b?c");
}

fn names(n: &StorageNode) -> Vec<String> {
    n.children.iter().map(|c| c.name.clone()).collect()
}

#[test]
fn sorting_twice_changes_nothing() {
    let mut root = dir(
        "r",
        vec![
            file("b", 5),
            dir("d", vec![file("z", 1), file("y", 1), file("x", 3)]),
            file("a", 5),
            file("c", 9),
        ],
    );
    root.sort_children(StorageSort::Size);
    let first = names(&root);
    let first_inner = names(&root.children[3]);
    assert_eq!(first, vec!["c", "a", "b", "d"]);
    assert_eq!(first_inner, vec!["x", "y", "z"]);
    root.sort_children(StorageSort::Size);
    assert_eq!(names(&root), first);
    assert_eq!(names(&root.children[3]), first_inner);
    root.sort_children(StorageSort::Name);
    let by_name = names(&root);
    root.sort_children(StorageSort::Name);
    assert_eq!(names(&root), by_name);
    assert_eq!(by_name, vec!["a", "b", "c", "d"]);
}
