use jujik::entity::kind::NodeFlags;
use jujik::entity::measure::{DirectorySize, Measure};
use jujik::entity::size::EntitySizeKind;

fn children(paths: &[&str]) -> Vec<String> {
    paths.iter().map(|p| p.to_string()).collect()
}

#[test]
fn sum_adds_the_leaves_and_walks_the_directories() {
    let mut sum = DirectorySize::new("/r".to_string());
    let mut order = Vec::new();
    while let Some(path) = sum.next_path() {
        let found = match path.as_str() {
            "/r" => Measure::Directory(children(&["/r/a", "/r/d", "/r/gone"])),
            "/r/a" => Measure::Leaf(1000),
            "/r/d" => Measure::Directory(children(&["/r/d/b"])),
            "/r/d/b" => Measure::Leaf(25),
            _ => Measure::Unreadable,
        };
        assert!(sum.fits(&found));
        order.push(path);
        sum.record(found);
    }
    assert!(sum.is_done());
    assert_eq!(order, vec!["/r", "/r/a", "/r/d", "/r/gone", "/r/d/b"]);
    assert_eq!(sum.total().size_byte(), 1025);
    assert_eq!(sum.total().kind(), EntitySizeKind::KiloByte);
}

#[test]
fn sum_of_nothing_is_zero() {
    let mut sum = DirectorySize::new("/r".to_string());
    assert!(!sum.is_done());
    assert_eq!(sum.next_path(), Some("/r".to_string()));
    sum.record(Measure::Directory(Vec::new()));
    assert!(sum.is_done());
    assert_eq!(sum.next_path(), None);
    assert_eq!(sum.total().size_byte(), 0);
    assert_eq!(sum.total().kind(), EntitySizeKind::Empty);
}

#[test]
fn sum_says_when_a_length_does_not_fit() {
    let mut sum = DirectorySize::new("/r".to_string());
    sum.record(Measure::Leaf(u64::MAX - 1));
    assert!(sum.fits(&Measure::Leaf(1)));
    assert!(!sum.fits(&Measure::Leaf(2)));
    assert!(sum.fits(&Measure::Directory(children(&["/x"]))));
    assert!(sum.fits(&Measure::Unreadable));
    sum.record(Measure::Leaf(1));
    assert_eq!(sum.total().size_byte(), u64::MAX);
    assert!(!sum.fits(&Measure::Leaf(1)));
    assert!(sum.fits(&Measure::Leaf(0)));
}

#[test]
fn a_node_is_measured_by_its_own_type() {
    let none = NodeFlags {
        is_file: false,
        is_dir: false,
        is_symlink: false,
        is_block_device: false,
        is_char_device: false,
        is_fifo: false,
        is_socket: false,
    };
    let dir = NodeFlags { is_dir: true, ..none };
    let file = NodeFlags { is_file: true, ..none };
    let link = NodeFlags { is_symlink: true, ..none };
    assert!(matches!(
        Measure::of_node(&dir, 4096, children(&["/r/a"])),
        Measure::Directory(below) if below == vec!["/r/a"]
    ));
    assert!(matches!(Measure::of_node(&file, 12, Vec::new()), Measure::Leaf(12)));
    assert!(matches!(Measure::of_node(&link, 7, children(&["/r/l/a"])), Measure::Leaf(7)));
    assert!(matches!(Measure::of_node(&none, 0, Vec::new()), Measure::Leaf(0)));
}
