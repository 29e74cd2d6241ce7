use modsync::file_tree::TreeNode;

fn parts(path: &str) -> Vec<String> {
    path.split('/').map(String::from).collect()
}

fn child<'a>(node: &'a TreeNode, name: &str) -> &'a TreeNode {
    let matches: Vec<&(String, TreeNode)> = node.children.iter().filter(|c| c.0 == name).collect();
    assert_eq!(matches.len(), 1, "exactly one child named {}", name);
    &matches[0].1
}

fn names(node: &TreeNode) -> Vec<String> {
    let mut names: Vec<String> = node.children.iter().map(|c| c.0.clone()).collect();
    names.sort();
    names
}

#[test]
fn tree_of_no_files_is_empty() {
    let root = TreeNode::build_tree(&vec![]);
    assert!(root.children.is_empty());
    assert_eq!(root.file_size, None);
    let root = TreeNode::default();
    assert!(root.children.is_empty());
}

#[test]
fn tree_groups_files_by_folder() {
    let files = vec![
        (parts("pack/README"), 10),
        (parts("pack/images/a.jpg"), 200),
        (parts("pack/images/b.jpg"), 300),
        (parts("notes.txt"), 5),
    ];
    let root = TreeNode::build_tree(&files);
    assert_eq!(names(&root), vec!["notes.txt", "pack"]);
    assert_eq!(root.file_size, None);

    let pack = child(&root, "pack");
    assert_eq!(pack.file_size, None);
    assert_eq!(names(pack), vec!["README", "images"]);
    assert_eq!(child(pack, "README").file_size, Some(10));
    assert!(child(pack, "README").children.is_empty());

    let images = child(pack, "images");
    assert_eq!(names(images), vec!["a.jpg", "b.jpg"]);
    assert_eq!(child(images, "a.jpg").file_size, Some(200));
    assert_eq!(child(images, "b.jpg").file_size, Some(300));
    assert_eq!(child(&root, "notes.txt").file_size, Some(5));
}

#[test]
fn later_size_replaces_earlier_one() {
    let files = vec![(parts("a/b"), 1), (parts("a/c"), 2), (parts("a/b"), 3)];
    let root = TreeNode::build_tree(&files);
    let a = child(&root, "a");
    assert_eq!(names(a), vec!["b", "c"]);
    assert_eq!(child(a, "b").file_size, Some(3));
    assert_eq!(child(a, "c").file_size, Some(2));
}

#[test]
fn file_and_folder_may_share_a_node() {
    let files = vec![(parts("a"), 7), (parts("a/b"), 8)];
    let root = TreeNode::build_tree(&files);
    let a = child(&root, "a");
    assert_eq!(a.file_size, Some(7));
    assert_eq!(child(a, "b").file_size, Some(8));
}

#[test]
fn path_without_components_is_the_root() {
    let root = TreeNode::build_tree(&vec![(vec![], 42)]);
    assert_eq!(root.file_size, Some(42));
    assert!(root.children.is_empty());
}
