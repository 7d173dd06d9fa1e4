use voidemu::search::{DirEntryInfo, FileSearch, SearchAction};

#[derive(Clone)]
enum Node {
    File(Option<&'static str>),
    Dir(&'static str, Option<Vec<Node>>),
}

/// Runs a search over an in-memory tree, returning the location found and
/// the folders listed, in order.
fn run(root: Option<Vec<Node>>, target: &str) -> (Option<Vec<usize>>, Vec<Vec<usize>>) {
    let mut search = FileSearch::new(target);
    let mut action = search.pending();
    let mut listed = Vec::new();
    loop {
        match action {
            SearchAction::List(loc) => {
                listed.push(loc.clone());
                let mut here = root.clone();
                for &k in &loc {
                    here = match &here.as_ref().unwrap()[k] {
                        Node::Dir(_, kids) => kids.clone(),
                        Node::File(_) => panic!("listed a file"),
                    };
                }
                let infos = here.map(|kids| {
                    kids.iter()
                        .map(|n| match n {
                            Node::File(name) => DirEntryInfo { is_dir: false, name: name.map(String::from) },
                            Node::Dir(name, _) => DirEntryInfo { is_dir: true, name: Some(name.to_string()) },
                        })
                        .collect()
                });
                let (next, a) = search.step(infos);
                search = next;
                action = a;
            }
            SearchAction::Found(loc) => return (Some(loc), listed),
            SearchAction::NotFound => return (None, listed),
        }
    }
}

fn reference(nodes: &Option<Vec<Node>>, target: &str, at: Vec<usize>) -> Option<Vec<usize>> {
    let nodes = nodes.as_ref()?;
    for (i, n) in nodes.iter().enumerate() {
        let mut here = at.clone();
        here.push(i);
        match n {
            Node::Dir(_, kids) => {
                if let Some(f) = reference(kids, target, here) {
                    return Some(f);
                }
            }
            Node::File(name) => {
                if (*name)? == target {
                    return Some(here);
                }
            }
        }
    }
    None
}

fn tree() -> Option<Vec<Node>> {
    Some(vec![
        Node::File(Some("readme.txt")),
        Node::Dir("share", Some(vec![Node::File(Some("keymaps")), Node::Dir("empty", Some(vec![]))])),
        Node::Dir("locked", None),
        Node::Dir("bin", Some(vec![Node::File(Some("qemu-img.exe")), Node::File(Some("qemu-system-i386.exe"))])),
        Node::File(Some("qemu-system-i386.exe")),
    ])
}

#[test]
fn finds_first_depth_first() {
    let (found, listed) = run(tree(), "qemu-system-i386.exe");
    assert_eq!(found, Some(vec![3, 1]));
    assert_eq!(listed, vec![vec![], vec![1], vec![1, 1], vec![2], vec![3]]);
    assert_eq!(found, reference(&tree(), "qemu-system-i386.exe", vec![]));
}

#[test]
fn missing_root_and_missing_file() {
    assert_eq!(run(None, "x").0, None);
    assert_eq!(run(tree(), "nothing.exe").0, None);
    assert_eq!(run(Some(vec![]), "x").0, None);
}

#[test]
fn a_name_that_is_not_unicode_ends_its_folder() {
    let t = Some(vec![
        Node::Dir("a", Some(vec![Node::File(None), Node::File(Some("x"))])),
        Node::File(Some("x")),
    ]);
    assert_eq!(run(t.clone(), "x").0, Some(vec![1]));
    assert_eq!(run(t.clone(), "x").0, reference(&t, "x", vec![]));
    let u = Some(vec![Node::File(None), Node::File(Some("x"))]);
    assert_eq!(run(u, "x").0, None);
}

#[test]
fn done_search_stays_done() {
    let mut s = FileSearch::new("x");
    let (s2, a) = s.step(Some(vec![DirEntryInfo { is_dir: false, name: Some("x".to_string()) }]));
    assert_eq!(a, SearchAction::Found(vec![0]));
    s = s2;
    assert_eq!(s.pending(), SearchAction::Found(vec![0]));
    let (s3, b) = s.step(None);
    assert_eq!(b, SearchAction::Found(vec![0]));
    assert_eq!(s3.pending(), SearchAction::Found(vec![0]));
}
