use gamus::fs_scanner::entry_filter;
use gamus::walker::{
    walk, walk_filtered, EntryKind, EntryRead, FileId, Filtering, WalkConfig, WalkEntry, WalkReply,
    WalkRequest, Walker,
};

/// A directory of a tree kept in memory; entries are names with their node.
struct Node {
    id: FileId,
    kind: EntryKind,
    children: Vec<(&'static str, usize)>,
    /// For a link: the node it leads to.
    target: Option<usize>,
    unreadable: bool,
}

struct Tree {
    nodes: Vec<Node>,
}

impl Tree {
    fn lookup(&self, path: &str) -> Option<usize> {
        let mut at = 0;
        for part in path.split('/').filter(|p| !p.is_empty()).skip(1) {
            let mut node = &self.nodes[at];
            if let Some(t) = node.target {
                node = &self.nodes[t];
            }
            at = node.children.iter().find(|(n, _)| *n == part)?.1;
        }
        Some(at)
    }

    fn resolve(&self, at: usize) -> usize {
        match self.nodes[at].target {
            Some(t) => self.resolve(t),
            None => at,
        }
    }
}

fn dir(id: u64, children: Vec<(&'static str, usize)>) -> Node {
    Node { id: FileId { volume: 1, index: id }, kind: EntryKind::Dir, children, target: None, unreadable: false }
}

fn leaf(id: u64) -> Node {
    Node { id: FileId { volume: 1, index: id }, kind: EntryKind::File, children: vec![], target: None, unreadable: false }
}

fn link(id: u64, target: usize) -> Node {
    Node { id: FileId { volume: 1, index: id }, kind: EntryKind::Symlink, children: vec![], target: Some(target), unreadable: false }
}

/// Drives a walker over the tree and collects what it yields, with the
/// directories it opened.
fn run(
    tree: &Tree,
    cfg: WalkConfig,
    filter: &dyn Fn(&WalkEntry) -> Filtering,
) -> (Vec<Result<(String, usize), String>>, Vec<String>) {
    let mut walker = Walker::new("/root".to_string(), cfg, true);
    let mut open: Vec<(String, usize, usize)> = Vec::new();
    let mut yielded = Vec::new();
    let mut opened = Vec::new();
    let mut pending_open: Option<String> = None;
    let mut reply = WalkReply::Resume;
    for _ in 0..10_000 {
        let request = walker.step(reply);
        reply = match request {
            WalkRequest::Done => {
                assert!(walker.is_done());
                return (yielded, opened);
            }
            WalkRequest::Stat { path } => match tree.lookup(&path) {
                Some(at) => {
                    let n = &tree.nodes[tree.resolve(at)];
                    WalkReply::Stat(Ok(if n.kind == EntryKind::Dir { Some(n.id) } else { None }))
                }
                None => WalkReply::Stat(Err(format!("no such file: {}", path))),
            },
            WalkRequest::OpenDir { path } => {
                pending_open = Some(path.clone());
                match tree.lookup(&path).map(|at| tree.resolve(at)) {
                    Some(at) if tree.nodes[at].kind == EntryKind::Dir && !tree.nodes[at].unreadable => {
                        opened.push(path.clone());
                        open.push((path, at, 0));
                        WalkReply::Opened(Ok(()))
                    }
                    _ => WalkReply::Opened(Err(format!("cannot open {}", path))),
                }
            }
            WalkRequest::NextEntry => {
                let (path, at, next) = open.last().cloned().unwrap();
                let node = &tree.nodes[at];
                if next < node.children.len() {
                    open.last_mut().unwrap().2 += 1;
                    let (name, child) = node.children[next];
                    WalkReply::Entry(EntryRead::Found {
                        path: format!("{}/{}", path, name),
                        kind: tree.nodes[child].kind,
                    })
                } else {
                    open.pop();
                    WalkReply::Entry(EntryRead::End)
                }
            }
            WalkRequest::Filter { entry } => WalkReply::Filtered(filter(&entry)),
            WalkRequest::ResolveLink { path } => {
                let at = tree.resolve(tree.lookup(&path).unwrap());
                let n = &tree.nodes[at];
                WalkReply::Resolved(if n.kind == EntryKind::Dir { Some(Some(n.id)) } else { None })
            }
            WalkRequest::Yield(entry) => {
                yielded.push(Ok((entry.path().to_string(), entry.depth)));
                WalkReply::Resume
            }
            WalkRequest::YieldError(e) => {
                yielded.push(Err(e));
                WalkReply::Resume
            }
        };
        let _ = &pending_open;
    }
    panic!("the walk did not end");
}

fn sample() -> Tree {
    // /root
    //   a.mp3
    //   .hidden/        (x.mp3)
    //   sub/            (b.flac, part.tmp, deep/ (c.ogg))
    Tree {
        nodes: vec![
            dir(1, vec![("a.mp3", 1), (".hidden", 2), ("sub", 4)]),
            leaf(2),
            dir(3, vec![("x.mp3", 3)]),
            leaf(4),
            dir(5, vec![("b.flac", 5), ("part.tmp", 6), ("deep", 7)]),
            leaf(6),
            leaf(7),
            dir(8, vec![("c.ogg", 8)]),
            leaf(9),
        ],
    }
}

fn name_of(entry: &WalkEntry) -> Option<&str> {
    entry.path().rsplit('/').next()
}

fn paths(items: &[Result<(String, usize), String>]) -> Vec<String> {
    let mut v: Vec<String> = items.iter().map(|r| r.clone().unwrap().0).collect();
    v.sort();
    v
}

#[test]
fn unfiltered_walk_yields_every_entry() {
    let cfg = WalkConfig { follow_symlinks: false, max_depth: 50, dedup_dirs: true };
    let (items, opened) = run(&sample(), cfg, &|_| Filtering::Continue);
    assert_eq!(
        paths(&items),
        vec![
            "/root/.hidden",
            "/root/.hidden/x.mp3",
            "/root/a.mp3",
            "/root/sub",
            "/root/sub/b.flac",
            "/root/sub/deep",
            "/root/sub/deep/c.ogg",
            "/root/sub/part.tmp",
        ]
    );
    assert_eq!(opened.len(), 4);
    let depth = |p: &str| items.iter().find(|r| r.as_ref().unwrap().0 == p).unwrap().clone().unwrap().1;
    assert_eq!(depth("/root/a.mp3"), 1);
    assert_eq!(depth("/root/sub/b.flac"), 2);
    assert_eq!(depth("/root/sub/deep/c.ogg"), 3);
}

#[test]
fn scanner_filter_skips_hidden_directories_and_temporary_files() {
    let cfg = WalkConfig { follow_symlinks: false, max_depth: 50, dedup_dirs: true };
    let (items, opened) = run(&sample(), cfg, &|e| entry_filter(name_of(e), true));
    assert_eq!(
        paths(&items),
        vec!["/root/a.mp3", "/root/sub", "/root/sub/b.flac", "/root/sub/deep", "/root/sub/deep/c.ogg"]
    );
    assert!(!opened.contains(&"/root/.hidden".to_string()));
}

#[test]
fn a_root_of_hidden_entries_yields_nothing() {
    let tree = Tree { nodes: vec![dir(1, vec![(".a.mp3", 1), (".b", 2)]), leaf(2), dir(3, vec![("c.mp3", 3)]), leaf(4)] };
    let cfg = WalkConfig { follow_symlinks: false, max_depth: 50, dedup_dirs: true };
    let (items, opened) = run(&tree, cfg, &|e| entry_filter(name_of(e), true));
    assert!(items.is_empty());
    assert_eq!(opened, vec!["/root".to_string()]);
}

#[test]
fn ignored_directories_are_still_entered() {
    let cfg = WalkConfig { follow_symlinks: false, max_depth: 50, dedup_dirs: true };
    let (items, _) = run(&sample(), cfg, &|e| {
        if e.file_type == EntryKind::Dir { Filtering::Ignore } else { Filtering::Continue }
    });
    assert_eq!(
        paths(&items),
        vec!["/root/.hidden/x.mp3", "/root/a.mp3", "/root/sub/b.flac", "/root/sub/deep/c.ogg", "/root/sub/part.tmp"]
    );
}

#[test]
fn the_depth_limit_stops_the_descent() {
    let cfg = WalkConfig { follow_symlinks: false, max_depth: 1, dedup_dirs: true };
    let (items, opened) = run(&sample(), cfg, &|_| Filtering::Continue);
    assert_eq!(
        paths(&items),
        vec![
            "/root/.hidden",
            "/root/.hidden/x.mp3",
            "/root/a.mp3",
            "/root/sub",
            "/root/sub/b.flac",
            "/root/sub/deep",
            "/root/sub/part.tmp",
        ]
    );
    assert!(!opened.contains(&"/root/sub/deep".to_string()));
    let cfg = WalkConfig { follow_symlinks: false, max_depth: 0, dedup_dirs: true };
    let (items, opened) = run(&sample(), cfg, &|_| Filtering::Continue);
    assert_eq!(paths(&items), vec!["/root/.hidden", "/root/a.mp3", "/root/sub"]);
    assert_eq!(opened, vec!["/root".to_string()]);
}

#[test]
fn links_are_followed_only_when_asked_and_cycles_are_cut() {
    // /root/loop -> /root ; /root/a.mp3
    let tree = Tree { nodes: vec![dir(1, vec![("a.mp3", 1), ("loop", 2)]), leaf(2), link(3, 0)] };
    let cfg = WalkConfig { follow_symlinks: false, max_depth: 50, dedup_dirs: true };
    let (items, opened) = run(&tree, cfg, &|_| Filtering::Continue);
    assert_eq!(paths(&items), vec!["/root/a.mp3", "/root/loop"]);
    assert_eq!(opened.len(), 1);

    let cfg = WalkConfig { follow_symlinks: true, max_depth: 50, dedup_dirs: true };
    let (items, opened) = run(&tree, cfg, &|_| Filtering::Continue);
    assert_eq!(paths(&items), vec!["/root/a.mp3", "/root/loop"]);
    assert_eq!(opened, vec!["/root".to_string()]);

    // Without the memory of entered directories only the depth limit ends it.
    let cfg = WalkConfig { follow_symlinks: true, max_depth: 3, dedup_dirs: false };
    let (items, opened) = run(&tree, cfg, &|_| Filtering::Continue);
    assert_eq!(opened.len(), 4);
    assert_eq!(items.len(), 8);
}

#[test]
fn an_unreadable_directory_is_an_item_and_the_walk_goes_on() {
    let mut tree = sample();
    tree.nodes[2].unreadable = true;
    let cfg = WalkConfig { follow_symlinks: false, max_depth: 50, dedup_dirs: true };
    let (items, _) = run(&tree, cfg, &|_| Filtering::Continue);
    let errors: Vec<&String> = items.iter().filter_map(|r| r.as_ref().err()).collect();
    assert_eq!(errors, vec!["cannot open /root/.hidden"]);
    assert_eq!(items.iter().filter(|r| r.is_ok()).count(), 7);
}

#[test]
fn a_missing_root_is_an_error_item() {
    let tree = Tree { nodes: vec![leaf(1)] };
    let mut walker = Walker::new("/nowhere".to_string(), WalkConfig::default(), true);
    assert_eq!(walker.step(WalkReply::Resume), WalkRequest::Stat { path: "/nowhere".to_string() });
    assert_eq!(
        walker.step(WalkReply::Stat(Err("not found".to_string()))),
        WalkRequest::YieldError("not found".to_string())
    );
    assert_eq!(walker.step(WalkReply::Resume), WalkRequest::Done);
    assert_eq!(walker.step(WalkReply::Resume), WalkRequest::Done);
    let _ = tree;
}

#[test]
fn a_failed_read_closes_the_directory() {
    let mut walker = Walker::new(
        "/r".to_string(),
        WalkConfig { follow_symlinks: false, max_depth: 5, dedup_dirs: false },
        true,
    );
    assert_eq!(walker.step(WalkReply::Resume), WalkRequest::OpenDir { path: "/r".to_string() });
    assert_eq!(walker.step(WalkReply::Opened(Ok(()))), WalkRequest::NextEntry);
    assert_eq!(
        walker.step(WalkReply::Entry(EntryRead::KindFailed("kind".to_string()))),
        WalkRequest::YieldError("kind".to_string())
    );
    assert_eq!(walker.step(WalkReply::Resume), WalkRequest::NextEntry);
    assert_eq!(
        walker.step(WalkReply::Entry(EntryRead::ReadFailed("read".to_string()))),
        WalkRequest::YieldError("read".to_string())
    );
    assert_eq!(walker.step(WalkReply::Resume), WalkRequest::Done);
}

#[test]
fn a_reply_out_of_turn_ends_the_walk_without_change() {
    let mut walker = Walker::new("/r".to_string(), WalkConfig::default(), true);
    assert_eq!(walker.step(WalkReply::Resume), WalkRequest::Stat { path: "/r".to_string() });
    assert_eq!(walker.step(WalkReply::Opened(Ok(()))), WalkRequest::Done);
    assert!(!walker.is_done());
    assert_eq!(
        walker.step(WalkReply::Stat(Ok(Some(FileId { volume: 1, index: 1 })))),
        WalkRequest::OpenDir { path: "/r".to_string() }
    );
}

#[test]
fn an_unfiltered_walk_asks_no_filter() {
    let cfg = WalkConfig { follow_symlinks: false, max_depth: 5, dedup_dirs: false };
    let mut walker = walk("/r".to_string(), cfg);
    assert_eq!(walker.step(WalkReply::Resume), WalkRequest::OpenDir { path: "/r".to_string() });
    assert_eq!(walker.step(WalkReply::Opened(Ok(()))), WalkRequest::NextEntry);
    let found = WalkReply::Entry(EntryRead::Found { path: "/r/.a".to_string(), kind: EntryKind::Dir });
    assert_eq!(
        walker.step(found),
        WalkRequest::Yield(WalkEntry { path: "/r/.a".to_string(), depth: 1, file_type: EntryKind::Dir })
    );
    assert_eq!(walker.step(WalkReply::Resume), WalkRequest::OpenDir { path: "/r/.a".to_string() });

    let mut walker = walk_filtered("/r".to_string(), cfg);
    walker.step(WalkReply::Resume);
    walker.step(WalkReply::Opened(Ok(())));
    let found = WalkReply::Entry(EntryRead::Found { path: "/r/.a".to_string(), kind: EntryKind::Dir });
    assert_eq!(
        walker.step(found),
        WalkRequest::Filter {
            entry: WalkEntry { path: "/r/.a".to_string(), depth: 1, file_type: EntryKind::Dir }
        }
    );
    assert_eq!(walker.step(WalkReply::Filtered(Filtering::IgnoreDir)), WalkRequest::NextEntry);
}
