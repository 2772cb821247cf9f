use launcher_installer::copier::{Copier, CopyEnd, CopyError, CopyStage, Frame};
use launcher_installer::host::{Entry, EntryKind, Inspection, Progress, Reply, Request};
use std::collections::{BTreeMap, BTreeSet};

fn seen(exists: bool) -> Reply {
    Reply::Inspected(Inspection { exists, is_dir: exists, is_file: false })
}

fn failed(detail: &str) -> Reply {
    Reply::Failed { detail: detail.to_string() }
}

fn entry(name: &str, kind: EntryKind) -> Entry {
    Entry { name: name.to_string(), kind }
}

fn frame(src: &str, dst: &str, entries: Vec<Entry>, next: usize) -> Frame {
    Frame { src: src.to_string(), dst: dst.to_string(), entries, next }
}

/// A file system in memory: directories, and files with their bytes.
struct Disk {
    dirs: BTreeSet<String>,
    files: BTreeMap<String, Vec<u8>>,
    copies: usize,
}

fn parent(path: &str) -> &str {
    match path.rfind('/') {
        Some(0) => "/",
        Some(i) => &path[..i],
        None => "",
    }
}

impl Disk {
    fn new() -> Disk {
        Disk { dirs: BTreeSet::new(), files: BTreeMap::new(), copies: 0 }
    }

    fn mkdirs(&mut self, path: &str) {
        let mut p = path;
        while !p.is_empty() && p != "/" {
            self.dirs.insert(p.to_string());
            p = parent(p);
        }
    }

    fn write(&mut self, path: &str, bytes: &[u8]) {
        self.mkdirs(parent(path));
        self.files.insert(path.to_string(), bytes.to_vec());
    }

    fn list(&self, dir: &str) -> Vec<Entry> {
        let mut entries = Vec::new();
        for d in &self.dirs {
            if parent(d) == dir {
                entries.push(entry(&d[dir.len() + 1..], EntryKind::Directory));
            }
        }
        for f in self.files.keys() {
            if parent(f) == dir {
                entries.push(entry(&f[dir.len() + 1..], EntryKind::File));
            }
        }
        entries
    }

    fn perform(&mut self, request: &Request) -> Reply {
        match request {
            Request::Inspect(path) => seen(self.dirs.contains(path)),
            Request::CreateDirs(path) => {
                self.mkdirs(path);
                Reply::Done
            }
            Request::ListDir(path) => {
                if self.dirs.contains(path) {
                    Reply::Listed(self.list(path))
                } else {
                    failed("no such directory")
                }
            }
            Request::CopyFile { from, to } => match self.files.get(from).cloned() {
                Some(bytes) if self.dirs.contains(parent(to)) => {
                    self.files.insert(to.clone(), bytes);
                    self.copies += 1;
                    Reply::Done
                }
                _ => failed("cannot copy"),
            },
            _ => failed("not understood"),
        }
    }

    fn copy_tree(&mut self, src: &str, dst: &str) -> CopyEnd {
        let (mut state, mut request) = Copier::start(src, dst);
        loop {
            let reply = self.perform(&request);
            match state.step(reply) {
                Progress::Next(next, then) => {
                    state = next;
                    request = then;
                }
                Progress::Finished(end) => return end,
            }
        }
    }
}

fn sample() -> Disk {
    let mut disk = Disk::new();
    disk.write("/src/Battle.net.exe", b"MZ\x90\x00");
    disk.write("/src/empty.dat", b"");
    disk.write("/src/data/config.ini", b"[a]\nb=1\n");
    disk.write("/src/data/deep/er/blob.bin", &[0u8, 255, 1, 254]);
    disk.write("/src/Program Files (x86)/x", b"x");
    disk.mkdirs("/src/hollow");
    disk
}

#[test]
fn copy_tree_reproduces_every_file_at_its_relative_path() {
    let mut disk = sample();
    assert_eq!(disk.copy_tree("/src", "/dst/new"), CopyEnd::Done);
    let sources: Vec<(String, Vec<u8>)> = disk
        .files
        .iter()
        .filter(|(path, _)| path.starts_with("/src/"))
        .map(|(path, bytes)| (path.clone(), bytes.clone()))
        .collect();
    assert_eq!(sources.len(), 5);
    for (path, bytes) in &sources {
        let mirrored = format!("/dst/new{}", &path["/src".len()..]);
        assert_eq!(disk.files.get(&mirrored), Some(bytes));
    }
    let copied = disk.files.keys().filter(|path| path.starts_with("/dst/new/")).count();
    assert_eq!(copied, sources.len());
    assert_eq!(disk.copies, sources.len());
    assert!(disk.dirs.contains("/dst/new/hollow"));
    assert!(disk.dirs.contains("/dst/new/data/deep/er"));
}

#[test]
fn copy_tree_into_an_existing_target_keeps_what_is_there() {
    let mut disk = sample();
    disk.write("/dst/other.txt", b"stay");
    disk.write("/dst/data/config.ini", b"old");
    assert_eq!(disk.copy_tree("/src", "/dst"), CopyEnd::Done);
    assert_eq!(disk.files.get("/dst/other.txt"), Some(&b"stay".to_vec()));
    assert_eq!(disk.files.get("/dst/data/config.ini"), Some(&b"[a]\nb=1\n".to_vec()));
}

#[test]
fn copy_tree_of_an_empty_directory_makes_the_target() {
    let mut disk = Disk::new();
    disk.mkdirs("/src");
    assert_eq!(disk.copy_tree("/src", "/dst"), CopyEnd::Done);
    assert!(disk.dirs.contains("/dst"));
    assert_eq!(disk.copies, 0);
}

#[test]
fn copy_tree_fails_when_the_source_cannot_be_listed() {
    let mut disk = Disk::new();
    assert_eq!(
        disk.copy_tree("/nowhere", "/dst"),
        CopyEnd::Error(CopyError::List {
            path: "/nowhere".to_string(),
            detail: "no such directory".to_string()
        })
    );
}

#[test]
fn copier_begins_by_inspecting_the_target() {
    let (state, request) = Copier::start("/src", "/dst");
    assert_eq!(
        state,
        Copier { stack: vec![frame("/src", "/dst", Vec::new(), 0)], stage: CopyStage::CheckTarget }
    );
    assert_eq!(request, Request::Inspect("/dst".to_string()));
}

#[test]
fn copier_creates_a_missing_target_only() {
    let (state, _) = Copier::start("/src", "/dst");
    assert_eq!(
        state.step(seen(false)),
        Progress::Next(
            Copier {
                stack: vec![frame("/src", "/dst", Vec::new(), 0)],
                stage: CopyStage::CreateTarget
            },
            Request::CreateDirs("/dst".to_string())
        )
    );
    let (state, _) = Copier::start("/src", "/dst");
    assert_eq!(
        state.step(seen(true)),
        Progress::Next(
            Copier { stack: vec![frame("/src", "/dst", Vec::new(), 0)], stage: CopyStage::List },
            Request::ListDir("/src".to_string())
        )
    );
}

#[test]
fn copier_takes_the_entries_in_order_and_descends() {
    let entries = vec![entry("a.txt", EntryKind::File), entry("sub", EntryKind::Directory)];
    let listing = Copier { stack: vec![frame("/s", "/d", Vec::new(), 0)], stage: CopyStage::List };
    let copying = Copier {
        stack: vec![frame("/s", "/d", entries.iter().map(|e| entry(&e.name, e.kind)).collect(), 1)],
        stage: CopyStage::File,
    };
    assert_eq!(
        listing.step(Reply::Listed(entries)),
        Progress::Next(
            copying,
            Request::CopyFile { from: "/s/a.txt".to_string(), to: "/d/a.txt".to_string() }
        )
    );
    let copying = Copier {
        stack: vec![frame(
            "/s",
            "/d",
            vec![entry("a.txt", EntryKind::File), entry("sub", EntryKind::Directory)],
            1,
        )],
        stage: CopyStage::File,
    };
    assert_eq!(
        copying.step(Reply::Done),
        Progress::Next(
            Copier {
                stack: vec![
                    frame(
                        "/s",
                        "/d",
                        vec![entry("a.txt", EntryKind::File), entry("sub", EntryKind::Directory)],
                        2
                    ),
                    frame("/s/sub", "/d/sub", Vec::new(), 0),
                ],
                stage: CopyStage::CheckTarget
            },
            Request::Inspect("/d/sub".to_string())
        )
    );
}

#[test]
fn copier_returns_to_the_outer_directory_and_ends() {
    let inner_done = Copier {
        stack: vec![
            frame("/s", "/d", vec![entry("sub", EntryKind::Directory), entry("z", EntryKind::File)], 1),
            frame("/s/sub", "/d/sub", Vec::new(), 0),
        ],
        stage: CopyStage::List,
    };
    assert_eq!(
        inner_done.step(Reply::Listed(Vec::new())),
        Progress::Next(
            Copier {
                stack: vec![frame(
                    "/s",
                    "/d",
                    vec![entry("sub", EntryKind::Directory), entry("z", EntryKind::File)],
                    2
                )],
                stage: CopyStage::File
            },
            Request::CopyFile { from: "/s/z".to_string(), to: "/d/z".to_string() }
        )
    );
    let last = Copier {
        stack: vec![
            frame("/s", "/d", vec![entry("sub", EntryKind::Directory)], 1),
            frame("/s/sub", "/d/sub", vec![entry("f", EntryKind::File)], 1),
        ],
        stage: CopyStage::File,
    };
    assert_eq!(last.step(Reply::Done), Progress::Finished(CopyEnd::Done));
}

#[test]
fn copier_fails_fast_on_each_error() {
    let one = || Copier {
        stack: vec![frame("/s", "/d", vec![entry("f", EntryKind::File), entry("g", EntryKind::File)], 1)],
        stage: CopyStage::File,
    };
    assert_eq!(
        one().step(failed("disk full")),
        Progress::Finished(CopyEnd::Error(CopyError::File { detail: "disk full".to_string() }))
    );
    let creating =
        Copier { stack: vec![frame("/s", "/d", Vec::new(), 0)], stage: CopyStage::CreateTarget };
    assert_eq!(
        creating.step(failed("denied")),
        Progress::Finished(CopyEnd::Error(CopyError::CreateDir {
            path: "/d".to_string(),
            detail: "denied".to_string()
        }))
    );
    let listing = Copier { stack: vec![frame("/s", "/d", Vec::new(), 0)], stage: CopyStage::List };
    assert_eq!(
        listing.step(Reply::Listed(vec![entry("", EntryKind::Unreadable), entry("f", EntryKind::File)])),
        Progress::Finished(CopyEnd::Error(CopyError::Entry { dir: "/s".to_string() }))
    );
}

#[test]
fn copier_copies_what_comes_before_an_unreadable_entry() {
    let listing = Copier { stack: vec![frame("/s", "/d", Vec::new(), 0)], stage: CopyStage::List };
    let entries = vec![entry("f", EntryKind::File), entry("", EntryKind::Unreadable)];
    let next = listing.step(Reply::Listed(entries));
    let state = match next {
        Progress::Next(state, request) => {
            assert_eq!(request, Request::CopyFile { from: "/s/f".to_string(), to: "/d/f".to_string() });
            state
        }
        other => panic!("ended early: {:?}", other),
    };
    assert_eq!(
        state.step(Reply::Done),
        Progress::Finished(CopyEnd::Error(CopyError::Entry { dir: "/s".to_string() }))
    );
}

#[test]
fn copier_rejects_a_reply_that_does_not_fit() {
    let unexpected = Progress::Finished(CopyEnd::Error(CopyError::Unexpected));
    let (state, _) = Copier::start("/s", "/d");
    assert_eq!(state.step(Reply::Done), unexpected);
    let listing = Copier { stack: vec![frame("/s", "/d", Vec::new(), 0)], stage: CopyStage::List };
    assert_eq!(listing.step(Reply::Done), unexpected);
    let empty = Copier { stack: Vec::new(), stage: CopyStage::File };
    assert_eq!(empty.step(Reply::Done), unexpected);
}
