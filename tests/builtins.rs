use voila::{
    copy, create, delete, dispatch, mkdir, move_path, print, shell, Builtin, Dispatch, ErrorKind,
    FsOp, Platform, Probe,
};

fn strings(items: &[&str]) -> Vec<String> {
    items.iter().map(|s| s.to_string()).collect()
}

#[test]
fn print_is_one_write_of_joined_lines() {
    assert_eq!(print(&strings(&["a", "b", "c"])), "a\nb\nc");
}

#[test]
fn print_of_nothing_and_of_one() {
    assert_eq!(print(&strings(&[])), "");
    assert_eq!(print(&strings(&["only"])), "only");
    assert_eq!(print(&strings(&["", ""])), "\n");
}

#[test]
fn create_writes_content_to_trimmed_path() {
    let op = create(&strings(&["  /tmp/f.txt \n", "hello"])).unwrap();
    match op {
        FsOp::WriteFile { path, content } => {
            assert_eq!(path, "/tmp/f.txt");
            assert_eq!(content, "hello");
        }
        other => panic!("unexpected plan {:?}", other),
    }
}

#[test]
fn create_again_writes_the_new_content_whole() {
    let op = create(&strings(&["/tmp/f.txt", "bye"])).unwrap();
    assert!(matches!(op, FsOp::WriteFile { ref content, .. } if content == "bye"));
}

#[test]
fn wrong_arity_is_an_argument_count_error() {
    for n in [0usize, 1, 3, 4] {
        let args: Vec<String> = (0..n).map(|i| format!("/tmp/arg{}", i)).collect();
        assert_eq!(create(&args).unwrap_err().kind, ErrorKind::ArgumentCount);
        assert_eq!(copy(&args).unwrap_err().kind, ErrorKind::ArgumentCount);
        assert_eq!(move_path(&args).unwrap_err().kind, ErrorKind::ArgumentCount);
        for b in [Builtin::Create, Builtin::Copy, Builtin::Move] {
            let e = dispatch(b, Platform::Unix, &args).unwrap_err();
            assert_eq!(e.kind, ErrorKind::ArgumentCount);
        }
    }
}

#[test]
fn mkdir_plans_each_directory_in_order() {
    let ops = mkdir(&strings(&["/tmp/x", " /tmp/x/y "]));
    assert_eq!(ops.len(), 2);
    assert!(matches!(&ops[0], FsOp::CreateDirAll { path } if path == "/tmp/x"));
    assert!(matches!(&ops[1], FsOp::CreateDirAll { path } if path == "/tmp/x/y"));
    let again = mkdir(&strings(&["/tmp/x", "/tmp/x/y"]));
    assert_eq!(again.len(), 2);
}

#[test]
fn delete_stops_at_a_path_it_cannot_probe() {
    let mut d = delete(&strings(&["/tmp/does-not-exist", "/tmp/real-file"]));
    assert_eq!(d.pending().as_deref(), Some("/tmp/does-not-exist"));
    assert!(d.on_probe(Probe::Unknown).is_none());
    assert_eq!(d.pending(), None);
}

#[test]
fn delete_removes_files_and_directories() {
    let mut d = delete(&strings(&[" /tmp/file ", "/tmp/dir"]));
    assert_eq!(d.pending().as_deref(), Some("/tmp/file"));
    let first = d.on_probe(Probe::File).unwrap();
    assert!(matches!(first, FsOp::RemoveFile { ref path } if path == "/tmp/file"));
    assert_eq!(d.pending().as_deref(), Some("/tmp/dir"));
    let second = d.on_probe(Probe::Directory).unwrap();
    assert!(matches!(second, FsOp::RemoveDirAll { ref path } if path == "/tmp/dir"));
    assert_eq!(d.pending(), None);
}

#[test]
fn delete_of_nothing_is_over_at_once() {
    assert_eq!(delete(&strings(&[])).pending(), None);
}

#[test]
fn copy_of_a_file_and_of_a_directory() {
    let t = copy(&strings(&["/tmp/a.txt ", " /tmp/b.txt"])).unwrap();
    assert_eq!(t.from, "/tmp/a.txt");
    assert_eq!(t.to, "/tmp/b.txt");
    let file = t.on_probe(Probe::File).unwrap();
    assert!(matches!(file, FsOp::CopyFile { ref from, ref to } if from == "/tmp/a.txt" && to == "/tmp/b.txt"));
    let dir = t.on_probe(Probe::Directory).unwrap();
    assert!(matches!(dir, FsOp::CopyDir { ref from, ref to } if from == "/tmp/a.txt" && to == "/tmp/b.txt"));
    assert!(t.on_probe(Probe::Unknown).is_none());
}

#[test]
fn move_copies_then_removes_the_source() {
    let (t, mut d) = move_path(&strings(&["/tmp/a.txt", "/tmp/c.txt"])).unwrap();
    let op = t.on_probe(Probe::File).unwrap();
    assert!(matches!(op, FsOp::CopyFile { ref from, ref to } if from == "/tmp/a.txt" && to == "/tmp/c.txt"));
    assert_eq!(d.pending().as_deref(), Some("/tmp/a.txt"));
    let rm = d.on_probe(Probe::File).unwrap();
    assert!(matches!(rm, FsOp::RemoveFile { ref path } if path == "/tmp/a.txt"));
    assert_eq!(d.pending(), None);
}

#[test]
fn shell_runs_each_command_through_sh() {
    let cmds = shell(Platform::Unix, &strings(&[" exit 0 ", "echo hi"])).unwrap();
    assert_eq!(cmds.len(), 2);
    assert_eq!(cmds[0].program, "sh");
    assert_eq!(cmds[0].flag, "-c");
    assert_eq!(cmds[0].script, "exit 0");
    assert_eq!(cmds[1].script, "echo hi");
}

#[test]
fn shell_on_windows_uses_powershell() {
    let cmds = shell(Platform::Windows, &strings(&["exit 0"])).unwrap();
    assert_eq!(cmds[0].program, "powershell");
    assert_eq!(cmds[0].flag, "-Command");
}

#[test]
fn shell_of_nothing_spawns_nothing() {
    for p in [Platform::Unix, Platform::Windows, Platform::Other] {
        assert!(shell(p, &strings(&[])).unwrap().is_empty());
    }
}

#[test]
fn shell_on_another_platform_is_unsupported() {
    let e = shell(Platform::Other, &strings(&["exit 0"])).unwrap_err();
    assert_eq!(e.kind, ErrorKind::UnsupportedPlatform);
}

#[test]
fn dispatch_print_and_delete() {
    match dispatch(Builtin::Print, Platform::Unix, &strings(&["a", "b"])).unwrap() {
        Dispatch::Print(s) => assert_eq!(s, "a\nb"),
        other => panic!("unexpected plan {:?}", other),
    }
    match dispatch(Builtin::Delete, Platform::Unix, &strings(&[" /tmp/q "])).unwrap() {
        Dispatch::Delete(d) => assert_eq!(d.pending().as_deref(), Some("/tmp/q")),
        other => panic!("unexpected plan {:?}", other),
    }
}
