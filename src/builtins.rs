use vstd::prelude::*;
use crate::exception::{ErrorKind, Exception};
use crate::text::{trim_spaces, trimmed};

verus! {

/// A filesystem effect that a builtin asks the host to perform.
#[derive(Debug, Clone)]
pub enum FsOp {
    /// Write `content` as the whole file, creating or overwriting it.
    WriteFile { path: String, content: String },
    /// Create the directory and every missing ancestor.
    CreateDirAll { path: String },
    RemoveFile { path: String },
    /// Remove the directory with all that it holds.
    RemoveDirAll { path: String },
    CopyFile { from: String, to: String },
    /// Copy the directory's whole subtree into `to`: its contents are merged
    /// into `to`, keeping their relative paths.
    CopyDir { from: String, to: String },
}

/// The paths and contents of an `FsOp`, as sequences of characters.
pub ghost enum FsOpView {
    WriteFile { path: Seq<char>, content: Seq<char> },
    CreateDirAll { path: Seq<char> },
    RemoveFile { path: Seq<char> },
    RemoveDirAll { path: Seq<char> },
    CopyFile { from: Seq<char>, to: Seq<char> },
    CopyDir { from: Seq<char>, to: Seq<char> },
}

impl View for FsOp {
    type V = FsOpView;

    open spec fn view(&self) -> FsOpView {
        match self {
            FsOp::WriteFile { path, content } => FsOpView::WriteFile {
                path: path@,
                content: content@,
            },
            FsOp::CreateDirAll { path } => FsOpView::CreateDirAll { path: path@ },
            FsOp::RemoveFile { path } => FsOpView::RemoveFile { path: path@ },
            FsOp::RemoveDirAll { path } => FsOpView::RemoveDirAll { path: path@ },
            FsOp::CopyFile { from, to } => FsOpView::CopyFile { from: from@, to: to@ },
            FsOp::CopyDir { from, to } => FsOpView::CopyDir { from: from@, to: to@ },
        }
    }
}

/// What probing a path found.
#[derive(Debug, Clone, Copy, PartialEq, Eq, Structural)]
pub enum Probe {
    File,
    Directory,
    /// Neither type nor existence could be determined.
    Unknown,
}

/// The platform whose shell runs `shell` commands.
#[derive(Debug, Clone, Copy, PartialEq, Eq, Structural)]
pub enum Platform {
    Unix,
    Windows,
    Other,
}

/// A process to spawn and wait for: `program flag script`.
#[derive(Debug, Clone)]
pub struct ShellCommand {
    pub program: String,
    pub flag: String,
    pub script: String,
}

fn arity_error(message: &str) -> (r: Exception)
    ensures
        r.kind == ErrorKind::ArgumentCount,
{
    Exception::new(ErrorKind::ArgumentCount, message.to_owned())
}

/// The plan of `create(path, content)`: one write of `content` to the trimmed path.
pub fn create(args: &Vec<String>) -> (r: Result<FsOp, Exception>)
    ensures
        r is Err <==> args.len() != 2,
        r matches Err(e) ==> e.kind == ErrorKind::ArgumentCount,
        r matches Ok(op) ==> op@ == (FsOpView::WriteFile {
            path: trimmed(args[0]@),
            content: args[1]@,
        }),
{
    if args.len() != 2 {
        return Err(
            arity_error("create() takes exactly 2 arguments, the file and the content"),
        );
    }
    Ok(FsOp::WriteFile { path: trim_spaces(&args[0]), content: args[1].clone() })
}

/// The plan of `mkdir(paths...)`: one recursive directory creation per argument, in order.
pub fn mkdir(args: &Vec<String>) -> (r: Vec<FsOp>)
    ensures
        r.len() == args.len(),
        forall|i: int|
            0 <= i < r.len() ==> r[i]@ == (FsOpView::CreateDirAll { path: trimmed(args[i]@) }),
{
    let mut ops: Vec<FsOp> = Vec::new();
    let mut i: usize = 0;
    while i < args.len()
        invariant
            i <= args.len(),
            ops.len() == i,
            forall|j: int|
                0 <= j < i ==> ops[j]@ == (FsOpView::CreateDirAll { path: trimmed(args[j]@) }),
        decreases args.len() - i,
    {
        ops.push(FsOp::CreateDirAll { path: trim_spaces(&args[i]) });
        i += 1;
    }
    ops
}

/// The state of one `delete` call: the trimmed targets and how far it has come.
///
/// Each target is probed before it is removed. A probe that cannot tell the
/// target's type ends the call: the remaining targets are left untouched.
#[derive(Debug, Clone)]
pub struct Deletion {
    targets: Vec<String>,
    next: usize,
}

impl Deletion {
    pub closed spec fn targets(&self) -> Seq<Seq<char>> {
        self.targets@.map_values(|t: String| t@)
    }

    /// The index of the next target to probe; the length once the call is over.
    pub closed spec fn position(&self) -> nat {
        self.next as nat
    }

    pub open spec fn wf(&self) -> bool {
        self.position() <= self.targets().len()
    }

    /// The path that must be probed next, or `None` when the call is over.
    pub fn pending(&self) -> (r: Option<String>)
        requires
            self.wf(),
        ensures
            r is Some <==> self.position() < self.targets().len(),
            r matches Some(p) ==> p@ == self.targets()[self.position() as int],
    {
        if self.next < self.targets.len() {
            Some(self.targets[self.next].clone())
        } else {
            None
        }
    }

    /// Takes the probe of the pending path and returns the removal to perform.
    /// An `Unknown` probe ends the call without removing anything.
    pub fn on_probe(&mut self, probe: Probe) -> (r: Option<FsOp>)
        requires
            old(self).wf(),
            old(self).position() < old(self).targets().len(),
        ensures
            final(self).wf(),
            final(self).targets() == old(self).targets(),
            probe == Probe::Unknown ==> r is None
                && final(self).position() == final(self).targets().len(),
            probe == Probe::File ==> final(self).position() == old(self).position() + 1
                && r is Some && r.unwrap()@ == (FsOpView::RemoveFile {
                path: old(self).targets()[old(self).position() as int],
            }),
            probe == Probe::Directory ==> final(self).position() == old(self).position() + 1
                && r is Some && r.unwrap()@ == (FsOpView::RemoveDirAll {
                path: old(self).targets()[old(self).position() as int],
            }),
    {
        proof {
            assert(self.targets().len() == self.targets@.len());
            assert(self.next < self.targets.len());
        }
        let target = self.targets[self.next].clone();
        match probe {
            Probe::Unknown => {
                self.next = self.targets.len();
                None
            },
            Probe::File => {
                self.next = self.next + 1;
                Some(FsOp::RemoveFile { path: target })
            },
            Probe::Directory => {
                self.next = self.next + 1;
                Some(FsOp::RemoveDirAll { path: target })
            },
        }
    }
}

fn trim_all(args: &Vec<String>) -> (r: Vec<String>)
    ensures
        r.len() == args.len(),
        forall|i: int| 0 <= i < r.len() ==> r[i]@ == trimmed(#[trigger] args[i]@),
{
    let mut out: Vec<String> = Vec::new();
    let mut i: usize = 0;
    while i < args.len()
        invariant
            i <= args.len(),
            out.len() == i,
            forall|j: int| 0 <= j < i ==> out[j]@ == trimmed(#[trigger] args[j]@),
        decreases args.len() - i,
    {
        out.push(trim_spaces(&args[i]));
        i += 1;
    }
    out
}

/// Starts `delete(paths...)`: every argument, trimmed, is a target, in order.
pub fn delete(args: &Vec<String>) -> (r: Deletion)
    ensures
        r.wf(),
        r.position() == 0,
        r.targets().len() == args.len(),
        forall|i: int| 0 <= i < args.len() ==> r.targets()[i] == trimmed(#[trigger] args[i]@),
{
    Deletion { targets: trim_all(args), next: 0 }
}

/// A `copy` whose source has yet to be probed.
#[derive(Debug, Clone)]
pub struct Transfer {
    pub from: String,
    pub to: String,
}

impl Transfer {
    /// Takes the probe of `from` and returns the copy to perform.
    /// An `Unknown` probe means that nothing is copied.
    pub fn on_probe(&self, probe: Probe) -> (r: Option<FsOp>)
        ensures
            probe == Probe::Unknown ==> r is None,
            probe == Probe::File ==> r is Some && r.unwrap()@ == (FsOpView::CopyFile {
                from: self.from@,
                to: self.to@,
            }),
            probe == Probe::Directory ==> r is Some && r.unwrap()@ == (FsOpView::CopyDir {
                from: self.from@,
                to: self.to@,
            }),
    {
        match probe {
            Probe::Unknown => None,
            Probe::File => Some(FsOp::CopyFile { from: self.from.clone(), to: self.to.clone() }),
            Probe::Directory => Some(
                FsOp::CopyDir { from: self.from.clone(), to: self.to.clone() },
            ),
        }
    }
}

/// Starts `copy(source, destination)`, both trimmed.
pub fn copy(args: &Vec<String>) -> (r: Result<Transfer, Exception>)
    ensures
        r is Err <==> args.len() != 2,
        r matches Err(e) ==> e.kind == ErrorKind::ArgumentCount,
        r matches Ok(t) ==> t.from@ == trimmed(args[0]@) && t.to@ == trimmed(args[1]@),
{
    if args.len() != 2 {
        return Err(
            arity_error(
                "copy() and move() take exactly 2 arguments, the origin and the destination",
            ),
        );
    }
    Ok(Transfer { from: trim_spaces(&args[0]), to: trim_spaces(&args[1]) })
}

/// Starts `move(source, destination)`: the `copy` of both arguments, then the
/// `delete` of the source alone.
pub fn move_path(args: &Vec<String>) -> (r: Result<(Transfer, Deletion), Exception>)
    ensures
        r is Err <==> args.len() != 2,
        r matches Err(e) ==> e.kind == ErrorKind::ArgumentCount,
        r matches Ok(p) ==> {
            &&& p.0.from@ == trimmed(args[0]@)
            &&& p.0.to@ == trimmed(args[1]@)
            &&& p.1.wf()
            &&& p.1.position() == 0
            &&& p.1.targets() == seq![trimmed(args[0]@)]
        },
{
    let transfer = copy(args)?;
    let source = vec![args[0].clone()];
    let removal = delete(&source);
    proof {
        assert(source@[0] == args[0]);
        assert(removal.targets() =~= seq![trimmed(args[0]@)]);
    }
    Ok((transfer, removal))
}

/// The commands of `shell(commands...)`, each trimmed, in order. On a
/// platform other than Unix-like or Windows any command is refused.
pub fn shell(platform: Platform, args: &Vec<String>) -> (r: Result<Vec<ShellCommand>, Exception>)
    ensures
        r is Err <==> platform == Platform::Other && args.len() > 0,
        r matches Err(e) ==> e.kind == ErrorKind::UnsupportedPlatform,
        r matches Ok(cmds) ==> {
            &&& cmds.len() == args.len()
            &&& forall|i: int|
                #![trigger cmds[i]]
                0 <= i < cmds.len() ==> {
                    &&& cmds[i].script@ == trimmed(args[i]@)
                    &&& platform == Platform::Unix ==> cmds[i].program@ == "sh"@
                        && cmds[i].flag@ == "-c"@
                    &&& platform == Platform::Windows ==> cmds[i].program@ == "powershell"@
                        && cmds[i].flag@ == "-Command"@
                }
        },
{
    let mut cmds: Vec<ShellCommand> = Vec::new();
    let mut i: usize = 0;
    while i < args.len()
        invariant
            i <= args.len(),
            cmds.len() == i,
            platform == Platform::Other ==> i == 0,
            forall|j: int|
                #![trigger cmds[j]]
                0 <= j < i ==> {
                    &&& cmds[j].script@ == trimmed(args[j]@)
                    &&& platform == Platform::Unix ==> cmds[j].program@ == "sh"@
                        && cmds[j].flag@ == "-c"@
                    &&& platform == Platform::Windows ==> cmds[j].program@ == "powershell"@
                        && cmds[j].flag@ == "-Command"@
                },
        decreases args.len() - i,
    {
        let script = trim_spaces(&args[i]);
        proof {
            reveal_strlit("sh");
            reveal_strlit("-c");
            reveal_strlit("powershell");
            reveal_strlit("-Command");
        }
        let cmd = match platform {
            Platform::Unix => ShellCommand {
                program: "sh".to_owned(),
                flag: "-c".to_owned(),
                script,
            },
            Platform::Windows => ShellCommand {
                program: "powershell".to_owned(),
                flag: "-Command".to_owned(),
                script,
            },
            Platform::Other => {
                return Err(
                    Exception::new(
                        ErrorKind::UnsupportedPlatform,
                        "shell() runs only on Windows and Unix-like systems".to_owned(),
                    ),
                );
            },
        };
        cmds.push(cmd);
        i += 1;
    }
    Ok(cmds)
}

} // verus!
