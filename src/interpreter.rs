use vstd::prelude::*;
use crate::builtins::{
    copy, create, delete, mkdir, move_path, shell, Deletion, FsOp, FsOpView, Platform,
    ShellCommand, Transfer,
};
use crate::exception::{ErrorKind, Exception};
use crate::resolve::{first_undefined_at, resolve_argument, resolved, Literal, Variables};
use crate::text::{joined_lines, print, string_views, trimmed};

verus! {

/// The builtin operations of the language.
#[derive(Debug, Clone, Copy, PartialEq, Eq, Structural)]
pub enum Builtin {
    Print,
    Create,
    Mkdir,
    Delete,
    Move,
    Copy,
    Shell,
}

/// The builtin that a script calls by `name`.
pub open spec fn builtin_of(name: Seq<char>) -> Option<Builtin> {
    if name == "print"@ {
        Some(Builtin::Print)
    } else if name == "create"@ {
        Some(Builtin::Create)
    } else if name == "mkdir"@ {
        Some(Builtin::Mkdir)
    } else if name == "delete"@ {
        Some(Builtin::Delete)
    } else if name == "move"@ {
        Some(Builtin::Move)
    } else if name == "copy"@ {
        Some(Builtin::Copy)
    } else if name == "shell"@ {
        Some(Builtin::Shell)
    } else {
        None
    }
}

/// Looks a builtin up by the name that scripts call it by.
pub fn builtin_named(name: &String) -> (r: Option<Builtin>)
    ensures
        r == builtin_of(name@),
{
    proof {
        reveal_strlit("print");
        reveal_strlit("create");
        reveal_strlit("mkdir");
        reveal_strlit("delete");
        reveal_strlit("move");
        reveal_strlit("copy");
        reveal_strlit("shell");
    }
    if *name == "print".to_owned() {
        Some(Builtin::Print)
    } else if *name == "create".to_owned() {
        Some(Builtin::Create)
    } else if *name == "mkdir".to_owned() {
        Some(Builtin::Mkdir)
    } else if *name == "delete".to_owned() {
        Some(Builtin::Delete)
    } else if *name == "move".to_owned() {
        Some(Builtin::Move)
    } else if *name == "copy".to_owned() {
        Some(Builtin::Copy)
    } else if *name == "shell".to_owned() {
        Some(Builtin::Shell)
    } else {
        None
    }
}

/// One call of a builtin, with its arguments before resolution.
#[derive(Debug, Clone)]
pub struct Call {
    pub builtin: Builtin,
    pub args: Vec<Vec<Literal>>,
}

/// What the host performs for one call.
#[derive(Debug, Clone)]
pub enum Dispatch {
    /// One output write.
    Print(String),
    Create(FsOp),
    Mkdir(Vec<FsOp>),
    Delete(Deletion),
    Copy(Transfer),
    /// The copy, then the removal of the source.
    Move(Transfer, Deletion),
    Shell(Vec<ShellCommand>),
}

/// The error that a builtin raises on resolved arguments, if any.
pub open spec fn refusal(b: Builtin, platform: Platform, args: Seq<Seq<char>>) -> Option<ErrorKind> {
    match b {
        Builtin::Create | Builtin::Copy | Builtin::Move => if args.len() != 2 {
            Some(ErrorKind::ArgumentCount)
        } else {
            None
        },
        Builtin::Shell => if platform == Platform::Other && args.len() > 0 {
            Some(ErrorKind::UnsupportedPlatform)
        } else {
            None
        },
        _ => None,
    }
}

/// A call of `create`, `copy` or `move` whose argument count is not two is
/// refused with `ArgumentCount`: `dispatch` then returns that error and no plan,
/// so nothing on the filesystem changes.
pub proof fn wrong_arity_is_refused(b: Builtin, platform: Platform, args: Seq<Seq<char>>)
    requires
        b == Builtin::Create || b == Builtin::Copy || b == Builtin::Move,
        args.len() != 2,
    ensures
        refusal(b, platform, args) == Some(ErrorKind::ArgumentCount),
{
}

/// `d` is the removal of each of `paths`, trimmed, from the first on.
pub open spec fn removes(d: Deletion, paths: Seq<Seq<char>>) -> bool {
    &&& d.wf()
    &&& d.position() == 0
    &&& d.targets() == paths.map_values(|p: Seq<char>| trimmed(p))
}

/// `d` is what builtin `b` asks for on the resolved arguments `args`.
pub open spec fn planned(b: Builtin, platform: Platform, args: Seq<Seq<char>>, d: Dispatch) -> bool {
    match (b, d) {
        (Builtin::Print, Dispatch::Print(s)) => s@ == joined_lines(args),
        (Builtin::Create, Dispatch::Create(op)) => op@ == (FsOpView::WriteFile {
            path: trimmed(args[0]),
            content: args[1],
        }),
        (Builtin::Mkdir, Dispatch::Mkdir(ops)) => ops.len() == args.len() && forall|i: int|
            0 <= i < ops.len() ==> ops[i]@ == (FsOpView::CreateDirAll { path: trimmed(args[i]) }),
        (Builtin::Delete, Dispatch::Delete(del)) => removes(del, args),
        (Builtin::Copy, Dispatch::Copy(t)) => t.from@ == trimmed(args[0]) && t.to@ == trimmed(
            args[1],
        ),
        (Builtin::Move, Dispatch::Move(t, del)) => t.from@ == trimmed(args[0]) && t.to@
            == trimmed(args[1]) && removes(del, seq![args[0]]),
        (Builtin::Shell, Dispatch::Shell(cmds)) => cmds.len() == args.len() && forall|i: int|
            #![trigger cmds[i]]
            0 <= i < cmds.len() ==> {
                &&& cmds[i].script@ == trimmed(args[i])
                &&& platform == Platform::Unix ==> cmds[i].program@ == "sh"@ && cmds[i].flag@
                    == "-c"@
                &&& platform == Platform::Windows ==> cmds[i].program@ == "powershell"@
                    && cmds[i].flag@ == "-Command"@
            },
        _ => false,
    }
}

/// Hands resolved arguments to builtin `b` and returns its plan.
pub fn dispatch(b: Builtin, platform: Platform, args: &Vec<String>) -> (r: Result<
    Dispatch,
    Exception,
>)
    ensures
        r is Err <==> refusal(b, platform, string_views(args@)) is Some,
        r matches Err(e) ==> e.kind == refusal(b, platform, string_views(args@)).unwrap(),
        r matches Ok(d) ==> planned(b, platform, string_views(args@), d),
{
    let ghost views = string_views(args@);
    match b {
        Builtin::Print => Ok(Dispatch::Print(print(args))),
        Builtin::Create => {
            let op = create(args)?;
            Ok(Dispatch::Create(op))
        },
        Builtin::Mkdir => Ok(Dispatch::Mkdir(mkdir(args))),
        Builtin::Delete => {
            let del = delete(args);
            assert(del.targets() =~= views.map_values(|p: Seq<char>| trimmed(p)));
            Ok(Dispatch::Delete(del))
        },
        Builtin::Copy => {
            let t = copy(args)?;
            Ok(Dispatch::Copy(t))
        },
        Builtin::Move => {
            let (t, del) = move_path(args)?;
            assert(del.targets() =~= seq![views[0]].map_values(|p: Seq<char>| trimmed(p)));
            Ok(Dispatch::Move(t, del))
        },
        Builtin::Shell => {
            let cmds = shell(platform, args)?;
            Ok(Dispatch::Shell(cmds))
        },
    }
}

/// Every argument of `sv` resolves, and `out` holds their values in order.
pub open spec fn resolves_to(
    vars: Map<Seq<char>, Seq<char>>,
    sv: Seq<Vec<Literal>>,
    out: Seq<Seq<char>>,
) -> bool {
    &&& out.len() == sv.len()
    &&& forall|i: int|
        0 <= i < sv.len() ==> resolved(vars, #[trigger] sv[i]@) == Some(out[i])
}

/// The engine's state across calls: the variable environment.
#[derive(Debug, Clone)]
pub struct Interpreter {
    pub variables: Variables,
}

impl Interpreter {
    pub fn new() -> (r: Interpreter)
        ensures
            r.variables@ == Map::<Seq<char>, Seq<char>>::empty(),
    {
        Interpreter { variables: Variables::new() }
    }

    /// Resolves each argument of a call to one string, keeping their order.
    /// The first argument with an undefined variable gives `UndefinedVariable`.
    pub fn supervec_literals_to_args(&self, supervec: &Vec<Vec<Literal>>) -> (r: Result<
        Vec<String>,
        Exception,
    >)
        ensures
            r is Ok <==> forall|i: int|
                0 <= i < supervec.len() ==> resolved(self.variables@, #[trigger] supervec[i]@)
                    is Some,
            r matches Ok(v) ==> resolves_to(self.variables@, supervec@, string_views(v@)),
            r matches Err(e) ==> e.kind == ErrorKind::UndefinedVariable && exists|i: int, k: int|
                0 <= i < supervec.len() && (forall|j: int|
                    0 <= j < i ==> resolved(self.variables@, #[trigger] supervec[j]@) is Some)
                    && first_undefined_at(self.variables@, supervec[i]@, k, e.message@),
    {
        let mut out: Vec<String> = Vec::new();
        let mut i: usize = 0;
        while i < supervec.len()
            invariant
                i <= supervec.len(),
                out.len() == i,
                forall|j: int|
                    0 <= j < i ==> resolved(self.variables@, #[trigger] supervec[j]@) == Some(
                        out[j]@,
                    ),
            decreases supervec.len() - i,
        {
            let arg = resolve_argument(&self.variables, &supervec[i])?;
            out.push(arg);
            i += 1;
        }
        Ok(out)
    }

    /// Resolves a call's arguments, then hands them to its builtin.
    pub fn plan(&self, call: &Call, platform: Platform) -> (r: Result<Dispatch, Exception>)
        ensures
            r matches Ok(d) ==> exists|args: Seq<Seq<char>>|
                resolves_to(self.variables@, call.args@, args) && refusal(
                    call.builtin,
                    platform,
                    args,
                ) is None && planned(call.builtin, platform, args, d),
            r matches Err(e) ==> e.kind == ErrorKind::UndefinedVariable || exists|
                args: Seq<Seq<char>>,
            |
                resolves_to(self.variables@, call.args@, args) && refusal(
                    call.builtin,
                    platform,
                    args,
                ) == Some(e.kind),
            (forall|i: int|
                0 <= i < call.args.len() ==> resolved(self.variables@, #[trigger] call.args[i]@)
                    is Some) ==> (r matches Err(e) ==> e.kind != ErrorKind::UndefinedVariable),
            (exists|i: int|
                0 <= i < call.args.len() && resolved(self.variables@, #[trigger] call.args[i]@)
                    is None) ==> (r matches Err(e) && e.kind == ErrorKind::UndefinedVariable),
    {
        let args = self.supervec_literals_to_args(&call.args)?;
        dispatch(call.builtin, platform, &args)
    }
}

} // verus!
