//! How the file server is started that serves the files of one compilation.

use vstd::prelude::*;
use vstd::string::StringExecFns;
use crate::text::{decimal, decimal_text};

verus! {

/// Path of the file server.
pub const FD_SERVER_BIN: &'static str = "/apex/com.android.virt/bin/fd_server";

/// The file descriptors that a compilation reads from and writes to.
#[derive(Debug, PartialEq, Eq)]
pub struct FdAnnotation {
    pub input_fds: Vec<i32>,
    pub output_fds: Vec<i32>,
}

/// What the file server is started with.
#[derive(Debug, PartialEq, Eq)]
pub struct FdServerCommand {
    /// The file descriptors that the server inherits.
    pub inheritable_fds: Vec<i32>,
    /// The arguments of the server, its own path first.
    pub args: Vec<String>,
}

impl FdServerCommand {
    /// The arguments as texts.
    pub open spec fn arguments(&self) -> Seq<Seq<char>> {
        Seq::new(self.args@.len(), |i: int| self.args@[i]@)
    }
}

/// The arguments that hand `fds` to the server: each one behind `flag`.
pub open spec fn flagged(flag: Seq<char>, fds: Seq<i32>) -> Seq<Seq<char>> {
    Seq::new(
        2 * fds.len(),
        |i: int|
            if i % 2 == 0 {
                flag
            } else {
                decimal_text(fds[i / 2] as int)
            },
    )
}

/// The arguments of the server: its path, the switch to the binder protocol,
/// the input files as read-only ones and the output files as writable ones.
pub open spec fn fd_server_args(fd_annotation: FdAnnotation) -> Seq<Seq<char>> {
    seq![FD_SERVER_BIN@, "--rpc-binder"@] + flagged("--ro-fds"@, fd_annotation.input_fds@)
        + flagged("--rw-fds"@, fd_annotation.output_fds@)
}

/// The file descriptors that the server inherits: all those that it serves,
/// behind the standard output and the standard error where the run can be
/// debugged.
pub open spec fn fd_server_fds(fd_annotation: FdAnnotation, debuggable: bool) -> Seq<i32> {
    (if debuggable {
        seq![1i32, 2i32]
    } else {
        Seq::empty()
    }) + fd_annotation.input_fds@ + fd_annotation.output_fds@
}

/// Appends `fds` to the descriptors to inherit and, each behind `flag`, to
/// the arguments.
fn push_fds(inheritable_fds: &mut Vec<i32>, args: &mut Vec<String>, flag: &str, fds: &Vec<i32>)
    ensures
        final(inheritable_fds)@ == old(inheritable_fds)@ + fds@,
        final(args)@.len() == old(args)@.len() + 2 * fds@.len(),
        forall|i: int| 0 <= i < old(args)@.len() ==> final(args)@[i] == old(args)@[i],
        forall|i: int|
            old(args)@.len() <= i < final(args)@.len() ==> (#[trigger] final(args)@[i])@
                == flagged(flag@, fds@)[i - old(args)@.len()],
{
    let ghost fds_before = inheritable_fds@;
    let ghost args_before = args@;
    let mut k: usize = 0;
    while k < fds.len()
        invariant
            k <= fds@.len(),
            inheritable_fds@ == fds_before + fds@.take(k as int),
            args@.len() == args_before.len() + 2 * k,
            forall|i: int| 0 <= i < args_before.len() ==> args@[i] == args_before[i],
            forall|i: int|
                args_before.len() <= i < args@.len() ==> (#[trigger] args@[i])@ == flagged(
                    flag@,
                    fds@,
                )[i - args_before.len()],
        decreases fds.len() - k,
    {
        let fd = fds[k];
        args.push(String::from_str(flag));
        args.push(decimal(fd));
        inheritable_fds.push(fd);
        k += 1;
    }
}

/// Puts together what the file server for `fd_annotation` is started with.
pub fn fd_server_command(fd_annotation: &FdAnnotation, debuggable: bool) -> (command:
    FdServerCommand)
    ensures
        command.inheritable_fds@ == fd_server_fds(*fd_annotation, debuggable),
        command.arguments() == fd_server_args(*fd_annotation),
{
    let mut inheritable_fds: Vec<i32> = Vec::new();
    if debuggable {
        // inherit/redirect stdout/stderr for debugging
        inheritable_fds.push(1);
        inheritable_fds.push(2);
    }
    let mut args: Vec<String> = Vec::new();
    args.push(String::from_str(FD_SERVER_BIN));
    args.push(String::from_str("--rpc-binder"));
    push_fds(&mut inheritable_fds, &mut args, "--ro-fds", &fd_annotation.input_fds);
    push_fds(&mut inheritable_fds, &mut args, "--rw-fds", &fd_annotation.output_fds);
    FdServerCommand { inheritable_fds, args }
}

} // verus!
