//! Helpers for starting other programs.

use crate::text::texts;
use vstd::prelude::*;
use vstd::string::*;

verus! {

/// The creation flags of a detached process on Windows: detached, in a
/// process group of its own, without a window.
pub const DETACHED_CREATION_FLAGS: u32 = 0x08000208;

/// The process group of a detached process on a POSIX system: a new one,
/// led by the process itself.
pub const DETACHED_PROCESS_GROUP: i32 = 0;

/// A command line, split into the program and its arguments.
pub struct Argv {
    pub program: String,
    pub args: Vec<String>,
}

/// Splits a command line into the program, which is its first word, and
/// the arguments, which are the rest. An empty command line names no
/// program.
pub fn new_argv(argv: &Vec<String>) -> (split: Option<Argv>)
    ensures
        argv@.len() == 0 <==> split is None,
        split is Some ==> split->0.program@ == argv@[0]@ && texts(split->0.args@) == texts(
            argv@,
        ).skip(1),
{
    if argv.len() == 0 {
        return None;
    }
    let mut args: Vec<String> = Vec::new();
    let mut i: usize = 1;
    assert(texts(args@) =~= texts(argv@).subrange(1, 1));
    while i < argv.len()
        invariant
            1 <= i <= argv.len(),
            texts(args@) == texts(argv@).subrange(1, i as int),
        decreases argv.len() - i,
    {
        let ghost before = texts(args@);
        args.push(argv[i].clone());
        assert(texts(args@) =~= before.push(argv@[i as int]@));
        assert(texts(argv@).subrange(1, i + 1) =~= texts(argv@).subrange(1, i as int).push(
            argv@[i as int]@,
        ));
        i += 1;
    }
    assert(texts(argv@).subrange(1, argv.len() as int) =~= texts(argv@).skip(1));
    Some(Argv { program: argv[0].clone(), args })
}

/// The output of a command that must succeed: its standard output where it
/// did, and else an error that says how it ended and what it wrote to its
/// standard error.
pub fn capture_stdout(success: bool, status: &str, stdout: Vec<u8>, stderr: &str) -> (captured:
    Result<Vec<u8>, String>)
    ensures
        success ==> captured == Ok::<Vec<u8>, String>(stdout),
        !success ==> captured is Err && captured->Err_0@ == "command failed with status "@
            + status@ + ": "@ + stderr@,
{
    if success {
        Ok(stdout)
    } else {
        let mut message = String::from_str("command failed with status ");
        message.append(status);
        message.append(": ");
        message.append(stderr);
        Err(message)
    }
}

} // verus!
