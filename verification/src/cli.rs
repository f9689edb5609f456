//! The command line: one word that says which of the two programs to be,
//! and the code with which the program ends.

use crate::session::Fault;
use vstd::prelude::*;
use vstd::utf8::encode_utf8_decode_utf8;

verus! {

/// Which of the two programs to be.
#[derive(Clone, Copy, Debug, PartialEq, Eq, Structural)]
pub enum Mode {
    Server,
    Client,
}

/// How the program came to its end.
#[derive(Clone, Copy, Debug, PartialEq, Eq, Structural)]
pub enum Exit {
    /// The game is over and nothing went wrong.
    Clean,
    /// The stream failed for good.
    IoFailure,
    /// The command line named no mode.
    Usage,
}

/// The mode that a word names: `server` or `client`, letter for letter.
pub open spec fn mode_named(word: Seq<char>) -> Option<Mode> {
    if word == "server"@ {
        Some(Mode::Server)
    } else if word == "client"@ {
        Some(Mode::Client)
    } else {
        None
    }
}

/// The code that stands for an end of the program.
pub open spec fn code_of(exit: Exit) -> u8 {
    match exit {
        Exit::Clean => 0,
        Exit::IoFailure => 1,
        Exit::Usage => 2,
    }
}

/// How a program ends whose game is over: with a failure if a failure
/// of the stream ended the game, and cleanly otherwise.
pub open spec fn end_after(fault: Option<Fault>) -> Exit {
    if fault == Some(Fault::Io) {
        Exit::IoFailure
    } else {
        Exit::Clean
    }
}

/// Whether two runs of bytes are the same.
fn same_bytes(a: &[u8], b: &[u8]) -> (r: bool)
    ensures
        r == (a@ == b@),
{
    if a.len() != b.len() {
        return false;
    }
    let mut i: usize = 0;
    while i < a.len()
        invariant
            i <= a.len(),
            a.len() == b.len(),
            a@.take(i as int) == b@.take(i as int),
        decreases a.len() - i,
    {
        if a[i] != b[i] {
            return false;
        }
        i = i + 1;
        assert(a@.take(i as int) =~= a@.take(i - 1).push(a@[i - 1]));
        assert(b@.take(i as int) =~= b@.take(i - 1).push(b@[i - 1]));
    }
    assert(a@.take(i as int) =~= a@ && b@.take(i as int) =~= b@);
    true
}

/// Whether two texts are the same.
fn same_text(a: &str, b: &str) -> (r: bool)
    ensures
        r == (a@ == b@),
{
    proof {
        encode_utf8_decode_utf8(a@);
        encode_utf8_decode_utf8(b@);
    }
    same_bytes(a.as_bytes(), b.as_bytes())
}

/// The mode that the first argument names. With no argument, or with
/// one that is neither `server` nor `client`, there is none, and the
/// program has its usage to print.
pub fn parse_mode(arg: Option<&str>) -> (r: Option<Mode>)
    ensures
        r == match arg {
            Some(word) => mode_named(word@),
            None => None,
        },
{
    match arg {
        None => None,
        Some(word) => {
            if same_text(word, "server") {
                Some(Mode::Server)
            } else if same_text(word, "client") {
                Some(Mode::Client)
            } else {
                None
            }
        },
    }
}

/// How the program ends once the game is over, given the fault that
/// ended the game, if a fault did: a failed stream is a failure, and
/// every other end is clean.
pub fn exit_after(fault: Option<Fault>) -> (r: Exit)
    ensures
        r == end_after(fault),
{
    match fault {
        Some(Fault::Io) => Exit::IoFailure,
        _ => Exit::Clean,
    }
}

/// The code with which the program ends: 0 after a clean end, 1 after a
/// failure of the stream, 2 after a command line that names no mode.
pub fn exit_code(exit: Exit) -> (r: u8)
    ensures
        r == code_of(exit),
{
    match exit {
        Exit::Clean => 0,
        Exit::IoFailure => 1,
        Exit::Usage => 2,
    }
}

} // verus!
