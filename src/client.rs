use vstd::prelude::*;
use vstd::string::*;
use vstd::utf8::encode_utf8;

use crate::error::{message_of, same_error, Error};

verus! {

/// The views of a sequence of strings.
pub open spec fn string_views(v: Seq<String>) -> Seq<Seq<char>> {
    v.map_values(|s: String| s@)
}

/// The views of a sequence of string slices.
pub open spec fn str_views(v: Seq<&str>) -> Seq<Seq<char>> {
    v.map_values(|s: &str| s@)
}

/// The command line that a command stands for: its name, then each argument
/// in order, each preceded by a single space. Nothing is quoted or escaped:
/// callers are responsible for the shell-safety of what they pass.
pub open spec fn command_line(name: Seq<char>, args: Seq<Seq<char>>) -> Seq<char>
    decreases args.len(),
{
    if args.len() == 0 {
        name
    } else {
        command_line(name, args.drop_last()) + seq![' '] + args.last()
    }
}

/// A command to run on the remote host: a non-empty name and an ordered list
/// of arguments.
pub struct Command {
    pub cmd: String,
    pub args: Vec<String>,
}

impl Command {
    /// The arguments, as character sequences.
    pub open spec fn arg_views(&self) -> Seq<Seq<char>> {
        string_views(self.args@)
    }

    /// The name is not empty.
    pub open spec fn wf(&self) -> bool {
        self.cmd@.len() > 0
    }

    /// A command with the given name and no arguments.
    pub fn new(cmd: &str) -> (r: Command)
        requires
            cmd@.len() > 0,
        ensures
            r.cmd@ == cmd@,
            r.args@.len() == 0,
            r.wf(),
    {
        Command { cmd: String::from_str(cmd), args: Vec::new() }
    }

    /// The same command with one more argument at the end.
    pub fn arg(self, arg: &str) -> (r: Command)
        ensures
            r.cmd@ == self.cmd@,
            r.arg_views() == self.arg_views().push(arg@),
    {
        let mut c = self;
        c.args.push(String::from_str(arg));
        proof {
            assert(c.arg_views() =~= self.arg_views().push(arg@));
        }
        c
    }

    /// The same command with the given arguments appended, in order.
    pub fn args(self, args: &[&str]) -> (r: Command)
        ensures
            r.cmd@ == self.cmd@,
            r.arg_views() == self.arg_views() + str_views(args@),
    {
        let mut c = self;
        let mut i: usize = 0;
        while i < args.len()
            invariant
                i <= args@.len(),
                c.cmd@ == self.cmd@,
                c.arg_views() =~= self.arg_views() + str_views(args@.take(i as int)),
            decreases args@.len() - i,
        {
            let ghost before = c.arg_views();
            c.args.push(String::from_str(args[i]));
            proof {
                assert(c.arg_views() =~= before.push(args@[i as int]@));
                assert(str_views(args@.take(i + 1)) =~= str_views(args@.take(i as int)).push(
                    args@[i as int]@,
                ));
            }
            i = i + 1;
        }
        proof {
            assert(args@.take(args@.len() as int) =~= args@);
        }
        c
    }

    /// The command's name.
    pub fn get_cmd(&self) -> (r: &str)
        ensures
            r@ == self.cmd@,
    {
        self.cmd.as_str()
    }

    /// The command's arguments, in order.
    pub fn get_args(&self) -> (r: &Vec<String>)
        ensures
            r == &self.args,
    {
        &self.args
    }

    /// The command line: the name, then each argument preceded by one space.
    pub fn to_line(&self) -> (r: String)
        ensures
            r@ == command_line(self.cmd@, self.arg_views()),
            self.args@.len() == 0 ==> r@ == self.cmd@,
    {
        let mut s = String::from_str(self.cmd.as_str());
        let mut i: usize = 0;
        proof {
            reveal_strlit(" ");
            assert(self.arg_views().take(0) =~= Seq::<Seq<char>>::empty());
        }
        while i < self.args.len()
            invariant
                i <= self.args@.len(),
                s@ == command_line(self.cmd@, self.arg_views().take(i as int)),
            decreases self.args@.len() - i,
        {
            s.append(" ");
            s.append(self.args[i].as_str());
            proof {
                reveal_strlit(" ");
                let next = self.arg_views().take(i + 1);
                assert(next.drop_last() =~= self.arg_views().take(i as int));
                assert(next.last() == self.args@[i as int]@);
            }
            i = i + 1;
        }
        proof {
            assert(self.arg_views().take(self.args@.len() as int) =~= self.arg_views());
        }
        s
    }

    /// The byte stream handed to the transport: the UTF-8 encoding of the
    /// command line.
    pub fn to_bytes(&self) -> (r: Vec<u8>)
        ensures
            r@ == encode_utf8(command_line(self.cmd@, self.arg_views())),
    {
        let line = self.to_line();
        line.as_str().as_bytes_vec()
    }
}

/// The arguments after appending each of `more` in turn, one `arg` call at
/// a time.
pub open spec fn append_one_by_one(base: Seq<Seq<char>>, more: Seq<Seq<char>>) -> Seq<Seq<char>>
    decreases more.len(),
{
    if more.len() == 0 {
        base
    } else {
        append_one_by_one(base, more.drop_last()).push(more.last())
    }
}

/// Appending arguments one at a time with `arg` gives the same arguments as
/// appending them all at once with `args`.
pub proof fn lemma_arg_args_agree(base: Seq<Seq<char>>, more: Seq<&str>)
    ensures
        append_one_by_one(base, str_views(more)) == base + str_views(more),
    decreases more.len(),
{
    if more.len() > 0 {
        lemma_arg_args_agree(base, more.drop_last());
        assert(str_views(more).drop_last() =~= str_views(more.drop_last()));
        assert(base + str_views(more) =~= (base + str_views(more.drop_last())).push(
            str_views(more).last(),
        ));
    } else {
        assert(base + str_views(more) =~= base);
    }
}

impl From<Command> for Vec<u8> {
    /// The byte stream of the command, as `Command::to_bytes` gives it.
    fn from(command: Command) -> (r: Vec<u8>)
        ensures
            r@ == encode_utf8(command_line(command.cmd@, command.arg_views())),
    {
        command.to_bytes()
    }
}

impl vstd::std_specs::convert::FromSpecImpl<Command> for Vec<u8> {
    open spec fn obeys_from_spec() -> bool {
        false
    }

    open spec fn from_spec(v: Command) -> Vec<u8> {
        arbitrary()
    }
}

/// Builds a command from a name and a list of arguments, in order.
pub fn cmd(name: &str, args: &[&str]) -> (r: Command)
    requires
        name@.len() > 0,
    ensures
        r.cmd@ == name@,
        r.arg_views() == str_views(args@),
        r.wf(),
{
    let c = Command::new(name);
    proof {
        assert(c.arg_views() =~= Seq::<Seq<char>>::empty());
        assert(Seq::<Seq<char>>::empty() + str_views(args@) =~= str_views(args@));
    }
    c.args(args)
}


/// The result of running one command: everything the command wrote to its
/// standard output, in the order it arrived, and the exit status that the
/// remote side reported, if it reported one before the channel closed.
pub struct CommandOutput {
    pub stdout: Vec<u8>,
    pub status_code: Option<u32>,
}

/// Where a session stands in its lifecycle.
pub enum ConnectionState {
    Connected,
    Disconnected,
    Error(Error),
}

/// A command may run only on a connected session.
pub open spec fn exec_permitted(s: ConnectionState) -> bool {
    s is Connected
}

/// The state a session is left in by a disconnect that succeeded (`ok`) or
/// failed.
pub open spec fn left_by_disconnect(s: ConnectionState, ok: bool) -> bool {
    if ok {
        s is Disconnected
    } else {
        s is Error
    }
}

/// The refusal reported for work on a session that is no longer connected.
pub open spec fn is_closed_refusal(e: Error) -> bool {
    &&& e is ConnectionError
    &&& message_of(e) == "session closed"@
}

fn closed_refusal() -> (e: Error)
    ensures
        is_closed_refusal(e),
{
    Error::ConnectionError(String::from_str("session closed"))
}

impl ConnectionState {
    /// Decides whether a command may run now. A disconnected session refuses
    /// with a connection error; a failed one refuses with its failure.
    pub fn begin_exec(&self) -> (r: Result<(), Error>)
        ensures
            r is Ok <==> exec_permitted(*self),
            *self is Disconnected ==> r is Err && is_closed_refusal(r->Err_0),
            *self is Error ==> r is Err && same_error(r->Err_0, self->Error_0),
    {
        match self {
            ConnectionState::Connected => Ok(()),
            ConnectionState::Disconnected => Err(closed_refusal()),
            ConnectionState::Error(e) => Err(e.duplicate()),
        }
    }

    /// Decides whether a disconnect may be sent now: only a connected session
    /// can be disconnected, a second disconnect fails fast.
    pub fn begin_disconnect(&self) -> (r: Result<(), Error>)
        ensures
            r is Ok <==> *self is Connected,
            r is Err ==> is_closed_refusal(r->Err_0),
    {
        match self {
            ConnectionState::Connected => Ok(()),
            _ => Err(closed_refusal()),
        }
    }

    /// Records the outcome of a disconnect and hands that outcome back.
    pub fn end_disconnect(&mut self, outcome: Result<(), Error>) -> (r: Result<(), Error>)
        ensures
            left_by_disconnect(*final(self), outcome is Ok),
            outcome is Err ==> same_error(final(self)->Error_0, outcome->Err_0),
            r is Ok <==> outcome is Ok,
            r is Err ==> same_error(r->Err_0, outcome->Err_0),
    {
        match outcome {
            Ok(()) => {
                *self = ConnectionState::Disconnected;
                Ok(())
            },
            Err(e) => {
                let copy = e.duplicate();
                *self = ConnectionState::Error(e);
                Err(copy)
            },
        }
    }
}

/// After a disconnect, whether it succeeded or failed, the session runs no
/// further command: the next `begin_exec` is refused, with a connection error
/// saying the session is closed when the disconnect succeeded.
pub proof fn lemma_no_exec_after_disconnect(s: ConnectionState, ok: bool)
    requires
        left_by_disconnect(s, ok),
    ensures
        !exec_permitted(s),
        ok ==> s is Disconnected,
{
}

} // verus!
