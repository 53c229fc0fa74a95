//! A fluent builder for the program name and argument vector of an exec.

use vstd::prelude::*;
use crate::error::Error;
use crate::marshal::{byte_views, marshal, marshal_post, Marshaled};

verus! {

/// The argument vector a fresh builder starts from: the program name
/// alone, standing in the conventional position of `argv[0]`.
pub open spec fn new_spec(program: Seq<u8>) -> Seq<Seq<u8>> {
    seq![program]
}

/// The argument vector after one more argument is appended.
pub open spec fn arg_spec(argv: Seq<Seq<u8>>, a: Seq<u8>) -> Seq<Seq<u8>> {
    argv.push(a)
}

/// The argument vector after a whole sequence of arguments is appended
/// in order.
pub open spec fn args_spec(argv: Seq<Seq<u8>>, more: Seq<Seq<u8>>) -> Seq<Seq<u8>> {
    argv + more
}

/// A command to execute, accumulated write-then-consume: the program name
/// first, then arguments in call order, with no removal or reordering.
/// Its view is the sequence of byte strings it holds, program name
/// included as the first entry.
pub struct Command {
    /// The program name and arguments, in typical C `argv` style.
    argv: Vec<Vec<u8>>,
}

impl View for Command {
    type V = Seq<Seq<u8>>;

    closed spec fn view(&self) -> Seq<Seq<u8>> {
        byte_views(self.argv@)
    }
}

impl Command {
    /// Create a new command builder, specifying the program to run. The
    /// program will be searched for along the operating system's usual
    /// `PATH`, and its name doubles as the conventional `argv[0]`.
    pub fn new(program: Vec<u8>) -> (r: Command)
        ensures
            r@ == new_spec(program@),
    {
        let mut argv: Vec<Vec<u8>> = Vec::new();
        argv.push(program);
        let r = Command { argv };
        proof {
            assert(r@ =~= new_spec(program@));
        }
        r
    }

    /// Append one argument to the command. This can be chained.
    pub fn arg(&mut self, a: Vec<u8>) -> (r: &mut Command)
        ensures
            (*r)@ == arg_spec(old(self)@, a@),
            *final(self) == *final(r),
    {
        self.argv.push(a);
        proof {
            assert(self@ =~= arg_spec(old(self)@, a@));
        }
        self
    }

    /// Append many arguments to the command, in the order given. This can
    /// be chained.
    pub fn args(&mut self, args: &Vec<Vec<u8>>) -> (r: &mut Command)
        ensures
            (*r)@ == args_spec(old(self)@, byte_views(args@)),
            *final(self) == *final(r),
    {
        let mut i: usize = 0;
        while i < args.len()
            invariant
                i <= args.len(),
                self@ == args_spec(old(self)@, byte_views(args@).subrange(0, i as int)),
            decreases args.len() - i,
        {
            let a = args[i].clone();
            proof {
                assert(a@ =~= args@[i as int]@);
            }
            self.arg(a);
            proof {
                assert(self@ =~= args_spec(old(self)@, byte_views(args@).subrange(0, i + 1)));
            }
            i += 1;
        }
        proof {
            assert(byte_views(args@).subrange(0, args@.len() as int) =~= byte_views(args@));
        }
        self
    }

    /// How many strings the command holds, the program name included.
    pub fn len(&self) -> (r: usize)
        ensures
            r == self@.len(),
    {
        self.argv.len()
    }

    /// The accumulated argument vector, program name first.
    pub fn argv(&self) -> (r: &Vec<Vec<u8>>)
        ensures
            byte_views(r@) == self@,
    {
        &self.argv
    }

    /// Marshal the accumulated strings for the operating system: the
    /// program name is checked and copied first, then every argument in
    /// order, exactly as [`marshal`] does with the first entry doubling
    /// as the program name.
    pub fn prepare(&self) -> (r: Result<Marshaled, Error>)
        requires
            self@.len() >= 1,
        ensures
            marshal_post(self@[0], self@, r),
            r matches Ok(m) ==> m.wf(),
    {
        marshal(&self.argv[0], &self.argv)
    }
}

/// Building a command one argument at a time and building it from a
/// sequence of arguments agree: appending `a` and then `b` yields the
/// identical effective argument vector as appending `[a, b]` at once.
pub proof fn lemma_arg_args_agree(program: Seq<u8>, a: Seq<u8>, b: Seq<u8>)
    ensures
        arg_spec(arg_spec(new_spec(program), a), b) == args_spec(new_spec(program), seq![a, b]),
{
    assert(arg_spec(arg_spec(new_spec(program), a), b) =~= args_spec(
        new_spec(program),
        seq![a, b],
    ));
}

} // verus!
