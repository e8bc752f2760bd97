//! The commands of the process and what each is given on the command line.

use vstd::prelude::*;
use vstd::string::*;
use crate::address::{all_digits, decimal_value, number_of, parse_decimal, PLUS};

verus! {

/// Fewest arguments, the program's own name included, that any command takes.
pub const MIN_ARGS: usize = 5;

/// What the process is asked to do.
#[derive(Clone, Copy, Debug, PartialEq, Eq, Structural)]
pub enum Command {
    /// Prove once and write the artifact.
    Prove,
    /// Verify an artifact once.
    Verify,
    /// Answer prove and verify requests until stopped.
    Serve,
}

/// What a command line amounts to.
#[derive(Clone, Copy, Debug, PartialEq, Eq, Structural)]
pub enum Invocation {
    /// Too few arguments: the usage text is printed.
    Usage,
    /// The command word is none of the three.
    InvalidCommand,
    /// Prove: circuit, witness and output path follow the command word.
    Prove,
    /// Verify: circuit, witness and proof path follow the command word;
    /// `replicated` says whether a replication count follows them.
    Verify { replicated: bool },
    /// Serve: circuit path, host and port follow the command word.
    Serve,
}

/// The command that a word names.
pub open spec fn command_named(word: Seq<char>) -> Option<Command> {
    if word == "prove"@ {
        Some(Command::Prove)
    } else if word == "verify"@ {
        Some(Command::Verify)
    } else if word == "serve"@ {
        Some(Command::Serve)
    } else {
        None
    }
}

/// What the arguments of a process amount to. The first is the program's
/// name, the second the command word.
pub open spec fn invocation_of(args: Seq<Seq<char>>) -> Invocation {
    if args.len() < 5 {
        Invocation::Usage
    } else {
        match command_named(args[1]) {
            None => Invocation::InvalidCommand,
            Some(Command::Prove) => Invocation::Prove,
            Some(Command::Verify) => Invocation::Verify { replicated: args.len() > 5 },
            Some(Command::Serve) => Invocation::Serve,
        }
    }
}

/// The texts of a list of arguments.
pub open spec fn texts(args: Seq<String>) -> Seq<Seq<char>> {
    Seq::new(args.len(), |i: int| args[i]@)
}

/// Whether two texts are the same, character by character.
pub fn same_text(left: &str, right: &str) -> (same: bool)
    ensures
        same == (left@ == right@),
{
    let n: usize = left.unicode_len();
    if right.unicode_len() != n {
        return false;
    }
    let mut i: usize = 0;
    while i < n
        invariant
            i <= n,
            n == left@.len(),
            n == right@.len(),
            forall|k: int| 0 <= k < i ==> left@[k] == right@[k],
        decreases n - i,
    {
        if left.get_char(i) != right.get_char(i) {
            return false;
        }
        i += 1;
    }
    assert(left@ =~= right@);
    true
}

/// Reads a command word.
pub fn parse_command(word: &str) -> (out: Option<Command>)
    ensures
        out == command_named(word@),
{
    if same_text(word, "prove") {
        Some(Command::Prove)
    } else if same_text(word, "verify") {
        Some(Command::Verify)
    } else if same_text(word, "serve") {
        Some(Command::Serve)
    } else {
        None
    }
}

/// Decides what a command line asks for.
///
/// Fewer than five arguments ask for the usage text, whatever the command
/// word; after that an unknown word is an invalid command.
pub fn classify_invocation(args: &Vec<String>) -> (out: Invocation)
    ensures
        out == invocation_of(texts(args@)),
{
    if args.len() < MIN_ARGS {
        return Invocation::Usage;
    }
    match parse_command(args[1].as_str()) {
        None => Invocation::InvalidCommand,
        Some(Command::Prove) => Invocation::Prove,
        Some(Command::Verify) => Invocation::Verify { replicated: args.len() > MIN_ARGS },
        Some(Command::Serve) => Invocation::Serve,
    }
}

/// The byte of a minus sign.
pub const MINUS: u8 = 45;

/// The replication count that a text denotes: a decimal number that fits 32
/// bits with a sign. A minus sign may lead its digits, or a plus sign.
pub open spec fn count_of(text: Seq<u8>) -> Option<i32> {
    if text.len() > 0 && text[0] == 45 {
        let digits = text.subrange(1, text.len() as int);
        if digits.len() > 0 && all_digits(digits) && decimal_value(digits) <= 2147483648 {
            Some((-decimal_value(digits)) as i32)
        } else {
            None
        }
    } else {
        match number_of(text, 2147483647) {
            Some(v) => Some(v as i32),
            None => None,
        }
    }
}

/// Reads a replication count.
pub fn parse_count(text: &[u8]) -> (out: Option<i32>)
    ensures
        out == count_of(text@),
{
    let n: usize = text.len();
    if n > 0 && text[0] == MINUS {
        let digits = vstd::slice::slice_subrange(text, 1, n);
        if digits.len() > 0 && digits[0] == PLUS {
            assert(!all_digits(digits@));
            return None;
        }
        match parse_decimal(digits, 2147483648) {
            Some(v) => {
                let below: i64 = -(v as i64);
                Some(below as i32)
            },
            None => None,
        }
    } else {
        match parse_decimal(text, 2147483647) {
            Some(v) => Some(v as i32),
            None => None,
        }
    }
}

/// `block` written `times` times in a row.
pub open spec fn repeated<T>(block: Seq<T>, times: nat) -> Seq<T>
    decreases times,
{
    if times == 0 {
        Seq::empty()
    } else {
        repeated(block, (times - 1) as nat) + block
    }
}

/// How often the public input stands in the circuit when a proof was made
/// by `mpi_size` participants: once for a count of one or less.
pub open spec fn replication_factor(mpi_size: i32) -> nat {
    if mpi_size > 1 {
        mpi_size as nat
    } else {
        1
    }
}

/// Repeats the public input of one participant for each of `mpi_size`
/// participants, by appending the first block again and again.
pub fn replicate_public_input<T: Copy>(public_input: &mut Vec<T>, mpi_size: i32)
    ensures
        final(public_input)@ == repeated(old(public_input)@, replication_factor(mpi_size)),
{
    let n: usize = public_input.len();
    let ghost block = public_input@;
    assert(repeated(block, 1) =~= block) by {
        assert(repeated(block, 0) =~= Seq::<T>::empty());
    }
    let mut round: i32 = 1;
    while round < mpi_size
        invariant
            1 <= round <= replication_factor(mpi_size),
            n == block.len(),
            block == old(public_input)@,
            public_input@ == repeated(block, round as nat),
            public_input@.len() >= n,
            forall|j: int| 0 <= j < n ==> public_input@[j] == block[j],
        decreases mpi_size - round,
    {
        let ghost before = public_input@;
        let mut k: usize = 0;
        while k < n
            invariant
                k <= n,
                n == block.len(),
                before.len() >= n,
                forall|j: int| 0 <= j < n ==> before[j] == block[j],
                public_input@ == before + block.subrange(0, k as int),
            decreases n - k,
        {
            let item = public_input[k];
            public_input.push(item);
            k += 1;
        }
        round += 1;
    }
}

} // verus!
