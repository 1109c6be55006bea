//! The command registry and the two ways of dispatching into it.
use vstd::prelude::*;
use vstd::hash_map::StringHashMap;

use crate::tokens::{split_tokens, views, words};

verus! {

/// A registration was refused because the name is already bound.
#[derive(Debug, Clone, Copy, PartialEq, Eq, Structural)]
pub struct DuplicateCommand;

/// Why a dispatch did not reach a handler.
#[derive(Debug, PartialEq, Eq)]
pub enum DispatchError {
    /// No token was given, so there is no command name.
    MissingCommand,
    /// No handler is registered under the name, which is carried along.
    UnknownCommand(String),
}

/// The outcome of registering under `name` in `reg`.
pub open spec fn register_result<H>(reg: Map<Seq<char>, H>, name: Seq<char>) -> Result<(), DuplicateCommand> {
    if reg.contains_key(name) {
        Err(DuplicateCommand)
    } else {
        Ok(())
    }
}

/// The registry after registering `h` under `name`: an existing binding is
/// never replaced.
pub open spec fn registered<H>(reg: Map<Seq<char>, H>, name: Seq<char>, h: H) -> Map<Seq<char>, H> {
    if reg.contains_key(name) {
        reg
    } else {
        reg.insert(name, h)
    }
}

/// The handler that a token sequence is routed to: the one bound to its
/// first token, if there is a first token and it is bound.
pub open spec fn route<H>(reg: Map<Seq<char>, H>, toks: Seq<Seq<char>>) -> Option<H> {
    if toks.len() > 0 && reg.contains_key(toks[0]) {
        Some(reg[toks[0]])
    } else {
        None
    }
}

/// The dispatch error for a token sequence that routes nowhere.
pub open spec fn dispatch_fails_with(toks: Seq<Seq<char>>, e: DispatchError) -> bool {
    match e {
        DispatchError::MissingCommand => toks.len() == 0,
        DispatchError::UnknownCommand(name) => toks.len() > 0 && name@ == toks[0],
    }
}

/// A handler that accepts every token sequence.
pub open spec fn total_handler<H: Fn(Vec<&str>)>(h: H) -> bool {
    forall|args: Vec<&str>| #[trigger] h.requires((args,))
}

/// Maps command names to handlers and invokes them on token sequences.
#[verifier::reject_recursive_types(H)]
pub struct CommandParser<H> {
    cmd_map: StringHashMap<H>,
}

impl<H> View for CommandParser<H> {
    type V = Map<Seq<char>, H>;

    closed spec fn view(&self) -> Map<Seq<char>, H> {
        self.cmd_map@
    }
}

impl<H: Fn(Vec<&str>)> CommandParser<H> {
    /// Every registered handler accepts every token sequence.
    pub open spec fn wf(&self) -> bool {
        forall|name: Seq<char>| #[trigger] self@.contains_key(name) ==> total_handler(self@[name])
    }

    /// Creates a parser with no command registered.
    pub fn new() -> (r: Self)
        ensures
            r@ == Map::<Seq<char>, H>::empty(),
            r.wf(),
    {
        CommandParser { cmd_map: StringHashMap::new() }
    }

    /// Registers `cmd` under `name`. A name that is already bound keeps its
    /// handler and the call fails with `DuplicateCommand`.
    pub fn insert(&mut self, name: &str, cmd: H) -> (r: Result<(), DuplicateCommand>)
        requires
            old(self).wf(),
            total_handler(cmd),
        ensures
            final(self).wf(),
            r == register_result(old(self)@, name@),
            final(self)@ == registered(old(self)@, name@, cmd),
    {
        if self.cmd_map.contains_key(name) {
            return Err(DuplicateCommand);
        }
        self.cmd_map.insert(name.to_owned(), cmd);
        Ok(())
    }

    /// Splits `cmd` into whitespace-separated tokens and dispatches them as
    /// `call_args` does.
    pub fn call(&mut self, cmd: &str) -> (r: Result<(), DispatchError>)
        requires
            old(self).wf(),
        ensures
            final(self)@ == old(self)@,
            r is Ok <==> route(old(self)@, words(cmd@)) is Some,
            r is Ok ==> exists|args: Vec<&str>|
                #[trigger] views(args@) == words(cmd@) && route(old(self)@, words(cmd@))->0.ensures(
                    (args,),
                    (),
                ),
            r matches Err(e) ==> dispatch_fails_with(words(cmd@), e),
    {
        let args = split_tokens(cmd);
        self.call_args(args)
    }

    /// Invokes the handler bound to `cmd[0]` with the whole of `cmd`, the
    /// command name included.
    pub fn call_args(&mut self, cmd: Vec<&str>) -> (r: Result<(), DispatchError>)
        requires
            old(self).wf(),
        ensures
            final(self)@ == old(self)@,
            r is Ok <==> route(old(self)@, views(cmd@)) is Some,
            r is Ok ==> route(old(self)@, views(cmd@))->0.ensures((cmd,), ()),
            r matches Err(e) ==> dispatch_fails_with(views(cmd@), e),
    {
        if cmd.len() == 0 {
            return Err(DispatchError::MissingCommand);
        }
        let name: &str = cmd[0];
        match self.cmd_map.get(name) {
            Some(f) => {
                f(cmd);
                Ok(())
            },
            None => Err(DispatchError::UnknownCommand(name.to_owned())),
        }
    }
}

} // verus!
