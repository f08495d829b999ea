//! The `Command` message received from the client.
//!
//! A command names one of three operations and, for the two hiding
//! operations, the filesystem path it applies to. The path travels as raw
//! bytes: the kernel attribute encoding forbids an embedded NUL, so a valid
//! command never carries one.

use vstd::prelude::*;

verus! {

/// The operation a command asks for.
#[allow(non_camel_case_types)]
#[derive(Clone, Copy, PartialEq, Eq, Structural, Debug)]
pub enum Command_Type {
    HIDE,
    UNHIDE,
    UNINSTALL,
}

impl Command_Type {
    /// The numeric value a command type carries on the wire.
    pub open spec fn spec_value(self) -> i32 {
        match self {
            Command_Type::HIDE => 0,
            Command_Type::UNHIDE => 1,
            Command_Type::UNINSTALL => 2,
        }
    }

    /// The command type that a numeric wire value stands for, if any.
    pub open spec fn spec_from_i32(value: i32) -> Option<Command_Type> {
        if value == 0 {
            Some(Command_Type::HIDE)
        } else if value == 1 {
            Some(Command_Type::UNHIDE)
        } else if value == 2 {
            Some(Command_Type::UNINSTALL)
        } else {
            None
        }
    }

    pub fn value(&self) -> (v: i32)
        ensures
            v == self.spec_value(),
    {
        match self {
            Command_Type::HIDE => 0,
            Command_Type::UNHIDE => 1,
            Command_Type::UNINSTALL => 2,
        }
    }

    pub fn from_i32(value: i32) -> (r: Option<Command_Type>)
        ensures
            r == Command_Type::spec_from_i32(value),
    {
        if value == 0 {
            Some(Command_Type::HIDE)
        } else if value == 1 {
            Some(Command_Type::UNHIDE)
        } else if value == 2 {
            Some(Command_Type::UNINSTALL)
        } else {
            None
        }
    }
}

impl Default for Command_Type {
    fn default() -> (r: Self)
        ensures
            r == Command_Type::HIDE,
    {
        Command_Type::HIDE
    }
}

/// One command message: the required command type and the optional path,
/// both unset on a freshly made message.
pub struct Command {
    command_type: Option<Command_Type>,
    path: Option<Vec<u8>>,
}

impl Command {
    /// The command-type field as it stands: `None` until set.
    pub closed spec fn spec_command_type(self) -> Option<Command_Type> {
        self.command_type
    }

    /// The path field as it stands: `None` until set.
    pub closed spec fn spec_path(self) -> Option<Seq<u8>> {
        match self.path {
            Some(p) => Some(p@),
            None => None,
        }
    }

    /// A command is well formed when its type is set, the two hiding
    /// operations carry a non-empty path free of NUL bytes, and the
    /// uninstall operation carries no path at all. Anything else is a
    /// protocol error.
    pub open spec fn valid(self) -> bool {
        match self.spec_command_type() {
            Some(Command_Type::HIDE) | Some(Command_Type::UNHIDE) => {
                &&& self.spec_path() matches Some(p)
                &&& p.len() > 0
                &&& forall|i: int| 0 <= i < p.len() ==> p[i] != 0u8
            },
            Some(Command_Type::UNINSTALL) => self.spec_path() is None,
            None => false,
        }
    }

    pub fn new() -> (r: Command)
        ensures
            r.spec_command_type() is None,
            r.spec_path() is None,
    {
        Command { command_type: None, path: None }
    }

    /// The command-type field, or the default `HIDE` when the field is
    /// unset.
    pub fn get_command_type(&self) -> (t: Command_Type)
        ensures
            t == match self.spec_command_type() {
                Some(v) => v,
                None => Command_Type::HIDE,
            },
    {
        match self.command_type {
            Some(v) => v,
            None => Command_Type::HIDE,
        }
    }

    pub fn set_command_type(&mut self, v: Command_Type)
        ensures
            final(self).spec_command_type() == Some(v),
            final(self).spec_path() == old(self).spec_path(),
    {
        self.command_type = Some(v);
    }

    pub fn has_command_type(&self) -> (b: bool)
        ensures
            b == (self.spec_command_type() is Some),
    {
        self.command_type.is_some()
    }

    /// The path bytes, or an empty buffer when the field is unset.
    pub fn get_path(&self) -> (p: Vec<u8>)
        ensures
            p@ == match self.spec_path() {
                Some(s) => s,
                None => Seq::<u8>::empty(),
            },
    {
        match &self.path {
            Some(v) => v.clone(),
            None => {
                let empty: Vec<u8> = Vec::new();
                assert(empty@ =~= Seq::<u8>::empty());
                empty
            },
        }
    }

    pub fn set_path(&mut self, v: Vec<u8>)
        ensures
            final(self).spec_path() == Some(v@),
            final(self).spec_command_type() == old(self).spec_command_type(),
    {
        self.path = Some(v);
    }

    pub fn has_path(&self) -> (b: bool)
        ensures
            b == (self.spec_path() is Some),
    {
        self.path.is_some()
    }

    pub fn clear_path(&mut self)
        ensures
            final(self).spec_path() is None,
            final(self).spec_command_type() == old(self).spec_command_type(),
    {
        self.path = None;
    }

    /// A message is initialized once its required command-type field is
    /// set; only an initialized message can be encoded.
    pub fn is_initialized(&self) -> (b: bool)
        ensures
            b == (self.spec_command_type() is Some),
    {
        if self.command_type.is_none() {
            return false;
        }
        true
    }

    /// Whether the command meets the protocol invariant (`valid`).
    pub fn is_valid(&self) -> (b: bool)
        ensures
            b == self.valid(),
    {
        let t = match self.command_type {
            Some(t) => t,
            None => {
                return false;
            },
        };
        match t {
            Command_Type::UNINSTALL => self.path.is_none(),
            Command_Type::HIDE | Command_Type::UNHIDE => {
                let p = match &self.path {
                    Some(p) => p,
                    None => {
                        return false;
                    },
                };
                if p.len() == 0 {
                    return false;
                }
                let mut i: usize = 0;
                while i < p.len()
                    invariant
                        i <= p.len(),
                        self.spec_path() == Some(p@),
                        forall|j: int| 0 <= j < i ==> p@[j] != 0u8,
                    decreases p.len() - i,
                {
                    if p[i] == 0 {
                        return false;
                    }
                    i = i + 1;
                }
                true
            },
        }
    }
}

} // verus!
