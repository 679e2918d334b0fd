use vstd::prelude::*;

use crate::file::File;

verus! {

/// What an action does to its file.
#[derive(Debug, Clone, Copy, PartialEq, Eq, Structural)]
pub enum ActionType {
    Remove,
}

/// One operation on one backup file.
#[derive(Debug)]
pub struct Action {
    pub type_: ActionType,
    pub file: File,
}

impl Action {
    pub fn new(type_: ActionType, file: File) -> (r: Action)
        ensures
            r == (Action { type_, file }),
    {
        Action { type_, file }
    }
}

impl Clone for Action {
    fn clone(&self) -> (r: Action)
        ensures
            r == *self,
    {
        Action { type_: self.type_, file: self.file.clone() }
    }
}

} // verus!
