//! Debug messages that a zome hands to its host.

use vstd::prelude::*;
use vstd::string::*;

verus! {

/// A message with the place in the source that it comes from.
#[derive(Clone, Debug, PartialEq)]
pub struct DebugMsg {
    module_name: String,
    file: String,
    line: u32,
    msg: String,
}

/// A debug message as a plain value.
pub struct DebugMsgView {
    pub module_name: Seq<char>,
    pub file: Seq<char>,
    pub line: u32,
    pub msg: Seq<char>,
}

impl View for DebugMsg {
    type V = DebugMsgView;

    closed spec fn view(&self) -> DebugMsgView {
        DebugMsgView {
            module_name: self.module_name@,
            file: self.file@,
            line: self.line,
            msg: self.msg@,
        }
    }
}

impl DebugMsg {
    pub fn new(module_name: String, file: String, line: u32, msg: String) -> (r: Self)
        ensures
            r@ == (DebugMsgView { module_name: module_name@, file: file@, line, msg: msg@ }),
    {
        Self { module_name, file, line, msg }
    }

    pub fn msg(&self) -> (r: &str)
        ensures
            r@ == self@.msg,
    {
        self.msg.as_str()
    }

    pub fn module_name(&self) -> (r: &str)
        ensures
            r@ == self@.module_name,
    {
        self.module_name.as_str()
    }

    pub fn file(&self) -> (r: &str)
        ensures
            r@ == self@.file,
    {
        self.file.as_str()
    }

    pub fn line(&self) -> (r: u32)
        ensures
            r == self@.line,
    {
        self.line
    }
}

} // verus!
