//! Identity of the process owning a window.

use vstd::prelude::*;

verus! {

/// Mathematical value of a [`ProcessInfo`]: strings are abstracted to their
/// character sequences.
pub ghost struct ProcessInfoView {
    pub process_id: u32,
    pub path: Seq<char>,
    pub name: Seq<char>,
    pub exec_name: Seq<char>,
}

/// Process identity attached to a window record.
#[derive(Debug, Clone, PartialEq, Eq)]
pub struct ProcessInfo {
    pub process_id: u32,
    pub path: String,
    pub name: String,
    pub exec_name: String,
}

impl View for ProcessInfo {
    type V = ProcessInfoView;

    open spec fn view(&self) -> ProcessInfoView {
        ProcessInfoView {
            process_id: self.process_id,
            path: self.path@,
            name: self.name@,
            exec_name: self.exec_name@,
        }
    }
}

impl ProcessInfo {
    /// Builds a process record from its raw parts.
    pub fn new(process_id: u32, path: String, name: String, exec_name: String) -> (r: ProcessInfo)
        ensures
            r@ == (ProcessInfoView {
                process_id,
                path: path@,
                name: name@,
                exec_name: exec_name@,
            }),
    {
        ProcessInfo { process_id, path, name, exec_name }
    }
}

} // verus!
