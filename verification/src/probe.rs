//! The probes of a session: which program is attached to which symbol of which
//! image, and where each image lies on disk.

use crate::bytes::{copy_bytes, copy_opt, opt_view};
use vstd::prelude::*;
use vstd::string::StringExecFns;

verus! {

/// The image that a probe is attached to.
#[derive(Clone, Copy, Debug, PartialEq, Eq, Structural)]
pub enum Target {
    /// The executable under observation.
    Primary,
    /// The companion module that the executable loads.
    Interceptor,
    /// The C runtime that the executable will load.
    Runtime,
}

/// One probe: a program of the instrumentation object and the symbol it is
/// bound to.
#[derive(Clone, Debug, PartialEq, Eq)]
pub struct ProbeSpec {
    pub program: String,
    pub target: Target,
    pub symbol: String,
    /// Fire on return from the function rather than on entry.
    pub retprobe: bool,
}

/// A probe as mathematics.
pub struct ProbeModel {
    pub program: Seq<char>,
    pub target: Target,
    pub symbol: Seq<char>,
    pub retprobe: bool,
}

impl View for ProbeSpec {
    type V = ProbeModel;

    open spec fn view(&self) -> ProbeModel {
        ProbeModel {
            program: self.program@,
            target: self.target,
            symbol: self.symbol@,
            retprobe: self.retprobe,
        }
    }
}

/// The probes that a vector of specifications stands for.
pub open spec fn probes(table: Seq<ProbeSpec>) -> Seq<ProbeModel> {
    Seq::new(table.len(), |i: int| table[i]@)
}

/// The probes of this system, in the order of their attachment. All fire on
/// function entry.
pub open spec fn standard_probes() -> Seq<ProbeModel> {
    seq![
        ProbeModel {
            program: "uprobe_recvmsg"@,
            target: Target::Interceptor,
            symbol: "recvmsg_stack_trace_probe"@,
            retprobe: false,
        },
        ProbeModel {
            program: "uprobe_xcb_conn"@,
            target: Target::Primary,
            symbol: "xcb_connection_probe"@,
            retprobe: false,
        },
        ProbeModel {
            program: "uprobe_epoll_wait"@,
            target: Target::Runtime,
            symbol: "epoll_wait"@,
            retprobe: false,
        },
    ]
}

/// Builds an entry probe.
pub fn entry_probe(program: &str, target: Target, symbol: &str) -> (probe: ProbeSpec)
    ensures
        probe@ == (ProbeModel { program: program@, target, symbol: symbol@, retprobe: false }),
{
    ProbeSpec {
        program: String::from_str(program),
        target,
        symbol: String::from_str(symbol),
        retprobe: false,
    }
}

/// The probe table of this system.
pub fn probe_table() -> (table: Vec<ProbeSpec>)
    ensures
        probes(table@) == standard_probes(),
{
    let mut table: Vec<ProbeSpec> = Vec::new();
    table.push(entry_probe("uprobe_recvmsg", Target::Interceptor, "recvmsg_stack_trace_probe"));
    table.push(entry_probe("uprobe_xcb_conn", Target::Primary, "xcb_connection_probe"));
    table.push(entry_probe("uprobe_epoll_wait", Target::Runtime, "epoll_wait"));
    assert(probes(table@) =~= standard_probes());
    table
}

/// Where the images of a session lie on disk.
#[derive(Clone, Debug, PartialEq, Eq)]
pub struct Targets {
    /// Path of the executable under observation.
    pub primary: Vec<u8>,
    /// Path of the companion module, where the session has one.
    pub interceptor: Option<Vec<u8>>,
    /// Path of the resolved C runtime, where the session has one.
    pub runtime: Option<Vec<u8>>,
}

/// The images of a session as mathematics.
pub struct TargetsModel {
    pub primary: Seq<u8>,
    pub interceptor: Option<Seq<u8>>,
    pub runtime: Option<Seq<u8>>,
}

impl TargetsModel {
    /// The path of the image that `target` selects, where the session has it.
    pub open spec fn path_of(self, target: Target) -> Option<Seq<u8>> {
        match target {
            Target::Primary => Some(self.primary),
            Target::Interceptor => self.interceptor,
            Target::Runtime => self.runtime,
        }
    }
}

impl View for Targets {
    type V = TargetsModel;

    open spec fn view(&self) -> TargetsModel {
        TargetsModel {
            primary: self.primary@,
            interceptor: opt_view(self.interceptor),
            runtime: opt_view(self.runtime),
        }
    }
}

impl Targets {
    /// Resolves a target selector to the path of its image.
    pub fn path_of(&self, target: Target) -> (path: Option<Vec<u8>>)
        ensures
            opt_view(path) == self@.path_of(target),
    {
        match target {
            Target::Primary => Some(copy_bytes(self.primary.as_slice())),
            Target::Interceptor => copy_opt(&self.interceptor),
            Target::Runtime => copy_opt(&self.runtime),
        }
    }
}

} // verus!
