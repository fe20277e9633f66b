//! The scaffold planner: the decisions that create an entry script, as a
//! machine that names one outside step at a time (probe a path, create a
//! directory, write the template, run the build tool) and is told whether a
//! probed path was found.
use vstd::prelude::*;
use vstd::string::*;
use crate::command::{CargoCommand, CommandView};
use crate::paths::{join_path, joined, with_source_ext, with_source_extension};

verus! {

/// What is asked of the planner: which project, what to call the script,
/// and whether an existing main entry may be replaced.
pub struct ScaffoldRequest {
    pub project_name: String,
    pub script_name: String,
    pub overwrite: bool,
}

/// The dependencies declared in every scaffolded project, in order.
pub open spec fn dependency_name(i: int) -> Seq<char> {
    if i == 0 {
        "fehler@1.0"@
    } else if i == 1 {
        "anyhow@1.0"@
    } else if i == 2 {
        "thiserror@1.0"@
    } else if i == 3 {
        "log@0.4"@
    } else {
        "log4rs@0.8"@
    }
}

/// How many dependencies are declared.
pub const DEPENDENCY_COUNT: usize = 5;

/// The `i`-th declared dependency, as `name@version`.
pub fn dependency(i: usize) -> (r: &'static str)
    requires
        i < DEPENDENCY_COUNT,
    ensures
        r@ == dependency_name(i as int),
{
    if i == 0 {
        "fehler@1.0"
    } else if i == 1 {
        "anyhow@1.0"
    } else if i == 2 {
        "thiserror@1.0"
    } else if i == 3 {
        "log@0.4"
    } else {
        "log4rs@0.8"
    }
}

/// The text written into every new entry script.
pub const ENTRY_TEMPLATE: &'static str = "use anyhow::Error;

fn run() -> Result<(), Error> {
    println!(\"Hello, world!\");

    Ok(())
}

fn main() -> Result<(), Error> {
    run()?;
    Ok(())
}";

/// The source root of the project at `root`.
pub open spec fn src_dir(root: Seq<char>) -> Seq<char> {
    joined(root, "src"@)
}

/// The library entry file, whose presence makes a project a library.
pub open spec fn lib_entry(root: Seq<char>) -> Seq<char> {
    joined(src_dir(root), "lib.rs"@)
}

/// The directory that holds a library's executable scripts.
pub open spec fn bin_dir(root: Seq<char>) -> Seq<char> {
    joined(src_dir(root), "bin"@)
}

/// A library's script path before the extension is set.
pub open spec fn bin_target(root: Seq<char>, script: Seq<char>) -> Seq<char> {
    joined(bin_dir(root), script)
}

/// A library's script path, with the source-file extension.
pub open spec fn lib_script(root: Seq<char>, script: Seq<char>) -> Seq<char> {
    with_source_ext(bin_target(root, script))
}

/// A binary project's main entry (its name already has the extension).
pub open spec fn main_entry(root: Seq<char>) -> Seq<char> {
    joined(src_dir(root), "main.rs"@)
}

/// Where the planner stands.
#[derive(Clone, Copy, PartialEq, Eq, Structural)]
pub enum Phase {
    ProbeLib,
    MakeBinDir,
    ProbeBinTarget,
    ProbeMain,
    RemoveMain,
    /// The probe of the final path; `true` for a library's script.
    ProbeFinal(bool),
    /// Writing the template; `true` for a library's script.
    Write(bool),
    Enter,
    /// Declaring the dependency with this index.
    Declare(usize),
    Leave,
    /// Finished with this exit code.
    Done(i32),
}

/// The planner in mathematical terms.
pub struct PlanState {
    pub root: Seq<char>,
    pub script: Seq<char>,
    pub overwrite: bool,
    pub phase: Phase,
}

/// One outside step, in mathematical terms.
pub enum Effect {
    /// Ask whether a path exists (file or directory).
    Probe(Seq<char>),
    /// Create a directory and any missing parents.
    CreateDir(Seq<char>),
    /// Delete a file.
    Remove(Seq<char>),
    /// Write the entry-script template to a new file.
    Write(Seq<char>),
    /// Make a directory the working directory, remembering the old one.
    Enter(Seq<char>),
    /// Run the build tool and wait for it; its exit code is not consulted.
    Run(CommandView),
    /// Go back to the remembered working directory.
    Leave,
    /// Stop with this exit code.
    Finish(i32),
}

/// The planner's first state for `request`, run from the directory `cwd`.
pub open spec fn initial(cwd: Seq<char>, project: Seq<char>, script: Seq<char>, overwrite: bool) -> PlanState {
    PlanState { root: joined(cwd, project), script, overwrite, phase: Phase::ProbeLib }
}

/// The outside step a state asks for.
pub open spec fn effect_of(s: PlanState) -> Effect {
    match s.phase {
        Phase::ProbeLib => Effect::Probe(lib_entry(s.root)),
        Phase::MakeBinDir => Effect::CreateDir(bin_dir(s.root)),
        Phase::ProbeBinTarget => Effect::Probe(bin_target(s.root, s.script)),
        Phase::ProbeMain => Effect::Probe(main_entry(s.root)),
        Phase::RemoveMain => Effect::Remove(main_entry(s.root)),
        Phase::ProbeFinal(lib) => Effect::Probe(
            if lib {
                lib_script(s.root, s.script)
            } else {
                main_entry(s.root)
            },
        ),
        Phase::Write(lib) => Effect::Write(
            if lib {
                lib_script(s.root, s.script)
            } else {
                main_entry(s.root)
            },
        ),
        Phase::Enter => Effect::Enter(s.root),
        Phase::Declare(i) => Effect::Run(
            CommandView { command: "add"@, args: seq![dependency_name(i as int)] },
        ),
        Phase::Leave => Effect::Leave,
        Phase::Done(c) => Effect::Finish(c),
    }
}

/// The phase after the current step; `found` answers a probe.
pub open spec fn next_phase(s: PlanState, found: bool) -> Phase {
    match s.phase {
        Phase::ProbeLib => if found {
            Phase::MakeBinDir
        } else {
            Phase::ProbeMain
        },
        Phase::MakeBinDir => Phase::ProbeBinTarget,
        Phase::ProbeBinTarget => if found {
            Phase::Done(102)
        } else {
            Phase::ProbeFinal(true)
        },
        Phase::ProbeMain => if !found {
            Phase::ProbeFinal(false)
        } else if s.overwrite {
            Phase::RemoveMain
        } else {
            Phase::Done(101)
        },
        Phase::RemoveMain => Phase::ProbeFinal(false),
        Phase::ProbeFinal(lib) => if found {
            Phase::Done(102)
        } else {
            Phase::Write(lib)
        },
        Phase::Write(_) => Phase::Enter,
        Phase::Enter => Phase::Declare(0),
        Phase::Declare(i) => if i + 1 < DEPENDENCY_COUNT {
            Phase::Declare((i + 1) as usize)
        } else {
            Phase::Leave
        },
        Phase::Leave => Phase::Done(0),
        Phase::Done(c) => Phase::Done(c),
    }
}

/// The state after the current step.
pub open spec fn advanced(s: PlanState, found: bool) -> PlanState {
    PlanState { phase: next_phase(s, found), ..s }
}

/// A declare phase's index is in range.
pub open spec fn phase_ok(p: Phase) -> bool {
    match p {
        Phase::Declare(i) => i < DEPENDENCY_COUNT,
        _ => true,
    }
}

/// An outside step for the caller to perform.
pub enum Action {
    Probe(String),
    CreateDir(String),
    Remove(String),
    Write(String),
    Enter(String),
    Run(CargoCommand),
    Leave,
    Finish(i32),
}

impl View for Action {
    type V = Effect;

    open spec fn view(&self) -> Effect {
        match self {
            Action::Probe(p) => Effect::Probe(p@),
            Action::CreateDir(p) => Effect::CreateDir(p@),
            Action::Remove(p) => Effect::Remove(p@),
            Action::Write(p) => Effect::Write(p@),
            Action::Enter(p) => Effect::Enter(p@),
            Action::Run(c) => Effect::Run(c@),
            Action::Leave => Effect::Leave,
            Action::Finish(c) => Effect::Finish(*c),
        }
    }
}

/// The planner, with every path it may name worked out up front.
pub struct Planner {
    root: String,
    script: String,
    lib_entry: String,
    bin_dir: String,
    bin_target: String,
    lib_script: String,
    main_entry: String,
    overwrite: bool,
    phase: Phase,
}

impl View for Planner {
    type V = PlanState;

    closed spec fn view(&self) -> PlanState {
        PlanState {
            root: self.root@,
            script: self.script@,
            overwrite: self.overwrite,
            phase: self.phase,
        }
    }
}

impl Planner {
    /// The stored paths are those the state derives, and the phase is in range.
    pub closed spec fn wf(&self) -> bool {
        &&& self.lib_entry@ == lib_entry(self.root@)
        &&& self.bin_dir@ == bin_dir(self.root@)
        &&& self.bin_target@ == bin_target(self.root@, self.script@)
        &&& self.lib_script@ == lib_script(self.root@, self.script@)
        &&& self.main_entry@ == main_entry(self.root@)
        &&& phase_ok(self.phase)
    }

    /// A planner for `request`, with the project resolved against `cwd`.
    pub fn new(cwd: &str, request: &ScaffoldRequest) -> (r: Planner)
        ensures
            r.wf(),
            r@ == initial(cwd@, request.project_name@, request.script_name@, request.overwrite),
    {
        let root = join_path(cwd, request.project_name.as_str());
        let src = join_path(root.as_str(), "src");
        let lib_entry = join_path(src.as_str(), "lib.rs");
        let bin_dir = join_path(src.as_str(), "bin");
        let bin_target = join_path(bin_dir.as_str(), request.script_name.as_str());
        let lib_script = with_source_extension(bin_target.as_str());
        let main_entry = join_path(src.as_str(), "main.rs");
        Planner {
            root,
            script: request.script_name.clone(),
            lib_entry,
            bin_dir,
            bin_target,
            lib_script,
            main_entry,
            overwrite: request.overwrite,
            phase: Phase::ProbeLib,
        }
    }

    /// The step the planner asks for now.
    pub fn action(&self) -> (a: Action)
        requires
            self.wf(),
        ensures
            a@ == effect_of(self@),
    {
        match self.phase {
            Phase::ProbeLib => Action::Probe(self.lib_entry.clone()),
            Phase::MakeBinDir => Action::CreateDir(self.bin_dir.clone()),
            Phase::ProbeBinTarget => Action::Probe(self.bin_target.clone()),
            Phase::ProbeMain => Action::Probe(self.main_entry.clone()),
            Phase::RemoveMain => Action::Remove(self.main_entry.clone()),
            Phase::ProbeFinal(lib) => if lib {
                Action::Probe(self.lib_script.clone())
            } else {
                Action::Probe(self.main_entry.clone())
            },
            Phase::Write(lib) => if lib {
                Action::Write(self.lib_script.clone())
            } else {
                Action::Write(self.main_entry.clone())
            },
            Phase::Enter => Action::Enter(self.root.clone()),
            Phase::Declare(i) => {
                let mut c = CargoCommand::new("add");
                c.add_arg(dependency(i));
                proof {
                    reveal_strlit("add");
                    assert(c@.args =~= seq![dependency_name(i as int)]);
                }
                Action::Run(c)
            },
            Phase::Leave => Action::Leave,
            Phase::Done(c) => Action::Finish(c),
        }
    }

    /// Moves past the current step; `found` is the answer to a probe and is
    /// not consulted after other steps.
    pub fn advance(&mut self, found: bool)
        requires
            old(self).wf(),
        ensures
            final(self).wf(),
            final(self)@ == advanced(old(self)@, found),
    {
        let next = match self.phase {
            Phase::ProbeLib => if found {
                Phase::MakeBinDir
            } else {
                Phase::ProbeMain
            },
            Phase::MakeBinDir => Phase::ProbeBinTarget,
            Phase::ProbeBinTarget => if found {
                Phase::Done(102)
            } else {
                Phase::ProbeFinal(true)
            },
            Phase::ProbeMain => if !found {
                Phase::ProbeFinal(false)
            } else if self.overwrite {
                Phase::RemoveMain
            } else {
                Phase::Done(101)
            },
            Phase::RemoveMain => Phase::ProbeFinal(false),
            Phase::ProbeFinal(lib) => if found {
                Phase::Done(102)
            } else {
                Phase::Write(lib)
            },
            Phase::Write(_) => Phase::Enter,
            Phase::Enter => Phase::Declare(0),
            Phase::Declare(i) => if i + 1 < DEPENDENCY_COUNT {
                Phase::Declare(i + 1)
            } else {
                Phase::Leave
            },
            Phase::Leave => Phase::Done(0),
            Phase::Done(c) => Phase::Done(c),
        };
        self.phase = next;
    }
}

} // verus!
