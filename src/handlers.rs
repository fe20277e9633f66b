//! The two commands' decisions: which flags and project contexts are
//! refused, what the project initializer is asked for, and what the planner
//! is asked to do afterwards.
use vstd::prelude::*;
use vstd::string::*;
use crate::command::CargoCommand;
use crate::planner::ScaffoldRequest;

verus! {

/// What `new` was asked for.
pub struct NewRequest {
    pub project_name: String,
    pub bin_only: bool,
    pub lib_only: bool,
    pub script_name: Option<String>,
}

/// What `add` was asked for.
pub struct AddRequest {
    pub project_name: Option<String>,
    pub script_name: String,
}

/// What follows the project initializer's run.
pub enum NextStep {
    /// Stop with this exit code.
    Exit(i32),
    /// Run the planner on this request.
    Scaffold(ScaffoldRequest),
}

/// The script name `new` uses when none is given.
pub open spec fn default_script_name() -> Seq<char> {
    "main.rs"@
}

/// The project name `add` uses when run inside a project: the current
/// directory.
pub open spec fn current_dir_name() -> Seq<char> {
    "."@
}

/// The project initializer's invocation for `new`; asking for both a
/// binary-only and a library-only project is refused with 1 and nothing is
/// to be run.
pub fn initializer_command(req: &NewRequest) -> (r: Result<CargoCommand, i32>)
    ensures
        (req.bin_only && req.lib_only) <==> r is Err,
        r matches Err(c) ==> c == 1,
        r matches Ok(cmd) ==> cmd@.command == "new"@ && cmd@.args == seq![
            if req.bin_only {
                "--bin"@
            } else {
                "--lib"@
            },
            req.project_name@,
        ],
{
    if req.bin_only && req.lib_only {
        return Err(1);
    }
    let mut cmd = CargoCommand::new("new");
    if req.bin_only {
        cmd.add_arg("--bin");
    } else {
        cmd.add_arg("--lib");
    }
    cmd.add_arg(req.project_name.as_str());
    proof {
        assert(cmd@.args =~= seq![
            if req.bin_only {
                "--bin"@
            } else {
                "--lib"@
            },
            req.project_name@,
        ]);
    }
    Ok(cmd)
}

/// What `new` does once the initializer exited with `code`: a failure is
/// passed on; a library-only project is done; otherwise the planner writes
/// the script, replacing an existing main entry.
pub fn after_initializer(req: &NewRequest, code: i32) -> (r: NextStep)
    ensures
        code != 0 ==> r == NextStep::Exit(code),
        code == 0 && req.lib_only ==> r == NextStep::Exit(0),
        code == 0 && !req.lib_only ==> (r matches NextStep::Scaffold(s) && s.project_name@
            == req.project_name@ && s.overwrite && s.script_name@ == (match req.script_name {
            Some(n) => n@,
            None => default_script_name(),
        })),
{
    if code != 0 {
        return NextStep::Exit(code);
    }
    if req.lib_only {
        return NextStep::Exit(0);
    }
    let script_name = match &req.script_name {
        Some(n) => n.clone(),
        None => String::from_str("main.rs"),
    };
    NextStep::Scaffold(
        ScaffoldRequest {
            project_name: req.project_name.clone(),
            script_name,
            overwrite: true,
        },
    )
}

/// The decision of `add`, given whether the current directory has a `src`
/// subdirectory: a project name given inside a project is refused with 103,
/// none given outside one with 104; otherwise the planner runs without
/// overwriting, on the named project or on the current directory.
pub fn process_add(in_project: bool, req: &AddRequest) -> (r: Result<ScaffoldRequest, i32>)
    ensures
        (in_project && req.project_name is Some) <==> r == Err::<ScaffoldRequest, i32>(103),
        (!in_project && req.project_name is None) <==> r == Err::<ScaffoldRequest, i32>(104),
        r is Ok <==> (in_project <==> req.project_name is None),
        r matches Ok(s) ==> !s.overwrite && s.script_name@ == req.script_name@
            && s.project_name@ == (match req.project_name {
            Some(n) => n@,
            None => current_dir_name(),
        }),
{
    if in_project {
        if req.project_name.is_some() {
            return Err(103);
        }
    } else if req.project_name.is_none() {
        return Err(104);
    }
    let project_name = match &req.project_name {
        Some(n) => n.clone(),
        None => String::from_str("."),
    };
    Ok(
        ScaffoldRequest {
            project_name,
            script_name: req.script_name.clone(),
            overwrite: false,
        },
    )
}

} // verus!
