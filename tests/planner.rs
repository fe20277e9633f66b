use std::collections::{BTreeMap, BTreeSet};

use grumpy::planner::{dependency, Action, Planner, ScaffoldRequest, ENTRY_TEMPLATE};

struct Sim {
    files: BTreeMap<String, String>,
    dirs: BTreeSet<String>,
    cwd: String,
    saved: Vec<String>,
    runs: Vec<Vec<String>>,
    cwd_during_runs: Vec<String>,
}

impl Sim {
    fn new(cwd: &str) -> Sim {
        Sim {
            files: BTreeMap::new(),
            dirs: BTreeSet::new(),
            cwd: cwd.to_string(),
            saved: Vec::new(),
            runs: Vec::new(),
            cwd_during_runs: Vec::new(),
        }
    }

    fn plan(&mut self, project: &str, script: &str, overwrite: bool) -> i32 {
        let req = ScaffoldRequest {
            project_name: project.to_string(),
            script_name: script.to_string(),
            overwrite,
        };
        let mut p = Planner::new(&self.cwd.clone(), &req);
        loop {
            let found = match p.action() {
                Action::Finish(code) => return code,
                Action::Probe(path) => self.files.contains_key(&path) || self.dirs.contains(&path),
                Action::CreateDir(path) => {
                    self.dirs.insert(path);
                    false
                }
                Action::Remove(path) => {
                    self.files.remove(&path);
                    false
                }
                Action::Write(path) => {
                    self.files.insert(path, ENTRY_TEMPLATE.to_string());
                    false
                }
                Action::Enter(path) => {
                    let old = std::mem::replace(&mut self.cwd, path);
                    self.saved.push(old);
                    false
                }
                Action::Run(cmd) => {
                    let mut line = vec![cmd.command.clone()];
                    line.extend(cmd.args.iter().cloned());
                    self.runs.push(line);
                    self.cwd_during_runs.push(self.cwd.clone());
                    false
                }
                Action::Leave => {
                    self.cwd = self.saved.pop().unwrap();
                    false
                }
            };
            p.advance(found);
        }
    }
}

#[test]
fn fresh_binary_project_twice_without_overwrite() {
    let mut sim = Sim::new("/w");
    assert_eq!(sim.plan("proj", "tool", false), 0);
    assert_eq!(sim.files.get("/w/proj/src/main.rs").map(|s| s.as_str()), Some(ENTRY_TEMPLATE));
    assert_eq!(sim.plan("proj", "tool", false), 101);
}

#[test]
fn library_script_goes_under_bin() {
    let mut sim = Sim::new("/w");
    sim.files.insert("/w/proj/src/lib.rs".to_string(), String::new());
    assert_eq!(sim.plan("proj", "tool", false), 0);
    assert!(sim.dirs.contains("/w/proj/src/bin"));
    assert!(sim.files.contains_key("/w/proj/src/bin/tool.rs"));
    assert!(!sim.files.contains_key("/w/proj/src/main.rs"));
    assert!(!sim.files.contains_key("/w/proj/src/tool.rs"));
}

#[test]
fn library_script_with_extension_given() {
    let mut sim = Sim::new("/w");
    sim.files.insert("/w/proj/src/lib.rs".to_string(), String::new());
    assert_eq!(sim.plan("proj", "tool.rs", true), 0);
    assert!(sim.files.contains_key("/w/proj/src/bin/tool.rs"));
}

#[test]
fn binary_script_is_main_whatever_the_name() {
    let mut sim = Sim::new("/w");
    assert_eq!(sim.plan("proj", "something_else", true), 0);
    assert!(sim.files.contains_key("/w/proj/src/main.rs"));
    assert!(!sim.files.contains_key("/w/proj/src/something_else.rs"));
    assert!(sim.dirs.is_empty());
}

#[test]
fn overwrite_replaces_main_entry() {
    let mut sim = Sim::new("/w");
    sim.files.insert("/w/proj/src/main.rs".to_string(), "old".to_string());
    assert_eq!(sim.plan("proj", "main.rs", true), 0);
    assert_eq!(sim.files.get("/w/proj/src/main.rs").map(|s| s.as_str()), Some(ENTRY_TEMPLATE));
}

#[test]
fn no_overwrite_keeps_main_entry() {
    let mut sim = Sim::new("/w");
    sim.files.insert("/w/proj/src/main.rs".to_string(), "old".to_string());
    assert_eq!(sim.plan("proj", "main.rs", false), 101);
    assert_eq!(sim.files.get("/w/proj/src/main.rs").map(|s| s.as_str()), Some("old"));
    assert!(sim.runs.is_empty());
}

#[test]
fn existing_bin_target_refused_either_way() {
    for overwrite in [false, true] {
        let mut sim = Sim::new("/w");
        sim.files.insert("/w/proj/src/lib.rs".to_string(), String::new());
        sim.files.insert("/w/proj/src/bin/tool".to_string(), "keep".to_string());
        assert_eq!(sim.plan("proj", "tool", overwrite), 102);
        assert_eq!(sim.files.get("/w/proj/src/bin/tool").map(|s| s.as_str()), Some("keep"));
        assert!(sim.runs.is_empty());
    }
}

#[test]
fn existing_normalized_target_refused() {
    let mut sim = Sim::new("/w");
    sim.files.insert("/w/proj/src/lib.rs".to_string(), String::new());
    sim.files.insert("/w/proj/src/bin/tool.rs".to_string(), "keep".to_string());
    assert_eq!(sim.plan("proj", "tool", false), 102);
    assert_eq!(sim.files.get("/w/proj/src/bin/tool.rs").map(|s| s.as_str()), Some("keep"));
}

#[test]
fn working_directory_restored_on_every_path() {
    let mut sim = Sim::new("/w");
    assert_eq!(sim.plan("proj", "tool", false), 0);
    assert_eq!(sim.cwd, "/w");
    assert_eq!(sim.plan("proj", "tool", false), 101);
    assert_eq!(sim.cwd, "/w");
    sim.files.insert("/w/proj/src/lib.rs".to_string(), String::new());
    assert_eq!(sim.plan("proj", "tool", false), 0);
    assert_eq!(sim.plan("proj", "tool", false), 102);
    assert_eq!(sim.cwd, "/w");
    assert!(sim.saved.is_empty());
}

#[test]
fn dependencies_declared_in_order_from_project_root() {
    let mut sim = Sim::new("/w");
    assert_eq!(sim.plan("proj", "tool", false), 0);
    let expected: Vec<Vec<String>> = ["fehler@1.0", "anyhow@1.0", "thiserror@1.0", "log@0.4", "log4rs@0.8"]
        .iter()
        .map(|d| vec!["add".to_string(), d.to_string()])
        .collect();
    assert_eq!(sim.runs, expected);
    assert!(sim.cwd_during_runs.iter().all(|c| c == "/w/proj"));
}

#[test]
fn current_directory_as_project() {
    let mut sim = Sim::new("/w/proj");
    sim.files.insert("/w/proj/./src/lib.rs".to_string(), String::new());
    assert_eq!(sim.plan(".", "tool", false), 0);
    assert!(sim.files.contains_key("/w/proj/./src/bin/tool.rs"));
}

#[test]
fn dependency_list() {
    assert_eq!(dependency(0), "fehler@1.0");
    assert_eq!(dependency(4), "log4rs@0.8");
}

#[test]
fn template_is_a_program() {
    assert!(ENTRY_TEMPLATE.starts_with("use anyhow::Error;"));
    assert!(ENTRY_TEMPLATE.contains("fn main() -> Result<(), Error>"));
}
