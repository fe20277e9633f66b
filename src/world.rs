//! A model of what the planner's steps do to the file system and the working
//! directory, and the laws that hold of a whole planner run over it. The
//! model tracks file contents, created directories and the working directory;
//! the build tool's runs edit only the manifest, which it does not track.
use vstd::prelude::*;
use crate::paths::{dot_before, joined, lemma_dot_before_range, source_ext, stem_end};
use crate::planner::{
    advanced, bin_dir, bin_target, effect_of, initial, lib_entry, lib_script, main_entry,
    phase_ok, Effect, Phase, PlanState, ENTRY_TEMPLATE,
};

verus! {

/// The state the planner's steps act on.
pub struct World {
    pub files: Map<Seq<char>, Seq<char>>,
    pub dirs: Set<Seq<char>>,
    pub cwd: Seq<char>,
    /// Working directories remembered by `Enter`, innermost last.
    pub saved: Seq<Seq<char>>,
}

/// The text written into a new entry script.
pub open spec fn entry_template() -> Seq<char> {
    ENTRY_TEMPLATE@
}

/// Whether `p` names a file or a directory.
pub open spec fn exists_in(w: World, p: Seq<char>) -> bool {
    w.files.contains_key(p) || w.dirs.contains(p)
}

/// The answer the world gives to a step (only a probe gets `true`).
pub open spec fn answer(w: World, e: Effect) -> bool {
    match e {
        Effect::Probe(p) => exists_in(w, p),
        _ => false,
    }
}

/// The world after a step.
pub open spec fn perform(w: World, e: Effect) -> World {
    match e {
        Effect::CreateDir(p) => World { dirs: w.dirs.insert(p), ..w },
        Effect::Remove(p) => World { files: w.files.remove(p), ..w },
        Effect::Write(p) => World { files: w.files.insert(p, entry_template()), ..w },
        Effect::Enter(p) => World { cwd: p, saved: w.saved.push(w.cwd), ..w },
        Effect::Leave => if w.saved.len() > 0 {
            World { cwd: w.saved.last(), saved: w.saved.drop_last(), ..w }
        } else {
            w
        },
        _ => w,
    }
}

/// How many steps a phase is at most from being done.
pub open spec fn rank(p: Phase) -> int {
    match p {
        Phase::ProbeLib => 20,
        Phase::MakeBinDir => 19,
        Phase::ProbeBinTarget => 18,
        Phase::ProbeMain => 19,
        Phase::RemoveMain => 18,
        Phase::ProbeFinal(_) => 17,
        Phase::Write(_) => 16,
        Phase::Enter => 15,
        Phase::Declare(i) => 14 - i,
        Phase::Leave => 8,
        Phase::Done(_) => 0,
    }
}

/// A whole planner run from `s` against `w`: the final world and exit code.
pub open spec fn run(s: PlanState, w: World) -> (World, i32)
    decreases rank(s.phase),
    when phase_ok(s.phase)
{
    if let Phase::Done(c) = s.phase {
        (w, c)
    } else {
        let e = effect_of(s);
        run(advanced(s, answer(w, e)), perform(w, e))
    }
}

/// Whether a phase lies between entering the project root and leaving it.
pub open spec fn in_scope(p: Phase) -> bool {
    p is Declare || p is Leave
}

/// Whether a phase comes before the template is written.
pub open spec fn before_write(p: Phase) -> bool {
    !(p is Write || p is Enter || p is Declare || p is Leave || p is Done)
}

/// Outside the project-root scope a run ends in the working directory it
/// started in; inside it, in the one remembered last. From the entering on,
/// files and directories are left alone and the run succeeds.
proof fn lemma_run_scope(s: PlanState, w: World)
    requires
        phase_ok(s.phase),
    ensures
        !in_scope(s.phase) ==> run(s, w).0.cwd == w.cwd && run(s, w).0.saved == w.saved,
        in_scope(s.phase) && w.saved.len() > 0 ==> run(s, w).0.cwd == w.saved.last()
            && run(s, w).0.saved == w.saved.drop_last(),
        (s.phase is Enter || in_scope(s.phase)) ==> run(s, w).0.files == w.files
            && run(s, w).0.dirs == w.dirs && run(s, w).1 == 0,
        run(s, w).1 == 0 || run(s, w).1 == 101 || run(s, w).1 == 102 || s.phase is Done,
    decreases rank(s.phase),
{
    if !(s.phase is Done) {
        let e = effect_of(s);
        let s2 = advanced(s, answer(w, e));
        let w2 = perform(w, e);
        lemma_run_scope(s2, w2);
        if s.phase is Enter {
            assert(w2.saved.drop_last() =~= w.saved);
        }
    }
}

/// From the write on, a run adds the template at `target` and succeeds,
/// leaving directories and the working directory as they were.
proof fn lemma_run_from_write(s: PlanState, w: World, lib: bool)
    requires
        s.phase == Phase::Write(lib),
    ensures
        run(s, w).1 == 0,
        run(s, w).0.files == w.files.insert(
            if lib {
                lib_script(s.root, s.script)
            } else {
                main_entry(s.root)
            },
            entry_template(),
        ),
        run(s, w).0.dirs == w.dirs,
        run(s, w).0.cwd == w.cwd,
{
    let e = effect_of(s);
    let s2 = advanced(s, answer(w, e));
    let w2 = perform(w, e);
    lemma_run_scope(s2, w2);
    lemma_run_scope(s, w);
}

/// The final probe: a run stops with 102 on an existing target, and
/// otherwise goes on as `lemma_run_from_write` says.
proof fn lemma_run_from_final_probe(s: PlanState, w: World, lib: bool)
    requires
        s.phase == Phase::ProbeFinal(lib),
    ensures
        ({
            let target = if lib {
                lib_script(s.root, s.script)
            } else {
                main_entry(s.root)
            };
            &&& exists_in(w, target) ==> run(s, w) == (w, 102i32)
            &&& !exists_in(w, target) ==> run(s, w).1 == 0 && run(s, w).0.files == w.files.insert(
                target,
                entry_template(),
            ) && run(s, w).0.dirs == w.dirs && run(s, w).0.cwd == w.cwd
        }),
{
    let e = effect_of(s);
    let s2 = advanced(s, answer(w, e));
    let w2 = perform(w, e);
    assert(run(s, w) == run(s2, w2));
    if !answer(w, e) {
        lemma_run_from_write(s2, w2, lib);
    } else {
        assert(run(s2, w2) == (w2, 102i32));
    }
}

/// After any planner run the working directory is the one it started in,
/// and the exit code is 0, 101 or 102.
pub proof fn law_working_directory_restored(
    project: Seq<char>,
    script: Seq<char>,
    overwrite: bool,
    w: World,
)
    ensures
        run(initial(w.cwd, project, script, overwrite), w).0.cwd == w.cwd,
        run(initial(w.cwd, project, script, overwrite), w).1 == 0
            || run(initial(w.cwd, project, script, overwrite), w).1 == 101
            || run(initial(w.cwd, project, script, overwrite), w).1 == 102,
{
    lemma_run_scope(initial(w.cwd, project, script, overwrite), w);
}

/// In a binary project (no library entry file) the script is always the
/// main entry, whatever script name is given: a successful run adds exactly
/// that file, with the template, and creates no directory.
pub proof fn law_binary_script_is_main_entry(
    project: Seq<char>,
    script: Seq<char>,
    overwrite: bool,
    w: World,
)
    requires
        !exists_in(w, lib_entry(joined(w.cwd, project))),
    ensures
        ({
            let r = run(initial(w.cwd, project, script, overwrite), w);
            r.1 == 0 ==> r.0.files == w.files.insert(
                main_entry(joined(w.cwd, project)),
                entry_template(),
            ) && r.0.dirs == w.dirs
        }),
{
    let s0 = initial(w.cwd, project, script, overwrite);
    let main = main_entry(s0.root);
    let s1 = advanced(s0, false);
    assert(run(s0, w) == run(s1, w));
    let s2 = advanced(s1, exists_in(w, main));
    if exists_in(w, main) {
        if overwrite {
            let w2 = perform(w, Effect::Remove(main));
            assert(run(s1, w) == run(s2, w));
            let s3 = advanced(s2, false);
            assert(run(s2, w) == run(s3, w2));
            lemma_run_from_final_probe(s3, w2, false);
            assert(w2.files.insert(main, entry_template()) =~= w.files.insert(
                main,
                entry_template(),
            ));
        } else {
            assert(run(s1, w) == run(s2, w));
            assert(run(s2, w) == (w, 101i32));
        }
    } else {
        assert(run(s1, w) == run(s2, w));
        lemma_run_from_final_probe(s2, w, false);
    }
}

/// The overwrite flag decides what happens to an existing main entry of a
/// binary project: with it the file is replaced by the template and the run
/// succeeds; without it the run stops with 101 and nothing is changed.
pub proof fn law_overwrite_main_entry(project: Seq<char>, script: Seq<char>, overwrite: bool, w: World)
    requires
        !exists_in(w, lib_entry(joined(w.cwd, project))),
        w.files.contains_key(main_entry(joined(w.cwd, project))),
        !w.dirs.contains(main_entry(joined(w.cwd, project))),
    ensures
        overwrite ==> run(initial(w.cwd, project, script, overwrite), w).1 == 0 && run(
            initial(w.cwd, project, script, overwrite),
            w,
        ).0.files == w.files.insert(main_entry(joined(w.cwd, project)), entry_template()),
        !overwrite ==> run(initial(w.cwd, project, script, overwrite), w) == (w, 101i32),
{
    let s0 = initial(w.cwd, project, script, overwrite);
    let main = main_entry(s0.root);
    let s1 = advanced(s0, false);
    assert(run(s0, w) == run(s1, w));
    let s2 = advanced(s1, true);
    assert(run(s1, w) == run(s2, w));
    if overwrite {
        let w2 = perform(w, Effect::Remove(main));
        let s3 = advanced(s2, false);
        assert(run(s2, w) == run(s3, w2));
        lemma_run_from_final_probe(s3, w2, false);
        assert(w2.files.insert(main, entry_template()) =~= w.files.insert(main, entry_template()));
    }
}

/// A fresh binary project (neither a library entry file nor a main entry)
/// gets its script on a first run without overwriting, and a second such run
/// then stops with 101.
pub proof fn law_second_add_is_refused(project: Seq<char>, script: Seq<char>, w: World)
    requires
        !exists_in(w, lib_entry(joined(w.cwd, project))),
        !exists_in(w, main_entry(joined(w.cwd, project))),
    ensures
        run(initial(w.cwd, project, script, false), w).1 == 0,
        ({
            let w1 = run(initial(w.cwd, project, script, false), w).0;
            run(initial(w1.cwd, project, script, false), w1).1 == 101
        }),
{
    reveal_strlit("lib.rs");
    reveal_strlit("main.rs");
    let s0 = initial(w.cwd, project, script, false);
    let main = main_entry(s0.root);
    let s1 = advanced(s0, false);
    assert(run(s0, w) == run(s1, w));
    let s2 = advanced(s1, false);
    assert(run(s1, w) == run(s2, w));
    lemma_run_from_final_probe(s2, w, false);
    let w1 = run(s0, w).0;
    assert(lib_entry(s0.root).len() != main.len());
    assert(w1.files.contains_key(main));
    law_overwrite_main_entry(project, script, false, w1);
}

/// In a library project an existing path at the script's place under the
/// script directory stops the run with 102, whatever the overwrite flag; no
/// file is touched.
pub proof fn law_existing_library_script_is_refused(
    project: Seq<char>,
    script: Seq<char>,
    overwrite: bool,
    w: World,
)
    requires
        exists_in(w, lib_entry(joined(w.cwd, project))),
        exists_in(w, bin_target(joined(w.cwd, project), script)),
    ensures
        run(initial(w.cwd, project, script, overwrite), w).1 == 102,
        run(initial(w.cwd, project, script, overwrite), w).0.files == w.files,
{
    let s0 = initial(w.cwd, project, script, overwrite);
    let s1 = advanced(s0, true);
    assert(run(s0, w) == run(s1, w));
    let w1 = perform(w, Effect::CreateDir(bin_dir(s0.root)));
    let s2 = advanced(s1, false);
    assert(run(s1, w) == run(s2, w1));
    let s3 = advanced(s2, true);
    assert(run(s2, w1) == run(s3, w1));
    assert(run(s3, w1) == (w1, 102i32));
}

/// `dot_before` never looks past a separator.
proof fn lemma_dot_before_stops_at_sep(p: Seq<char>, j: int, end: int)
    requires
        0 <= j < end <= p.len(),
        p[j] == '/',
    ensures
        dot_before(p, end) == -1 || dot_before(p, end) > j,
    decreases end,
{
    if end - 1 > j && p[end - 1] != '/' && p[end - 1] != '.' {
        lemma_dot_before_stops_at_sep(p, j, end - 1);
    }
}

/// A relative script name of a library project lands under the script
/// directory, also once its extension is set.
proof fn lemma_lib_script_under_bin(root: Seq<char>, script: Seq<char>)
    requires
        script.len() == 0 || script[0] != '/',
    ensures
        (bin_dir(root) + seq!['/']).is_prefix_of(lib_script(root, script)),
{
    reveal_strlit("bin");
    reveal_strlit("src");
    let b = bin_dir(root);
    let p = bin_target(root, script);
    let j = b.len() as int;
    assert(b.len() > 0 && b.last() == 'n');
    assert(p == b + seq!['/'] + script);
    assert(p[j] == '/');
    lemma_dot_before_stops_at_sep(p, j, p.len() as int);
    lemma_dot_before_range(p, p.len() as int);
    let e = stem_end(p);
    assert(e >= j + 1);
    let q = lib_script(root, script);
    assert(q == p.subrange(0, e) + source_ext());
    assert forall|i: int| 0 <= i < j + 1 implies (b + seq!['/'])[i] == q[i] by {
        assert(q[i] == p[i]);
    }
}

/// In a library project (one with a library entry file) the script goes
/// under the script directory of the source root, never the source root
/// itself: a successful run adds exactly that file, with the template.
pub proof fn law_library_script_under_bin(
    project: Seq<char>,
    script: Seq<char>,
    overwrite: bool,
    w: World,
)
    requires
        exists_in(w, lib_entry(joined(w.cwd, project))),
        script.len() == 0 || script[0] != '/',
    ensures
        (bin_dir(joined(w.cwd, project)) + seq!['/']).is_prefix_of(
            lib_script(joined(w.cwd, project), script),
        ),
        run(initial(w.cwd, project, script, overwrite), w).1 == 0 ==> run(
            initial(w.cwd, project, script, overwrite),
            w,
        ).0.files == w.files.insert(lib_script(joined(w.cwd, project), script), entry_template()),
{
    let s0 = initial(w.cwd, project, script, overwrite);
    lemma_lib_script_under_bin(s0.root, script);
    let s1 = advanced(s0, true);
    assert(run(s0, w) == run(s1, w));
    let w1 = perform(w, Effect::CreateDir(bin_dir(s0.root)));
    let s2 = advanced(s1, false);
    assert(run(s1, w) == run(s2, w1));
    let t = bin_target(s0.root, script);
    let s3 = advanced(s2, exists_in(w1, t));
    assert(run(s2, w1) == run(s3, w1));
    if exists_in(w1, t) {
        assert(run(s3, w1) == (w1, 102i32));
    } else {
        lemma_run_from_final_probe(s3, w1, true);
    }
}

} // verus!
