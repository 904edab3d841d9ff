//! Language adapters as data: each language maps a job onto an ordered
//! pipeline — write the source into the sandbox under a conventional
//! name, optionally run setup and build commands, then spawn the run
//! command. Building the plan is pure; performing it is left to the
//! process layer.

use vstd::prelude::*;
use vstd::string::*;
use crate::exec::{views_of, Executor};
use crate::ids;
use crate::ids::uuid_text_of;
use crate::lang::Languages;

verus! {

/// One command to spawn: a program, its arguments, and the directory
/// to run it in — always the job's sandbox directory.
pub struct CommandSpec {
    pub program: String,
    pub args: Vec<String>,
    pub cwd: String,
}

/// The full pipeline for one job: the source file to write and its
/// contents, setup commands, an optional build command whose
/// diagnostics are captured, and the run command.
pub struct ExecutionPlan {
    pub source_file: String,
    pub file_contents: String,
    pub setup: Vec<CommandSpec>,
    pub build: Option<CommandSpec>,
    pub run: CommandSpec,
}

/// `c` is the command `prog args`, run in `cwd`.
pub open spec fn cmd_ok(c: CommandSpec, prog: Seq<char>, args: Seq<Seq<char>>, cwd: Seq<
    char,
>) -> bool {
    &&& c.program@ == prog
    &&& views_of(c.args@) == args
    &&& c.cwd@ == cwd
}

/// The prelude prepended to every Python job: a `print` that flushes by
/// default, so output lines stream out as they are produced.
pub open spec fn python_prelude_chars() -> Seq<char> {
    "from __future__ import print_function
try:
    # python2
    import __builtin__
except ImportError:
    # python3
    import builtins as __builtin__

def print(*args, **kwargs):
    return __builtin__.print(*args, **kwargs, flush=True)\n"@
}

/// The prelude prepended to every Python job.
pub fn python_prelude() -> (r: &'static str)
    ensures
        r@ == python_prelude_chars(),
{
    "from __future__ import print_function
try:
    # python2
    import __builtin__
except ImportError:
    # python3
    import builtins as __builtin__

def print(*args, **kwargs):
    return __builtin__.print(*args, **kwargs, flush=True)\n"
}

/// The plan the job's language prescribes, field by field.
pub open spec fn plan_ok(job: Executor, p: ExecutionPlan) -> bool {
    let dir = job.allocated_dir@;
    let user_args = views_of(job.commandline_arguments.arguments@);
    match job.language {
        Languages::Python => {
            &&& p.source_file@ == dir + "/"@ + uuid_text_of(job.id) + ".py"@
            &&& p.file_contents@ == python_prelude_chars() + job.src_file@
            &&& p.setup@.len() == 0
            &&& p.build is None
            &&& cmd_ok(
                p.run,
                "python3"@,
                seq![uuid_text_of(job.id) + ".py"@] + user_args,
                dir,
            )
        },
        Languages::Javascript => {
            &&& p.source_file@ == dir + "/app.js"@
            &&& p.file_contents@ == job.src_file@
            &&& p.setup@.len() == 0
            &&& p.build is None
            &&& cmd_ok(p.run, "bun"@, seq!["run"@, "app.js"@] + user_args, dir)
        },
        Languages::Rust => {
            &&& p.source_file@ == dir + "/src/main.rs"@
            &&& p.file_contents@ == job.src_file@
            &&& p.setup@.len() == 1
            &&& cmd_ok(p.setup@[0], "cargo"@, seq!["init"@, "--name"@, "job"@], dir)
            &&& p.build is Some
            &&& cmd_ok(p.build->0, "cargo"@, seq!["build"@, "--release"@], dir)
            &&& cmd_ok(p.run, "./target/release/job"@, user_args, dir)
        },
        Languages::Go => {
            &&& p.source_file@ == dir + "/task.go"@
            &&& p.file_contents@ == job.src_file@
            &&& p.setup@.len() == 1
            &&& cmd_ok(
                p.setup@[0],
                "go"@,
                seq!["mod"@, "init"@, "roadrunner.com/task"@],
                dir,
            )
            &&& p.build is Some
            &&& cmd_ok(p.build->0, "go"@, seq!["build"@], dir)
            &&& cmd_ok(p.run, "./task"@, user_args, dir)
        },
        Languages::C => {
            &&& p.source_file@ == dir + "/main.c"@
            &&& p.file_contents@ == job.src_file@
            &&& p.setup@.len() == 0
            &&& p.build is Some
            &&& cmd_ok(p.build->0, "gcc"@, seq!["-o"@, "exec.out"@, "main.c"@], dir)
            &&& cmd_ok(p.run, "./exec.out"@, user_args, dir)
        },
        Languages::Cpp => {
            &&& p.source_file@ == dir + "/main.cpp"@
            &&& p.file_contents@ == job.src_file@
            &&& p.setup@.len() == 0
            &&& p.build is Some
            &&& cmd_ok(p.build->0, "g++"@, seq!["-o"@, "exec.out"@, "main.cpp"@], dir)
            &&& cmd_ok(p.run, "./exec.out"@, user_args, dir)
        },
        Languages::Shell => {
            &&& p.source_file@ == dir + "/run.sh"@
            &&& p.file_contents@ == job.src_file@
            &&& p.setup@.len() == 0
            &&& p.build is None
            &&& cmd_ok(p.run, "sh"@, seq!["-x"@, "run.sh"@] + user_args, dir)
        },
    }
}

/// Appends clones of all of `src` to `dst`.
fn extend_cloned(dst: &mut Vec<String>, src: &Vec<String>)
    ensures
        views_of(final(dst)@) == views_of(old(dst)@) + views_of(src@),
{
    let n = src.len();
    let mut i: usize = 0;
    while i < n
        invariant
            n == src@.len(),
            i <= n,
            views_of(dst@) == views_of(old(dst)@) + views_of(src@.take(i as int)),
        decreases n - i,
    {
        let ghost pre = dst@;
        let item = src[i].clone();
        proof {
            assert(item@ == src@[i as int]@);
        }
        dst.push(item);
        proof {
            assert(dst@ == pre.push(item));
            assert(views_of(pre.push(item)) =~= views_of(pre).push(item@));
            assert(src@.take((i + 1) as int) =~= src@.take(i as int).push(src@[i as int]));
            assert(views_of(src@.take(i as int).push(src@[i as int])) =~= views_of(
                src@.take(i as int),
            ).push(src@[i as int]@));
            assert(views_of(dst@) =~= views_of(old(dst)@) + views_of(src@.take((i + 1) as int)));
        }
        i = i + 1;
    }
    proof {
        assert(src@.take(n as int) =~= src@);
        assert(views_of(dst@) =~= views_of(old(dst)@) + views_of(src@));
    }
}

/// The job's directory path extended with `tail`.
fn dir_path(job: &Executor, tail: &str) -> (r: String)
    ensures
        r@ == job.allocated_dir@ + tail@,
{
    let mut path = job.allocated_dir.clone();
    path.append(tail);
    path
}

/// Clones of the job's command-line arguments.
fn user_args(job: &Executor) -> (r: Vec<String>)
    ensures
        views_of(r@) == views_of(job.commandline_arguments.arguments@),
{
    let mut args: Vec<String> = Vec::new();
    extend_cloned(&mut args, &job.commandline_arguments.arguments);
    proof {
        assert(views_of(args@) =~= views_of(job.commandline_arguments.arguments@));
    }
    args
}

fn python_plan(job: &Executor) -> (p: ExecutionPlan)
    requires
        job.language is Python,
    ensures
        plan_ok(*job, p),
{
    let mut file_name = ids::format_uuid(job.id);
    file_name.append(".py");
    let mut path = job.allocated_dir.clone();
    path.append("/");
    path.append(file_name.as_str());
    let mut contents = String::from_str(python_prelude());
    contents.append(job.src_file.as_str());
    let mut args: Vec<String> = Vec::new();
    args.push(file_name);
    extend_cloned(&mut args, &job.commandline_arguments.arguments);
    proof {
        assert(path@ =~= job.allocated_dir@ + "/"@ + uuid_text_of(job.id) + ".py"@);
        assert(views_of(args@) =~= seq![uuid_text_of(job.id) + ".py"@] + views_of(
            job.commandline_arguments.arguments@,
        ));
    }
    ExecutionPlan {
        source_file: path,
        file_contents: contents,
        setup: Vec::new(),
        build: None,
        run: CommandSpec {
            program: String::from_str("python3"),
            args,
            cwd: job.allocated_dir.clone(),
        },
    }
}

fn javascript_plan(job: &Executor) -> (p: ExecutionPlan)
    requires
        job.language is Javascript,
    ensures
        plan_ok(*job, p),
{
    let mut args: Vec<String> = Vec::new();
    args.push(String::from_str("run"));
    args.push(String::from_str("app.js"));
    extend_cloned(&mut args, &job.commandline_arguments.arguments);
    proof {
        assert(views_of(args@) =~= seq!["run"@, "app.js"@] + views_of(
            job.commandline_arguments.arguments@,
        ));
    }
    ExecutionPlan {
        source_file: dir_path(job, "/app.js"),
        file_contents: job.src_file.clone(),
        setup: Vec::new(),
        build: None,
        run: CommandSpec {
            program: String::from_str("bun"),
            args,
            cwd: job.allocated_dir.clone(),
        },
    }
}

fn rust_plan(job: &Executor) -> (p: ExecutionPlan)
    requires
        job.language is Rust,
    ensures
        plan_ok(*job, p),
{
    let mut init_args: Vec<String> = Vec::new();
    init_args.push(String::from_str("init"));
    init_args.push(String::from_str("--name"));
    init_args.push(String::from_str("job"));
    let mut setup: Vec<CommandSpec> = Vec::new();
    setup.push(
        CommandSpec {
            program: String::from_str("cargo"),
            args: init_args,
            cwd: job.allocated_dir.clone(),
        },
    );
    let mut build_args: Vec<String> = Vec::new();
    build_args.push(String::from_str("build"));
    build_args.push(String::from_str("--release"));
    proof {
        assert(views_of(setup@[0].args@) =~= seq!["init"@, "--name"@, "job"@]);
        assert(views_of(build_args@) =~= seq!["build"@, "--release"@]);
    }
    ExecutionPlan {
        source_file: dir_path(job, "/src/main.rs"),
        file_contents: job.src_file.clone(),
        setup,
        build: Some(
            CommandSpec {
                program: String::from_str("cargo"),
                args: build_args,
                cwd: job.allocated_dir.clone(),
            },
        ),
        run: CommandSpec {
            program: String::from_str("./target/release/job"),
            args: user_args(job),
            cwd: job.allocated_dir.clone(),
        },
    }
}

fn go_plan(job: &Executor) -> (p: ExecutionPlan)
    requires
        job.language is Go,
    ensures
        plan_ok(*job, p),
{
    let mut init_args: Vec<String> = Vec::new();
    init_args.push(String::from_str("mod"));
    init_args.push(String::from_str("init"));
    init_args.push(String::from_str("roadrunner.com/task"));
    let mut setup: Vec<CommandSpec> = Vec::new();
    setup.push(
        CommandSpec {
            program: String::from_str("go"),
            args: init_args,
            cwd: job.allocated_dir.clone(),
        },
    );
    let mut build_args: Vec<String> = Vec::new();
    build_args.push(String::from_str("build"));
    proof {
        assert(views_of(setup@[0].args@) =~= seq!["mod"@, "init"@, "roadrunner.com/task"@]);
        assert(views_of(build_args@) =~= seq!["build"@]);
    }
    ExecutionPlan {
        source_file: dir_path(job, "/task.go"),
        file_contents: job.src_file.clone(),
        setup,
        build: Some(
            CommandSpec {
                program: String::from_str("go"),
                args: build_args,
                cwd: job.allocated_dir.clone(),
            },
        ),
        run: CommandSpec {
            program: String::from_str("./task"),
            args: user_args(job),
            cwd: job.allocated_dir.clone(),
        },
    }
}

fn c_plan(job: &Executor) -> (p: ExecutionPlan)
    requires
        job.language is C,
    ensures
        plan_ok(*job, p),
{
    let mut build_args: Vec<String> = Vec::new();
    build_args.push(String::from_str("-o"));
    build_args.push(String::from_str("exec.out"));
    build_args.push(String::from_str("main.c"));
    proof {
        assert(views_of(build_args@) =~= seq!["-o"@, "exec.out"@, "main.c"@]);
    }
    ExecutionPlan {
        source_file: dir_path(job, "/main.c"),
        file_contents: job.src_file.clone(),
        setup: Vec::new(),
        build: Some(
            CommandSpec {
                program: String::from_str("gcc"),
                args: build_args,
                cwd: job.allocated_dir.clone(),
            },
        ),
        run: CommandSpec {
            program: String::from_str("./exec.out"),
            args: user_args(job),
            cwd: job.allocated_dir.clone(),
        },
    }
}

fn cpp_plan(job: &Executor) -> (p: ExecutionPlan)
    requires
        job.language is Cpp,
    ensures
        plan_ok(*job, p),
{
    let mut build_args: Vec<String> = Vec::new();
    build_args.push(String::from_str("-o"));
    build_args.push(String::from_str("exec.out"));
    build_args.push(String::from_str("main.cpp"));
    proof {
        assert(views_of(build_args@) =~= seq!["-o"@, "exec.out"@, "main.cpp"@]);
    }
    ExecutionPlan {
        source_file: dir_path(job, "/main.cpp"),
        file_contents: job.src_file.clone(),
        setup: Vec::new(),
        build: Some(
            CommandSpec {
                program: String::from_str("g++"),
                args: build_args,
                cwd: job.allocated_dir.clone(),
            },
        ),
        run: CommandSpec {
            program: String::from_str("./exec.out"),
            args: user_args(job),
            cwd: job.allocated_dir.clone(),
        },
    }
}

fn shell_plan(job: &Executor) -> (p: ExecutionPlan)
    requires
        job.language is Shell,
    ensures
        plan_ok(*job, p),
{
    let path = dir_path(job, "/run.sh");
    let mut args: Vec<String> = Vec::new();
    args.push(String::from_str("-x"));
    args.push(String::from_str("run.sh"));
    extend_cloned(&mut args, &job.commandline_arguments.arguments);
    proof {
        assert(views_of(args@) =~= seq!["-x"@, "run.sh"@] + views_of(
            job.commandline_arguments.arguments@,
        ));
    }
    ExecutionPlan {
        source_file: path,
        file_contents: job.src_file.clone(),
        setup: Vec::new(),
        build: None,
        run: CommandSpec {
            program: String::from_str("sh"),
            args,
            cwd: job.allocated_dir.clone(),
        },
    }
}

/// Resolves the adapter for the job's language — every language has
/// one, so the dispatch is total — and builds its pipeline.
pub fn plan_for(job: &Executor) -> (p: ExecutionPlan)
    ensures
        plan_ok(*job, p),
{
    match job.language {
        Languages::Python => python_plan(job),
        Languages::Javascript => javascript_plan(job),
        Languages::Rust => rust_plan(job),
        Languages::Go => go_plan(job),
        Languages::C => c_plan(job),
        Languages::Cpp => cpp_plan(job),
        Languages::Shell => shell_plan(job),
    }
}

} // verus!
