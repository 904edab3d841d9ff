use roadrunner::adapter::{plan_for, python_prelude};
use roadrunner::exec::ExecutorBuilder;
use roadrunner::lang::Languages;

fn job_for(language: Languages, source: &str, args: &str) -> roadrunner::exec::Executor {
    ExecutorBuilder::new()
        .language(language)
        .src_file(String::from(source))
        .arguments(String::from(args))
        .build(3)
}

#[test]
fn python_plan_prepends_prelude_and_passes_file_first() {
    let job = job_for(Languages::Python, "print('hi')", "a b");
    let plan = plan_for(&job);
    let file_name = format!("{}.py", uuid::Uuid::from_u128(job.id));
    assert_eq!(plan.source_file, format!("{}/{}", job.allocated_dir, file_name));
    assert_eq!(plan.file_contents, format!("{}print('hi')", python_prelude()));
    assert!(plan.setup.is_empty());
    assert!(plan.build.is_none());
    assert_eq!(plan.run.program, "python3");
    assert_eq!(plan.run.args, vec![file_name, String::from("a"), String::from("b")]);
    assert_eq!(plan.run.cwd, job.allocated_dir);
}

#[test]
fn c_plan_compiles_then_runs_in_sandbox() {
    let job = job_for(Languages::C, "int main() { return 0; }", "");
    let plan = plan_for(&job);
    assert_eq!(plan.source_file, format!("{}/main.c", job.allocated_dir));
    assert_eq!(plan.file_contents, "int main() { return 0; }");
    assert!(plan.setup.is_empty());
    let build = plan.build.expect("c needs a build step");
    assert_eq!(build.program, "gcc");
    assert_eq!(build.args, vec!["-o", "exec.out", "main.c"]);
    assert_eq!(build.cwd, job.allocated_dir);
    assert_eq!(plan.run.program, "./exec.out");
    assert_eq!(plan.run.cwd, job.allocated_dir);
}

#[test]
fn cpp_plan_uses_gpp() {
    let job = job_for(Languages::Cpp, "int main() {}", "");
    let plan = plan_for(&job);
    assert_eq!(plan.source_file, format!("{}/main.cpp", job.allocated_dir));
    let build = plan.build.expect("cpp needs a build step");
    assert_eq!(build.program, "g++");
    assert_eq!(build.args, vec!["-o", "exec.out", "main.cpp"]);
    assert_eq!(plan.run.program, "./exec.out");
}

#[test]
fn go_plan_initializes_module_before_build() {
    let job = job_for(Languages::Go, "package main", "");
    let plan = plan_for(&job);
    assert_eq!(plan.source_file, format!("{}/task.go", job.allocated_dir));
    assert_eq!(plan.setup.len(), 1);
    assert_eq!(plan.setup[0].program, "go");
    assert_eq!(plan.setup[0].args, vec!["mod", "init", "roadrunner.com/task"]);
    let build = plan.build.expect("go needs a build step");
    assert_eq!(build.args, vec!["build"]);
    assert_eq!(plan.run.program, "./task");
}

#[test]
fn rust_plan_initializes_cargo_package() {
    let job = job_for(Languages::Rust, "fn main() {}", "x");
    let plan = plan_for(&job);
    assert_eq!(plan.source_file, format!("{}/src/main.rs", job.allocated_dir));
    assert_eq!(plan.setup.len(), 1);
    assert_eq!(plan.setup[0].program, "cargo");
    assert_eq!(plan.setup[0].args, vec!["init", "--name", "job"]);
    let build = plan.build.expect("rust needs a build step");
    assert_eq!(build.program, "cargo");
    assert_eq!(build.args, vec!["build", "--release"]);
    assert_eq!(plan.run.program, "./target/release/job");
    assert_eq!(plan.run.args, vec!["x"]);
}

#[test]
fn javascript_plan_runs_through_bun() {
    let job = job_for(Languages::Javascript, "console.log(1)", "p q");
    let plan = plan_for(&job);
    assert_eq!(plan.source_file, format!("{}/app.js", job.allocated_dir));
    assert!(plan.build.is_none());
    assert_eq!(plan.run.program, "bun");
    assert_eq!(
        plan.run.args,
        vec![String::from("run"), String::from("app.js"), String::from("p"), String::from("q")]
    );
    assert_eq!(plan.run.cwd, job.allocated_dir);
}

#[test]
fn shell_plan_skips_build_and_runs_script_in_sandbox() {
    let job = job_for(Languages::Shell, "echo hi", "first second");
    let plan = plan_for(&job);
    assert_eq!(plan.source_file, format!("{}/run.sh", job.allocated_dir));
    assert!(plan.setup.is_empty());
    assert!(plan.build.is_none());
    assert_eq!(plan.run.program, "sh");
    assert_eq!(
        plan.run.args,
        vec![
            String::from("-x"),
            String::from("run.sh"),
            String::from("first"),
            String::from("second")
        ]
    );
    assert_eq!(plan.run.cwd, job.allocated_dir);
}
