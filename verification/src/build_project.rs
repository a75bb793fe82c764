//! Making the derived project buildable: the commands that format, check and
//! build it, the rewriting of its manifest, and the materializing of its
//! local dependencies.
//!
//! Nothing here touches the file system or starts a process: the functions
//! say what is to be run, written, linked or copied.
use vstd::prelude::*;
use vstd::string::*;

use crate::archive::{is_portable_name, portable_name};
use crate::distributed_platform::{DistributionError, DistributionResult};
use crate::text::{concat2, concat3, str_eq, views};

verus! {

/// Name of the directory, inside a derived project, that holds its local
/// dependencies.
pub const LOCAL_DEPS_DIR: &'static str = ".local_deps";

/// Suffix that the name of a derived package carries.
pub const PACKAGE_SUFFIX: &'static str = "_turbolift";

/// A program to run, with its arguments, in a directory.
#[derive(Debug)]
pub struct CommandLine {
    pub program: String,
    pub args: Vec<String>,
    pub current_dir: String,
}

impl CommandLine {
    /// Whether this is the call of `program` with `args` in `current_dir`.
    pub open spec fn is(&self, program: Seq<char>, args: Seq<Seq<char>>, current_dir: Seq<char>) -> bool {
        &&& self.program@ == program
        &&& views(self.args@) == args
        &&& self.current_dir@ == current_dir
    }
}

/// A command, and what to report when it fails.
#[derive(Debug)]
pub struct Step {
    pub command: CommandLine,
    pub failure: String,
}

/// How a project is built: the build command, and where the binary is moved
/// from and to afterwards, if anywhere.
#[derive(Debug)]
pub struct ExecutablePlan {
    pub build: Step,
    pub rename: Option<(String, String)>,
}

/// Directory, below a project, into which a build puts its binaries.
pub open spec fn target_dir_spec(release: bool) -> Seq<char> {
    if release {
        "target/release/"@
    } else {
        "target/debug/"@
    }
}

/// Arguments of `cargo` for a build.
pub open spec fn build_args_spec(release: bool) -> Seq<Seq<char>> {
    if release {
        seq!["build"@, "--release"@]
    } else {
        seq!["build"@]
    }
}

/// Path of the binary of the package `package_name` after a build of the
/// project at `proj_path`.
pub open spec fn executable_path_spec(
    proj_path: Seq<char>,
    package_name: Seq<char>,
    release: bool,
) -> Seq<char> {
    proj_path + "/"@ + target_dir_spec(release) + package_name
}

/// The outcome of a step: success where the command succeeded, else a build
/// error with the step's report.
pub fn step_result(step: &Step, success: bool) -> (r: DistributionResult<()>)
    ensures
        match r {
            Ok(_) => success,
            Err(e) => {
                &&& !success
                &&& e matches DistributionError::BuildStep(why) && why@ == step.failure@
            },
        },
{
    if success {
        Ok(())
    } else {
        Err(DistributionError::BuildStep(step.failure.clone()))
    }
}

/// The commands that format the project at `proj_path`, to be run in this
/// order, each only after the one before it succeeded: the formatter is
/// installed, then run inside the project.
pub fn lint(proj_path: &str) -> (steps: Vec<Step>)
    ensures
        steps.len() == 2,
        steps[0].command.is("rustup"@, seq!["component"@, "add"@, "rustfmt"@], "."@),
        steps[0].failure@ == "rustfmt install failed"@,
        steps[1].command.is("cargo"@, seq!["fmt"@], proj_path@),
        steps[1].failure@ == "rustfmt fix failed"@,
{
    let mut install_args: Vec<String> = Vec::new();
    install_args.push(String::from_str("component"));
    install_args.push(String::from_str("add"));
    install_args.push(String::from_str("rustfmt"));
    assert(views(install_args@) =~= seq!["component"@, "add"@, "rustfmt"@]);
    let mut fmt_args: Vec<String> = Vec::new();
    fmt_args.push(String::from_str("fmt"));
    assert(views(fmt_args@) =~= seq!["fmt"@]);
    let mut steps: Vec<Step> = Vec::new();
    steps.push(
        Step {
            command: CommandLine {
                program: String::from_str("rustup"),
                args: install_args,
                current_dir: String::from_str("."),
            },
            failure: String::from_str("rustfmt install failed"),
        },
    );
    steps.push(
        Step {
            command: CommandLine {
                program: String::from_str("cargo"),
                args: fmt_args,
                current_dir: String::from_str(proj_path),
            },
            failure: String::from_str("rustfmt fix failed"),
        },
    );
    steps
}

/// The command that checks the project at `proj_path`.
pub fn check(proj_path: &str) -> (step: Step)
    ensures
        step.command.is("cargo"@, seq!["check"@], proj_path@),
        step.failure@ == "cargo check failed"@,
{
    let mut args: Vec<String> = Vec::new();
    args.push(String::from_str("check"));
    assert(views(args@) =~= seq!["check"@]);
    Step {
        command: CommandLine {
            program: String::from_str("cargo"),
            args,
            current_dir: String::from_str(proj_path),
        },
        failure: String::from_str("cargo check failed"),
    }
}

/// How the project at `proj_path`, whose package is `package_name`, is
/// built, as a release build or not. With a destination the binary is moved
/// there from the build's output directory after the build.
pub fn make_executable(
    proj_path: &str,
    package_name: &str,
    dest: Option<&str>,
    release: bool,
) -> (plan: ExecutablePlan)
    ensures
        plan.build.command.is("cargo"@, build_args_spec(release), proj_path@),
        plan.build.failure@ == "cargo build failed"@,
        match dest {
            Some(d) => plan.rename matches Some(r) && r.0@ == executable_path_spec(
                proj_path@,
                package_name@,
                release,
            ) && r.1@ == d@,
            None => plan.rename is None,
        },
{
    let mut args: Vec<String> = Vec::new();
    args.push(String::from_str("build"));
    if release {
        args.push(String::from_str("--release"));
    }
    assert(views(args@) =~= build_args_spec(release));
    let build = Step {
        command: CommandLine {
            program: String::from_str("cargo"),
            args,
            current_dir: String::from_str(proj_path),
        },
        failure: String::from_str("cargo build failed"),
    };
    let rename = match dest {
        Some(d) => {
            let mut from = String::from_str(proj_path);
            from.append("/");
            from.append(if release { "target/release/" } else { "target/debug/" });
            from.append(package_name);
            Some((from, String::from_str(d)))
        },
        None => None,
    };
    ExecutablePlan { build, rename }
}

/// A dependency written out: its version and its path, where it has them.
#[derive(Debug)]
pub struct DependencyFull {
    pub version: Option<String>,
    pub path: Option<String>,
}

/// A dependency as a manifest states it: in short, by its version alone, or
/// written out.
#[derive(Debug)]
pub enum Dependency {
    Simple(String),
    Full(DependencyFull),
}

/// A dependency under its name.
#[derive(Debug)]
pub struct NamedDependency {
    pub name: String,
    pub dependency: Dependency,
}

/// What of a project's manifest the derivation reads and writes: the name of
/// the package and its dependencies, in the order of the manifest.
#[derive(Debug)]
pub struct CargoToml {
    pub package_name: String,
    pub dependencies: Option<Vec<NamedDependency>>,
}

/// A path dependency to materialize inside the derived project: its name,
/// where the caller's manifest says it lies, and where it is to lie below the
/// derived project.
#[derive(Debug)]
pub struct LocalDep {
    pub name: String,
    pub source: String,
    pub location: String,
}

/// The view of an optional string.
pub open spec fn opt_view(o: Option<String>) -> Option<Seq<char>> {
    match o {
        Some(s) => Some(s@),
        None => None,
    }
}

/// Whether the dependency is given by a path.
pub open spec fn has_path(d: Dependency) -> bool {
    d matches Dependency::Full(f) && f.path is Some
}

/// The path of a dependency that is given by one.
pub open spec fn path_of(d: Dependency) -> Seq<char> {
    match d {
        Dependency::Full(f) => match f.path {
            Some(p) => p@,
            None => Seq::empty(),
        },
        Dependency::Simple(_) => Seq::empty(),
    }
}

/// Whether `c` parts the components of a path.
pub open spec fn is_separator(c: char) -> bool {
    c == '/' || c == '\\'
}

/// The length of `path` without the separators at its end.
pub open spec fn trimmed_len(path: Seq<char>) -> nat
    decreases path.len(),
{
    if path.len() > 0 && is_separator(path.last()) {
        trimmed_len(path.drop_last())
    } else {
        path.len()
    }
}

/// Where the component of `path` that ends before `end` begins: behind the
/// last separator before `end`, or at the beginning.
pub open spec fn leaf_start(path: Seq<char>, end: nat) -> nat
    decreases end,
{
    if end == 0 || is_separator(path[end - 1]) {
        end
    } else {
        leaf_start(path, (end - 1) as nat)
    }
}

/// The name of the directory that `path` leads to: its last component,
/// separators at the end left aside.
pub open spec fn leaf_spec(path: Seq<char>) -> Seq<char> {
    let end = trimmed_len(path);
    path.subrange(leaf_start(path, end) as int, end as int)
}

/// Whether two path dependencies are in each other's way: they have the
/// same name, and so the same place below the derived project, or their
/// paths lead to directories of the same name.
pub open spec fn same_leaf(a: NamedDependency, b: NamedDependency) -> bool {
    a.name@ == b.name@ || leaf_spec(path_of(a.dependency)) == leaf_spec(path_of(b.dependency))
}

/// Whether the path dependency at `j` is in the way of a path dependency
/// before it.
pub open spec fn collides_at(deps: Seq<NamedDependency>, j: int) -> bool {
    &&& 0 <= j < deps.len()
    &&& has_path(deps[j].dependency)
    &&& exists|i: int|
        0 <= i < j && has_path((#[trigger] deps[i]).dependency) && same_leaf(deps[i], deps[j])
}

/// Whether the dependency at `j` is a path dependency whose name cannot name
/// a directory among the local dependencies.
pub open spec fn misnamed_at(deps: Seq<NamedDependency>, j: int) -> bool {
    &&& 0 <= j < deps.len()
    &&& has_path(deps[j].dependency)
    &&& !portable_name(deps[j].name@)
}

/// Whether a path dependency has a name that cannot name a directory.
pub open spec fn has_misnamed(deps: Seq<NamedDependency>) -> bool {
    exists|j: int| #[trigger] misnamed_at(deps, j)
}

/// Whether two path dependencies are in each other's way.
pub open spec fn has_collision(deps: Seq<NamedDependency>) -> bool {
    exists|j: int| #[trigger] collides_at(deps, j)
}

/// Where the local dependency `name` lies, as seen from the derived
/// project's manifest.
pub open spec fn local_path_spec(name: Seq<char>) -> Seq<char> {
    "./"@ + LOCAL_DEPS_DIR@ + "/"@ + name
}

/// Whether `new` is `old` as the derived manifest states it: written out,
/// with the same version, and with the path, where it has one, pointing into
/// the derived project's local dependencies.
pub open spec fn rewritten(old: NamedDependency, new: NamedDependency) -> bool {
    &&& new.name@ == old.name@
    &&& new.dependency matches Dependency::Full(f) && match old.dependency {
        Dependency::Simple(v) => f.version matches Some(x) && x@ == v@ && f.path is None,
        Dependency::Full(o) => opt_view(f.version) == opt_view(o.version) && match o.path {
            Some(_) => f.path matches Some(p) && p@ == local_path_spec(old.name@),
            None => f.path is None,
        },
    }
}

/// The dependencies that every derived project needs, each with its version:
/// the HTTP server, JSON, unique identifiers and the asynchronous runtime.
pub open spec fn pinned_spec() -> Seq<(Seq<char>, Seq<char>)> {
    seq![("actix-web"@, "4"@), ("serde_json"@, "1"@), ("uuid"@, "1"@), ("tokio"@, "1"@)]
}

/// Whether `name` is the name of one of `deps`.
pub open spec fn names_contain(deps: Seq<NamedDependency>, name: Seq<char>) -> bool {
    exists|i: int| 0 <= i < deps.len() && (#[trigger] deps[i]).name@ == name
}

/// Those of `pinned` that `present` does not name, in order.
pub open spec fn missing_spec(
    pinned: Seq<(Seq<char>, Seq<char>)>,
    present: Seq<NamedDependency>,
) -> Seq<(Seq<char>, Seq<char>)>
    decreases pinned.len(),
{
    if pinned.len() == 0 {
        Seq::empty()
    } else if names_contain(present, pinned.last().0) {
        missing_spec(pinned.drop_last(), present)
    } else {
        missing_spec(pinned.drop_last(), present).push(pinned.last())
    }
}

/// Whether `d` is the dependency `pinned`, written out with its version.
pub open spec fn is_pinned(d: NamedDependency, pinned: (Seq<char>, Seq<char>)) -> bool {
    &&& d.name@ == pinned.0
    &&& d.dependency matches Dependency::Full(f) && f.version matches Some(v) && v@ == pinned.1
        && f.path is None
}

/// The path dependencies among `deps`, in order, each with its name and its
/// path.
pub open spec fn local_deps_spec(deps: Seq<NamedDependency>) -> Seq<(Seq<char>, Seq<char>)>
    decreases deps.len(),
{
    if deps.len() == 0 {
        Seq::empty()
    } else if has_path(deps.last().dependency) {
        local_deps_spec(deps.drop_last()).push(
            (deps.last().name@, path_of(deps.last().dependency)),
        )
    } else {
        local_deps_spec(deps.drop_last())
    }
}

/// The dependencies of a manifest; none where it has no such table.
pub open spec fn deps_of(manifest: CargoToml) -> Seq<NamedDependency> {
    match manifest.dependencies {
        Some(d) => d@,
        None => Seq::empty(),
    }
}

/// Whether the dependency is given by a path.
pub fn is_path_dependency(d: &Dependency) -> (b: bool)
    ensures
        b == has_path(*d),
{
    match d {
        Dependency::Full(f) => f.path.is_some(),
        Dependency::Simple(_) => false,
    }
}

/// The name of the directory that `path` leads to.
pub fn leaf(path: &str) -> (r: Vec<char>)
    ensures
        r@ == leaf_spec(path@),
{
    let chars = crate::text::to_chars(path);
    let mut end: usize = chars.len();
    assert(chars@.take(end as int) =~= chars@);
    while end > 0 && (chars[end - 1] == '/' || chars[end - 1] == '\\')
        invariant
            end <= chars.len(),
            trimmed_len(chars@) == trimmed_len(chars@.take(end as int)),
        decreases end,
    {
        assert(chars@.take(end as int).drop_last() =~= chars@.take(end - 1));
        end -= 1;
    }
    assert(trimmed_len(chars@) == end);
    let mut start: usize = end;
    while start > 0 && !(chars[start - 1] == '/' || chars[start - 1] == '\\')
        invariant
            start <= end <= chars.len(),
            leaf_start(chars@, end as nat) == leaf_start(chars@, start as nat),
        decreases start,
    {
        start -= 1;
    }
    let mut r: Vec<char> = Vec::new();
    let mut k: usize = start;
    while k < end
        invariant
            start <= k <= end <= chars.len(),
            r@ == chars@.subrange(start as int, k as int),
        decreases end - k,
    {
        r.push(chars[k]);
        k += 1;
    }
    r
}

/// The path of a path dependency; the empty text for any other.
pub fn dependency_path(d: &Dependency) -> (r: String)
    ensures
        r@ == path_of(*d),
{
    match d {
        Dependency::Full(f) => match &f.path {
            Some(p) => p.clone(),
            None => String::new(),
        },
        Dependency::Simple(_) => String::new(),
    }
}

/// The first path dependency that is in the way of a path dependency before
/// it, if there is one.
pub fn find_collision(deps: &Vec<NamedDependency>) -> (r: Option<usize>)
    ensures
        match r {
            Some(j) => collides_at(deps@, j as int) && forall|k: int|
                0 <= k < j ==> !collides_at(deps@, k),
            None => !has_collision(deps@),
        },
{
    let mut j: usize = 0;
    while j < deps.len()
        invariant
            j <= deps.len(),
            forall|k: int| 0 <= k < j ==> !collides_at(deps@, k),
        decreases deps.len() - j,
    {
        if is_path_dependency(&deps[j].dependency) {
            let path = dependency_path(&deps[j].dependency);
            let own = leaf(path.as_str());
            let mut i: usize = 0;
            while i < j
                invariant
                    i <= j < deps.len(),
                    has_path(deps@[j as int].dependency),
                    own@ == leaf_spec(path_of(deps@[j as int].dependency)),
                    forall|k: int| 0 <= k < j ==> !collides_at(deps@, k),
                    forall|k: int|
                        0 <= k < i ==> !(has_path((#[trigger] deps@[k]).dependency) && same_leaf(
                            deps@[k],
                            deps@[j as int],
                        )),
                decreases j - i,
            {
                if is_path_dependency(&deps[i].dependency) {
                    let other_path = dependency_path(&deps[i].dependency);
                    let other = leaf(other_path.as_str());
                    if str_eq(deps[i].name.as_str(), deps[j].name.as_str()) || crate::text::chars_eq(
                        &other,
                        &own,
                    ) {
                        assert(has_path(deps@[i as int].dependency) && same_leaf(
                            deps@[i as int],
                            deps@[j as int],
                        ));
                        return Some(j);
                    }
                }
                i += 1;
            }
        }
        j += 1;
    }
    None
}

/// The first path dependency whose name cannot name a directory, if there
/// is one.
pub fn find_misnamed(deps: &Vec<NamedDependency>) -> (r: Option<usize>)
    ensures
        match r {
            Some(j) => misnamed_at(deps@, j as int) && forall|k: int|
                0 <= k < j ==> !misnamed_at(deps@, k),
            None => !has_misnamed(deps@),
        },
{
    let mut j: usize = 0;
    while j < deps.len()
        invariant
            j <= deps.len(),
            forall|k: int| 0 <= k < j ==> !misnamed_at(deps@, k),
        decreases deps.len() - j,
    {
        if is_path_dependency(&deps[j].dependency) && !is_portable_name(deps[j].name.as_str()) {
            return Some(j);
        }
        j += 1;
    }
    None
}

/// The dependency as the derived manifest states it.
pub fn rewrite_dependency(old: &NamedDependency) -> (new: NamedDependency)
    ensures
        rewritten(*old, new),
{
    let full = match &old.dependency {
        Dependency::Simple(v) => DependencyFull { version: Some(v.clone()), path: None },
        Dependency::Full(o) => {
            let version = match &o.version {
                Some(v) => Some(v.clone()),
                None => None,
            };
            let path = match &o.path {
                Some(_) => {
                    let mut p = String::from_str("./");
                    p.append(LOCAL_DEPS_DIR);
                    p.append("/");
                    p.append(old.name.as_str());
                    Some(p)
                },
                None => None,
            };
            DependencyFull { version, path }
        },
    };
    NamedDependency { name: old.name.clone(), dependency: Dependency::Full(full) }
}

/// The dependencies that every derived project needs, each with its version.
pub fn pinned_dependencies() -> (pinned: Vec<(String, String)>)
    ensures
        pinned.len() == pinned_spec().len(),
        forall|i: int|
            0 <= i < pinned.len() ==> (#[trigger] pinned[i]).0@ == pinned_spec()[i].0 && pinned[i].1@
                == pinned_spec()[i].1,
{
    let mut pinned: Vec<(String, String)> = Vec::new();
    pinned.push((String::from_str("actix-web"), String::from_str("4")));
    pinned.push((String::from_str("serde_json"), String::from_str("1")));
    pinned.push((String::from_str("uuid"), String::from_str("1")));
    pinned.push((String::from_str("tokio"), String::from_str("1")));
    pinned
}

/// Whether `name` is the name of one of `deps`.
pub fn has_dependency(deps: &Vec<NamedDependency>, name: &str) -> (b: bool)
    ensures
        b == names_contain(deps@, name@),
{
    let mut i: usize = 0;
    while i < deps.len()
        invariant
            i <= deps.len(),
            forall|k: int| 0 <= k < i ==> (#[trigger] deps@[k]).name@ != name@,
        decreases deps.len() - i,
    {
        if str_eq(deps[i].name.as_str(), name) {
            return true;
        }
        i += 1;
    }
    false
}

/// The manifest of the derived project of `function_name`, made from the
/// caller's manifest, and the path dependencies to materialize inside the
/// derived project.
///
/// The package is named after the function, with a suffix that keeps it apart
/// from the caller's package. Every dependency is written out. A path
/// dependency points to its place among the derived project's local
/// dependencies, which is named after the dependency. The dependencies that
/// every service needs follow, where the manifest does not name them already.
///
/// A path dependency whose name cannot name a directory is refused, so that
/// no path of the derived manifest leads out of the local dependencies. Two
/// path dependencies whose paths lead to directories of one name, or that
/// have one name themselves, are in each other's way: the manifest is then
/// refused, with the name of the first dependency that is in another's way.
pub fn edit_cargo_file(manifest: &CargoToml, function_name: &str) -> (r: DistributionResult<
    (CargoToml, Vec<LocalDep>),
>)
    ensures
        match r {
            Ok((derived, locals)) => {
                let old = deps_of(*manifest);
                let added = missing_spec(pinned_spec(), old);
                &&& !has_misnamed(old)
                &&& !has_collision(old)
                &&& derived.package_name@ == function_name@ + PACKAGE_SUFFIX@
                &&& derived.dependencies matches Some(new) && {
                    &&& new.len() == old.len() + added.len()
                    &&& forall|i: int| 0 <= i < old.len() ==> rewritten(old[i], #[trigger] new[i])
                    &&& forall|i: int|
                        0 <= i < added.len() ==> is_pinned(#[trigger] new[old.len() + i], added[i])
                }
                &&& locals.len() == local_deps_spec(old).len()
                &&& forall|i: int|
                    0 <= i < locals.len() ==> {
                        &&& (#[trigger] locals[i]).name@ == local_deps_spec(old)[i].0
                        &&& locals[i].source@ == local_deps_spec(old)[i].1
                        &&& locals[i].location@ == LOCAL_DEPS_DIR@ + "/"@ + locals[i].name@
                    }
            },
            Err(e) => {
                let old = deps_of(*manifest);
                if has_misnamed(old) {
                    e matches DistributionError::DependencyName(n) && exists|j: int|
                        {
                            &&& #[trigger] misnamed_at(old, j)
                            &&& forall|k: int| 0 <= k < j ==> !misnamed_at(old, k)
                            &&& n@ == old[j].name@
                        }
                } else {
                    &&& has_collision(old)
                    &&& e matches DistributionError::NameCollision(n) && exists|j: int|
                        {
                            &&& #[trigger] collides_at(old, j)
                            &&& forall|k: int| 0 <= k < j ==> !collides_at(old, k)
                            &&& n@ == old[j].name@
                        }
                }
            },
        },
{
    let empty: Vec<NamedDependency> = Vec::new();
    let deps: &Vec<NamedDependency> = match &manifest.dependencies {
        Some(d) => d,
        None => &empty,
    };
    match find_misnamed(deps) {
        Some(j) => {
            return Err(DistributionError::DependencyName(deps[j].name.clone()));
        },
        None => {},
    }
    match find_collision(deps) {
        Some(j) => {
            return Err(DistributionError::NameCollision(deps[j].name.clone()));
        },
        None => {},
    }
    let mut new: Vec<NamedDependency> = Vec::new();
    let mut locals: Vec<LocalDep> = Vec::new();
    let mut i: usize = 0;
    while i < deps.len()
        invariant
            i <= deps.len(),
            new.len() == i,
            forall|k: int| 0 <= k < i ==> rewritten(deps@[k], #[trigger] new[k]),
            locals.len() == local_deps_spec(deps@.take(i as int)).len(),
            forall|k: int|
                0 <= k < locals.len() ==> {
                    &&& (#[trigger] locals[k]).name@ == local_deps_spec(deps@.take(i as int))[k].0
                    &&& locals[k].source@ == local_deps_spec(deps@.take(i as int))[k].1
                    &&& locals[k].location@ == LOCAL_DEPS_DIR@ + "/"@ + locals[k].name@
                },
        decreases deps.len() - i,
    {
        proof {
            assert(deps@.take(i + 1).drop_last() =~= deps@.take(i as int));
        }
        new.push(rewrite_dependency(&deps[i]));
        match &deps[i].dependency {
            Dependency::Full(f) => match &f.path {
                Some(p) => {
                    locals.push(
                        LocalDep {
                            name: deps[i].name.clone(),
                            source: p.clone(),
                            location: concat3(LOCAL_DEPS_DIR, "/", deps[i].name.as_str()),
                        },
                    );
                },
                None => {},
            },
            Dependency::Simple(_) => {},
        }
        i += 1;
    }
    assert(deps@.take(deps.len() as int) == deps@);
    let pinned = pinned_dependencies();
    let ghost old = deps@;
    let ghost n = deps.len() as int;
    let mut p: usize = 0;
    while p < pinned.len()
        invariant
            p <= pinned.len(),
            pinned.len() == pinned_spec().len(),
            forall|k: int|
                0 <= k < pinned.len() ==> (#[trigger] pinned[k]).0@ == pinned_spec()[k].0
                    && pinned[k].1@ == pinned_spec()[k].1,
            old == deps@,
            n == old.len(),
            new.len() == n + missing_spec(pinned_spec().take(p as int), old).len(),
            forall|k: int| 0 <= k < n ==> rewritten(old[k], #[trigger] new[k]),
            forall|k: int|
                0 <= k < missing_spec(pinned_spec().take(p as int), old).len() ==> is_pinned(
                    #[trigger] new[n + k],
                    missing_spec(pinned_spec().take(p as int), old)[k],
                ),
        decreases pinned.len() - p,
    {
        proof {
            assert(pinned_spec().take(p + 1).drop_last() =~= pinned_spec().take(p as int));
        }
        if !has_dependency(deps, pinned[p].0.as_str()) {
            new.push(
                NamedDependency {
                    name: pinned[p].0.clone(),
                    dependency: Dependency::Full(
                        DependencyFull { version: Some(pinned[p].1.clone()), path: None },
                    ),
                },
            );
        }
        p += 1;
    }
    assert(pinned_spec().take(pinned.len() as int) == pinned_spec());
    let derived = CargoToml {
        package_name: concat2(function_name, PACKAGE_SUFFIX),
        dependencies: Some(new),
    };
    Ok((derived, locals))
}

/// What is to be done for a local dependency's place below the derived
/// project.
#[derive(Debug, Clone, Copy, PartialEq, Eq, Structural)]
pub enum DepAction {
    /// The place already leads to the dependency: nothing is done.
    Keep,
    /// A symbolic link to the dependency is made.
    Link,
    /// The dependency is copied, without the derived projects and build
    /// outputs that lie inside it.
    Copy,
}

/// What is to be done for a local dependency: whether what lies at its place
/// is removed first, and what is put there.
#[derive(Debug, Clone, Copy, PartialEq, Eq, Structural)]
pub struct DepPlan {
    pub remove_stale: bool,
    pub action: DepAction,
}

/// What is to be done for a local dependency, from what was found on disk:
/// whether its place exists, whether that place leads to the dependency, and
/// whether the dependency is the project or a directory above it.
///
/// A place that leads to the dependency is kept. Anything else at the place is
/// removed. A dependency that holds the project is copied, since a link to it
/// would make a cycle; any other is linked.
pub fn plan_local_dep(exists: bool, leads_to_dependency: bool, is_ancestor: bool) -> (plan: DepPlan)
    ensures
        plan.remove_stale == (exists && !leads_to_dependency),
        plan.action == if exists && leads_to_dependency {
            DepAction::Keep
        } else if is_ancestor {
            DepAction::Copy
        } else {
            DepAction::Link
        },
{
    if exists && leads_to_dependency {
        DepPlan { remove_stale: false, action: DepAction::Keep }
    } else if is_ancestor {
        DepPlan { remove_stale: exists, action: DepAction::Copy }
    } else {
        DepPlan { remove_stale: exists, action: DepAction::Link }
    }
}

/// Whether the first `k` components of `path` are the components of `other`.
pub fn prefix_eq(path: &Vec<String>, k: usize, other: &Vec<String>) -> (b: bool)
    requires
        k <= path.len(),
    ensures
        b == (views(path@).take(k as int) == views(other@)),
{
    if other.len() != k {
        assert(views(path@).take(k as int).len() != views(other@).len());
        return false;
    }
    let mut i: usize = 0;
    while i < k
        invariant
            i <= k <= path.len(),
            other.len() == k,
            forall|j: int| 0 <= j < i ==> (#[trigger] path@[j])@ == other@[j]@,
        decreases k - i,
    {
        if !str_eq(path[i].as_str(), other[i].as_str()) {
            assert(views(path@).take(k as int)[i as int] != views(other@)[i as int]);
            return false;
        }
        i += 1;
    }
    assert(views(path@).take(k as int) =~= views(other@));
    true
}

/// Whether the directory with the components `dependency` is the directory
/// with the components `project`, or one above it.
pub fn is_ancestor(dependency: &Vec<String>, project: &Vec<String>) -> (b: bool)
    ensures
        b == views(dependency@).is_prefix_of(views(project@)),
{
    if dependency.len() > project.len() {
        return false;
    }
    let b = prefix_eq(project, dependency.len(), dependency);
    proof {
        let d = views(dependency@);
        let p = views(project@);
    }
    b
}

/// An entry of a directory tree: the components of its path below the root of
/// the tree, and whether it is a directory.
#[derive(Debug)]
pub struct FsEntry {
    pub path: Vec<String>,
    pub is_dir: bool,
}

/// The views of the paths, in order.
pub open spec fn path_views(paths: Seq<Vec<String>>) -> Seq<Seq<Seq<char>>> {
    Seq::new(paths.len(), |i: int| views(paths[i]@))
}

/// Whether the first `k` components of `path` name something that is left
/// out: its path is one of `exclude_paths`, or its name one of
/// `exclude_names`.
pub open spec fn excluded_at(
    path: Seq<Seq<char>>,
    k: int,
    exclude_paths: Seq<Seq<Seq<char>>>,
    exclude_names: Seq<Seq<char>>,
) -> bool {
    &&& 1 <= k <= path.len()
    &&& (exclude_paths.contains(path.take(k)) || exclude_names.contains(path[k - 1]))
}

/// Whether the entry at `path` is left out: it is itself left out, or lies
/// below a directory that is.
pub open spec fn is_excluded(
    path: Seq<Seq<char>>,
    exclude_paths: Seq<Seq<Seq<char>>>,
    exclude_names: Seq<Seq<char>>,
) -> bool {
    exists|k: int| #[trigger] excluded_at(path, k, exclude_paths, exclude_names)
}

/// The entries that are not left out, in order, each as its path and whether
/// it is a directory.
pub open spec fn kept_spec(
    entries: Seq<FsEntry>,
    exclude_paths: Seq<Seq<Seq<char>>>,
    exclude_names: Seq<Seq<char>>,
) -> Seq<(Seq<Seq<char>>, bool)>
    decreases entries.len(),
{
    if entries.len() == 0 {
        Seq::empty()
    } else {
        let last = entries.last();
        let before = kept_spec(entries.drop_last(), exclude_paths, exclude_names);
        if is_excluded(views(last.path@), exclude_paths, exclude_names) {
            before
        } else {
            before.push((views(last.path@), last.is_dir))
        }
    }
}

/// Whether `name` is one of `names`.
pub fn name_is_listed(names: &Vec<String>, name: &str) -> (b: bool)
    ensures
        b == views(names@).contains(name@),
{
    let mut i: usize = 0;
    while i < names.len()
        invariant
            i <= names.len(),
            forall|j: int| 0 <= j < i ==> (#[trigger] views(names@)[j]) != name@,
        decreases names.len() - i,
    {
        if str_eq(names[i].as_str(), name) {
            assert(views(names@)[i as int] == name@);
            return true;
        }
        i += 1;
    }
    false
}

/// Whether the first `k` components of `path` are one of `paths`.
pub fn prefix_is_listed(paths: &Vec<Vec<String>>, path: &Vec<String>, k: usize) -> (b: bool)
    requires
        k <= path.len(),
    ensures
        b == path_views(paths@).contains(views(path@).take(k as int)),
{
    let mut i: usize = 0;
    while i < paths.len()
        invariant
            i <= paths.len(),
            k <= path.len(),
            forall|j: int|
                0 <= j < i ==> (#[trigger] path_views(paths@)[j]) != views(path@).take(k as int),
        decreases paths.len() - i,
    {
        if prefix_eq(path, k, &paths[i]) {
            assert(path_views(paths@)[i as int] == views(path@).take(k as int));
            return true;
        }
        i += 1;
    }
    false
}

/// Whether the entry at `path` is left out.
pub fn path_is_excluded(
    path: &Vec<String>,
    exclude_paths: &Vec<Vec<String>>,
    exclude_names: &Vec<String>,
) -> (b: bool)
    ensures
        b == is_excluded(views(path@), path_views(exclude_paths@), views(exclude_names@)),
{
    let mut k: usize = 0;
    while k < path.len()
        invariant
            k <= path.len(),
            forall|j: int|
                1 <= j <= k ==> !#[trigger] excluded_at(
                    views(path@),
                    j,
                    path_views(exclude_paths@),
                    views(exclude_names@),
                ),
        decreases path.len() - k,
    {
        if prefix_is_listed(exclude_paths, path, k + 1) || name_is_listed(
            exclude_names,
            path[k].as_str(),
        ) {
            assert(excluded_at(
                views(path@),
                k + 1,
                path_views(exclude_paths@),
                views(exclude_names@),
            ));
            return true;
        }
        k += 1;
    }
    false
}

/// The entries of a directory tree that a copy of it holds, in the order in
/// which they were found: a directory is made, a file is copied. An entry is
/// left out where its path is one of `exclude_paths` or its name one of
/// `exclude_file_names`, and so is everything below such a directory.
pub fn exclusive_recursive_copy(
    entries: &Vec<FsEntry>,
    exclude_paths: &Vec<Vec<String>>,
    exclude_file_names: &Vec<String>,
) -> (kept: Vec<FsEntry>)
    ensures
        kept.len() == kept_spec(
            entries@,
            path_views(exclude_paths@),
            views(exclude_file_names@),
        ).len(),
        forall|i: int|
            0 <= i < kept.len() ==> (views((#[trigger] kept[i]).path@), kept[i].is_dir)
                == kept_spec(entries@, path_views(exclude_paths@), views(exclude_file_names@))[i],
{
    let mut kept: Vec<FsEntry> = Vec::new();
    let mut i: usize = 0;
    while i < entries.len()
        invariant
            i <= entries.len(),
            kept.len() == kept_spec(
                entries@.take(i as int),
                path_views(exclude_paths@),
                views(exclude_file_names@),
            ).len(),
            forall|j: int|
                0 <= j < kept.len() ==> (views((#[trigger] kept[j]).path@), kept[j].is_dir)
                    == kept_spec(
                    entries@.take(i as int),
                    path_views(exclude_paths@),
                    views(exclude_file_names@),
                )[j],
        decreases entries.len() - i,
    {
        proof {
            assert(entries@.take(i + 1).drop_last() =~= entries@.take(i as int));
        }
        if !path_is_excluded(&entries[i].path, exclude_paths, exclude_file_names) {
            let path = entries[i].path.clone();
            kept.push(FsEntry { path, is_dir: entries[i].is_dir });
        }
        i += 1;
    }
    assert(entries@.take(entries.len() as int) == entries@);
    kept
}

/// The names that the copy of a dependency leaves out, so that it holds
/// neither derived projects nor build outputs: the cache directory and the
/// directory of the build output.
pub open spec fn copy_exclusions_spec() -> Seq<Seq<char>> {
    seq![".turbolift"@, "target"@]
}

/// The names that the copy of a dependency leaves out.
pub fn copy_exclusions() -> (names: Vec<String>)
    ensures
        views(names@) == copy_exclusions_spec(),
{
    let mut names: Vec<String> = Vec::new();
    names.push(String::from_str(".turbolift"));
    names.push(String::from_str("target"));
    names
}

/// Whether an entry of the caller's project directory is copied into the
/// derived project: everything but the cache directory and the build output.
pub fn is_project_source(entry_name: &str) -> (b: bool)
    ensures
        b == (entry_name@ != ".turbolift"@ && entry_name@ != "target"@),
{
    !str_eq(entry_name, ".turbolift") && !str_eq(entry_name, "target")
}

/// No path of a derived manifest leads out of the local dependencies:
/// where a path dependency is rewritten and its name can name a directory,
/// its path is the directory of that name inside the derived project's local
/// dependencies.
pub proof fn lemma_rewritten_paths_are_local(old: NamedDependency, new: NamedDependency)
    requires
        rewritten(old, new),
        has_path(old.dependency) ==> portable_name(old.name@),
    ensures
        has_path(new.dependency) == has_path(old.dependency),
        has_path(new.dependency) ==> portable_name(new.name@) && path_of(new.dependency)
            == "./"@ + LOCAL_DEPS_DIR@ + "/"@ + new.name@,
{
}

} // verus!
