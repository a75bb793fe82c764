//! The derivation of a service from a marked function: the source of the
//! service's program, the order of the steps that make its project and its
//! bundle, and the source of the function that takes the marked function's
//! place in the caller.
use vstd::prelude::*;
use vstd::string::*;

use crate::build_project::{check, lint, make_executable, Step, PACKAGE_SUFFIX};
use crate::distributed_platform::{DistributionError, DistributionResult, StepOutcome};
use crate::extract_function::{
    args_view, clone_args, dummy_block_spec, dummy_output_spec, get_result_type,
    get_sanitized_file, has_receiver, item_text_of, make_dummy_function, output_text,
    params_json_vec, params_text_of, pat_of, render_item, render_params, result_type_spec,
    sanitized_spec, signature_text_of, span_within, to_param_types, to_path_params,
    to_untyped_params, ty_of, contains_receiver, entry_point_found, EntryPoint, FnArg, ItemFn,
    Signature,
};
use crate::text::{
    concat2, concat3, decimal, decimal_spec, from_chars, join, join_spec, lines_spec, to_chars,
    views, wrap_each,
};

verus! {

/// Name of the route's variable that holds the run id.
pub const RUN_ID_NAME: &'static str = "_turbolift_run_id";

/// Suffix of the name under which the marked function stands in its service.
pub const RAW_SUFFIX: &'static str = "_raw";

/// Name under which the marked function stands inside the function that
/// takes its place where nothing is distributed.
pub const WRAPPED_NAME: &'static str = "wrapped_function";

/// Service program: the health probe, and the handler up to the types of
/// its path.
pub const MAIN_HEALTH_PROBE: &'static str =
    "\n\nasync fn health_probe(_req: turbolift::actix_web::HttpRequest) -> impl turbolift::actix_web::Responder {\n    turbolift::actix_web::HttpResponse::Ok()\n}\n\n#[turbolift::tracing::instrument]\nasync fn turbolift_wrapper(path: turbolift::actix_web::web::Path<(";

/// Service program: between the types of the path and its variables.
pub const MAIN_UNPACK: &'static str =
    ",)>) -> turbolift::actix_web::HttpResponse {\n    let (";

/// Service program: between the variables of the path and the decoding of
/// the arguments.
pub const MAIN_DECODE: &'static str = ",) = path.into_inner();\n";

/// Service program: the decoding of one argument, up to its pattern.
pub const DECODE_LET: &'static str = "    let ";

/// Service program: the decoding of one argument, between its type and the
/// segment of the path that holds its JSON text.
pub const DECODE_FROM: &'static str = " = match turbolift::serde_json::from_str(&";

/// Service program: the decoding of one argument, after its segment. A
/// segment that is no JSON text of the type is answered as a bad request.
pub const DECODE_END: &'static str =
    ") {\n        Ok(value) => value,\n        Err(error) => {\n            return turbolift::actix_web::HttpResponse::BadRequest().body(error.to_string());\n        }\n    };\n";

/// Service program: between the decoding of the arguments and the call.
pub const MAIN_CALL: &'static str = "    turbolift::actix_web::HttpResponse::Ok().json(";

/// Beginning of the names under which the handler holds the segments of the
/// path that are arguments.
pub const SEGMENT_NAME: &'static str = "_turbolift_arg_";

/// Service program: between the call and the route of the handler.
pub const MAIN_SERVE: &'static str =
    "))\n}\n\nfn main() {\n    turbolift::actix_web::rt::System::new()\n        .block_on(async move {\n            let args: Vec<String> = std::env::args().collect();\n            let ip_and_port = &args[1];\n            turbolift::actix_web::HttpServer::new(|| {\n                turbolift::actix_web::App::new()\n                    .route(\"/";

/// Service program: the other routes, and the server.
pub const MAIN_ROUTES: &'static str =
    "\", turbolift::actix_web::web::get().to(turbolift_wrapper))\n                    .route(\"/health-probe\", turbolift::actix_web::web::get().to(health_probe))\n                    .default_service(turbolift::actix_web::web::get().to(\n                        |req: turbolift::actix_web::HttpRequest| async move {\n                            turbolift::actix_web::HttpResponse::NotFound()\n                                .body(format!(\"endpoint not found: {}\", req.uri()))\n                        },\n                    ))\n            })\n            .bind(ip_and_port)?\n            .run()\n            .await\n        })\n        .unwrap();\n}\n";

/// Replacing function: up to its name.
pub const STUB_HEAD: &'static str = "#[turbolift::tracing::instrument]\nasync fn ";

/// Replacing function: between its parameters and its result type.
pub const STUB_RESULT: &'static str = ") -> turbolift::DistributionResult<";

/// Replacing function: between its result type and the platform.
pub const STUB_LOCK: &'static str = "> {\n    let mut platform = ";

/// Replacing function: between the platform and the name of the function.
pub const STUB_CALL: &'static str =
    ".lock().await;\n    let resp_string = turbolift::call(\n        &mut *platform,\n        \"";

/// Replacing function: between the name of the function and the path of
/// the bundle.
pub const STUB_BUNDLE: &'static str = "\",\n        std::include_bytes!(\"";

/// Replacing function: between the path of the bundle and the arguments.
pub const STUB_PARAMS: &'static str = "\"),\n        &";

/// Replacing function: the end of the call, and the decoding of the answer.
pub const STUB_DECODE: &'static str =
    ",\n    )\n    .await?;\n    Ok(turbolift::serde_json::from_str(&resp_string)?)\n}\n";

/// Function that calls in place: between its result type and the function
/// that it holds.
pub const LOCAL_BODY: &'static str = "> {\n    ";

/// Function that calls in place: between the function that it holds and the
/// arguments of the call.
pub const LOCAL_CALL: &'static str = "\n    Ok(wrapped_function(";

/// Function that calls in place: its end.
pub const LOCAL_END: &'static str = "))\n}\n";

/// The route of a function's handler:
/// `<function name>/{<run id>}/{a}/{b}`.
pub open spec fn wrapper_route_spec(function_name: Seq<char>, untyped_params: Seq<Seq<char>>) -> Seq<
    char,
> {
    function_name + "/{"@ + RUN_ID_NAME@ + "}/"@ + join_spec(
        wrap_each(untyped_params, "{"@, "}"@),
        "/"@,
    )
}

/// `c` as it stands inside a string literal: a backslash before a backslash
/// and before a double quote.
pub open spec fn escape_char(c: char) -> Seq<char> {
    if c == '\\' || c == '"' {
        seq!['\\', c]
    } else {
        seq![c]
    }
}

/// `s` as it stands inside a string literal.
pub open spec fn escape_spec(s: Seq<char>) -> Seq<char>
    decreases s.len(),
{
    if s.len() == 0 {
        Seq::empty()
    } else {
        escape_spec(s.drop_last()) + escape_char(s.last())
    }
}

/// The source of a service's program. `sanitized` is the source context,
/// `dummy` the forwarder, `target` the marked function under its new name
/// `raw_name`. The handler takes the run id and the arguments out of the
/// path, each segment as text, decodes each argument from its JSON text,
/// calls the function and answers with its result as JSON; the program
/// serves the handler at `route` and the health probe, answers anything else
/// as not found, and binds to its first argument.
pub open spec fn main_file_spec(
    sanitized: Seq<char>,
    dummy: Seq<char>,
    target: Seq<char>,
    segment_types: Seq<Seq<char>>,
    segment_names: Seq<Seq<char>>,
    decodes: Seq<Seq<char>>,
    raw_name: Seq<char>,
    untyped_params: Seq<Seq<char>>,
    route: Seq<char>,
) -> Seq<char> {
    sanitized + "\n\n"@ + dummy + "\n\n"@ + target + MAIN_HEALTH_PROBE@ + join_spec(
        segment_types,
        ", "@,
    ) + MAIN_UNPACK@ + join_spec(segment_names, ", "@) + MAIN_DECODE@ + join_spec(decodes, ""@)
        + MAIN_CALL@ + raw_name + "("@ + join_spec(untyped_params, ", "@) + MAIN_SERVE@ + route
        + MAIN_ROUTES@
}

/// The name under which the handler holds the segment of argument `i`.
pub open spec fn segment_name_spec(i: nat) -> Seq<char> {
    SEGMENT_NAME@ + decimal_spec(i)
}

/// The names of the segments of the path: the run id, then the arguments.
pub open spec fn segment_names_spec(count: nat) -> Seq<Seq<char>> {
    seq![RUN_ID_NAME@] + Seq::new(count, |i: int| segment_name_spec(i as nat))
}

/// The types of the segments of the path: each is taken as text.
pub open spec fn segment_types_spec(count: nat) -> Seq<Seq<char>> {
    Seq::new(count + 1, |i: int| "String"@)
}

/// The decoding of each argument: the parameter, with its type, is the JSON
/// value that the argument's segment holds.
pub open spec fn decodes_spec(inputs: Seq<FnArg>) -> Seq<Seq<char>> {
    Seq::new(
        inputs.len(),
        |i: int|
            DECODE_LET@ + pat_of(inputs[i]) + ": "@ + ty_of(inputs[i]) + DECODE_FROM@
                + segment_name_spec(i as nat) + DECODE_END@,
    )
}

/// The source of the function that takes the marked function's place in the
/// caller: it has the function's name and parameters, is asynchronous, and
/// gives the function's result as that of a distributed call. It takes the
/// platform for itself, calls the function by its name, with the bundle at
/// `tar_path` and the JSON texts of its arguments, and decodes the answer.
pub open spec fn stub_spec(
    platform: Seq<char>,
    name: Seq<char>,
    typed_params: Seq<char>,
    result_type: Seq<char>,
    tar_path: Seq<char>,
    params_vec: Seq<char>,
) -> Seq<char> {
    STUB_HEAD@ + name + "("@ + typed_params + STUB_RESULT@ + result_type + STUB_LOCK@ + platform
        + STUB_CALL@ + name + STUB_BUNDLE@ + escape_spec(tar_path) + STUB_PARAMS@ + params_vec
        + STUB_DECODE@
}

/// The source of the function that takes the marked function's place where
/// nothing is distributed: it holds the function itself, under another
/// name, calls it and wraps the result.
pub open spec fn local_stub_spec(
    name: Seq<char>,
    typed_params: Seq<char>,
    result_type: Seq<char>,
    wrapped: Seq<char>,
    untyped_params: Seq<char>,
) -> Seq<char> {
    STUB_HEAD@ + name + "("@ + typed_params + STUB_RESULT@ + result_type + LOCAL_BODY@ + wrapped
        + LOCAL_CALL@ + untyped_params + LOCAL_END@
}

/// The route of a function's handler.
pub fn wrapper_route(function_name: &str, untyped_params: &Vec<String>) -> (r: String)
    ensures
        r@ == wrapper_route_spec(function_name@, views(untyped_params@)),
{
    let params = to_path_params(untyped_params);
    let mut r = String::from_str(function_name);
    r.append("/{");
    r.append(RUN_ID_NAME);
    r.append("}/");
    r.append(params.as_str());
    r
}

/// `s` as it stands inside a string literal.
pub fn escape(s: &str) -> (r: String)
    ensures
        r@ == escape_spec(s@),
{
    let chars = to_chars(s);
    let mut out: Vec<char> = Vec::new();
    let mut i: usize = 0;
    while i < chars.len()
        invariant
            i <= chars.len(),
            out@ == escape_spec(chars@.take(i as int)),
        decreases chars.len() - i,
    {
        let c = chars[i];
        proof {
            assert(chars@.take(i + 1).drop_last() =~= chars@.take(i as int));
        }
        let ghost before = out@;
        if c == '\\' || c == '"' {
            out.push('\\');
        }
        out.push(c);
        i += 1;
    }
    assert(chars@.take(chars.len() as int) == chars@);
    from_chars(&out)
}

/// The function under the name `ident`.
pub fn rename(function: &ItemFn, ident: &str) -> (renamed: ItemFn)
    ensures
        renamed.prefix@ == function.prefix@,
        renamed.sig.asyncness == function.sig.asyncness,
        renamed.sig.ident@ == ident@,
        renamed.sig.generics@ == function.sig.generics@,
        args_view(renamed.sig.inputs@) == args_view(function.sig.inputs@),
        output_text(renamed.sig.output) == output_text(function.sig.output),
        renamed.sig.where_clause@ == function.sig.where_clause@,
        renamed.block@ == function.block@,
{
    ItemFn {
        prefix: function.prefix.clone(),
        sig: Signature {
            asyncness: function.sig.asyncness,
            ident: String::from_str(ident),
            generics: function.sig.generics.clone(),
            inputs: clone_args(&function.sig.inputs),
            output: match &function.sig.output {
                Some(t) => Some(t.clone()),
                None => None,
            },
            where_clause: function.sig.where_clause.clone(),
        },
        block: function.block.clone(),
    }
}

/// `first` followed by the strings of `rest`.
pub fn prepend(first: &str, rest: &Vec<String>) -> (r: Vec<String>)
    ensures
        views(r@) == seq![first@] + views(rest@),
{
    let mut r: Vec<String> = Vec::new();
    r.push(String::from_str(first));
    let mut i: usize = 0;
    while i < rest.len()
        invariant
            i <= rest.len(),
            views(r@) == seq![first@] + views(rest@).take(i as int),
        decreases rest.len() - i,
    {
        let ghost before = views(r@);
        r.push(rest[i].clone());
        assert(views(r@) =~= before.push(rest@[i as int]@));
        i += 1;
    }
    r
}

/// The patterns of the parameters.
pub open spec fn pats_spec(inputs: Seq<FnArg>) -> Seq<Seq<char>> {
    Seq::new(inputs.len(), |i: int| pat_of(inputs[i]))
}

/// The types of the parameters.
pub open spec fn types_spec(inputs: Seq<FnArg>) -> Seq<Seq<char>> {
    Seq::new(inputs.len(), |i: int| ty_of(inputs[i]))
}

/// The source text of the vector of the arguments' JSON texts.
pub open spec fn params_vec_spec(pats: Seq<Seq<char>>) -> Seq<char> {
    "vec!["@ + join_spec(
        wrap_each(pats, "turbolift::serde_json::to_string(&"@, ").unwrap()"@),
        ", "@,
    ) + "]"@
}

/// The source of the service of `function`, a function without receiver
/// that stands in a file with the contents `contents`, on the lines `first`
/// to `last`.
pub open spec fn service_source_spec(
    function: ItemFn,
    contents: Seq<char>,
    first: int,
    last: int,
    entry_point: Option<EntryPoint>,
) -> Seq<char> {
    let name = function.sig.ident@;
    let raw_name = name + RAW_SUFFIX@;
    let pats = pats_spec(function.sig.inputs@);
    let args = args_view(function.sig.inputs@);
    let dummy = item_text_of(
        function.prefix@,
        signature_text_of(
            true,
            name,
            function.sig.generics@,
            args,
            " -> "@ + dummy_output_spec(function.sig.output),
            function.sig.where_clause@,
        ),
        dummy_block_spec(raw_name, pats),
    );
    let target = item_text_of(
        function.prefix@,
        signature_text_of(
            function.sig.asyncness,
            raw_name,
            function.sig.generics@,
            args,
            output_text(function.sig.output),
            function.sig.where_clause@,
        ),
        function.block@,
    );
    main_file_spec(
        sanitized_spec(contents, first, last, entry_point),
        dummy,
        target,
        segment_types_spec(function.sig.inputs@.len()),
        segment_names_spec(function.sig.inputs@.len()),
        decodes_spec(function.sig.inputs@),
        raw_name,
        pats,
        wrapper_route_spec(name, pats),
    )
}

/// The source of the function that takes the place of `function` in the
/// caller, for the platform `platform` and the bundle at `tar_path`.
pub open spec fn dispatch_stub_spec(function: ItemFn, platform: Seq<char>, tar_path: Seq<char>) -> Seq<
    char,
> {
    stub_spec(
        platform,
        function.sig.ident@,
        params_text_of(args_view(function.sig.inputs@)),
        result_type_spec(function.sig.output),
        tar_path,
        params_vec_spec(pats_spec(function.sig.inputs@)),
    )
}

/// Which of the steps that may be left out are taken.
#[derive(Debug, Clone, Copy, PartialEq, Eq, Structural)]
pub struct DeriveOptions {
    /// Whether the derived project is formatted.
    pub lint: bool,
    /// Whether the derived project is checked.
    pub check: bool,
    /// Whether the derived project is built, so that a worker of the same
    /// architecture can use the build.
    pub prebuild: bool,
    /// Whether builds are release builds.
    pub release: bool,
}

/// The steps of a derivation, and the two ways it ends.
#[derive(Debug, Clone, Copy, PartialEq, Eq, Structural)]
pub enum DeriveStage {
    /// The caller's project is being copied into the derived project.
    CopyProject,
    /// The source of the service's program is being written.
    WriteMainFile,
    /// The manifest is being rewritten and the local dependencies are being
    /// put in place.
    EditManifest,
    /// The derived project is being formatted.
    Lint,
    /// The derived project is being checked.
    Check,
    /// The derived project is being built.
    Prebuild,
    /// The derived project is being packed into its bundle.
    Package,
    /// The bundle is being written next to the derived project.
    WriteBundle,
    /// The derivation is done.
    Done,
    /// A step failed.
    Failed,
}

/// One derivation in progress.
#[derive(Debug)]
pub struct Derivation {
    /// Name of the marked function.
    pub function_name: String,
    /// Source of the service's program.
    pub main_file: String,
    /// Source of the function that takes the marked function's place, up to
    /// the path of the bundle, and after it.
    pub stub_head: String,
    pub stub_tail: String,
    /// The steps that are taken.
    pub options: DeriveOptions,
    /// The step that is being performed, or how the derivation ended.
    pub stage: DeriveStage,
    /// Why the derivation failed, once it has.
    pub failure: String,
    /// Where the bundle lies, once it is written.
    pub tar_path: String,
}

/// What the caller is to do next.
#[derive(Debug)]
pub enum DeriveAction {
    /// Copy the entries of the first directory that are sources of the
    /// project into the second, over what is there.
    CopyProject(String, String),
    /// Write the contents to the file at the path.
    WriteMainFile(String, String),
    /// Rewrite the manifest at the path for the function of the name, and put
    /// the local dependencies in place.
    EditManifest(String, String),
    /// Run these commands in order, each only after the one before succeeded.
    Run(Vec<Step>),
    /// Pack the directory at the path into a bundle.
    Package(String),
    /// Write the bundle to the path; report the canonical path of the file.
    WriteBundle(String),
    /// Nothing: the derivation has ended. On success this is the source of
    /// the function that takes the marked function's place.
    Done(DistributionResult<String>),
}

/// Directory of the derived project of `function_name`.
pub open spec fn project_dir_spec(function_name: Seq<char>) -> Seq<char> {
    ".turbolift/"@ + function_name
}

/// The stage after the manifest is rewritten.
pub open spec fn after_manifest(options: DeriveOptions) -> DeriveStage {
    if options.lint {
        DeriveStage::Lint
    } else {
        after_lint(options)
    }
}

/// The stage after formatting.
pub open spec fn after_lint(options: DeriveOptions) -> DeriveStage {
    if options.check {
        DeriveStage::Check
    } else {
        after_check(options)
    }
}

/// The stage after the check.
pub open spec fn after_check(options: DeriveOptions) -> DeriveStage {
    if options.prebuild {
        DeriveStage::Prebuild
    } else {
        DeriveStage::Package
    }
}

/// The stage that follows `stage` when its step went as `ok` says. A failed
/// step ends the derivation, but for formatting: its failure is a warning.
pub open spec fn next_derive_stage(stage: DeriveStage, ok: bool, options: DeriveOptions) -> DeriveStage {
    match stage {
        DeriveStage::CopyProject => if ok {
            DeriveStage::WriteMainFile
        } else {
            DeriveStage::Failed
        },
        DeriveStage::WriteMainFile => if ok {
            DeriveStage::EditManifest
        } else {
            DeriveStage::Failed
        },
        DeriveStage::EditManifest => if ok {
            after_manifest(options)
        } else {
            DeriveStage::Failed
        },
        DeriveStage::Lint => after_lint(options),
        DeriveStage::Check => if ok {
            after_check(options)
        } else {
            DeriveStage::Failed
        },
        DeriveStage::Prebuild => if ok {
            DeriveStage::Package
        } else {
            DeriveStage::Failed
        },
        DeriveStage::Package => if ok {
            DeriveStage::WriteBundle
        } else {
            DeriveStage::Failed
        },
        DeriveStage::WriteBundle => if ok {
            DeriveStage::Done
        } else {
            DeriveStage::Failed
        },
        DeriveStage::Done => DeriveStage::Done,
        DeriveStage::Failed => DeriveStage::Failed,
    }
}

impl Derivation {
    /// Whether `action` is what the stage of this derivation asks for.
    pub open spec fn action_fits(&self, action: &DeriveAction) -> bool {
        let name = self.function_name@;
        let dir = project_dir_spec(name);
        match self.stage {
            DeriveStage::CopyProject => action matches DeriveAction::CopyProject(from, to)
                && from@ == "."@ && to@ == dir,
            DeriveStage::WriteMainFile => action matches DeriveAction::WriteMainFile(path, text)
                && path@ == dir + "/src/main.rs"@ && text@ == self.main_file@,
            DeriveStage::EditManifest => action matches DeriveAction::EditManifest(path, f)
                && path@ == dir + "/Cargo.toml"@ && f@ == name,
            DeriveStage::Lint => action matches DeriveAction::Run(steps) && steps.len() == 2
                && steps[0].command.is("rustup"@, seq!["component"@, "add"@, "rustfmt"@], "."@)
                && steps[1].command.is("cargo"@, seq!["fmt"@], dir),
            DeriveStage::Check => action matches DeriveAction::Run(steps) && steps.len() == 1
                && steps[0].command.is("cargo"@, seq!["check"@], dir),
            DeriveStage::Prebuild => action matches DeriveAction::Run(steps) && steps.len() == 1
                && steps[0].command.is(
                "cargo"@,
                crate::build_project::build_args_spec(self.options.release),
                dir,
            ),
            DeriveStage::Package => action matches DeriveAction::Package(path) && path@ == dir,
            DeriveStage::WriteBundle => action matches DeriveAction::WriteBundle(path) && path@
                == dir + "_source.tar"@,
            DeriveStage::Done => action matches DeriveAction::Done(Ok(stub)) && stub@
                == self.stub_head@ + escape_spec(self.tar_path@) + self.stub_tail@,
            DeriveStage::Failed => action matches DeriveAction::Done(
                Err(DistributionError::BuildStep(why)),
            ) && why@ == self.failure@,
        }
    }

    /// The action that the stage of this derivation asks for.
    pub fn action(&self) -> (action: DeriveAction)
        ensures
            self.action_fits(&action),
    {
        let dir = concat2(".turbolift/", self.function_name.as_str());
        match self.stage {
            DeriveStage::CopyProject => DeriveAction::CopyProject(String::from_str("."), dir),
            DeriveStage::WriteMainFile => DeriveAction::WriteMainFile(
                concat2(dir.as_str(), "/src/main.rs"),
                self.main_file.clone(),
            ),
            DeriveStage::EditManifest => DeriveAction::EditManifest(
                concat2(dir.as_str(), "/Cargo.toml"),
                self.function_name.clone(),
            ),
            DeriveStage::Lint => DeriveAction::Run(lint(dir.as_str())),
            DeriveStage::Check => {
                let mut steps: Vec<Step> = Vec::new();
                steps.push(check(dir.as_str()));
                DeriveAction::Run(steps)
            },
            DeriveStage::Prebuild => {
                let package = concat2(self.function_name.as_str(), PACKAGE_SUFFIX);
                let plan = make_executable(
                    dir.as_str(),
                    package.as_str(),
                    None,
                    self.options.release,
                );
                let mut steps: Vec<Step> = Vec::new();
                steps.push(plan.build);
                DeriveAction::Run(steps)
            },
            DeriveStage::Package => DeriveAction::Package(dir),
            DeriveStage::WriteBundle => DeriveAction::WriteBundle(
                concat2(dir.as_str(), "_source.tar"),
            ),
            DeriveStage::Done => {
                let path = escape(self.tar_path.as_str());
                DeriveAction::Done(
                    Ok(concat3(self.stub_head.as_str(), path.as_str(), self.stub_tail.as_str())),
                )
            },
            DeriveStage::Failed => DeriveAction::Done(
                Err(DistributionError::BuildStep(self.failure.clone())),
            ),
        }
    }
}

/// The names of the segments, the types of the segments and the decoding of
/// the arguments in the handler of a function with the parameters `pats` of
/// the types `types`.
pub fn handler_parts(pats: &Vec<String>, types: &Vec<String>) -> (r: (
    Vec<String>,
    Vec<String>,
    Vec<String>,
))
    requires
        pats.len() == types.len(),
    ensures
        views(r.0@) == segment_names_spec(pats.len() as nat),
        views(r.1@) == segment_types_spec(pats.len() as nat),
        views(r.2@) == Seq::new(
            pats.len() as nat,
            |i: int|
                DECODE_LET@ + pats[i]@ + ": "@ + types[i]@ + DECODE_FROM@ + segment_name_spec(
                    i as nat,
                ) + DECODE_END@,
        ),
{
    let mut names: Vec<String> = Vec::new();
    let mut segment_types: Vec<String> = Vec::new();
    let mut decodes: Vec<String> = Vec::new();
    names.push(String::from_str(RUN_ID_NAME));
    segment_types.push(String::from_str("String"));
    let mut i: usize = 0;
    while i < pats.len()
        invariant
            i <= pats.len(),
            pats.len() == types.len(),
            names.len() == i + 1,
            segment_types.len() == i + 1,
            decodes.len() == i,
            names[0]@ == RUN_ID_NAME@,
            forall|j: int| 0 <= j < i ==> (#[trigger] names[j + 1])@ == segment_name_spec(j as nat),
            forall|j: int| 0 <= j <= i ==> (#[trigger] segment_types[j])@ == "String"@,
            forall|j: int|
                0 <= j < i ==> (#[trigger] decodes[j])@ == DECODE_LET@ + pats[j]@ + ": "@
                    + types[j]@ + DECODE_FROM@ + segment_name_spec(j as nat) + DECODE_END@,
        decreases pats.len() - i,
    {
        let number = decimal(i as u128);
        let name = concat2(SEGMENT_NAME, number.as_str());
        let mut decode = String::from_str(DECODE_LET);
        decode.append(pats[i].as_str());
        decode.append(": ");
        decode.append(types[i].as_str());
        decode.append(DECODE_FROM);
        decode.append(name.as_str());
        decode.append(DECODE_END);
        names.push(name);
        segment_types.push(String::from_str("String"));
        decodes.push(decode);
        i += 1;
    }
    assert forall|k: int| 0 <= k < names.len() implies views(names@)[k] == segment_names_spec(
        pats.len() as nat,
    )[k] by {
        if k > 0 {
            assert(names[(k - 1) + 1]@ == segment_name_spec((k - 1) as nat));
        }
    }
    assert(views(names@) =~= segment_names_spec(pats.len() as nat));
    assert(views(segment_types@) =~= segment_types_spec(pats.len() as nat));
    assert(views(decodes@) =~= Seq::new(
        pats.len() as nat,
        |i: int|
            DECODE_LET@ + pats[i]@ + ": "@ + types[i]@ + DECODE_FROM@ + segment_name_spec(i as nat)
                + DECODE_END@,
    ));
    (names, segment_types, decodes)
}

/// Begins the derivation of the service of `function`, which is marked for
/// the platform `distribution_platform`. The function stands in a file with
/// the contents `file_contents`, with the attribute that marks it on the
/// lines `first_line` to `last_line`, counted from 1; `entry_point` says
/// where the file's entry point has its name, if it has one. The first step
/// is the copy of the caller's project.
///
/// A function with a receiver is refused, and so are a span that does not
/// lie within the file and an entry point that does not stand where it is
/// said to.
pub fn on(
    distribution_platform: &str,
    function: &ItemFn,
    file_contents: &str,
    first_line: usize,
    last_line: usize,
    entry_point: Option<EntryPoint>,
    options: DeriveOptions,
) -> (r: DistributionResult<(Derivation, DeriveAction)>)
    ensures
        match r {
            Ok((derivation, action)) => {
                &&& !has_receiver(function.sig.inputs@)
                &&& span_within(
                    lines_spec(file_contents@).len(),
                    first_line as nat,
                    last_line as nat,
                )
                &&& entry_point_found(lines_spec(file_contents@), entry_point)
                &&& derivation.function_name@ == function.sig.ident@
                &&& derivation.options == options
                &&& derivation.stage == DeriveStage::CopyProject
                &&& derivation.failure@ == Seq::<char>::empty()
                &&& derivation.tar_path@ == Seq::<char>::empty()
                &&& derivation.main_file@ == service_source_spec(
                    *function,
                    file_contents@,
                    first_line as int,
                    last_line as int,
                    entry_point,
                )
                &&& forall|tar_path: Seq<char>|
                    #![trigger escape_spec(tar_path)]
                    derivation.stub_head@ + escape_spec(tar_path) + derivation.stub_tail@
                        == dispatch_stub_spec(*function, distribution_platform@, tar_path)
                &&& derivation.action_fits(&action)
            },
            Err(e) => {
                if has_receiver(function.sig.inputs@) {
                    e == DistributionError::Receiver
                } else if !span_within(
                    lines_spec(file_contents@).len(),
                    first_line as nat,
                    last_line as nat,
                ) {
                    e == DistributionError::SpanOutOfRange
                } else {
                    &&& !entry_point_found(lines_spec(file_contents@), entry_point)
                    &&& e == DistributionError::EntryPoint
                }
            },
        },
{
    if contains_receiver(&function.sig.inputs) {
        return Err(DistributionError::Receiver);
    }
    let pats = to_untyped_params(&function.sig.inputs);
    let types = to_param_types(&function.sig.inputs);
    let sanitized = match get_sanitized_file(file_contents, first_line, last_line, entry_point) {
        Ok(s) => s,
        Err(e) => {
            return Err(e);
        },
    };
    assert(views(pats@) == pats_spec(function.sig.inputs@));
    assert(views(types@) == types_spec(function.sig.inputs@));
    assert(views(pats@).len() == pats.len() && views(types@).len() == types.len());
    assert(pats.len() == function.sig.inputs.len() && types.len() == function.sig.inputs.len());
    let name = function.sig.ident.as_str();
    let raw_name = concat2(name, RAW_SUFFIX);
    let dummy = make_dummy_function(function, raw_name.as_str(), &pats);
    let target = rename(function, raw_name.as_str());
    let dummy_text = render_item(&dummy);
    let target_text = render_item(&target);
    let (names, segment_types, decodes) = handler_parts(&pats, &types);
    assert(views(decodes@).len() == decodes.len());
    assert forall|i: int| 0 <= i < decodes.len() implies views(decodes@)[i] == decodes_spec(
        function.sig.inputs@,
    )[i] by {
        assert(views(pats@)[i] == pat_of(function.sig.inputs@[i]));
        assert(views(types@)[i] == ty_of(function.sig.inputs@[i]));
    }
    assert(views(decodes@) =~= decodes_spec(function.sig.inputs@));
    let route = wrapper_route(name, &pats);
    let joined_types = join(&segment_types, ", ");
    let joined_names = join(&names, ", ");
    let joined_decodes = join(&decodes, "");
    let joined_params = join(&pats, ", ");

    let mut main_file = sanitized;
    main_file.append("\n\n");
    main_file.append(dummy_text.as_str());
    main_file.append("\n\n");
    main_file.append(target_text.as_str());
    main_file.append(MAIN_HEALTH_PROBE);
    main_file.append(joined_types.as_str());
    main_file.append(MAIN_UNPACK);
    main_file.append(joined_names.as_str());
    main_file.append(MAIN_DECODE);
    main_file.append(joined_decodes.as_str());
    main_file.append(MAIN_CALL);
    main_file.append(raw_name.as_str());
    main_file.append("(");
    main_file.append(joined_params.as_str());
    main_file.append(MAIN_SERVE);
    main_file.append(route.as_str());
    main_file.append(MAIN_ROUTES);

    let typed_params = render_params(&function.sig.inputs);
    let result_type = get_result_type(&function.sig.output);
    let params_vec = params_json_vec(&pats);
    let mut stub_head = String::from_str(STUB_HEAD);
    stub_head.append(name);
    stub_head.append("(");
    stub_head.append(typed_params.as_str());
    stub_head.append(STUB_RESULT);
    stub_head.append(result_type.as_str());
    stub_head.append(STUB_LOCK);
    stub_head.append(distribution_platform);
    stub_head.append(STUB_CALL);
    stub_head.append(name);
    stub_head.append(STUB_BUNDLE);
    let mut stub_tail = String::from_str(STUB_PARAMS);
    stub_tail.append(params_vec.as_str());
    stub_tail.append(STUB_DECODE);

    let derivation = Derivation {
        function_name: function.sig.ident.clone(),
        main_file,
        stub_head,
        stub_tail,
        options,
        stage: DeriveStage::CopyProject,
        failure: String::new(),
        tar_path: String::new(),
    };
    proof {
        assert forall|tar_path: Seq<char>|
            #![trigger escape_spec(tar_path)]
            derivation.stub_head@ + escape_spec(tar_path) + derivation.stub_tail@
                == dispatch_stub_spec(*function, distribution_platform@, tar_path) by {
            let head = derivation.stub_head@;
            let a = head + escape_spec(tar_path);
            assert(a + derivation.stub_tail@ =~= a + STUB_PARAMS@ + params_vec@ + STUB_DECODE@);
        }
    }
    let action = derivation.action();
    Ok((derivation, action))
}

/// Takes the derivation one step further, after its current step went as
/// `outcome` says, and gives the next thing to do. The step that writes the
/// bundle reports where the bundle lies; the source of the function that
/// takes the marked function's place names that file.
pub fn on_step(derivation: &mut Derivation, outcome: StepOutcome) -> (action: DeriveAction)
    ensures
        final(derivation).function_name@ == old(derivation).function_name@,
        final(derivation).main_file@ == old(derivation).main_file@,
        final(derivation).stub_head@ == old(derivation).stub_head@,
        final(derivation).stub_tail@ == old(derivation).stub_tail@,
        final(derivation).options == old(derivation).options,
        final(derivation).stage == next_derive_stage(
            old(derivation).stage,
            outcome.ok,
            old(derivation).options,
        ),
        final(derivation).tar_path@ == if old(derivation).stage == DeriveStage::WriteBundle
            && outcome.ok {
            outcome.detail@
        } else {
            old(derivation).tar_path@
        },
        final(derivation).failure@ == if !outcome.ok && old(derivation).stage != DeriveStage::Lint
            && old(derivation).failure@.len() == 0 {
            outcome.detail@
        } else {
            old(derivation).failure@
        },
        final(derivation).action_fits(&action),
{
    let ok = outcome.ok;
    let options = derivation.options;
    let after_check = if options.prebuild {
        DeriveStage::Prebuild
    } else {
        DeriveStage::Package
    };
    let after_lint = if options.check {
        DeriveStage::Check
    } else {
        after_check
    };
    let after_manifest = if options.lint {
        DeriveStage::Lint
    } else {
        after_lint
    };
    let stage = derivation.stage;
    let is_lint = match stage {
        DeriveStage::Lint => true,
        _ => false,
    };
    if !ok && !is_lint && derivation.failure.as_str().unicode_len() == 0 {
        derivation.failure = outcome.detail.clone();
    }
    derivation.stage = match stage {
        DeriveStage::CopyProject => if ok {
            DeriveStage::WriteMainFile
        } else {
            DeriveStage::Failed
        },
        DeriveStage::WriteMainFile => if ok {
            DeriveStage::EditManifest
        } else {
            DeriveStage::Failed
        },
        DeriveStage::EditManifest => if ok {
            after_manifest
        } else {
            DeriveStage::Failed
        },
        DeriveStage::Lint => after_lint,
        DeriveStage::Check => if ok {
            after_check
        } else {
            DeriveStage::Failed
        },
        DeriveStage::Prebuild => if ok {
            DeriveStage::Package
        } else {
            DeriveStage::Failed
        },
        DeriveStage::Package => if ok {
            DeriveStage::WriteBundle
        } else {
            DeriveStage::Failed
        },
        DeriveStage::WriteBundle => {
            if ok {
                derivation.tar_path = outcome.detail.clone();
                DeriveStage::Done
            } else {
                DeriveStage::Failed
            }
        },
        DeriveStage::Done => DeriveStage::Done,
        DeriveStage::Failed => DeriveStage::Failed,
    };
    derivation.action()
}

/// The source of the function that takes the place of `function` where
/// nothing is distributed: an asynchronous function of the same name and
/// parameters that holds `function` under another name, calls it, and gives
/// its result as that of a distributed call. A function with a receiver is
/// refused.
pub fn on_undistributed(function: &ItemFn) -> (r: DistributionResult<String>)
    ensures
        match r {
            Ok(text) => {
                &&& !has_receiver(function.sig.inputs@)
                &&& text@ == local_stub_spec(
                    function.sig.ident@,
                    params_text_of(args_view(function.sig.inputs@)),
                    result_type_spec(function.sig.output),
                    item_text_of(
                        function.prefix@,
                        signature_text_of(
                            function.sig.asyncness,
                            WRAPPED_NAME@,
                            function.sig.generics@,
                            args_view(function.sig.inputs@),
                            output_text(function.sig.output),
                            function.sig.where_clause@,
                        ),
                        function.block@,
                    ),
                    join_spec(pats_spec(function.sig.inputs@), ", "@),
                )
            },
            Err(e) => has_receiver(function.sig.inputs@) && e == DistributionError::Receiver,
        },
{
    if contains_receiver(&function.sig.inputs) {
        return Err(DistributionError::Receiver);
    }
    let pats = to_untyped_params(&function.sig.inputs);
    let wrapped = rename(function, WRAPPED_NAME);
    let wrapped_text = render_item(&wrapped);
    let typed_params = render_params(&function.sig.inputs);
    let result_type = get_result_type(&function.sig.output);
    let joined_params = join(&pats, ", ");
    let mut text = String::from_str(STUB_HEAD);
    text.append(function.sig.ident.as_str());
    text.append("(");
    text.append(typed_params.as_str());
    text.append(STUB_RESULT);
    text.append(result_type.as_str());
    text.append(LOCAL_BODY);
    text.append(wrapped_text.as_str());
    text.append(LOCAL_CALL);
    text.append(joined_params.as_str());
    text.append(LOCAL_END);
    Ok(text)
}

} // verus!
