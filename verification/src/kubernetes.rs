//! The Kubernetes backend: the names, manifests and commands by which a
//! function becomes a Deployment, a Service and an Ingress, and the order of
//! the steps of provisioning.
//!
//! Nothing here talks to a cluster. `K8s::declare` and `K8s::declare_step`
//! say which step comes next and with what; the caller performs it and
//! reports how it went.
use vstd::prelude::*;
use vstd::string::*;

use crate::distributed_platform::{
    request_url_spec, DispatchAction, DistributionError, DistributionPlatform, DistributionResult,
    StepOutcome,
};
use crate::json::{json_string, json_string_spec};
use crate::readiness::{readiness, Readiness};
use crate::registry::NameMap;
use crate::run_id::{hyphenated_spec, RunId};
use crate::text::{concat2, concat3, decimal, decimal_spec, from_chars, to_chars, views};

verus! {

/// Namespace of every cluster object.
pub const TURBOLIFT_K8S_NAMESPACE: &'static str = "default";

/// Port on which the container listens.
pub const CONTAINER_PORT: u16 = 5678;

/// Port of the Service.
pub const SERVICE_PORT: u16 = 5678;

/// Port on which the Ingress is reached from outside.
pub const EXTERNAL_PORT: u16 = 80;

/// Label that every cluster object of a backend instance carries; its value
/// is the run id.
pub const RUN_ID_LABEL: &'static str = "turbolift_run_id";

/// Name of the bundle inside the build directory.
pub const TAR_FILE_NAME: &'static str = "source.tar";

/// Milliseconds after which a pod is no longer waited for.
pub const READINESS_DEADLINE_MS: u64 = 90_000;

/// Dockerfile, first part: the base image, the time zone, the toolchain, up to
/// the copy of the bundle.
pub const DOCKERFILE_BASE: &'static str =
    "FROM ubuntu:latest as builder\n# set timezone (otherwise tzinfo stops dep installation with prompt for time zone)\nENV TZ=Etc/UTC\nRUN ln -snf /usr/share/zoneinfo/$TZ /etc/localtime && echo $TZ > /etc/timezone\n\n# install curl and rust deps\nRUN apt-get update && apt-get install -y curl gcc libssl-dev pkg-config && rm -rf /var/lib/apt/lists/*\n\n# install rustup\nRUN curl --proto '=https' --tlsv1.2 -sSf https://sh.rustup.rs | sh -s -- -y --default-toolchain nightly\nENV PATH=/root/.cargo/bin:$PATH\n\n# copy tar file\nCOPY ";

/// Dockerfile: between the copy of the bundle and its unpacking.
pub const DOCKERFILE_UNPACK: &'static str = "\n\n# unpack tar\nRUN cat ";

/// Dockerfile: between the unpacking and the project directory.
pub const DOCKERFILE_WORKDIR: &'static str =
    " | tar xvf -\n\n# enter into unpacked source directory\nWORKDIR ";

/// Dockerfile: between the project directory and the build.
pub const DOCKERFILE_SCHEME: &'static str =
    "\n\n# build and run according to compilation scheme\nENV RUSTFLAGS='--cfg procmacro2_semver_exempt'\n";

/// Dockerfile, build for a target architecture: up to the architecture.
pub const DOCKERFILE_TARGET: &'static str =
    "# install the project binary with the given architecture.\nRUN rustup target add ";

/// Dockerfile, build for a target architecture: the install command.
pub const DOCKERFILE_INSTALL: &'static str = "\nRUN cargo install";

/// Dockerfile, build for a target architecture: the flag of the target.
pub const DOCKERFILE_INSTALL_TARGET: &'static str = " --target ";

/// Dockerfile, build for a target architecture: the empty image that the
/// binary is copied into.
pub const DOCKERFILE_FROM_BUILDER: &'static str =
    " --path .\n\n# copy the binary from the builder, leaving the build environment.\nFROM scratch\nCOPY --from=builder /usr/local/cargo/bin/";

/// Dockerfile, build for a target architecture: the start of the command.
pub const DOCKERFILE_CMD: &'static str = " .\nCMD [\"./";

/// Dockerfile, build for a target architecture: the address to listen on.
pub const DOCKERFILE_LISTEN: &'static str = "\", \"0.0.0.0:";

/// Dockerfile, build for a target architecture: the end of the command.
pub const DOCKERFILE_CMD_END: &'static str = "\"]";

/// Dockerfile, build in place: the build command.
pub const DOCKERFILE_BUILD: &'static str = "RUN cargo build";

/// Dockerfile, build in place: the command that starts the service.
pub const DOCKERFILE_RUN: &'static str = "\nCMD cargo run";

/// Dockerfile, build in place: the address to listen on.
pub const DOCKERFILE_RUN_LISTEN: &'static str = " -- 0.0.0.0:";

/// `c`, or a hyphen where it is an underscore.
pub open spec fn sanitize_char(c: char) -> char {
    if c == '_' {
        '-'
    } else {
        c
    }
}

/// `name` with each underscore replaced by a hyphen.
pub open spec fn sanitize_spec(name: Seq<char>) -> Seq<char> {
    name.map_values(|c: char| sanitize_char(c))
}

/// Name under which a function's objects are grouped: the sanitized function
/// name, a hyphen and the run id.
pub open spec fn app_name_spec(function_name: Seq<char>, run_id: u128) -> Seq<char> {
    sanitize_spec(function_name) + "-"@ + hyphenated_spec(run_id)
}

/// Name of the container and of the pod template.
pub open spec fn container_name_spec(function_name: Seq<char>, run_id: u128) -> Seq<char> {
    app_name_spec(function_name, run_id) + "-app"@
}

/// Name of the Deployment.
pub open spec fn deployment_name_spec(function_name: Seq<char>, run_id: u128) -> Seq<char> {
    app_name_spec(function_name, run_id) + "-deployment"@
}

/// Name of the Service.
pub open spec fn service_name_spec(function_name: Seq<char>, run_id: u128) -> Seq<char> {
    app_name_spec(function_name, run_id) + "-service"@
}

/// Name of the Ingress.
pub open spec fn ingress_name_spec(function_name: Seq<char>, run_id: u128) -> Seq<char> {
    app_name_spec(function_name, run_id) + "-ingress"@
}

/// Tag of the image as it is built locally.
pub open spec fn image_tag_spec(app_name: Seq<char>) -> Seq<char> {
    app_name + ":turbolift"@
}

/// Directory in which the image is built, below the cache directory.
pub open spec fn build_dir_spec(app_name: Seq<char>) -> Seq<char> {
    ".turbolift"@ + "/"@ + app_name + "_k8s_temp_dir"@
}

/// Path that the Ingress routes to the Service: `/<name>/<run id>/`.
pub open spec fn ingress_path_spec(function_name: Seq<char>, run_id: u128) -> Seq<char> {
    "/"@ + function_name + "/"@ + hyphenated_spec(run_id) + "/"@
}

/// Address under which every service is reached from outside.
pub open spec fn external_origin_spec() -> Seq<char> {
    "http://localhost:"@ + decimal_spec(EXTERNAL_PORT as nat)
}

/// URL under which a function's service is reached from outside:
/// `http://localhost:<external port>/<name>/<run id>/`.
pub open spec fn base_url_spec(function_name: Seq<char>, run_id: u128) -> Seq<char> {
    external_origin_spec() + ingress_path_spec(function_name, run_id)
}

/// ` --release` for a release build, else nothing.
pub open spec fn release_flag_spec(release: bool) -> Seq<char> {
    if release {
        " --release"@
    } else {
        ""@
    }
}

/// ` --debug` for a build that is no release build, else nothing.
pub open spec fn debug_flag_spec(release: bool) -> Seq<char> {
    if release {
        ""@
    } else {
        " --debug"@
    }
}

/// Last part of the Dockerfile: how the project is built and started. With a
/// target architecture the binary is installed for it and copied into an
/// empty image; without one the project is built and run in place.
pub open spec fn compilation_scheme_spec(
    function_name: Seq<char>,
    target_architecture: Option<Seq<char>>,
    release: bool,
) -> Seq<char> {
    match target_architecture {
        Some(architecture) => DOCKERFILE_TARGET@ + architecture + DOCKERFILE_INSTALL@
            + debug_flag_spec(release) + DOCKERFILE_INSTALL_TARGET@ + architecture
            + DOCKERFILE_FROM_BUILDER@ + function_name + DOCKERFILE_CMD@ + function_name
            + DOCKERFILE_LISTEN@ + decimal_spec(CONTAINER_PORT as nat) + DOCKERFILE_CMD_END@,
        None => DOCKERFILE_BUILD@ + release_flag_spec(release) + DOCKERFILE_RUN@
            + release_flag_spec(release) + DOCKERFILE_RUN_LISTEN@ + decimal_spec(
            CONTAINER_PORT as nat,
        ),
    }
}

/// The Dockerfile of a function's image: a toolchain is installed, the bundle
/// `tar_file_name` copied in and unpacked, the project directory
/// `function_name` entered, and the project built and started on the
/// container port.
pub open spec fn dockerfile_spec(
    function_name: Seq<char>,
    tar_file_name: Seq<char>,
    target_architecture: Option<Seq<char>>,
    release: bool,
) -> Seq<char> {
    DOCKERFILE_BASE@ + tar_file_name + " "@ + tar_file_name + DOCKERFILE_UNPACK@ + tar_file_name
        + DOCKERFILE_WORKDIR@ + function_name + DOCKERFILE_SCHEME@ + compilation_scheme_spec(
        function_name,
        target_architecture,
        release,
    )
}

/// The function's name as it may stand in the name of a cluster object: with
/// a hyphen for each underscore.
pub fn sanitize_function_name(function_name: &str) -> (r: String)
    ensures
        r@ == sanitize_spec(function_name@),
{
    let chars = to_chars(function_name);
    let mut out: Vec<char> = Vec::new();
    let mut i: usize = 0;
    while i < chars.len()
        invariant
            i <= chars.len(),
            out@ == sanitize_spec(chars@.take(i as int)),
        decreases chars.len() - i,
    {
        let c = chars[i];
        out.push(if c == '_' { '-' } else { c });
        i += 1;
    }
    from_chars(&out)
}

/// How the project is built and started inside the image.
pub fn compilation_scheme(
    function_name: &str,
    target_architecture: Option<&str>,
    release: bool,
) -> (r: String)
    ensures
        r@ == compilation_scheme_spec(
            function_name@,
            match target_architecture {
                Some(a) => Some(a@),
                None => None,
            },
            release,
        ),
{
    let port = decimal(CONTAINER_PORT as u128);
    match target_architecture {
        Some(architecture) => {
            let mut r = String::from_str(DOCKERFILE_TARGET);
            r.append(architecture);
            r.append(DOCKERFILE_INSTALL);
            r.append(if release { "" } else { " --debug" });
            r.append(DOCKERFILE_INSTALL_TARGET);
            r.append(architecture);
            r.append(DOCKERFILE_FROM_BUILDER);
            r.append(function_name);
            r.append(DOCKERFILE_CMD);
            r.append(function_name);
            r.append(DOCKERFILE_LISTEN);
            r.append(port.as_str());
            r.append(DOCKERFILE_CMD_END);
            r
        },
        None => {
            let flag = if release { " --release" } else { "" };
            let mut r = String::from_str(DOCKERFILE_BUILD);
            r.append(flag);
            r.append(DOCKERFILE_RUN);
            r.append(flag);
            r.append(DOCKERFILE_RUN_LISTEN);
            r.append(port.as_str());
            r
        },
    }
}

/// The Dockerfile of a function's image.
pub fn dockerfile(
    function_name: &str,
    tar_file_name: &str,
    target_architecture: Option<&str>,
    release: bool,
) -> (r: String)
    ensures
        r@ == dockerfile_spec(
            function_name@,
            tar_file_name@,
            match target_architecture {
                Some(a) => Some(a@),
                None => None,
            },
            release,
        ),
{
    let scheme = compilation_scheme(function_name, target_architecture, release);
    let mut r = String::from_str(DOCKERFILE_BASE);
    r.append(tar_file_name);
    r.append(" ");
    r.append(tar_file_name);
    r.append(DOCKERFILE_UNPACK);
    r.append(tar_file_name);
    r.append(DOCKERFILE_WORKDIR);
    r.append(function_name);
    r.append(DOCKERFILE_SCHEME);
    r.append(scheme.as_str());
    r
}

/// Name under which a function's objects are grouped.
pub fn app_name(function_name: &str, run_id: &RunId) -> (r: String)
    ensures
        r@ == app_name_spec(function_name@, run_id.value),
{
    let sanitized = sanitize_function_name(function_name);
    let id = run_id.to_hyphenated();
    concat3(sanitized.as_str(), "-", id.as_str())
}

/// URL under which a function's service is reached from outside.
pub fn base_url(function_name: &str, run_id: &RunId) -> (r: String)
    ensures
        r@ == base_url_spec(function_name@, run_id.value),
{
    let port = decimal(EXTERNAL_PORT as u128);
    let id = run_id.to_hyphenated();
    let origin = concat2("http://localhost:", port.as_str());
    let mut path = String::from_str("/");
    path.append(function_name);
    path.append("/");
    path.append(id.as_str());
    path.append("/");
    let mut r = origin;
    r.append(path.as_str());
    r
}

/// What it takes to build a function's image: the directory to build in, the
/// Dockerfile and the name of the bundle to write there, the tag of the
/// image, and the arguments of `docker`.
#[derive(Debug)]
pub struct ImageBuild {
    pub build_dir: String,
    pub dockerfile: String,
    pub tar_file_name: String,
    pub tag: String,
    pub docker_args: Vec<String>,
}

impl ImageBuild {
    /// Whether this is the build of the image of `app_name`, for the project
    /// `function_name`.
    pub open spec fn is_for(
        &self,
        app_name: Seq<char>,
        function_name: Seq<char>,
        release: bool,
    ) -> bool {
        &&& self.build_dir@ == build_dir_spec(app_name)
        &&& self.dockerfile@ == dockerfile_spec(function_name, TAR_FILE_NAME@, None, release)
        &&& self.tar_file_name@ == TAR_FILE_NAME@
        &&& self.tag@ == image_tag_spec(app_name)
        &&& views(self.docker_args@) == seq![
            "build"@,
            "-t"@,
            image_tag_spec(app_name),
            build_dir_spec(app_name),
        ]
    }
}

/// A Deployment of one replica with one container.
#[derive(Debug)]
pub struct DeploymentManifest {
    /// `metadata.name`.
    pub name: String,
    /// Value of the run id label, on the Deployment and on its pods.
    pub run_id_label: String,
    /// Value of the `app` label: selector of the Deployment, label of its pods.
    pub app_label: String,
    /// `spec.replicas`.
    pub replicas: u32,
    /// Name of the pod template.
    pub pod_name: String,
    /// Name of the one container.
    pub container_name: String,
    /// Image of the one container, as the cluster can reach it.
    pub image: String,
}

impl DeploymentManifest {
    /// Whether this is the Deployment of `function_name` under `run_id` with
    /// the image `image`.
    pub open spec fn is_for(&self, function_name: Seq<char>, run_id: u128, image: Seq<char>) -> bool {
        &&& self.name@ == deployment_name_spec(function_name, run_id)
        &&& self.run_id_label@ == hyphenated_spec(run_id)
        &&& self.app_label@ == app_name_spec(function_name, run_id)
        &&& self.replicas == 1
        &&& self.pod_name@ == container_name_spec(function_name, run_id)
        &&& self.container_name@ == container_name_spec(function_name, run_id)
        &&& self.image@ == image
    }
}

/// A Service in front of the pods of one Deployment.
#[derive(Debug)]
pub struct ServiceManifest {
    /// `metadata.name`.
    pub name: String,
    /// Value of the run id label.
    pub run_id_label: String,
    /// Value of the `app` label that selects the pods.
    pub selector_app: String,
    /// Port of the Service.
    pub port: u16,
    /// Port of the container that it maps to.
    pub target_port: u16,
}

impl ServiceManifest {
    /// Whether this is the Service of `function_name` under `run_id`.
    pub open spec fn is_for(&self, function_name: Seq<char>, run_id: u128) -> bool {
        &&& self.name@ == service_name_spec(function_name, run_id)
        &&& self.run_id_label@ == hyphenated_spec(run_id)
        &&& self.selector_app@ == app_name_spec(function_name, run_id)
        &&& self.port == SERVICE_PORT
        &&& self.target_port == CONTAINER_PORT
    }
}

/// An Ingress with one rule, which routes a path prefix to one Service.
#[derive(Debug)]
pub struct IngressManifest {
    /// `metadata.name`.
    pub name: String,
    /// Value of the run id label.
    pub run_id_label: String,
    /// The path that is routed.
    pub path: String,
    /// How the path is matched.
    pub path_type: String,
    /// Name of the Service that the path is routed to.
    pub service_name: String,
    /// Port of that Service.
    pub service_port: u16,
}

impl IngressManifest {
    /// Whether this is the Ingress of `function_name` under `run_id`.
    pub open spec fn is_for(&self, function_name: Seq<char>, run_id: u128) -> bool {
        &&& self.name@ == ingress_name_spec(function_name, run_id)
        &&& self.run_id_label@ == hyphenated_spec(run_id)
        &&& self.path@ == ingress_path_spec(function_name, run_id)
        &&& self.path_type@ == "Prefix"@
        &&& self.service_name@ == service_name_spec(function_name, run_id)
        &&& self.service_port == SERVICE_PORT
    }
}

/// Deployment as JSON: up to its name.
pub const JSON_DEPLOYMENT_NAME: &'static str =
    "{\"apiVersion\":\"apps/v1\",\"kind\":\"Deployment\",\"metadata\":{\"name\":";

/// Any object as JSON: between its name and the value of its run id label.
pub const JSON_RUN_ID_LABEL: &'static str = ",\"labels\":{\"turbolift_run_id\":";

/// Deployment as JSON: up to the `app` label that it selects.
pub const JSON_DEPLOYMENT_SELECTOR: &'static str =
    "}},\"spec\":{\"selector\":{\"matchLabels\":{\"app\":";

/// Deployment as JSON: up to the number of replicas.
pub const JSON_DEPLOYMENT_REPLICAS: &'static str = "}},\"replicas\":";

/// Deployment as JSON: up to the name of the pod template.
pub const JSON_DEPLOYMENT_TEMPLATE: &'static str = ",\"template\":{\"metadata\":{\"name\":";

/// Deployment as JSON: up to the `app` label of the pods.
pub const JSON_TEMPLATE_APP: &'static str = ",\"labels\":{\"app\":";

/// Deployment as JSON: up to the run id label of the pods.
pub const JSON_TEMPLATE_RUN_ID: &'static str = ",\"turbolift_run_id\":";

/// Deployment as JSON: up to the name of the container.
pub const JSON_CONTAINER_NAME: &'static str = "}},\"spec\":{\"containers\":[{\"name\":";

/// Deployment as JSON: up to the image of the container.
pub const JSON_CONTAINER_IMAGE: &'static str = ",\"image\":";

/// Deployment as JSON: the closing brackets.
pub const JSON_DEPLOYMENT_END: &'static str = "}]}}}}";

/// Service as JSON: up to its name.
pub const JSON_SERVICE_NAME: &'static str =
    "{\"apiVersion\":\"v1\",\"kind\":\"Service\",\"metadata\":{\"name\":";

/// Service as JSON: up to the `app` label that it selects.
pub const JSON_SERVICE_SELECTOR: &'static str = "}},\"spec\":{\"selector\":{\"app\":";

/// Service as JSON: up to its port.
pub const JSON_SERVICE_PORT: &'static str = "},\"ports\":[{\"port\":";

/// Service as JSON: up to the port of the container.
pub const JSON_SERVICE_TARGET: &'static str = ",\"targetPort\":";

/// Service as JSON: the closing brackets.
pub const JSON_SERVICE_END: &'static str = "}]}}";

/// Ingress as JSON: up to its name.
pub const JSON_INGRESS_NAME: &'static str =
    "{\"apiVersion\":\"networking.k8s.io/v1\",\"kind\":\"Ingress\",\"metadata\":{\"name\":";

/// Ingress as JSON: up to the path of its one rule.
pub const JSON_INGRESS_PATH: &'static str =
    "}},\"spec\":{\"rules\":[{\"http\":{\"paths\":[{\"path\":";

/// Ingress as JSON: up to the way the path is matched.
pub const JSON_INGRESS_PATH_TYPE: &'static str = ",\"pathType\":";

/// Ingress as JSON: up to the name of the Service.
pub const JSON_INGRESS_SERVICE: &'static str = ",\"backend\":{\"service\":{\"name\":";

/// Ingress as JSON: up to the port of the Service.
pub const JSON_INGRESS_PORT: &'static str = ",\"port\":{\"number\":";

/// Ingress as JSON: the closing brackets.
pub const JSON_INGRESS_END: &'static str = "}}}}]}}]}}";

impl DeploymentManifest {
    /// The manifest as JSON text.
    pub open spec fn json_spec(&self) -> Seq<char> {
        JSON_DEPLOYMENT_NAME@ + json_string_spec(self.name@) + JSON_RUN_ID_LABEL@
            + json_string_spec(self.run_id_label@) + JSON_DEPLOYMENT_SELECTOR@ + json_string_spec(
            self.app_label@,
        ) + JSON_DEPLOYMENT_REPLICAS@ + decimal_spec(self.replicas as nat)
            + JSON_DEPLOYMENT_TEMPLATE@ + json_string_spec(self.pod_name@) + JSON_TEMPLATE_APP@
            + json_string_spec(self.app_label@) + JSON_TEMPLATE_RUN_ID@ + json_string_spec(
            self.run_id_label@,
        ) + JSON_CONTAINER_NAME@ + json_string_spec(self.container_name@) + JSON_CONTAINER_IMAGE@
            + json_string_spec(self.image@) + JSON_DEPLOYMENT_END@
    }

    /// The manifest as JSON text: a Deployment of `replicas` replicas whose
    /// pods carry the `app` label that it selects and the run id label, and
    /// run the one container.
    pub fn to_json(&self) -> (r: String)
        ensures
            r@ == self.json_spec(),
    {
        let name = json_string(self.name.as_str());
        let id = json_string(self.run_id_label.as_str());
        let app = json_string(self.app_label.as_str());
        let replicas = decimal(self.replicas as u128);
        let pod = json_string(self.pod_name.as_str());
        let container = json_string(self.container_name.as_str());
        let image = json_string(self.image.as_str());
        let mut r = String::from_str(JSON_DEPLOYMENT_NAME);
        r.append(name.as_str());
        r.append(JSON_RUN_ID_LABEL);
        r.append(id.as_str());
        r.append(JSON_DEPLOYMENT_SELECTOR);
        r.append(app.as_str());
        r.append(JSON_DEPLOYMENT_REPLICAS);
        r.append(replicas.as_str());
        r.append(JSON_DEPLOYMENT_TEMPLATE);
        r.append(pod.as_str());
        r.append(JSON_TEMPLATE_APP);
        r.append(app.as_str());
        r.append(JSON_TEMPLATE_RUN_ID);
        r.append(id.as_str());
        r.append(JSON_CONTAINER_NAME);
        r.append(container.as_str());
        r.append(JSON_CONTAINER_IMAGE);
        r.append(image.as_str());
        r.append(JSON_DEPLOYMENT_END);
        r
    }
}

impl ServiceManifest {
    /// The manifest as JSON text.
    pub open spec fn json_spec(&self) -> Seq<char> {
        JSON_SERVICE_NAME@ + json_string_spec(self.name@) + JSON_RUN_ID_LABEL@ + json_string_spec(
            self.run_id_label@,
        ) + JSON_SERVICE_SELECTOR@ + json_string_spec(self.selector_app@) + JSON_SERVICE_PORT@
            + decimal_spec(self.port as nat) + JSON_SERVICE_TARGET@ + decimal_spec(
            self.target_port as nat,
        ) + JSON_SERVICE_END@
    }

    /// The manifest as JSON text: a Service that selects the pods by their
    /// `app` label and maps its port to the container's.
    pub fn to_json(&self) -> (r: String)
        ensures
            r@ == self.json_spec(),
    {
        let name = json_string(self.name.as_str());
        let id = json_string(self.run_id_label.as_str());
        let app = json_string(self.selector_app.as_str());
        let port = decimal(self.port as u128);
        let target = decimal(self.target_port as u128);
        let mut r = String::from_str(JSON_SERVICE_NAME);
        r.append(name.as_str());
        r.append(JSON_RUN_ID_LABEL);
        r.append(id.as_str());
        r.append(JSON_SERVICE_SELECTOR);
        r.append(app.as_str());
        r.append(JSON_SERVICE_PORT);
        r.append(port.as_str());
        r.append(JSON_SERVICE_TARGET);
        r.append(target.as_str());
        r.append(JSON_SERVICE_END);
        r
    }
}

impl IngressManifest {
    /// The manifest as JSON text.
    pub open spec fn json_spec(&self) -> Seq<char> {
        JSON_INGRESS_NAME@ + json_string_spec(self.name@) + JSON_RUN_ID_LABEL@ + json_string_spec(
            self.run_id_label@,
        ) + JSON_INGRESS_PATH@ + json_string_spec(self.path@) + JSON_INGRESS_PATH_TYPE@
            + json_string_spec(self.path_type@) + JSON_INGRESS_SERVICE@ + json_string_spec(
            self.service_name@,
        ) + JSON_INGRESS_PORT@ + decimal_spec(self.service_port as nat) + JSON_INGRESS_END@
    }

    /// The manifest as JSON text: an Ingress with one rule, which routes the
    /// path to the Service's port.
    pub fn to_json(&self) -> (r: String)
        ensures
            r@ == self.json_spec(),
    {
        let name = json_string(self.name.as_str());
        let id = json_string(self.run_id_label.as_str());
        let path = json_string(self.path.as_str());
        let path_type = json_string(self.path_type.as_str());
        let service = json_string(self.service_name.as_str());
        let port = decimal(self.service_port as u128);
        let mut r = String::from_str(JSON_INGRESS_NAME);
        r.append(name.as_str());
        r.append(JSON_RUN_ID_LABEL);
        r.append(id.as_str());
        r.append(JSON_INGRESS_PATH);
        r.append(path.as_str());
        r.append(JSON_INGRESS_PATH_TYPE);
        r.append(path_type.as_str());
        r.append(JSON_INGRESS_SERVICE);
        r.append(service.as_str());
        r.append(JSON_INGRESS_PORT);
        r.append(port.as_str());
        r.append(JSON_INGRESS_END);
        r
    }
}

/// Arguments of `kubectl` that cap the replicas of a Deployment.
pub open spec fn autoscale_args_spec(deployment_name: Seq<char>, max: u32) -> Seq<Seq<char>> {
    seq!["autoscale"@, "deployment"@, deployment_name, "--max="@ + decimal_spec(max as nat)]
}

/// Arguments of `kubectl` that delete every object of a run in one call.
pub open spec fn teardown_args_spec(run_id: u128) -> Seq<Seq<char>> {
    seq![
        "delete"@,
        "pods,deployments,services,ingress"@,
        "-l"@,
        RUN_ID_LABEL@ + "="@ + hyphenated_spec(run_id),
    ]
}

/// What it takes to build the image of `app_name` from the project
/// `function_name`. The directory is made, the Dockerfile and the bundle are
/// written into it, and `docker` is run with the arguments.
pub fn make_image(k8s: &K8s, app_name: &str, function_name: &str) -> (build: ImageBuild)
    ensures
        build.is_for(app_name@, function_name@, k8s.release),
{
    let mut build_dir = String::from_str(".turbolift");
    build_dir.append("/");
    build_dir.append(app_name);
    build_dir.append("_k8s_temp_dir");
    let tag = concat2(app_name, ":turbolift");
    let mut docker_args: Vec<String> = Vec::new();
    docker_args.push(String::from_str("build"));
    docker_args.push(String::from_str("-t"));
    docker_args.push(tag.clone());
    docker_args.push(build_dir.clone());
    let build = ImageBuild {
        build_dir,
        dockerfile: dockerfile(function_name, TAR_FILE_NAME, None, k8s.release),
        tar_file_name: String::from_str(TAR_FILE_NAME),
        tag,
        docker_args,
    };
    assert(views(build.docker_args@) =~= seq![
        "build"@,
        "-t"@,
        image_tag_spec(app_name@),
        build_dir_spec(app_name@),
    ]);
    build
}

/// The steps of provisioning a function, and the two ways it ends.
#[derive(Debug, Clone, Copy, PartialEq, Eq, Structural)]
pub enum DeclareStage {
    /// The image is being built.
    BuildImage,
    /// The image is being made reachable for the cluster.
    DeployContainer,
    /// The Deployment is being created.
    CreateDeployment,
    /// The Service is being created.
    CreateService,
    /// The Ingress is being applied.
    ApplyIngress,
    /// The replica ceiling is being set.
    Autoscale,
    /// The pod is being waited for.
    AwaitReady,
    /// The build directory is being removed.
    RemoveBuildDir,
    /// The function is declared and can be called.
    Ready,
    /// A step failed; the function is not declared.
    Failed,
}

/// One provisioning in progress.
#[derive(Debug)]
pub struct Declaration {
    /// The function that is provisioned.
    pub function_name: String,
    /// The step that is being performed, or how it ended.
    pub stage: DeclareStage,
    /// Whether a step has failed.
    pub failed: bool,
    /// The image as the cluster can reach it, once known.
    pub image: String,
    /// Why the provisioning failed, once it has.
    pub failure: String,
}

/// What the caller is to do next.
#[derive(Debug)]
pub enum DeclareAction {
    /// Make the build directory, write the Dockerfile and the bundle, build.
    BuildImage(ImageBuild),
    /// Hand the local tag to the deploy function; report the tag it returns.
    DeployContainer(String),
    /// Create the Deployment.
    CreateDeployment(DeploymentManifest),
    /// Create the Service.
    CreateService(ServiceManifest),
    /// Apply the Ingress.
    ApplyIngress(IngressManifest),
    /// Run `kubectl` with these arguments.
    Autoscale(Vec<String>),
    /// Wait until the pod serves.
    AwaitReady(Readiness),
    /// Remove the build directory.
    RemoveBuildDir(String),
    /// Nothing: the provisioning has ended, in this way.
    Done(DistributionResult<()>),
}

/// The stage that follows `stage` when its step went as `ok` says. `failed`
/// says whether an earlier step has failed; `max` is the replica limit.
///
/// The steps follow one another as long as they succeed; the replica ceiling
/// is set only where the limit is above 1. After the last step, and after any
/// step that fails, the build directory is removed. The provisioning ends
/// well where that succeeds and no step has failed.
pub open spec fn next_stage(stage: DeclareStage, ok: bool, failed: bool, max: u32) -> DeclareStage {
    match stage {
        DeclareStage::BuildImage => if ok {
            DeclareStage::DeployContainer
        } else {
            DeclareStage::RemoveBuildDir
        },
        DeclareStage::DeployContainer => if ok {
            DeclareStage::CreateDeployment
        } else {
            DeclareStage::RemoveBuildDir
        },
        DeclareStage::CreateDeployment => if ok {
            DeclareStage::CreateService
        } else {
            DeclareStage::RemoveBuildDir
        },
        DeclareStage::CreateService => if ok {
            DeclareStage::ApplyIngress
        } else {
            DeclareStage::RemoveBuildDir
        },
        DeclareStage::ApplyIngress => if !ok {
            DeclareStage::RemoveBuildDir
        } else if max > 1 {
            DeclareStage::Autoscale
        } else {
            DeclareStage::AwaitReady
        },
        DeclareStage::Autoscale => if ok {
            DeclareStage::AwaitReady
        } else {
            DeclareStage::RemoveBuildDir
        },
        DeclareStage::AwaitReady => DeclareStage::RemoveBuildDir,
        DeclareStage::RemoveBuildDir => if ok && !failed {
            DeclareStage::Ready
        } else {
            DeclareStage::Failed
        },
        DeclareStage::Ready => DeclareStage::Ready,
        DeclareStage::Failed => DeclareStage::Failed,
    }
}

/// Whether `stage` is the stage of a step that is performed.
pub open spec fn is_step(stage: DeclareStage) -> bool {
    stage != DeclareStage::Ready && stage != DeclareStage::Failed
}

/// The stage that a provisioning is in after steps that went as `outcomes`
/// say, one after the other, from the stage `stage`. `failed` says whether a
/// step has failed before.
pub open spec fn stage_after(
    stage: DeclareStage,
    failed: bool,
    outcomes: Seq<bool>,
    max: u32,
) -> DeclareStage
    decreases outcomes.len(),
{
    if outcomes.len() == 0 {
        stage
    } else {
        stage_after(
            next_stage(stage, outcomes[0], failed, max),
            failed || (is_step(stage) && !outcomes[0]),
            outcomes.drop_first(),
            max,
        )
    }
}

/// The number of steps from `stage` to the end of a provisioning in which
/// every step succeeds.
pub open spec fn steps_left(stage: DeclareStage, max: u32) -> nat {
    let scaling: nat = if max > 1 {
        1
    } else {
        0
    };
    match stage {
        DeclareStage::BuildImage => 7 + scaling,
        DeclareStage::DeployContainer => 6 + scaling,
        DeclareStage::CreateDeployment => 5 + scaling,
        DeclareStage::CreateService => 4 + scaling,
        DeclareStage::ApplyIngress => 3 + scaling,
        DeclareStage::Autoscale => 3,
        DeclareStage::AwaitReady => 2,
        DeclareStage::RemoveBuildDir => 1,
        DeclareStage::Ready => 0,
        DeclareStage::Failed => 0,
    }
}

/// A provisioning that has failed stays failed, and one that has ended well
/// stays so: both stages are final.
pub proof fn lemma_final_stages(failed: bool, outcomes: Seq<bool>, max: u32)
    ensures
        stage_after(DeclareStage::Failed, failed, outcomes, max) == DeclareStage::Failed,
        stage_after(DeclareStage::Ready, failed, outcomes, max) == DeclareStage::Ready,
    decreases outcomes.len(),
{
    if outcomes.len() > 0 {
        lemma_final_stages(failed, outcomes.drop_first(), max);
    }
}

/// Once a step has failed, a provisioning does not end well.
pub proof fn lemma_failure_is_kept(stage: DeclareStage, outcomes: Seq<bool>, max: u32)
    requires
        stage != DeclareStage::Ready,
    ensures
        stage_after(stage, true, outcomes, max) != DeclareStage::Ready,
    decreases outcomes.len(),
{
    if outcomes.len() > 0 {
        let next = next_stage(stage, outcomes[0], true, max);
        lemma_failure_is_kept(next, outcomes.drop_first(), max);
    }
}

/// Whether `outcomes` holds at least `n` outcomes and the first `n` are
/// successes.
pub open spec fn first_succeed(outcomes: Seq<bool>, n: nat) -> bool {
    outcomes.len() >= n && forall|i: int| 0 <= i < n ==> outcomes[i]
}

/// A provisioning ends well if and only if every one of its steps
/// succeeds: from any stage before the end, and with no failed step behind
/// it, the stage after some steps is `Ready` exactly where the steps are at
/// least as many as are left and each of those succeeded.
pub proof fn lemma_ready_iff_every_step_succeeds(stage: DeclareStage, outcomes: Seq<bool>, max: u32)
    requires
        stage != DeclareStage::Failed,
        stage == DeclareStage::Autoscale ==> max > 1,
    ensures
        stage_after(stage, false, outcomes, max) == DeclareStage::Ready <==> first_succeed(
            outcomes,
            steps_left(stage, max),
        ),
    decreases outcomes.len(),
{
    let left = steps_left(stage, max);
    if stage == DeclareStage::Ready {
        lemma_final_stages(false, outcomes, max);
    } else if outcomes.len() == 0 {
        assert(!first_succeed(outcomes, left));
    } else {
        let rest = outcomes.drop_first();
        let next = next_stage(stage, outcomes[0], false, max);
        if !outcomes[0] {
            lemma_failure_is_kept(next, rest, max);
        } else {
            lemma_ready_iff_every_step_succeeds(next, rest, max);
            let next_left = steps_left(next, max);
            if first_succeed(rest, next_left) {
                assert forall|i: int| 0 <= i < left implies outcomes[i] by {
                    if i > 0 {
                        assert(rest[i - 1] == outcomes[i]);
                    }
                }
            }
            if first_succeed(outcomes, left) {
                assert forall|i: int| 0 <= i < next_left implies rest[i] by {
                    assert(rest[i] == outcomes[i + 1]);
                }
            }
        }
    }
}

/// The build directory is always removed: from any step, whatever the
/// outcomes, a provisioning does not end before the step that removes the
/// build directory has been performed.
pub proof fn lemma_build_dir_is_removed(stage: DeclareStage, failed: bool, ok: bool, max: u32)
    requires
        is_step(stage),
    ensures
        !is_step(next_stage(stage, ok, failed, max)) ==> stage == DeclareStage::RemoveBuildDir,
{
}

/// The one call that ends a backend reaches every object that the backend
/// made: the label that it selects by is the label that each Deployment,
/// Service and Ingress of the run carries.
pub proof fn lemma_teardown_selects_every_object(
    function_name: Seq<char>,
    run_id: u128,
    deployment: DeploymentManifest,
    service: ServiceManifest,
    ingress: IngressManifest,
)
    requires
        deployment.is_for(function_name, run_id, deployment.image@),
        service.is_for(function_name, run_id),
        ingress.is_for(function_name, run_id),
    ensures
        teardown_args_spec(run_id).len() == 4,
        teardown_args_spec(run_id)[3] == RUN_ID_LABEL@ + "="@ + deployment.run_id_label@,
        teardown_args_spec(run_id)[3] == RUN_ID_LABEL@ + "="@ + service.run_id_label@,
        teardown_args_spec(run_id)[3] == RUN_ID_LABEL@ + "="@ + ingress.run_id_label@,
{
}

/// The URL that a call on this backend requests has the shape of every
/// call's URL: the address of the Ingress, the function's name, the run id
/// and the encoded arguments, with `/` between them.
pub proof fn lemma_dispatch_url_shape(function_name: Seq<char>, run_id: u128, params: Seq<char>)
    ensures
        base_url_spec(function_name, run_id) + params == request_url_spec(
            external_origin_spec(),
            function_name,
            hyphenated_spec(run_id),
            params,
        ),
{
    assert(base_url_spec(function_name, run_id) + params =~= request_url_spec(
        external_origin_spec(),
        function_name,
        hyphenated_spec(run_id),
        params,
    ));
}

/// The Kubernetes backend: the replica limit, the run id and the URL of each
/// function that has been declared.
#[derive(Debug)]
pub struct K8s {
    pub max_scale_n: u32,
    pub fn_names_to_ips: NameMap<String>,
    pub run_id: RunId,
    pub release: bool,
}

impl K8s {
    /// A backend without declared functions, under a fresh run id. Each
    /// function gets at most `max` replicas; with `max` equal to 1 no replica
    /// ceiling is set; a limit below 1 is no limit to construct with.
    /// `release` says whether services are built as release builds.
    pub fn with_deploy_function_and_max_replicas(max: u32, release: bool) -> (k8s: K8s)
        requires
            max >= 1,
        ensures
            k8s.well_formed(),
            k8s.max_scale_n == max,
            k8s.release == release,
            k8s.fn_names_to_ips@ == Map::<Seq<char>, String>::empty(),
            k8s.declared() == Set::<Seq<char>>::empty(),
            crate::run_id::is_version_4(k8s.run_id.value),
    {
        K8s {
            max_scale_n: max,
            fn_names_to_ips: NameMap::new(),
            run_id: RunId::generate(),
            release,
        }
    }

    /// Whether `action` is what the stage of `decl` asks for.
    pub open spec fn action_fits(&self, decl: &Declaration, action: &DeclareAction) -> bool {
        let name = decl.function_name@;
        let id = self.run_id.value;
        match decl.stage {
            DeclareStage::BuildImage => action matches DeclareAction::BuildImage(b) && b.is_for(
                app_name_spec(name, id),
                name,
                self.release,
            ),
            DeclareStage::RemoveBuildDir => action matches DeclareAction::RemoveBuildDir(d) && d@
                == build_dir_spec(app_name_spec(name, id)),
            DeclareStage::DeployContainer => action matches DeclareAction::DeployContainer(t)
                && t@ == image_tag_spec(app_name_spec(name, id)),
            DeclareStage::CreateDeployment => action matches DeclareAction::CreateDeployment(m)
                && m.is_for(name, id, decl.image@),
            DeclareStage::CreateService => action matches DeclareAction::CreateService(m)
                && m.is_for(name, id),
            DeclareStage::ApplyIngress => action matches DeclareAction::ApplyIngress(m)
                && m.is_for(name, id),
            DeclareStage::Autoscale => action matches DeclareAction::Autoscale(args) && views(
                args@,
            ) == autoscale_args_spec(deployment_name_spec(name, id), self.max_scale_n),
            DeclareStage::AwaitReady => action matches DeclareAction::AwaitReady(r)
                && r.is_bounded_by(READINESS_DEADLINE_MS),
            DeclareStage::Ready => action matches DeclareAction::Done(Ok(_)),
            DeclareStage::Failed => action matches DeclareAction::Done(
                Err(DistributionError::DeclareStep(why)),
            ) && why@ == decl.failure@,
        }
    }

    /// The action that the stage of `decl` asks for.
    pub fn action_of(&self, decl: &Declaration) -> (action: DeclareAction)
        ensures
            self.action_fits(decl, &action),
    {
        let name = decl.function_name.as_str();
        let app = app_name(name, &self.run_id);
        let id = self.run_id.to_hyphenated();
        match decl.stage {
            DeclareStage::BuildImage => DeclareAction::BuildImage(
                make_image(self, app.as_str(), name),
            ),
            DeclareStage::RemoveBuildDir => {
                let mut dir = String::from_str(".turbolift");
                dir.append("/");
                dir.append(app.as_str());
                dir.append("_k8s_temp_dir");
                DeclareAction::RemoveBuildDir(dir)
            },
            DeclareStage::DeployContainer => DeclareAction::DeployContainer(
                concat2(app.as_str(), ":turbolift"),
            ),
            DeclareStage::CreateDeployment => DeclareAction::CreateDeployment(
                DeploymentManifest {
                    name: concat2(app.as_str(), "-deployment"),
                    run_id_label: id,
                    app_label: app.clone(),
                    replicas: 1,
                    pod_name: concat2(app.as_str(), "-app"),
                    container_name: concat2(app.as_str(), "-app"),
                    image: decl.image.clone(),
                },
            ),
            DeclareStage::CreateService => DeclareAction::CreateService(
                ServiceManifest {
                    name: concat2(app.as_str(), "-service"),
                    run_id_label: id,
                    selector_app: app.clone(),
                    port: SERVICE_PORT,
                    target_port: CONTAINER_PORT,
                },
            ),
            DeclareStage::ApplyIngress => {
                let mut path = String::from_str("/");
                path.append(name);
                path.append("/");
                path.append(id.as_str());
                path.append("/");
                DeclareAction::ApplyIngress(
                    IngressManifest {
                        name: concat2(app.as_str(), "-ingress"),
                        run_id_label: id,
                        path,
                        path_type: String::from_str("Prefix"),
                        service_name: concat2(app.as_str(), "-service"),
                        service_port: SERVICE_PORT,
                    },
                )
            },
            DeclareStage::Autoscale => {
                let max = decimal(self.max_scale_n as u128);
                let mut args: Vec<String> = Vec::new();
                args.push(String::from_str("autoscale"));
                args.push(String::from_str("deployment"));
                args.push(concat2(app.as_str(), "-deployment"));
                args.push(concat2("--max=", max.as_str()));
                assert(views(args@) =~= autoscale_args_spec(
                    deployment_name_spec(decl.function_name@, self.run_id.value),
                    self.max_scale_n,
                ));
                DeclareAction::Autoscale(args)
            },
            DeclareStage::AwaitReady => DeclareAction::AwaitReady(
                readiness(READINESS_DEADLINE_MS),
            ),
            DeclareStage::Ready => DeclareAction::Done(Ok(())),
            DeclareStage::Failed => DeclareAction::Done(
                Err(DistributionError::DeclareStep(decl.failure.clone())),
            ),
        }
    }

    /// Takes the provisioning `decl` one step further, after its current step
    /// went as `outcome` says, and gives the next thing to do.
    ///
    /// Any failed step is followed by the removal of the build directory and
    /// ends the provisioning; the function then stays undeclared. The replica
    /// ceiling is set only where the limit is above 1. When every step has
    /// succeeded, the removal of the build directory being the last, the
    /// function is recorded under the URL of its Ingress, and is declared from
    /// then on.
    pub fn declare_step(&mut self, decl: &mut Declaration, outcome: StepOutcome) -> (action:
        DeclareAction)
        requires
            old(self).well_formed(),
        ensures
            final(self).well_formed(),
            final(self).max_scale_n == old(self).max_scale_n,
            final(self).run_id == old(self).run_id,
            final(self).release == old(self).release,
            final(decl).function_name@ == old(decl).function_name@,
            final(decl).failed == (old(decl).failed || (is_step(old(decl).stage) && !outcome.ok)),
            final(decl).stage == next_stage(
                old(decl).stage,
                outcome.ok,
                old(decl).failed,
                old(self).max_scale_n,
            ),
            final(decl).image@ == if old(decl).stage == DeclareStage::DeployContainer && outcome.ok {
                outcome.detail@
            } else {
                old(decl).image@
            },
            final(decl).failure@ == if is_step(old(decl).stage) && !outcome.ok
                && !old(decl).failed {
                outcome.detail@
            } else {
                old(decl).failure@
            },
            final(self).action_fits(final(decl), &action),
            final(self).declared() == if final(decl).stage == DeclareStage::Ready
                && old(decl).stage != DeclareStage::Ready {
                old(self).declared().insert(old(decl).function_name@)
            } else {
                old(self).declared()
            },
            final(decl).stage == DeclareStage::Ready && old(decl).stage != DeclareStage::Ready
                ==> final(self).fn_names_to_ips@[old(decl).function_name@]@ == base_url_spec(
                old(decl).function_name@,
                old(self).run_id.value,
            ),
            final(self).fn_names_to_ips@ == if final(decl).stage == DeclareStage::Ready
                && old(decl).stage != DeclareStage::Ready {
                old(self).fn_names_to_ips@.insert(
                    old(decl).function_name@,
                    final(self).fn_names_to_ips@[old(decl).function_name@],
                )
            } else {
                old(self).fn_names_to_ips@
            },
    {
        let stage = decl.stage;
        let ok = outcome.ok;
        let failed_before = decl.failed;
        let step = match stage {
            DeclareStage::Ready => false,
            DeclareStage::Failed => false,
            _ => true,
        };
        if step && !ok {
            if !failed_before {
                decl.failure = outcome.detail.clone();
            }
            decl.failed = true;
        }
        match stage {
            DeclareStage::BuildImage => {
                decl.stage = if ok {
                    DeclareStage::DeployContainer
                } else {
                    DeclareStage::RemoveBuildDir
                };
            },
            DeclareStage::DeployContainer => {
                if ok {
                    decl.image = outcome.detail.clone();
                    decl.stage = DeclareStage::CreateDeployment;
                } else {
                    decl.stage = DeclareStage::RemoveBuildDir;
                }
            },
            DeclareStage::CreateDeployment => {
                decl.stage = if ok {
                    DeclareStage::CreateService
                } else {
                    DeclareStage::RemoveBuildDir
                };
            },
            DeclareStage::CreateService => {
                decl.stage = if ok {
                    DeclareStage::ApplyIngress
                } else {
                    DeclareStage::RemoveBuildDir
                };
            },
            DeclareStage::ApplyIngress => {
                decl.stage = if !ok {
                    DeclareStage::RemoveBuildDir
                } else if self.max_scale_n > 1 {
                    DeclareStage::Autoscale
                } else {
                    DeclareStage::AwaitReady
                };
            },
            DeclareStage::Autoscale => {
                decl.stage = if ok {
                    DeclareStage::AwaitReady
                } else {
                    DeclareStage::RemoveBuildDir
                };
            },
            DeclareStage::AwaitReady => {
                decl.stage = DeclareStage::RemoveBuildDir;
            },
            DeclareStage::RemoveBuildDir => {
                if ok && !failed_before {
                    let url = base_url(decl.function_name.as_str(), &self.run_id);
                    self.fn_names_to_ips.insert(decl.function_name.clone(), url);
                    decl.stage = DeclareStage::Ready;
                } else {
                    decl.stage = DeclareStage::Failed;
                }
            },
            DeclareStage::Ready => {},
            DeclareStage::Failed => {},
        }
        self.action_of(decl)
    }

    /// Ends the backend: gives the arguments of the one `kubectl` call that
    /// deletes every object labelled with this run id, and forgets every
    /// function.
    pub fn teardown(&mut self) -> (args: Vec<String>)
        requires
            old(self).well_formed(),
        ensures
            final(self).well_formed(),
            final(self).declared() == Set::<Seq<char>>::empty(),
            final(self).run_id == old(self).run_id,
            final(self).max_scale_n == old(self).max_scale_n,
            views(args@) == teardown_args_spec(old(self).run_id.value),
    {
        let _ = self.fn_names_to_ips.take_all();
        let id = self.run_id.to_hyphenated();
        let mut args: Vec<String> = Vec::new();
        args.push(String::from_str("delete"));
        args.push(String::from_str("pods,deployments,services,ingress"));
        args.push(String::from_str("-l"));
        args.push(concat3(RUN_ID_LABEL, "=", id.as_str()));
        args
    }
}

impl DistributionPlatform for K8s {
    type Declaration = (Declaration, DeclareAction);

    open spec fn well_formed(&self) -> bool {
        self.fn_names_to_ips.wf() && self.max_scale_n >= 1
    }

    open spec fn declared(&self) -> Set<Seq<char>> {
        self.fn_names_to_ips@.dom()
    }

    open spec fn declares(declaration: &(Declaration, DeclareAction)) -> Seq<char> {
        declaration.0.function_name@
    }

    /// Begins the provisioning of `function_name`: the first step is the
    /// build of its image. The backend is left as it is until the last step
    /// has succeeded.
    fn declare(&self, function_name: &str) -> (r: (Declaration, DeclareAction))
        ensures
            r.0.function_name@ == function_name@,
            r.0.stage == DeclareStage::BuildImage,
            !r.0.failed,
            r.0.image@ == Seq::<char>::empty(),
            r.0.failure@ == Seq::<char>::empty(),
            self.action_fits(&r.0, &r.1),
    {
        let decl = Declaration {
            function_name: String::from_str(function_name),
            stage: DeclareStage::BuildImage,
            failed: false,
            image: String::new(),
            failure: String::new(),
        };
        let action = self.action_of(&decl);
        (decl, action)
    }

    /// What a call of `function_name` with the encoded arguments `params`
    /// needs: the request of the recorded URL of the function followed by
    /// the arguments. A function that is not declared cannot be called.
    fn dispatch(&self, function_name: &str, params: &str) -> (r: DistributionResult<DispatchAction>)
        ensures
            match r {
                Ok(DispatchAction::Request(url)) => self.declared().contains(function_name@) && url@
                    == self.fn_names_to_ips@[function_name@]@ + params@,
                Ok(DispatchAction::Spawn(_)) => false,
                Err(e) => {
                    &&& !self.declared().contains(function_name@)
                    &&& e matches DistributionError::NotReady(n) && n@ == function_name@
                },
            },
    {
        match self.fn_names_to_ips.get(function_name) {
            Some(base) => Ok(DispatchAction::Request(concat2(base.as_str(), params))),
            None => Err(DistributionError::NotReady(String::from_str(function_name))),
        }
    }

    fn has_declared(&self, fn_name: &str) -> (b: bool) {
        self.fn_names_to_ips.contains_key(fn_name)
    }
}

} // verus!
