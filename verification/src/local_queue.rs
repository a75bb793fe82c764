//! The local backend: each function runs as a process on this machine, bound
//! to a loopback port. The backend says what to unpack, build and start; the
//! caller does so and reports back.
use vstd::prelude::*;
use vstd::string::*;

use crate::build_project::{
    build_args_spec, executable_path_spec, make_executable, ExecutablePlan, PACKAGE_SUFFIX,
};
use crate::distributed_platform::{
    request_url, request_url_spec, DispatchAction, DistributionError, DistributionPlatform,
    DistributionResult, ServerStart, StepOutcome,
};
use crate::readiness::readiness;
use crate::registry::NameMap;
use crate::run_id::{hyphenated_spec, RunId};
use crate::text::{concat2, decimal, decimal_spec};

verus! {

/// Directory, below the cache directory, into which bundles are unpacked.
pub const WORKER_BUILD_CACHE: &'static str = ".turbolift/.worker_build_cache";

/// Address on which every service listens.
pub const LOOPBACK: &'static str = "127.0.0.1";

/// Port of the first service that is started; each later one gets the next.
pub const FIRST_PORT: u16 = 8101;

/// Milliseconds after which a started service is no longer waited for.
pub const WARM_UP_MS: u64 = 60_000;

/// Where the project of `function_name` lies once its bundle is unpacked.
pub open spec fn project_dir_spec(function_name: Seq<char>) -> Seq<char> {
    WORKER_BUILD_CACHE@ + "/"@ + function_name
}

/// Where the built binary of `function_name` is put:
/// `<cache>/<function name>_<run id>_server`, the run id in decimal.
pub open spec fn server_path_spec(function_name: Seq<char>, run_id: u128) -> Seq<char> {
    ".turbolift/"@ + function_name + "_"@ + decimal_spec(run_id as nat) + "_server"@
}

/// The address `127.0.0.1:<port>`.
pub open spec fn listen_address_spec(port: u16) -> Seq<char> {
    LOOPBACK@ + ":"@ + decimal_spec(port as nat)
}

/// What it takes to declare a function: where its bundle is unpacked, and
/// how the project found there is built and its binary put in place.
#[derive(Debug)]
pub struct LocalDeclaration {
    pub function_name: String,
    pub unpack_into: String,
    pub build: ExecutablePlan,
    pub executable: String,
}

/// The local backend: for each function the path of its binary once it is
/// declared, and the URL and the process of its service once that runs.
#[derive(Debug)]
pub struct LocalQueue {
    pub fn_name_to_address: NameMap<String>,
    pub fn_name_to_process: NameMap<u32>,
    pub fn_name_to_binary_path: NameMap<String>,
    pub run_id: RunId,
    pub next_port: u16,
}

/// How often the service of `function_name` is started, and which services
/// run in the end, when `calls` calls of the function are dispatched one
/// after the other on a backend that has declared it and has ports left.
/// `serving` are the functions whose services run before the first call. A
/// call starts the service if and only if it does not run, and it runs from
/// then on.
pub open spec fn spawns_during(serving: Set<Seq<char>>, function_name: Seq<char>, calls: nat) -> (
    nat,
    Set<Seq<char>>,
)
    decreases calls,
{
    if calls == 0 {
        (0, serving)
    } else if serving.contains(function_name) {
        spawns_during(serving, function_name, (calls - 1) as nat)
    } else {
        let (n, after) = spawns_during(
            serving.insert(function_name),
            function_name,
            (calls - 1) as nat,
        );
        (n + 1, after)
    }
}

/// A service that runs is not started again.
pub proof fn lemma_serving_stays(serving: Set<Seq<char>>, function_name: Seq<char>, calls: nat)
    requires
        serving.contains(function_name),
    ensures
        spawns_during(serving, function_name, calls) == (0nat, serving),
    decreases calls,
{
    if calls > 0 {
        lemma_serving_stays(serving, function_name, (calls - 1) as nat);
    }
}

/// One process serves all calls of a function: of any number of calls, the
/// first starts the service and every later one uses it.
pub proof fn lemma_spawned_once(serving: Set<Seq<char>>, function_name: Seq<char>, calls: nat)
    requires
        !serving.contains(function_name),
        calls >= 1,
    ensures
        spawns_during(serving, function_name, calls) == (1nat, serving.insert(function_name)),
{
    lemma_serving_stays(serving.insert(function_name), function_name, (calls - 1) as nat);
}

impl LocalQueue {
    /// The functions whose services run.
    pub open spec fn serving(&self) -> Set<Seq<char>> {
        self.fn_name_to_address@.dom()
    }

    /// Whether a call of `function_name` starts the function's service
    /// first: the function is declared, its service does not run, and a port
    /// is left.
    pub open spec fn starts_service(&self, function_name: Seq<char>) -> bool {
        &&& !self.serving().contains(function_name)
        &&& self.declared().contains(function_name)
        &&& self.next_port < u16::MAX
    }

    /// A backend without functions, under a fresh run id.
    pub fn new() -> (q: LocalQueue)
        ensures
            q.well_formed(),
            q.declared() == Set::<Seq<char>>::empty(),
            q.fn_name_to_address@ == Map::<Seq<char>, String>::empty(),
            q.fn_name_to_process@ == Map::<Seq<char>, u32>::empty(),
            q.next_port == FIRST_PORT,
    {
        let q = LocalQueue {
            fn_name_to_address: NameMap::new(),
            fn_name_to_process: NameMap::new(),
            fn_name_to_binary_path: NameMap::new(),
            run_id: RunId::generate(),
            next_port: FIRST_PORT,
        };
        q
    }

    /// Ends a declaration after its steps went as `outcome` says. On success
    /// the function's binary is recorded and the function is declared; on
    /// failure nothing changes and the failure is reported as a declare
    /// error.
    pub fn finish_declare(&mut self, plan: &LocalDeclaration, outcome: StepOutcome) -> (r:
        DistributionResult<()>)
        requires
            old(self).well_formed(),
        ensures
            final(self).well_formed(),
            final(self).run_id == old(self).run_id,
            final(self).next_port == old(self).next_port,
            final(self).fn_name_to_address == old(self).fn_name_to_address,
            final(self).fn_name_to_process == old(self).fn_name_to_process,
            match r {
                Ok(_) => {
                    &&& outcome.ok
                    &&& final(self).declared() == old(self).declared().insert(plan.function_name@)
                    &&& final(self).fn_name_to_binary_path@
                        == old(self).fn_name_to_binary_path@.insert(
                        plan.function_name@,
                        final(self).fn_name_to_binary_path@[plan.function_name@],
                    )
                    &&& final(self).fn_name_to_binary_path@[plan.function_name@]@
                        == plan.executable@
                },
                Err(e) => {
                    &&& !outcome.ok
                    &&& final(self).fn_name_to_binary_path == old(self).fn_name_to_binary_path
                    &&& e matches DistributionError::DeclareStep(why) && why@ == outcome.detail@
                },
            },
    {
        if outcome.ok {
            self.fn_name_to_binary_path.insert(plan.function_name.clone(), plan.executable.clone());
            Ok(())
        } else {
            Err(DistributionError::DeclareStep(outcome.detail))
        }
    }

    /// Records that the service of `start` runs, as the process `process`:
    /// from now on calls of the function are requests to its URL, and the
    /// next service gets the next port, as long as there is one. Nothing is
    /// recorded for a function that is not declared; the result says whether
    /// the service was recorded.
    pub fn server_started(&mut self, start: &ServerStart, process: u32) -> (recorded: bool)
        requires
            old(self).well_formed(),
        ensures
            final(self).well_formed(),
            final(self).run_id == old(self).run_id,
            final(self).fn_name_to_binary_path == old(self).fn_name_to_binary_path,
            recorded == old(self).declared().contains(start.function_name@),
            final(self).serving() == if recorded {
                old(self).serving().insert(start.function_name@)
            } else {
                old(self).serving()
            },
            recorded ==> {
                &&& final(self).next_port == if old(self).next_port < u16::MAX {
                    (old(self).next_port + 1) as u16
                } else {
                    old(self).next_port
                }
                &&& final(self).fn_name_to_address@ == old(self).fn_name_to_address@.insert(
                    start.function_name@,
                    final(self).fn_name_to_address@[start.function_name@],
                )
                &&& final(self).fn_name_to_address@[start.function_name@]@ == start.base_url@
                &&& final(self).fn_name_to_process@ == old(self).fn_name_to_process@.insert(
                    start.function_name@,
                    process,
                )
            },
            !recorded ==> {
                &&& final(self).next_port == old(self).next_port
                &&& final(self).fn_name_to_address == old(self).fn_name_to_address
                &&& final(self).fn_name_to_process == old(self).fn_name_to_process
            },
    {
        if !self.fn_name_to_binary_path.contains_key(start.function_name.as_str()) {
            return false;
        }
        self.fn_name_to_address.insert(start.function_name.clone(), start.base_url.clone());
        self.fn_name_to_process.insert(start.function_name.clone(), process);
        if self.next_port < u16::MAX {
            self.next_port = self.next_port + 1;
        }
        true
    }

    /// Ends the backend: gives the processes of the running services, which
    /// are to be killed, and forgets every service. The binaries stay
    /// recorded.
    pub fn teardown(&mut self) -> (processes: Vec<u32>)
        requires
            old(self).well_formed(),
        ensures
            final(self).well_formed(),
            final(self).run_id == old(self).run_id,
            final(self).fn_name_to_binary_path == old(self).fn_name_to_binary_path,
            final(self).fn_name_to_address@ == Map::<Seq<char>, String>::empty(),
            final(self).fn_name_to_process@ == Map::<Seq<char>, u32>::empty(),
            processes.len() == old(self).fn_name_to_process.entries.len(),
            forall|i: int|
                0 <= i < processes.len() ==> processes[i] == (
                #[trigger] old(self).fn_name_to_process.entries[i]).1,
    {
        let _ = self.fn_name_to_address.take_all();
        let entries = self.fn_name_to_process.take_all();
        let mut processes: Vec<u32> = Vec::new();
        let mut i: usize = 0;
        while i < entries.len()
            invariant
                i <= entries.len(),
                processes.len() == i,
                forall|j: int| 0 <= j < i ==> processes[j] == (#[trigger] entries[j]).1,
            decreases entries.len() - i,
        {
            processes.push(entries[i].1);
            i += 1;
        }
        processes
    }
}

impl DistributionPlatform for LocalQueue {
    type Declaration = LocalDeclaration;

    open spec fn declares(declaration: &LocalDeclaration) -> Seq<char> {
        declaration.function_name@
    }

    /// What it takes to declare `function_name`: its bundle is unpacked into
    /// the worker's build directory, the project found there under the
    /// function's name is built as a release build, and the binary is moved
    /// into the cache directory under a name that holds the run id.
    fn declare(&self, function_name: &str) -> (plan: LocalDeclaration)
        ensures
            plan.function_name@ == function_name@,
            plan.unpack_into@ == WORKER_BUILD_CACHE@,
            plan.executable@ == server_path_spec(function_name@, self.run_id.value),
            plan.build.build.command.is(
                "cargo"@,
                build_args_spec(true),
                project_dir_spec(function_name@),
            ),
            plan.build.rename matches Some(r) && r.0@ == executable_path_spec(
                project_dir_spec(function_name@),
                function_name@ + PACKAGE_SUFFIX@,
                true,
            ) && r.1@ == plan.executable@,
    {
        let mut project_dir = String::from_str(WORKER_BUILD_CACHE);
        project_dir.append("/");
        project_dir.append(function_name);
        let id = self.run_id.to_decimal();
        let mut executable = String::from_str(".turbolift/");
        executable.append(function_name);
        executable.append("_");
        executable.append(id.as_str());
        executable.append("_server");
        let package = concat2(function_name, PACKAGE_SUFFIX);
        let build = make_executable(
            project_dir.as_str(),
            package.as_str(),
            Some(executable.as_str()),
            true,
        );
        LocalDeclaration {
            function_name: String::from_str(function_name),
            unpack_into: String::from_str(WORKER_BUILD_CACHE),
            build,
            executable,
        }
    }

    /// What a call of `function_name` with the encoded arguments `params`
    /// needs next. Where the function's service runs, it is the request of
    /// `<base>/<function name>/<run id>/<params>`. Where the function is
    /// declared and its service does not run yet, the service is started on
    /// the next free loopback port. A function that is not declared cannot be
    /// called, and neither can one for which no port is left.
    fn dispatch(&self, function_name: &str, params: &str) -> (r: DistributionResult<
        DispatchAction,
    >)
        ensures
            (r matches Ok(DispatchAction::Spawn(_))) == self.starts_service(function_name@),
            (r matches Ok(DispatchAction::Request(_))) == self.serving().contains(function_name@),
            match r {
                Ok(DispatchAction::Request(url)) => {
                    &&& self.fn_name_to_address@.dom().contains(function_name@)
                    &&& url@ == request_url_spec(
                        self.fn_name_to_address@[function_name@]@,
                        function_name@,
                        hyphenated_spec(self.run_id.value),
                        params@,
                    )
                },
                Ok(DispatchAction::Spawn(start)) => {
                    &&& !self.fn_name_to_address@.dom().contains(function_name@)
                    &&& self.declared().contains(function_name@)
                    &&& self.next_port < u16::MAX
                    &&& start.function_name@ == function_name@
                    &&& start.executable@ == self.fn_name_to_binary_path@[function_name@]@
                    &&& start.listen_address@ == listen_address_spec(self.next_port)
                    &&& start.base_url@ == "http://"@ + listen_address_spec(self.next_port)
                    &&& start.readiness.is_bounded_by(WARM_UP_MS)
                },
                Err(e) => {
                    &&& !self.fn_name_to_address@.dom().contains(function_name@)
                    &&& if self.declared().contains(function_name@) {
                        self.next_port == u16::MAX && e matches DistributionError::Transport(_)
                    } else {
                        e matches DistributionError::NotReady(n) && n@ == function_name@
                    }
                },
            },
    {
        match self.fn_name_to_address.get(function_name) {
            Some(base) => {
                let id = self.run_id.to_hyphenated();
                Ok(
                    DispatchAction::Request(
                        request_url(base.as_str(), function_name, id.as_str(), params),
                    ),
                )
            },
            None => match self.fn_name_to_binary_path.get(function_name) {
                Some(executable) => {
                    if self.next_port == u16::MAX {
                        return Err(
                            DistributionError::Transport(String::from_str("no loopback port is left")),
                        );
                    }
                    let port = decimal(self.next_port as u128);
                    let mut listen_address = String::from_str(LOOPBACK);
                    listen_address.append(":");
                    listen_address.append(port.as_str());
                    let base_url = concat2("http://", listen_address.as_str());
                    Ok(
                        DispatchAction::Spawn(
                            ServerStart {
                                function_name: String::from_str(function_name),
                                executable: executable.clone(),
                                listen_address,
                                base_url,
                                readiness: readiness(WARM_UP_MS),
                            },
                        ),
                    )
                },
                None => Err(DistributionError::NotReady(String::from_str(function_name))),
            },
        }
    }

    open spec fn well_formed(&self) -> bool {
        &&& self.fn_name_to_address.wf()
        &&& self.fn_name_to_process.wf()
        &&& self.fn_name_to_binary_path.wf()
        &&& self.fn_name_to_address@.dom().subset_of(self.fn_name_to_binary_path@.dom())
    }

    open spec fn declared(&self) -> Set<Seq<char>> {
        self.fn_name_to_binary_path@.dom()
    }

    fn has_declared(&self, fn_name: &str) -> (b: bool) {
        self.fn_name_to_binary_path.contains_key(fn_name)
    }
}

} // verus!
