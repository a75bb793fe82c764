//! What every distribution platform has in common: the errors it reports,
//! the operations it offers, and the course of a call, from the declaration
//! of the function to the answer of its service.
use vstd::prelude::*;
use vstd::string::*;
use vstd::utf8::encode_utf8;

use crate::json::{is_json_value, parses_as_json};
use crate::percent::{
    ascii_bytes, is_plain, lemma_decode_encoded, lemma_decode_plain, percent_decode_spec,
    percent_encode, percent_encode_spec,
};
use crate::readiness::Readiness;
use crate::text::{join_spec, lemma_join_push};

verus! {

/// Arguments of one call: the encoded arguments, joined with `/`.
pub type ArgsString = String;

/// Body of a service's answer: one JSON value.
pub type JsonResponse = String;

/// The kinds of failure.
#[derive(Debug, Clone, Copy, PartialEq, Eq, Structural)]
pub enum ErrorKind {
    /// The derived project could not be made or built.
    Build,
    /// A function could not be provisioned; it stays undeclared.
    Declare,
    /// A call failed in transport or decoding; the deployment stays.
    Dispatch,
    /// A backend or a manifest was set up wrongly.
    Configuration,
    /// Resources could not be released.
    Teardown,
}

/// A failure, with what it was about.
#[derive(Debug)]
pub enum DistributionError {
    /// A method receiver stands among the parameters of the function.
    Receiver,
    /// The lines to remove do not lie within the file.
    SpanOutOfRange,
    /// The name of the entry point does not stand where it is said to.
    EntryPoint,
    /// A name cannot stand in an archive; the name is given.
    EntryName(String),
    /// A step of making the derived project failed; the step is described.
    BuildStep(String),
    /// A step of provisioning failed; the step is described.
    DeclareStep(String),
    /// The function has no running service to call.
    NotReady(String),
    /// The service answered with a status outside 200..299.
    Status(u16),
    /// The request could not be made or answered; the cause is described.
    Transport(String),
    /// The body of the answer is no JSON value; the body is given.
    Decode(String),
    /// Two path dependencies share the given name.
    NameCollision(String),
    /// The name of a path dependency cannot name a directory.
    DependencyName(String),
    /// Resources could not be released; the cause is described.
    Teardown(String),
}

impl DistributionError {
    /// The kind of this failure.
    pub open spec fn kind_spec(&self) -> ErrorKind {
        match self {
            DistributionError::Receiver => ErrorKind::Build,
            DistributionError::SpanOutOfRange => ErrorKind::Build,
            DistributionError::EntryPoint => ErrorKind::Build,
            DistributionError::EntryName(_) => ErrorKind::Build,
            DistributionError::BuildStep(_) => ErrorKind::Build,
            DistributionError::DeclareStep(_) => ErrorKind::Declare,
            DistributionError::NotReady(_) => ErrorKind::Dispatch,
            DistributionError::Status(_) => ErrorKind::Dispatch,
            DistributionError::Transport(_) => ErrorKind::Dispatch,
            DistributionError::Decode(_) => ErrorKind::Dispatch,
            DistributionError::NameCollision(_) => ErrorKind::Configuration,
            DistributionError::DependencyName(_) => ErrorKind::Configuration,
            DistributionError::Teardown(_) => ErrorKind::Teardown,
        }
    }

    /// The kind of this failure.
    pub fn kind(&self) -> (k: ErrorKind)
        ensures
            k == self.kind_spec(),
    {
        match self {
            DistributionError::Receiver => ErrorKind::Build,
            DistributionError::SpanOutOfRange => ErrorKind::Build,
            DistributionError::EntryPoint => ErrorKind::Build,
            DistributionError::EntryName(_) => ErrorKind::Build,
            DistributionError::BuildStep(_) => ErrorKind::Build,
            DistributionError::DeclareStep(_) => ErrorKind::Declare,
            DistributionError::NotReady(_) => ErrorKind::Dispatch,
            DistributionError::Status(_) => ErrorKind::Dispatch,
            DistributionError::Transport(_) => ErrorKind::Dispatch,
            DistributionError::Decode(_) => ErrorKind::Dispatch,
            DistributionError::NameCollision(_) => ErrorKind::Configuration,
            DistributionError::DependencyName(_) => ErrorKind::Configuration,
            DistributionError::Teardown(_) => ErrorKind::Teardown,
        }
    }
}

/// Result of an operation of a platform.
pub type DistributionResult<T> = Result<T, DistributionError>;

/// What it takes to start a function's service: the binary, the address that
/// it is given as its one argument, the URL under which it then answers, and
/// how it is waited for.
#[derive(Debug)]
pub struct ServerStart {
    pub function_name: String,
    pub executable: String,
    pub listen_address: String,
    pub base_url: String,
    pub readiness: Readiness,
}

/// What a call needs next.
#[derive(Debug)]
pub enum DispatchAction {
    /// The service does not run yet: it is started first.
    Spawn(ServerStart),
    /// The service runs: this URL is requested.
    Request(String),
}

/// A backend on which functions are declared and then called. A platform
/// touches nothing outside itself: it says what is to be done, and is told
/// how it went.
pub trait DistributionPlatform {
    /// What it takes to declare a function on this platform.
    type Declaration;

    /// The internal invariant of the platform.
    spec fn well_formed(&self) -> bool;

    /// The names of the functions that have been declared.
    spec fn declared(&self) -> Set<Seq<char>>;

    /// The function that a declaration provisions.
    spec fn declares(declaration: &Self::Declaration) -> Seq<char>;

    /// What it takes to declare `function_name`. The platform stays as it is
    /// until the declaration has succeeded.
    fn declare(&self, function_name: &str) -> (declaration: Self::Declaration)
        requires
            self.well_formed(),
        ensures
            Self::declares(&declaration) == function_name@,
    ;

    /// What a call of `function_name` with the encoded arguments `params`
    /// needs next. Only a function that has been declared can be called.
    fn dispatch(&self, function_name: &str, params: &str) -> (r: DistributionResult<DispatchAction>)
        requires
            self.well_formed(),
        ensures
            r is Ok ==> self.declared().contains(function_name@),
            !self.declared().contains(function_name@) ==> (r matches Err(
                DistributionError::NotReady(n),
            ) && n@ == function_name@),
    ;

    /// Whether `fn_name` has been declared on this platform.
    fn has_declared(&self, fn_name: &str) -> (b: bool)
        requires
            self.well_formed(),
        ensures
            b == self.declared().contains(fn_name@),
    ;
}

/// The arguments of a call as they stand in the URL: each argument's JSON
/// text, percent-encoded.
pub open spec fn encoded_args(json_args: Seq<String>) -> Seq<Seq<char>> {
    Seq::new(json_args.len(), |i: int| percent_encode_spec(encode_utf8(json_args[i]@)))
}

/// The bytes of each argument's JSON text.
pub open spec fn args_bytes(json_args: Seq<String>) -> Seq<Seq<u8>> {
    Seq::new(json_args.len(), |i: int| encode_utf8(json_args[i]@))
}

/// The URL of one call:
/// `<base>/<function name>/<run id>/<encoded arguments>`.
pub open spec fn request_url_spec(
    base: Seq<char>,
    function_name: Seq<char>,
    run_id: Seq<char>,
    params: Seq<char>,
) -> Seq<char> {
    base + "/"@ + function_name + "/"@ + run_id + "/"@ + params
}

/// The step that a call of a function begins with.
#[derive(Debug, Clone, Copy, PartialEq, Eq, Structural)]
pub enum CallStep {
    /// The function is to be declared first.
    Declare,
    /// The function is declared: the call is dispatched.
    Dispatch,
}

/// How often `function_name` is declared, and which functions are declared
/// in the end, when calls of it run one after the other, each holding the
/// platform for itself. `declared` are the functions that are declared before
/// the first call; `outcomes[i]` says whether a declare by call `i` would
/// succeed. A call declares the function if and only if it finds it
/// undeclared, and the function is declared from then on if and only if that
/// succeeds.
pub open spec fn declares_during(
    declared: Set<Seq<char>>,
    function_name: Seq<char>,
    outcomes: Seq<bool>,
) -> (nat, Set<Seq<char>>)
    decreases outcomes.len(),
{
    if outcomes.len() == 0 {
        (0, declared)
    } else if declared.contains(function_name) {
        declares_during(declared, function_name, outcomes.drop_first())
    } else {
        let after_first = if outcomes[0] {
            declared.insert(function_name)
        } else {
            declared
        };
        let (n, after) = declares_during(after_first, function_name, outcomes.drop_first());
        (n + 1, after)
    }
}

/// How a step went: whether it succeeded, and what it gave back or why it
/// failed.
#[derive(Debug)]
pub struct StepOutcome {
    pub ok: bool,
    pub detail: String,
}

/// Where a call of a function stands.
#[derive(Debug, Clone, Copy, PartialEq, Eq, Structural)]
pub enum CallStage {
    /// The function is being declared.
    Declaring,
    /// The call is being dispatched.
    Dispatching,
    /// The call has ended.
    Done,
}

/// One call of a function: its name, its encoded arguments, and where it
/// stands.
#[derive(Debug)]
pub struct Call {
    pub function_name: String,
    pub params: ArgsString,
    pub stage: CallStage,
}

/// What the caller of a function is to do next, while it holds the platform
/// for itself.
#[derive(Debug)]
pub enum CallAction {
    /// Declare the function of this name, with its bundle.
    Declare(String),
    /// Dispatch the call of the function of this name with these arguments.
    Dispatch(String, ArgsString),
    /// Nothing: the call has ended, with this answer.
    Return(DistributionResult<JsonResponse>),
}

/// Whether `action` is what the stage of `call` asks for.
pub open spec fn call_action_fits(call: Call, action: CallAction) -> bool {
    match call.stage {
        CallStage::Declaring => action matches CallAction::Declare(n) && n@ == call.function_name@,
        CallStage::Dispatching => action matches CallAction::Dispatch(n, p) && n@
            == call.function_name@ && p@ == call.params@,
        CallStage::Done => action is Return,
    }
}

/// Begins a call of `function_name` with the JSON texts of its arguments,
/// in the order of the parameters. The arguments are encoded for the URL.
/// The function is declared first if and only if the platform has not
/// declared it; else the call is dispatched at once.
pub fn begin_call<P: DistributionPlatform>(
    platform: &P,
    function_name: &str,
    json_args: &Vec<String>,
) -> (r: (Call, CallAction))
    requires
        platform.well_formed(),
    ensures
        r.0.function_name@ == function_name@,
        r.0.params@ == join_spec(encoded_args(json_args@), "/"@),
        r.0.stage == if platform.declared().contains(function_name@) {
            CallStage::Dispatching
        } else {
            CallStage::Declaring
        },
        call_action_fits(r.0, r.1),
{
    let params = encode_params(json_args);
    let declared = platform.has_declared(function_name);
    let call = Call {
        function_name: String::from_str(function_name),
        params: params.clone(),
        stage: if declared {
            CallStage::Dispatching
        } else {
            CallStage::Declaring
        },
    };
    let action = if declared {
        CallAction::Dispatch(String::from_str(function_name), params)
    } else {
        CallAction::Declare(String::from_str(function_name))
    };
    (call, action)
}

/// Takes a call one step further, after its current step went as `outcome`
/// says. A declaration that succeeded is followed by the dispatch; one that
/// failed ends the call with a declare error, and the function stays
/// undeclared. A dispatch that succeeded ends the call with the body of the
/// answer; one that failed ends it with a dispatch error. A call that has
/// ended stays ended.
pub fn call_step(call: &mut Call, outcome: StepOutcome) -> (action: CallAction)
    ensures
        final(call).function_name@ == old(call).function_name@,
        final(call).params@ == old(call).params@,
        final(call).stage == if old(call).stage == CallStage::Declaring && outcome.ok {
            CallStage::Dispatching
        } else {
            CallStage::Done
        },
        call_action_fits(*final(call), action),
        match old(call).stage {
            CallStage::Declaring => !outcome.ok ==> (action matches CallAction::Return(
                Err(DistributionError::DeclareStep(why)),
            ) && why@ == outcome.detail@),
            CallStage::Dispatching => if outcome.ok {
                action matches CallAction::Return(Ok(body)) && body@ == outcome.detail@
            } else {
                action matches CallAction::Return(Err(DistributionError::Transport(why))) && why@
                    == outcome.detail@
            },
            CallStage::Done => action matches CallAction::Return(
                Err(DistributionError::NotReady(n)),
            ) && n@ == old(call).function_name@,
        },
{
    match call.stage {
        CallStage::Declaring => {
            if outcome.ok {
                call.stage = CallStage::Dispatching;
                CallAction::Dispatch(call.function_name.clone(), call.params.clone())
            } else {
                call.stage = CallStage::Done;
                CallAction::Return(Err(DistributionError::DeclareStep(outcome.detail)))
            }
        },
        CallStage::Dispatching => {
            call.stage = CallStage::Done;
            if outcome.ok {
                CallAction::Return(Ok(outcome.detail))
            } else {
                CallAction::Return(Err(DistributionError::Transport(outcome.detail)))
            }
        },
        CallStage::Done => CallAction::Return(
            Err(DistributionError::NotReady(call.function_name.clone())),
        ),
    }
}

/// The arguments of a call, each percent-encoded, joined with `/`.
pub fn encode_params(json_args: &Vec<String>) -> (r: ArgsString)
    ensures
        r@ == join_spec(encoded_args(json_args@), "/"@),
{
    let mut r = String::new();
    let mut i: usize = 0;
    while i < json_args.len()
        invariant
            i <= json_args.len(),
            r@ == join_spec(encoded_args(json_args@).take(i as int), "/"@),
        decreases json_args.len() - i,
    {
        let encoded = percent_encode(json_args[i].as_str().as_bytes());
        proof {
            let done = encoded_args(json_args@).take(i as int);
            lemma_join_push(done, "/"@, encoded@);
            assert(encoded_args(json_args@).take(i + 1) == done.push(encoded@));
        }
        if i > 0 {
            r.append("/");
        }
        r.append(encoded.as_str());
        i += 1;
    }
    assert(encoded_args(json_args@).take(json_args.len() as int) == encoded_args(json_args@));
    r
}

/// The URL of one call of `function_name` on the service at `base`.
pub fn request_url(base: &str, function_name: &str, run_id: &str, params: &str) -> (r: String)
    ensures
        r@ == request_url_spec(base@, function_name@, run_id@, params@),
{
    let mut r = String::from_str(base);
    r.append("/");
    r.append(function_name);
    r.append("/");
    r.append(run_id);
    r.append("/");
    r.append(params);
    r
}

/// The answer to a call, from the status and the body of the response and
/// from whether the body is a JSON value: the body where the status is one of
/// 200 to 299 and the body is a JSON value; a dispatch error with the status
/// where the status is another; a dispatch error with the body where the
/// status is one of success and the body is no JSON value.
pub fn classify_response(status: u16, body: JsonResponse, body_is_json: bool) -> (r:
    DistributionResult<JsonResponse>)
    ensures
        match r {
            Ok(b) => 200 <= status <= 299 && body_is_json && b@ == body@,
            Err(e) => if 200 <= status <= 299 {
                &&& !body_is_json
                &&& e matches DistributionError::Decode(text) && text@ == body@
            } else {
                e == DistributionError::Status(status)
            },
        },
{
    if !(200 <= status && status <= 299) {
        Err(DistributionError::Status(status))
    } else if body_is_json {
        Ok(body)
    } else {
        Err(DistributionError::Decode(body))
    }
}

/// The answer to a call, from the status and the body of the response: the
/// body where the status is one of 200 to 299 and the body is a JSON value,
/// else a dispatch error.
pub fn read_response(status: u16, body: JsonResponse) -> (r: DistributionResult<JsonResponse>)
    ensures
        match r {
            Ok(b) => 200 <= status <= 299 && is_json_value(body@) && b@ == body@,
            Err(e) => if 200 <= status <= 299 {
                &&& !is_json_value(body@)
                &&& e matches DistributionError::Decode(text) && text@ == body@
            } else {
                e == DistributionError::Status(status)
            },
        },
{
    let body_is_json = parses_as_json(body.as_str());
    classify_response(status, body, body_is_json)
}

/// What is reported after a backend has released its resources: nothing
/// where that succeeded, else a teardown error with the cause. The error is
/// for the log; a backend that ends does not fail.
pub fn read_teardown(outcome: StepOutcome) -> (report: Option<DistributionError>)
    ensures
        match report {
            None => outcome.ok,
            Some(e) => {
                &&& !outcome.ok
                &&& e matches DistributionError::Teardown(why) && why@ == outcome.detail@
            },
        },
{
    if outcome.ok {
        None
    } else {
        Some(DistributionError::Teardown(outcome.detail))
    }
}

/// The step that a call of `function_name` begins with: the function is
/// declared first if and only if the platform has not declared it.
pub fn first_step<P: DistributionPlatform>(platform: &P, function_name: &str) -> (step: CallStep)
    requires
        platform.well_formed(),
    ensures
        step == if platform.declared().contains(function_name@) {
            CallStep::Dispatch
        } else {
            CallStep::Declare
        },
{
    if platform.has_declared(function_name) {
        CallStep::Dispatch
    } else {
        CallStep::Declare
    }
}

/// Once a function is declared, no call declares it again.
pub proof fn lemma_declared_stays(
    declared: Set<Seq<char>>,
    function_name: Seq<char>,
    outcomes: Seq<bool>,
)
    requires
        declared.contains(function_name),
    ensures
        declares_during(declared, function_name, outcomes) == (0nat, declared),
    decreases outcomes.len(),
{
    if outcomes.len() > 0 {
        lemma_declared_stays(declared, function_name, outcomes.drop_first());
    }
}

/// A function is declared exactly once where declaring succeeds: of any
/// number of calls of an undeclared function, one after the other, the first
/// declares it and no other does, and the function is declared afterwards.
pub proof fn lemma_declared_once(
    declared: Set<Seq<char>>,
    function_name: Seq<char>,
    outcomes: Seq<bool>,
)
    requires
        !declared.contains(function_name),
        outcomes.len() > 0,
        outcomes[0],
    ensures
        declares_during(declared, function_name, outcomes) == (
            1nat,
            declared.insert(function_name),
        ),
{
    lemma_declared_stays(declared.insert(function_name), function_name, outcomes.drop_first());
}

/// Whatever the outcomes, a function is declared with success at most once:
/// the declares of a run of calls are the failed ones up to the first that
/// succeeds, and that one. A failed declare leaves the function undeclared,
/// so that the next call declares it again.
pub proof fn lemma_declares_until_success(
    declared: Set<Seq<char>>,
    function_name: Seq<char>,
    outcomes: Seq<bool>,
    first_ok: int,
)
    requires
        !declared.contains(function_name),
        0 <= first_ok < outcomes.len(),
        outcomes[first_ok],
        forall|i: int| 0 <= i < first_ok ==> !outcomes[i],
    ensures
        declares_during(declared, function_name, outcomes) == (
            (first_ok + 1) as nat,
            declared.insert(function_name),
        ),
    decreases outcomes.len(),
{
    let rest = outcomes.drop_first();
    if first_ok == 0 {
        lemma_declared_stays(declared.insert(function_name), function_name, rest);
    } else {
        assert forall|i: int| 0 <= i < first_ok - 1 implies !rest[i] by {
            assert(rest[i] == outcomes[i + 1]);
        }
        lemma_declares_until_success(declared, function_name, rest, first_ok - 1);
    }
}

/// Where every declare fails, every call declares anew, and the function
/// stays undeclared.
pub proof fn lemma_failed_declares_repeat(
    declared: Set<Seq<char>>,
    function_name: Seq<char>,
    outcomes: Seq<bool>,
)
    requires
        !declared.contains(function_name),
        forall|i: int| 0 <= i < outcomes.len() ==> !outcomes[i],
    ensures
        declares_during(declared, function_name, outcomes) == (outcomes.len(), declared),
    decreases outcomes.len(),
{
    if outcomes.len() > 0 {
        let rest = outcomes.drop_first();
        assert forall|i: int| 0 <= i < rest.len() implies !rest[i] by {
            assert(rest[i] == outcomes[i + 1]);
        }
        lemma_failed_declares_repeat(declared, function_name, rest);
    }
}

/// The encoded arguments of a call, percent-decoded, are the bytes of the
/// arguments' JSON texts joined with `/`, whatever follows them.
pub proof fn lemma_params_decode(json_args: Seq<String>, tail: Seq<char>)
    ensures
        percent_decode_spec(join_spec(encoded_args(json_args), "/"@) + tail) == join_spec(
            args_bytes(json_args),
            seq![0x2fu8],
        ) + percent_decode_spec(tail),
    decreases json_args.len(),
{
    reveal_strlit("/");
    let enc = encoded_args(json_args);
    let raw = args_bytes(json_args);
    let slash = "/"@;
    if json_args.len() == 0 {
        assert(join_spec(raw, seq![0x2fu8]) + percent_decode_spec(tail) =~= percent_decode_spec(
            tail,
        ));
    } else if json_args.len() == 1 {
        lemma_decode_encoded(raw[0], tail);
    } else {
        let init = json_args.drop_last();
        let last = encode_utf8(json_args.last()@);
        assert(encoded_args(init) =~= enc.drop_last());
        assert(args_bytes(init) =~= raw.drop_last());
        let tail2 = slash + (percent_encode_spec(last) + tail);
        assert(join_spec(enc, slash) + tail =~= join_spec(encoded_args(init), slash) + tail2);
        lemma_params_decode(init, tail2);
        lemma_decode_plain(slash, percent_encode_spec(last) + tail);
        lemma_decode_encoded(last, tail);
    }
}

/// The shape of the URL of a call: percent-decoded, it is
/// `<base>/<function name>/<run id>/` followed by the JSON texts of the
/// arguments, joined with `/`, byte for byte. This holds where base, function
/// name and run id are ASCII text without a percent sign.
pub proof fn lemma_url_shape(
    base: Seq<char>,
    function_name: Seq<char>,
    run_id: Seq<char>,
    json_args: Seq<String>,
)
    requires
        is_plain(base),
        is_plain(function_name),
        is_plain(run_id),
    ensures
        percent_decode_spec(
            request_url_spec(base, function_name, run_id, join_spec(encoded_args(json_args), "/"@)),
        ) == ascii_bytes(base + "/"@ + function_name + "/"@ + run_id + "/"@) + join_spec(
            args_bytes(json_args),
            seq![0x2fu8],
        ),
{
    reveal_strlit("/");
    let prefix = base + "/"@ + function_name + "/"@ + run_id + "/"@;
    let params = join_spec(encoded_args(json_args), "/"@);
    lemma_decode_plain(prefix, params);
    lemma_params_decode(json_args, Seq::empty());
}

} // verus!
