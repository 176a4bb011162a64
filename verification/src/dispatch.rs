//! The dispatch engine: what each of the five remote operations does with
//! its arguments, with the plugin, and with what the plugin answers.
//!
//! The steps that decide are plain functions, so that a blocking service and
//! a cooperatively scheduled one share them: `resolve_action` runs before
//! the plugin is touched, the `*_reply` functions turn a handler's result
//! into a reply or a fault. The `handle_*` functions chain them around one
//! call of the handler, for a service that owns the plugin outright.
use vstd::prelude::*;
use vstd::string::to_string_from_display_ensures;
use std::fmt::Display;
use dbus::MethodErr;
use crate::action::{action_records, Action, ActionRecord};
use crate::model::{Config, Match};
use crate::wire::{
    all_action_records, encode_matches, entries, match_records, match_wires, records, DictEntry,
    MatchRecord,
};

verus! {

/// The name of the interface that the five operations belong to.
pub const INTERFACE: &'static str = "org.kde.krunner1";

/// The five remote operations.
#[derive(Debug, Clone, Copy, PartialEq, Eq, Structural)]
pub enum Method {
    Actions,
    Run,
    Match,
    Config,
    Teardown,
}

impl Method {
    /// The name of the operation on the bus.
    pub open spec fn name_text(self) -> Seq<char> {
        match self {
            Method::Actions => "Actions"@,
            Method::Run => "Run"@,
            Method::Match => "Match"@,
            Method::Config => "Config"@,
            Method::Teardown => "Teardown"@,
        }
    }

    /// The names of the arguments of the operation, in order.
    pub open spec fn argument_names(self) -> Seq<Seq<char>> {
        match self {
            Method::Run => seq!["matchId"@, "actionId"@],
            Method::Match => seq!["query"@],
            _ => Seq::empty(),
        }
    }

    /// The names of the values that the operation replies with.
    pub open spec fn result_names(self) -> Seq<Seq<char>> {
        match self {
            Method::Actions => seq!["matches"@],
            Method::Match => seq!["matches"@],
            Method::Config => seq!["config"@],
            _ => Seq::empty(),
        }
    }

    /// The name of the operation on the bus.
    pub fn name(&self) -> (r: &'static str)
        ensures
            r@ == self.name_text(),
    {
        match self {
            Method::Actions => "Actions",
            Method::Run => "Run",
            Method::Match => "Match",
            Method::Config => "Config",
            Method::Teardown => "Teardown",
        }
    }

    /// The names of the arguments of the operation, in order.
    pub fn arguments(&self) -> (r: Vec<&'static str>)
        ensures
            r@.len() == self.argument_names().len(),
            forall|i: int| 0 <= i < r@.len() ==> (#[trigger] r@[i])@ == self.argument_names()[i],
    {
        let mut r: Vec<&'static str> = Vec::new();
        match self {
            Method::Run => {
                r.push("matchId");
                r.push("actionId");
            },
            Method::Match => {
                r.push("query");
            },
            _ => {},
        }
        r
    }

    /// The names of the values that the operation replies with.
    pub fn results(&self) -> (r: Vec<&'static str>)
        ensures
            r@.len() == self.result_names().len(),
            forall|i: int| 0 <= i < r@.len() ==> (#[trigger] r@[i])@ == self.result_names()[i],
    {
        let mut r: Vec<&'static str> = Vec::new();
        match self {
            Method::Actions | Method::Match => {
                r.push("matches");
            },
            Method::Config => {
                r.push("config");
            },
            _ => {},
        }
        r
    }
}

/// The category of a fault.
#[derive(Debug, Clone, Copy, PartialEq, Eq, Structural)]
pub enum FaultKind {
    /// The caller sent an argument that names nothing.
    InvalidArgument,
    /// The plugin does not offer the operation.
    MethodNotFound,
    /// The plugin's handler reported an error.
    Failed,
}

/// A fault reply: its category and a detail for the reader.
#[derive(Debug, Clone, PartialEq, Eq)]
pub struct Fault {
    pub kind: FaultKind,
    pub detail: String,
}

impl View for Fault {
    type V = (FaultKind, Seq<char>);

    open spec fn view(&self) -> (FaultKind, Seq<char>) {
        (self.kind, self.detail@)
    }
}

/// `dbus::MethodErr`, an error reply of the bus. Nothing inside it is
/// visible here; `error_name` and `error_description` name what it carries.
#[verifier::external_type_specification]
#[verifier::external_body]
pub struct ExMethodErr(MethodErr);

/// The error name that an error reply of the bus carries.
pub uninterp spec fn error_name(e: MethodErr) -> Seq<char>;

/// The description that an error reply of the bus carries.
pub uninterp spec fn error_description(e: MethodErr) -> Seq<char>;

/// The description that `dbus::MethodErr::invalid_arg` gives for a string
/// argument.
pub uninterp spec fn invalid_arg_description(argument: Seq<char>) -> Seq<char>;

/// `dbus::MethodErr::invalid_arg` on a string: the error named
/// `org.freedesktop.DBus.Error.InvalidArgs`, with the description that the
/// bus library words for the argument.
#[verifier::external_body]
fn bus_invalid_arg(argument: &str) -> (e: MethodErr)
    ensures
        error_name(e) == "org.freedesktop.DBus.Error.InvalidArgs"@,
        error_description(e) == invalid_arg_description(argument@),
{
    MethodErr::invalid_arg(argument)
}

/// `dbus::MethodErr::no_method` on a string: the error named
/// `org.freedesktop.DBus.Error.UnknownMethod`, described as the words
/// `Unknown method` and the name of the method.
#[verifier::external_body]
fn bus_no_method(method: &str) -> (e: MethodErr)
    ensures
        error_name(e) == "org.freedesktop.DBus.Error.UnknownMethod"@,
        error_description(e) == "Unknown method "@ + method@,
{
    MethodErr::no_method(method)
}

/// `dbus::MethodErr::failed` on a string: the error named
/// `org.freedesktop.DBus.Error.Failed`, described by the string itself.
#[verifier::external_body]
fn bus_failed(message: &str) -> (e: MethodErr)
    ensures
        error_name(e) == "org.freedesktop.DBus.Error.Failed"@,
        error_description(e) == message@,
{
    MethodErr::failed(message)
}

impl Fault {
    /// The error name of the fault on the bus.
    pub open spec fn bus_name(&self) -> Seq<char> {
        match self.kind {
            FaultKind::InvalidArgument => "org.freedesktop.DBus.Error.InvalidArgs"@,
            FaultKind::MethodNotFound => "org.freedesktop.DBus.Error.UnknownMethod"@,
            FaultKind::Failed => "org.freedesktop.DBus.Error.Failed"@,
        }
    }

    /// The description of the fault on the bus: the detail itself for a
    /// failure, the detail in the bus library's words for the other kinds.
    pub open spec fn bus_description(&self) -> Seq<char> {
        match self.kind {
            FaultKind::InvalidArgument => invalid_arg_description(self.detail@),
            FaultKind::MethodNotFound => "Unknown method "@ + self.detail@,
            FaultKind::Failed => self.detail@,
        }
    }

    /// The fault as an error reply of the bus.
    pub fn to_method_err(&self) -> (e: MethodErr)
        ensures
            error_name(e) == self.bus_name(),
            error_description(e) == self.bus_description(),
    {
        match self.kind {
            FaultKind::InvalidArgument => bus_invalid_arg(self.detail.as_str()),
            FaultKind::MethodNotFound => bus_no_method(self.detail.as_str()),
            FaultKind::Failed => bus_failed(self.detail.as_str()),
        }
    }
}

/// A plugin that owns its state and answers one call at a time.
///
/// Each handler has a relation over the state before the call, the
/// arguments, the state after it and the result. An implementation says in
/// it what its handler does; the engine's contracts hand it on.
pub trait Plugin: Sized {
    /// The actions of the plugin's matches.
    type Action: Action;

    /// What a handler reports when it fails.
    type Err: Display;

    /// What `matches` may do.
    spec fn matches_rel(
        pre: Self,
        query: Seq<char>,
        post: Self,
        result: Result<Vec<Match<Self::Action>>, Self::Err>,
    ) -> bool;

    /// What `run` may do.
    spec fn run_rel(
        pre: Self,
        match_id: Seq<char>,
        action: Option<Self::Action>,
        post: Self,
        result: Result<(), Self::Err>,
    ) -> bool;

    /// What `config` may do.
    spec fn config_rel(pre: Self, post: Self, result: Result<Option<Config<Self::Action>>, Self::Err>) -> bool;

    /// What `teardown` may do.
    spec fn teardown_rel(pre: Self, post: Self, result: Result<(), Self::Err>) -> bool;

    /// The matches for a query.
    fn matches(&mut self, query: String) -> (r: Result<Vec<Match<Self::Action>>, Self::Err>)
        ensures
            Self::matches_rel(*old(self), query@, *final(self), r),
    ;

    /// Activates a match: with an action that the user picked, or with none
    /// for the default activation.
    fn run(&mut self, match_id: String, action: Option<Self::Action>) -> (r: Result<(), Self::Err>)
        ensures
            Self::run_rel(*old(self), match_id@, action, *final(self), r),
    ;

    /// The configuration of the plugin, or `None` where it has none.
    fn config(&mut self) -> (r: Result<Option<Config<Self::Action>>, Self::Err>)
        ensures
            Self::config_rel(*old(self), *final(self), r),
    ;

    /// Cleans up when the host ends the session.
    fn teardown(&mut self) -> (r: Result<(), Self::Err>)
        ensures
            Self::teardown_rel(*old(self), *final(self), r),
    ;
}

/// A runner: the handlers of a plugin. The trait asks nothing of them; what
/// an implementation states of its own handlers, `Opaque` hands on. Only
/// `matches` and `run` must be given: by default a runner has no
/// configuration and nothing to clean up. `Opaque` makes a plugin of it.
pub trait Runner: Sized {
    /// The actions of the plugin's matches.
    type Action: Action;

    /// What a handler reports when it fails.
    type Err: Display;

    /// The matches for a query.
    fn matches(&mut self, query: String) -> Result<Vec<Match<Self::Action>>, Self::Err>;

    /// Activates a match: with an action that the user picked, or with none
    /// for the default activation.
    fn run(&mut self, match_id: String, action: Option<Self::Action>) -> Result<(), Self::Err>;

    /// The configuration of the plugin, or `None` where it has none. Unless
    /// a runner says otherwise it has none, and asking changes nothing.
    fn config(&mut self) -> (r: Result<Option<Config<Self::Action>>, Self::Err>)
        default_ensures
            r is Ok && r->Ok_0 is None,
            *final(self) == *old(self),
    {
        Ok(None)
    }

    /// Cleans up when the host ends the session. Unless a runner says
    /// otherwise there is nothing to clean up: the call succeeds and changes
    /// nothing.
    fn teardown(&mut self) -> (r: Result<(), Self::Err>)
        default_ensures
            r is Ok,
            *final(self) == *old(self),
    {
        Ok(())
    }
}

/// The plugin that a runner makes. Each call is the runner's own handler on
/// the same arguments: whatever that handler states of its result holds of
/// the plugin's, and nothing else is known.
pub struct Opaque<H>(pub H);

impl<H: Runner> Plugin for Opaque<H> {
    type Action = H::Action;

    type Err = H::Err;

    /// The result is one that the runner's `matches` can give for the query,
    /// called on the runner as it was.
    open spec fn matches_rel(
        pre: Self,
        query: Seq<char>,
        post: Self,
        result: Result<Vec<Match<H::Action>>, H::Err>,
    ) -> bool {
        exists|h: &mut H, q: String|
            *h == pre.0 && q@ == query && #[trigger] call_ensures(H::matches, (h, q), result)
    }

    /// The result is one that the runner's `run` can give for the match and
    /// the action, called on the runner as it was.
    open spec fn run_rel(
        pre: Self,
        match_id: Seq<char>,
        action: Option<H::Action>,
        post: Self,
        result: Result<(), H::Err>,
    ) -> bool {
        exists|h: &mut H, m: String|
            *h == pre.0 && m@ == match_id && #[trigger] call_ensures(H::run, (h, m, action), result)
    }

    /// The result is one that the runner's `config` can give, called on the
    /// runner as it was.
    open spec fn config_rel(pre: Self, post: Self, result: Result<Option<Config<H::Action>>, H::Err>) -> bool {
        exists|h: &mut H| *h == pre.0 && #[trigger] call_ensures(H::config, (h,), result)
    }

    /// The result is one that the runner's `teardown` can give, called on
    /// the runner as it was.
    open spec fn teardown_rel(pre: Self, post: Self, result: Result<(), H::Err>) -> bool {
        exists|h: &mut H| *h == pre.0 && #[trigger] call_ensures(H::teardown, (h,), result)
    }

    /// Hands the query to the runner's `matches`: the result and the change
    /// to the runner are that call's.
    fn matches(&mut self, query: String) -> (r: Result<Vec<Match<H::Action>>, H::Err>)
        ensures
            exists|h: &mut H|
                *h == old(self).0 && *final(h) == final(self).0 && #[trigger] call_ensures(
                    H::matches,
                    (h, query),
                    r,
                ),
    {
        self.0.matches(query)
    }

    /// Hands the match and the action to the runner's `run`: the result and
    /// the change to the runner are that call's.
    fn run(&mut self, match_id: String, action: Option<H::Action>) -> (r: Result<(), H::Err>)
        ensures
            exists|h: &mut H|
                *h == old(self).0 && *final(h) == final(self).0 && #[trigger] call_ensures(
                    H::run,
                    (h, match_id, action),
                    r,
                ),
    {
        self.0.run(match_id, action)
    }

    /// Asks the runner's `config`: the result and the change to the runner
    /// are that call's.
    fn config(&mut self) -> (r: Result<Option<Config<H::Action>>, H::Err>)
        ensures
            exists|h: &mut H|
                *h == old(self).0 && *final(h) == final(self).0 && #[trigger] call_ensures(H::config, (h,), r),
    {
        self.0.config()
    }

    /// Calls the runner's `teardown`: the result and the change to the
    /// runner are that call's.
    fn teardown(&mut self) -> (r: Result<(), H::Err>)
        ensures
            exists|h: &mut H|
                *h == old(self).0 && *final(h) == final(self).0 && #[trigger] call_ensures(
                    H::teardown,
                    (h,),
                    r,
                ),
    {
        self.0.teardown()
    }
}

/// The fault for a handler's error: its category is `Failed`, its detail is
/// what the error displays as.
pub open spec fn is_failure<E: Display>(e: E, f: Fault) -> bool {
    f.kind == FaultKind::Failed && to_string_from_display_ensures::<E>(&e, f.detail)
}

/// Turns a handler's error into a fault that carries its message.
pub fn failed<E: Display>(e: &E) -> (f: Fault)
    ensures
        is_failure(*e, f),
{
    Fault { kind: FaultKind::Failed, detail: e.to_string() }
}

/// What an action identifier asks for: `Some(Some(a))` for the identifier of
/// `a`, `Some(None)` for the empty identifier, which stands for the default
/// activation, and `None` for an identifier that names no action.
pub open spec fn resolved<A: Action>(action_id: Seq<char>) -> Option<Option<A>> {
    match A::id_lookup(action_id) {
        Some(a) => Some(Some(a)),
        None => if action_id.len() == 0 {
            Some(None)
        } else {
            None
        },
    }
}

/// The fault for an identifier that names no action.
pub open spec fn unknown_action() -> (FaultKind, Seq<char>) {
    (FaultKind::InvalidArgument, "Unknown action"@)
}

/// The fault for a plugin without configuration.
pub open spec fn no_config() -> (FaultKind, Seq<char>) {
    (FaultKind::MethodNotFound, "config"@)
}

/// Validates the action identifier of an activation. It needs no access to
/// the plugin, so a malformed request is refused before any handler runs.
pub fn resolve_action<A: Action>(action_id: &str) -> (r: Result<Option<A>, Fault>)
    ensures
        match resolved::<A>(action_id@) {
            Some(action) => r == Ok::<Option<A>, Fault>(action),
            None => r is Err && r->Err_0@ == unknown_action(),
        },
{
    if let Some(action) = A::from_id(action_id) {
        Ok(Some(action))
    } else if action_id.is_empty() {
        Ok(None)
    } else {
        Err(Fault { kind: FaultKind::InvalidArgument, detail: "Unknown action".to_owned() })
    }
}

/// How the reply to `Run` or `Teardown` follows from the handler's result.
pub open spec fn is_done_reply<E: Display>(outcome: Result<(), E>, reply: Result<(), Fault>) -> bool {
    match outcome {
        Ok(_) => reply is Ok,
        Err(e) => reply is Err && is_failure(e, reply->Err_0),
    }
}

/// The reply to `Run` or `Teardown`: empty on success, else a `Failed` fault
/// with the handler's message.
pub fn done_reply<E: Display>(outcome: Result<(), E>) -> (reply: Result<(), Fault>)
    ensures
        is_done_reply(outcome, reply),
{
    match outcome {
        Ok(()) => Ok(()),
        Err(e) => Err(failed(&e)),
    }
}

/// How the reply to `Match` follows from the handler's result.
pub open spec fn is_match_reply<A: Action, E: Display>(
    outcome: Result<Vec<Match<A>>, E>,
    reply: Result<Vec<MatchRecord>, Fault>,
) -> bool {
    match outcome {
        Ok(matches) => reply is Ok && match_records(reply->Ok_0@) == match_wires(matches@),
        Err(e) => reply is Err && is_failure(e, reply->Err_0),
    }
}

/// The reply to `Match`: the records of the matches, in the handler's
/// order, else a `Failed` fault with the handler's message.
pub fn match_reply<A: Action, E: Display>(outcome: Result<Vec<Match<A>>, E>) -> (reply: Result<
    Vec<MatchRecord>,
    Fault,
>)
    ensures
        is_match_reply(outcome, reply),
{
    match outcome {
        Ok(matches) => Ok(encode_matches(&matches)),
        Err(e) => Err(failed(&e)),
    }
}

/// How the reply to `Config` follows from the handler's result.
pub open spec fn is_config_reply<A: Action, E: Display>(
    outcome: Result<Option<Config<A>>, E>,
    reply: Result<Vec<DictEntry>, Fault>,
) -> bool {
    match outcome {
        Ok(Some(config)) => reply is Ok && entries(reply->Ok_0@) == config.wire(),
        Ok(None) => reply is Err && reply->Err_0@ == no_config(),
        Err(e) => reply is Err && is_failure(e, reply->Err_0),
    }
}

/// The reply to `Config`: the dictionary of the configuration; a
/// `MethodNotFound` fault where the plugin has none, so that the host falls
/// back to its defaults; a `Failed` fault where the handler failed.
pub fn config_reply<A: Action, E: Display>(outcome: Result<Option<Config<A>>, E>) -> (reply: Result<
    Vec<DictEntry>,
    Fault,
>)
    ensures
        is_config_reply(outcome, reply),
{
    match outcome {
        Ok(Some(config)) => Ok(config.encode()),
        Ok(None) => Err(Fault { kind: FaultKind::MethodNotFound, detail: "config".to_owned() }),
        Err(e) => Err(failed(&e)),
    }
}

/// Serves `Actions`: the record of every action, in display order. It reads
/// nothing of the plugin's state.
pub fn handle_actions<A: Action>() -> (reply: Vec<ActionRecord>)
    ensures
        records(reply@) == action_records(A::all_values()),
{
    all_action_records::<A>()
}

/// Serves `Run`. An identifier that names no action is refused and the
/// plugin is left untouched; else the handler runs once, with the action
/// that the identifier names or with none for the empty identifier, and its
/// result becomes the reply.
pub fn handle_run<R: Plugin>(runner: &mut R, match_id: String, action_id: String) -> (reply: Result<(), Fault>)
    ensures
        match resolved::<R::Action>(action_id@) {
            Some(action) => exists|outcome: Result<(), R::Err>|
                #[trigger] R::run_rel(*old(runner), match_id@, action, *final(runner), outcome)
                    && is_done_reply(outcome, reply),
            None => reply is Err && reply->Err_0@ == unknown_action() && *final(runner) == *old(
                runner,
            ),
        },
{
    match resolve_action::<R::Action>(action_id.as_str()) {
        Ok(action) => {
            let outcome = runner.run(match_id, action);
            let ghost seen = outcome;
            let reply = done_reply(outcome);
            assert(R::run_rel(*old(runner), match_id@, action, *runner, seen) && is_done_reply(seen, reply));
            reply
        },
        Err(fault) => Err(fault),
    }
}

/// Serves `Match`: the handler runs once with the query, and its result
/// becomes the reply.
pub fn handle_match<R: Plugin>(runner: &mut R, query: String) -> (reply: Result<Vec<MatchRecord>, Fault>)
    ensures
        exists|outcome: Result<Vec<Match<R::Action>>, R::Err>|
            #[trigger] R::matches_rel(*old(runner), query@, *final(runner), outcome)
                && is_match_reply(outcome, reply),
{
    let outcome = runner.matches(query);
    let ghost seen = outcome;
    let reply = match_reply(outcome);
    assert(R::matches_rel(*old(runner), query@, *runner, seen) && is_match_reply(seen, reply));
    reply
}

/// Serves `Config`: the handler runs once, and its result becomes the reply.
pub fn handle_config<R: Plugin>(runner: &mut R) -> (reply: Result<Vec<DictEntry>, Fault>)
    ensures
        exists|outcome: Result<Option<Config<R::Action>>, R::Err>|
            #[trigger] R::config_rel(*old(runner), *final(runner), outcome) && is_config_reply(
                outcome,
                reply,
            ),
{
    let outcome = runner.config();
    let ghost seen = outcome;
    let reply = config_reply(outcome);
    assert(R::config_rel(*old(runner), *runner, seen) && is_config_reply(seen, reply));
    reply
}

/// Serves `Teardown`: the handler runs once, and its result becomes the
/// reply. The plugin stays in service: further calls are answered as before.
pub fn handle_teardown<R: Plugin>(runner: &mut R) -> (reply: Result<(), Fault>)
    ensures
        exists|outcome: Result<(), R::Err>|
            #[trigger] R::teardown_rel(*old(runner), *final(runner), outcome) && is_done_reply(
                outcome,
                reply,
            ),
{
    let outcome = runner.teardown();
    let ghost seen = outcome;
    let reply = done_reply(outcome);
    assert(R::teardown_rel(*old(runner), *runner, seen) && is_done_reply(seen, reply));
    reply
}

} // verus!
