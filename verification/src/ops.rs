//! Python op registry.
//!
//! Handlers are addressed by an unguessable **capability token**, not an ambient
//! id: [`PythonOpRegistry::register`] draws a random token (so enumeration finds
//! nothing) and dispatch additionally requires [`PythonOpRegistry::expose`], which
//! bind paths call only once the binding is installed in the guest's scope.
//! [`PythonOpRegistry::revoke`] reverses both.

use crate::conversion::{
    converts_items, given_by, items_result, items_to_python, js_items_to_python,
    js_items_to_python_told, PyValue,
};
use crate::double::Double;
use crate::js_value::{views, JSValue};
use crate::limits::{LimitState, LimitTracker, SerializationLimits};
use std::collections::{HashMap, HashSet};
use vstd::prelude::*;

verus! {

broadcast use vstd::std_specs::hash::group_hash_axioms;

/// Execution mode for Python op handlers.
#[derive(Clone, Copy, Debug, PartialEq, Eq, Structural)]
pub enum PythonOpMode {
    /// Synchronous Python function (returns value directly).
    Sync,
    /// Asynchronous Python function (returns awaitable/coroutine).
    Async,
}

/// An op capability token. Crosses the JS boundary as a number, so it is bounded
/// by [`MAX_OP_TOKEN`] to stay exactly representable as a double.
pub type OpToken = u64;

/// `2^53 - 1`, the largest integer a JS number represents exactly.
pub const MAX_OP_TOKEN: OpToken = 9_007_199_254_740_991;

/// Guest-facing message for any failure that would otherwise name a host data
/// structure.
pub const OPAQUE_INTERNAL_ERROR: &'static str = "Host call failed: internal runtime error";

/// How many draws in a row may be zero or taken before a registration gives up.
pub const MAX_DRAWS: u64 = u64::MAX;

/// A number that may be a token.
pub open spec fn is_token(token: u64) -> bool {
    1 <= token <= MAX_OP_TOKEN
}

/// Draws the sixteen bytes of `uuid::Uuid::new_v4()`, most of them random. Nothing is
/// claimed of what they are.
#[verifier::external_body]
fn uuid_new_v4() -> (bytes: [u8; 16]) {
    *uuid::Uuid::new_v4().as_bytes()
}

/// The number that the first eight bytes make, the lowest first.
pub open spec fn first_word(bytes: Seq<u8>) -> int {
    bytes[0] + 0x100 * bytes[1] + 0x1_0000 * bytes[2] + 0x100_0000 * bytes[3] + 0x1_0000_0000
        * bytes[4] + 0x100_0000_0000 * bytes[5] + 0x1_0000_0000_0000 * bytes[6]
        + 0x100_0000_0000_0000 * bytes[7]
}

/// Takes the random bits of a token from sixteen random bytes: the first eight, the
/// lowest first.
pub fn random_bits(bytes: &[u8; 16]) -> (raw: u64)
    ensures
        raw == first_word(bytes@),
{
    bytes[0] as u64 + 0x100 * bytes[1] as u64 + 0x1_0000 * bytes[2] as u64 + 0x100_0000
        * bytes[3] as u64 + 0x1_0000_0000 * bytes[4] as u64 + 0x100_0000_0000 * bytes[5] as u64
        + 0x1_0000_0000_0000 * bytes[6] as u64 + 0x100_0000_0000_0000 * bytes[7] as u64
}

/// The token that random bits amount to: their low fifty-three.
pub open spec fn token_bits(raw: u64) -> u64 {
    (raw as int % 0x20_0000_0000_0000) as u64
}

/// Keeps as many random bits as a token has; zero is excluded so a forged call with
/// token zero is never live.
pub fn token_from_random(raw: u64) -> (token: Option<OpToken>)
    ensures
        match token {
            Some(t) => t == token_bits(raw) && is_token(t),
            None => token_bits(raw) == 0,
        },
{
    let token: u64 = raw % 0x20_0000_0000_0000;
    if token != 0 {
        Some(token)
    } else {
        None
    }
}

/// Metadata for a registered Python op.
#[derive(Debug)]
pub struct PythonOpEntry {
    /// Unguessable capability token for this op.
    pub id: OpToken,
    /// Human-readable op name.
    pub name: String,
    /// Sync or async execution mode.
    pub mode: PythonOpMode,
    /// The number under which the interpreter's callable is kept.
    pub handler: u64,
}

impl Clone for PythonOpEntry {
    fn clone(&self) -> (copy: Self)
        ensures
            copy == *self,
    {
        PythonOpEntry {
            id: self.id,
            name: self.name.clone(),
            mode: self.mode,
            handler: self.handler,
        }
    }
}

/// What a `PythonOpRegistry` holds.
#[verifier::ext_equal]
pub struct OpsView {
    pub handlers: Map<u64, PythonOpEntry>,
    pub exposed: Set<u64>,
}

impl OpsView {
    pub open spec fn fresh() -> OpsView {
        OpsView { handlers: Map::empty(), exposed: Set::empty() }
    }

    /// Random bits amount to a token that is not taken.
    pub open spec fn accepts(self, raw: u64) -> bool {
        token_bits(raw) != 0 && !self.handlers.contains_key(token_bits(raw))
    }

    /// After `entry` was registered under its id.
    pub open spec fn registered(self, entry: PythonOpEntry) -> OpsView {
        OpsView { handlers: self.handlers.insert(entry.id, entry), ..self }
    }

    /// After a token was exposed; an unregistered one changes nothing.
    pub open spec fn exposing(self, id: u64) -> OpsView {
        if self.handlers.contains_key(id) {
            OpsView { exposed: self.exposed.insert(id), ..self }
        } else {
            self
        }
    }

    /// After a token was revoked: handler and exposure are gone.
    pub open spec fn revoked(self, id: u64) -> OpsView {
        OpsView { handlers: self.handlers.remove(id), exposed: self.exposed.remove(id) }
    }

    /// The handler that a call with this token reaches.
    pub open spec fn dispatched(self, id: u64) -> Option<PythonOpEntry> {
        if self.exposed.contains(id) && self.handlers.contains_key(id) {
            Some(self.handlers[id])
        } else {
            None
        }
    }
}

/// Registry of Python operations that can be invoked from JavaScript.
pub struct PythonOpRegistry {
    handlers: HashMap<u64, PythonOpEntry>,
    /// Tokens a bind step actually installed in the guest's scope; dispatch
    /// consults this, not `handlers`.
    exposed: HashSet<u64>,
}

impl View for PythonOpRegistry {
    type V = OpsView;

    closed spec fn view(&self) -> OpsView {
        OpsView { handlers: self.handlers@, exposed: self.exposed@ }
    }
}

impl PythonOpRegistry {
    pub fn new() -> (registry: Self)
        ensures
            registry@ == OpsView::fresh(),
    {
        let registry = PythonOpRegistry { handlers: HashMap::new(), exposed: HashSet::new() };
        assert(registry@.handlers =~= Map::empty());
        assert(registry@.exposed =~= Set::empty());
        registry
    }

    /// Draws random bits until they amount to a token that is not taken; `None` only
    /// after [`MAX_DRAWS`] draws in a row were zero or taken. What is drawn is left to
    /// chance, so no clause says that one of them will do.
    pub(crate) fn draw(&self) -> (drawn: Option<u64>)
        ensures
            drawn is Some ==> self@.accepts(drawn->0),
    {
        let mut draws: u64 = 0;
        while draws < MAX_DRAWS
            decreases MAX_DRAWS - draws,
        {
            let raw: u64 = random_bits(&uuid_new_v4());
            if let Some(id) = token_from_random(raw) {
                if !self.handlers.contains_key(&id) {
                    return Some(raw);
                }
            }
            draws = draws + 1;
        }
        None
    }

    /// Registers a callable under the token that random bits amount to; `None`
    /// (and no change) when that is zero or taken.
    pub fn register_drawn(&mut self, raw: u64, name: &str, mode: PythonOpMode, handler: u64) -> (r:
        Option<OpToken>)
        ensures
            match r {
                Some(id) => id == token_bits(raw) && is_token(id)
                    && !old(self)@.handlers.contains_key(id) && exists|entry: PythonOpEntry|
                    {
                        &&& entry.id == id
                        &&& entry.name@ == name@
                        &&& entry.mode == mode
                        &&& entry.handler == handler
                        &&& final(self)@ == #[trigger] old(self)@.registered(entry)
                    },
                None => (token_bits(raw) == 0 || old(self)@.handlers.contains_key(token_bits(raw)))
                    && final(self)@ == old(self)@,
            },
    {
        match token_from_random(raw) {
            Some(id) => {
                if self.handlers.contains_key(&id) {
                    return None;
                }
                let entry = PythonOpEntry { id, name: name.to_owned(), mode, handler };
                let ghost before = self@;
                self.handlers.insert(id, entry);
                assert(self@ =~= before.registered(entry));
                Some(id)
            },
            None => None,
        }
    }

    /// Register a Python callable and return its capability token. It is not
    /// callable from JS until [`Self::expose`]. `None` (and no change) only after
    /// [`MAX_DRAWS`] random tokens in a row were zero or taken, which no clause rules
    /// out; [`Self::register_drawn`] says what comes of each draw.
    pub fn register(&mut self, name: &str, mode: PythonOpMode, handler: u64) -> (r: Option<OpToken>)
        ensures
            match r {
                Some(id) => is_token(id) && !old(self)@.handlers.contains_key(id) && exists|
                    entry: PythonOpEntry,
                |
                    {
                        &&& entry.id == id
                        &&& entry.name@ == name@
                        &&& entry.mode == mode
                        &&& entry.handler == handler
                        &&& final(self)@ == #[trigger] old(self)@.registered(entry)
                    },
                None => final(self)@ == old(self)@,
            },
    {
        match self.draw() {
            Some(raw) => self.register_drawn(raw, name, mode, handler),
            None => None,
        }
    }

    /// Make a registered op dispatchable; `false` (and no-op) if not registered.
    pub fn expose(&mut self, id: OpToken) -> (known: bool)
        ensures
            known == old(self)@.handlers.contains_key(id),
            final(self)@ == old(self)@.exposing(id),
    {
        if !self.handlers.contains_key(&id) {
            return false;
        }
        self.exposed.insert(id);
        true
    }

    /// Revoke a capability (handler and exposure); `false` if not registered.
    /// A leftover guest global then gets the uniform "Unknown host op".
    pub fn revoke(&mut self, id: OpToken) -> (known: bool)
        ensures
            known == old(self)@.handlers.contains_key(id),
            final(self)@ == old(self)@.revoked(id),
    {
        let ghost before = self@;
        self.exposed.remove(&id);
        let removed: Option<PythonOpEntry> = self.handlers.remove(&id);
        assert(self@ =~= before.revoked(id));
        removed.is_some()
    }

    /// Resolve a token to its handler, but only if a bind step exposed it.
    pub fn get_exposed(&self, id: OpToken) -> (r: Option<PythonOpEntry>)
        ensures
            r == self@.dispatched(id),
    {
        if !self.exposed.contains(&id) {
            return None;
        }
        match self.handlers.get(&id) {
            Some(entry) => Some(entry.clone()),
            None => None,
        }
    }

    /// Expose (`true`) or revoke (`false`) one op capability.
    pub fn set_exposure(&mut self, op_id: OpToken, exposed: bool) -> (known: bool)
        ensures
            known == old(self)@.handlers.contains_key(op_id),
            final(self)@ == if exposed {
                old(self)@.exposing(op_id)
            } else {
                old(self)@.revoked(op_id)
            },
    {
        if exposed {
            self.expose(op_id)
        } else {
            self.revoke(op_id)
        }
    }

    /// Resolve the number guest code passed to an exposed entry of the expected
    /// mode.
    ///
    /// Malformed, unknown, unexposed and revoked all fail identically so a guest
    /// cannot enumerate the registry; the mode error is name-free for the same
    /// reason.
    pub fn lookup_entry(&self, raw_token: Double, mode: PythonOpMode) -> (result: Result<
        PythonOpEntry,
        &'static str,
    >)
        ensures
            match result {
                Ok(entry) => looked_up(self@, raw_token, mode) == Ok::<_, Seq<char>>(entry),
                Err(text) => looked_up(self@, raw_token, mode) == Err::<PythonOpEntry, _>(text@),
            },
    {
        let token: OpToken = match token_from_js(raw_token) {
            Some(token) => token,
            None => return Err("Unknown host op"),
        };
        match self.get_exposed(token) {
            Some(entry) => if entry.mode == mode {
                Ok(entry)
            } else {
                match mode {
                    PythonOpMode::Sync => Err("Host op is not synchronous"),
                    PythonOpMode::Async => Err("Host op is not asynchronous"),
                }
            },
            None => Err("Unknown host op"),
        }
    }
}

/// The token that a number from guest code is, if it is one.
pub open spec fn js_token(raw: Double) -> Option<u64> {
    if raw.finite() && raw.integral() && !raw.sign() && 1 <= raw.whole() <= MAX_OP_TOKEN {
        Some(raw.whole() as u64)
    } else {
        None
    }
}

/// Validate the raw number guest JS passed as an op token.
pub fn token_from_js(raw: Double) -> (token: Option<OpToken>)
    ensures
        token == js_token(raw),
{
    if !raw.is_finite() || !raw.is_integral() || raw.bits >= crate::double::SIGN_BIT {
        return None;
    }
    match raw.whole_magnitude() {
        Some(m) => if 1 <= m && m <= MAX_OP_TOKEN {
            Some(m)
        } else {
            None
        },
        None => None,
    }
}

/// What a call from guest code reaches, or the text of the failure.
pub open spec fn looked_up(registry: OpsView, raw: Double, mode: PythonOpMode) -> Result<
    PythonOpEntry,
    Seq<char>,
> {
    match js_token(raw) {
        None => Err("Unknown host op"@),
        Some(token) => match registry.dispatched(token) {
            None => Err("Unknown host op"@),
            Some(entry) => if entry.mode == mode {
                Ok(entry)
            } else {
                match mode {
                    PythonOpMode::Sync => Err("Host op is not synchronous"@),
                    PythonOpMode::Async => Err("Host op is not asynchronous"@),
                }
            },
        },
    }
}

/// What a call's arguments are counted against.
pub open spec fn call_budget(limits: SerializationLimits, optimized: bool) -> LimitState {
    LimitState {
        optimized,
        ..LimitState::fresh(limits.max_depth as nat, limits.max_bytes as nat)
    }
}

/// Convert the call's arguments against one shared budget, so that
/// `max_serialization_bytes` caps a whole call. `measure` tells how much stack is in
/// use on this thread (`None` without an anchor); it is asked as each level is
/// entered. [`convert_arguments_told`] says what comes of a stack that is found where
/// it was.
pub fn convert_arguments<F: Fn() -> Option<usize>>(
    args: &Vec<JSValue>,
    limits: &SerializationLimits,
    optimized: bool,
    measure: &F,
) -> (result: Result<Vec<PyValue>, String>)
    requires
        call_requires(*measure, ()),
    ensures
        exists|seen: Seq<Option<usize>>, after: LimitState|
            {
                &&& given_by(*measure, seen)
                &&& #[trigger] converts_items(
                    views(args@),
                    false,
                    call_budget(*limits, optimized),
                    seen,
                    items_result(result),
                    after,
                )
            },
{
    let mut tracker = LimitTracker::new(limits.max_depth, limits.max_bytes);
    tracker.note_stack(None, optimized);
    js_items_to_python(args, false, &mut tracker, measure)
}

/// Convert the call's arguments against one shared budget, with this much stack in use
/// throughout.
pub fn convert_arguments_told(
    args: &Vec<JSValue>,
    limits: &SerializationLimits,
    optimized: bool,
    used: Option<usize>,
) -> (result: Result<Vec<PyValue>, String>)
    ensures
        items_result(result) == items_to_python(
            views(args@),
            false,
            call_budget(*limits, optimized).measured(used),
        ).0,
{
    let mut tracker = LimitTracker::new(limits.max_depth, limits.max_bytes);
    tracker.note_stack(used, optimized);
    js_items_to_python_told(args, false, &mut tracker)
}

/// An async op needs the asyncio context that an async evaluation established.
pub fn require_task_locals(locals: Option<u64>) -> (result: Result<u64, &'static str>)
    ensures
        match result {
            Ok(handle) => locals == Some(handle),
            Err(text) => locals is None && text@
                == "Async op requires asyncio context. Call eval_async() first to establish context."@,
        },
{
    match locals {
        Some(handle) => Ok(handle),
        None => Err(
            "Async op requires asyncio context. Call eval_async() first to establish context.",
        ),
    }
}

/// The message that carries a Python exception's class to the guest: a marker that
/// cannot appear in a class name, the class, and the message.
pub open spec fn host_error_text(class: Option<Seq<char>>, message: Seq<char>) -> Seq<char> {
    seq!['\u{1}'] + (match class {
        Some(name) => name,
        None => "Error"@,
    }) + ": "@ + message
}

/// Convert a Python exception raised inside a host callback into a guest-visible
/// message, preserving the exception's class name.
pub fn map_pyerr(class: Option<String>, message: &str) -> (text: String)
    ensures
        text@ == host_error_text(crate::error::text_view(class), message@),
{
    let mut text = String::new();
    text.push('\u{1}');
    match &class {
        Some(name) => {
            text.append(name);
        },
        None => {
            text.append("Error");
        },
    }
    text.append(": ");
    text.append(message);
    assert(text@ =~= host_error_text(crate::error::text_view(class), message@));
    text
}

/// Every exposed token is registered.
pub open spec fn exposed_are_registered(registry: OpsView) -> bool {
    forall|id: u64| #[trigger]
        registry.exposed.contains(id) ==> registry.handlers.contains_key(id)
}

/// Every operation keeps exposed tokens registered ones.
pub proof fn law_exposed_stay_registered(registry: OpsView, entry: PythonOpEntry, id: u64)
    requires
        exposed_are_registered(registry),
    ensures
        exposed_are_registered(OpsView::fresh()),
        exposed_are_registered(registry.registered(entry)),
        exposed_are_registered(registry.exposing(id)),
        exposed_are_registered(registry.revoked(id)),
{
}

/// A registered op cannot be reached until it is exposed, is reached once it is,
/// and cannot be reached any more after it was revoked.
pub proof fn law_reached_only_between_exposure_and_revocation(
    registry: OpsView,
    entry: PythonOpEntry,
)
    requires
        exposed_are_registered(registry),
        !registry.handlers.contains_key(entry.id),
    ensures
        registry.registered(entry).dispatched(entry.id) is None,
        registry.registered(entry).exposing(entry.id).dispatched(entry.id) == Some(entry),
        registry.registered(entry).exposing(entry.id).revoked(entry.id).dispatched(entry.id)
            is None,
{
    assert(!registry.exposed.contains(entry.id));
}

/// Registering, exposing or revoking one op does not change what another token reaches.
pub proof fn law_ops_are_independent(
    registry: OpsView,
    entry: PythonOpEntry,
    id: u64,
    other: u64,
)
    requires
        other != id,
        other != entry.id,
    ensures
        registry.registered(entry).dispatched(other) == registry.dispatched(other),
        registry.exposing(id).dispatched(other) == registry.dispatched(other),
        registry.revoked(id).dispatched(other) == registry.dispatched(other),
{
}

/// A guest that guesses cannot tell an unknown token from one that is registered
/// but not exposed, or from one that was revoked.
pub proof fn law_refusals_are_uniform(registry: OpsView, raw: Double, mode: PythonOpMode)
    requires
        js_token(raw) is Some ==> registry.dispatched(js_token(raw)->0) is None,
    ensures
        looked_up(registry, raw, mode) == Err::<PythonOpEntry, _>("Unknown host op"@),
{
}

} // verus!
