//! Depth, byte and stack-headroom limits applied while values are converted.

use crate::error::{unit_view, ErrorView, RuntimeError, RuntimeResult};
use crate::text::{decimal, push_decimal};
use vstd::prelude::*;

verus! {

/// Default serialization depth limit.
pub const MAX_JS_DEPTH: usize = 100;

/// Default serialization byte limit (10 MiB).
pub const MAX_JS_BYTES: usize = 10_485_760;

/// Stack reserved for every thread that may run the engine or the converters (16 MiB).
pub const RUNTIME_THREAD_STACK_SIZE: usize = 16_777_216;

/// Stack budget below the runtime thread's anchor before [`LimitTracker::enter`]
/// refuses to recurse (640 KiB).
pub const STACK_HEADROOM_BYTES: usize = 655_360;

/// The address near the top of a thread's stack from which its use is measured.
#[derive(Clone, Copy, Debug)]
pub struct StackAnchor {
    pub address: usize,
}

/// Takes the address of a local near the top of the runtime thread as its anchor.
pub fn record_stack_anchor(address: usize) -> (anchor: StackAnchor)
    ensures
        anchor.address == address,
{
    StackAnchor { address }
}

/// Stack bytes in use at `here` since the anchor (the stack grows down), or
/// `None` on a thread without one.
pub fn stack_used_since_anchor(anchor: Option<StackAnchor>, here: usize) -> (used: Option<usize>)
    ensures
        match anchor {
            Some(a) => used == Some(
                if here <= a.address {
                    (a.address - here) as usize
                } else {
                    0
                },
            ),
            None => used is None,
        },
{
    match anchor {
        Some(a) => Some(a.address.saturating_sub(here)),
        None => None,
    }
}

/// Configurable serialization limits applied during transfers in both directions.
#[derive(Clone, Copy, Debug)]
pub struct SerializationLimits {
    pub max_depth: usize,
    pub max_bytes: usize,
}

impl SerializationLimits {
    pub fn new(max_depth: usize, max_bytes: usize) -> (limits: Self)
        ensures
            limits.max_depth == max_depth,
            limits.max_bytes == max_bytes,
    {
        SerializationLimits { max_depth, max_bytes }
    }
}

impl Default for SerializationLimits {
    fn default() -> (limits: Self)
        ensures
            limits.max_depth == MAX_JS_DEPTH,
            limits.max_bytes == MAX_JS_BYTES,
    {
        SerializationLimits::new(MAX_JS_DEPTH, MAX_JS_BYTES)
    }
}

/// What a `LimitTracker` has counted, and against what.
pub struct LimitState {
    pub max_depth: nat,
    pub max_bytes: nat,
    pub depth: nat,
    pub bytes: nat,
    /// Stack bytes in use when the stack was last measured.
    pub stack: Option<nat>,
    /// The library was built with optimizations.
    pub optimized: bool,
    /// What the stack is found at as levels are entered, first to last; once there
    /// is no more, it stays at the last measurement.
    pub ahead: Seq<Option<usize>>,
}

/// A measurement of the stack as a count.
pub open spec fn stack_count(used: Option<usize>) -> Option<nat> {
    match used {
        Some(n) => Some(n as nat),
        None => None,
    }
}

/// The sum of two counts, held at the largest `usize`.
pub open spec fn saturating_sum(a: nat, b: nat) -> nat {
    if a + b > usize::MAX {
        usize::MAX as nat
    } else {
        a + b
    }
}

/// The product of two counts, held at the largest `usize`.
pub open spec fn saturating_product(a: nat, b: nat) -> nat {
    if a * b > usize::MAX {
        usize::MAX as nat
    } else {
        a * b
    }
}

/// The number of bytes of a machine word.
pub open spec fn word_bytes() -> nat {
    (usize::BITS / 8) as nat
}

/// The bytes that `count` slots take, held at the largest `usize`. A slot is one
/// machine word, or two where `pairs` is set.
pub fn slot_bytes(count: usize, pairs: bool) -> (bytes: usize)
    ensures
        bytes == saturating_product(
            count as nat,
            if pairs {
                word_bytes() * 2
            } else {
                word_bytes()
            },
        ),
{
    let word: u128 = (usize::BITS / 8) as u128;
    let unit: u128 = if pairs {
        word * 2
    } else {
        word
    };
    assert(unit <= 16);
    proof {
        assert(count as int * unit as int <= 0xffff_ffff_ffff_ffff * 16) by (nonlinear_arith)
            requires
                0 <= count <= 0xffff_ffff_ffff_ffff,
                0 <= unit <= 16,
        ;
    }
    let total: u128 = count as u128 * unit;
    if total > usize::MAX as u128 {
        usize::MAX
    } else {
        total as usize
    }
}

/// The text of the depth rejection.
pub open spec fn depth_limit_text(max_depth: nat) -> Seq<char> {
    "Serialization depth exceeded the configured limit of "@ + decimal(max_depth)
        + " (RuntimeConfig(max_serialization_depth=...))"@
}

/// The text of the byte rejection.
pub open spec fn byte_limit_text(bytes: nat, max_bytes: nat) -> Seq<char> {
    "Serialization size ("@ + decimal(bytes) + " bytes) exceeded the configured limit of "@
        + decimal(max_bytes)
        + " bytes (RuntimeConfig(max_serialization_bytes=...)); see docs/guides/advanced/arrow-ipc-dataframes.md for transferring large payloads"@
}

/// How the build profile is named in the headroom rejection.
pub open spec fn profile_label(optimized: bool) -> Seq<char> {
    if optimized {
        "optimized"@
    } else {
        "unoptimized (debug_assertions on)"@
    }
}

/// The depth that the build profile reaches, as the headroom rejection puts it.
pub open spec fn profile_ceiling(optimized: bool) -> Seq<char> {
    if optimized {
        "around depth 743 -- far past the default `max_serialization_depth` of 100"@
    } else {
        "around depth 22 -- below the default `max_serialization_depth` of 100"@
    }
}

/// The text of the stack-headroom rejection.
pub open spec fn headroom_text(depth: nat, used: nat, optimized: bool) -> Seq<char> {
    "stack headroom exhausted at depth "@ + decimal(depth) + ": "@ + decimal(used)
        + " bytes used since the runtime thread's stack anchor (limit "@ + decimal(
        STACK_HEADROOM_BYTES as nat,
    )
        + " bytes). This is V8's own native stack limit, not `max_serialization_depth` -- raising that setting cannot lift it. How deep you can go depends on the build profile, because a serializer frame is ~33x larger unoptimized: this pydeno was built "@
        + profile_label(optimized) + ", where the ceiling is "@ + profile_ceiling(optimized)
        + ". Released wheels are optimized builds; if you are seeing this well below `max_serialization_depth` on ordinary data, you are running a debug build of pydeno, not hitting a limit its users see"@
}

impl LimitState {
    /// A tracker that has counted nothing.
    pub open spec fn fresh(max_depth: nat, max_bytes: nat) -> LimitState {
        LimitState {
            max_depth,
            max_bytes,
            depth: 0,
            bytes: 0,
            stack: None,
            optimized: true,
            ahead: Seq::empty(),
        }
    }

    /// The stack is found at these measurements, one for each level that is entered.
    pub open spec fn expecting(self, ahead: Seq<Option<usize>>) -> LimitState {
        LimitState { ahead, ..self }
    }

    /// The stack was measured.
    pub open spec fn measured(self, used: Option<usize>) -> LimitState {
        LimitState { stack: stack_count(used), ..self }
    }

    /// The state after one more level was entered, whether or not it is allowed.
    pub open spec fn entered(self) -> LimitState {
        if self.ahead.len() == 0 {
            LimitState { depth: saturating_sum(self.depth, 1), ..self }
        } else {
            LimitState {
                depth: saturating_sum(self.depth, 1),
                stack: stack_count(self.ahead[0]),
                ahead: self.ahead.drop_first(),
                ..self
            }
        }
    }

    /// Why the level that was just entered is refused, if it is.
    pub open spec fn level_refusal(self) -> Option<Seq<char>> {
        if self.depth > self.max_depth {
            Some(depth_limit_text(self.max_depth))
        } else {
            match self.stack {
                Some(used) => if used > STACK_HEADROOM_BYTES {
                    Some(headroom_text(self.depth, used, self.optimized))
                } else {
                    None
                },
                None => None,
            }
        }
    }

    /// The state after a level was left.
    pub open spec fn exited(self) -> LimitState {
        LimitState { depth: if self.depth > 0 { (self.depth - 1) as nat } else { 0 }, ..self }
    }

    /// The state after `bytes` more bytes were counted, whether or not they are allowed.
    pub open spec fn charged(self, bytes: nat) -> LimitState {
        LimitState { bytes: saturating_sum(self.bytes, bytes), ..self }
    }

    /// Why the bytes counted so far are refused, if they are.
    pub open spec fn size_refusal(self) -> Option<Seq<char>> {
        if self.bytes > self.max_bytes {
            Some(byte_limit_text(self.bytes, self.max_bytes))
        } else {
            None
        }
    }
}

/// Success, or the internal error with the given text.
pub open spec fn refusal_view(refusal: Option<Seq<char>>) -> Result<(), ErrorView> {
    match refusal {
        Some(text) => Err(ErrorView::Internal(text)),
        None => Ok(()),
    }
}

/// Enforces depth, byte and stack-headroom limits during value conversion.
pub struct LimitTracker {
    max_depth: usize,
    max_bytes: usize,
    current_depth: usize,
    current_bytes: usize,
    stack_used: Option<usize>,
    optimized: bool,
}

impl View for LimitTracker {
    type V = LimitState;

    closed spec fn view(&self) -> LimitState {
        LimitState {
            max_depth: self.max_depth as nat,
            max_bytes: self.max_bytes as nat,
            depth: self.current_depth as nat,
            bytes: self.current_bytes as nat,
            stack: stack_count(self.stack_used),
            optimized: self.optimized,
            ahead: Seq::empty(),
        }
    }
}

impl LimitTracker {
    /// A tracker on a thread whose stack is not measured.
    pub fn new(max_depth: usize, max_bytes: usize) -> (tracker: Self)
        ensures
            tracker@ == LimitState::fresh(max_depth as nat, max_bytes as nat),
    {
        LimitTracker {
            max_depth,
            max_bytes,
            current_depth: 0,
            current_bytes: 0,
            stack_used: None,
            optimized: true,
        }
    }

    /// Notes how much stack is in use on this thread (`None` without an anchor)
    /// and whether the build is optimized.
    pub fn note_stack(&mut self, used: Option<usize>, optimized: bool)
        ensures
            final(self)@ == (LimitState { optimized, ..old(self)@.measured(used) }),
    {
        self.stack_used = used;
        self.optimized = optimized;
    }

    /// Notes how much stack is in use now.
    pub fn measure(&mut self, used: Option<usize>)
        ensures
            final(self)@ == old(self)@.measured(used),
    {
        self.stack_used = used;
    }

    /// How much stack was in use when it was last measured.
    pub fn stack_used(&self) -> (used: Option<usize>)
        ensures
            stack_count(used) == self@.stack,
    {
        self.stack_used
    }

    /// Nothing is known of the stack beyond the last measurement.
    pub(crate) proof fn lemma_nothing_ahead(&self)
        ensures
            self@.ahead == Seq::<Option<usize>>::empty(),
    {
    }

    /// Enter a depth level. Errors past `max_depth`, or when more than
    /// [`STACK_HEADROOM_BYTES`] of stack were in use when last measured (a no-op
    /// on threads without an anchor).
    pub fn enter(&mut self) -> (result: RuntimeResult<()>)
        ensures
            final(self)@ == old(self)@.entered(),
            unit_view(result) == refusal_view(old(self)@.entered().level_refusal()),
    {
        self.current_depth = self.current_depth.saturating_add(1);
        if self.current_depth > self.max_depth {
            return Err(RuntimeError::internal(depth_limit_message(self.max_depth)));
        }
        if let Some(used) = self.stack_used {
            if used > STACK_HEADROOM_BYTES {
                return Err(
                    RuntimeError::internal(
                        headroom_message(self.current_depth, used, self.optimized),
                    ),
                );
            }
        }
        Ok(())
    }

    /// Leave a depth level.
    pub fn exit(&mut self)
        ensures
            final(self)@ == old(self)@.exited(),
    {
        self.current_depth = self.current_depth.saturating_sub(1);
    }

    /// The configured byte ceiling, for rejecting a single oversized value.
    pub fn max_bytes(&self) -> (bytes: usize)
        ensures
            bytes == self@.max_bytes,
    {
        self.max_bytes
    }

    /// Add to the byte count; errors past `max_bytes`. Saturating so an
    /// "unlimited" (`usize::MAX`) tracker cannot overflow.
    pub fn add_bytes(&mut self, bytes: usize) -> (result: RuntimeResult<()>)
        ensures
            final(self)@ == old(self)@.charged(bytes as nat),
            unit_view(result) == refusal_view(old(self)@.charged(bytes as nat).size_refusal()),
    {
        self.current_bytes = self.current_bytes.saturating_add(bytes);
        if self.current_bytes > self.max_bytes {
            return Err(
                RuntimeError::internal(byte_limit_message(self.current_bytes, self.max_bytes)),
            );
        }
        Ok(())
    }
}

/// User-facing depth rejection (both directions); names the config knob so the
/// limit reads as tunable.
pub fn depth_limit_message(max_depth: usize) -> (text: String)
    ensures
        text@ == depth_limit_text(max_depth as nat),
{
    let mut text = "Serialization depth exceeded the configured limit of ".to_owned();
    push_decimal(&mut text, max_depth as u64);
    text.append(" (RuntimeConfig(max_serialization_depth=...))");
    text
}

/// User-facing byte rejection; see [`depth_limit_message`].
pub fn byte_limit_message(current_bytes: usize, max_bytes: usize) -> (text: String)
    ensures
        text@ == byte_limit_text(current_bytes as nat, max_bytes as nat),
{
    let mut text = "Serialization size (".to_owned();
    push_decimal(&mut text, current_bytes as u64);
    text.append(" bytes) exceeded the configured limit of ");
    push_decimal(&mut text, max_bytes as u64);
    text.append(
        " bytes (RuntimeConfig(max_serialization_bytes=...)); see docs/guides/advanced/arrow-ipc-dataframes.md for transferring large payloads",
    );
    text
}

fn headroom_message(depth: usize, used: usize, optimized: bool) -> (text: String)
    ensures
        text@ == headroom_text(depth as nat, used as nat, optimized),
{
    let mut text = "stack headroom exhausted at depth ".to_owned();
    push_decimal(&mut text, depth as u64);
    text.append(": ");
    push_decimal(&mut text, used as u64);
    text.append(" bytes used since the runtime thread's stack anchor (limit ");
    push_decimal(&mut text, STACK_HEADROOM_BYTES as u64);
    text.append(
        " bytes). This is V8's own native stack limit, not `max_serialization_depth` -- raising that setting cannot lift it. How deep you can go depends on the build profile, because a serializer frame is ~33x larger unoptimized: this pydeno was built ",
    );
    if optimized {
        text.append("optimized");
        text.append(", where the ceiling is ");
        text.append("around depth 743 -- far past the default `max_serialization_depth` of 100");
    } else {
        text.append("unoptimized (debug_assertions on)");
        text.append(", where the ceiling is ");
        text.append("around depth 22 -- below the default `max_serialization_depth` of 100");
    }
    text.append(
        ". Released wheels are optimized builds; if you are seeing this well below `max_serialization_depth` on ordinary data, you are running a debug build of pydeno, not hitting a limit its users see",
    );
    text
}

/// A level that was entered and left leaves the counts as they were, except at
/// the largest depth that can be counted; only the stack may have been measured.
pub proof fn law_exit_undoes_enter(state: LimitState)
    requires
        state.depth < usize::MAX,
    ensures
        state.entered().exited() == (LimitState {
            stack: state.entered().stack,
            ahead: state.entered().ahead,
            ..state
        }),
        state.ahead.len() == 0 ==> state.entered().exited() == state,
{
}

/// Counting never lowers the byte count, and a refusal is never lifted by
/// counting more.
pub proof fn law_refused_bytes_stay_refused(state: LimitState, more: nat)
    requires
        state.bytes <= usize::MAX,
    ensures
        state.charged(more).bytes >= state.bytes,
        state.size_refusal() is Some ==> state.charged(more).size_refusal() is Some,
{
}

/// Charging in two steps is charging the sum in one.
pub proof fn law_charges_accumulate(state: LimitState, a: nat, b: nat)
    ensures
        state.charged(a).charged(b) == state.charged(a + b),
{
}

/// An unlimited tracker refuses no bytes, and a level only for want of stack.
pub proof fn law_unlimited_never_refuses(state: LimitState, bytes: nat)
    requires
        state.max_depth == usize::MAX,
        state.max_bytes == usize::MAX,
        state.depth <= usize::MAX,
        state.bytes <= usize::MAX,
    ensures
        state.charged(bytes).size_refusal() is None,
        state.entered().level_refusal() is Some ==> state.entered().stack is Some
            && state.entered().stack->0 > STACK_HEADROOM_BYTES,
{
}

} // verus!
