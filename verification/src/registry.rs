//! Process-wide bookkeeping of handler registrations.
//!
//! At most one Ctrl-C handler may be registered per process, and at most one
//! [`AsyncCtrlC`](crate::async_ctrlc::AsyncCtrlC) may exist at a time. The
//! embedding program keeps one [`HandlerRegistry`] behind a lock and runs
//! every registration through it; the OS work of installing the handler is
//! handed in as a closure that receives the `overwrite` flag.
use vstd::prelude::*;

use crate::error::Error;

verus! {

/// The abstract state of a [`HandlerRegistry`].
#[derive(Debug, Clone, Copy, PartialEq, Eq, Structural)]
pub struct RegistryView {
    /// A Ctrl-C handler has been installed successfully.
    pub handler_set: bool,
    /// An `AsyncCtrlC` instance is currently claimed.
    pub async_instance: bool,
}

/// Process-wide registration state.
pub struct HandlerRegistry {
    handler_set: bool,
    async_instance: bool,
}

impl View for HandlerRegistry {
    type V = RegistryView;

    closed spec fn view(&self) -> RegistryView {
        RegistryView { handler_set: self.handler_set, async_instance: self.async_instance }
    }
}

/// How a registration request was answered.
#[derive(Debug, Clone, Copy, PartialEq, Eq, Structural)]
pub enum RegistryReply {
    /// Refused before any OS work: something is already registered.
    Refused,
    /// The OS work was attempted and failed; nothing was recorded.
    InstallFailed,
    /// The handler was installed and recorded.
    Registered,
    /// An `AsyncCtrlC` instance was released.
    Released,
}

/// Registering a handler in state `v`, where `install_ok` is what the OS work
/// would report if it is attempted.
pub open spec fn spec_register_handler(v: RegistryView, install_ok: bool) -> (RegistryView, RegistryReply) {
    if v.handler_set {
        (v, RegistryReply::Refused)
    } else if install_ok {
        (RegistryView { handler_set: true, ..v }, RegistryReply::Registered)
    } else {
        (v, RegistryReply::InstallFailed)
    }
}

/// Creating an `AsyncCtrlC` in state `v`: the instance is claimed first and
/// stays claimed even when the handler registration that follows fails.
pub open spec fn spec_claim_instance(v: RegistryView, install_ok: bool) -> (RegistryView, RegistryReply) {
    if v.async_instance {
        (v, RegistryReply::Refused)
    } else {
        spec_register_handler(RegistryView { async_instance: true, ..v }, install_ok)
    }
}

/// Dropping an `AsyncCtrlC`.
pub open spec fn spec_release_instance(v: RegistryView) -> RegistryView {
    RegistryView { async_instance: false, ..v }
}

impl HandlerRegistry {
    /// A registry in which nothing is registered yet.
    pub fn new() -> (r: HandlerRegistry)
        ensures
            r@ == (RegistryView { handler_set: false, async_instance: false }),
    {
        HandlerRegistry { handler_set: false, async_instance: false }
    }

    /// Whether a Ctrl-C handler has been installed.
    pub fn handler_set(&self) -> (r: bool)
        ensures
            r == self@.handler_set,
    {
        self.handler_set
    }

    /// Whether an `AsyncCtrlC` instance is currently claimed.
    pub fn async_instance(&self) -> (r: bool)
        ensures
            r == self@.async_instance,
    {
        self.async_instance
    }

    /// Claims the single `AsyncCtrlC` slot; refused when it is taken.
    pub(crate) fn claim_instance(&mut self) -> (r: Result<(), Error>)
        ensures
            old(self)@.async_instance ==> r == Err::<(), Error>(Error::MultipleHandlers)
                && final(self)@ == old(self)@,
            !old(self)@.async_instance ==> r == Ok::<(), Error>(())
                && final(self)@ == (RegistryView { async_instance: true, ..old(self)@ }),
    {
        if self.async_instance {
            Err(Error::MultipleHandlers)
        } else {
            self.async_instance = true;
            Ok(())
        }
    }

    /// Releases the `AsyncCtrlC` slot.
    pub(crate) fn release_instance(&mut self)
        ensures
            final(self)@ == spec_release_instance(old(self)@),
    {
        self.async_instance = false;
    }
}

/// Runs `install` only when no handler is registered yet, and records the
/// handler when `install` succeeds. `install` receives `overwrite`.
pub(crate) fn init_and_set_handler<H, F: FnOnce(bool) -> Result<H, Error>>(
    registry: &mut HandlerRegistry,
    install: F,
    overwrite: bool,
) -> (r: Result<H, Error>)
    requires
        !old(registry)@.handler_set ==> install.requires((overwrite,)),
    ensures
        final(registry)@ == spec_register_handler(old(registry)@, r is Ok).0,
        old(registry)@.handler_set ==> r == Err::<H, Error>(Error::MultipleHandlers),
        !old(registry)@.handler_set ==> install.ensures((overwrite,), r),
{
    if !registry.handler_set {
        let r = install(overwrite);
        if r.is_ok() {
            registry.handler_set = true;
        }
        return r;
    }
    Err(Error::MultipleHandlers)
}

/// Registers the Ctrl-C handler, overwriting handlers that other code set for
/// the same signals. Should be called once, at the start of the program.
///
/// Fails with [`Error::MultipleHandlers`] without calling `install` when a
/// handler has been registered already; otherwise returns what `install(true)`
/// returns and records the handler when that is `Ok`.
pub fn set_handler<H, F: FnOnce(bool) -> Result<H, Error>>(
    registry: &mut HandlerRegistry,
    install: F,
) -> (r: Result<H, Error>)
    requires
        !old(registry)@.handler_set ==> install.requires((true,)),
    ensures
        final(registry)@ == spec_register_handler(old(registry)@, r is Ok).0,
        old(registry)@.handler_set ==> r == Err::<H, Error>(Error::MultipleHandlers),
        !old(registry)@.handler_set ==> install.ensures((true,), r),
{
    init_and_set_handler(registry, install, true)
}

/// The same as [`set_handler`], but the OS work is asked (through
/// `install(false)`) to fail when a handler already exists for the signals.
pub fn try_set_handler<H, F: FnOnce(bool) -> Result<H, Error>>(
    registry: &mut HandlerRegistry,
    install: F,
) -> (r: Result<H, Error>)
    requires
        !old(registry)@.handler_set ==> install.requires((false,)),
    ensures
        final(registry)@ == spec_register_handler(old(registry)@, r is Ok).0,
        old(registry)@.handler_set ==> r == Err::<H, Error>(Error::MultipleHandlers),
        !old(registry)@.handler_set ==> install.ensures((false,), r),
{
    init_and_set_handler(registry, install, false)
}

/// One operation on the registry, as the laws below see it.
#[derive(Debug, Clone, Copy, PartialEq, Eq, Structural)]
pub enum RegistryOp {
    /// `set_handler` or `try_set_handler`; the OS work would report `install_ok`.
    Register { install_ok: bool },
    /// `AsyncCtrlC::new`; the OS work would report `install_ok`.
    CreateAsync { install_ok: bool },
    /// Dropping an `AsyncCtrlC`.
    ReleaseAsync,
}

/// The effect of one operation.
pub open spec fn spec_registry_apply(v: RegistryView, op: RegistryOp) -> (RegistryView, RegistryReply) {
    match op {
        RegistryOp::Register { install_ok } => spec_register_handler(v, install_ok),
        RegistryOp::CreateAsync { install_ok } => spec_claim_instance(v, install_ok),
        RegistryOp::ReleaseAsync => (spec_release_instance(v), RegistryReply::Released),
    }
}

/// The state reached, and the replies given, when `ops` are applied in turn.
pub open spec fn spec_registry_run(v: RegistryView, ops: Seq<RegistryOp>) -> (RegistryView, Seq<RegistryReply>)
    decreases ops.len(),
{
    if ops.len() == 0 {
        (v, seq![])
    } else {
        let prev = spec_registry_run(v, ops.drop_last());
        let next = spec_registry_apply(prev.0, ops.last());
        (next.0, prev.1.push(next.1))
    }
}

/// The state of a fresh process: nothing registered.
pub open spec fn spec_registry_start() -> RegistryView {
    RegistryView { handler_set: false, async_instance: false }
}

/// No `AsyncCtrlC` is dropped strictly between the `i`-th and the `j`-th operation.
pub open spec fn spec_no_release_between(ops: Seq<RegistryOp>, i: int, j: int) -> bool {
    forall|k: int| i < k < j ==> !(#[trigger] ops[k] is ReleaseAsync)
}

/// The state just before the `k`-th operation of `ops`.
pub open spec fn spec_registry_before(ops: Seq<RegistryOp>, k: int) -> RegistryView {
    spec_registry_run(spec_registry_start(), ops.take(k)).0
}

proof fn lemma_registry_step(ops: Seq<RegistryOp>, k: int)
    requires
        0 <= k < ops.len(),
    ensures
        spec_registry_run(spec_registry_start(), ops).1.len() == ops.len(),
        spec_registry_run(spec_registry_start(), ops).1[k] == spec_registry_apply(
            spec_registry_before(ops, k),
            ops[k],
        ).1,
        spec_registry_before(ops, k + 1) == spec_registry_apply(
            spec_registry_before(ops, k),
            ops[k],
        ).0,
    decreases ops.len(),
{
    let prefix = ops.drop_last();
    if prefix.len() > 0 {
        lemma_registry_step(prefix, if k < prefix.len() { k } else { 0 });
    }
    let run = spec_registry_run(spec_registry_start(), ops);
    let prun = spec_registry_run(spec_registry_start(), prefix);
    assert(run.1 == prun.1.push(spec_registry_apply(prun.0, ops.last()).1));
    if k == ops.len() - 1 {
        assert(ops.take(k) =~= prefix);
        assert(ops.take(k + 1) =~= ops);
        assert(ops.take(k + 1).drop_last() =~= prefix);
    } else {
        assert(prefix.take(k) =~= ops.take(k));
        assert(prefix.take(k + 1) =~= ops.take(k + 1));
        assert(prefix[k] == ops[k]);
        assert(run.1[k] == prun.1[k]);
    }
}

proof fn lemma_handler_set_stays(ops: Seq<RegistryOp>, i: int, j: int)
    requires
        0 <= i <= j <= ops.len(),
        spec_registry_before(ops, i).handler_set,
    ensures
        spec_registry_before(ops, j).handler_set,
    decreases j - i,
{
    if i < j {
        lemma_registry_step(ops, i);
        lemma_handler_set_stays(ops, i + 1, j);
    }
}

proof fn lemma_instance_stays_claimed(ops: Seq<RegistryOp>, i: int, j: int)
    requires
        0 <= i <= j <= ops.len(),
        spec_registry_before(ops, i).async_instance,
        spec_no_release_between(ops, i - 1, j),
    ensures
        spec_registry_before(ops, j).async_instance,
    decreases j - i,
{
    if i < j {
        lemma_registry_step(ops, i);
        lemma_instance_stays_claimed(ops, i + 1, j);
    }
}

/// A process registers its Ctrl-C handler at most once: after a registration
/// succeeded, every later `set_handler`, `try_set_handler` or
/// `AsyncCtrlC::new` is refused with `MultipleHandlers`, whatever was dropped
/// in between.
pub proof fn lemma_handler_registered_at_most_once(ops: Seq<RegistryOp>)
    ensures
        ({
            let replies = spec_registry_run(spec_registry_start(), ops).1;
            &&& replies.len() == ops.len()
            &&& forall|i: int, j: int|
                0 <= i < j < ops.len() && #[trigger] replies[i] == RegistryReply::Registered && (
                #[trigger] ops[j] is Register || ops[j] is CreateAsync) ==> replies[j]
                    == RegistryReply::Refused
        }),
{
    let replies = spec_registry_run(spec_registry_start(), ops).1;
    if ops.len() > 0 {
        lemma_registry_step(ops, 0);
    }
    assert forall|i: int, j: int|
        0 <= i < j < ops.len() && #[trigger] replies[i] == RegistryReply::Registered && (
        #[trigger] ops[j] is Register || ops[j] is CreateAsync) implies replies[j]
            == RegistryReply::Refused by {
        lemma_registry_step(ops, i);
        lemma_handler_set_stays(ops, i + 1, j);
        lemma_registry_step(ops, j);
    }
}

/// There is at most one `AsyncCtrlC` at a time: a second `AsyncCtrlC::new`
/// is refused unless the instance claimed by an earlier one was dropped in
/// between. A call that failed still holds its claim.
pub proof fn lemma_second_async_instance_refused(ops: Seq<RegistryOp>)
    ensures
        ({
            let replies = spec_registry_run(spec_registry_start(), ops).1;
            forall|i: int, j: int|
                0 <= i < j < ops.len() && #[trigger] ops[i] is CreateAsync && #[trigger] ops[j] is CreateAsync
                    && spec_no_release_between(ops, i, j) ==> replies[j] == RegistryReply::Refused
        }),
{
    let replies = spec_registry_run(spec_registry_start(), ops).1;
    assert forall|i: int, j: int|
        0 <= i < j < ops.len() && #[trigger] ops[i] is CreateAsync && #[trigger] ops[j] is CreateAsync
            && spec_no_release_between(ops, i, j) implies replies[j] == RegistryReply::Refused by {
        lemma_registry_step(ops, i);
        lemma_instance_stays_claimed(ops, i + 1, j);
        lemma_registry_step(ops, j);
    }
}


/// What a registration does, for every state and every outcome of the OS
/// work: it is refused exactly when a handler is registered already;
/// otherwise it registers exactly when the OS work succeeded; the handler is
/// recorded exactly when it was recorded before or this registration
/// succeeded; the instance slot is untouched.
pub proof fn lemma_register_answers(v: RegistryView, install_ok: bool)
    ensures
        spec_register_handler(v, install_ok).1 == RegistryReply::Refused <==> v.handler_set,
        spec_register_handler(v, install_ok).1 == RegistryReply::Registered <==> !v.handler_set
            && install_ok,
        spec_register_handler(v, install_ok).1 == RegistryReply::InstallFailed <==> !v.handler_set
            && !install_ok,
        spec_register_handler(v, install_ok).0.handler_set == (v.handler_set || install_ok),
        spec_register_handler(v, install_ok).0.async_instance == v.async_instance,
{
}

/// What creating an `AsyncCtrlC` does to the registry: it is refused
/// exactly when an instance is claimed; afterwards an instance is always
/// claimed; otherwise it registers the handler as a registration does.
pub proof fn lemma_claim_answers(v: RegistryView, install_ok: bool)
    ensures
        spec_claim_instance(v, install_ok).1 == RegistryReply::Refused <==> (v.async_instance
            || v.handler_set),
        spec_claim_instance(v, install_ok).1 == RegistryReply::Registered <==> !v.async_instance
            && !v.handler_set && install_ok,
        spec_claim_instance(v, install_ok).0.async_instance,
        spec_claim_instance(v, install_ok).0.handler_set == (v.handler_set || (!v.async_instance
            && install_ok)),
        spec_release_instance(v).handler_set == v.handler_set,
        !spec_release_instance(v).async_instance,
{
}

} // verus!
