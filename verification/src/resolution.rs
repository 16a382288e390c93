//! The flag that denies module resolution while tenant code runs.
//!
//! The flag belongs to a thread. Each thread runs one machine, and both the guard that sets the
//! flag and the check that reads it run on that thread, so that no machine can lift the
//! denial of another.
use vstd::prelude::*;

verus! {

/// The deny flag of one thread.
#[derive(Clone, Copy, Debug, PartialEq, Eq, Structural)]
pub struct EmbedderDenyFlag {
    pub deny: bool,
}

impl EmbedderDenyFlag {
    /// The flag of a thread on which nothing has been denied.
    pub fn new() -> (flag: Self)
        ensures
            !flag.deny,
    {
        EmbedderDenyFlag { deny: false }
    }
}

/// How tenant code asks for a module.
#[derive(Clone, Copy, Debug, PartialEq, Eq, Structural)]
pub enum EmbedderModuleResolutionKind {
    DynamicImport,
    LoadAndEvaluateModule,
    BunResolve,
    BunResolveSync,
    ImportMetaResolve,
    RequireResolve,
}

impl EmbedderModuleResolutionKind {
    /// The number that native callers pass for the kind.
    pub open spec fn code(self) -> u8 {
        match self {
            EmbedderModuleResolutionKind::DynamicImport => 1,
            EmbedderModuleResolutionKind::LoadAndEvaluateModule => 2,
            EmbedderModuleResolutionKind::BunResolve => 3,
            EmbedderModuleResolutionKind::BunResolveSync => 4,
            EmbedderModuleResolutionKind::ImportMetaResolve => 5,
            EmbedderModuleResolutionKind::RequireResolve => 6,
        }
    }

    /// The number that native callers pass for the kind.
    pub fn to_u8(self) -> (code: u8)
        ensures
            code == self.code(),
    {
        match self {
            EmbedderModuleResolutionKind::DynamicImport => 1,
            EmbedderModuleResolutionKind::LoadAndEvaluateModule => 2,
            EmbedderModuleResolutionKind::BunResolve => 3,
            EmbedderModuleResolutionKind::BunResolveSync => 4,
            EmbedderModuleResolutionKind::ImportMetaResolve => 5,
            EmbedderModuleResolutionKind::RequireResolve => 6,
        }
    }

    /// The kind with this number, if there is one.
    pub fn from_u8(value: u8) -> (kind: Option<Self>)
        ensures
            kind matches Some(kind) ==> kind.code() == value,
            kind is None <==> !(1 <= value <= 6),
    {
        match value {
            1 => Some(EmbedderModuleResolutionKind::DynamicImport),
            2 => Some(EmbedderModuleResolutionKind::LoadAndEvaluateModule),
            3 => Some(EmbedderModuleResolutionKind::BunResolve),
            4 => Some(EmbedderModuleResolutionKind::BunResolveSync),
            5 => Some(EmbedderModuleResolutionKind::ImportMetaResolve),
            6 => Some(EmbedderModuleResolutionKind::RequireResolve),
            _ => None,
        }
    }
}

/// A flag once it has been set.
pub open spec fn flag_set(flag: EmbedderDenyFlag, deny: bool) -> EmbedderDenyFlag {
    EmbedderDenyFlag { deny, ..flag }
}

/// Sets the flag of this thread and returns what it was.
pub fn set_embedder_deny_all_module_resolution(flag: &mut EmbedderDenyFlag, deny: bool) -> (
    previous: bool)
    ensures
        previous == old(flag).deny,
        *final(flag) == flag_set(*old(flag), deny),
{
    let previous = flag.deny;
    flag.deny = deny;
    previous
}

/// Whether this thread denies the resolution. The policy denies everything or nothing: it looks
/// neither at the global object, nor at the specifier, nor at the kind.
pub fn embedder_should_deny_module_resolution<G, S>(
    flag: &EmbedderDenyFlag,
    _global_object: &G,
    _specifier: &S,
    _kind: EmbedderModuleResolutionKind,
) -> (denied: bool)
    ensures
        denied == flag.deny,
{
    flag.deny
}

/// The check as native callers reach it. Where the thread denies, a malformed call is denied too:
/// one with an unknown kind, without a global object or without a specifier.
#[allow(non_snake_case)]
pub fn Bun__embedderShouldDenyModuleResolution<G, S>(
    flag: &EmbedderDenyFlag,
    global_object: Option<&G>,
    specifier: Option<&S>,
    kind: u8,
) -> (denied: bool)
    ensures
        denied == flag.deny,
{
    if !flag.deny {
        return false;
    }
    let kind = match EmbedderModuleResolutionKind::from_u8(kind) {
        Some(kind) => kind,
        None => return true,
    };
    match (global_object, specifier) {
        (Some(global_object), Some(specifier)) => embedder_should_deny_module_resolution(
            flag,
            global_object,
            specifier,
            kind,
        ),
        _ => true,
    }
}

/// Denies resolution on this thread until it is released.
#[derive(Debug, PartialEq, Eq)]
pub struct EmbedderResolutionDenyGuard {
    /// What the flag was before.
    pub previous: bool,
}

impl EmbedderResolutionDenyGuard {
    /// Denies resolution.
    pub fn new(flag: &mut EmbedderDenyFlag) -> (guard: Self)
        ensures
            final(flag).deny,
            guard.previous == old(flag).deny,
    {
        EmbedderResolutionDenyGuard {
            previous: set_embedder_deny_all_module_resolution(flag, true),
        }
    }

    /// Gives the flag the value that it had before the guard.
    pub fn release(self, flag: &mut EmbedderDenyFlag)
        ensures
            final(flag).deny == self.previous,
    {
        set_embedder_deny_all_module_resolution(flag, self.previous);
    }
}

/// The flag while `guards` are held, the first of them taken first, on a flag that was `initial`.
/// Every guard remembers the flag that it found.
pub open spec fn nested(initial: bool, guards: Seq<EmbedderResolutionDenyGuard>, flag: bool) -> bool
    decreases guards.len(),
{
    if guards.len() == 0 {
        flag == initial
    } else {
        flag && nested(initial, guards.drop_last(), guards.last().previous)
    }
}

/// Taking a guard nests it inside those that are held, and the thread denies while it is held.
pub proof fn law_guards_nest(
    initial: bool,
    guards: Seq<EmbedderResolutionDenyGuard>,
    flag: bool,
    guard: EmbedderResolutionDenyGuard,
)
    requires
        nested(initial, guards, flag),
        guard.previous == flag,
    ensures
        nested(initial, guards.push(guard), true),
{
    assert(guards.push(guard).drop_last() == guards);
}

/// Releasing the guard that was taken last leaves the others as they were: while any is held the
/// thread denies, and once the first is released the flag is what it was before all of them.
pub proof fn law_releasing_unnests(
    initial: bool,
    guards: Seq<EmbedderResolutionDenyGuard>,
    flag: bool,
)
    requires
        guards.len() > 0,
        nested(initial, guards, flag),
    ensures
        nested(initial, guards.drop_last(), guards.last().previous),
        guards.len() > 1 ==> guards.last().previous,
        guards.len() == 1 ==> guards.last().previous == initial,
{
}

/// Each kind has a number of its own, from one to six.
pub proof fn law_kind_codes_are_one_to_one(
    first: EmbedderModuleResolutionKind,
    second: EmbedderModuleResolutionKind,
)
    ensures
        1 <= first.code() <= 6,
        first.code() == second.code() ==> first == second,
{
}

/// The flags of all threads after the thread `thread` has set its own, by a call that is handed
/// its flag and no other.
pub open spec fn after_set(
    flags: Map<nat, EmbedderDenyFlag>,
    thread: nat,
    deny: bool,
) -> Map<nat, EmbedderDenyFlag> {
    flags.insert(thread, flag_set(flags[thread], deny))
}

/// The flag is confined to its thread: a thread that sets its flag reads back what it set, and
/// every other thread still reads its own, whatever the two are.
pub proof fn law_threads_do_not_share_the_flag(
    flags: Map<nat, EmbedderDenyFlag>,
    thread: nat,
    other: nat,
    deny: bool,
)
    requires
        flags.dom().contains(thread),
        flags.dom().contains(other),
        thread != other,
    ensures
        after_set(flags, thread, deny)[thread].deny == deny,
        after_set(flags, thread, deny)[other] == flags[other],
{
}

/// Whether the internal testing APIs may be used in this process.
#[derive(Clone, Copy, Debug, PartialEq, Eq, Structural)]
pub struct InternalTestingApis {
    pub allowed: bool,
}

/// Allows or forbids the internal testing APIs.
pub fn set_is_allowed_to_use_internal_testing_apis(apis: &mut InternalTestingApis, v: bool)
    ensures
        final(apis).allowed == v,
{
    apis.allowed = v;
}

/// The number of each kind, as native callers pass it.
pub proof fn law_kinds_have_their_codes()
    ensures
        EmbedderModuleResolutionKind::DynamicImport.code() == 1,
        EmbedderModuleResolutionKind::LoadAndEvaluateModule.code() == 2,
        EmbedderModuleResolutionKind::BunResolve.code() == 3,
        EmbedderModuleResolutionKind::BunResolveSync.code() == 4,
        EmbedderModuleResolutionKind::ImportMetaResolve.code() == 5,
        EmbedderModuleResolutionKind::RequireResolve.code() == 6,
{
}

} // verus!
