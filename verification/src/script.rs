//! The programs that the probes evaluate: which there are, what they say and what they are called.
use vstd::prelude::*;

use crate::program_text::{
    ASYNC_HOST_CALL, ASYNC_OBSERVED, BUNDLE_CONTEXT, BUNDLE_INVOKE, BUNDLE_STATE, BUN_RESOLVE,
    BUN_RESOLVE_SYNC, EMPTY_CONTEXT, HOST_BRIDGE_TRANSPORT, IMPORT_NODE_FS, IMPORT_NODE_VM,
    IMPORT_PACKAGE, IMPORT_PLUGIN, LIFECYCLE_CONTEXT, LIFECYCLE_INVOKE_HEAD,
    LIFECYCLE_INVOKE_MIDDLE, LIFECYCLE_INVOKE_TAIL, LIFECYCLE_STATE_HEAD, LIFECYCLE_STATE_MIDDLE,
    LIFECYCLE_STATE_TAIL, MEMORY_CONTEXT, MEMORY_INVOCATIONS, MEMORY_RELEASE,
    NATIVE_ADDON_RESOLVE_SYNC, PERMISSION_HELPERS, PRE_ENTRY, PRE_ENTRY_STATE, RECOVERY,
    REQUIRE_STATUS, SPIN_ENTERED, SPIN_INVOCATION, STATIC_ESM, SYNC_HOST_CALL, TIMEOUT_CONTEXT,
    WRAPPER_EXTERNAL_PACKAGE, WRAPPER_LOADED, WRAPPER_NODE_BUILTIN,
};
use crate::surfaces::{permission_surface, PERMISSION_SURFACE_COUNT};
use crate::text::{append_decimal, quoted};

verus! {

/// The probe that evaluates the program bundle.
#[derive(Clone, Copy, Debug, PartialEq, Eq, Structural)]
pub enum BundleUse {
    HostCalls,
    Timeout,
    Permission,
    Memory,
    Module,
    Lifecycle,
}

/// What interrupts a spinning program.
#[derive(Clone, Copy, Debug, PartialEq, Eq, Structural)]
pub enum SpinPolicy {
    /// A deadline that the embedder set.
    Deadline,
    /// A cancellation from outside.
    ExternalCancel,
}

/// The message of one invocation of the lifecycle probe.
#[derive(Clone, Copy, Debug, PartialEq, Eq, Structural)]
pub enum LifecycleBody {
    /// One of the invocations that reuse the machine.
    Reuse(i32),
    /// The invocation after the cancellations.
    PostCancel,
}

/// A program that a probe evaluates.
#[derive(Clone, Copy, Debug, PartialEq, Eq, Structural)]
pub enum Script {
    SyncHostCall,
    AsyncHostCall,
    AsyncObserved,
    BundleContext,
    Bundle(BundleUse),
    BundleInvoke,
    BundleState,
    ProgramWrapper,
    HostBridgeTransport,
    TimeoutContext,
    PreEntry,
    PreEntryState,
    Recovery,
    Spin(SpinPolicy),
    SpinEntered,
    PermissionContext,
    PermissionHelpers,
    PermissionSurface(usize),
    MemoryContext,
    MemoryInvocations,
    MemoryRelease,
    ModuleContext,
    WrapperLoaded,
    StaticEsm,
    ImportNodeFs,
    ImportPackage,
    ImportPlugin,
    ImportNodeVm,
    RequireStatus,
    BunResolve,
    BunResolveSync,
    NativeAddonResolveSync,
    WrapperNodeBuiltin,
    WrapperExternalPackage,
    LifecycleContext,
    LifecycleInvoke { body: LifecycleBody, message_id: i32 },
    LifecycleState { expected_total: i32 },
}

/// Where the text of a program comes from.
#[derive(Debug, PartialEq, Eq)]
pub enum ProgramSource {
    /// The library has the text.
    Text(String),
    /// The text is the program bundle that the embedder links.
    ProgramBundle,
    /// The text is the bundle of the invocation.
    InvocationBundle,
}

/// The same with the characters of the text.
pub enum ProgramText {
    Text(Seq<char>),
    ProgramBundle,
    InvocationBundle,
}

impl View for ProgramSource {
    type V = ProgramText;

    open spec fn view(&self) -> ProgramText {
        match self {
            ProgramSource::Text(text) => ProgramText::Text(text@),
            ProgramSource::ProgramBundle => ProgramText::ProgramBundle,
            ProgramSource::InvocationBundle => ProgramText::InvocationBundle,
        }
    }
}

/// The message of a lifecycle invocation.
pub open spec fn lifecycle_body_text(body: LifecycleBody) -> Seq<char> {
    match body {
        LifecycleBody::Reuse(iteration) => "reuse-"@ + crate::text::decimal(iteration as int),
        LifecycleBody::PostCancel => "post-cancel"@,
    }
}

/// The program that invokes the bundled mutation with a message and expects the id of the
/// message that it inserts.
pub open spec fn lifecycle_invoke_text(body: Seq<char>, message_id: int) -> Seq<char> {
    LIFECYCLE_INVOKE_HEAD@ + crate::text::quoted_text(body) + LIFECYCLE_INVOKE_MIDDLE@
        + crate::text::decimal(message_id) + LIFECYCLE_INVOKE_TAIL@
}

/// The program that checks that every invocation inserted and scheduled once.
pub open spec fn lifecycle_state_text(expected_total: int) -> Seq<char> {
    LIFECYCLE_STATE_HEAD@ + crate::text::decimal(expected_total) + LIFECYCLE_STATE_MIDDLE@
        + crate::text::decimal(expected_total) + LIFECYCLE_STATE_TAIL@
}

fn lifecycle_body(body: LifecycleBody) -> (text: String)
    ensures
        text@ == lifecycle_body_text(body),
{
    match body {
        LifecycleBody::Reuse(iteration) => {
            let mut text = "reuse-".to_owned();
            append_decimal(&mut text, iteration);
            text
        },
        LifecycleBody::PostCancel => "post-cancel".to_owned(),
    }
}

/// The messages of the lifecycle probe stand in its programs as they are, between double quotes.
pub proof fn law_lifecycle_messages_are_quoted_as_they_are(body: LifecycleBody, message_id: int)
    ensures
        lifecycle_invoke_text(lifecycle_body_text(body), message_id) == LIFECYCLE_INVOKE_HEAD@
            + crate::text::between_quotes(lifecycle_body_text(body)) + LIFECYCLE_INVOKE_MIDDLE@
            + crate::text::decimal(message_id) + LIFECYCLE_INVOKE_TAIL@,
{
    match body {
        LifecycleBody::Reuse(iteration) => {
            reveal_strlit("reuse-");
            let number = crate::text::decimal(iteration as int);
            if iteration < 0 {
                crate::text::lemma_decimal_is_plain((-iteration) as nat);
                let digits = crate::text::decimal_nat((-iteration) as nat);
                assert forall|i: int| 0 <= i < number.len() implies crate::text::is_plain(
                    #[trigger] number[i],
                ) by {
                    if i > 0 {
                        assert(number[i] == digits[i - 1]);
                    }
                }
            } else {
                crate::text::lemma_decimal_is_plain(iteration as nat);
            }
            let text = lifecycle_body_text(body);
            let head = "reuse-"@;
            assert forall|i: int| 0 <= i < text.len() implies crate::text::is_plain(
                #[trigger] text[i],
            ) by {
                if i < head.len() {
                    assert(text[i] == head[i]);
                } else {
                    assert(text[i] == number[i - head.len()]);
                }
            }
        },
        LifecycleBody::PostCancel => {
            reveal_strlit("post-cancel");
        },
    }
}

/// Writes the program of one lifecycle invocation.
pub fn lifecycle_invoke_source(body: &str, message_id: i32) -> (source: String)
    ensures
        source@ == lifecycle_invoke_text(body@, message_id as int),
{
    let mut source = LIFECYCLE_INVOKE_HEAD.to_owned();
    let body = quoted(body);
    source.append(body.as_str());
    source.append(LIFECYCLE_INVOKE_MIDDLE);
    append_decimal(&mut source, message_id);
    source.append(LIFECYCLE_INVOKE_TAIL);
    source
}

/// Writes the program that checks the state after all lifecycle invocations.
pub fn lifecycle_state_source(expected_total: i32) -> (source: String)
    ensures
        source@ == lifecycle_state_text(expected_total as int),
{
    let mut source = LIFECYCLE_STATE_HEAD.to_owned();
    append_decimal(&mut source, expected_total);
    source.append(LIFECYCLE_STATE_MIDDLE);
    append_decimal(&mut source, expected_total);
    source.append(LIFECYCLE_STATE_TAIL);
    source
}

impl Script {
    /// The script exists: a permission surface is one of the inventory.
    pub open spec fn wf(self) -> bool {
        match self {
            Script::PermissionSurface(index) => index < PERMISSION_SURFACE_COUNT,
            _ => true,
        }
    }

    /// What the program says.
    pub open spec fn spec_source(self) -> ProgramText {
        match self {
            Script::SyncHostCall => ProgramText::Text(SYNC_HOST_CALL@),
            Script::AsyncHostCall => ProgramText::Text(ASYNC_HOST_CALL@),
            Script::AsyncObserved => ProgramText::Text(ASYNC_OBSERVED@),
            Script::BundleContext => ProgramText::Text(BUNDLE_CONTEXT@),
            Script::Bundle(_) => ProgramText::ProgramBundle,
            Script::BundleInvoke => ProgramText::Text(BUNDLE_INVOKE@),
            Script::BundleState => ProgramText::Text(BUNDLE_STATE@),
            Script::ProgramWrapper => ProgramText::InvocationBundle,
            Script::HostBridgeTransport => ProgramText::Text(HOST_BRIDGE_TRANSPORT@),
            Script::TimeoutContext => ProgramText::Text(TIMEOUT_CONTEXT@),
            Script::PreEntry => ProgramText::Text(PRE_ENTRY@),
            Script::PreEntryState => ProgramText::Text(PRE_ENTRY_STATE@),
            Script::Recovery => ProgramText::Text(RECOVERY@),
            Script::Spin(_) => ProgramText::Text(SPIN_INVOCATION@),
            Script::SpinEntered => ProgramText::Text(SPIN_ENTERED@),
            Script::PermissionContext => ProgramText::Text(EMPTY_CONTEXT@),
            Script::PermissionHelpers => ProgramText::Text(PERMISSION_HELPERS@),
            Script::PermissionSurface(index) => ProgramText::Text(
                crate::surfaces::surface_source(index as int),
            ),
            Script::MemoryContext => ProgramText::Text(MEMORY_CONTEXT@),
            Script::MemoryInvocations => ProgramText::Text(MEMORY_INVOCATIONS@),
            Script::MemoryRelease => ProgramText::Text(MEMORY_RELEASE@),
            Script::ModuleContext => ProgramText::Text(EMPTY_CONTEXT@),
            Script::WrapperLoaded => ProgramText::Text(WRAPPER_LOADED@),
            Script::StaticEsm => ProgramText::Text(STATIC_ESM@),
            Script::ImportNodeFs => ProgramText::Text(IMPORT_NODE_FS@),
            Script::ImportPackage => ProgramText::Text(IMPORT_PACKAGE@),
            Script::ImportPlugin => ProgramText::Text(IMPORT_PLUGIN@),
            Script::ImportNodeVm => ProgramText::Text(IMPORT_NODE_VM@),
            Script::RequireStatus => ProgramText::Text(REQUIRE_STATUS@),
            Script::BunResolve => ProgramText::Text(BUN_RESOLVE@),
            Script::BunResolveSync => ProgramText::Text(BUN_RESOLVE_SYNC@),
            Script::NativeAddonResolveSync => ProgramText::Text(NATIVE_ADDON_RESOLVE_SYNC@),
            Script::WrapperNodeBuiltin => ProgramText::Text(WRAPPER_NODE_BUILTIN@),
            Script::WrapperExternalPackage => ProgramText::Text(WRAPPER_EXTERNAL_PACKAGE@),
            Script::LifecycleContext => ProgramText::Text(LIFECYCLE_CONTEXT@),
            Script::LifecycleInvoke { body, message_id } => ProgramText::Text(
                lifecycle_invoke_text(lifecycle_body_text(body), message_id as int),
            ),
            Script::LifecycleState { expected_total } => ProgramText::Text(
                lifecycle_state_text(expected_total as int),
            ),
        }
    }

    /// What the program says.
    pub fn source(self) -> (source: ProgramSource)
        requires
            self.wf(),
        ensures
            source@ == self.spec_source(),
    {
        let text: &'static str = match self {
            Script::Bundle(_) => return ProgramSource::ProgramBundle,
            Script::ProgramWrapper => return ProgramSource::InvocationBundle,
            Script::PermissionSurface(index) => {
                return ProgramSource::Text(permission_surface(index).source);
            },
            Script::LifecycleInvoke { body, message_id } => {
                let body = lifecycle_body(body);
                return ProgramSource::Text(lifecycle_invoke_source(body.as_str(), message_id));
            },
            Script::LifecycleState { expected_total } => {
                return ProgramSource::Text(lifecycle_state_source(expected_total));
            },
            Script::SyncHostCall => SYNC_HOST_CALL,
            Script::AsyncHostCall => ASYNC_HOST_CALL,
            Script::AsyncObserved => ASYNC_OBSERVED,
            Script::BundleContext => BUNDLE_CONTEXT,
            Script::BundleInvoke => BUNDLE_INVOKE,
            Script::BundleState => BUNDLE_STATE,
            Script::HostBridgeTransport => HOST_BRIDGE_TRANSPORT,
            Script::TimeoutContext => TIMEOUT_CONTEXT,
            Script::PreEntry => PRE_ENTRY,
            Script::PreEntryState => PRE_ENTRY_STATE,
            Script::Recovery => RECOVERY,
            Script::Spin(_) => SPIN_INVOCATION,
            Script::SpinEntered => SPIN_ENTERED,
            Script::PermissionContext => EMPTY_CONTEXT,
            Script::PermissionHelpers => PERMISSION_HELPERS,
            Script::MemoryContext => MEMORY_CONTEXT,
            Script::MemoryInvocations => MEMORY_INVOCATIONS,
            Script::MemoryRelease => MEMORY_RELEASE,
            Script::ModuleContext => EMPTY_CONTEXT,
            Script::WrapperLoaded => WRAPPER_LOADED,
            Script::StaticEsm => STATIC_ESM,
            Script::ImportNodeFs => IMPORT_NODE_FS,
            Script::ImportPackage => IMPORT_PACKAGE,
            Script::ImportPlugin => IMPORT_PLUGIN,
            Script::ImportNodeVm => IMPORT_NODE_VM,
            Script::RequireStatus => REQUIRE_STATUS,
            Script::BunResolve => BUN_RESOLVE,
            Script::BunResolveSync => BUN_RESOLVE_SYNC,
            Script::NativeAddonResolveSync => NATIVE_ADDON_RESOLVE_SYNC,
            Script::WrapperNodeBuiltin => WRAPPER_NODE_BUILTIN,
            Script::WrapperExternalPackage => WRAPPER_EXTERNAL_PACKAGE,
            Script::LifecycleContext => LIFECYCLE_CONTEXT,
        };
        ProgramSource::Text(text.to_owned())
    }

    /// What stack traces call the program.
    pub open spec fn spec_filename(self) -> &'static str {
        match self {
            Script::SyncHostCall => "nimbus-bun-embed-probe-sync-host-call.js",
            Script::AsyncHostCall => "nimbus-bun-embed-probe-async-host-call.js",
            Script::AsyncObserved => "nimbus-bun-embed-probe-async-observed.js",
            Script::BundleContext => "nimbus-bun-embed-probe-generated-program-context.js",
            Script::Bundle(BundleUse::HostCalls) => "nimbus-bun-embed-probe-generated-program-bundle.js",
            Script::Bundle(BundleUse::Timeout) => "nimbus-bun-embed-probe-timeout-program-bundle.js",
            Script::Bundle(BundleUse::Permission) => "nimbus-bun-embed-probe-permission-generated-program-bundle.js",
            Script::Bundle(BundleUse::Memory) => "nimbus-bun-embed-probe-memory-generated-program-bundle.js",
            Script::Bundle(BundleUse::Module) => "nimbus-bun-embed-probe-module-generated-program-bundle.js",
            Script::Bundle(BundleUse::Lifecycle) => "nimbus-bun-embed-probe-lifecycle-generated-program-bundle.js",
            Script::BundleInvoke => "nimbus-bun-embed-probe-generated-program-invoke.js",
            Script::BundleState => "nimbus-bun-embed-probe-generated-program-state.js",
            Script::ProgramWrapper => "nimbus-bun-linked-adapter-program-wrapper.js",
            Script::HostBridgeTransport => "nimbus-bun-linked-adapter-host-bridge-transport.js",
            Script::TimeoutContext => "nimbus-bun-embed-probe-timeout-context.js",
            Script::PreEntry => "nimbus-bun-embed-probe-before-entry-cancel.js",
            Script::PreEntryState => "nimbus-bun-embed-probe-before-entry-cancel-state.js",
            Script::Recovery => "nimbus-bun-embed-probe-timeout-recovery.js",
            Script::Spin(SpinPolicy::Deadline) => "nimbus-bun-embed-probe-timeout-spin.js",
            Script::Spin(SpinPolicy::ExternalCancel) => "nimbus-bun-embed-probe-external-cancel-spin.js",
            Script::SpinEntered => "nimbus-bun-embed-probe-spin-entered.js",
            Script::PermissionContext => "nimbus-bun-embed-probe-permission-context.js",
            Script::PermissionHelpers => "nimbus-bun-embed-probe-permission-lockdown-helpers.js",
            Script::PermissionSurface(_) => "nimbus-bun-embed-probe-permission-surface.js",
            Script::MemoryContext => "nimbus-bun-embed-probe-memory-context.js",
            Script::MemoryInvocations => "nimbus-bun-embed-probe-memory-invocations.js",
            Script::MemoryRelease => "nimbus-bun-embed-probe-memory-release.js",
            Script::ModuleContext => "nimbus-bun-embed-probe-module-context.js",
            Script::WrapperLoaded => "nimbus-bun-embed-probe-module-wrapper-loaded.js",
            Script::StaticEsm => "nimbus-bun-embed-probe-static-esm-program.js",
            Script::ImportNodeFs => "nimbus-bun-embed-probe-dynamic-import-node-fs.js",
            Script::ImportPackage => "nimbus-bun-embed-probe-dynamic-import-package.js",
            Script::ImportPlugin => "nimbus-bun-embed-probe-dynamic-import-plugin-virtual.js",
            Script::ImportNodeVm => "nimbus-bun-embed-probe-dynamic-import-node-vm.js",
            Script::RequireStatus => "nimbus-bun-embed-probe-require-status.js",
            Script::BunResolve => "nimbus-bun-embed-probe-bun-resolve-status.js",
            Script::BunResolveSync => "nimbus-bun-embed-probe-bun-resolve-sync-status.js",
            Script::NativeAddonResolveSync => "nimbus-bun-embed-probe-native-addon-resolve-sync-status.js",
            Script::WrapperNodeBuiltin => "nimbus-bun-embed-probe-generated-node-builtin-status.js",
            Script::WrapperExternalPackage => "nimbus-bun-embed-probe-generated-external-package-status.js",
            Script::LifecycleContext => "nimbus-bun-embed-probe-lifecycle-context.js",
            Script::LifecycleInvoke { .. } => "nimbus-bun-embed-probe-lifecycle-invoke.js",
            Script::LifecycleState { .. } => "nimbus-bun-embed-probe-lifecycle-state.js",
        }
    }

    /// What stack traces call the program.
    pub fn filename(self) -> (filename: &'static str)
        ensures
            filename == self.spec_filename(),
    {
        match self {
            Script::SyncHostCall => "nimbus-bun-embed-probe-sync-host-call.js",
            Script::AsyncHostCall => "nimbus-bun-embed-probe-async-host-call.js",
            Script::AsyncObserved => "nimbus-bun-embed-probe-async-observed.js",
            Script::BundleContext => "nimbus-bun-embed-probe-generated-program-context.js",
            Script::Bundle(BundleUse::HostCalls) => "nimbus-bun-embed-probe-generated-program-bundle.js",
            Script::Bundle(BundleUse::Timeout) => "nimbus-bun-embed-probe-timeout-program-bundle.js",
            Script::Bundle(BundleUse::Permission) => "nimbus-bun-embed-probe-permission-generated-program-bundle.js",
            Script::Bundle(BundleUse::Memory) => "nimbus-bun-embed-probe-memory-generated-program-bundle.js",
            Script::Bundle(BundleUse::Module) => "nimbus-bun-embed-probe-module-generated-program-bundle.js",
            Script::Bundle(BundleUse::Lifecycle) => "nimbus-bun-embed-probe-lifecycle-generated-program-bundle.js",
            Script::BundleInvoke => "nimbus-bun-embed-probe-generated-program-invoke.js",
            Script::BundleState => "nimbus-bun-embed-probe-generated-program-state.js",
            Script::ProgramWrapper => "nimbus-bun-linked-adapter-program-wrapper.js",
            Script::HostBridgeTransport => "nimbus-bun-linked-adapter-host-bridge-transport.js",
            Script::TimeoutContext => "nimbus-bun-embed-probe-timeout-context.js",
            Script::PreEntry => "nimbus-bun-embed-probe-before-entry-cancel.js",
            Script::PreEntryState => "nimbus-bun-embed-probe-before-entry-cancel-state.js",
            Script::Recovery => "nimbus-bun-embed-probe-timeout-recovery.js",
            Script::Spin(SpinPolicy::Deadline) => "nimbus-bun-embed-probe-timeout-spin.js",
            Script::Spin(SpinPolicy::ExternalCancel) => "nimbus-bun-embed-probe-external-cancel-spin.js",
            Script::SpinEntered => "nimbus-bun-embed-probe-spin-entered.js",
            Script::PermissionContext => "nimbus-bun-embed-probe-permission-context.js",
            Script::PermissionHelpers => "nimbus-bun-embed-probe-permission-lockdown-helpers.js",
            Script::PermissionSurface(_) => "nimbus-bun-embed-probe-permission-surface.js",
            Script::MemoryContext => "nimbus-bun-embed-probe-memory-context.js",
            Script::MemoryInvocations => "nimbus-bun-embed-probe-memory-invocations.js",
            Script::MemoryRelease => "nimbus-bun-embed-probe-memory-release.js",
            Script::ModuleContext => "nimbus-bun-embed-probe-module-context.js",
            Script::WrapperLoaded => "nimbus-bun-embed-probe-module-wrapper-loaded.js",
            Script::StaticEsm => "nimbus-bun-embed-probe-static-esm-program.js",
            Script::ImportNodeFs => "nimbus-bun-embed-probe-dynamic-import-node-fs.js",
            Script::ImportPackage => "nimbus-bun-embed-probe-dynamic-import-package.js",
            Script::ImportPlugin => "nimbus-bun-embed-probe-dynamic-import-plugin-virtual.js",
            Script::ImportNodeVm => "nimbus-bun-embed-probe-dynamic-import-node-vm.js",
            Script::RequireStatus => "nimbus-bun-embed-probe-require-status.js",
            Script::BunResolve => "nimbus-bun-embed-probe-bun-resolve-status.js",
            Script::BunResolveSync => "nimbus-bun-embed-probe-bun-resolve-sync-status.js",
            Script::NativeAddonResolveSync => "nimbus-bun-embed-probe-native-addon-resolve-sync-status.js",
            Script::WrapperNodeBuiltin => "nimbus-bun-embed-probe-generated-node-builtin-status.js",
            Script::WrapperExternalPackage => "nimbus-bun-embed-probe-generated-external-package-status.js",
            Script::LifecycleContext => "nimbus-bun-embed-probe-lifecycle-context.js",
            Script::LifecycleInvoke { .. } => "nimbus-bun-embed-probe-lifecycle-invoke.js",
            Script::LifecycleState { .. } => "nimbus-bun-embed-probe-lifecycle-state.js",
        }
    }
}

} // verus!
