//! What the programs say and are called: each has a text and a name of its own, and texts that
//! try the same thing differ only in what they try.
use vstd::prelude::*;

use crate::program_text::{
    ASYNC_HOST_CALL, ASYNC_OBSERVED, BUNDLE_CONTEXT, BUNDLE_INVOKE, BUNDLE_STATE, BUN_RESOLVE,
    BUN_RESOLVE_SYNC, EMPTY_CONTEXT, HOST_BRIDGE_TRANSPORT, IMPORT_NODE_FS, IMPORT_NODE_VM,
    IMPORT_PACKAGE, IMPORT_PLUGIN, LIFECYCLE_CONTEXT, LIFECYCLE_INVOKE_HEAD,
    LIFECYCLE_INVOKE_MIDDLE, LIFECYCLE_INVOKE_TAIL, LIFECYCLE_STATE_HEAD, LIFECYCLE_STATE_MIDDLE,
    LIFECYCLE_STATE_TAIL, MEMORY_CONTEXT, MEMORY_INVOCATIONS, MEMORY_RELEASE,
    NATIVE_ADDON_RESOLVE_SYNC, PERMISSION_HELPERS, PRE_ENTRY, PRE_ENTRY_STATE, RECOVERY,
    REQUIRE_STATUS, SPIN_ENTERED, SPIN_INVOCATION, STATIC_ESM, SYNC_HOST_CALL, TIMEOUT_CONTEXT,
    WRAPPER_EXTERNAL_PACKAGE, WRAPPER_LOADED, WRAPPER_NODE_BUILTIN,
};
use crate::script::{BundleUse, LifecycleBody, ProgramText, Script, SpinPolicy};

verus! {

/// Every program evaluates its own text, and none stands for another: each constant text belongs
/// to the program that it is named after, whatever probe evaluates it.
pub proof fn law_every_program_has_its_own_text(bundle: BundleUse, policy: SpinPolicy)
    ensures
        Script::SyncHostCall.spec_source() == ProgramText::Text(SYNC_HOST_CALL@),
        Script::AsyncHostCall.spec_source() == ProgramText::Text(ASYNC_HOST_CALL@),
        Script::AsyncObserved.spec_source() == ProgramText::Text(ASYNC_OBSERVED@),
        Script::BundleContext.spec_source() == ProgramText::Text(BUNDLE_CONTEXT@),
        Script::BundleInvoke.spec_source() == ProgramText::Text(BUNDLE_INVOKE@),
        Script::BundleState.spec_source() == ProgramText::Text(BUNDLE_STATE@),
        Script::HostBridgeTransport.spec_source() == ProgramText::Text(HOST_BRIDGE_TRANSPORT@),
        Script::TimeoutContext.spec_source() == ProgramText::Text(TIMEOUT_CONTEXT@),
        Script::PreEntry.spec_source() == ProgramText::Text(PRE_ENTRY@),
        Script::PreEntryState.spec_source() == ProgramText::Text(PRE_ENTRY_STATE@),
        Script::Recovery.spec_source() == ProgramText::Text(RECOVERY@),
        Script::SpinEntered.spec_source() == ProgramText::Text(SPIN_ENTERED@),
        Script::PermissionContext.spec_source() == ProgramText::Text(EMPTY_CONTEXT@),
        Script::PermissionHelpers.spec_source() == ProgramText::Text(PERMISSION_HELPERS@),
        Script::MemoryContext.spec_source() == ProgramText::Text(MEMORY_CONTEXT@),
        Script::MemoryInvocations.spec_source() == ProgramText::Text(MEMORY_INVOCATIONS@),
        Script::MemoryRelease.spec_source() == ProgramText::Text(MEMORY_RELEASE@),
        Script::ModuleContext.spec_source() == ProgramText::Text(EMPTY_CONTEXT@),
        Script::WrapperLoaded.spec_source() == ProgramText::Text(WRAPPER_LOADED@),
        Script::StaticEsm.spec_source() == ProgramText::Text(STATIC_ESM@),
        Script::ImportNodeFs.spec_source() == ProgramText::Text(IMPORT_NODE_FS@),
        Script::ImportPackage.spec_source() == ProgramText::Text(IMPORT_PACKAGE@),
        Script::ImportPlugin.spec_source() == ProgramText::Text(IMPORT_PLUGIN@),
        Script::ImportNodeVm.spec_source() == ProgramText::Text(IMPORT_NODE_VM@),
        Script::RequireStatus.spec_source() == ProgramText::Text(REQUIRE_STATUS@),
        Script::BunResolve.spec_source() == ProgramText::Text(BUN_RESOLVE@),
        Script::BunResolveSync.spec_source() == ProgramText::Text(BUN_RESOLVE_SYNC@),
        Script::NativeAddonResolveSync.spec_source() == ProgramText::Text(NATIVE_ADDON_RESOLVE_SYNC@),
        Script::WrapperNodeBuiltin.spec_source() == ProgramText::Text(WRAPPER_NODE_BUILTIN@),
        Script::WrapperExternalPackage.spec_source() == ProgramText::Text(WRAPPER_EXTERNAL_PACKAGE@),
        Script::LifecycleContext.spec_source() == ProgramText::Text(LIFECYCLE_CONTEXT@),
        Script::Spin(policy).spec_source() == ProgramText::Text(SPIN_INVOCATION@),
        Script::Bundle(bundle).spec_source() == ProgramText::ProgramBundle,
        Script::ProgramWrapper.spec_source() == ProgramText::InvocationBundle,
{
}

/// A surface of the inventory is classified by the program of that surface.
pub proof fn law_every_surface_has_its_own_program(index: usize)
    requires
        index < crate::surfaces::PERMISSION_SURFACE_COUNT,
    ensures
        Script::PermissionSurface(index).spec_source() == ProgramText::Text(
            crate::surfaces::surface_source(index as int),
        ),
{
}

/// Stack traces tell the programs apart: each has a file name of its own, also where two probes
/// evaluate the same text.
pub proof fn law_every_program_has_its_own_name(index: usize, body: LifecycleBody, number: i32)
    ensures
        Script::SyncHostCall.spec_filename()@ == "nimbus-bun-embed-probe-sync-host-call.js"@,
        Script::AsyncHostCall.spec_filename()@ == "nimbus-bun-embed-probe-async-host-call.js"@,
        Script::AsyncObserved.spec_filename()@ == "nimbus-bun-embed-probe-async-observed.js"@,
        Script::BundleContext.spec_filename()@
            == "nimbus-bun-embed-probe-generated-program-context.js"@,
        Script::Bundle(BundleUse::HostCalls).spec_filename()@
            == "nimbus-bun-embed-probe-generated-program-bundle.js"@,
        Script::Bundle(BundleUse::Timeout).spec_filename()@
            == "nimbus-bun-embed-probe-timeout-program-bundle.js"@,
        Script::Bundle(BundleUse::Permission).spec_filename()@
            == "nimbus-bun-embed-probe-permission-generated-program-bundle.js"@,
        Script::Bundle(BundleUse::Memory).spec_filename()@
            == "nimbus-bun-embed-probe-memory-generated-program-bundle.js"@,
        Script::Bundle(BundleUse::Module).spec_filename()@
            == "nimbus-bun-embed-probe-module-generated-program-bundle.js"@,
        Script::Bundle(BundleUse::Lifecycle).spec_filename()@
            == "nimbus-bun-embed-probe-lifecycle-generated-program-bundle.js"@,
        Script::BundleInvoke.spec_filename()@
            == "nimbus-bun-embed-probe-generated-program-invoke.js"@,
        Script::BundleState.spec_filename()@
            == "nimbus-bun-embed-probe-generated-program-state.js"@,
        Script::ProgramWrapper.spec_filename()@ == "nimbus-bun-linked-adapter-program-wrapper.js"@,
        Script::HostBridgeTransport.spec_filename()@
            == "nimbus-bun-linked-adapter-host-bridge-transport.js"@,
        Script::TimeoutContext.spec_filename()@ == "nimbus-bun-embed-probe-timeout-context.js"@,
        Script::PreEntry.spec_filename()@ == "nimbus-bun-embed-probe-before-entry-cancel.js"@,
        Script::PreEntryState.spec_filename()@
            == "nimbus-bun-embed-probe-before-entry-cancel-state.js"@,
        Script::Recovery.spec_filename()@ == "nimbus-bun-embed-probe-timeout-recovery.js"@,
        Script::Spin(SpinPolicy::Deadline).spec_filename()@
            == "nimbus-bun-embed-probe-timeout-spin.js"@,
        Script::Spin(SpinPolicy::ExternalCancel).spec_filename()@
            == "nimbus-bun-embed-probe-external-cancel-spin.js"@,
        Script::SpinEntered.spec_filename()@ == "nimbus-bun-embed-probe-spin-entered.js"@,
        Script::PermissionContext.spec_filename()@
            == "nimbus-bun-embed-probe-permission-context.js"@,
        Script::PermissionHelpers.spec_filename()@
            == "nimbus-bun-embed-probe-permission-lockdown-helpers.js"@,
        Script::PermissionSurface(index).spec_filename()@
            == "nimbus-bun-embed-probe-permission-surface.js"@,
        Script::MemoryContext.spec_filename()@ == "nimbus-bun-embed-probe-memory-context.js"@,
        Script::MemoryInvocations.spec_filename()@
            == "nimbus-bun-embed-probe-memory-invocations.js"@,
        Script::MemoryRelease.spec_filename()@ == "nimbus-bun-embed-probe-memory-release.js"@,
        Script::ModuleContext.spec_filename()@ == "nimbus-bun-embed-probe-module-context.js"@,
        Script::WrapperLoaded.spec_filename()@
            == "nimbus-bun-embed-probe-module-wrapper-loaded.js"@,
        Script::StaticEsm.spec_filename()@ == "nimbus-bun-embed-probe-static-esm-program.js"@,
        Script::ImportNodeFs.spec_filename()@
            == "nimbus-bun-embed-probe-dynamic-import-node-fs.js"@,
        Script::ImportPackage.spec_filename()@
            == "nimbus-bun-embed-probe-dynamic-import-package.js"@,
        Script::ImportPlugin.spec_filename()@
            == "nimbus-bun-embed-probe-dynamic-import-plugin-virtual.js"@,
        Script::ImportNodeVm.spec_filename()@
            == "nimbus-bun-embed-probe-dynamic-import-node-vm.js"@,
        Script::RequireStatus.spec_filename()@ == "nimbus-bun-embed-probe-require-status.js"@,
        Script::BunResolve.spec_filename()@ == "nimbus-bun-embed-probe-bun-resolve-status.js"@,
        Script::BunResolveSync.spec_filename()@
            == "nimbus-bun-embed-probe-bun-resolve-sync-status.js"@,
        Script::NativeAddonResolveSync.spec_filename()@
            == "nimbus-bun-embed-probe-native-addon-resolve-sync-status.js"@,
        Script::WrapperNodeBuiltin.spec_filename()@
            == "nimbus-bun-embed-probe-generated-node-builtin-status.js"@,
        Script::WrapperExternalPackage.spec_filename()@
            == "nimbus-bun-embed-probe-generated-external-package-status.js"@,
        Script::LifecycleContext.spec_filename()@
            == "nimbus-bun-embed-probe-lifecycle-context.js"@,
        (Script::LifecycleInvoke { body, message_id: number }).spec_filename()@
            == "nimbus-bun-embed-probe-lifecycle-invoke.js"@,
        (Script::LifecycleState { expected_total: number }).spec_filename()@
            == "nimbus-bun-embed-probe-lifecycle-state.js"@,
{
}

/// Asks `function` for `module`, which gives 7 where it is had, 8 where the embedder denied it and
/// 6 where something else stopped it.
pub open spec fn attempt(function: Seq<char>, module: Seq<char>) -> Seq<char> {
    "\n"@ + function + "(\""@ + module + r#"").then(
  () => 7,
  (error) => String(error && error.message || error).includes("Bun embedder denied module resolution") ? 8 : 6
)
"#@
}

/// Asks the synchronous resolver for `module`, which gives 1 where there is no resolver, 5 where
/// it is had, 8 where the embedder denied it and 4 where something else stopped it.
pub open spec fn resolution_attempt(module: Seq<char>) -> Seq<char> {
    r#"
(() => {
  if (typeof globalThis.Bun === "undefined" || typeof globalThis.Bun.resolveSync !== "function") {
    return 1;
  }
  try {
    globalThis.Bun.resolveSync(""#@ + module + r#"", "/tmp/nimbus-bun-embed-probe/source.js");
    return 5;
  } catch (error) {
    return String(error && error.message || error).includes("Bun embedder denied module resolution") ? 8 : 4;
  }
})()
"#@
}

proof fn lemma_import_node_fs()
    ensures
        IMPORT_NODE_FS@ == attempt("import"@, "node:fs"@),
{
    reveal_strlit("\n");
    reveal_strlit("import");
    reveal_strlit("(\"");
    reveal_strlit("node:fs");
    reveal_strlit(r#"").then(
  () => 7,
  (error) => String(error && error.message || error).includes("Bun embedder denied module resolution") ? 8 : 6
)
"#);
    reveal_strlit(r#"
import("node:fs").then(
  () => 7,
  (error) => String(error && error.message || error).includes("Bun embedder denied module resolution") ? 8 : 6
)
"#);
}

proof fn lemma_import_package()
    ensures
        IMPORT_PACKAGE@ == attempt("import"@, "left-pad"@),
{
    reveal_strlit("\n");
    reveal_strlit("import");
    reveal_strlit("(\"");
    reveal_strlit("left-pad");
    reveal_strlit(r#"").then(
  () => 7,
  (error) => String(error && error.message || error).includes("Bun embedder denied module resolution") ? 8 : 6
)
"#);
    reveal_strlit(r#"
import("left-pad").then(
  () => 7,
  (error) => String(error && error.message || error).includes("Bun embedder denied module resolution") ? 8 : 6
)
"#);
}

proof fn lemma_import_plugin()
    ensures
        IMPORT_PLUGIN@ == attempt("import"@, "nimbus-plugin:probe"@),
{
    reveal_strlit("\n");
    reveal_strlit("import");
    reveal_strlit("(\"");
    reveal_strlit("nimbus-plugin:probe");
    reveal_strlit(r#"").then(
  () => 7,
  (error) => String(error && error.message || error).includes("Bun embedder denied module resolution") ? 8 : 6
)
"#);
    reveal_strlit(r#"
import("nimbus-plugin:probe").then(
  () => 7,
  (error) => String(error && error.message || error).includes("Bun embedder denied module resolution") ? 8 : 6
)
"#);
}

proof fn lemma_import_node_vm()
    ensures
        IMPORT_NODE_VM@ == attempt("import"@, "node:vm"@),
{
    reveal_strlit("\n");
    reveal_strlit("import");
    reveal_strlit("(\"");
    reveal_strlit("node:vm");
    reveal_strlit(r#"").then(
  () => 7,
  (error) => String(error && error.message || error).includes("Bun embedder denied module resolution") ? 8 : 6
)
"#);
    reveal_strlit(r#"
import("node:vm").then(
  () => 7,
  (error) => String(error && error.message || error).includes("Bun embedder denied module resolution") ? 8 : 6
)
"#);
}

proof fn lemma_wrapper_node_builtin()
    ensures
        WRAPPER_NODE_BUILTIN@ == attempt("nodeBuiltinModule"@, "node:fs"@),
{
    reveal_strlit("\n");
    reveal_strlit("nodeBuiltinModule");
    reveal_strlit("(\"");
    reveal_strlit("node:fs");
    reveal_strlit(r#"").then(
  () => 7,
  (error) => String(error && error.message || error).includes("Bun embedder denied module resolution") ? 8 : 6
)
"#);
    reveal_strlit(r#"
nodeBuiltinModule("node:fs").then(
  () => 7,
  (error) => String(error && error.message || error).includes("Bun embedder denied module resolution") ? 8 : 6
)
"#);
}

proof fn lemma_wrapper_external_package()
    ensures
        WRAPPER_EXTERNAL_PACKAGE@ == attempt("nodeExternalPackage"@, "left-pad"@),
{
    reveal_strlit("\n");
    reveal_strlit("nodeExternalPackage");
    reveal_strlit("(\"");
    reveal_strlit("left-pad");
    reveal_strlit(r#"").then(
  () => 7,
  (error) => String(error && error.message || error).includes("Bun embedder denied module resolution") ? 8 : 6
)
"#);
    reveal_strlit(r#"
nodeExternalPackage("left-pad").then(
  () => 7,
  (error) => String(error && error.message || error).includes("Bun embedder denied module resolution") ? 8 : 6
)
"#);
}

proof fn lemma_bun_resolve_sync()
    ensures
        BUN_RESOLVE_SYNC@ == resolution_attempt("node:fs"@),
{
    reveal_strlit("node:fs");
    reveal_strlit(r#"
(() => {
  if (typeof globalThis.Bun === "undefined" || typeof globalThis.Bun.resolveSync !== "function") {
    return 1;
  }
  try {
    globalThis.Bun.resolveSync(""#);
    reveal_strlit(r#"", "/tmp/nimbus-bun-embed-probe/source.js");
    return 5;
  } catch (error) {
    return String(error && error.message || error).includes("Bun embedder denied module resolution") ? 8 : 4;
  }
})()
"#);
    reveal_strlit(r#"
(() => {
  if (typeof globalThis.Bun === "undefined" || typeof globalThis.Bun.resolveSync !== "function") {
    return 1;
  }
  try {
    globalThis.Bun.resolveSync("node:fs", "/tmp/nimbus-bun-embed-probe/source.js");
    return 5;
  } catch (error) {
    return String(error && error.message || error).includes("Bun embedder denied module resolution") ? 8 : 4;
  }
})()
"#);
}

proof fn lemma_native_addon_resolve_sync()
    ensures
        NATIVE_ADDON_RESOLVE_SYNC@ == resolution_attempt("./nimbus-native-addon.node"@),
{
    reveal_strlit("./nimbus-native-addon.node");
    reveal_strlit(r#"
(() => {
  if (typeof globalThis.Bun === "undefined" || typeof globalThis.Bun.resolveSync !== "function") {
    return 1;
  }
  try {
    globalThis.Bun.resolveSync(""#);
    reveal_strlit(r#"", "/tmp/nimbus-bun-embed-probe/source.js");
    return 5;
  } catch (error) {
    return String(error && error.message || error).includes("Bun embedder denied module resolution") ? 8 : 4;
  }
})()
"#);
    reveal_strlit(r#"
(() => {
  if (typeof globalThis.Bun === "undefined" || typeof globalThis.Bun.resolveSync !== "function") {
    return 1;
  }
  try {
    globalThis.Bun.resolveSync("./nimbus-native-addon.node", "/tmp/nimbus-bun-embed-probe/source.js");
    return 5;
  } catch (error) {
    return String(error && error.message || error).includes("Bun embedder denied module resolution") ? 8 : 4;
  }
})()
"#);
}

/// Every way to a module is tried with the same question, so that one answer means the same for
/// all of them: the programs differ in the function that they ask and in the module that they ask
/// for, and in nothing else.
pub proof fn law_ways_to_a_module_are_tried_alike()
    ensures
        Script::ImportNodeFs.spec_source() == ProgramText::Text(
            attempt("import"@, "node:fs"@),
        ),
        Script::ImportPackage.spec_source() == ProgramText::Text(
            attempt("import"@, "left-pad"@),
        ),
        Script::ImportPlugin.spec_source() == ProgramText::Text(
            attempt("import"@, "nimbus-plugin:probe"@),
        ),
        Script::ImportNodeVm.spec_source() == ProgramText::Text(
            attempt("import"@, "node:vm"@),
        ),
        Script::WrapperNodeBuiltin.spec_source() == ProgramText::Text(
            attempt("nodeBuiltinModule"@, "node:fs"@),
        ),
        Script::WrapperExternalPackage.spec_source() == ProgramText::Text(
            attempt("nodeExternalPackage"@, "left-pad"@),
        ),
        Script::BunResolveSync.spec_source() == ProgramText::Text(
            resolution_attempt("node:fs"@),
        ),
        Script::NativeAddonResolveSync.spec_source() == ProgramText::Text(
            resolution_attempt("./nimbus-native-addon.node"@),
        ),
        Script::RequireStatus.spec_source() == ProgramText::Text(
            crate::surfaces::absence_classifier("require"@),
        ),
{
    lemma_import_node_fs();
    lemma_import_package();
    lemma_import_plugin();
    lemma_import_node_vm();
    lemma_wrapper_node_builtin();
    lemma_wrapper_external_package();
    lemma_bun_resolve_sync();
    lemma_native_addon_resolve_sync();
    crate::surfaces::law_own_classifiers_ask_for_their_surface();
}

/// The programs of the lifecycle probe agree: an invocation sends its body, in double quotes, and
/// expects the id that it names; the check at the end expects as many inserts as schedules, and
/// that the last body was that of the invocation after the cancellations.
pub proof fn law_lifecycle_programs_agree(body: LifecycleBody, message_id: i32, total: i32)
    ensures
        (Script::LifecycleInvoke { body, message_id }).spec_source() == ProgramText::Text(
            LIFECYCLE_INVOKE_HEAD@ + seq!['"'] + crate::script::lifecycle_body_text(body) + seq!['"']
                + LIFECYCLE_INVOKE_MIDDLE@ + crate::text::decimal(message_id as int)
                + LIFECYCLE_INVOKE_TAIL@,
        ),
        (Script::LifecycleState { expected_total: total }).spec_source() == ProgramText::Text(
            LIFECYCLE_STATE_HEAD@ + crate::text::decimal(total as int) + LIFECYCLE_STATE_MIDDLE@
                + crate::text::decimal(total as int) + LIFECYCLE_STATE_TAIL@,
        ),
        LIFECYCLE_STATE_TAIL@ == r#"
    && state.dbObserved === 42
    && state.scheduleHostResult === 42
    && state.lastBody === ""#@ + crate::script::lifecycle_body_text(
            LifecycleBody::PostCancel,
        ) + r#""
      ? 42
      : -1;
})()
"#@,
        body matches LifecycleBody::Reuse(n) ==> crate::script::lifecycle_body_text(body)
            == "reuse-"@ + crate::text::decimal(n as int),
        body is PostCancel ==> crate::script::lifecycle_body_text(body) == "post-cancel"@,
{
    crate::script::law_lifecycle_messages_are_quoted_as_they_are(body, message_id as int);
    assert(crate::text::between_quotes(crate::script::lifecycle_body_text(body)) == seq!['"']
        + crate::script::lifecycle_body_text(body) + seq!['"']);
    assert(LIFECYCLE_INVOKE_HEAD@ + (seq!['"'] + crate::script::lifecycle_body_text(body)
        + seq!['"']) == LIFECYCLE_INVOKE_HEAD@ + seq!['"'] + crate::script::lifecycle_body_text(
        body,
    ) + seq!['"']);
    reveal_strlit("post-cancel");
    reveal_strlit(r#"
    && state.dbObserved === 42
    && state.scheduleHostResult === 42
    && state.lastBody === ""#);
    reveal_strlit(r#""
      ? 42
      : -1;
})()
"#);
    reveal_strlit(r#"
    && state.dbObserved === 42
    && state.scheduleHostResult === 42
    && state.lastBody === "post-cancel"
      ? 42
      : -1;
})()
"#);
}

/// The programs that call a host function once call it with the number that the probe then expects
/// to have arrived.
pub proof fn law_host_call_programs_send_the_expected_number()
    ensures
        Script::SyncHostCall.spec_source() == ProgramText::Text(
            "globalThis.__nimbusHostCall("@ + crate::text::decimal(41) + ")"@,
        ),
{
    reveal_strlit("globalThis.__nimbusHostCall(");
    reveal_strlit(")");
    reveal_strlit("globalThis.__nimbusHostCall(41)");
    reveal_with_fuel(crate::text::decimal_nat, 3);
    assert(crate::text::decimal(41) == seq!['4', '1']);
    assert("globalThis.__nimbusHostCall(41)"@ == "globalThis.__nimbusHostCall("@ + seq!['4', '1']
        + ")"@);
}

} // verus!
