//! The JavaScript programs that the probes evaluate, as text.
use vstd::prelude::*;

verus! {

/// Replaces the raw host-bridge callback by the frozen context API that tenant code sees.
pub const HOST_BRIDGE_TRANSPORT: &'static str = r#"
(() => {
const __nimbusRawHostBridgeCallJson = globalThis.__nimbusHostBridgeCallJson;
if (typeof __nimbusRawHostBridgeCallJson !== "function") {
  return 0;
}
if (!delete globalThis.__nimbusHostBridgeCallJson || "__nimbusHostBridgeCallJson" in globalThis) {
  return 0;
}

const __nimbusJsonParse = JSON.parse;
const __nimbusJsonStringify = JSON.stringify;
const __nimbusArrayIsArray = Array.isArray;
const __nimbusObjectKeys = Object.keys;
const __nimbusObjectSetPrototypeOf = Object.setPrototypeOf;
const __nimbusWeakSet = WeakSet;
const __nimbusWeakSetAdd = Function.prototype.call.bind(WeakSet.prototype.add);
const __nimbusWeakSetDelete = Function.prototype.call.bind(WeakSet.prototype.delete);
const __nimbusWeakSetHas = Function.prototype.call.bind(WeakSet.prototype.has);
const __nimbusHostOperationNames = Object.freeze({
  __proto__: null,
  op_nimbus_http_route: "http_route",
  op_nimbus_ctx_query: "ctx_query",
  op_nimbus_ctx_paginated_query: "ctx_paginated_query",
  op_nimbus_ctx_mutation: "ctx_mutation",
  op_nimbus_ctx_action: "ctx_action",
  op_nimbus_ctx_run_query: "ctx_run_query",
  op_nimbus_ctx_run_mutation: "ctx_run_mutation",
  op_nimbus_ctx_run_action: "ctx_run_action",
  op_nimbus_document_get: "document_get",
  op_nimbus_ctx_query_start: "query_builder_start",
  op_nimbus_ctx_query_with_index: "query_builder_with_index",
  op_nimbus_ctx_query_filter: "query_builder_filter",
  op_nimbus_ctx_query_order: "query_builder_order",
  op_nimbus_ctx_query_collect: "query_read_collect",
  op_nimbus_ctx_query_take: "query_read_take",
  op_nimbus_ctx_query_paginate: "query_read_paginate",
  op_nimbus_ctx_query_first: "query_read_first",
  op_nimbus_ctx_query_unique: "query_read_unique",
  op_nimbus_document_insert: "document_insert",
  op_nimbus_document_patch: "document_patch",
  op_nimbus_document_delete: "document_delete",
  op_nimbus_ctx_scheduler_run_after: "ctx_scheduler_run_after",
  op_nimbus_ctx_scheduler_run_at: "ctx_scheduler_run_at",
  op_nimbus_ctx_scheduler_cancel: "ctx_scheduler_cancel",
  op_nimbus_ctx_service_lookup: "ctx_service_lookup",
  op_nimbus_ctx_runtime_enter_nested_call: "ctx_runtime_enter_nested_call",
  op_nimbus_ctx_resolve_callee_lane: "ctx_resolve_callee_lane",
  op_nimbus_cf_kv_get: "cf_kv_get",
  op_nimbus_cf_kv_put: "cf_kv_put",
  op_nimbus_cf_kv_delete: "cf_kv_delete",
  op_nimbus_cf_kv_list: "cf_kv_list",
  op_nimbus_runtime_extension_call: "runtime_extension_call",
});

function __nimbusFormatHostError(error) {
  if (error === null || error === undefined) {
    return "unknown host error";
  }
  if (typeof error === "string") {
    return error;
  }
  try {
    return __nimbusJsonStringify(error);
  } catch (_error) {
    return String(error);
  }
}

function __nimbusNormalizeHostOperationName(opName) {
  const operation = __nimbusHostOperationNames[opName];
  if (typeof operation !== "string") {
    throw new Error(`Nimbus Bun/JSC host op not found: ${opName}`);
  }
  return operation;
}

function __nimbusCloneJsonValue(value, seen) {
  if (value === null || typeof value !== "object") {
    return value;
  }
  if (__nimbusWeakSetHas(seen, value)) {
    throw new TypeError("Nimbus Bun/JSC host payload must not contain a cycle");
  }
  __nimbusWeakSetAdd(seen, value);

  let clone;
  if (__nimbusArrayIsArray(value)) {
    clone = [];
    __nimbusObjectSetPrototypeOf(clone, null);
    for (let index = 0; index < value.length; index++) {
      clone[index] = __nimbusCloneJsonValue(value[index], seen);
    }
  } else {
    clone = { __proto__: null };
    const keys = __nimbusObjectKeys(value);
    for (let index = 0; index < keys.length; index++) {
      const key = keys[index];
      if (key !== "toJSON") {
        clone[key] = __nimbusCloneJsonValue(value[key], seen);
      }
    }
  }

  __nimbusWeakSetDelete(seen, value);
  return clone;
}

function __nimbusCallHostBridge(opName, payload) {
  const request = {
    __proto__: null,
    abi_version: 1,
    operation: __nimbusNormalizeHostOperationName(opName),
    payload: __nimbusCloneJsonValue(payload ?? null, new __nimbusWeakSet()),
  };
  const responseText = __nimbusRawHostBridgeCallJson(__nimbusJsonStringify(request));
  const response = __nimbusJsonParse(responseText);
  if (!response || response.status !== "ok") {
    const error = new Error(
      `Nimbus Bun/JSC host call failed for ${opName}: ${__nimbusFormatHostError(response?.error)}`,
    );
    error.nimbusHostError = response?.error ?? null;
    throw error;
  }
  return response.value;
}

function __nimbusNormalizeFunctionReference(functionRef, label) {
  if (!functionRef || typeof functionRef !== "object") {
    throw new Error(`ctx.${label}(...) requires a generated function reference`);
  }
  if (typeof functionRef.name !== "string" || functionRef.name.length === 0) {
    throw new Error(`ctx.${label}(...) requires a named generated function reference`);
  }
  return {
    name: functionRef.name,
    visibility: typeof functionRef.visibility === "string" ? functionRef.visibility : "public",
  };
}

function __nimbusNormalizeFieldName(field) {
  if (typeof field === "string" && field.length > 0) {
    return field;
  }
  if (
    field !== null &&
    typeof field === "object" &&
    typeof field.__fieldName === "string" &&
    field.__fieldName.length > 0
  ) {
    return field.__fieldName;
  }
  throw new Error("ctx.db field constraints require a non-empty field name");
}

function __nimbusCreateConstraintBuilder() {
  const filters = [];
  const builder = {
    field(name) {
      return { __fieldName: __nimbusNormalizeFieldName(name) };
    },
    eq(field, value) {
      filters.push({ field: __nimbusNormalizeFieldName(field), op: "eq", value });
      return builder;
    },
    neq(field, value) {
      filters.push({ field: __nimbusNormalizeFieldName(field), op: "neq", value });
      return builder;
    },
    gt(field, value) {
      filters.push({ field: __nimbusNormalizeFieldName(field), op: "gt", value });
      return builder;
    },
    gte(field, value) {
      filters.push({ field: __nimbusNormalizeFieldName(field), op: "gte", value });
      return builder;
    },
    lt(field, value) {
      filters.push({ field: __nimbusNormalizeFieldName(field), op: "lt", value });
      return builder;
    },
    lte(field, value) {
      filters.push({ field: __nimbusNormalizeFieldName(field), op: "lte", value });
      return builder;
    },
  };
  return Object.assign(builder, { __filters: filters });
}

function __nimbusCollectConstraintFilters(builderFn, label) {
  const builder = __nimbusCreateConstraintBuilder();
  const result = builderFn ? builderFn(builder) : builder;
  if (result !== undefined && result !== builder && result?.__filters !== builder.__filters) {
    throw new Error(`ctx.db.${label}(...) must return the provided builder`);
  }
  return [...builder.__filters];
}

function __nimbusCreateQueryBuilder(syncHostValue, asyncHostValue, builderId) {
  return Object.freeze({
    __builderId: builderId,
    withIndex(indexName, builderFn) {
      syncHostValue("op_nimbus_ctx_query_with_index", {
        builder_id: builderId,
        index_name: indexName,
        filters: __nimbusCollectConstraintFilters(builderFn, "withIndex"),
      });
      return __nimbusCreateQueryBuilder(syncHostValue, asyncHostValue, builderId);
    },
    filter(builderFn) {
      syncHostValue("op_nimbus_ctx_query_filter", {
        builder_id: builderId,
        filters: __nimbusCollectConstraintFilters(builderFn, "filter"),
      });
      return __nimbusCreateQueryBuilder(syncHostValue, asyncHostValue, builderId);
    },
    order(direction) {
      syncHostValue("op_nimbus_ctx_query_order", {
        builder_id: builderId,
        direction,
      });
      return __nimbusCreateQueryBuilder(syncHostValue, asyncHostValue, builderId);
    },
    collect() {
      return asyncHostValue("op_nimbus_ctx_query_collect", { builder_id: builderId });
    },
    take(limit) {
      return asyncHostValue("op_nimbus_ctx_query_take", { builder_id: builderId, limit });
    },
    paginate(options = {}) {
      return asyncHostValue("op_nimbus_ctx_query_paginate", {
        builder_id: builderId,
        page_size: options.numItems,
        cursor: typeof options.cursor === "string" ? options.cursor : null,
      });
    },
    first() {
      return asyncHostValue("op_nimbus_ctx_query_first", { builder_id: builderId });
    },
    unique() {
      return asyncHostValue("op_nimbus_ctx_query_unique", { builder_id: builderId });
    },
  });
}

let __nimbusNextSessionId = 1;

const __nimbusSyncHostValue = function(opName, payload) {
  return __nimbusCallHostBridge(opName, payload);
};

const __nimbusAsyncHostValue = async function(opName, payload) {
  return __nimbusCallHostBridge(opName, payload);
};

const __nimbusCreateContext = function(options = {}) {
  const hostCallSessionId =
    typeof options.hostCallSessionId === "string" && options.hostCallSessionId.length > 0
      ? options.hostCallSessionId
      : `session-${__nimbusNextSessionId++}`;
  const services =
    options.request !== null &&
    typeof options.request === "object" &&
    options.request.services !== null &&
    typeof options.request.services === "object"
      ? options.request.services
      : null;
  const withSession = (payload) => ({
    host_call_session_id: hostCallSessionId,
    ...(payload ?? {}),
  });
  const syncHostValue = (opName, payload) => __nimbusSyncHostValue(opName, withSession(payload));
  const asyncHostValue = (opName, payload) => __nimbusAsyncHostValue(opName, withSession(payload));
  const runFunction = (opName, kind, label, functionRef, args = {}) => {
    const normalized = __nimbusNormalizeFunctionReference(functionRef, label);
    return asyncHostValue(opName, {
      ...normalized,
      args,
    });
  };
  return {
    db: {
      get(tableOrId, maybeId) {
        if (maybeId === undefined) {
          if (
            tableOrId &&
            typeof tableOrId === "object" &&
            typeof tableOrId.table === "string" &&
            typeof tableOrId.id === "string"
          ) {
            return asyncHostValue("op_nimbus_document_get", {
              table: tableOrId.table,
              id: tableOrId.id,
            });
          }
          throw new Error("Nimbus Bun/JSC ctx.db.get requires table and id");
        }
        return asyncHostValue("op_nimbus_document_get", {
          table: tableOrId,
          id: maybeId,
        });
      },
      query(table) {
        const builderId = syncHostValue("op_nimbus_ctx_query_start", { table });
        return __nimbusCreateQueryBuilder(syncHostValue, asyncHostValue, builderId);
      },
      insert(table, fields) {
        return asyncHostValue("op_nimbus_document_insert", { table, fields });
      },
      patch(table, id, patch) {
        return asyncHostValue("op_nimbus_document_patch", { table, id, patch });
      },
      delete(table, id) {
        return asyncHostValue("op_nimbus_document_delete", { table, id });
      },
    },
    scheduler: {
      runAfter(delayMs, functionRef, args = {}) {
        const normalized = __nimbusNormalizeFunctionReference(functionRef, "scheduler.runAfter");
        return asyncHostValue("op_nimbus_ctx_scheduler_run_after", {
          delay_ms: delayMs,
          ...normalized,
          args,
        });
      },
      runAt(timestampMs, functionRef, args = {}) {
        const normalized = __nimbusNormalizeFunctionReference(functionRef, "scheduler.runAt");
        return asyncHostValue("op_nimbus_ctx_scheduler_run_at", {
          timestamp_ms: timestampMs,
          ...normalized,
          args,
        });
      },
      cancel(jobId) {
        return asyncHostValue("op_nimbus_ctx_scheduler_cancel", { job_id: jobId });
      },
    },
    services: Object.freeze({
      get(serviceName) {
        if (services && Object.prototype.hasOwnProperty.call(services, serviceName)) {
          return services[serviceName];
        }
        return asyncHostValue("op_nimbus_ctx_service_lookup", { service_name: serviceName });
      },
    }),
    runQuery(functionRef, args = {}) {
      return runFunction("op_nimbus_ctx_run_query", "query", "runQuery", functionRef, args);
    },
    runMutation(functionRef, args = {}) {
      return runFunction("op_nimbus_ctx_run_mutation", "mutation", "runMutation", functionRef, args);
    },
    runAction(functionRef, args = {}) {
      return runFunction("op_nimbus_ctx_run_action", "action", "runAction", functionRef, args);
    },
  };
};

Object.freeze(__nimbusSyncHostValue);
Object.freeze(__nimbusAsyncHostValue);
Object.freeze(__nimbusCreateContext);
Object.defineProperties(globalThis, {
  __nimbusSyncHostValue: {
    value: __nimbusSyncHostValue,
    writable: false,
    configurable: false,
    enumerable: false,
  },
  __nimbusAsyncHostValue: {
    value: __nimbusAsyncHostValue,
    writable: false,
    configurable: false,
    enumerable: false,
  },
  __nimbusCreateContext: {
    value: __nimbusCreateContext,
    writable: false,
    configurable: false,
    enumerable: false,
  },
});
return 1;
})()
"#;

/// Calls the synchronous host function once.
pub const SYNC_HOST_CALL: &'static str = "globalThis.__nimbusHostCall(41)";

/// Calls the asynchronous host function once and stores what its promise resolves to.
pub const ASYNC_HOST_CALL: &'static str = r#"
globalThis.__nimbusAsyncObserved = -1;
globalThis.__nimbusAsyncHostCall(41).then((value) => {
  globalThis.__nimbusAsyncObserved = value;
});
"#;

/// Reads back what the promise resolved to.
pub const ASYNC_OBSERVED: &'static str = "globalThis.__nimbusAsyncObserved";

/// Gives the program bundle a context whose calls reach the host.
pub const BUNDLE_CONTEXT: &'static str = r#"
globalThis.__nimbusGeneratedProgramState = {
  dbObserved: -1,
  scheduleDelay: -1,
  scheduleName: "",
  scheduleVisibility: "",
  scheduleKind: "",
  scheduleBody: "",
  scheduleHostResult: -1,
};
globalThis.__nimbusCreateContext = () => ({
  db: {
    insert: async (_table, document) => {
      const observed = await globalThis.__nimbusAsyncHostCall(
        document && document.body === "hello" ? 41 : -1,
      );
      globalThis.__nimbusGeneratedProgramState.dbObserved = observed;
      return document && document.body === "hello" ? "message-id" : "scheduled-id";
    },
  },
  scheduler: {
    runAfter: async (delayMs, mutationRef, args) => {
      const state = globalThis.__nimbusGeneratedProgramState;
      state.scheduleDelay = delayMs;
      state.scheduleName = mutationRef.name;
      state.scheduleVisibility = mutationRef.visibility;
      state.scheduleKind = mutationRef.kind;
      state.scheduleBody = args.body;
      state.scheduleHostResult = globalThis.__nimbusHostCall(41);
      return "job-id";
    },
  },
});
1
"#;

/// Invokes the bundled mutation that inserts and schedules.
pub const BUNDLE_INVOKE: &'static str = r#"
globalThis.__nimbusGeneratedProgramPromise = globalThis.__nimbusInvoke({
  kind: "mutation",
  function_name: "messages:sendAndSchedule",
  args: { body: "hello" },
}).then((response) => {
  globalThis.__nimbusGeneratedProgramResponse = response;
  return response.status === "ok" && response.value === "message-id" ? 42 : -1;
});
globalThis.__nimbusGeneratedProgramPromise
"#;

/// Checks what the bundled mutation left behind.
pub const BUNDLE_STATE: &'static str = r#"
(() => {
  const state = globalThis.__nimbusGeneratedProgramState;
  const response = globalThis.__nimbusGeneratedProgramResponse;
  return state.dbObserved === 42
    && state.scheduleDelay === 1000
    && state.scheduleName === "messages:sendInternal"
    && state.scheduleVisibility === "internal"
    && state.scheduleKind === "mutation"
    && state.scheduleBody === "hello later"
    && state.scheduleHostResult === 42
    && response.status === "ok"
    && response.value === "message-id"
      ? 42
      : -1;
})()
"#;

/// An empty context for the cancellation probe.
pub const TIMEOUT_CONTEXT: &'static str = "globalThis.__nimbusCreateContext = () => ({}); 1";

/// An empty context for probes whose program makes no host call.
pub const EMPTY_CONTEXT: &'static str = r#"
globalThis.__nimbusCreateContext = () => ({});
1
"#;

/// The helpers that classify one permission surface.
pub const PERMISSION_HELPERS: &'static str = r#"
globalThis.__nimbusPermissionDenied = (error) => {
  const message = String(error && error.message || error);
  return message.includes("Bun embedder denied native capability")
    || message.includes("Code generation from strings disallowed by Bun embedder profile");
};
globalThis.__nimbusPermissionProbeFunction = (value) => {
  if (typeof value === "undefined") return 1;
  if (typeof value !== "function") return 4;
  if (value.__nimbusDeniedNativeCapability !== true) return 5;
  try {
    value();
    return 4;
  } catch (error) {
    return globalThis.__nimbusPermissionDenied(error) ? 2 : 4;
  }
};
globalThis.__nimbusPermissionProbeProfileObject = (value) => {
  if (typeof value === "undefined") return 1;
  return value && value.__nimbusNativePermissionProfile === "deny" ? 3 : 5;
};
globalThis.__nimbusPermissionProbeDynamicCode = (callback) => {
  try {
    callback();
    return 5;
  } catch (error) {
    return globalThis.__nimbusPermissionDenied(error) ? 2 : 4;
  }
};
1
"#;

/// The context of the memory probe.
pub const MEMORY_CONTEXT: &'static str = r#"
globalThis.__nimbusMemoryProbeState = {
  dbObserved: -1,
  insertCount: 0,
  scheduleCount: 0,
  scheduleHostResult: -1,
};
globalThis.__nimbusCreateContext = () => ({
  db: {
    insert: async (_table, document) => {
      const observed = await globalThis.__nimbusAsyncHostCall(41);
      const state = globalThis.__nimbusMemoryProbeState;
      state.dbObserved = observed;
      state.insertCount += 1;
      return document && document.body
        ? `message-id-${state.insertCount}`
        : "message-id-missing-body";
    },
  },
  scheduler: {
    runAfter: async () => {
      const state = globalThis.__nimbusMemoryProbeState;
      state.scheduleCount += 1;
      state.scheduleHostResult = globalThis.__nimbusHostCall(41);
      return `job-id-${state.scheduleCount}`;
    },
  },
});
1
"#;

/// Invokes the bundled mutation sixteen times and retains its payloads.
pub const MEMORY_INVOCATIONS: &'static str = r#"
globalThis.__nimbusMemoryRetained = [];
globalThis.__nimbusMemoryProbe = async () => {
  for (let i = 0; i < 16; i += 1) {
    const payload = "x".repeat(64 * 1024) + ":" + i;
    const cells = Array.from({ length: 2048 }, (_value, j) => ({
      i,
      j,
      payload,
      marker: `cell-${i}-${j}`,
    }));
    globalThis.__nimbusMemoryRetained.push({ payload, cells });
    const response = await globalThis.__nimbusInvoke({
      kind: "mutation",
      function_name: "messages:sendAndSchedule",
      args: { body: payload.slice(0, 64) },
    });
    if (response.status !== "ok") {
      return -1;
    }
  }
  return globalThis.__nimbusMemoryRetained.length;
};
globalThis.__nimbusMemoryProbe()
"#;

/// Drops everything that the memory probe retained.
pub const MEMORY_RELEASE: &'static str = r#"
globalThis.__nimbusMemoryRetained = null;
globalThis.__nimbusMemoryProbe = undefined;
1
"#;

/// Whether the bundle defined its entry point.
pub const WRAPPER_LOADED: &'static str = r#"typeof globalThis.__nimbusInvoke === "function" ? 1 : 0"#;

/// A static import, which a program cannot hold.
pub const STATIC_ESM: &'static str = r#"import { readFile } from "node:fs"; 1"#;

/// Imports a Node builtin dynamically.
pub const IMPORT_NODE_FS: &'static str = r#"
import("node:fs").then(
  () => 7,
  (error) => String(error && error.message || error).includes("Bun embedder denied module resolution") ? 8 : 6
)
"#;

/// Imports a package root dynamically.
pub const IMPORT_PACKAGE: &'static str = r#"
import("left-pad").then(
  () => 7,
  (error) => String(error && error.message || error).includes("Bun embedder denied module resolution") ? 8 : 6
)
"#;

/// Imports a virtual module of a plugin dynamically.
pub const IMPORT_PLUGIN: &'static str = r#"
import("nimbus-plugin:probe").then(
  () => 7,
  (error) => String(error && error.message || error).includes("Bun embedder denied module resolution") ? 8 : 6
)
"#;

/// Imports the module that could build another global object.
pub const IMPORT_NODE_VM: &'static str = r#"
import("node:vm").then(
  () => 7,
  (error) => String(error && error.message || error).includes("Bun embedder denied module resolution") ? 8 : 6
)
"#;

/// Whether `require` is absent.
pub const REQUIRE_STATUS: &'static str = r#"typeof globalThis.require === "undefined" ? 1 : 5"#;

/// Resolves a Node builtin through the asynchronous resolver.
pub const BUN_RESOLVE: &'static str = r#"
typeof globalThis.Bun === "undefined"
  ? 1
  : (typeof globalThis.Bun.resolve !== "function"
      ? 1
      : globalThis.Bun.resolve("node:fs", "/tmp/nimbus-bun-embed-probe/source.js").then(
          () => 5,
          (error) => String(error && error.message || error).includes("Bun embedder denied module resolution") ? 8 : 4
        ))
"#;

/// Resolves a Node builtin through the synchronous resolver.
pub const BUN_RESOLVE_SYNC: &'static str = r#"
(() => {
  if (typeof globalThis.Bun === "undefined" || typeof globalThis.Bun.resolveSync !== "function") {
    return 1;
  }
  try {
    globalThis.Bun.resolveSync("node:fs", "/tmp/nimbus-bun-embed-probe/source.js");
    return 5;
  } catch (error) {
    return String(error && error.message || error).includes("Bun embedder denied module resolution") ? 8 : 4;
  }
})()
"#;

/// Resolves a native addon through the synchronous resolver.
pub const NATIVE_ADDON_RESOLVE_SYNC: &'static str = r#"
(() => {
  if (typeof globalThis.Bun === "undefined" || typeof globalThis.Bun.resolveSync !== "function") {
    return 1;
  }
  try {
    globalThis.Bun.resolveSync("./nimbus-native-addon.node", "/tmp/nimbus-bun-embed-probe/source.js");
    return 5;
  } catch (error) {
    return String(error && error.message || error).includes("Bun embedder denied module resolution") ? 8 : 4;
  }
})()
"#;

/// Asks the bundle's own helper for a Node builtin.
pub const WRAPPER_NODE_BUILTIN: &'static str = r#"
nodeBuiltinModule("node:fs").then(
  () => 7,
  (error) => String(error && error.message || error).includes("Bun embedder denied module resolution") ? 8 : 6
)
"#;

/// Asks the bundle's own helper for an external package.
pub const WRAPPER_EXTERNAL_PACKAGE: &'static str = r#"
nodeExternalPackage("left-pad").then(
  () => 7,
  (error) => String(error && error.message || error).includes("Bun embedder denied module resolution") ? 8 : 6
)
"#;

/// The context of the lifecycle probe.
pub const LIFECYCLE_CONTEXT: &'static str = r#"
globalThis.__nimbusLifecycleProbeState = {
  dbObserved: -1,
  insertCount: 0,
  scheduleCount: 0,
  scheduleHostResult: -1,
  lastBody: "",
};
globalThis.__nimbusCreateContext = () => ({
  db: {
    insert: async (_table, document) => {
      const observed = await globalThis.__nimbusAsyncHostCall(41);
      const state = globalThis.__nimbusLifecycleProbeState;
      state.dbObserved = observed;
      state.insertCount += 1;
      state.lastBody = document && document.body || "";
      return `message-id-${state.insertCount}`;
    },
  },
  scheduler: {
    runAfter: async () => {
      const state = globalThis.__nimbusLifecycleProbeState;
      state.scheduleCount += 1;
      state.scheduleHostResult = globalThis.__nimbusHostCall(41);
      return `job-id-${state.scheduleCount}`;
    },
  },
});
1
"#;

/// Leaves a mark if it ever runs.
pub const PRE_ENTRY: &'static str = "globalThis.__nimbusPreEntryCancelRan = true; 1";

/// Whether the mark is still missing.
pub const PRE_ENTRY_STATE: &'static str = r#"typeof globalThis.__nimbusPreEntryCancelRan === "undefined" ? 1 : 0"#;

/// A program that any healthy machine can run.
pub const RECOVERY: &'static str = "40 + 2";

/// Invokes the bundled mutation that never returns.
pub const SPIN_INVOCATION: &'static str = r#"
globalThis.__nimbusSpinEntered = false;
globalThis.__nimbusInvoke({
  kind: "mutation",
  function_name: "messages:spinForever",
  args: {
    body: {
      trim() {
        globalThis.__nimbusSpinEntered = true;
        if (typeof globalThis.__nimbusAcknowledgeSpinEntered === "function") {
          globalThis.__nimbusAcknowledgeSpinEntered();
        }
        return "hello";
      },
    },
  },
})
"#;

/// Whether the spinning mutation was entered.
pub const SPIN_ENTERED: &'static str = "globalThis.__nimbusSpinEntered === true ? 1 : 0";

/// The lifecycle invocation up to the body of its message.
pub const LIFECYCLE_INVOKE_HEAD: &'static str = r#"
globalThis.__nimbusInvoke({
  kind: "mutation",
  function_name: "messages:sendAndSchedule",
  args: { body: "#;

/// The lifecycle invocation between the body and the number of the expected message.
pub const LIFECYCLE_INVOKE_MIDDLE: &'static str = r#" },
}).then((response) => {
  return response.status === "ok" && response.value === "message-id-"#;

/// The rest of the lifecycle invocation.
pub const LIFECYCLE_INVOKE_TAIL: &'static str = r#""
    ? 42
    : -1;
})
"#;

/// The lifecycle state check up to the expected number of inserts.
pub const LIFECYCLE_STATE_HEAD: &'static str = r#"
(() => {
  const state = globalThis.__nimbusLifecycleProbeState;
  return state.insertCount === "#;

/// The lifecycle state check between the two expected numbers.
pub const LIFECYCLE_STATE_MIDDLE: &'static str = r#"
    && state.scheduleCount === "#;

/// The rest of the lifecycle state check.
pub const LIFECYCLE_STATE_TAIL: &'static str = r#"
    && state.dbObserved === 42
    && state.scheduleHostResult === 42
    && state.lastBody === "post-cancel"
      ? 42
      : -1;
})()
"#;

} // verus!
