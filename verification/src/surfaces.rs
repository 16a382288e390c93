//! The native surfaces that the permission probe inventories, and how their classifications read.
use vstd::prelude::*;

verus! {

/// The surface is not there.
pub const PERMISSION_ABSENT_BY_DEFAULT: i32 = 1;

/// The surface is there and refuses every use.
pub const PERMISSION_DENIED_BY_DEFAULT: i32 = 2;

/// The surface is there and under the control of the deny profile.
pub const PERMISSION_POLICY_HOOK_AVAILABLE: i32 = 3;

/// The surface is there and nothing controls it as it should be.
pub const PERMISSION_POLICY_HOOK_MISSING: i32 = 4;

/// The surface is there and works for tenant code.
pub const PERMISSION_UNSAFE_BYPASS: i32 = 5;

/// How many surfaces the inventory holds.
pub const PERMISSION_SURFACE_COUNT: usize = 97;

/// The properties of the `Bun` object that the deny profile must close.
pub const BUN_PROPERTIES: [&'static str; 53] = [
    "$",
    "Archive",
    "FileSystemRouter",
    "Glob",
    "Image",
    "RedisClient",
    "S3Client",
    "SQL",
    "Terminal",
    "WebView",
    "allocUnsafe",
    "argv",
    "build",
    "connect",
    "cron",
    "cwd",
    "dns",
    "embeddedFiles",
    "enableANSIColors",
    "fetch",
    "file",
    "gc",
    "generateHeapSnapshot",
    "isStandaloneExecutable",
    "jest",
    "listen",
    "main",
    "mmap",
    "openInEditor",
    "origin",
    "password",
    "plugin",
    "postgres",
    "redis",
    "registerMacro",
    "resolve",
    "resolveSync",
    "s3",
    "secrets",
    "serve",
    "shrink",
    "sleep",
    "sleepSync",
    "spawn",
    "spawnSync",
    "sql",
    "stderr",
    "stdin",
    "stdout",
    "udpSocket",
    "unsafe",
    "which",
    "write",
];

/// The properties of `console` that the deny profile must close.
pub const CONSOLE_PROPERTIES: [&'static str; 3] = [
    "_stderr",
    "_stdout",
    "write",
];

/// The global functions that the deny profile must close.
pub const GLOBAL_PROPERTIES: [&'static str; 16] = [
    "BroadcastChannel",
    "EventSource",
    "SharedWorker",
    "WebSocket",
    "WebSocketStream",
    "Worker",
    "alert",
    "confirm",
    "fetch",
    "gc",
    "postMessage",
    "prompt",
    "reportError",
    "setImmediate",
    "setInterval",
    "setTimeout",
];

/// The names of the surfaces that have a classifier of their own.
pub const OTHER_NAMES: [&'static str; 25] = [
    "Bun global",
    "Bun.FFI",
    "Bun.dlopen",
    "Bun.FFI.dlopen",
    "Bun.env",
    "Bun property coverage",
    "process",
    "process.env",
    "Buffer unsafe allocation zero fill",
    "console[Symbol.asyncIterator]",
    "require",
    "Node builtin modules via require",
    "node:fs via require",
    "fs via require",
    "node:child_process via require",
    "node:worker_threads via require",
    "node:net via require",
    "node:dgram via require",
    "node:ffi via require",
    "native addon via require",
    "new Function",
    "Function constructor escape",
    "eval",
    "dynamic import syntax",
    "Nimbus host hooks and generated wrapper",
];

/// The classifiers of those surfaces, in the order of their names.
pub const OTHER_SOURCES: [&'static str; 25] = [
    r#"
typeof globalThis.Bun === "undefined"
  ? 1
  : (globalThis.Bun.__nimbusNativePermissionProfile === "deny" ? 3 : 5)
"#,
    r#"globalThis.__nimbusPermissionProbeProfileObject(globalThis.Bun?.FFI)"#,
    r#"typeof globalThis.Bun?.dlopen === "undefined" ? 1 : 5"#,
    r#"globalThis.__nimbusPermissionProbeFunction(globalThis.Bun?.FFI?.dlopen)"#,
    r#"typeof globalThis.Bun?.env === "undefined" ? 1 : 5"#,
    r#"
(() => {
  const allowed = new Set([
    "ArrayBufferSink", "Cookie", "CookieMap", "CryptoHasher", "CSRF", "FFI",
    "JSON5", "JSONC", "JSONL", "MD4", "MD5", "SHA1", "SHA224", "SHA256",
    "SHA384", "SHA512", "SHA512_256", "TOML", "Transpiler", "XML", "YAML",
    "__nimbusNativePermissionProfile", "color", "concatArrayBuffers", "deepEquals",
    "deepMatch", "deflateSync", "env", "escapeHTML", "fileURLToPath", "gunzipSync",
    "gzipSync", "hash", "indexOfLine", "inflateSync", "inspect", "isMainThread",
    "markdown", "nanoseconds", "pathToFileURL", "peek", "randomUUIDv5",
    "randomUUIDv7", "readableStreamToArray", "readableStreamToArrayBuffer",
    "readableStreamToBlob", "readableStreamToBytes", "readableStreamToFormData",
    "readableStreamToJSON", "readableStreamToText", "revision", "semver", "sha",
    "sliceAnsi", "stringWidth", "stripANSI", "version", "version_with_sha", "wrapAnsi",
    "zstdCompress", "zstdCompressSync", "zstdDecompress", "zstdDecompressSync",
  ]);
  return Object.getOwnPropertyNames(globalThis.Bun).every((name) =>
    allowed.has(name) || globalThis.Bun[name]?.__nimbusDeniedNativeCapability === true
  ) ? 3 : 5;
})()
"#,
    r#"
typeof globalThis.process === "undefined"
  ? 1
  : (globalThis.process.__nimbusNativePermissionProfile === "deny" ? 3 : 5)
"#,
    r#"typeof globalThis.process?.env === "undefined" ? 1 : 5"#,
    r#"
(() => {
  const fast = Buffer.allocUnsafe(4096);
  const slow = Buffer.allocUnsafeSlow(4096);
  return fast.every((byte) => byte === 0) && slow.every((byte) => byte === 0) ? 3 : 5;
})()
"#,
    r#"globalThis.__nimbusPermissionProbeFunction(globalThis.console?.[Symbol.asyncIterator])"#,
    r#"typeof globalThis.require === "undefined" ? 1 : 5"#,
    r#"typeof globalThis.require === "undefined" ? 1 : 5"#,
    r#"typeof globalThis.require === "undefined" ? 1 : 5"#,
    r#"typeof globalThis.require === "undefined" ? 1 : 5"#,
    r#"typeof globalThis.require === "undefined" ? 1 : 5"#,
    r#"typeof globalThis.require === "undefined" ? 1 : 5"#,
    r#"typeof globalThis.require === "undefined" ? 1 : 5"#,
    r#"typeof globalThis.require === "undefined" ? 1 : 5"#,
    r#"typeof globalThis.require === "undefined" ? 1 : 5"#,
    r#"typeof globalThis.require === "undefined" ? 1 : 5"#,
    r#"globalThis.__nimbusPermissionProbeDynamicCode(() => new Function("return 1"))"#,
    r#"globalThis.__nimbusPermissionProbeDynamicCode(() => (() => {}).constructor("return 1"))"#,
    r#"globalThis.__nimbusPermissionProbeDynamicCode(() => globalThis.eval("1"))"#,
    r#"globalThis.__nimbusPermissionProbeDynamicCode(() => new Function("return import('node:fs')"))"#,
    r#"
typeof globalThis.__nimbusHostCall === "function"
  && typeof globalThis.__nimbusAsyncHostCall === "function"
  && typeof globalThis.__nimbusInvoke === "function"
    ? 3
    : 4
"#,
];

/// One surface: how the report calls it, and the program that classifies it.
pub struct PermissionSurfaceProbe {
    pub name: String,
    pub source: String,
}

/// The name of surface `i`.
pub open spec fn surface_name(i: int) -> Seq<char> {
    if i < 1 {
        OTHER_NAMES@[0]@
    } else if i < 54 {
        "Bun."@ + BUN_PROPERTIES@[i - 1]@
    } else if i < 62 {
        OTHER_NAMES@[i - 53]@
    } else if i < 65 {
        "console."@ + CONSOLE_PROPERTIES@[i - 62]@
    } else if i < 76 {
        OTHER_NAMES@[i - 56]@
    } else if i < 92 {
        GLOBAL_PROPERTIES@[i - 76]@
    } else {
        OTHER_NAMES@[i - 72]@
    }
}

/// The program that classifies the function at `path` below the property chain `object`.
pub open spec fn function_classifier(object: Seq<char>, path: Seq<char>) -> Seq<char> {
    "globalThis.__nimbusPermissionProbeFunction(globalThis."@ + object + path + ")"@
}

/// The program that classifies surface `i`.
pub open spec fn surface_source(i: int) -> Seq<char> {
    if i < 1 {
        OTHER_SOURCES@[0]@
    } else if i < 54 {
        function_classifier("Bun?."@, BUN_PROPERTIES@[i - 1]@)
    } else if i < 62 {
        OTHER_SOURCES@[i - 53]@
    } else if i < 65 {
        function_classifier("console?."@, CONSOLE_PROPERTIES@[i - 62]@)
    } else if i < 76 {
        OTHER_SOURCES@[i - 56]@
    } else if i < 92 {
        function_classifier(""@, GLOBAL_PROPERTIES@[i - 76]@)
    } else {
        OTHER_SOURCES@[i - 72]@
    }
}

fn denied_surface(prefix: &str, object: &str, property: &str) -> (probe: PermissionSurfaceProbe)
    ensures
        probe.name@ == prefix@ + property@,
        probe.source@ == function_classifier(object@, property@),
{
    let mut name = String::new();
    name.append(prefix);
    name.append(property);
    let mut source = String::new();
    source.append("globalThis.__nimbusPermissionProbeFunction(globalThis.");
    source.append(object);
    source.append(property);
    source.append(")");
    assert(name@ == prefix@ + property@);
    assert(source@ == function_classifier(object@, property@));
    PermissionSurfaceProbe { name, source }
}

fn other_surface(index: usize) -> (probe: PermissionSurfaceProbe)
    requires
        index < 25,
    ensures
        probe.name@ == OTHER_NAMES@[index as int]@,
        probe.source@ == OTHER_SOURCES@[index as int]@,
{
    PermissionSurfaceProbe {
        name: OTHER_NAMES[index].to_owned(),
        source: OTHER_SOURCES[index].to_owned(),
    }
}

/// Surface `index` of the inventory.
pub fn permission_surface(index: usize) -> (probe: PermissionSurfaceProbe)
    requires
        index < PERMISSION_SURFACE_COUNT,
    ensures
        probe.name@ == surface_name(index as int),
        probe.source@ == surface_source(index as int),
{
    if index < 1 {
        other_surface(0)
    } else if index < 54 {
        denied_surface("Bun.", "Bun?.", BUN_PROPERTIES[index - 1])
    } else if index < 62 {
        other_surface(index - 53)
    } else if index < 65 {
        denied_surface("console.", "console?.", CONSOLE_PROPERTIES[index - 62])
    } else if index < 76 {
        other_surface(index - 56)
    } else if index < 92 {
        proof {
            reveal_strlit("");
            assert(""@ + GLOBAL_PROPERTIES@[index - 76]@ == GLOBAL_PROPERTIES@[index - 76]@);
        }
        denied_surface("", "", GLOBAL_PROPERTIES[index - 76])
    } else {
        other_surface(index - 72)
    }
}

/// Whether `classification` is one that the classifiers may give.
pub fn is_known_permission_classification(classification: i32) -> (known: bool)
    ensures
        known == (PERMISSION_ABSENT_BY_DEFAULT <= classification <= PERMISSION_UNSAFE_BYPASS),
{
    classification == PERMISSION_ABSENT_BY_DEFAULT || classification == PERMISSION_DENIED_BY_DEFAULT
        || classification == PERMISSION_POLICY_HOOK_AVAILABLE || classification
        == PERMISSION_POLICY_HOOK_MISSING || classification == PERMISSION_UNSAFE_BYPASS
}

/// Whether tenant code may run where a surface has this classification: it is absent, denied or
/// under the deny profile.
pub open spec fn is_safe_classification(classification: int) -> bool {
    PERMISSION_ABSENT_BY_DEFAULT <= classification <= PERMISSION_POLICY_HOOK_AVAILABLE
}

/// Whether the inventory accepts a surface with this classification.
pub fn is_accepted_permission_classification(classification: i32) -> (accepted: bool)
    ensures
        accepted == is_safe_classification(classification as int),
{
    is_known_permission_classification(classification) && classification
        != PERMISSION_POLICY_HOOK_MISSING && classification != PERMISSION_UNSAFE_BYPASS
}

/// How the report calls a classification.
pub open spec fn classification_text(classification: int) -> Seq<char> {
    if classification == PERMISSION_ABSENT_BY_DEFAULT {
        "absent_by_default"@
    } else if classification == PERMISSION_DENIED_BY_DEFAULT {
        "denied_by_default"@
    } else if classification == PERMISSION_POLICY_HOOK_AVAILABLE {
        "policy_hook_available"@
    } else if classification == PERMISSION_POLICY_HOOK_MISSING {
        "policy_hook_missing"@
    } else if classification == PERMISSION_UNSAFE_BYPASS {
        "unsafe_bypass"@
    } else {
        "unknown"@
    }
}

/// How the report calls a classification.
pub fn permission_classification_name(classification: i32) -> (name: &'static str)
    ensures
        name@ == classification_text(classification as int),
{
    match classification {
        1 => "absent_by_default",
        2 => "denied_by_default",
        3 => "policy_hook_available",
        4 => "policy_hook_missing",
        5 => "unsafe_bypass",
        _ => "unknown",
    }
}

/// Surface `i` has the name and the program that stand at one place of the tables of the surfaces
/// with a classifier of their own.
pub open spec fn is_own_surface(i: int, place: int) -> bool {
    &&& surface_name(i) == OTHER_NAMES@[place]@
    &&& surface_source(i) == OTHER_SOURCES@[place]@
}

/// Surface `i` is the function `property` of the object `object`: its name is the path of the
/// function, and its program asks the classifier of functions for that path, which may end early.
pub open spec fn is_denied_function(
    i: int,
    prefix: Seq<char>,
    object: Seq<char>,
    property: Seq<char>,
) -> bool {
    &&& surface_name(i) == prefix + property
    &&& surface_source(i) == "globalThis.__nimbusPermissionProbeFunction(globalThis."@ + object
        + property + ")"@
}

/// A surface is classified by its own program. Every place of the tables occurs as one surface,
/// with the name and the program of that place; every closed property of `Bun`, of `console` and
/// of the global object occurs as one, with its path both in the name and in the program; and
/// together they take every index of the inventory, each once.
pub proof fn law_surface_is_classified_by_its_own_program(i: int)
    requires
        0 <= i < PERMISSION_SURFACE_COUNT,
    ensures
        i == 0 ==> is_own_surface(i, 0),
        1 <= i < 54 ==> is_denied_function(i, "Bun."@, "Bun?."@, BUN_PROPERTIES@[i - 1]@),
        54 <= i < 62 ==> is_own_surface(i, i - 53),
        62 <= i < 65 ==> is_denied_function(
            i,
            "console."@,
            "console?."@,
            CONSOLE_PROPERTIES@[i - 62]@,
        ),
        65 <= i < 76 ==> is_own_surface(i, i - 56),
        76 <= i < 92 ==> is_denied_function(
            i,
            Seq::empty(),
            Seq::empty(),
            GLOBAL_PROPERTIES@[i - 76]@,
        ),
        92 <= i ==> is_own_surface(i, i - 72),
{
    reveal_strlit("");
    assert(""@ == Seq::<char>::empty());
    if 76 <= i < 92 {
        assert(Seq::<char>::empty() + GLOBAL_PROPERTIES@[i - 76]@ == GLOBAL_PROPERTIES@[i - 76]@);
    }
}

/// The place of a surface with a classifier of its own is the same in both tables, and no place is
/// left out: for each there is a surface that has the name and the program of that place, and the
/// surfaces of two places stand in the order of the places.
pub proof fn law_every_own_classifier_is_used(place: int, later: int) -> (surfaces: (int, int))
    requires
        0 <= place < later < OTHER_NAMES@.len(),
    ensures
        OTHER_NAMES@.len() == OTHER_SOURCES@.len(),
        0 <= surfaces.0 < surfaces.1 < PERMISSION_SURFACE_COUNT,
        is_own_surface(surfaces.0, place),
        is_own_surface(surfaces.1, later),
{
    let first = if place < 1 {
        place
    } else if place < 9 {
        place + 53
    } else if place < 20 {
        place + 56
    } else {
        place + 72
    };
    let second = if later < 9 {
        later + 53
    } else if later < 20 {
        later + 56
    } else {
        later + 72
    };
    law_surface_is_classified_by_its_own_program(first);
    law_surface_is_classified_by_its_own_program(second);
    (first, second)
}

/// The program of a surface that must be absent.
pub open spec fn absence_classifier(path: Seq<char>) -> Seq<char> {
    "typeof globalThis."@ + path + " === \"undefined\" ? 1 : 5"@
}

/// The program of a surface that runs a text as code.
pub open spec fn code_classifier(code: Seq<char>) -> Seq<char> {
    "globalThis.__nimbusPermissionProbeDynamicCode(() => "@ + code + ")"@
}

/// A classification passes the inventory exactly where it is one of the three under which tenant
/// code can do no harm, and every number has a name in the report, no two of the five kinds the
/// same one.
pub proof fn law_only_three_classifications_are_safe(classification: int)
    ensures
        is_safe_classification(classification) <==> (classification == 1 || classification == 2
            || classification == 3),
        classification_text(1) == "absent_by_default"@,
        classification_text(2) == "denied_by_default"@,
        classification_text(3) == "policy_hook_available"@,
        classification_text(4) == "policy_hook_missing"@,
        classification_text(5) == "unsafe_bypass"@,
        !(1 <= classification <= 5) ==> classification_text(classification) == "unknown"@,
{
}

/// A classifier asks for what its surface is called: the program of a path that must be absent
/// asks for that path, everything that only `require` could reach asks for `require`, a nested
/// function is classified as a function, and the ways to run a text as code are tried as such.
pub proof fn law_own_classifiers_ask_for_their_surface()
    ensures
        OTHER_NAMES@[2]@ == "Bun.dlopen"@,
        OTHER_SOURCES@[2]@ == absence_classifier("Bun?.dlopen"@),
        OTHER_NAMES@[4]@ == "Bun.env"@,
        OTHER_SOURCES@[4]@ == absence_classifier("Bun?.env"@),
        OTHER_NAMES@[7]@ == "process.env"@,
        OTHER_SOURCES@[7]@ == absence_classifier("process?.env"@),
        OTHER_NAMES@[10]@ == "require"@,
        OTHER_SOURCES@[10]@ == absence_classifier("require"@),
        OTHER_NAMES@[11]@ == "Node builtin modules via require"@,
        OTHER_SOURCES@[11]@ == absence_classifier("require"@),
        OTHER_NAMES@[12]@ == "node:fs via require"@,
        OTHER_SOURCES@[12]@ == absence_classifier("require"@),
        OTHER_NAMES@[13]@ == "fs via require"@,
        OTHER_SOURCES@[13]@ == absence_classifier("require"@),
        OTHER_NAMES@[14]@ == "node:child_process via require"@,
        OTHER_SOURCES@[14]@ == absence_classifier("require"@),
        OTHER_NAMES@[15]@ == "node:worker_threads via require"@,
        OTHER_SOURCES@[15]@ == absence_classifier("require"@),
        OTHER_NAMES@[16]@ == "node:net via require"@,
        OTHER_SOURCES@[16]@ == absence_classifier("require"@),
        OTHER_NAMES@[17]@ == "node:dgram via require"@,
        OTHER_SOURCES@[17]@ == absence_classifier("require"@),
        OTHER_NAMES@[18]@ == "node:ffi via require"@,
        OTHER_SOURCES@[18]@ == absence_classifier("require"@),
        OTHER_NAMES@[19]@ == "native addon via require"@,
        OTHER_SOURCES@[19]@ == absence_classifier("require"@),
        OTHER_NAMES@[3]@ == "Bun.FFI.dlopen"@,
        OTHER_SOURCES@[3]@ == function_classifier("Bun?."@, "FFI?.dlopen"@),
        OTHER_NAMES@[9]@ == "console[Symbol.asyncIterator]"@,
        OTHER_SOURCES@[9]@ == function_classifier("console?."@, "[Symbol.asyncIterator]"@),
        OTHER_NAMES@[20]@ == "new Function"@,
        OTHER_SOURCES@[20]@ == code_classifier("new Function(\"return 1\")"@),
        OTHER_NAMES@[21]@ == "Function constructor escape"@,
        OTHER_SOURCES@[21]@ == code_classifier("(() => {}).constructor(\"return 1\")"@),
        OTHER_NAMES@[22]@ == "eval"@,
        OTHER_SOURCES@[22]@ == code_classifier("globalThis.eval(\"1\")"@),
        OTHER_NAMES@[23]@ == "dynamic import syntax"@,
        OTHER_SOURCES@[23]@ == code_classifier("new Function(\"return import('node:fs')\")"@),
{
    reveal_strlit("typeof globalThis.");
    reveal_strlit(" === \"undefined\" ? 1 : 5");
    assert(r#"typeof globalThis.Bun?.dlopen === "undefined" ? 1 : 5"#@
        == absence_classifier("Bun?.dlopen"@)) by {
        reveal_strlit(r#"typeof globalThis.Bun?.dlopen === "undefined" ? 1 : 5"#);
        reveal_strlit("Bun?.dlopen");
    }
    assert(r#"typeof globalThis.Bun?.env === "undefined" ? 1 : 5"#@
        == absence_classifier("Bun?.env"@)) by {
        reveal_strlit(r#"typeof globalThis.Bun?.env === "undefined" ? 1 : 5"#);
        reveal_strlit("Bun?.env");
    }
    assert(r#"typeof globalThis.process?.env === "undefined" ? 1 : 5"#@
        == absence_classifier("process?.env"@)) by {
        reveal_strlit(r#"typeof globalThis.process?.env === "undefined" ? 1 : 5"#);
        reveal_strlit("process?.env");
    }
    assert(r#"typeof globalThis.require === "undefined" ? 1 : 5"#@
        == absence_classifier("require"@)) by {
        reveal_strlit(r#"typeof globalThis.require === "undefined" ? 1 : 5"#);
        reveal_strlit("require");
    }
    assert(r#"globalThis.__nimbusPermissionProbeFunction(globalThis.Bun?.FFI?.dlopen)"#@
        == function_classifier(
        "Bun?."@,
        "FFI?.dlopen"@,
    )) by {
        reveal_strlit(
            r#"globalThis.__nimbusPermissionProbeFunction(globalThis.Bun?.FFI?.dlopen)"#,
        );
        reveal_strlit("globalThis.__nimbusPermissionProbeFunction(globalThis.");
        reveal_strlit("Bun?.");
        reveal_strlit("FFI?.dlopen");
        reveal_strlit(")");
    }
    assert(r#"globalThis.__nimbusPermissionProbeFunction(globalThis.console?.[Symbol.asyncIterator])"#@
        == function_classifier(
        "console?."@,
        "[Symbol.asyncIterator]"@,
    )) by {
        reveal_strlit(
            r#"globalThis.__nimbusPermissionProbeFunction(globalThis.console?.[Symbol.asyncIterator])"#,
        );
        reveal_strlit("globalThis.__nimbusPermissionProbeFunction(globalThis.");
        reveal_strlit("console?.");
        reveal_strlit("[Symbol.asyncIterator]");
        reveal_strlit(")");
    }
    assert(r#"globalThis.__nimbusPermissionProbeDynamicCode(() => new Function("return 1"))"#@
        == code_classifier("new Function(\"return 1\")"@)) by {
        reveal_strlit(
            r#"globalThis.__nimbusPermissionProbeDynamicCode(() => new Function("return 1"))"#,
        );
        reveal_strlit("globalThis.__nimbusPermissionProbeDynamicCode(() => ");
        reveal_strlit("new Function(\"return 1\")");
        reveal_strlit(")");
    }
    assert(r#"globalThis.__nimbusPermissionProbeDynamicCode(() => (() => {}).constructor("return 1"))"#@
        == code_classifier("(() => {}).constructor(\"return 1\")"@)) by {
        reveal_strlit(
            r#"globalThis.__nimbusPermissionProbeDynamicCode(() => (() => {}).constructor("return 1"))"#,
        );
        reveal_strlit("globalThis.__nimbusPermissionProbeDynamicCode(() => ");
        reveal_strlit("(() => {}).constructor(\"return 1\")");
        reveal_strlit(")");
    }
    assert(r#"globalThis.__nimbusPermissionProbeDynamicCode(() => globalThis.eval("1"))"#@
        == code_classifier("globalThis.eval(\"1\")"@)) by {
        reveal_strlit(
            r#"globalThis.__nimbusPermissionProbeDynamicCode(() => globalThis.eval("1"))"#,
        );
        reveal_strlit("globalThis.__nimbusPermissionProbeDynamicCode(() => ");
        reveal_strlit("globalThis.eval(\"1\")");
        reveal_strlit(")");
    }
    assert(r#"globalThis.__nimbusPermissionProbeDynamicCode(() => new Function("return import('node:fs')"))"#@
        == code_classifier("new Function(\"return import('node:fs')\")"@)) by {
        reveal_strlit(
            r#"globalThis.__nimbusPermissionProbeDynamicCode(() => new Function("return import('node:fs')"))"#,
        );
        reveal_strlit("globalThis.__nimbusPermissionProbeDynamicCode(() => ");
        reveal_strlit("new Function(\"return import('node:fs')\")");
        reveal_strlit(")");
    }
}

} // verus!
