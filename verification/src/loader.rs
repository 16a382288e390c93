//! Builtin modules: what names one, how it is fetched, and what plugins see of a specifier.
use vstd::prelude::*;

verus! {

/// What to do with the source of a module.
#[derive(Clone, Copy, Debug, PartialEq, Eq, Structural)]
pub enum FetchFlags {
    Transpile,
    PrintSource,
}

impl FetchFlags {
    /// Whether the source is used as it stands.
    pub fn disable_transpiling(self) -> (disabled: bool)
        ensures
            disabled == (self != FetchFlags::Transpile),
    {
        match self {
            FetchFlags::Transpile => false,
            FetchFlags::PrintSource => true,
        }
    }
}

/// Entry `j` of table `i` has the key `name`.
pub open spec fn is_entry<V>(tables: Seq<&[(&[u8], V)]>, i: int, j: int, name: Seq<u8>) -> bool {
    &&& 0 <= i < tables.len()
    &&& 0 <= j < tables[i]@.len()
    &&& tables[i]@[j].0@ == name
}

fn same_bytes(left: &[u8], right: &[u8]) -> (same: bool)
    ensures
        same == (left@ == right@),
{
    if left.len() != right.len() {
        return false;
    }
    let mut i: usize = 0;
    while i < left.len()
        invariant
            i <= left@.len(),
            left@.len() == right@.len(),
            forall|k: int| 0 <= k < i ==> left@[k] == right@[k],
        decreases left@.len() - i,
    {
        if left[i] != right[i] {
            return false;
        }
        i = i + 1;
    }
    assert(left@ == right@);
    true
}

/// The name has an alias that is not gated off.
pub open spec fn has_alias<V>(tables: Seq<&[(&[u8], V)]>, gated: bool, name: Seq<u8>) -> bool {
    !gated && exists|i: int, j: int| is_entry(tables, i, j, name)
}

/// Looks a builtin name up in the alias tables. A name whose alias is gated off is no builtin;
/// otherwise the first entry counts, in the order of the tables and of the entries in each.
pub fn bun_aliases_get<V: Copy>(tables: &[&[(&[u8], V)]], gated: bool, name: &[u8]) -> (alias:
    Option<V>)
    ensures
        alias is Some <==> has_alias(tables@, gated, name@),
        alias matches Some(alias) ==> exists|i: int, j: int|
            {
                &&& #[trigger] is_entry(tables@, i, j, name@)
                &&& alias == tables@[i]@[j].1
                &&& forall|a: int, b: int|
                    (a < i || (a == i && b < j)) ==> !#[trigger] is_entry(tables@, a, b, name@)
            },
{
    if gated {
        return None;
    }
    let mut i: usize = 0;
    while i < tables.len()
        invariant
            !gated,
            i <= tables@.len(),
            forall|a: int, b: int| a < i ==> !#[trigger] is_entry(tables@, a, b, name@),
        decreases tables@.len() - i,
    {
        let table: &[(&[u8], V)] = tables[i];
        let mut j: usize = 0;
        while j < table.len()
            invariant
                !gated,
                i < tables@.len(),
                table@ == tables@[i as int]@,
                j <= table@.len(),
                forall|a: int, b: int|
                    (a < i || (a == i && b < j)) ==> !#[trigger] is_entry(tables@, a, b, name@),
            decreases table@.len() - j,
        {
            if same_bytes(table[j].0, name) {
                assert(is_entry(tables@, i as int, j as int, name@));
                return Some(table[j].1);
            }
            j = j + 1;
        }
        i = i + 1;
    }
    None
}

/// The bytes of `internal/`.
pub open spec fn internal_prefix() -> Seq<u8> {
    seq![105u8, 110u8, 116u8, 101u8, 114u8, 110u8, 97u8, 108u8, 47u8]
}

/// The bytes of `internal:`.
pub open spec fn internal_scheme() -> Seq<u8> {
    seq![105u8, 110u8, 116u8, 101u8, 114u8, 110u8, 97u8, 108u8, 58u8]
}

/// The specifier names an internal module that is exposed.
pub open spec fn is_exposed(spec: Seq<u8>, expose_internals: bool) -> bool {
    expose_internals && internal_prefix().is_prefix_of(spec)
}

/// The name of the internal module that `internal/...` exposes, where internals are exposed.
pub fn exposed_internal_name(spec: &[u8], expose_internals: bool) -> (name: Option<Vec<u8>>)
    ensures
        name is Some <==> is_exposed(spec@, expose_internals),
        name matches Some(name) ==> name@ == internal_scheme() + spec@.skip(9),
{
    let prefix: [u8; 9] = [105, 110, 116, 101, 114, 110, 97, 108, 47];
    let mut i: usize = 0;
    while i < 9
        invariant
            i <= 9,
            prefix@ == internal_prefix(),
            i <= spec@.len(),
            forall|k: int| 0 <= k < i ==> spec@[k] == internal_prefix()[k],
        decreases 9 - i,
    {
        if i >= spec.len() || spec[i] != prefix[i] {
            return None;
        }
        i = i + 1;
    }
    if !expose_internals {
        return None;
    }
    let mut name: Vec<u8> = vec![105, 110, 116, 101, 114, 110, 97, 108, 58];
    while i < spec.len()
        invariant
            9 <= i <= spec@.len(),
            name@ == internal_scheme() + spec@.subrange(9, i as int),
        decreases spec@.len() - i,
    {
        name.push(spec[i]);
        i = i + 1;
        assert(spec@.subrange(9, i as int) == spec@.subrange(9, i - 1).push(spec@[i - 1]));
    }
    assert(spec@.subrange(9, spec@.len() as int) == spec@.skip(9));
    assert(internal_prefix().is_prefix_of(spec@));
    Some(name)
}

/// Pairs the name of an exposed internal module with its tag, if it has one.
pub fn exposed_internal_tag<T>(name: Vec<u8>, tag: Option<T>) -> (exposed: Option<(Vec<u8>, T)>)
    ensures
        exposed == match tag {
            Some(tag) => Some((name, tag)),
            None => None::<(Vec<u8>, T)>,
        },
{
    match tag {
        Some(tag) => Some((name, tag)),
        None => None,
    }
}

/// Whether a specifier names a builtin: it has an alias, or it is an internal module that is
/// exposed and, as `tagged` says of its name, exists.
#[allow(non_snake_case)]
pub fn ModuleLoader__isBuiltin<V: Copy>(
    tables: &[&[(&[u8], V)]],
    gated: bool,
    name: &[u8],
    expose_internals: bool,
    tagged: bool,
) -> (builtin: bool)
    ensures
        builtin == (has_alias(tables@, gated, name@) || (is_exposed(name@, expose_internals)
            && tagged)),
{
    if bun_aliases_get(tables, gated, name).is_some() {
        return true;
    }
    exposed_internal_name(name, expose_internals).is_some() && tagged
}

/// The index of a builtin key as native callers take it, or -1.
#[allow(non_snake_case)]
pub fn ModuleLoader__builtinAliasIndex(index: Option<u16>) -> (found: i32)
    ensures
        found == match index {
            Some(index) => index as i32,
            None => -1i32,
        },
{
    match index {
        Some(index) => index as i32,
        None => -1,
    }
}

/// The number of the loader of a specifier, where `file` is that of the loader for files that no
/// other claims and `js` that of the one for JavaScript: such a file is read as JavaScript.
#[allow(non_snake_case)]
pub fn Bun__getDefaultLoader(loader: u8, file: u8, js: u8) -> (chosen: u8)
    ensures
        chosen == if loader == file {
            js
        } else {
            loader
        },
{
    if loader == file {
        js
    } else {
        loader
    }
}

/// Hands a fetched builtin to the caller, and says whether there was one.
#[allow(non_snake_case)]
pub fn Bun__fetchBuiltinModule<R>(fetched: Option<R>, ret: &mut R) -> (found: bool)
    ensures
        found == (fetched is Some),
        *final(ret) == match fetched {
            Some(resolved) => resolved,
            None => *old(ret),
        },
{
    match fetched {
        Some(resolved) => {
            *ret = resolved;
            true
        },
        None => false,
    }
}

/// What a plugin is asked for: the namespace of a specifier and what follows it.
#[derive(Debug, PartialEq, Eq)]
pub struct VirtualModule {
    pub namespace: Vec<u8>,
    pub path: Vec<u8>,
}

/// Where the path of a specifier begins: behind the namespace and the colon after it, if there is
/// a namespace.
pub open spec fn path_start(namespace: nat, specifier: nat) -> int {
    if namespace == 0 {
        0
    } else if namespace < specifier {
        namespace as int + 1
    } else {
        specifier as int
    }
}

/// Splits a specifier for the plugins. No plugin is asked where the machine has no plugin runner,
/// nor for a specifier that none could claim.
pub fn virtual_module(
    plugin_runner: bool,
    could_be_plugin: bool,
    namespace: &[u8],
    specifier: &[u8],
) -> (module: Option<VirtualModule>)
    ensures
        module is Some <==> plugin_runner && could_be_plugin,
        module matches Some(module) ==> {
            &&& module.namespace@ == namespace@
            &&& module.path@ == specifier@.skip(path_start(namespace@.len(), specifier@.len()))
        },
{
    if !plugin_runner || !could_be_plugin {
        return None;
    }
    let start: usize = if namespace.len() == 0 {
        0
    } else if namespace.len() < specifier.len() {
        namespace.len() + 1
    } else {
        specifier.len()
    };
    let path = vstd::slice::slice_subrange(specifier, start, specifier.len());
    assert(path@ == specifier@.skip(start as int));
    Some(
        VirtualModule {
            namespace: vstd::slice::slice_to_vec(namespace),
            path: vstd::slice::slice_to_vec(path),
        },
    )
}

/// The exports of a virtual module, where `asked` says that a plugin was asked and `loaded` is what
/// it answered.
pub open spec fn exports_of<J, E>(asked: bool, loaded: Option<Result<Option<J>, E>>, zero: J) -> J {
    match loaded {
        Some(Ok(Some(exports))) => if asked {
            exports
        } else {
            zero
        },
        _ => zero,
    }
}

/// The exports of a virtual module: what the plugin returned, or `zero` where none was asked, or it
/// returned nothing or failed.
#[allow(non_snake_case)]
pub fn Bun__runVirtualModule<J, E>(
    module: &Option<VirtualModule>,
    loaded: Option<Result<Option<J>, E>>,
    zero: J,
) -> (exports: J)
    ensures
        exports == exports_of(module is Some, loaded, zero),
{
    match loaded {
        Some(Ok(Some(exports))) => {
            if module.is_some() {
                exports
            } else {
                zero
            }
        },
        _ => zero,
    }
}

/// A machine without a plugin runner, and a specifier that no plugin could claim, export nothing,
/// whatever a plugin would have answered.
pub proof fn law_unclaimed_module_exports_nothing<J, E>(
    plugin_runner: bool,
    could_be_plugin: bool,
    loaded: Option<Result<Option<J>, E>>,
    zero: J,
)
    requires
        !plugin_runner || !could_be_plugin,
    ensures
        exports_of(plugin_runner && could_be_plugin, loaded, zero) == zero,
{
}

/// The path of a specifier with a namespace is what follows the namespace and the character after
/// it, and a specifier without a namespace is all path.
pub proof fn law_path_follows_the_namespace(
    namespace: Seq<u8>,
    separator: u8,
    path: Seq<u8>,
)
    ensures
        path.skip(path_start(0, path.len())) == path,
        namespace.len() > 0 ==> (namespace + seq![separator] + path).skip(
            path_start(namespace.len(), (namespace + seq![separator] + path).len()),
        ) == path,
        namespace.len() > 0 ==> namespace.skip(path_start(namespace.len(), namespace.len()))
            == Seq::<u8>::empty(),
{
}

/// Exactly the specifiers that begin with `internal/` name an internal module, and only where
/// internals are exposed; the name of the module differs from them in a colon for the slash.
pub proof fn law_internal_modules_begin_with_internal(rest: Seq<u8>, spec: Seq<u8>)
    ensures
        internal_prefix().len() == 9,
        internal_scheme().len() == 9,
        forall|i: int|
            0 <= i < 9 ==> "internal/"@.len() == 9 && #[trigger] internal_prefix()[i] as char
                == "internal/"@[i],
        forall|i: int|
            0 <= i < 9 ==> "internal:"@.len() == 9 && #[trigger] internal_scheme()[i] as char
                == "internal:"@[i],
        is_exposed(internal_prefix() + rest, true),
        (internal_prefix() + rest).skip(9) == rest,
        !is_exposed(spec, false),
        is_exposed(spec, true) ==> spec == internal_prefix() + spec.skip(9),
{
    reveal_strlit("internal/");
    reveal_strlit("internal:");
    assert((internal_prefix() + rest).skip(9) == rest);
    if is_exposed(spec, true) {
        assert(spec == internal_prefix() + spec.skip(9));
    }
}

/// A name has an alias exactly where some entry of some table has it as its key, and none where the
/// name is gated off.
pub proof fn law_alias_is_an_entry<V>(
    tables: Seq<&[(&[u8], V)]>,
    i: int,
    j: int,
)
    requires
        0 <= i < tables.len(),
        0 <= j < tables[i]@.len(),
    ensures
        has_alias(tables, false, tables[i]@[j].0@),
        !has_alias(tables, true, tables[i]@[j].0@),
{
    assert(is_entry(tables, i, j, tables[i]@[j].0@));
}

/// What a plugin exports is handed on exactly where one was asked and returned something.
pub proof fn law_exports_are_those_of_the_plugin<J, E>(exports: J, error: E, zero: J)
    ensures
        exports_of(true, Some(Ok::<Option<J>, E>(Some(exports))), zero) == exports,
        exports_of(true, Some(Ok::<Option<J>, E>(None)), zero) == zero,
        exports_of(true, Some(Err::<Option<J>, E>(error)), zero) == zero,
        exports_of(true, None::<Result<Option<J>, E>>, zero) == zero,
        exports_of(false, Some(Ok::<Option<J>, E>(Some(exports))), zero) == zero,
{
}

} // verus!
