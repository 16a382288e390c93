use embed_probe::loader::{
    bun_aliases_get, exposed_internal_name, exposed_internal_tag, virtual_module,
    Bun__fetchBuiltinModule, Bun__getDefaultLoader, Bun__runVirtualModule, FetchFlags,
    ModuleLoader__builtinAliasIndex, ModuleLoader__isBuiltin, VirtualModule,
};

#[test]
fn only_transpile_transpiles() {
    assert!(!FetchFlags::Transpile.disable_transpiling());
    assert!(FetchFlags::PrintSource.disable_transpiling());
}

fn aliases() -> Vec<Vec<(&'static [u8], u32)>> {
    vec![
        vec![(&b"fs"[..], 1), (&b"node:fs"[..], 2)],
        vec![(&b"fs"[..], 3), (&b"bun:sqlite"[..], 4)],
    ]
}

#[test]
fn first_alias_wins_and_a_gated_one_is_hidden() {
    let owned = aliases();
    let tables: Vec<&[(&[u8], u32)]> = owned.iter().map(|table| table.as_slice()).collect();
    assert_eq!(bun_aliases_get(&tables, false, b"fs"), Some(1));
    assert_eq!(bun_aliases_get(&tables, false, b"node:fs"), Some(2));
    assert_eq!(bun_aliases_get(&tables, false, b"bun:sqlite"), Some(4));
    assert_eq!(bun_aliases_get(&tables, false, b"f"), None);
    assert_eq!(bun_aliases_get(&tables, false, b"fss"), None);
    assert_eq!(bun_aliases_get(&tables, true, b"fs"), None);
    assert_eq!(bun_aliases_get::<u32>(&[], false, b"fs"), None);
}

#[test]
fn internal_modules_are_exposed_only_where_internals_are() {
    assert_eq!(
        exposed_internal_name(b"internal/util", true),
        Some(b"internal:util".to_vec())
    );
    assert_eq!(
        exposed_internal_name(b"internal/", true),
        Some(b"internal:".to_vec())
    );
    assert_eq!(exposed_internal_name(b"internal/util", false), None);
    assert_eq!(exposed_internal_name(b"internal:util", true), None);
    assert_eq!(exposed_internal_name(b"intern", true), None);
    assert_eq!(
        exposed_internal_tag(b"internal:util".to_vec(), Some(7)),
        Some((b"internal:util".to_vec(), 7))
    );
    assert_eq!(
        exposed_internal_tag::<i32>(b"internal:util".to_vec(), None),
        None
    );
}

#[test]
fn builtins_are_aliases_and_exposed_internals() {
    let owned = aliases();
    let tables: Vec<&[(&[u8], u32)]> = owned.iter().map(|table| table.as_slice()).collect();
    let builtin = |gated: bool, name: &[u8], expose: bool, tagged: bool| {
        ModuleLoader__isBuiltin(&tables, gated, name, expose, tagged)
    };
    assert!(builtin(false, b"fs", false, false));
    assert!(!builtin(true, b"fs", false, false));
    assert!(!builtin(true, b"fs", true, true));
    assert!(builtin(false, b"internal/util", true, true));
    assert!(builtin(true, b"internal/util", true, true));
    assert!(!builtin(false, b"internal/util", true, false));
    assert!(!builtin(false, b"internal/util", false, true));
    assert!(!builtin(false, b"left-pad", true, true));
    assert_eq!(ModuleLoader__builtinAliasIndex(Some(0)), 0);
    assert_eq!(ModuleLoader__builtinAliasIndex(Some(u16::MAX)), 65535);
    assert_eq!(ModuleLoader__builtinAliasIndex(None), -1);
}

#[test]
fn files_load_as_javascript() {
    assert_eq!(Bun__getDefaultLoader(6, 6, 1), 1);
    assert_eq!(Bun__getDefaultLoader(4, 6, 1), 4);
}

#[test]
fn a_missing_builtin_leaves_the_result_alone() {
    let mut ret = 5;
    assert!(!Bun__fetchBuiltinModule(None, &mut ret));
    assert_eq!(ret, 5);
    assert!(Bun__fetchBuiltinModule(Some(6), &mut ret));
    assert_eq!(ret, 6);
}

#[test]
fn plugins_see_what_follows_the_namespace() {
    assert_eq!(virtual_module(true, false, b"ns", b"ns:path"), None);
    assert_eq!(virtual_module(false, true, b"ns", b"ns:path"), None);
    assert_eq!(virtual_module(false, false, b"ns", b"ns:path"), None);
    assert_eq!(
        virtual_module(true, true, b"ns", b"ns:path"),
        Some(VirtualModule {
            namespace: b"ns".to_vec(),
            path: b"path".to_vec(),
        })
    );
    assert_eq!(
        virtual_module(true, true, b"", b"path"),
        Some(VirtualModule {
            namespace: vec![],
            path: b"path".to_vec(),
        })
    );
    assert_eq!(
        virtual_module(true, true, b"ns", b"ns"),
        Some(VirtualModule {
            namespace: b"ns".to_vec(),
            path: vec![],
        })
    );
}

#[test]
fn a_plugin_that_fails_exports_nothing() {
    let module = virtual_module(true, true, b"ns", b"ns:path");
    let run = |loaded: Option<Result<Option<i32>, ()>>| Bun__runVirtualModule(&module, loaded, 0);
    assert_eq!(run(Some(Ok(Some(3)))), 3);
    assert_eq!(run(Some(Ok(None))), 0);
    assert_eq!(run(Some(Err(()))), 0);
    assert_eq!(run(None), 0);
}

#[test]
fn a_module_that_nobody_was_asked_for_exports_nothing() {
    for (plugin_runner, could_be_plugin) in [(false, true), (true, false), (false, false)] {
        let module = virtual_module(plugin_runner, could_be_plugin, b"ns", b"ns:path");
        assert_eq!(
            Bun__runVirtualModule::<i32, ()>(&module, Some(Ok(Some(3))), 0),
            0
        );
        assert_eq!(Bun__runVirtualModule::<i32, ()>(&module, None, 0), 0);
    }
}
