use embed_probe::resolution::{
    embedder_should_deny_module_resolution, set_embedder_deny_all_module_resolution,
    set_is_allowed_to_use_internal_testing_apis, Bun__embedderShouldDenyModuleResolution,
    EmbedderDenyFlag, EmbedderModuleResolutionKind, EmbedderResolutionDenyGuard,
    InternalTestingApis,
};

#[test]
fn deny_flag_is_thread_local_not_process_wide() {
    let untouched = EmbedderDenyFlag::new();
    let mut thread_a = EmbedderDenyFlag::new();
    let mut thread_b = EmbedderDenyFlag::new();
    set_embedder_deny_all_module_resolution(&mut thread_a, true);
    set_embedder_deny_all_module_resolution(&mut thread_b, false);
    let kind = EmbedderModuleResolutionKind::DynamicImport;
    let a_denies = embedder_should_deny_module_resolution(&thread_a, &(), &"fs", kind);
    let b_denies = embedder_should_deny_module_resolution(&thread_b, &(), &"fs", kind);

    assert!(a_denies, "thread A must read its own deny=true");
    assert!(
        !b_denies,
        "thread B must read its own deny=false, not thread A's true"
    );
    assert!(
        !untouched.deny,
        "the flag on an untouched thread stays false"
    );
}

#[test]
fn resolution_kind_discriminants_match_the_c_abi() {
    assert_eq!(
        EmbedderModuleResolutionKind::from_u8(1),
        Some(EmbedderModuleResolutionKind::DynamicImport)
    );
    assert_eq!(
        EmbedderModuleResolutionKind::from_u8(2),
        Some(EmbedderModuleResolutionKind::LoadAndEvaluateModule)
    );
    assert_eq!(
        EmbedderModuleResolutionKind::from_u8(3),
        Some(EmbedderModuleResolutionKind::BunResolve)
    );
    assert_eq!(
        EmbedderModuleResolutionKind::from_u8(4),
        Some(EmbedderModuleResolutionKind::BunResolveSync)
    );
    assert_eq!(
        EmbedderModuleResolutionKind::from_u8(5),
        Some(EmbedderModuleResolutionKind::ImportMetaResolve)
    );
    assert_eq!(
        EmbedderModuleResolutionKind::from_u8(6),
        Some(EmbedderModuleResolutionKind::RequireResolve)
    );
    assert_eq!(EmbedderModuleResolutionKind::from_u8(0), None);
    assert_eq!(EmbedderModuleResolutionKind::from_u8(7), None);
}

#[test]
fn deny_state_is_nestable_and_malformed_ffi_input_fails_closed() {
    let mut flag = EmbedderDenyFlag::new();
    assert!(!set_embedder_deny_all_module_resolution(&mut flag, true));
    assert!(set_embedder_deny_all_module_resolution(&mut flag, true));
    assert!(Bun__embedderShouldDenyModuleResolution::<(), ()>(
        &flag, None, None, 0,
    ));

    assert!(set_embedder_deny_all_module_resolution(&mut flag, false));
    assert!(!Bun__embedderShouldDenyModuleResolution::<(), ()>(
        &flag, None, None, 0,
    ));
}

#[test]
fn well_formed_calls_follow_the_flag() {
    let mut flag = EmbedderDenyFlag::new();
    for code in 1..=6 {
        assert!(!Bun__embedderShouldDenyModuleResolution(
            &flag,
            Some(&()),
            Some(&"node:fs"),
            code,
        ));
    }
    set_embedder_deny_all_module_resolution(&mut flag, true);
    for code in 1..=6 {
        assert!(Bun__embedderShouldDenyModuleResolution(
            &flag,
            Some(&()),
            Some(&"node:fs"),
            code,
        ));
    }
    assert!(Bun__embedderShouldDenyModuleResolution::<(), &str>(
        &flag,
        None,
        Some(&"node:fs"),
        1,
    ));
    assert!(Bun__embedderShouldDenyModuleResolution::<(), &str>(
        &flag,
        Some(&()),
        None,
        1,
    ));
}

#[test]
fn kinds_and_codes_go_both_ways() {
    for code in 0..=u8::MAX {
        match EmbedderModuleResolutionKind::from_u8(code) {
            Some(kind) => assert_eq!(kind.to_u8(), code),
            None => assert!(code == 0 || code > 6),
        }
    }
}

#[test]
fn deny_guards_nest() {
    let mut flag = EmbedderDenyFlag::new();
    let outer = EmbedderResolutionDenyGuard::new(&mut flag);
    let inner = EmbedderResolutionDenyGuard::new(&mut flag);
    assert!(flag.deny);
    assert!(inner.previous);
    inner.release(&mut flag);
    assert!(flag.deny);
    outer.release(&mut flag);
    assert!(!flag.deny);
}

#[test]
fn internal_testing_apis_can_be_allowed_and_forbidden() {
    let mut apis = InternalTestingApis { allowed: false };
    set_is_allowed_to_use_internal_testing_apis(&mut apis, true);
    assert!(apis.allowed);
    set_is_allowed_to_use_internal_testing_apis(&mut apis, false);
    assert!(!apis.allowed);
}
