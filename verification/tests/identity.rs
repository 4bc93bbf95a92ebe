use whycant::access_check::{compare, cross_check, unavailable, Concord, KernelAnswer, KernelCheck};
use whycant::identity::{
    banner_text, build_identity, groups_for, parse_id, parse_user_spec, Identity, IdentityError,
    UserEntry, UserSpec,
};
use whycant::report::RunningAs;

fn ident() -> Identity {
    Identity {
        uid: 1000,
        primary_gid: 1000,
        groups: vec![1000],
        name: Some("alice".into()),
        is_self: true,
    }
}

#[test]
fn root_banner_notes_audit_access() {
    let b = banner_text(&ident(), RunningAs::Root, false);
    assert!(b.contains("full audit-log access"));
}

#[test]
fn user_mac_clause_tracks_lsm_presence() {
    for lsm in [true, false] {
        let b = banner_text(&ident(), RunningAs::User, lsm);
        assert!(b.starts_with("running as alice (uid 1000)"));
        assert_eq!(b.contains("MAC denial confirmation needs sudo"), lsm);
    }
}

#[test]
fn groups_always_hold_the_primary_group() {
    assert_eq!(groups_for(Some(vec![4, 27]), 1000), vec![4, 27, 1000]);
    assert_eq!(groups_for(Some(vec![1000, 4]), 1000), vec![1000, 4]);
    assert_eq!(groups_for(None, 50), vec![50]);
}

#[test]
fn identity_prefers_explicit_values_over_the_entry() {
    let entry = UserEntry { name: Some("bob".into()), primary_gid: 20 };
    let id = build_identity(501, None, None, Some(entry), Some(vec![12]), 501).unwrap();
    assert_eq!(id.name.as_deref(), Some("bob"));
    assert_eq!(id.primary_gid, 20);
    assert_eq!(id.groups, vec![12, 20]);
    assert!(id.is_self);
    let id = build_identity(0, Some(0), Some("root".into()), None, None, 1000).unwrap();
    assert_eq!(id.uid, 0);
    assert_eq!(id.primary_gid, 0);
    assert_eq!(id.name.as_deref(), Some("root"));
    assert!(!id.is_self);
    let e = build_identity(77, None, None, None, None, 0).unwrap_err();
    assert_eq!(e.message(), "cannot determine primary gid for uid 77");
}

#[test]
fn blocked_meets_kernel_allowed_disagrees() {
    let ans = KernelAnswer {
        allowed: true,
        errno: None,
    };
    assert_eq!(compare(&ans, false), Concord::Disagree);
}

#[test]
fn disagreement_names_the_errno() {
    let ans = KernelAnswer { allowed: false, errno: Some(13) };
    let cc = cross_check(&ans, &KernelCheck { r: true, w: false, x: false }, true);
    assert!(!cc.agree);
    assert_eq!(cc.message.as_deref(), Some("model and kernel disagree (kernel errno 13)"));
    assert_eq!(cc.kernel_rwx, Some([true, false, false]));
    let cc = unavailable(33, false);
    assert!(!cc.available && cc.agree);
    assert_eq!(
        cc.message.as_deref(),
        Some("symbolic only for uid 33; no kernel cross-check")
    );
}

#[test]
fn user_specs_and_ids_parse_as_decimal() {
    assert_eq!(parse_user_spec("1000"), UserSpec::Uid(1000));
    assert_eq!(parse_user_spec("+7"), UserSpec::Uid(7));
    assert_eq!(parse_user_spec("www-data"), UserSpec::Name("www-data".into()));
    assert_eq!(parse_user_spec("4294967296"), UserSpec::Name("4294967296".into()));
    assert_eq!(parse_id("0"), Some(0));
    assert_eq!(parse_id("4294967295"), Some(u32::MAX));
    assert_eq!(parse_id(""), None);
    assert_eq!(parse_id("12a"), None);
    assert_eq!(
        IdentityError::UnknownUser { spec: "nobody2".into() }.message(),
        "unknown user: nobody2"
    );
}
