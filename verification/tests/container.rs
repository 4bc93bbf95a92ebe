use whycant::layers::container::{
    caps_reduced, is_host_map, mapped_range, maps_inside, parse_cap_bnd, parse_seccomp,
    parse_uid_map,
};

#[test]
fn host_map_is_not_userns() {
    let m = parse_uid_map("         0          0 4294967295\n");
    assert_eq!(m.len(), 1);
    assert!(is_host_map(&m));
}

#[test]
fn offset_map_is_userns_with_gaps() {
    let m = parse_uid_map("0 100000 65536\n");
    assert!(!is_host_map(&m));
    assert!(maps_inside(&m, 0));
    assert!(maps_inside(&m, 65535));
    assert!(!maps_inside(&m, 65536));
    assert!(!maps_inside(&m, 200000));
    assert_eq!(mapped_range(&m), "0..65536");
}

#[test]
fn multiline_map_covers_each_range() {
    let m = parse_uid_map("0 1000 1\n1 100000 65536\n");
    assert!(maps_inside(&m, 0));
    assert!(maps_inside(&m, 1));
    assert!(maps_inside(&m, 65536));
    assert!(!maps_inside(&m, 65537));
}

#[test]
fn cap_bnd_full_vs_reduced() {
    assert!(!caps_reduced(
        parse_cap_bnd("CapBnd:\t000001ffffffffff").unwrap()
    ));
    assert!(caps_reduced(
        parse_cap_bnd("CapBnd:\t00000000a80425fb").unwrap()
    ));
    assert!(!caps_reduced(0xffff_ffff_ffff_ffff));
}

#[test]
fn seccomp_mode_parses() {
    assert_eq!(parse_seccomp("Seccomp:\t0\nSeccomp_filters:\t0"), 0);
    assert_eq!(parse_seccomp("Seccomp:\t2"), 2);
    assert_eq!(parse_seccomp("Name:\tx"), 0);
}

#[test]
fn malformed_map_lines_are_dropped() {
    let m = parse_uid_map("junk\n0 1000\n5 6 7\n");
    assert_eq!(m.len(), 1);
    assert!(maps_inside(&m, 5));
    assert!(!maps_inside(&m, 12));
    assert!(parse_cap_bnd("Name:\tx").is_none());
}
