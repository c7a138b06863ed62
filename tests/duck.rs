use duck_mode::connection::{
    disconnect, is_connected, toggle_connection, ConnectionState, ConnectivityFlags, Outcome,
    Phase, Step, TargetFlags, ToggleError, Transition,
};
use duck_mode::mode::ConnectionMode;
use duck_mode::selector::{get_proxies_selector, set_current_proxy, Json};
use duck_mode::store::{
    get_connection_mode, read_from_config, set_connection_mode, write_to_config, DuckConfig,
};

fn flags(proxy: Option<bool>, tun: Option<bool>) -> ConnectivityFlags {
    ConnectivityFlags { enable_system_proxy: proxy, enable_tun_mode: tun }
}

fn off() -> TargetFlags {
    TargetFlags { enable_tun_mode: false, enable_system_proxy: false }
}

fn drive(t: &mut Transition, outcomes: &[Outcome]) -> Vec<Step> {
    outcomes.iter().map(|o| t.step(*o)).collect()
}

fn text(s: &str) -> Json {
    Json::Str(s.to_string())
}

fn object(members: Vec<(&str, Json)>) -> Json {
    Json::Object(members.into_iter().map(|(k, v)| (k.to_string(), v)).collect())
}

fn group(kind: &str, name: &str, now: &str, all: Vec<Json>) -> Json {
    object(vec![
        ("type", text(kind)),
        ("name", text(name)),
        ("now", text(now)),
        ("all", Json::Array(all)),
    ])
}

fn report(groups: Vec<Json>) -> Json {
    object(vec![(
        "providers",
        object(vec![
            ("default", object(vec![("proxies", Json::Array(vec![]))])),
            ("PROXY", object(vec![("proxies", Json::Array(groups))])),
        ]),
    )])
}

#[test]
fn set_mode_maps_supported_names() {
    assert_eq!(set_connection_mode("system", None).0, ConnectionMode::System);
    assert_eq!(set_connection_mode("tun", None).0, ConnectionMode::Tun);
    assert_eq!(set_connection_mode("combine", None).0, ConnectionMode::Combine);
}

#[test]
fn set_mode_falls_back_to_system() {
    for raw in ["", "TUN", "Combine", "tun ", "proxy"] {
        let (mode, doc) = set_connection_mode(raw, Some("# Duck Config\nconnection_mode: Tun\n"));
        assert_eq!(mode, ConnectionMode::System);
        assert_eq!(doc, "# Duck Config\nconnection_mode: System\n");
    }
}

#[test]
fn set_mode_writes_the_document() {
    let (mode, doc) = set_connection_mode("combine", None);
    assert_eq!(mode, ConnectionMode::Combine);
    assert_eq!(doc, "# Duck Config\nconnection_mode: Combine\n");
}

#[test]
fn fresh_install_reads_system() {
    assert_eq!(get_connection_mode(None), ConnectionMode::System);
    assert_eq!(read_from_config(None), DuckConfig::template());
}

#[test]
fn unreadable_document_reads_system() {
    assert_eq!(get_connection_mode(Some("")), ConnectionMode::System);
    assert_eq!(get_connection_mode(Some("connection_mode: tun\n")), ConnectionMode::System);
    assert_eq!(get_connection_mode(Some("# only a comment")), ConnectionMode::System);
    assert_eq!(get_connection_mode(Some("{ not yaml")), ConnectionMode::System);
}

#[test]
fn reads_documents_with_comments() {
    assert_eq!(get_connection_mode(Some("connection_mode: Tun")), ConnectionMode::Tun);
    assert_eq!(
        get_connection_mode(Some("# a\n# b\nconnection_mode: Combine\n")),
        ConnectionMode::Combine
    );
}

#[test]
fn set_then_get_round_trip() {
    for (raw, mode) in [
        ("system", ConnectionMode::System),
        ("tun", ConnectionMode::Tun),
        ("combine", ConnectionMode::Combine),
    ] {
        let (set, doc) = set_connection_mode(raw, None);
        assert_eq!(set, mode);
        assert_eq!(get_connection_mode(Some(doc.as_str())), mode);
        let config = DuckConfig { connection_mode: mode };
        assert_eq!(read_from_config(Some(write_to_config(&config).as_str())), config);
    }
}

#[test]
fn mode_names_and_labels() {
    assert_eq!(ConnectionMode::Tun.name(), "Tun");
    assert_eq!(ConnectionMode::Combine.label(), "combine");
    assert_eq!(ConnectionMode::default(), ConnectionMode::System);
    assert!(ConnectionMode::Tun.is(ConnectionMode::Tun));
    assert!(!ConnectionMode::Tun.is(ConnectionMode::Combine));
}

#[test]
fn connected_when_either_flag_is_on() {
    assert!(!is_connected(&flags(None, None)));
    assert!(!is_connected(&flags(Some(false), Some(false))));
    assert!(is_connected(&flags(Some(true), None)));
    assert!(is_connected(&flags(None, Some(true))));
}

#[test]
fn toggle_combine_twice() {
    let start = flags(Some(false), Some(false));
    let (notice, mut t) = toggle_connection(ConnectionMode::Combine, &start);
    assert_eq!(notice, Some(ConnectionState::Connecting));
    let both = TargetFlags { enable_tun_mode: true, enable_system_proxy: true };
    let steps = drive(
        &mut t,
        &[Outcome::Start, Outcome::ServiceChecked(true), Outcome::Applied(true)],
    );
    assert_eq!(
        steps,
        vec![Step::CheckService, Step::ApplyFlags(both), Step::Finish(ConnectionState::Connected)]
    );
    let on = start.patched(both);
    assert_eq!(on, flags(Some(true), Some(true)));

    let (notice, mut t) = toggle_connection(ConnectionMode::Combine, &on);
    assert_eq!(notice, None);
    let steps = drive(&mut t, &[Outcome::Start, Outcome::Applied(true), Outcome::Closed]);
    assert_eq!(
        steps,
        vec![
            Step::ApplyFlags(off()),
            Step::CloseConnections,
            Step::Finish(ConnectionState::Disconnected),
        ]
    );
    assert_eq!(on.patched(off()), flags(Some(false), Some(false)));
}

#[test]
fn toggle_system_sets_proxy_only() {
    let (notice, mut t) = toggle_connection(ConnectionMode::System, &flags(None, None));
    assert_eq!(notice, Some(ConnectionState::Connecting));
    let steps = drive(&mut t, &[Outcome::Start, Outcome::Applied(true)]);
    let target = TargetFlags { enable_tun_mode: false, enable_system_proxy: true };
    assert_eq!(steps, vec![Step::ApplyFlags(target), Step::Finish(ConnectionState::Connected)]);
    assert_eq!(t.phase, Phase::Finished);
}

#[test]
fn toggle_tun_sets_tun_only() {
    let (_, mut t) = toggle_connection(ConnectionMode::Tun, &flags(None, None));
    let target = TargetFlags { enable_tun_mode: true, enable_system_proxy: false };
    assert_eq!(t.target, target);
    let steps = drive(
        &mut t,
        &[Outcome::Start, Outcome::ServiceChecked(false), Outcome::Installed(true), Outcome::Applied(true)],
    );
    assert_eq!(
        steps,
        vec![
            Step::CheckService,
            Step::InstallService,
            Step::ApplyFlags(target),
            Step::Finish(ConnectionState::Connected),
        ]
    );
}

#[test]
fn toggle_from_connected_closes_once() {
    for mode in [ConnectionMode::System, ConnectionMode::Tun, ConnectionMode::Combine] {
        for start in [flags(Some(true), None), flags(None, Some(true)), flags(Some(true), Some(true))] {
            let (notice, mut t) = toggle_connection(mode, &start);
            assert_eq!(notice, None);
            let steps = drive(
                &mut t,
                &[Outcome::Start, Outcome::Applied(true), Outcome::Closed, Outcome::Closed],
            );
            assert_eq!(steps.iter().filter(|s| **s == Step::CloseConnections).count(), 1);
            assert_eq!(steps[0], Step::ApplyFlags(off()));
            assert_eq!(steps[2], Step::Finish(ConnectionState::Disconnected));
            assert_eq!(steps[3], Step::Idle);
            assert!(!is_connected(&start.patched(off())));
        }
    }
}

#[test]
fn disconnect_from_any_state() {
    for start in [flags(None, None), flags(Some(true), Some(false)), flags(Some(true), Some(true))] {
        let (notice, mut t) = disconnect();
        assert_eq!(notice, ConnectionState::Connecting);
        let steps = drive(
            &mut t,
            &[Outcome::Start, Outcome::Applied(true), Outcome::Closed, Outcome::Applied(true)],
        );
        let finished: Vec<&Step> =
            steps.iter().filter(|s| matches!(s, Step::Finish(_))).collect();
        assert_eq!(finished, vec![&Step::Finish(ConnectionState::Disconnected)]);
        assert_eq!(steps[0], Step::ApplyFlags(off()));
        assert_eq!(start.patched(off()), flags(Some(false), Some(false)));
    }
}

#[test]
fn disconnect_patch_failure_announces_nothing() {
    let (_, mut t) = disconnect();
    let steps = drive(&mut t, &[Outcome::Start, Outcome::Applied(false), Outcome::Closed]);
    assert_eq!(
        steps,
        vec![Step::ApplyFlags(off()), Step::Fail(ToggleError::ApplyFlags), Step::Idle]
    );
}

#[test]
fn install_failure_keeps_flags() {
    for mode in [ConnectionMode::Tun, ConnectionMode::Combine] {
        let (notice, mut t) = toggle_connection(mode, &flags(Some(false), None));
        assert_eq!(notice, Some(ConnectionState::Connecting));
        let steps = drive(
            &mut t,
            &[
                Outcome::Start,
                Outcome::ServiceChecked(false),
                Outcome::Installed(false),
                Outcome::Applied(true),
            ],
        );
        assert_eq!(
            steps,
            vec![
                Step::CheckService,
                Step::InstallService,
                Step::Fail(ToggleError::ServiceInstall),
                Step::Idle,
            ]
        );
        assert_eq!(t.phase, Phase::Failed);
    }
}

#[test]
fn state_labels() {
    assert_eq!(ConnectionState::Connecting.label(), "connecting");
    assert_eq!(ConnectionState::Connected.label(), "connected");
    assert_eq!(ConnectionState::Disconnected.label(), "disconnected");
}

#[test]
fn selector_none_when_engine_down() {
    assert!(get_proxies_selector(None).is_none());
}

#[test]
fn selector_none_without_selector_group() {
    let r = report(vec![group("URLTest", "auto", "a", vec![text("a")])]);
    assert!(get_proxies_selector(Some(&r)).is_none());
    let no_proxy = object(vec![("providers", object(vec![]))]);
    assert!(get_proxies_selector(Some(&no_proxy)).is_none());
    assert!(get_proxies_selector(Some(&Json::Null)).is_none());
}

#[test]
fn selector_first_of_several() {
    let r = report(vec![
        group("URLTest", "auto", "x", vec![text("x")]),
        group("Selector", "main", "b", vec![text("a"), Json::Number, text("b"), Json::Null]),
        group("Selector", "second", "c", vec![text("c")]),
    ]);
    let s = get_proxies_selector(Some(&r)).unwrap();
    assert_eq!(s.name, "main");
    assert_eq!(s.current_proxy, "b");
    assert_eq!(s.proxies, vec!["a".to_string(), "b".to_string()]);
}

#[test]
fn selector_missing_fields_default_empty() {
    let r = report(vec![object(vec![("type", text("Selector"))])]);
    let s = get_proxies_selector(Some(&r)).unwrap();
    assert_eq!(s.name, "");
    assert_eq!(s.current_proxy, "");
    assert!(s.proxies.is_empty());
}

#[test]
fn proxy_change_encodes_group_only_for_engine() {
    let change = set_current_proxy("grp name", "p1");
    assert_eq!(change.encoded_group, "grp%20name");
    assert_eq!(change.group, "grp name");
    assert_eq!(change.proxy, "p1");
    let done = change.complete(Ok(()), &flags(Some(true), None)).unwrap();
    assert_eq!(done.group, "grp name");
    assert_eq!(done.proxy, "p1");
    assert!(done.close_connections);
    let idle = change.complete(Ok(()), &flags(None, Some(false))).unwrap();
    assert!(!idle.close_connections);
}

#[test]
fn proxy_change_engine_error_verbatim() {
    let change = set_current_proxy("g", "p");
    let r = change.complete(Err("engine said no".to_string()), &flags(Some(true), None));
    assert_eq!(r.unwrap_err(), "engine said no");
}

#[test]
fn proxy_group_encoding_bytes() {
    assert_eq!(set_current_proxy("a-b_c.d~Z9", "p").encoded_group, "a-b_c.d~Z9");
    assert_eq!(set_current_proxy("é/?", "p").encoded_group, "%C3%A9%2F%3F");
}
