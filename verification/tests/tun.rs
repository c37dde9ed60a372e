use usque_rs::linux_link::{LinkAction, LinkEvent, LinkFailure};
use usque_rs::tun_device::{
    creation_outcome, guid_from_digest, linux_settings, other_settings, windows_name,
    windows_settings, PlatformSettings, TunConfig, TunLayer,
};
use usque_rs::windows_link::{
    unicast_entry, AdapterAction, AdapterEvent, AdapterFailure, AddressFamily, IpAddress,
};

fn config(name: Option<&str>, ipv4: Option<&str>, ipv6: Option<&str>) -> TunConfig {
    TunConfig {
        name: name.map(String::from),
        mtu: 1280,
        ipv4: ipv4.map(String::from),
        ipv6: ipv6.map(String::from),
        setup_addresses: true,
    }
}

const DIGEST: [u8; 16] = [1, 0, 0, 0, 0, 0, 0, 0, 0, 0, 0, 0, 0, 0, 0, 0x80];

#[test]
fn linux_interface_has_the_name_that_was_asked_for() {
    let settings = linux_settings(&config(Some("warp0"), None, None));
    assert_eq!(settings.layer, TunLayer::L3);
    assert_eq!(settings.name.as_deref(), Some("warp0"));
    assert!(matches!(
        settings.platform,
        PlatformSettings::Linux {
            ensure_root_privileges: true
        }
    ));
    assert_eq!(linux_settings(&config(None, None, None)).name, None);
}

#[test]
fn windows_interface_always_has_a_name() {
    assert_eq!(windows_name(&config(Some("warp0"), None, None)), "warp0");
    assert_eq!(windows_name(&config(None, None, None)), "usque-rs");
}

#[test]
fn windows_interface_has_the_guid_of_its_digest() {
    let settings = windows_settings(&config(None, None, None), Some(&DIGEST));
    assert_eq!(settings.name.as_deref(), Some("usque-rs"));
    match settings.platform {
        PlatformSettings::Windows {
            wintun_file,
            device_guid,
        } => {
            assert_eq!(wintun_file, "wintun.dll");
            assert_eq!(device_guid, Some((1u128 << 127) + 1));
        }
        _ => panic!("not for Windows"),
    }
    let settings = windows_settings(&config(None, None, None), None);
    assert!(matches!(
        settings.platform,
        PlatformSettings::Windows {
            device_guid: None,
            ..
        }
    ));
}

#[test]
fn interface_elsewhere_has_only_its_layer() {
    let settings = other_settings();
    assert_eq!(settings.layer, TunLayer::L3);
    assert_eq!(settings.name, None);
    assert!(matches!(settings.platform, PlatformSettings::Other));
}

#[test]
fn created_interface_is_announced_though_its_name_is_unknown() {
    let created = creation_outcome::<u8, &str>(Ok(7), Some("tun3".to_string()));
    assert_eq!(created, Ok((7, "tun3".to_string())));
    let created = creation_outcome::<u8, &str>(Ok(7), None);
    assert_eq!(created, Ok((7, "unknown".to_string())));
}

#[test]
fn interface_that_was_not_created_fails_with_its_cause() {
    let created = creation_outcome::<u8, &str>(Err("no permission"), None);
    assert_eq!(
        created,
        Err(("no permission", "failed to create TUN device"))
    );
}

#[test]
fn guid_is_the_digest_with_the_lowest_byte_first() {
    let digest: Vec<u8> = (0..16).collect();
    let guid = 0x0f0e_0d0c_0b0a_0908_0706_0504_0302_0100;
    assert_eq!(guid_from_digest(&digest), guid);
    assert_eq!(guid_from_digest(&[0xff; 16]), u128::MAX);
    assert_ne!(guid_from_digest(&DIGEST), guid);
}

#[test]
fn linux_link_is_configured_step_by_step() {
    let cfg = config(None, Some("172.16.0.2"), Some("fd00::2"));
    let v6 = [0xfd, 0, 0, 0, 0, 0, 0, 0, 0, 0, 0, 0, 0, 0, 0, 2];
    let action = LinkAction::start();
    assert!(matches!(action, LinkAction::ReadName));
    let action = action
        .advance(&cfg, LinkEvent::Name("tun0".to_string()))
        .unwrap();
    assert!(matches!(&action, LinkAction::Connect { name } if name == "tun0"));
    let action = action.advance(&cfg, LinkEvent::Done).unwrap();
    assert!(matches!(&action, LinkAction::FindLink { name } if name == "tun0"));
    let action = action.advance(&cfg, LinkEvent::Link(Some(7))).unwrap();
    assert!(matches!(
        action,
        LinkAction::SetMtu {
            index: 7,
            mtu: 1280
        }
    ));
    let action = action.advance(&cfg, LinkEvent::Done).unwrap();
    assert!(matches!(&action, LinkAction::ParseV4 { index: 7, text } if *text == "172.16.0.2"));
    let action = action
        .advance(&cfg, LinkEvent::V4([172, 16, 0, 2]))
        .unwrap();
    assert!(matches!(
        action,
        LinkAction::AddV4 {
            index: 7,
            v4: [172, 16, 0, 2],
            prefix: 32
        }
    ));
    let action = action.advance(&cfg, LinkEvent::Done).unwrap();
    assert!(matches!(&action, LinkAction::ParseV6 { index: 7, text } if *text == "fd00::2"));
    let action = action.advance(&cfg, LinkEvent::V6(v6)).unwrap();
    match &action {
        LinkAction::AddV6 {
            index,
            v6: added,
            prefix,
        } => assert_eq!((*index, *added, *prefix), (7, v6, 128)),
        _ => panic!("no IPv6 address"),
    }
    let action = action.advance(&cfg, LinkEvent::Done).unwrap();
    assert!(matches!(action, LinkAction::BringUp { index: 7 }));
    let action = action.advance(&cfg, LinkEvent::Done).unwrap();
    assert!(matches!(action, LinkAction::Finished));
}

#[test]
fn linux_link_without_addresses_is_brought_up_at_once() {
    let cfg = config(None, None, None);
    let action = LinkAction::SetMtu { index: 3, mtu: 1 };
    let action = action.advance(&cfg, LinkEvent::Done).unwrap();
    assert!(matches!(action, LinkAction::BringUp { index: 3 }));
}

#[test]
fn linux_link_with_one_address_skips_the_other() {
    let cfg = config(None, None, Some("fd00::2"));
    let action = LinkAction::SetMtu { index: 3, mtu: 1 };
    let action = action.advance(&cfg, LinkEvent::Done).unwrap();
    assert!(matches!(action, LinkAction::ParseV6 { index: 3, .. }));
    let cfg = config(None, Some("1.2.3.4"), None);
    let action = LinkAction::AddV4 {
        index: 3,
        v4: [1, 2, 3, 4],
        prefix: 32,
    };
    let action = action.advance(&cfg, LinkEvent::Done).unwrap();
    assert!(matches!(action, LinkAction::BringUp { index: 3 }));
}

#[test]
fn linux_failures_say_what_failed() {
    let cfg = config(None, None, None);
    let text = String::from("x");
    let name = || "tun0".to_string();
    let actions = [
        (LinkAction::ReadName, "failed to get TUN device name"),
        (
            LinkAction::Connect { name: name() },
            "failed to create netlink connection",
        ),
        (LinkAction::FindLink { name: name() }, "failed to query link"),
        (LinkAction::SetMtu { index: 1, mtu: 1 }, "failed to set MTU"),
        (
            LinkAction::ParseV4 {
                index: 1,
                text: &text,
            },
            "invalid IPv4 address in config",
        ),
        (
            LinkAction::AddV4 {
                index: 1,
                v4: [0; 4],
                prefix: 32,
            },
            "failed to add IPv4 address",
        ),
        (
            LinkAction::ParseV6 {
                index: 1,
                text: &text,
            },
            "invalid IPv6 address in config",
        ),
        (
            LinkAction::AddV6 {
                index: 1,
                v6: [0; 16],
                prefix: 128,
            },
            "failed to add IPv6 address",
        ),
        (LinkAction::BringUp { index: 1 }, "failed to bring link up"),
    ];
    for (action, message) in actions {
        let failure = action.advance(&cfg, LinkEvent::Failed).unwrap_err();
        assert_eq!(failure.message(), message);
    }
}

#[test]
fn linux_link_that_is_not_there_fails() {
    let cfg = config(None, None, None);
    let action = LinkAction::FindLink {
        name: "tun0".to_string(),
    };
    let failure = action.advance(&cfg, LinkEvent::Link(None)).unwrap_err();
    assert_eq!(failure, LinkFailure::NotFound);
    assert_eq!(failure.message(), "TUN device not found via netlink");
}

#[test]
fn linux_configuration_ends_at_the_action_that_failed() {
    let cfg = config(None, Some("172.16.0.2"), Some("fd00::2"));
    let events = [
        LinkEvent::Name("tun0".to_string()),
        LinkEvent::Done,
        LinkEvent::Link(Some(7)),
        LinkEvent::Done,
        LinkEvent::V4([172, 16, 0, 2]),
    ];
    let mut action = LinkAction::start();
    for event in events {
        action = action.advance(&cfg, event).unwrap();
    }
    assert!(matches!(action, LinkAction::AddV4 { .. }));
    assert_eq!(
        action.advance(&cfg, LinkEvent::Failed).unwrap_err(),
        LinkFailure::AddV4
    );
}

#[test]
fn event_of_another_action_counts_as_a_failure() {
    let cfg = config(None, None, None);
    assert_eq!(
        LinkAction::start()
            .advance(&cfg, LinkEvent::Done)
            .unwrap_err(),
        LinkFailure::Name
    );
    assert_eq!(
        LinkAction::Finished
            .advance(&cfg, LinkEvent::Done)
            .unwrap_err(),
        LinkFailure::Up
    );
    assert_eq!(
        AdapterAction::start()
            .advance(&cfg, AdapterEvent::Returned(0))
            .unwrap_err(),
        AdapterFailure::Index
    );
}

#[test]
fn windows_configuration_ends_at_the_action_that_failed() {
    let cfg = config(None, None, Some("fd00::2"));
    let mut action = AdapterAction::start();
    for event in [
        AdapterEvent::Index(5),
        AdapterEvent::Returned(0),
        AdapterEvent::Returned(0),
        AdapterEvent::Address(IpAddress::V6([9; 16])),
    ] {
        action = action.advance(&cfg, event).unwrap();
    }
    assert!(matches!(action, AdapterAction::AddV6 { .. }));
    assert_eq!(
        action.advance(&cfg, AdapterEvent::Returned(87)).unwrap_err(),
        AdapterFailure::AddV6
    );
}

#[test]
fn windows_adapter_is_configured_step_by_step() {
    let cfg = config(None, Some("172.16.0.2"), Some("fd00::2"));
    let action = AdapterAction::start();
    assert!(matches!(action, AdapterAction::ReadIndex));
    let action = action.advance(&cfg, AdapterEvent::Index(-2)).unwrap();
    assert!(matches!(
        action,
        AdapterAction::ReadEntry {
            index: 0xffff_fffe
        }
    ));
    let action = action.advance(&cfg, AdapterEvent::Returned(0)).unwrap();
    assert!(matches!(
        action,
        AdapterAction::WriteEntry {
            index: 0xffff_fffe,
            mtu: 1280
        }
    ));
    let action = action.advance(&cfg, AdapterEvent::Returned(0)).unwrap();
    assert!(matches!(&action, AdapterAction::ParseV4 { text, .. } if *text == "172.16.0.2"));
    let action = action
        .advance(
            &cfg,
            AdapterEvent::Address(IpAddress::V4([172, 16, 0, 2])),
        )
        .unwrap();
    match &action {
        AdapterAction::AddV4 { entry } => {
            assert_eq!(entry.interface_index, 0xffff_fffe);
            assert_eq!(entry.family, AddressFamily::Inet);
            assert!(matches!(entry.address, IpAddress::V4([172, 16, 0, 2])));
        }
        _ => panic!("no IPv4 address"),
    }
    let action = action.advance(&cfg, AdapterEvent::Returned(0)).unwrap();
    assert!(matches!(&action, AdapterAction::ParseV6 { text, .. } if *text == "fd00::2"));
    let action = action
        .advance(&cfg, AdapterEvent::Address(IpAddress::V6([9; 16])))
        .unwrap();
    match &action {
        AdapterAction::AddV6 { entry } => assert_eq!(entry.family, AddressFamily::Inet6),
        _ => panic!("no IPv6 address"),
    }
    let action = action.advance(&cfg, AdapterEvent::Returned(0)).unwrap();
    assert!(matches!(action, AdapterAction::Finished));
}

#[test]
fn windows_adapter_index_without_a_sign_stays() {
    let cfg = config(None, None, None);
    let action = AdapterAction::start()
        .advance(&cfg, AdapterEvent::Index(12))
        .unwrap();
    assert!(matches!(action, AdapterAction::ReadEntry { index: 12 }));
}

#[test]
fn windows_adapter_without_addresses_needs_only_the_mtu() {
    let cfg = config(None, None, None);
    let action = AdapterAction::WriteEntry { index: 3, mtu: 1 };
    let action = action.advance(&cfg, AdapterEvent::Returned(0)).unwrap();
    assert!(matches!(action, AdapterAction::Finished));
}

#[test]
fn windows_failures_say_what_failed() {
    let cfg = config(None, None, None);
    let text = String::from("x");
    let entry = unicast_entry(1, IpAddress::V4([0; 4]));
    let set_mtu = Some("failed to set MTU");
    let create = Some("failed to create unicast IP address entry");
    let actions = [
        (AdapterAction::ReadIndex, AdapterEvent::Failed, None, None),
        (
            AdapterAction::ReadEntry { index: 1 },
            AdapterEvent::Returned(2),
            set_mtu,
            Some("failed to get interface entry"),
        ),
        (
            AdapterAction::WriteEntry { index: 1, mtu: 1 },
            AdapterEvent::Returned(5),
            set_mtu,
            Some("failed to set interface entry"),
        ),
        (
            AdapterAction::ParseV4 {
                index: 1,
                text: &text,
            },
            AdapterEvent::Failed,
            Some("invalid IPv4 address in config"),
            None,
        ),
        (
            AdapterAction::AddV4 { entry },
            AdapterEvent::Returned(1),
            Some("failed to set IPv4 address"),
            create,
        ),
        (
            AdapterAction::ParseV6 {
                index: 1,
                text: &text,
            },
            AdapterEvent::Failed,
            Some("invalid IPv6 address in config"),
            None,
        ),
        (
            AdapterAction::AddV6 { entry },
            AdapterEvent::Returned(1),
            Some("failed to set IPv6 address"),
            create,
        ),
    ];
    for (action, event, message, cause) in actions {
        let failure: AdapterFailure = action.advance(&cfg, event).unwrap_err();
        assert_eq!(failure.message(), message);
        assert_eq!(failure.cause(), cause);
    }
}
