//! The TUN interface: how it is to be created.
use vstd::arithmetic::power::{lemma_pow_strictly_increases, pow};
use vstd::prelude::*;

verus! {

/// What the caller wants of the TUN interface.
#[derive(Debug, Clone)]
pub struct TunConfig {
    pub name: Option<String>,
    pub mtu: u32,
    pub ipv4: Option<String>,
    pub ipv6: Option<String>,
    pub setup_addresses: bool,
}

/// The layer on which the interface carries packets.
#[derive(Debug, Clone, Copy, PartialEq, Eq, Structural)]
pub enum TunLayer {
    L3,
}

/// What only one platform knows of an interface.
#[derive(Debug, Clone)]
pub enum PlatformSettings {
    Linux { ensure_root_privileges: bool },
    Windows { wintun_file: String, device_guid: Option<u128> },
    /// Any other platform has nothing of its own.
    Other,
}

/// How an interface is to be created.
#[derive(Debug, Clone)]
pub struct TunSettings {
    pub layer: TunLayer,
    /// The name of the interface; without one the system picks it.
    pub name: Option<String>,
    pub platform: PlatformSettings,
}

/// How the interface is to be created on Linux: with the name that was asked
/// for, if any.
pub fn linux_settings(cfg: &TunConfig) -> (settings: TunSettings)
    ensures
        settings == (TunSettings {
            layer: TunLayer::L3,
            name: cfg.name,
            platform: PlatformSettings::Linux { ensure_root_privileges: true },
        }),
{
    TunSettings {
        layer: TunLayer::L3,
        name: match &cfg.name {
            Some(name) => Some(name.clone()),
            None => None,
        },
        platform: PlatformSettings::Linux { ensure_root_privileges: true },
    }
}

/// The name of the interface on Windows: the one that was asked for, else
/// `usque-rs`.
pub open spec fn windows_device_name(cfg: TunConfig) -> Seq<char> {
    match cfg.name {
        Some(name) => name@,
        None => "usque-rs"@,
    }
}

/// The name of the interface on Windows.
pub fn windows_name(cfg: &TunConfig) -> (name: String)
    ensures
        name@ == windows_device_name(*cfg),
{
    match &cfg.name {
        Some(name) => name.clone(),
        None => "usque-rs".to_owned(),
    }
}

/// The number that the bytes make, the lowest byte first.
pub open spec fn little_endian(bytes: Seq<u8>) -> nat
    decreases bytes.len(),
{
    if bytes.len() == 0 {
        0
    } else {
        bytes[0] as nat + 256 * little_endian(bytes.drop_first())
    }
}

proof fn little_endian_bound(bytes: Seq<u8>)
    ensures
        little_endian(bytes) < pow(256, bytes.len()),
    decreases bytes.len(),
{
    reveal(pow);
    if bytes.len() > 0 {
        little_endian_bound(bytes.drop_first());
    }
}

/// The GUID of an interface, from the MD5 digest of its name.
pub fn guid_from_digest(digest: &[u8]) -> (guid: u128)
    requires
        digest@.len() == 16,
    ensures
        guid == little_endian(digest@),
{
    let mut guid: u128 = 0;
    let mut i: usize = digest.len();
    proof {
        assert(digest@.skip(16).len() == 0);
    }
    while i > 0
        invariant
            i <= 16,
            digest@.len() == 16,
            guid == little_endian(digest@.skip(i as int)),
        decreases i,
    {
        i = i - 1;
        proof {
            let rest = digest@.skip(i as int);
            assert(rest.drop_first() == digest@.skip(i + 1));
            little_endian_bound(rest);
            lemma_pow_16();
            if rest.len() < 16 {
                lemma_pow_strictly_increases(256, rest.len(), 16);
            }
        }
        guid = guid * 256 + digest[i] as u128;
    }
    proof {
        assert(digest@.skip(0) == digest@);
    }
    guid
}

proof fn lemma_pow_16()
    ensures
        pow(256, 16) == 0x1_0000_0000_0000_0000_0000_0000_0000_0000int,
{
    reveal(pow);
    reveal_with_fuel(pow, 17);
}

/// Different digests make different GUIDs.
pub proof fn guid_tells_digests_apart(a: Seq<u8>, b: Seq<u8>)
    requires
        a.len() == b.len(),
        little_endian(a) == little_endian(b),
    ensures
        a == b,
    decreases a.len(),
{
    if a.len() > 0 {
        guid_tells_digests_apart(a.drop_first(), b.drop_first());
        assert(a == seq![a[0]] + a.drop_first());
        assert(b == seq![b[0]] + b.drop_first());
    } else {
        assert(a == b);
    }
}

/// How the interface is to be created on Windows. `digest` is the MD5 digest of
/// its name, where it could be computed; without one the system picks the GUID.
pub fn windows_settings(cfg: &TunConfig, digest: Option<&[u8]>) -> (settings: TunSettings)
    requires
        digest matches Some(digest) ==> digest@.len() == 16,
    ensures
        settings.layer == TunLayer::L3,
        settings.name matches Some(name) && name@ == windows_device_name(*cfg),
        settings.platform matches PlatformSettings::Windows { wintun_file, device_guid }
            && wintun_file@ == "wintun.dll"@ && match digest {
            Some(digest) => device_guid matches Some(guid) && guid == little_endian(digest@),
            None => device_guid is None,
        },
{
    let device_guid = match digest {
        Some(digest) => Some(guid_from_digest(digest)),
        None => None,
    };
    TunSettings {
        layer: TunLayer::L3,
        name: Some(windows_name(cfg)),
        platform: PlatformSettings::Windows { wintun_file: "wintun.dll".to_owned(), device_guid },
    }
}

/// How the interface is to be created on any other platform: the name that was
/// asked for is not used there, the system picks it.
pub fn other_settings() -> (settings: TunSettings)
    ensures
        settings == (TunSettings {
            layer: TunLayer::L3,
            name: None,
            platform: PlatformSettings::Other,
        }),
{
    TunSettings { layer: TunLayer::L3, name: None, platform: PlatformSettings::Other }
}

/// The name under which a created interface is announced: its own where it could
/// be read, else `unknown`.
pub open spec fn announced_name(name: Option<String>) -> Seq<char> {
    match name {
        Some(name) => name@,
        None => "unknown"@,
    }
}

/// What comes of the creation of an interface: the interface, with the name under
/// which it is announced, wherever it was created, though its name could not be
/// read; else the error of the system, with the message that it is the cause of.
pub fn creation_outcome<D, E>(created: Result<D, E>, name: Option<String>) -> (outcome: Result<
    (D, String),
    (E, &'static str),
>)
    ensures
        match (created, outcome) {
            (Ok(device), Ok((kept, announced))) => kept == device && announced@ == announced_name(
                name,
            ),
            (Err(error), Err((cause, message))) => cause == error && message@
                == "failed to create TUN device"@,
            _ => false,
        },
{
    match created {
        Ok(device) => {
            let announced = match name {
                Some(name) => name,
                None => "unknown".to_owned(),
            };
            Ok((device, announced))
        },
        Err(error) => Err((error, "failed to create TUN device")),
    }
}

/// On Linux the interface has exactly the name that was asked for, or none where none
/// was, whatever else the configuration holds, and it is made by root.
pub proof fn linux_interface_has_the_asked_name(cfg: &TunConfig, settings: TunSettings)
    requires
        call_ensures(linux_settings, (cfg,), settings),
    ensures
        settings.layer is L3,
        settings.name is Some <==> cfg.name is Some,
        settings.name matches Some(name) ==> name@ == cfg.name->0@,
        settings.platform matches PlatformSettings::Linux { ensure_root_privileges }
            && ensure_root_privileges,
{
}

/// On Windows the interface has exactly the name that was asked for, and `usque-rs`
/// where none was.
pub proof fn windows_interface_has_the_asked_name(cfg: &TunConfig, name: String)
    requires
        call_ensures(windows_name, (cfg,), name),
    ensures
        cfg.name matches Some(asked) ==> name@ == asked@,
        cfg.name is None ==> name@ == "usque-rs"@,
{
}

/// The name on Windows depends on the name that was asked for alone: two
/// configurations that ask for the same one get the same one, and two that ask for
/// different ones get different ones.
pub proof fn windows_name_depends_on_the_asked_name_alone(
    a: &TunConfig,
    b: &TunConfig,
    first: String,
    second: String,
)
    requires
        call_ensures(windows_name, (a,), first),
        call_ensures(windows_name, (b,), second),
    ensures
        a.name is None && b.name is None ==> first@ == second@,
        a.name is Some && b.name is Some ==> (first@ == second@ <==> a.name->0@ == b.name->0@),
{
}

/// Whether the number is made of the sixteen bytes of a digest, the lowest first.
pub open spec fn is_made_of(guid: int, digest: Seq<u8>) -> bool {
    &&& digest.len() == 16
    &&& guid == digest[0]
        + 0x100 * digest[1]
        + 0x10000 * digest[2]
        + 0x1000000 * digest[3]
        + 0x100000000 * digest[4]
        + 0x10000000000 * digest[5]
        + 0x1000000000000 * digest[6]
        + 0x100000000000000 * digest[7]
        + 0x10000000000000000 * digest[8]
        + 0x1000000000000000000 * digest[9]
        + 0x100000000000000000000 * digest[10]
        + 0x10000000000000000000000 * digest[11]
        + 0x1000000000000000000000000 * digest[12]
        + 0x100000000000000000000000000 * digest[13]
        + 0x10000000000000000000000000000 * digest[14]
        + 0x1000000000000000000000000000000 * digest[15]
}

proof fn little_endian_is_made_of(digest: Seq<u8>)
    requires
        digest.len() == 16,
    ensures
        is_made_of(little_endian(digest) as int, digest),
{
    reveal_with_fuel(little_endian, 17);
}

/// The GUID of a digest is the number that its sixteen bytes make, and every digest
/// has one.
pub proof fn guid_is_made_of_the_digest(digest: &[u8], guid: u128)
    requires
        digest@.len() == 16,
        call_ensures(guid_from_digest, (digest,), guid),
    ensures
        call_requires(guid_from_digest, (digest,)),
        is_made_of(guid as int, digest@),
{
    little_endian_is_made_of(digest@);
}

/// On Windows the settings give the interface the name that was asked for, or
/// `usque-rs`, and the GUID of the digest, or none where there is no digest.
pub proof fn windows_settings_name_the_interface(
    cfg: &TunConfig,
    digest: Option<&[u8]>,
    settings: TunSettings,
)
    requires
        digest matches Some(digest) ==> digest@.len() == 16,
        call_ensures(windows_settings, (cfg, digest), settings),
    ensures
        call_requires(windows_settings, (cfg, digest)),
        settings.layer is L3,
        settings.name matches Some(name) && name@ == if cfg.name is Some {
            cfg.name->0@
        } else {
            "usque-rs"@
        },
        settings.platform matches PlatformSettings::Windows { wintun_file, device_guid }
            && wintun_file@ == "wintun.dll"@ && (device_guid is Some <==> digest is Some) && (
        device_guid matches Some(guid) ==> is_made_of(guid as int, digest->0@)),
{
    if let Some(digest) = digest {
        little_endian_is_made_of(digest@);
    }
}

/// An interface that was created is passed on as it is, under its own name or as
/// `unknown`; an error of the creation is passed on as it is, with its message.
pub proof fn creation_is_passed_on<D, E>(
    created: Result<D, E>,
    name: Option<String>,
    outcome: Result<(D, String), (E, &'static str)>,
)
    requires
        call_ensures(creation_outcome::<D, E>, (created, name), outcome),
    ensures
        outcome is Ok <==> created is Ok,
        outcome matches Ok((device, announced)) ==> created == Ok::<D, E>(device) && announced@
            == if name is Some {
            name->0@
        } else {
            "unknown"@
        },
        outcome matches Err((error, message)) ==> created == Err::<D, E>(error) && message@
            == "failed to create TUN device"@,
{
}

} // verus!
