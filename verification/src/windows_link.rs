//! Configuration of the TUN interface on Windows, over the IP helper.
//!
//! The calls of the IP helper are made outside; here is decided what is to be
//! done next, with which parameters, and how a failure is reported.
use crate::tun_device::TunConfig;
use vstd::prelude::*;

verus! {

/// An IP address, by its bytes in network order.
#[derive(Debug, Clone, Copy)]
pub enum IpAddress {
    V4([u8; 4]),
    V6([u8; 16]),
}

/// The address family of an entry.
#[derive(Debug, Clone, Copy, PartialEq, Eq, Structural)]
pub enum AddressFamily {
    Inet,
    Inet6,
}

/// An entry for one address of an interface.
#[derive(Debug, Clone, Copy)]
pub struct UnicastEntry {
    pub interface_index: u32,
    pub family: AddressFamily,
    pub address: IpAddress,
}

/// What is to be done next.
#[derive(Debug)]
pub enum AdapterAction<'a> {
    /// The index of the interface is to be read from the device.
    ReadIndex,
    /// The entry of the interface is to be read.
    ReadEntry { index: u32 },
    /// The entry is to be written back with this MTU.
    WriteEntry { index: u32, mtu: u32 },
    /// The address for IPv4 is to be read from its text.
    ParseV4 { index: u32, text: &'a String },
    /// The address for IPv4 is to be added to the interface.
    AddV4 { entry: UnicastEntry },
    /// The address for IPv6 is to be read from its text.
    ParseV6 { index: u32, text: &'a String },
    /// The address for IPv6 is to be added to the interface.
    AddV6 { entry: UnicastEntry },
    /// The interface is configured.
    Finished,
}

/// What came of the action.
#[derive(Debug)]
pub enum AdapterEvent {
    Failed,
    Index(i32),
    Address(IpAddress),
    /// The code that a call returned; zero says that it succeeded.
    Returned(u32),
}

/// Why the interface could not be configured.
#[derive(Debug, Clone, Copy, PartialEq, Eq, Structural)]
pub enum AdapterFailure {
    Index,
    ReadEntry,
    WriteEntry,
    InvalidV4,
    AddV4,
    InvalidV6,
    AddV6,
}

/// The index of an interface without a sign: its 32 bits as they are.
pub open spec fn unsigned_index(index: i32) -> u32 {
    if index >= 0 {
        index as u32
    } else {
        (index + 0x1_0000_0000) as u32
    }
}

/// The family to which an address belongs.
pub open spec fn family(address: IpAddress) -> AddressFamily {
    match address {
        IpAddress::V4(_) => AddressFamily::Inet,
        IpAddress::V6(_) => AddressFamily::Inet6,
    }
}

/// The entry that gives an interface an address.
pub open spec fn entry(index: u32, address: IpAddress) -> UnicastEntry {
    UnicastEntry { interface_index: index, family: family(address), address }
}

/// The entry that gives an interface an address.
pub fn unicast_entry(index: u32, address: IpAddress) -> (row: UnicastEntry)
    ensures
        row == entry(index, address),
{
    let family = match address {
        IpAddress::V4(_) => AddressFamily::Inet,
        IpAddress::V6(_) => AddressFamily::Inet6,
    };
    UnicastEntry { interface_index: index, family, address }
}

/// What is to be done once the address for IPv4, if any, is set.
pub open spec fn from_v6<'a>(cfg: &'a TunConfig, index: u32) -> AdapterAction<'a> {
    match &cfg.ipv6 {
        Some(text) => AdapterAction::ParseV6 { index, text },
        None => AdapterAction::Finished,
    }
}

/// What is to be done once the MTU is set.
pub open spec fn from_v4<'a>(cfg: &'a TunConfig, index: u32) -> AdapterAction<'a> {
    match &cfg.ipv4 {
        Some(text) => AdapterAction::ParseV4 { index, text },
        None => from_v6(cfg, index),
    }
}

impl<'a> AdapterAction<'a> {
    /// The failure of the action.
    pub open spec fn failure(self) -> AdapterFailure {
        match self {
            AdapterAction::ReadIndex => AdapterFailure::Index,
            AdapterAction::ReadEntry { .. } => AdapterFailure::ReadEntry,
            AdapterAction::WriteEntry { .. } => AdapterFailure::WriteEntry,
            AdapterAction::ParseV4 { .. } => AdapterFailure::InvalidV4,
            AdapterAction::AddV4 { .. } => AdapterFailure::AddV4,
            AdapterAction::ParseV6 { .. } => AdapterFailure::InvalidV6,
            _ => AdapterFailure::AddV6,
        }
    }

    /// What comes after the action, given what came of it. An event that is not one
    /// of the action's own counts as its failure.
    pub open spec fn after(self, cfg: &'a TunConfig, event: AdapterEvent) -> Result<
        AdapterAction<'a>,
        AdapterFailure,
    > {
        match (self, event) {
            (AdapterAction::ReadIndex, AdapterEvent::Index(index)) => Ok(
                AdapterAction::ReadEntry { index: unsigned_index(index) },
            ),
            (AdapterAction::ReadEntry { index }, AdapterEvent::Returned(0)) => Ok(
                AdapterAction::WriteEntry { index, mtu: cfg.mtu },
            ),
            (AdapterAction::WriteEntry { index, .. }, AdapterEvent::Returned(0)) => Ok(
                from_v4(cfg, index),
            ),
            (AdapterAction::ParseV4 { index, .. }, AdapterEvent::Address(address)) => Ok(
                AdapterAction::AddV4 { entry: entry(index, address) },
            ),
            (AdapterAction::AddV4 { entry }, AdapterEvent::Returned(0)) => Ok(
                from_v6(cfg, entry.interface_index),
            ),
            (AdapterAction::ParseV6 { index, .. }, AdapterEvent::Address(address)) => Ok(
                AdapterAction::AddV6 { entry: entry(index, address) },
            ),
            (AdapterAction::AddV6 { .. }, AdapterEvent::Returned(0)) => Ok(AdapterAction::Finished),
            _ => Err(self.failure()),
        }
    }

    /// Where the events lead, one after the other.
    pub open spec fn run(self, cfg: &'a TunConfig, events: Seq<AdapterEvent>) -> Result<
        AdapterAction<'a>,
        AdapterFailure,
    >
        decreases events.len(),
    {
        if events.len() == 0 {
            Ok(self)
        } else {
            match self.after(cfg, events[0]) {
                Ok(next) => next.run(cfg, events.drop_first()),
                Err(failure) => Err(failure),
            }
        }
    }

    /// The actions to which the events belong.
    pub open spec fn performed(self, cfg: &'a TunConfig, events: Seq<AdapterEvent>) -> Seq<
        AdapterAction<'a>,
    >
        decreases events.len(),
    {
        if events.len() == 0 {
            Seq::empty()
        } else {
            seq![self] + match self.after(cfg, events[0]) {
                Ok(next) => next.performed(cfg, events.drop_first()),
                Err(_) => Seq::empty(),
            }
        }
    }

    /// The first action.
    pub fn start() -> (first: AdapterAction<'a>)
        ensures
            first == AdapterAction::<'a>::ReadIndex,
    {
        AdapterAction::ReadIndex
    }

    /// What comes after the action, given what came of it.
    pub fn advance(self, cfg: &'a TunConfig, event: AdapterEvent) -> (next: Result<
        AdapterAction<'a>,
        AdapterFailure,
    >)
        ensures
            next == self.after(cfg, event),
    {
        match self {
            AdapterAction::ReadIndex => match event {
                AdapterEvent::Index(index) => {
                    proof {
                        assert(index < 0 ==> (index as u32) == index + 0x1_0000_0000)
                            by (bit_vector);
                    }
                    Ok(AdapterAction::ReadEntry { index: #[verifier::truncate] (index as u32) })
                },
                _ => Err(AdapterFailure::Index),
            },
            AdapterAction::ReadEntry { index } => match event {
                AdapterEvent::Returned(0) => Ok(AdapterAction::WriteEntry { index, mtu: cfg.mtu }),
                _ => Err(AdapterFailure::ReadEntry),
            },
            AdapterAction::WriteEntry { index, .. } => match event {
                AdapterEvent::Returned(0) => Ok(Self::next_v4(cfg, index)),
                _ => Err(AdapterFailure::WriteEntry),
            },
            AdapterAction::ParseV4 { index, .. } => match event {
                AdapterEvent::Address(address) => Ok(
                    AdapterAction::AddV4 { entry: unicast_entry(index, address) },
                ),
                _ => Err(AdapterFailure::InvalidV4),
            },
            AdapterAction::AddV4 { entry } => match event {
                AdapterEvent::Returned(0) => Ok(Self::next_v6(cfg, entry.interface_index)),
                _ => Err(AdapterFailure::AddV4),
            },
            AdapterAction::ParseV6 { index, .. } => match event {
                AdapterEvent::Address(address) => Ok(
                    AdapterAction::AddV6 { entry: unicast_entry(index, address) },
                ),
                _ => Err(AdapterFailure::InvalidV6),
            },
            AdapterAction::AddV6 { .. } => match event {
                AdapterEvent::Returned(0) => Ok(AdapterAction::Finished),
                _ => Err(AdapterFailure::AddV6),
            },
            AdapterAction::Finished => Err(AdapterFailure::AddV6),
        }
    }

    fn next_v4(cfg: &'a TunConfig, index: u32) -> (next: AdapterAction<'a>)
        ensures
            next == from_v4(cfg, index),
    {
        match &cfg.ipv4 {
            Some(text) => AdapterAction::ParseV4 { index, text },
            None => Self::next_v6(cfg, index),
        }
    }

    fn next_v6(cfg: &'a TunConfig, index: u32) -> (next: AdapterAction<'a>)
        ensures
            next == from_v6(cfg, index),
    {
        match &cfg.ipv6 {
            Some(text) => AdapterAction::ParseV6 { index, text },
            None => AdapterAction::Finished,
        }
    }
}

impl AdapterFailure {
    /// The message of the failure; there is none where the error of the device is
    /// passed on as it is.
    pub open spec fn text(self) -> Option<Seq<char>> {
        match self {
            AdapterFailure::Index => None,
            AdapterFailure::ReadEntry | AdapterFailure::WriteEntry => Some("failed to set MTU"@),
            AdapterFailure::InvalidV4 => Some("invalid IPv4 address in config"@),
            AdapterFailure::AddV4 => Some("failed to set IPv4 address"@),
            AdapterFailure::InvalidV6 => Some("invalid IPv6 address in config"@),
            AdapterFailure::AddV6 => Some("failed to set IPv6 address"@),
        }
    }

    /// The message of the failure; there is none where the error of the device is
    /// passed on as it is.
    pub fn message(self) -> (message: Option<&'static str>)
        ensures
            match self.text() {
                Some(text) => message matches Some(message) && message@ == text,
                None => message is None,
            },
    {
        match self {
            AdapterFailure::Index => None,
            AdapterFailure::ReadEntry | AdapterFailure::WriteEntry => Some("failed to set MTU"),
            AdapterFailure::InvalidV4 => Some("invalid IPv4 address in config"),
            AdapterFailure::AddV4 => Some("failed to set IPv4 address"),
            AdapterFailure::InvalidV6 => Some("invalid IPv6 address in config"),
            AdapterFailure::AddV6 => Some("failed to set IPv6 address"),
        }
    }

    /// The cause of the failure, where a call of the IP helper returned it.
    pub open spec fn cause_text(self) -> Option<Seq<char>> {
        match self {
            AdapterFailure::ReadEntry => Some("failed to get interface entry"@),
            AdapterFailure::WriteEntry => Some("failed to set interface entry"@),
            AdapterFailure::AddV4 | AdapterFailure::AddV6 => Some(
                "failed to create unicast IP address entry"@,
            ),
            _ => None,
        }
    }

    /// The cause of the failure, where a call of the IP helper returned it.
    pub fn cause(self) -> (cause: Option<&'static str>)
        ensures
            match self.cause_text() {
                Some(text) => cause matches Some(cause) && cause@ == text,
                None => cause is None,
            },
    {
        match self {
            AdapterFailure::ReadEntry => Some("failed to get interface entry"),
            AdapterFailure::WriteEntry => Some("failed to set interface entry"),
            AdapterFailure::AddV4 | AdapterFailure::AddV6 => Some(
                "failed to create unicast IP address entry",
            ),
            _ => None,
        }
    }
}

/// What the system answers in the course of a configuration.
pub struct AdapterReplies {
    pub index: i32,
    pub v4: IpAddress,
    pub v6: IpAddress,
}

/// The actions of a whole configuration: the entry of the interface is read and
/// written back with the MTU; then come the addresses that the configuration
/// has, the one for IPv4 before the one for IPv6.
pub open spec fn whole_configuration<'a>(cfg: &'a TunConfig, replies: AdapterReplies) -> Seq<
    AdapterAction<'a>,
> {
    let index = (replies.index as int % 0x1_0000_0000) as u32;
    seq![
        AdapterAction::ReadIndex,
        AdapterAction::ReadEntry { index },
        AdapterAction::WriteEntry { index, mtu: cfg.mtu },
    ] + (match &cfg.ipv4 {
        Some(text) => seq![
            AdapterAction::ParseV4 { index, text },
            AdapterAction::AddV4 {
                entry: UnicastEntry {
                    interface_index: index,
                    family: if replies.v4 is V4 {
                        AddressFamily::Inet
                    } else {
                        AddressFamily::Inet6
                    },
                    address: replies.v4,
                },
            },
        ],
        None => Seq::empty(),
    }) + (match &cfg.ipv6 {
        Some(text) => seq![
            AdapterAction::ParseV6 { index, text },
            AdapterAction::AddV6 {
                entry: UnicastEntry {
                    interface_index: index,
                    family: if replies.v6 is V4 {
                        AddressFamily::Inet
                    } else {
                        AddressFamily::Inet6
                    },
                    address: replies.v6,
                },
            },
        ],
        None => Seq::empty(),
    })
}

/// An interface is configured only by the actions of a whole configuration, in
/// their order.
pub proof fn configured_by_all_actions(cfg: &TunConfig, events: Seq<AdapterEvent>)
    requires
        AdapterAction::ReadIndex.run(cfg, events) == Ok::<AdapterAction, AdapterFailure>(
            AdapterAction::Finished,
        ),
    ensures
        exists|replies: AdapterReplies|
            AdapterAction::ReadIndex.performed(cfg, events) == #[trigger] whole_configuration(
                cfg,
                replies,
            ),
{
    reveal_with_fuel(AdapterAction::run, 9);
    reveal_with_fuel(AdapterAction::performed, 9);
    let after_v4 = if cfg.ipv4 is Some { 5int } else { 3int };
    let replies = AdapterReplies {
        index: events[0]->Index_0,
        v4: events[3]->Address_0,
        v6: events[after_v4]->Address_0,
    };
    assert(AdapterAction::ReadIndex.performed(cfg, events) =~= whole_configuration(cfg, replies));
}

/// The answers of the system in a configuration in which nothing fails.
pub open spec fn successful_events(cfg: &TunConfig, replies: AdapterReplies) -> Seq<AdapterEvent> {
    let done = AdapterEvent::Returned(0);
    seq![AdapterEvent::Index(replies.index), done, done] + (if cfg.ipv4 is Some {
        seq![AdapterEvent::Address(replies.v4), done]
    } else {
        Seq::empty()
    }) + (if cfg.ipv6 is Some {
        seq![AdapterEvent::Address(replies.v6), done]
    } else {
        Seq::empty()
    })
}

/// Where nothing fails, the interface is configured by the actions of a whole
/// configuration.
pub proof fn success_configures(cfg: &TunConfig, replies: AdapterReplies)
    ensures
        AdapterAction::ReadIndex.run(cfg, successful_events(cfg, replies)) == Ok::<
            AdapterAction,
            AdapterFailure,
        >(AdapterAction::Finished),
        AdapterAction::ReadIndex.performed(cfg, successful_events(cfg, replies))
            == whole_configuration(cfg, replies),
{
    reveal_with_fuel(AdapterAction::run, 9);
    reveal_with_fuel(AdapterAction::performed, 9);
    assert(AdapterAction::ReadIndex.performed(cfg, successful_events(cfg, replies))
        =~= whole_configuration(cfg, replies));
}

/// Where the configuration fails, what was done up to then is the start of a whole
/// configuration, and it ends at the action that failed, which the failure names:
/// nothing is done after it, and nothing before it is left out.
pub proof fn failure_leaves_a_prefix(cfg: &TunConfig, events: Seq<AdapterEvent>)
    requires
        AdapterAction::ReadIndex.run(cfg, events) is Err,
        AdapterAction::ReadIndex.performed(cfg, events).last() !is Finished,
    ensures
        ({
            let performed = AdapterAction::ReadIndex.performed(cfg, events);
            let failure = AdapterAction::ReadIndex.run(cfg, events)->Err_0;
            &&& performed.len() > 0
            &&& exists|replies: AdapterReplies|
                performed.is_prefix_of(#[trigger] whole_configuration(cfg, replies))
            &&& failure == performed.last().failure()
        }),
{
    performed_is_a_chain(AdapterAction::ReadIndex, cfg, events);
    let performed = AdapterAction::ReadIndex.performed(cfg, events);
    let after_v4 = if cfg.ipv4 is Some { 5int } else { 3int };
    let replies = AdapterReplies {
        index: events[0]->Index_0,
        v4: events[3]->Address_0,
        v6: events[after_v4]->Address_0,
    };
    let whole = whole_configuration(cfg, replies);
    assert forall|i: int| 0 <= i < performed.len() && i < whole.len() implies performed[i]
        == whole[i] by {
        assert(performed[0] == whole[0]);
        assert(performed.len() > 1 ==> performed[1] == whole[1]);
        assert(performed.len() > 2 ==> performed[2] == whole[2]);
        assert(performed.len() > 3 && whole.len() > 3 ==> performed[3] == whole[3]);
        assert(performed.len() > 4 && whole.len() > 4 ==> performed[4] == whole[4]);
        assert(performed.len() > 5 && whole.len() > 5 ==> performed[5] == whole[5]);
        assert(performed.len() > 6 && whole.len() > 6 ==> performed[6] == whole[6]);
    }
    if performed.len() > whole.len() {
        assert(performed[whole.len() - 1] == whole.last());
        assert(performed[whole.len() as int] is Finished);
    }
    assert(performed.is_prefix_of(whole));
}

/// Each action that was performed came of the one before it, and the last one of a
/// configuration that failed is the one that failed.
proof fn performed_is_a_chain<'a>(
    action: AdapterAction<'a>,
    cfg: &'a TunConfig,
    events: Seq<AdapterEvent>,
)
    ensures
        ({
            let performed = action.performed(cfg, events);
            &&& performed.len() <= events.len()
            &&& performed.len() > 0 ==> performed[0] == action
            &&& forall|i: int|
                0 <= i < performed.len() - 1 ==> (#[trigger] performed[i]).after(cfg, events[i])
                    == Ok::<AdapterAction, AdapterFailure>(performed[i + 1])
            &&& action.run(cfg, events) matches Err(failure) ==> performed.len() > 0
                && performed.last().after(cfg, events[performed.len() - 1]) == Err::<
                AdapterAction,
                AdapterFailure,
            >(failure)
        }),
    decreases events.len(),
{
    if events.len() > 0 {
        if let Ok(next) = action.after(cfg, events[0]) {
            let rest = events.drop_first();
            performed_is_a_chain(next, cfg, rest);
            let performed = action.performed(cfg, events);
            let later = next.performed(cfg, rest);
            assert(performed == seq![action] + later);
            assert forall|i: int| 0 <= i < performed.len() - 1 implies (
            #[trigger] performed[i]).after(cfg, events[i]) == Ok::<AdapterAction, AdapterFailure>(
                performed[i + 1],
            ) by {
                if i > 0 {
                    assert(performed[i] == later[i - 1]);
                    assert(events[i] == rest[i - 1]);
                }
            }
        }
    }
}

/// The entry of an address is for the interface that was given, and holds the very
/// address that was given, byte for byte, under the family that it is of.
pub proof fn entry_holds_its_address(index: u32, address: IpAddress, row: UnicastEntry)
    requires
        call_ensures(unicast_entry, (index, address), row),
    ensures
        row.interface_index == index,
        row.address == address,
        row.address matches IpAddress::V4(bytes) ==> address matches IpAddress::V4(given) && bytes@
            == given@,
        row.address matches IpAddress::V6(bytes) ==> address matches IpAddress::V6(given) && bytes@
            == given@,
        row.family is Inet <==> address is V4,
        row.family is Inet6 <==> address is V6,
{
}

/// Two entries are the same only for the same interface and the same address.
pub proof fn entries_differ_as_their_addresses(
    a: (u32, IpAddress),
    b: (u32, IpAddress),
    first: UnicastEntry,
    second: UnicastEntry,
)
    requires
        call_ensures(unicast_entry, a, first),
        call_ensures(unicast_entry, b, second),
    ensures
        first == second <==> a == b,
{
}

/// Whether the event says that the action was done: each action has a success of its
/// own kind, and a call is done where it returned zero.
pub open spec fn is_success_of(action: AdapterAction, event: AdapterEvent) -> bool {
    match event {
        AdapterEvent::Failed => false,
        AdapterEvent::Index(_) => action is ReadIndex,
        AdapterEvent::Address(_) => action is ParseV4 || action is ParseV6,
        AdapterEvent::Returned(code) => code == 0 && (action is ReadEntry || action is WriteEntry
            || action is AddV4 || action is AddV6),
    }
}

/// The configuration goes on exactly where the action was done. Every failed action
/// and every code but zero ends it, whatever is configured and whatever was done
/// before.
pub proof fn only_success_goes_on<'a>(
    action: AdapterAction<'a>,
    cfg: &'a TunConfig,
    event: AdapterEvent,
    next: Result<AdapterAction<'a>, AdapterFailure>,
)
    requires
        call_ensures(AdapterAction::advance, (action, cfg, event), next),
    ensures
        call_requires(AdapterAction::advance, (action, cfg, event)),
        next is Ok <==> is_success_of(action, event),
        event is Failed ==> next is Err,
{
}

/// The failure names the action that failed, whatever its parameters and the
/// configuration are.
pub proof fn failure_names_its_action<'a>(
    action: AdapterAction<'a>,
    cfg: &'a TunConfig,
    event: AdapterEvent,
    failure: AdapterFailure,
)
    requires
        call_ensures(AdapterAction::advance, (action, cfg, event), Err(failure)),
    ensures
        failure is Index <==> action is ReadIndex,
        failure is ReadEntry <==> action is ReadEntry,
        failure is WriteEntry <==> action is WriteEntry,
        failure is InvalidV4 <==> action is ParseV4,
        failure is AddV4 <==> action is AddV4,
        failure is InvalidV6 <==> action is ParseV6,
        failure is AddV6 <==> action is AddV6 || action is Finished,
{
}

/// The index of the interface that an action is for, where it is for one.
pub open spec fn interface_of(action: AdapterAction) -> Option<u32> {
    match action {
        AdapterAction::ReadEntry { index }
        | AdapterAction::WriteEntry { index, .. }
        | AdapterAction::ParseV4 { index, .. }
        | AdapterAction::ParseV6 { index, .. } => Some(index),
        AdapterAction::AddV4 { entry } | AdapterAction::AddV6 { entry } => Some(
            entry.interface_index,
        ),
        _ => None,
    }
}

/// Every action that follows is for the interface of the device, by the 32 bits of its
/// index, and is done with what was read: an address is added by the very bytes that
/// were read from its text, under its family, and the MTU and the texts are those of
/// the configuration.
pub proof fn actions_work_on_what_was_read<'a>(
    action: AdapterAction<'a>,
    cfg: &'a TunConfig,
    event: AdapterEvent,
    next: AdapterAction<'a>,
)
    requires
        call_ensures(AdapterAction::advance, (action, cfg, event), Ok(next)),
    ensures
        event matches AdapterEvent::Index(read) ==> (
        next matches AdapterAction::ReadEntry { index } && (index - read) % 0x1_0000_0000 == 0),
        next matches AdapterAction::WriteEntry { mtu, .. } ==> mtu == cfg.mtu,
        event matches AdapterEvent::Address(read) ==> {
            let entry = if action is ParseV4 {
                next->AddV4_entry
            } else {
                next->AddV6_entry
            };
            &&& entry.address == read
            &&& entry.family is Inet <==> read is V4
            &&& entry.family is Inet6 <==> read is V6
        },
        next matches AdapterAction::ParseV4 { text, .. } ==> cfg.ipv4 is Some && text@
            == cfg.ipv4->0@,
        next matches AdapterAction::ParseV6 { text, .. } ==> cfg.ipv6 is Some && text@
            == cfg.ipv6->0@,
        interface_of(action) is Some && next !is Finished ==> interface_of(next) == interface_of(
            action,
        ),
{
}

/// No address that is configured is left out and none is added that is not: the one
/// for IPv4 comes right after the MTU, the one for IPv6 after that, and the
/// configuration ends once both are there.
pub proof fn configured_addresses_come_in_order<'a>(
    action: AdapterAction<'a>,
    cfg: &'a TunConfig,
    event: AdapterEvent,
    next: AdapterAction<'a>,
)
    requires
        call_ensures(AdapterAction::advance, (action, cfg, event), Ok(next)),
    ensures
        next is ReadEntry <==> action is ReadIndex,
        next is WriteEntry <==> action is ReadEntry,
        next is ParseV4 <==> action is WriteEntry && cfg.ipv4 is Some,
        next is ParseV6 <==> cfg.ipv6 is Some && (action is AddV4 || action is WriteEntry
            && cfg.ipv4 is None),
        next is Finished <==> action is AddV6 || cfg.ipv6 is None && (action is AddV4
            || action is WriteEntry && cfg.ipv4 is None),
        next is AddV4 <==> action is ParseV4,
        next is AddV6 <==> action is ParseV6,
{
}

/// A configuration ends well exactly where every one of its actions was done: its
/// events are the successes of a whole configuration, and no others.
pub proof fn finished_exactly_by_success(cfg: &TunConfig, events: Seq<AdapterEvent>)
    ensures
        AdapterAction::ReadIndex.run(cfg, events) == Ok::<AdapterAction, AdapterFailure>(
            AdapterAction::Finished,
        ) <==> exists|replies: AdapterReplies|
            events == #[trigger] successful_events(cfg, replies),
{
    if exists|replies: AdapterReplies| events == #[trigger] successful_events(cfg, replies) {
        let replies = choose|replies: AdapterReplies|
            events == #[trigger] successful_events(cfg, replies);
        success_configures(cfg, replies);
    }
    if AdapterAction::ReadIndex.run(cfg, events) == Ok::<AdapterAction, AdapterFailure>(
        AdapterAction::Finished,
    ) {
        reveal_with_fuel(AdapterAction::run, 9);
        let after_v4 = if cfg.ipv4 is Some { 5int } else { 3int };
        let replies = AdapterReplies {
            index: events[0]->Index_0,
            v4: events[3]->Address_0,
            v6: events[after_v4]->Address_0,
        };
        assert(events =~= successful_events(cfg, replies));
    }
}

} // verus!
