//! Configuration of the TUN interface on Linux, over netlink.
//!
//! The netlink requests are made outside; here is decided what is to be done
//! next, with which parameters, and how a failure is reported.
use crate::tun_device::TunConfig;
use vstd::prelude::*;

verus! {

/// What is to be done next.
#[derive(Debug)]
pub enum LinkAction<'a> {
    /// The name of the interface is to be read from the device.
    ReadName,
    /// A netlink connection is to be opened.
    Connect { name: String },
    /// The link of this name is to be looked up.
    FindLink { name: String },
    /// The MTU of the link is to be set.
    SetMtu { index: u32, mtu: u32 },
    /// The IPv4 address is to be read from its text.
    ParseV4 { index: u32, text: &'a String },
    /// The IPv4 address is to be added to the link.
    AddV4 { index: u32, v4: [u8; 4], prefix: u8 },
    /// The IPv6 address is to be read from its text.
    ParseV6 { index: u32, text: &'a String },
    /// The IPv6 address is to be added to the link.
    AddV6 { index: u32, v6: [u8; 16], prefix: u8 },
    /// The link is to be brought up.
    BringUp { index: u32 },
    /// The interface is configured.
    Finished,
}

/// What came of the action.
#[derive(Debug)]
pub enum LinkEvent {
    Done,
    Failed,
    Name(String),
    /// The index of the link that was found, or none.
    Link(Option<u32>),
    V4([u8; 4]),
    V6([u8; 16]),
}

/// Why the interface could not be configured.
#[derive(Debug, Clone, Copy, PartialEq, Eq, Structural)]
pub enum LinkFailure {
    Name,
    Connection,
    Query,
    NotFound,
    Mtu,
    InvalidV4,
    AddV4,
    InvalidV6,
    AddV6,
    Up,
}

/// What is to be done once the IPv4 address, if any, is set.
pub open spec fn from_v6<'a>(cfg: &'a TunConfig, index: u32) -> LinkAction<'a> {
    match &cfg.ipv6 {
        Some(text) => LinkAction::ParseV6 { index, text },
        None => LinkAction::BringUp { index },
    }
}

/// What is to be done once the MTU is set.
pub open spec fn from_v4<'a>(cfg: &'a TunConfig, index: u32) -> LinkAction<'a> {
    match &cfg.ipv4 {
        Some(text) => LinkAction::ParseV4 { index, text },
        None => from_v6(cfg, index),
    }
}

impl<'a> LinkAction<'a> {
    /// The failure of the action.
    pub open spec fn failure(self) -> LinkFailure {
        match self {
            LinkAction::ReadName => LinkFailure::Name,
            LinkAction::Connect { .. } => LinkFailure::Connection,
            LinkAction::FindLink { .. } => LinkFailure::Query,
            LinkAction::SetMtu { .. } => LinkFailure::Mtu,
            LinkAction::ParseV4 { .. } => LinkFailure::InvalidV4,
            LinkAction::AddV4 { .. } => LinkFailure::AddV4,
            LinkAction::ParseV6 { .. } => LinkFailure::InvalidV6,
            LinkAction::AddV6 { .. } => LinkFailure::AddV6,
            _ => LinkFailure::Up,
        }
    }

    /// What comes after the action, given what came of it. An event that is not one
    /// of the action's own counts as its failure.
    pub open spec fn after(self, cfg: &'a TunConfig, event: LinkEvent) -> Result<
        LinkAction<'a>,
        LinkFailure,
    > {
        match (self, event) {
            (LinkAction::ReadName, LinkEvent::Name(name)) => Ok(LinkAction::Connect { name }),
            (LinkAction::Connect { name }, LinkEvent::Done) => Ok(LinkAction::FindLink { name }),
            (LinkAction::FindLink { .. }, LinkEvent::Link(Some(index))) => Ok(
                LinkAction::SetMtu { index, mtu: cfg.mtu },
            ),
            (LinkAction::FindLink { .. }, LinkEvent::Link(None)) => Err(LinkFailure::NotFound),
            (LinkAction::SetMtu { index, .. }, LinkEvent::Done) => Ok(from_v4(cfg, index)),
            (LinkAction::ParseV4 { index, .. }, LinkEvent::V4(v4)) => Ok(
                LinkAction::AddV4 { index, v4, prefix: 32 },
            ),
            (LinkAction::AddV4 { index, .. }, LinkEvent::Done) => Ok(from_v6(cfg, index)),
            (LinkAction::ParseV6 { index, .. }, LinkEvent::V6(v6)) => Ok(
                LinkAction::AddV6 { index, v6, prefix: 128 },
            ),
            (LinkAction::AddV6 { index, .. }, LinkEvent::Done) => Ok(LinkAction::BringUp { index }),
            (LinkAction::BringUp { .. }, LinkEvent::Done) => Ok(LinkAction::Finished),
            _ => Err(self.failure()),
        }
    }

    /// Where the events lead, one after the other.
    pub open spec fn run(self, cfg: &'a TunConfig, events: Seq<LinkEvent>) -> Result<
        LinkAction<'a>,
        LinkFailure,
    >
        decreases events.len(),
    {
        if events.len() == 0 {
            Ok(self)
        } else {
            match self.after(cfg, events[0]) {
                Ok(next) => next.run(cfg, events.drop_first()),
                Err(failure) => Err(failure),
            }
        }
    }

    /// The actions to which the events belong.
    pub open spec fn performed(self, cfg: &'a TunConfig, events: Seq<LinkEvent>) -> Seq<
        LinkAction<'a>,
    >
        decreases events.len(),
    {
        if events.len() == 0 {
            Seq::empty()
        } else {
            seq![self] + match self.after(cfg, events[0]) {
                Ok(next) => next.performed(cfg, events.drop_first()),
                Err(_) => Seq::empty(),
            }
        }
    }

    /// The first action.
    pub fn start() -> (first: LinkAction<'a>)
        ensures
            first == LinkAction::<'a>::ReadName,
    {
        LinkAction::ReadName
    }

    /// What comes after the action, given what came of it.
    pub fn advance(self, cfg: &'a TunConfig, event: LinkEvent) -> (next: Result<
        LinkAction<'a>,
        LinkFailure,
    >)
        ensures
            next == self.after(cfg, event),
    {
        match self {
            LinkAction::ReadName => match event {
                LinkEvent::Name(name) => Ok(LinkAction::Connect { name }),
                _ => Err(LinkFailure::Name),
            },
            LinkAction::Connect { name } => match event {
                LinkEvent::Done => Ok(LinkAction::FindLink { name }),
                _ => Err(LinkFailure::Connection),
            },
            LinkAction::FindLink { .. } => match event {
                LinkEvent::Link(Some(index)) => Ok(LinkAction::SetMtu { index, mtu: cfg.mtu }),
                LinkEvent::Link(None) => Err(LinkFailure::NotFound),
                _ => Err(LinkFailure::Query),
            },
            LinkAction::SetMtu { index, .. } => match event {
                LinkEvent::Done => Ok(Self::next_v4(cfg, index)),
                _ => Err(LinkFailure::Mtu),
            },
            LinkAction::ParseV4 { index, .. } => match event {
                LinkEvent::V4(v4) => Ok(LinkAction::AddV4 { index, v4, prefix: 32 }),
                _ => Err(LinkFailure::InvalidV4),
            },
            LinkAction::AddV4 { index, .. } => match event {
                LinkEvent::Done => Ok(Self::next_v6(cfg, index)),
                _ => Err(LinkFailure::AddV4),
            },
            LinkAction::ParseV6 { index, .. } => match event {
                LinkEvent::V6(v6) => Ok(LinkAction::AddV6 { index, v6, prefix: 128 }),
                _ => Err(LinkFailure::InvalidV6),
            },
            LinkAction::AddV6 { index, .. } => match event {
                LinkEvent::Done => Ok(LinkAction::BringUp { index }),
                _ => Err(LinkFailure::AddV6),
            },
            LinkAction::BringUp { .. } => match event {
                LinkEvent::Done => Ok(LinkAction::Finished),
                _ => Err(LinkFailure::Up),
            },
            LinkAction::Finished => Err(LinkFailure::Up),
        }
    }

    fn next_v4(cfg: &'a TunConfig, index: u32) -> (next: LinkAction<'a>)
        ensures
            next == from_v4(cfg, index),
    {
        match &cfg.ipv4 {
            Some(text) => LinkAction::ParseV4 { index, text },
            None => Self::next_v6(cfg, index),
        }
    }

    fn next_v6(cfg: &'a TunConfig, index: u32) -> (next: LinkAction<'a>)
        ensures
            next == from_v6(cfg, index),
    {
        match &cfg.ipv6 {
            Some(text) => LinkAction::ParseV6 { index, text },
            None => LinkAction::BringUp { index },
        }
    }
}

impl LinkFailure {
    /// The message of the failure.
    pub open spec fn text(self) -> Seq<char> {
        match self {
            LinkFailure::Name => "failed to get TUN device name"@,
            LinkFailure::Connection => "failed to create netlink connection"@,
            LinkFailure::Query => "failed to query link"@,
            LinkFailure::NotFound => "TUN device not found via netlink"@,
            LinkFailure::Mtu => "failed to set MTU"@,
            LinkFailure::InvalidV4 => "invalid IPv4 address in config"@,
            LinkFailure::AddV4 => "failed to add IPv4 address"@,
            LinkFailure::InvalidV6 => "invalid IPv6 address in config"@,
            LinkFailure::AddV6 => "failed to add IPv6 address"@,
            LinkFailure::Up => "failed to bring link up"@,
        }
    }

    /// The message of the failure.
    pub fn message(self) -> (message: &'static str)
        ensures
            message@ == self.text(),
    {
        match self {
            LinkFailure::Name => "failed to get TUN device name",
            LinkFailure::Connection => "failed to create netlink connection",
            LinkFailure::Query => "failed to query link",
            LinkFailure::NotFound => "TUN device not found via netlink",
            LinkFailure::Mtu => "failed to set MTU",
            LinkFailure::InvalidV4 => "invalid IPv4 address in config",
            LinkFailure::AddV4 => "failed to add IPv4 address",
            LinkFailure::InvalidV6 => "invalid IPv6 address in config",
            LinkFailure::AddV6 => "failed to add IPv6 address",
            LinkFailure::Up => "failed to bring link up",
        }
    }
}

/// What the system answers in the course of a configuration.
pub struct LinkReplies {
    pub name: String,
    pub index: u32,
    pub v4: [u8; 4],
    pub v6: [u8; 16],
}

/// The actions of a whole configuration: the link of the device is looked up and
/// its MTU set; then come the addresses that the configuration has, IPv4 before
/// IPv6, each as the address of a single host; at last the link is brought up.
pub open spec fn whole_configuration<'a>(cfg: &'a TunConfig, replies: LinkReplies) -> Seq<
    LinkAction<'a>,
> {
    let index = replies.index;
    seq![
        LinkAction::ReadName,
        LinkAction::Connect { name: replies.name },
        LinkAction::FindLink { name: replies.name },
        LinkAction::SetMtu { index, mtu: cfg.mtu },
    ] + (match &cfg.ipv4 {
        Some(text) => seq![
            LinkAction::ParseV4 { index, text },
            LinkAction::AddV4 { index, v4: replies.v4, prefix: 32 },
        ],
        None => Seq::empty(),
    }) + (match &cfg.ipv6 {
        Some(text) => seq![
            LinkAction::ParseV6 { index, text },
            LinkAction::AddV6 { index, v6: replies.v6, prefix: 128 },
        ],
        None => Seq::empty(),
    }) + seq![LinkAction::BringUp { index }]
}

/// An interface is configured only by the actions of a whole configuration, in
/// their order.
pub proof fn configured_by_all_actions(cfg: &TunConfig, events: Seq<LinkEvent>)
    requires
        LinkAction::ReadName.run(cfg, events) == Ok::<LinkAction, LinkFailure>(
            LinkAction::Finished,
        ),
    ensures
        exists|replies: LinkReplies|
            LinkAction::ReadName.performed(cfg, events) == #[trigger] whole_configuration(
                cfg,
                replies,
            ),
{
    reveal_with_fuel(LinkAction::run, 11);
    reveal_with_fuel(LinkAction::performed, 11);
    let after_v4 = if cfg.ipv4 is Some { 6int } else { 4int };
    let replies = LinkReplies {
        name: events[0]->Name_0,
        index: events[2]->Link_0->Some_0,
        v4: events[4]->V4_0,
        v6: events[after_v4]->V6_0,
    };
    assert(LinkAction::ReadName.performed(cfg, events) =~= whole_configuration(cfg, replies));
}

/// The answers of the system in a configuration in which nothing fails.
pub open spec fn successful_events(cfg: &TunConfig, replies: LinkReplies) -> Seq<LinkEvent> {
    seq![
        LinkEvent::Name(replies.name),
        LinkEvent::Done,
        LinkEvent::Link(Some(replies.index)),
        LinkEvent::Done,
    ] + (if cfg.ipv4 is Some {
        seq![LinkEvent::V4(replies.v4), LinkEvent::Done]
    } else {
        Seq::empty()
    }) + (if cfg.ipv6 is Some {
        seq![LinkEvent::V6(replies.v6), LinkEvent::Done]
    } else {
        Seq::empty()
    }) + seq![LinkEvent::Done]
}

/// Where nothing fails, the interface is configured by the actions of a whole
/// configuration.
pub proof fn success_configures(cfg: &TunConfig, replies: LinkReplies)
    ensures
        LinkAction::ReadName.run(cfg, successful_events(cfg, replies)) == Ok::<
            LinkAction,
            LinkFailure,
        >(LinkAction::Finished),
        LinkAction::ReadName.performed(cfg, successful_events(cfg, replies))
            == whole_configuration(cfg, replies),
{
    reveal_with_fuel(LinkAction::run, 11);
    reveal_with_fuel(LinkAction::performed, 11);
    assert(LinkAction::ReadName.performed(cfg, successful_events(cfg, replies))
        =~= whole_configuration(cfg, replies));
}

/// Where the configuration fails, what was done up to then is the start of a whole
/// configuration, and it ends at the action that failed, which the failure names:
/// nothing is done after it, and nothing before it is left out.
pub proof fn failure_leaves_a_prefix(cfg: &TunConfig, events: Seq<LinkEvent>)
    requires
        LinkAction::ReadName.run(cfg, events) is Err,
        LinkAction::ReadName.performed(cfg, events).last() !is Finished,
    ensures
        ({
            let performed = LinkAction::ReadName.performed(cfg, events);
            let failure = LinkAction::ReadName.run(cfg, events)->Err_0;
            &&& performed.len() > 0
            &&& exists|replies: LinkReplies|
                performed.is_prefix_of(#[trigger] whole_configuration(cfg, replies))
            &&& failure == performed.last().failure() || (failure == LinkFailure::NotFound
                && performed.last() is FindLink)
        }),
{
    performed_is_a_chain(LinkAction::ReadName, cfg, events);
    let performed = LinkAction::ReadName.performed(cfg, events);
    let after_v4 = if cfg.ipv4 is Some { 6int } else { 4int };
    let replies = LinkReplies {
        name: events[0]->Name_0,
        index: events[2]->Link_0->Some_0,
        v4: events[4]->V4_0,
        v6: events[after_v4]->V6_0,
    };
    let whole = whole_configuration(cfg, replies);
    assert forall|i: int| 0 <= i < performed.len() && i < whole.len() implies performed[i]
        == whole[i] by {
        assert(performed[0] == whole[0]);
        assert(performed.len() > 1 ==> performed[1] == whole[1]);
        assert(performed.len() > 2 ==> performed[2] == whole[2]);
        assert(performed.len() > 3 ==> performed[3] == whole[3]);
        assert(performed.len() > 4 ==> performed[4] == whole[4]);
        assert(performed.len() > 5 && whole.len() > 5 ==> performed[5] == whole[5]);
        assert(performed.len() > 6 && whole.len() > 6 ==> performed[6] == whole[6]);
        assert(performed.len() > 7 && whole.len() > 7 ==> performed[7] == whole[7]);
        assert(performed.len() > 8 && whole.len() > 8 ==> performed[8] == whole[8]);
    }
    if performed.len() > whole.len() {
        assert(performed[whole.len() - 1] == whole.last());
        assert(performed[whole.len() as int] is Finished);
    }
    assert(performed.is_prefix_of(whole));
}

/// Each action that was performed came of the one before it, and the last one of a
/// configuration that failed is the one that failed.
proof fn performed_is_a_chain<'a>(
    action: LinkAction<'a>,
    cfg: &'a TunConfig,
    events: Seq<LinkEvent>,
)
    ensures
        ({
            let performed = action.performed(cfg, events);
            &&& performed.len() <= events.len()
            &&& performed.len() > 0 ==> performed[0] == action
            &&& forall|i: int|
                0 <= i < performed.len() - 1 ==> (#[trigger] performed[i]).after(cfg, events[i])
                    == Ok::<LinkAction, LinkFailure>(performed[i + 1])
            &&& action.run(cfg, events) matches Err(failure) ==> performed.len() > 0
                && performed.last().after(cfg, events[performed.len() - 1]) == Err::<
                LinkAction,
                LinkFailure,
            >(failure)
        }),
    decreases events.len(),
{
    if events.len() > 0 {
        if let Ok(next) = action.after(cfg, events[0]) {
            let rest = events.drop_first();
            performed_is_a_chain(next, cfg, rest);
            let performed = action.performed(cfg, events);
            let later = next.performed(cfg, rest);
            assert(performed == seq![action] + later);
            assert forall|i: int| 0 <= i < performed.len() - 1 implies (
            #[trigger] performed[i]).after(cfg, events[i]) == Ok::<LinkAction, LinkFailure>(
                performed[i + 1],
            ) by {
                if i > 0 {
                    assert(performed[i] == later[i - 1]);
                    assert(events[i] == rest[i - 1]);
                }
            }
        }
    }
}

/// Whether the event says that the action was done: each action has a success of its
/// own kind.
pub open spec fn is_success_of(action: LinkAction, event: LinkEvent) -> bool {
    match event {
        LinkEvent::Failed => false,
        LinkEvent::Name(_) => action is ReadName,
        LinkEvent::Link(found) => action is FindLink && found is Some,
        LinkEvent::V4(_) => action is ParseV4,
        LinkEvent::V6(_) => action is ParseV6,
        LinkEvent::Done => action is Connect || action is SetMtu || action is AddV4
            || action is AddV6 || action is BringUp,
    }
}

/// The configuration goes on exactly where the action was done. Every failed action
/// ends it, whatever is configured and whatever was done before.
pub proof fn only_success_goes_on<'a>(
    action: LinkAction<'a>,
    cfg: &'a TunConfig,
    event: LinkEvent,
    next: Result<LinkAction<'a>, LinkFailure>,
)
    requires
        call_ensures(LinkAction::advance, (action, cfg, event), next),
    ensures
        call_requires(LinkAction::advance, (action, cfg, event)),
        next is Ok <==> is_success_of(action, event),
        event is Failed ==> next is Err,
{
}

/// The failure names the action that failed, whatever its parameters and the
/// configuration are. A link that is not there is told from one that could not be
/// looked up.
pub proof fn failure_names_its_action<'a>(
    action: LinkAction<'a>,
    cfg: &'a TunConfig,
    event: LinkEvent,
    failure: LinkFailure,
)
    requires
        call_ensures(LinkAction::advance, (action, cfg, event), Err(failure)),
    ensures
        failure is Name <==> action is ReadName,
        failure is Connection <==> action is Connect,
        failure is NotFound <==> action is FindLink && event is Link,
        failure is Query <==> action is FindLink && event !is Link,
        failure is Mtu <==> action is SetMtu,
        failure is InvalidV4 <==> action is ParseV4,
        failure is AddV4 <==> action is AddV4,
        failure is InvalidV6 <==> action is ParseV6,
        failure is AddV6 <==> action is AddV6,
        failure is Up <==> action is BringUp || action is Finished,
{
}

/// The index of the link that an action is for, where it is for one.
pub open spec fn link_of(action: LinkAction) -> Option<u32> {
    match action {
        LinkAction::SetMtu { index, .. }
        | LinkAction::ParseV4 { index, .. }
        | LinkAction::AddV4 { index, .. }
        | LinkAction::ParseV6 { index, .. }
        | LinkAction::AddV6 { index, .. }
        | LinkAction::BringUp { index } => Some(index),
        _ => None,
    }
}

/// Every action that follows is for the link that was found, and is done with what
/// was read: the link is looked up under the name of the device, an address is added
/// by the very bytes that were read from its text, as that of a single host, and the
/// MTU and the texts are those of the configuration.
pub proof fn actions_work_on_what_was_read<'a>(
    action: LinkAction<'a>,
    cfg: &'a TunConfig,
    event: LinkEvent,
    next: LinkAction<'a>,
)
    requires
        call_ensures(LinkAction::advance, (action, cfg, event), Ok(next)),
    ensures
        event matches LinkEvent::Name(read) ==> (next matches LinkAction::Connect { name } && name
            == read),
        action matches LinkAction::Connect { name: held } ==> (
        next matches LinkAction::FindLink { name } && name == held),
        event matches LinkEvent::Link(Some(found)) ==> (
        next matches LinkAction::SetMtu { index, mtu } && index == found && mtu == cfg.mtu),
        event matches LinkEvent::V4(read) ==> (next matches LinkAction::AddV4 { v4, prefix, .. }
            && v4 == read && prefix == 32),
        event matches LinkEvent::V6(read) ==> (next matches LinkAction::AddV6 { v6, prefix, .. }
            && v6 == read && prefix == 128),
        next matches LinkAction::ParseV4 { text, .. } ==> cfg.ipv4 is Some && text@
            == cfg.ipv4->0@,
        next matches LinkAction::ParseV6 { text, .. } ==> cfg.ipv6 is Some && text@
            == cfg.ipv6->0@,
        link_of(action) is Some && next !is Finished ==> link_of(next) == link_of(action),
{
}

/// No address that is configured is left out and none is added that is not: IPv4
/// comes right after the MTU, IPv6 after that, and the link is brought up once both are
/// there; only then the configuration ends.
pub proof fn configured_addresses_come_in_order<'a>(
    action: LinkAction<'a>,
    cfg: &'a TunConfig,
    event: LinkEvent,
    next: LinkAction<'a>,
)
    requires
        call_ensures(LinkAction::advance, (action, cfg, event), Ok(next)),
    ensures
        next is ParseV4 <==> action is SetMtu && cfg.ipv4 is Some,
        next is ParseV6 <==> cfg.ipv6 is Some && (action is AddV4 || action is SetMtu
            && cfg.ipv4 is None),
        next is BringUp <==> action is AddV6 || cfg.ipv6 is None && (action is AddV4
            || action is SetMtu && cfg.ipv4 is None),
        next is Finished <==> action is BringUp,
        next is AddV4 <==> action is ParseV4,
        next is AddV6 <==> action is ParseV6,
{
}

/// A configuration ends well exactly where every one of its actions was done: its
/// events are the successes of a whole configuration, and no others.
pub proof fn finished_exactly_by_success(cfg: &TunConfig, events: Seq<LinkEvent>)
    ensures
        LinkAction::ReadName.run(cfg, events) == Ok::<LinkAction, LinkFailure>(
            LinkAction::Finished,
        ) <==> exists|replies: LinkReplies| events == #[trigger] successful_events(cfg, replies),
{
    if exists|replies: LinkReplies| events == #[trigger] successful_events(cfg, replies) {
        let replies = choose|replies: LinkReplies|
            events == #[trigger] successful_events(cfg, replies);
        success_configures(cfg, replies);
    }
    if LinkAction::ReadName.run(cfg, events) == Ok::<LinkAction, LinkFailure>(
        LinkAction::Finished,
    ) {
        reveal_with_fuel(LinkAction::run, 11);
        let after_v4 = if cfg.ipv4 is Some { 6int } else { 4int };
        let replies = LinkReplies {
            name: events[0]->Name_0,
            index: events[2]->Link_0->Some_0,
            v4: events[4]->V4_0,
            v6: events[after_v4]->V6_0,
        };
        assert(events =~= successful_events(cfg, replies));
    }
}

} // verus!
