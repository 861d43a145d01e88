//! The Wi-Fi access point: its address, waiting for its link, and keeping it up.
use vstd::prelude::*;

use core::str::FromStr;

use crate::text::decimal;
pub use crate::text::number;
use crate::web::WEB_POOL_SIZE;

verus! {

// ---------------------------------------------------------------------------
// Addresses
// ---------------------------------------------------------------------------

/// The address of the access point, and how much of it names the network.
pub const STATIC_IP: &'static str = "192.168.2.1/24";

/// The address of the gateway.
pub const GATEWAY_IP: &'static str = "192.168.2.1";

/// How many sockets the network stack has: one for each request that is handled, and three more.
pub const SOCKETS: usize = WEB_POOL_SIZE + 3;

/// An IPv4 address.
#[derive(Clone, Copy, Debug, PartialEq, Eq, Structural)]
pub struct Address {
    pub a: u8,
    pub b: u8,
    pub c: u8,
    pub d: u8,
}

/// An address, and the length of the prefix that names its network.
#[derive(Clone, Copy, Debug, PartialEq, Eq, Structural)]
pub struct Cidr {
    pub address: Address,
    pub prefix_len: u8,
}

/// Four octets in decimal, with dots between them.
pub open spec fn dotted(address: Address) -> Seq<char> {
    decimal(address.a as nat) + "."@ + decimal(address.b as nat) + "."@ + decimal(
        address.c as nat,
    ) + "."@ + decimal(address.d as nat)
}

/// Whether `digits` are at least one and at most `most` decimal digits that stand for `value`.
pub open spec fn spells(digits: Seq<char>, most: int, value: int) -> bool {
    &&& 1 <= digits.len() <= most
    &&& forall|i: int| 0 <= i < digits.len() ==> '0' <= #[trigger] digits[i] <= '9'
    &&& number(digits) == value
}

/// Whether a text is made of the given parts: four octets and a prefix length of at most 32, in
/// decimal, with dots between the octets and a slash before the length. Octets have up to three
/// digits and the length up to two.
pub open spec fn is_cidr_of(
    text: Seq<char>,
    cidr: Cidr,
    a: Seq<char>,
    b: Seq<char>,
    c: Seq<char>,
    d: Seq<char>,
    length: Seq<char>,
) -> bool {
    &&& spells(a, 3, cidr.address.a as int)
    &&& spells(b, 3, cidr.address.b as int)
    &&& spells(c, 3, cidr.address.c as int)
    &&& spells(d, 3, cidr.address.d as int)
    &&& spells(length, 2, cidr.prefix_len as int)
    &&& cidr.prefix_len <= 32
    &&& text == a + "."@ + b + "."@ + c + "."@ + d + "/"@ + length
}

/// Whether a text stands for an address with a prefix length.
pub open spec fn is_cidr(text: Seq<char>, cidr: Cidr) -> bool {
    exists|a: Seq<char>, b: Seq<char>, c: Seq<char>, d: Seq<char>, length: Seq<char>|
        is_cidr_of(text, cidr, a, b, c, d, length)
}

/// `embassy_net::Ipv4Cidr::from_str`: the contract claims that it succeeds on exactly the texts
/// of an address with a prefix length, and gives what the text stands for.
#[verifier::external_body]
fn parse_cidr(text: &str) -> (parsed: Option<Cidr>)
    ensures
        parsed is Some ==> is_cidr(text@, parsed->0),
        forall|cidr: Cidr| #[trigger] is_cidr(text@, cidr) ==> parsed == Some(cidr),
{
    match embassy_net::Ipv4Cidr::from_str(text) {
        Ok(cidr) => {
            let octets = cidr.address().octets();
            let address = Address { a: octets[0], b: octets[1], c: octets[2], d: octets[3] };
            Some(Cidr { address, prefix_len: cidr.prefix_len() })
        },
        Err(_) => None,
    }
}

/// `embassy_net::Ipv4Address::from_str`: the contract claims that it succeeds on exactly the
/// texts of four octets in dotted decimal notation without leading zeros, and gives those
/// octets.
#[verifier::external_body]
fn parse_address(text: &str) -> (parsed: Option<Address>)
    ensures
        parsed is Some ==> text@ == dotted(parsed->0),
        forall|address: Address| text@ == #[trigger] dotted(address) ==> parsed == Some(address),
{
    match embassy_net::Ipv4Address::from_str(text) {
        Ok(address) => {
            let octets = address.octets();
            Some(Address { a: octets[0], b: octets[1], c: octets[2], d: octets[3] })
        },
        Err(_) => None,
    }
}

// ---------------------------------------------------------------------------
// Start
// ---------------------------------------------------------------------------

/// What the network stack is started with.
#[derive(Clone, Copy, Debug, PartialEq, Eq, Structural)]
pub struct NetworkSetup {
    pub address: Cidr,
    pub gateway: Address,
    pub seed: u64,
}

/// Why the network stack cannot be started.
#[derive(Clone, Copy, Debug, PartialEq, Eq, Structural)]
pub enum SetupError {
    InvalidStaticIp,
    InvalidGatewayIp,
}

/// What the network stack is started with, given the parsed addresses and two random words.
pub fn network_setup(
    address: Option<Cidr>,
    gateway: Option<Address>,
    low: u32,
    high: u32,
) -> (setup: Result<NetworkSetup, SetupError>)
    ensures
        setup == (match (address, gateway) {
            (Some(address), Some(gateway)) => Ok(
                NetworkSetup { address, gateway, seed: (high * 0x1_0000_0000 + low) as u64 },
            ),
            (Some(_), None) => Err(SetupError::InvalidGatewayIp),
            (None, _) => Err(SetupError::InvalidStaticIp),
        }),
        setup matches Ok(setup) ==> setup.seed % 0x1_0000_0000 == low && setup.seed
            / 0x1_0000_0000 == high,
{
    assert(low as u64 | ((high as u64) << 32u64) == high * 0x1_0000_0000 + low) by (bit_vector);
    let seed: u64 = low as u64 | ((high as u64) << 32u64);
    match address {
        None => Err(SetupError::InvalidStaticIp),
        Some(address) => {
            match gateway {
                None => Err(SetupError::InvalidGatewayIp),
                Some(gateway) => Ok(NetworkSetup { address, gateway, seed }),
            }
        },
    }
}

/// The address that the access point has.
pub open spec fn own_address() -> Address {
    Address { a: 192, b: 168, c: 2, d: 1 }
}

/// What the network stack of the access point is started with, given two random words.
pub fn start_wifi(low: u32, high: u32) -> (setup: Result<NetworkSetup, SetupError>)
    ensures
        setup == Ok::<NetworkSetup, SetupError>(
            NetworkSetup {
                address: Cidr { address: own_address(), prefix_len: 24 },
                gateway: own_address(),
                seed: (high * 0x1_0000_0000 + low) as u64,
            },
        ),
        setup->Ok_0.seed % 0x1_0000_0000 == low,
        setup->Ok_0.seed / 0x1_0000_0000 == high,
        setup->Ok_0.gateway == (Address { a: 192, b: 168, c: 2, d: 1 }),
        setup->Ok_0.address.address == (Address { a: 192, b: 168, c: 2, d: 1 }),
        setup->Ok_0.address.prefix_len == 24,
{
    proof {
        lemma_addresses_are_valid();
    }
    network_setup(parse_cidr(STATIC_IP), parse_address(GATEWAY_IP), low, high)
}

proof fn lemma_addresses_are_valid()
    ensures
        is_cidr(STATIC_IP@, Cidr { address: own_address(), prefix_len: 24 }),
        GATEWAY_IP@ == dotted(own_address()),
{
    reveal_strlit("192.168.2.1/24");
    reveal_strlit("192.168.2.1");
    reveal_strlit(".");
    reveal_strlit("/");
    reveal_with_fuel(decimal, 3);
    assert(decimal(192) =~= seq!['1', '9', '2']);
    assert(decimal(168) =~= seq!['1', '6', '8']);
    assert(decimal(2) =~= seq!['2']);
    assert(decimal(1) =~= seq!['1']);
    assert(decimal(24) =~= seq!['2', '4']);
    assert(GATEWAY_IP@ =~= dotted(own_address()));
    reveal_with_fuel(number, 4);
    let a = seq!['1', '9', '2'];
    let b = seq!['1', '6', '8'];
    let length = seq!['2', '4'];
    assert(a.drop_last() =~= seq!['1', '9']);
    assert(a.drop_last().drop_last() =~= seq!['1']);
    assert(b.drop_last() =~= seq!['1', '6']);
    assert(b.drop_last().drop_last() =~= seq!['1']);
    assert(length.drop_last() =~= seq!['2']);
    assert(number(a) == 192);
    assert(number(b) == 168);
    assert(number(length) == 24);
    assert(STATIC_IP@ =~= a + "."@ + b + "."@ + seq!['2'] + "."@ + seq!['1'] + "/"@ + length);
    assert(is_cidr_of(
        STATIC_IP@,
        Cidr { address: own_address(), prefix_len: 24 },
        a,
        b,
        seq!['2'],
        seq!['1'],
        length,
    ));
}

// ---------------------------------------------------------------------------
// Waiting for the link
// ---------------------------------------------------------------------------

/// How long to wait before asking again, in milliseconds.
pub const POLL_MILLIS: u64 = 500;

/// What is waited for.
#[derive(Clone, Copy, Debug, PartialEq, Eq, Structural)]
pub enum Waiting {
    /// The link has to come up. Ask whether it is up.
    Link,
    /// The stack has to get its address. Ask whether it has one.
    Address,
    /// Nothing is waited for any more.
    Nothing,
}

/// What to do after an answer: wait for this many milliseconds, and ask about `waiting`.
#[derive(Clone, Copy, Debug, PartialEq, Eq, Structural)]
pub struct WaitStep {
    pub waiting: Waiting,
    pub delay_millis: u64,
}

impl Waiting {
    /// What is waited for after an answer.
    pub open spec fn after(self, ready: bool) -> Waiting {
        match self {
            Waiting::Link => if ready {
                Waiting::Address
            } else {
                Waiting::Link
            },
            Waiting::Address => if ready {
                Waiting::Nothing
            } else {
                Waiting::Address
            },
            Waiting::Nothing => Waiting::Nothing,
        }
    }

    /// What is waited for after several answers.
    pub open spec fn after_all(self, answers: Seq<bool>) -> Waiting
        decreases answers.len(),
    {
        if answers.len() == 0 {
            self
        } else {
            self.after_all(answers.drop_last()).after(answers.last())
        }
    }
}

/// Goes on as soon as the answer is yes, and otherwise asks again after a while.
pub fn wait_for_connection(waiting: Waiting, ready: bool) -> (step: WaitStep)
    ensures
        step.waiting == waiting.after(ready),
        step.delay_millis == (if ready || waiting is Nothing {
            0
        } else {
            POLL_MILLIS
        }),
{
    match waiting {
        Waiting::Link => if ready {
            WaitStep { waiting: Waiting::Address, delay_millis: 0 }
        } else {
            WaitStep { waiting: Waiting::Link, delay_millis: POLL_MILLIS }
        },
        Waiting::Address => if ready {
            WaitStep { waiting: Waiting::Nothing, delay_millis: 0 }
        } else {
            WaitStep { waiting: Waiting::Address, delay_millis: POLL_MILLIS }
        },
        Waiting::Nothing => WaitStep { waiting: Waiting::Nothing, delay_millis: 0 },
    }
}

/// How many answers are yes.
pub open spec fn yes_count(answers: Seq<bool>) -> nat
    decreases answers.len(),
{
    if answers.len() == 0 {
        0
    } else {
        yes_count(answers.drop_last()) + if answers.last() {
            1nat
        } else {
            0nat
        }
    }
}

/// The wait is over once two answers were yes: one about the link, and then one about the
/// address.
pub proof fn law_the_wait_ends_with_the_second_yes(answers: Seq<bool>)
    ensures
        Waiting::Link.after_all(answers) is Nothing <==> yes_count(answers) >= 2,
        Waiting::Link.after_all(answers) is Address <==> yes_count(answers) == 1,
        Waiting::Link.after_all(answers) is Link <==> yes_count(answers) == 0,
    decreases answers.len(),
{
    if answers.len() > 0 {
        law_the_wait_ends_with_the_second_yes(answers.drop_last());
    }
}

// ---------------------------------------------------------------------------
// Keeping the access point up
// ---------------------------------------------------------------------------

/// How long to wait after the access point has stopped, in milliseconds.
pub const RESTART_MILLIS: u64 = 5000;

/// The name of the network.
pub const SSID: &'static str = "esp32";

/// The password of the network.
pub const PASSWORD: &'static str = "password";

/// What the radio says of the access point.
#[derive(Clone, Copy, Debug, PartialEq, Eq, Structural)]
pub enum WifiApState {
    Started,
    Stopped,
    Invalid,
}

/// How stations prove that they know the password.
#[derive(Clone, Copy, Debug, PartialEq, Eq, Structural)]
pub enum AuthMethod {
    Wpa2Personal,
}

/// The settings of the access point.
#[derive(Clone, Copy, Debug)]
pub struct AccessPointConfig {
    pub ssid: &'static str,
    pub password: &'static str,
    pub auth_method: AuthMethod,
}

/// What has just happened.
#[derive(Clone, Copy, Debug)]
pub enum ConnectionEvent {
    /// The task begins.
    Begin,
    /// The radio told the state of the access point.
    State(WifiApState),
    /// The access point has stopped.
    ApStop,
    /// The delay is over.
    Waited,
    /// The controller said whether it is started, or failed to.
    IsStarted(Result<bool, ()>),
    /// The settings are in force.
    Configured,
    /// The controller has been started.
    Running,
}

/// What to do next.
#[derive(Clone, Copy, Debug)]
pub enum ConnectionAction {
    /// Ask the radio for the state of the access point.
    AskState,
    /// Wait until the access point stops.
    WaitForApStop,
    /// Wait.
    Delay { millis: u64 },
    /// Ask the controller whether it is started.
    AskStarted,
    /// Hand the settings to the controller.
    Configure(AccessPointConfig),
    /// Start the controller.
    Start,
}

/// Whether `action` follows `event`: a running access point is left alone until it stops, and
/// one that is not known to run is set up and started.
pub open spec fn follows(event: ConnectionEvent, action: ConnectionAction) -> bool {
    match event {
        ConnectionEvent::Begin => action is AskState,
        ConnectionEvent::State(WifiApState::Started) => action is WaitForApStop,
        ConnectionEvent::State(_) => action is AskStarted,
        ConnectionEvent::ApStop => action matches ConnectionAction::Delay { millis } && millis
            == RESTART_MILLIS,
        ConnectionEvent::Waited => action is AskStarted,
        ConnectionEvent::IsStarted(Ok(true)) => action is AskState,
        ConnectionEvent::IsStarted(_) => {
            &&& action matches ConnectionAction::Configure(config)
            &&& config.ssid@ == SSID@
            &&& config.password@ == PASSWORD@
            &&& config.auth_method is Wpa2Personal
        },
        ConnectionEvent::Configured => action is Start,
        ConnectionEvent::Running => action is AskState,
    }
}

/// Keeps the access point up: says what to do after what has just happened.
pub fn connection(event: ConnectionEvent) -> (action: ConnectionAction)
    ensures
        follows(event, action),
{
    match event {
        ConnectionEvent::Begin => ConnectionAction::AskState,
        ConnectionEvent::State(state) => match state {
            WifiApState::Started => ConnectionAction::WaitForApStop,
            _ => ConnectionAction::AskStarted,
        },
        ConnectionEvent::ApStop => ConnectionAction::Delay { millis: RESTART_MILLIS },
        ConnectionEvent::Waited => ConnectionAction::AskStarted,
        ConnectionEvent::IsStarted(Ok(true)) => ConnectionAction::AskState,
        ConnectionEvent::IsStarted(_) => ConnectionAction::Configure(
            AccessPointConfig {
                ssid: SSID,
                password: PASSWORD,
                auth_method: AuthMethod::Wpa2Personal,
            },
        ),
        ConnectionEvent::Configured => ConnectionAction::Start,
        ConnectionEvent::Running => ConnectionAction::AskState,
    }
}

/// The access point is started right after it was set up, and at no other time; it is set up
/// only where the controller did not say that it is started.
pub proof fn law_the_access_point_is_started_only_when_it_is_down(
    event: ConnectionEvent,
    action: ConnectionAction,
)
    requires
        follows(event, action),
    ensures
        action is Start <==> event is Configured,
        action is Configure <==> (event matches ConnectionEvent::IsStarted(started) && started
            != Ok::<bool, ()>(true)),
        event == ConnectionEvent::State(WifiApState::Started) ==> action is WaitForApStop,
{
}

/// An access point that runs is left alone until it stops; five seconds later the controller
/// is asked. One that is not started is given its name, its password and its kind of proof,
/// and is started; then all begins again.
pub proof fn law_an_access_point_that_stops_comes_back(
    event: ConnectionEvent,
    action: ConnectionAction,
)
    requires
        follows(event, action),
    ensures
        event is ApStop ==> (action matches ConnectionAction::Delay { millis } && millis == 5000),
        event is Waited ==> action is AskStarted,
        event matches ConnectionEvent::State(state) ==> (if state is Started {
            action is WaitForApStop
        } else {
            action is AskStarted
        }),
        event == ConnectionEvent::IsStarted(Ok(true)) ==> action is AskState,
        event == ConnectionEvent::IsStarted(Ok(false)) || event == ConnectionEvent::IsStarted(
            Err(()),
        ) ==> (action matches ConnectionAction::Configure(config) && config.ssid@ == "esp32"@
            && config.password@ == "password"@ && config.auth_method is Wpa2Personal),
        event is Configured ==> action is Start,
        event is Running || event is Begin ==> action is AskState,
{
}

} // verus!
