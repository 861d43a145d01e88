use rc_car::text::ends_with;
use rc_car::text::same_text;
use rc_car::web::content_type;
use rc_car::web::handle_command;
use rc_car::web::route_path;
use rc_car::web::Application;
use rc_car::web::CommandChannel;
use rc_car::web::CommandType;
use rc_car::web::Service;
use rc_car::web::Status;
use rc_car::web::COMMAND_CAPACITY;
use rc_car::web::WEB_POOL_SIZE;
use rc_car::wifi::connection;
use rc_car::wifi::network_setup;
use rc_car::wifi::start_wifi;
use rc_car::wifi::wait_for_connection;
use rc_car::wifi::Address;
use rc_car::wifi::AuthMethod;
use rc_car::wifi::Cidr;
use rc_car::wifi::ConnectionAction;
use rc_car::wifi::ConnectionEvent;
use rc_car::wifi::NetworkSetup;
use rc_car::wifi::SetupError;
use rc_car::wifi::WaitStep;
use rc_car::wifi::Waiting;
use rc_car::wifi::WifiApState;
use rc_car::wifi::SOCKETS;

const OWN: Address = Address { a: 192, b: 168, c: 2, d: 1 };

#[test]
fn eight_commands_can_wait() {
    let mut channel = CommandChannel::new();
    assert_eq!(WEB_POOL_SIZE, 4);
    assert_eq!(COMMAND_CAPACITY, 8);
    for i in 0..8 {
        let reply = handle_command(&mut channel, CommandType::PwmPercentage(i));
        assert_eq!(reply, "Command Sent");
    }
    assert_eq!(handle_command(&mut channel, CommandType::Heartbeat), "Busy");
    assert_eq!(handle_command(&mut channel, CommandType::GoFront(Status::Pressed)), "Busy");
    let mut other = CommandChannel::new();
    assert_eq!(handle_command(&mut other, CommandType::Heartbeat), "Command Sent");
}

#[test]
fn commands_are_taken_in_the_order_sent() {
    let mut channel = CommandChannel::new();
    assert_eq!(channel.try_receive(), None);
    for i in 0..9 {
        handle_command(&mut channel, CommandType::PwmPercentage(i));
    }
    assert_eq!(channel.try_receive(), Some(CommandType::PwmPercentage(0)));
    assert_eq!(handle_command(&mut channel, CommandType::Heartbeat), "Command Sent");
    assert_eq!(handle_command(&mut channel, CommandType::Heartbeat), "Busy");
    for i in 1..8 {
        assert_eq!(channel.try_receive(), Some(CommandType::PwmPercentage(i)));
    }
    assert_eq!(channel.try_receive(), Some(CommandType::Heartbeat));
    assert_eq!(channel.try_receive(), None);
}

#[test]
fn content_types_go_by_the_suffix() {
    assert_eq!(content_type("a.js"), "application/javascript");
    assert_eq!(content_type("assets/x.css"), "text/css");
    assert_eq!(content_type("x.wasm"), "application/wasm");
    assert_eq!(content_type("index.html"), "text/html");
    assert_eq!(content_type("js"), "application/octet-stream");
    assert_eq!(content_type("a.js.map"), "application/octet-stream");
    assert_eq!(content_type(""), "application/octet-stream");
}

#[test]
fn the_index_stands_at_the_root() {
    assert_eq!(route_path("index.html"), "/");
    assert_eq!(route_path("assets/a.css"), "/assets/a.css");
    assert_eq!(route_path("index.htm"), "/index.htm");
}

#[test]
fn texts_are_compared() {
    assert!(ends_with("abc", "bc"));
    assert!(ends_with("abc", ""));
    assert!(!ends_with("abc", "b"));
    assert!(!ends_with("c", "bc"));
    assert!(ends_with("añb", "ñb"));
    assert!(same_text("añb", "añb"));
    assert!(!same_text("abc", "bc"));
    assert!(!same_text("abc", "abd"));
}

#[test]
fn the_application_has_five_routes() {
    let routes = Application.build_app();
    let paths: Vec<&str> = routes.iter().map(|route| route.path.as_str()).collect();
    assert_eq!(
        paths,
        [
            "/",
            "/assets/tailwind-dxh362ac34bad4fab.css",
            "/assets/controller-ui-dxh45e347b8fce6964.js",
            "/assets/controller-ui_bg-dxh789eddc513b06e99.wasm",
            "/controller",
        ]
    );
    let mut types = vec![];
    for route in &routes[..4] {
        match route.service {
            Service::File { file, content_type } => {
                types.push(content_type);
                assert_eq!(route.path, route_path(file));
            }
            Service::Controller => panic!("not a file"),
        }
    }
    assert_eq!(
        types,
        ["text/html", "text/css", "application/javascript", "application/wasm"]
    );
    assert!(matches!(routes[4].service, Service::Controller));
}

#[test]
fn the_access_point_has_a_fixed_address() {
    assert_eq!(
        start_wifi(0x89ABCDEF, 0x01234567),
        Ok(NetworkSetup {
            address: Cidr { address: OWN, prefix_len: 24 },
            gateway: OWN,
            seed: 0x0123_4567_89AB_CDEF,
        })
    );
    assert_eq!(SOCKETS, 7);
}

#[test]
fn a_bad_address_stops_the_setup() {
    let cidr = Cidr { address: OWN, prefix_len: 24 };
    assert_eq!(network_setup(None, Some(OWN), 0, 0), Err(SetupError::InvalidStaticIp));
    assert_eq!(network_setup(None, None, 0, 0), Err(SetupError::InvalidStaticIp));
    assert_eq!(network_setup(Some(cidr), None, 0, 0), Err(SetupError::InvalidGatewayIp));
    assert_eq!(
        network_setup(Some(cidr), Some(OWN), 5, 0),
        Ok(NetworkSetup { address: cidr, gateway: OWN, seed: 5 })
    );
    assert_eq!(network_setup(Some(cidr), Some(OWN), 0, 1).unwrap().seed, 1 << 32);
}

#[test]
fn the_link_is_waited_for_before_the_address() {
    let step = wait_for_connection(Waiting::Link, false);
    assert_eq!(step, WaitStep { waiting: Waiting::Link, delay_millis: 500 });
    let step = wait_for_connection(Waiting::Link, true);
    assert_eq!(step, WaitStep { waiting: Waiting::Address, delay_millis: 0 });
    let step = wait_for_connection(Waiting::Address, false);
    assert_eq!(step, WaitStep { waiting: Waiting::Address, delay_millis: 500 });
    let step = wait_for_connection(Waiting::Address, true);
    assert_eq!(step, WaitStep { waiting: Waiting::Nothing, delay_millis: 0 });
    let step = wait_for_connection(Waiting::Nothing, false);
    assert_eq!(step, WaitStep { waiting: Waiting::Nothing, delay_millis: 0 });
}

#[test]
fn a_running_access_point_is_left_alone_until_it_stops() {
    assert!(matches!(connection(ConnectionEvent::Begin), ConnectionAction::AskState));
    let action = connection(ConnectionEvent::State(WifiApState::Started));
    assert!(matches!(action, ConnectionAction::WaitForApStop));
    let action = connection(ConnectionEvent::ApStop);
    assert!(matches!(action, ConnectionAction::Delay { millis: 5000 }));
    assert!(matches!(connection(ConnectionEvent::Waited), ConnectionAction::AskStarted));
    let action = connection(ConnectionEvent::IsStarted(Ok(true)));
    assert!(matches!(action, ConnectionAction::AskState));
}

#[test]
fn an_access_point_that_is_down_is_set_up_and_started() {
    for state in [WifiApState::Stopped, WifiApState::Invalid] {
        let action = connection(ConnectionEvent::State(state));
        assert!(matches!(action, ConnectionAction::AskStarted));
    }
    for started in [Ok(false), Err(())] {
        match connection(ConnectionEvent::IsStarted(started)) {
            ConnectionAction::Configure(config) => {
                assert_eq!(config.ssid, "esp32");
                assert_eq!(config.password, "password");
                assert_eq!(config.auth_method, AuthMethod::Wpa2Personal);
            }
            _ => panic!("not set up"),
        }
    }
    assert!(matches!(connection(ConnectionEvent::Configured), ConnectionAction::Start));
    assert!(matches!(connection(ConnectionEvent::Running), ConnectionAction::AskState));
}
