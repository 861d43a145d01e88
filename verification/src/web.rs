//! The Wi-Fi access point and the web server that takes commands.
use vstd::prelude::*;
use vstd::string::StringExecFns;

use crate::text::ends_with;
use crate::text::is_suffix;
use crate::text::law_a_text_ends_with_its_end;
use crate::text::same_text;

verus! {

// ---------------------------------------------------------------------------
// Commands
// ---------------------------------------------------------------------------

/// How many requests the web server handles at a time.
pub const WEB_POOL_SIZE: usize = 4;

/// How many commands can wait.
pub const COMMAND_CAPACITY: usize = WEB_POOL_SIZE * 2;

/// A command from the web page.
#[derive(Clone, Copy, Debug, PartialEq, Eq, Structural)]
pub enum CommandType {
    GoFront(Status),
    GoBack(Status),
    TurnLeft(Status),
    TurnRight(Status),
    TurnFront(Status),
    PullUp(Status),
    PullDown(Status),
    ArmUp(Status),
    ArmDown(Status),
    BlinkRate(u64),
    FrequencyKilohertz(u32),
    PwmPercentage(u8),
    ServoDelay(u64),
    Heartbeat,
}

/// What happened to a button.
#[derive(Clone, Copy, Debug, PartialEq, Eq, Structural)]
pub enum Status {
    Pressed,
    Released,
    BlinkOnce,
}

/// `embassy_sync::channel::Channel` with room for [`COMMAND_CAPACITY`] commands.
#[verifier::external_body]
pub struct CommandChannel {
    channel: embassy_sync::channel::Channel<
        embassy_sync::blocking_mutex::raw::CriticalSectionRawMutex,
        CommandType,
        COMMAND_CAPACITY,
    >,
}

/// The commands that wait in a channel, the oldest first.
pub uninterp spec fn waiting(channel: CommandChannel) -> Seq<CommandType>;

/// `embassy_sync::channel::Channel::new`: the contract claims that nothing waits in a new
/// channel.
#[verifier::external_body]
fn new_channel() -> (channel: CommandChannel)
    ensures
        waiting(channel) == Seq::<CommandType>::empty(),
{
    CommandChannel { channel: embassy_sync::channel::Channel::new() }
}

impl CommandChannel {
    /// A channel in which nothing waits.
    pub fn new() -> (channel: CommandChannel)
        ensures
            waiting(channel) == Seq::<CommandType>::empty(),
    {
        new_channel()
    }

    /// `embassy_sync::channel::Channel::try_send`: the contract claims that it adds the command
    /// behind those that wait where there is room, and otherwise fails and changes nothing. It
    /// is stated for a caller who has the channel to itself.
    #[verifier::external_body]
    fn try_send(&mut self, command: CommandType) -> (sent: bool)
        ensures
            sent == (waiting(*old(self)).len() < COMMAND_CAPACITY),
            waiting(*final(self)) == (if sent {
                waiting(*old(self)).push(command)
            } else {
                waiting(*old(self))
            }),
    {
        self.channel.try_send(command).is_ok()
    }

    /// `embassy_sync::channel::Channel::try_receive`: the contract claims that it takes the
    /// oldest of the commands that wait, and otherwise fails and changes nothing. It is stated
    /// for a caller who has the channel to itself.
    #[verifier::external_body]
    fn receive(&mut self) -> (command: Option<CommandType>)
        ensures
            waiting(*old(self)).len() == 0 ==> command is None && waiting(*final(self)) == waiting(
                *old(self),
            ),
            waiting(*old(self)).len() > 0 ==> command == Some(waiting(*old(self))[0]) && waiting(
                *final(self),
            ) == waiting(*old(self)).drop_first(),
    {
        self.channel.try_receive().ok()
    }

    /// Takes the command that has waited longest.
    pub fn try_receive(&mut self) -> (command: Option<CommandType>)
        ensures
            command == next_command(waiting(*old(self))),
            waiting(*final(self)) == after_receive(waiting(*old(self))),
    {
        self.receive()
    }
}

/// The command that has waited longest.
pub open spec fn next_command(queue: Seq<CommandType>) -> Option<CommandType> {
    if queue.len() == 0 {
        None
    } else {
        Some(queue[0])
    }
}

/// What waits after a command was taken: where none waits, nothing changes.
pub open spec fn after_receive(queue: Seq<CommandType>) -> Seq<CommandType> {
    if queue.len() == 0 {
        queue
    } else {
        queue.drop_first()
    }
}

/// What waits after several commands were taken.
pub open spec fn after_receives(queue: Seq<CommandType>, count: nat) -> Seq<CommandType>
    decreases count,
{
    if count == 0 {
        queue
    } else {
        after_receive(after_receives(queue, (count - 1) as nat))
    }
}

/// What waits after one more command came in: a full queue stays as it is.
pub open spec fn after_command(queue: Seq<CommandType>, command: CommandType) -> Seq<CommandType> {
    if queue.len() < COMMAND_CAPACITY {
        queue.push(command)
    } else {
        queue
    }
}

/// What waits after several commands came in.
pub open spec fn after_commands(queue: Seq<CommandType>, commands: Seq<CommandType>) -> Seq<
    CommandType,
>
    decreases commands.len(),
{
    if commands.len() == 0 {
        queue
    } else {
        after_command(after_commands(queue, commands.drop_last()), commands.last())
    }
}

/// What the sender of a command is told.
pub open spec fn command_reply(queue: Seq<CommandType>) -> Seq<char> {
    if queue.len() < COMMAND_CAPACITY {
        "Command Sent"@
    } else {
        "Busy"@
    }
}

/// Queues a command, and says whether there was room for it.
pub fn handle_command(channel: &mut CommandChannel, form: CommandType) -> (reply: &'static str)
    ensures
        reply@ == command_reply(waiting(*old(channel))),
        waiting(*final(channel)) == after_command(waiting(*old(channel)), form),
{
    if channel.try_send(form) {
        "Command Sent"
    } else {
        "Busy"
    }
}

/// The first commands wait in the order in which they came, as many as there is room for; the
/// others are turned away.
pub proof fn law_the_first_commands_wait_in_order(commands: Seq<CommandType>)
    ensures
        after_commands(Seq::empty(), commands) == (if commands.len() <= COMMAND_CAPACITY {
            commands
        } else {
            commands.take(COMMAND_CAPACITY as int)
        }),
    decreases commands.len(),
{
    if commands.len() > 0 {
        law_the_first_commands_wait_in_order(commands.drop_last());
        if commands.len() <= COMMAND_CAPACITY {
            assert(commands.drop_last().push(commands.last()) =~= commands);
        } else {
            assert(commands.drop_last().take(COMMAND_CAPACITY as int) =~= commands.take(
                COMMAND_CAPACITY as int,
            ));
        }
    }
}

/// A command that is turned away changes nothing, and one that is not waits last.
pub proof fn law_a_command_waits_exactly_where_its_sender_is_told_so(
    queue: Seq<CommandType>,
    command: CommandType,
)
    ensures
        command_reply(queue) == "Busy"@ ==> after_command(queue, command) == queue,
        command_reply(queue) == "Command Sent"@ ==> after_command(queue, command) == queue.push(
            command,
        ),
        command_reply(queue) == "Busy"@ || command_reply(queue) == "Command Sent"@,
{
    reveal_strlit("Busy");
    reveal_strlit("Command Sent");
    assert("Busy"@.len() != "Command Sent"@.len());
}

proof fn lemma_after_receives(queue: Seq<CommandType>, count: nat)
    requires
        count <= queue.len(),
    ensures
        after_receives(queue, count) == queue.skip(count as int),
    decreases count,
{
    if count == 0 {
        assert(queue.skip(0) =~= queue);
    } else {
        lemma_after_receives(queue, (count - 1) as nat);
        assert(queue.skip(count - 1).drop_first() =~= queue.skip(count as int));
    }
}

/// The commands that were not turned away are taken in the order in which they came.
pub proof fn law_commands_are_taken_in_the_order_sent(commands: Seq<CommandType>, count: nat)
    requires
        count < commands.len(),
        count < COMMAND_CAPACITY,
    ensures
        next_command(after_receives(after_commands(Seq::empty(), commands), count)) == Some(
            commands[count as int],
        ),
{
    law_the_first_commands_wait_in_order(commands);
    lemma_after_receives(after_commands(Seq::empty(), commands), count);
}

/// Taking a command makes room: the next one is not turned away.
pub proof fn law_taking_a_command_makes_room(queue: Seq<CommandType>)
    requires
        0 < queue.len() <= COMMAND_CAPACITY,
    ensures
        command_reply(after_receive(queue)) == "Command Sent"@,
{
}

// ---------------------------------------------------------------------------
// Pages
// ---------------------------------------------------------------------------

/// The web application: its pages, and the endpoint for commands.
#[derive(Clone, Copy, Debug, PartialEq, Eq, Structural)]
pub struct Application;

/// What answers a request.
#[derive(Clone, Copy, Debug)]
pub enum Service {
    /// A file, sent as it is.
    File { file: &'static str, content_type: &'static str },
    /// [`handle_command`], on the form that was posted.
    Controller,
}

/// A path, and what answers the requests for it.
#[derive(Debug)]
pub struct Route {
    pub path: String,
    pub service: Service,
}

/// The content type of a file, by its suffix.
pub open spec fn content_type_of(file: Seq<char>) -> Seq<char> {
    if is_suffix(".js"@, file) {
        "application/javascript"@
    } else if is_suffix(".css"@, file) {
        "text/css"@
    } else if is_suffix(".wasm"@, file) {
        "application/wasm"@
    } else if is_suffix(".html"@, file) {
        "text/html"@
    } else {
        "application/octet-stream"@
    }
}

/// The path of a file: the index stands at the root.
pub open spec fn path_of(file: Seq<char>) -> Seq<char> {
    if file == "index.html"@ {
        "/"@
    } else {
        "/"@ + file
    }
}

impl Route {
    /// Whether this is the route of a file.
    pub open spec fn serves(self, name: Seq<char>) -> bool {
        match self.service {
            Service::File { file, content_type } => {
                &&& file@ == name
                &&& content_type@ == content_type_of(name)
                &&& self.path@ == path_of(name)
            },
            Service::Controller => false,
        }
    }
}

/// The content type of a file.
pub fn content_type(file: &str) -> (content_type: &'static str)
    ensures
        content_type@ == content_type_of(file@),
{
    if ends_with(file, ".js") {
        "application/javascript"
    } else if ends_with(file, ".css") {
        "text/css"
    } else if ends_with(file, ".wasm") {
        "application/wasm"
    } else if ends_with(file, ".html") {
        "text/html"
    } else {
        "application/octet-stream"
    }
}

/// The path of a file.
pub fn route_path(file: &str) -> (path: String)
    ensures
        path@ == path_of(file@),
{
    let mut path = String::from_str("/");
    if !same_text(file, "index.html") {
        path.append(file);
    }
    path
}

fn file_route(file: &'static str) -> (route: Route)
    ensures
        route.serves(file@),
{
    Route {
        path: route_path(file),
        service: Service::File { file, content_type: content_type(file) },
    }
}

impl Application {
    /// The routes of the application: its four files, and the endpoint for commands.
    pub fn build_app(self) -> (routes: Vec<Route>)
        ensures
            routes@.len() == 5,
            routes@[0].serves("index.html"@),
            routes@[1].serves("assets/tailwind-dxh362ac34bad4fab.css"@),
            routes@[2].serves("assets/controller-ui-dxh45e347b8fce6964.js"@),
            routes@[3].serves("assets/controller-ui_bg-dxh789eddc513b06e99.wasm"@),
            routes@[4].path@ == "/controller"@,
            routes@[4].service is Controller,
    {
        let mut routes: Vec<Route> = Vec::new();
        routes.push(file_route("index.html"));
        routes.push(file_route("assets/tailwind-dxh362ac34bad4fab.css"));
        routes.push(file_route("assets/controller-ui-dxh45e347b8fce6964.js"));
        routes.push(file_route("assets/controller-ui_bg-dxh789eddc513b06e99.wasm"));
        routes.push(Route { path: String::from_str("/controller"), service: Service::Controller });
        routes
    }
}

/// Two files have different paths.
pub proof fn law_files_do_not_share_a_path(file: Seq<char>, other: Seq<char>)
    requires
        file.len() > 0,
        other.len() > 0,
        file != other,
    ensures
        path_of(file) != path_of(other),
{
    reveal_strlit("/");
    assert(("/"@ + file).skip(1) =~= file);
    assert(("/"@ + other).skip(1) =~= other);
    assert(("/"@ + file).len() > 1);
    assert(("/"@ + other).len() > 1);
}

/// A file is served by the last part of its name, whatever stands before it.
pub proof fn law_a_file_is_served_by_its_suffix(stem: Seq<char>)
    ensures
        content_type_of(stem + ".js"@) == "application/javascript"@,
        content_type_of(stem + ".css"@) == "text/css"@,
        content_type_of(stem + ".wasm"@) == "application/wasm"@,
        content_type_of(stem + ".html"@) == "text/html"@,
{
    reveal_strlit(".js");
    reveal_strlit(".css");
    reveal_strlit(".wasm");
    reveal_strlit(".html");
    lemma_other_end(stem + ".css"@, ".js"@, 2);
    lemma_other_end(stem + ".wasm"@, ".js"@, 1);
    lemma_other_end(stem + ".wasm"@, ".css"@, 1);
    lemma_other_end(stem + ".html"@, ".js"@, 1);
    lemma_other_end(stem + ".html"@, ".css"@, 1);
    lemma_other_end(stem + ".html"@, ".wasm"@, 1);
    law_a_text_ends_with_its_end(stem, ".js"@, ".js"@);
    law_a_text_ends_with_its_end(stem, ".css"@, ".css"@);
    law_a_text_ends_with_its_end(stem, ".wasm"@, ".wasm"@);
    law_a_text_ends_with_its_end(stem, ".html"@, ".html"@);
}

/// A text does not end with another that differs from it `back` characters from the end.
proof fn lemma_other_end(text: Seq<char>, suffix: Seq<char>, back: int)
    requires
        0 < back <= suffix.len() <= text.len(),
        text[text.len() - back] != suffix[suffix.len() - back],
    ensures
        !is_suffix(suffix, text),
{
    if is_suffix(suffix, text) {
        let end = text.skip(text.len() - suffix.len());
        assert(end[suffix.len() - back] == text[text.len() - back]);
    }
}

/// A file with none of the four suffixes is served as plain bytes.
pub proof fn law_any_other_file_is_served_as_bytes(file: Seq<char>)
    requires
        forall|stem: Seq<char>| file != #[trigger] (stem + ".js"@),
        forall|stem: Seq<char>| file != #[trigger] (stem + ".css"@),
        forall|stem: Seq<char>| file != #[trigger] (stem + ".wasm"@),
        forall|stem: Seq<char>| file != #[trigger] (stem + ".html"@),
    ensures
        content_type_of(file) == "application/octet-stream"@,
{
    lemma_stem(file, ".js"@);
    lemma_stem(file, ".css"@);
    lemma_stem(file, ".wasm"@);
    lemma_stem(file, ".html"@);
}

proof fn lemma_stem(text: Seq<char>, suffix: Seq<char>)
    ensures
        is_suffix(suffix, text) ==> text == text.take(text.len() - suffix.len()) + suffix,
{
    if is_suffix(suffix, text) {
        assert(text =~= text.take(text.len() - suffix.len()) + suffix);
    }
}

/// A file stands at its name behind a slash, and the index at the slash alone.
pub proof fn law_a_file_stands_at_its_name(file: Seq<char>)
    ensures
        path_of(file)[0] == '/',
        file != "index.html"@ ==> path_of(file).len() == file.len() + 1 && path_of(file).skip(1)
            == file,
        file == "index.html"@ ==> path_of(file).len() == 1,
{
    reveal_strlit("/");
    assert(("/"@ + file).skip(1) =~= file);
}

/// Eight commands can wait, and no ninth one.
pub proof fn law_eight_commands_can_wait(queue: Seq<CommandType>, command: CommandType)
    ensures
        queue.len() < 8 ==> command_reply(queue) == "Command Sent"@ && after_command(
            queue,
            command,
        ) == queue.push(command),
        queue.len() >= 8 ==> command_reply(queue) == "Busy"@ && after_command(queue, command)
            == queue,
{
}

/// What is sent to an empty queue is what is taken from it, and it is empty again.
pub proof fn law_a_command_is_taken_as_it_was_sent(command: CommandType)
    ensures
        next_command(after_command(Seq::empty(), command)) == Some(command),
        after_receive(after_command(Seq::empty(), command)).len() == 0,
        next_command(Seq::empty()) is None,
{
}

} // verus!
