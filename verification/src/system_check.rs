use vstd::prelude::*;
use crate::command::{stderr_text, CommandOutcome};
use crate::text::{
    chars_eq_str, opt_string_views, opt_view, owned, split_whitespace, string_views, words,
};
use crate::types::{SystemCheck, SystemCheckItem};

verus! {

/// Whether the `ydotoold` socket is there, with a message for the user.
#[derive(Debug)]
pub struct SocketStatus {
    pub ready: bool,
    pub message: String,
}

/// Whether `/dev/uinput` can be used, with a message for the user.
#[derive(Debug)]
pub struct UinputStatus {
    pub ready: bool,
    pub message: String,
}

impl SocketStatus {
    /// Whether the socket is there.
    pub fn is_ready(&self) -> (r: bool)
        ensures
            r == self.ready,
    {
        self.ready
    }
}

/// File name of the `ydotoold` socket in the runtime directory.
pub open spec fn socket_file_name() -> Seq<char> {
    ".ydotool_socket"@
}

/// `path` followed by `name`, with a `/` between them unless `path` is empty or already
/// ends in one.
pub open spec fn joined_path(path: Seq<char>, name: Seq<char>) -> Seq<char> {
    if path.len() == 0 || path.last() == '/' {
        path + name
    } else {
        path + seq!['/'] + name
    }
}

/// Where the `ydotoold` socket is: the value of `YDOTOOL_SOCKET` where that is set, else
/// `.ydotool_socket` in the directory that `XDG_RUNTIME_DIR` names, else unknown.
pub open spec fn socket_path_spec(ydotool_socket: Option<Seq<char>>, runtime_dir: Option<Seq<char>>) -> Option<Seq<char>> {
    match ydotool_socket {
        Some(p) => Some(p),
        None => match runtime_dir {
            Some(dir) => Some(joined_path(dir, socket_file_name())),
            None => None,
        },
    }
}

/// The path of the `ydotoold` socket, from the values of the environment variables
/// `YDOTOOL_SOCKET` and `XDG_RUNTIME_DIR` where they are set.
pub fn ydotool_socket_path(ydotool_socket: Option<String>, runtime_dir: Option<String>) -> (r: Option<String>)
    ensures
        opt_view(r) == socket_path_spec(opt_view(ydotool_socket), opt_view(runtime_dir)),
{
    if let Some(socket) = ydotool_socket {
        return Some(socket);
    }
    match runtime_dir {
        Some(dir) => {
            let ghost d = dir@;
            let mut path = dir;
            proof {
                reveal_strlit("/");
            }
            let n = path.as_str().unicode_len();
            if n > 0 && path.as_str().get_char(n - 1) != '/' {
                path.append("/");
            }
            path.append(".ydotool_socket");
            assert(path@ =~= joined_path(d, socket_file_name()));
            Some(path)
        },
        None => None,
    }
}

/// The message for a socket found at `path`.
pub open spec fn socket_found_message(path: Seq<char>) -> Seq<char> {
    "OK ydotoold socket found at "@ + path + "."@
}

/// The message for a socket missing at `path`.
pub open spec fn socket_missing_message(path: Seq<char>) -> Seq<char> {
    "ydotoold is not running or its socket is missing at "@ + path
        + ". Start/Check will not type until ydotoold is running. Try: systemctl --user start ydotool.service"@
}

/// The message where the socket path is unknown.
pub open spec fn socket_unknown_message() -> Seq<char> {
    "Could not determine the ydotoold socket path because XDG_RUNTIME_DIR is not set."@
}

/// The socket status for a socket path, where one is known, and whether something
/// exists at that path.
pub fn ydotool_socket_status(socket: Option<&str>, exists: bool) -> (r: SocketStatus)
    ensures
        match socket {
            Some(path) => if exists {
                r.ready && r.message@ == socket_found_message(path@)
            } else {
                !r.ready && r.message@ == socket_missing_message(path@)
            },
            None => !r.ready && r.message@ == socket_unknown_message(),
        },
{
    match socket {
        Some(path) => if exists {
            let mut message = owned("OK ydotoold socket found at ");
            message.append(path);
            message.append(".");
            SocketStatus { ready: true, message }
        } else {
            let mut message = owned("ydotoold is not running or its socket is missing at ");
            message.append(path);
            message.append(
                ". Start/Check will not type until ydotoold is running. Try: systemctl --user start ydotool.service",
            );
            SocketStatus { ready: false, message }
        },
        None => SocketStatus {
            ready: false,
            message: owned(
                "Could not determine the ydotoold socket path because XDG_RUNTIME_DIR is not set.",
            ),
        },
    }
}

/// The message where `/dev/uinput` is missing.
pub open spec fn uinput_missing_message() -> Seq<char> {
    "/dev/uinput is missing. ydotoold cannot create a virtual keyboard without the uinput kernel device."@
}

/// The message where `/dev/uinput` can be opened.
pub open spec fn uinput_ok_message() -> Seq<char> {
    "OK current user can open /dev/uinput if ydotoold needs to start."@
}

/// The message where the user is in the `input` group but the process cannot open
/// `/dev/uinput`.
pub open spec fn uinput_relogin_message() -> Seq<char> {
    "/dev/uinput exists, but this process cannot open it. If ydotoold is already running, typing may still work; otherwise log out and back in if the input group was just added."@
}

/// The message where the user is not in the `input` group.
pub open spec fn uinput_group_message() -> Seq<char> {
    "/dev/uinput exists, but this user cannot open it. If ydotoold is not already running, common fix: sudo usermod -aG input $USER, then log out and back in."@
}

/// Whether the groups, where they are known, hold `input`.
pub open spec fn in_input_group(groups: Option<Seq<Seq<char>>>) -> bool {
    match groups {
        Some(g) => g.contains("input"@),
        None => false,
    }
}

/// The state of `/dev/uinput`, from whether it exists, whether this process can open it
/// for reading and writing, and the user's groups where they are known.
pub fn uinput_status(exists: bool, can_open: bool, groups: Option<Vec<String>>) -> (r: UinputStatus)
    ensures
        !exists ==> !r.ready && r.message@ == uinput_missing_message(),
        exists && can_open ==> r.ready && r.message@ == uinput_ok_message(),
        exists && !can_open ==> !r.ready && r.message@ == if in_input_group(opt_string_views(groups)) {
            uinput_relogin_message()
        } else {
            uinput_group_message()
        },
{
    if !exists {
        return UinputStatus {
            ready: false,
            message: owned(
                "/dev/uinput is missing. ydotoold cannot create a virtual keyboard without the uinput kernel device.",
            ),
        };
    }
    if can_open {
        return UinputStatus {
            ready: true,
            message: owned("OK current user can open /dev/uinput if ydotoold needs to start."),
        };
    }
    let in_group = match &groups {
        Some(g) => has_input_group(g),
        None => false,
    };
    if in_group {
        UinputStatus {
            ready: false,
            message: owned(
                "/dev/uinput exists, but this process cannot open it. If ydotoold is already running, typing may still work; otherwise log out and back in if the input group was just added.",
            ),
        }
    } else {
        UinputStatus {
            ready: false,
            message: owned(
                "/dev/uinput exists, but this user cannot open it. If ydotoold is not already running, common fix: sudo usermod -aG input $USER, then log out and back in.",
            ),
        }
    }
}

/// Whether one of the groups is `input`.
fn has_input_group(groups: &Vec<String>) -> (r: bool)
    ensures
        r == string_views(groups@).contains("input"@),
{
    let n = groups.len();
    let mut i: usize = 0;
    while i < n
        invariant
            n == groups.len(),
            i <= n,
            forall|j: int| 0 <= j < i ==> groups@[j]@ != "input"@,
        decreases n - i,
    {
        let g = crate::text::chars_of(groups[i].as_str());
        if chars_eq_str(&g, "input") {
            assert(string_views(groups@)[i as int] == "input"@);
            return true;
        }
        i = i + 1;
    }
    proof {
        if string_views(groups@).contains("input"@) {
            let k = choose|k: int| 0 <= k < string_views(groups@).len() && string_views(groups@)[k] == "input"@;
            assert(groups@[k]@ == "input"@);
        }
    }
    false
}

/// The user's groups from the outcome of `id -nG`: the words it printed where it ran and
/// succeeded.
pub fn user_groups(outcome: &CommandOutcome) -> (r: Option<Vec<String>>)
    ensures
        match *outcome {
            CommandOutcome::Exited { success: true, stdout, .. } => r is Some && string_views(
                r->0@,
            ) == words(stdout@),
            _ => r is None,
        },
{
    match outcome {
        CommandOutcome::Exited { success, stdout, .. } => if *success {
            Some(split_whitespace(stdout.as_str()))
        } else {
            None
        },
        CommandOutcome::NotStarted(_) => None,
    }
}

/// Whether a program answered a version or help query: it ran and exited successfully.
pub fn command_available(outcome: &CommandOutcome) -> (r: bool)
    ensures
        r == (*outcome matches CommandOutcome::Exited { success: true, .. }),
{
    match outcome {
        CommandOutcome::Exited { success, .. } => *success,
        CommandOutcome::NotStarted(_) => false,
    }
}

/// Whether `item` has the given title, result, detail and help text.
pub open spec fn item_is(
    item: SystemCheckItem,
    title: Seq<char>,
    ok: bool,
    detail: Seq<char>,
    help: Seq<char>,
) -> bool {
    item.title@ == title && item.ok == ok && item.detail@ == detail && item.help@ == help
}

fn item(title: &str, ok: bool, detail: String, help: &str) -> (r: SystemCheckItem)
    ensures
        item_is(r, title@, ok, detail@, help@),
{
    SystemCheckItem { title: owned(title), ok, detail, help: owned(help) }
}

/// What the `ydotool` check is about.
pub open spec fn ydotool_help() -> Seq<char> {
    "Keystrokes are sent with ydotool; without it nothing can be typed. Install it with: sudo apt install ydotool"@
}

/// What the socket check is about.
pub open spec fn socket_help() -> Seq<char> {
    "ydotool hands keystrokes to the ydotoold daemon through a socket, so the daemon must be running. Pressing Start tries to start ydotool.service when the socket is missing."@
}

/// What the `/dev/uinput` check is about.
pub open spec fn uinput_help() -> Seq<char> {
    "ydotoold creates a virtual keyboard through the uinput kernel device, which needs read and write access to /dev/uinput, usually through the input group."@
}

/// What the `tesseract` check is about.
pub open spec fn tesseract_help() -> Seq<char> {
    "Text in clipboard images is read with tesseract OCR; only the clipboard image button needs it. Install it with: sudo apt install tesseract-ocr"@
}

/// The readiness report from whether `ydotool` and `tesseract` answered, the socket state
/// and the `/dev/uinput` state. Typing needs `ydotool` and its socket; OCR needs
/// `tesseract`.
pub fn run_system_check(
    ydotool: bool,
    tesseract: bool,
    socket_status: SocketStatus,
    uinput_status: UinputStatus,
) -> (r: SystemCheck)
    ensures
        r.items.len() == 4,
        item_is(
            r.items[0],
            "ydotool installed"@,
            ydotool,
            if ydotool { "ydotool is installed."@ } else { "Install ydotool: sudo apt install ydotool"@ },
            ydotool_help(),
        ),
        item_is(r.items[1], "ydotoold socket"@, socket_status.ready, socket_status.message@, socket_help()),
        item_is(
            r.items[2],
            "/dev/uinput access"@,
            uinput_status.ready,
            uinput_status.message@,
            uinput_help(),
        ),
        item_is(
            r.items[3],
            "tesseract OCR installed"@,
            tesseract,
            if tesseract {
                "tesseract OCR is installed."@
            } else {
                "Install tesseract OCR: sudo apt install tesseract-ocr"@
            },
            tesseract_help(),
        ),
        r.can_type == (ydotool && socket_status.ready),
        r.can_ocr == tesseract,
{
    let can_type = ydotool && socket_status.is_ready();
    let can_ocr = tesseract;
    let socket_ready = socket_status.is_ready();
    let mut items: Vec<SystemCheckItem> = Vec::new();
    items.push(item(
        "ydotool installed",
        ydotool,
        if ydotool { owned("ydotool is installed.") } else { owned("Install ydotool: sudo apt install ydotool") },
        "Keystrokes are sent with ydotool; without it nothing can be typed. Install it with: sudo apt install ydotool",
    ));
    items.push(item(
        "ydotoold socket",
        socket_ready,
        socket_status.message,
        "ydotool hands keystrokes to the ydotoold daemon through a socket, so the daemon must be running. Pressing Start tries to start ydotool.service when the socket is missing.",
    ));
    items.push(item(
        "/dev/uinput access",
        uinput_status.ready,
        uinput_status.message,
        "ydotoold creates a virtual keyboard through the uinput kernel device, which needs read and write access to /dev/uinput, usually through the input group.",
    ));
    items.push(item(
        "tesseract OCR installed",
        tesseract,
        if tesseract {
            owned("tesseract OCR is installed.")
        } else {
            owned("Install tesseract OCR: sudo apt install tesseract-ocr")
        },
        "Text in clipboard images is read with tesseract OCR; only the clipboard image button needs it. Install it with: sudo apt install tesseract-ocr",
    ));
    SystemCheck { items, can_type, can_ocr }
}

/// Whether a required program can be started: success where it ran at all, whatever its
/// exit status, else the install message.
pub fn require_command(outcome: &CommandOutcome, install_message: &str) -> (r: Result<(), String>)
    ensures
        match *outcome {
            CommandOutcome::NotStarted(_) => r is Err && r->Err_0@ == install_message@,
            CommandOutcome::Exited { .. } => r is Ok,
        },
{
    match outcome {
        CommandOutcome::NotStarted(_) => Err(owned(install_message)),
        CommandOutcome::Exited { .. } => Ok(()),
    }
}

/// How many times the socket is looked for after the service was started.
pub const SOCKET_POLL_ATTEMPTS: u32 = 10;

/// The wait between two looks for the socket, in milliseconds.
pub const SOCKET_POLL_MILLIS: u64 = 100;

/// Where getting `ydotool` ready stands: what it waits for next.
#[derive(Clone, Copy, Debug, PartialEq, Eq, Structural)]
pub enum ReadyPhase {
    /// Waits for the start.
    NotStarted,
    /// Waits for `ydotool --help` to run.
    CheckingYdotool,
    /// Waits to learn whether the socket is there.
    CheckingSocket,
    /// Waits for the failed state of the service to be reset.
    ResettingService,
    /// Waits for the service to be started.
    StartingService,
    /// Waits to learn whether the socket is there, on look `attempt` after the start.
    Polling { attempt: u32 },
    /// Waits out the pause after look `attempt`.
    Sleeping { attempt: u32 },
    /// Finished.
    Done,
}

/// What happened outside since the last step.
pub enum ReadyEvent {
    /// Getting ready is to begin.
    Started,
    /// The program asked for ran, with this outcome.
    Ran(CommandOutcome),
    /// Whether something exists at the socket path (false where the path is unknown).
    SocketChecked { exists: bool },
    /// The pause has passed.
    Slept,
}

/// What getting `ydotool` ready asks to be done next.
pub enum ReadyAction {
    /// Run a program with arguments (the first string is the program); `capture` says
    /// whether its output is collected rather than passed through.
    Run { command: Vec<String>, capture: bool },
    /// Find out whether the socket exists.
    CheckSocket,
    /// Wait this many milliseconds.
    Sleep { millis: u64 },
    /// Finished, with this result.
    Finish(Result<(), String>),
    /// Nothing: the event did not fit where the process stands.
    Nothing,
}

/// The message where `ydotool` cannot be run.
pub open spec fn ydotool_missing_message() -> Seq<char> {
    "ydotool is required: sudo apt install ydotool"@
}

/// The message where the service did not start.
pub open spec fn service_failed_message(reason: Seq<char>) -> Seq<char> {
    "failed to start ydotool.service: "@ + reason
}

/// The message where the service started but no socket appeared.
pub open spec fn no_socket_message() -> Seq<char> {
    "ydotool.service started but no socket appeared. If ydotoold cannot open /dev/uinput, run: sudo usermod -aG input $USER, then log out and back in."@
}

/// `ydotool --help`
pub open spec fn ydotool_help_command() -> Seq<Seq<char>> {
    seq!["ydotool"@, "--help"@]
}

/// `systemctl --user reset-failed ydotool.service`
pub open spec fn reset_service_command() -> Seq<Seq<char>> {
    seq!["systemctl"@, "--user"@, "reset-failed"@, "ydotool.service"@]
}

/// `systemctl --user start ydotool.service`
pub open spec fn start_service_command() -> Seq<Seq<char>> {
    seq!["systemctl"@, "--user"@, "start"@, "ydotool.service"@]
}

/// Why starting the service failed, if it did.
pub open spec fn start_failure(outcome: CommandOutcome) -> Option<Seq<char>> {
    match outcome {
        CommandOutcome::NotStarted(err) => Some(service_failed_message(err@)),
        CommandOutcome::Exited { success, status, stderr, .. } => if success {
            None
        } else {
            Some(service_failed_message(stderr_text(stderr@, status@)))
        },
    }
}

/// The phase that getting ready moves to on `event`.
pub open spec fn ready_next(phase: ReadyPhase, event: ReadyEvent) -> ReadyPhase {
    match (phase, event) {
        (ReadyPhase::NotStarted, ReadyEvent::Started) => ReadyPhase::CheckingYdotool,
        (ReadyPhase::CheckingYdotool, ReadyEvent::Ran(outcome)) => match outcome {
            CommandOutcome::NotStarted(_) => ReadyPhase::Done,
            _ => ReadyPhase::CheckingSocket,
        },
        (ReadyPhase::CheckingSocket, ReadyEvent::SocketChecked { exists }) => if exists {
            ReadyPhase::Done
        } else {
            ReadyPhase::ResettingService
        },
        (ReadyPhase::ResettingService, ReadyEvent::Ran(_)) => ReadyPhase::StartingService,
        (ReadyPhase::StartingService, ReadyEvent::Ran(outcome)) => if start_failure(outcome) is Some {
            ReadyPhase::Done
        } else {
            ReadyPhase::Polling { attempt: 0 }
        },
        (ReadyPhase::Polling { attempt }, ReadyEvent::SocketChecked { exists }) => if exists {
            ReadyPhase::Done
        } else {
            ReadyPhase::Sleeping { attempt }
        },
        (ReadyPhase::Sleeping { attempt }, ReadyEvent::Slept) => if attempt + 1 < SOCKET_POLL_ATTEMPTS {
            ReadyPhase::Polling { attempt: (attempt + 1) as u32 }
        } else {
            ReadyPhase::Done
        },
        _ => phase,
    }
}

/// Whether `action` runs `command`, collecting its output or not.
pub open spec fn runs(action: ReadyAction, command: Seq<Seq<char>>, capture: bool) -> bool {
    &&& action matches ReadyAction::Run { command: c, capture: k }
    &&& string_views(c@) == command
    &&& k == capture
}

/// Whether `action` finishes with an error with this message.
pub open spec fn fails_with(action: ReadyAction, msg: Seq<char>) -> bool {
    action matches ReadyAction::Finish(Err(e)) && e@ == msg
}

/// The action that getting ready asks for in `phase` on `event`.
pub open spec fn ready_action_fits(phase: ReadyPhase, event: ReadyEvent, action: ReadyAction) -> bool {
    match (phase, event) {
        (ReadyPhase::NotStarted, ReadyEvent::Started) => runs(action, ydotool_help_command(), true),
        (ReadyPhase::CheckingYdotool, ReadyEvent::Ran(outcome)) => match outcome {
            CommandOutcome::NotStarted(_) => fails_with(action, ydotool_missing_message()),
            _ => action is CheckSocket,
        },
        (ReadyPhase::CheckingSocket, ReadyEvent::SocketChecked { exists }) => if exists {
            action matches ReadyAction::Finish(Ok(()))
        } else {
            runs(action, reset_service_command(), false)
        },
        (ReadyPhase::ResettingService, ReadyEvent::Ran(_)) => runs(action, start_service_command(), true),
        (ReadyPhase::StartingService, ReadyEvent::Ran(outcome)) => match start_failure(outcome) {
            Some(msg) => fails_with(action, msg),
            None => action is CheckSocket,
        },
        (ReadyPhase::Polling { attempt }, ReadyEvent::SocketChecked { exists }) => if exists {
            action matches ReadyAction::Finish(Ok(()))
        } else {
            action == ReadyAction::Sleep { millis: SOCKET_POLL_MILLIS }
        },
        (ReadyPhase::Sleeping { attempt }, ReadyEvent::Slept) => if attempt + 1 < SOCKET_POLL_ATTEMPTS {
            action is CheckSocket
        } else {
            fails_with(action, no_socket_message())
        },
        _ => action is Nothing,
    }
}

/// The phase is consistent: look numbers stay below the number of looks.
pub open spec fn ready_wf(phase: ReadyPhase) -> bool {
    match phase {
        ReadyPhase::Polling { attempt } => attempt < SOCKET_POLL_ATTEMPTS,
        ReadyPhase::Sleeping { attempt } => attempt < SOCKET_POLL_ATTEMPTS,
        _ => true,
    }
}

/// The character sequences of a list of string slices.
pub open spec fn str_views(parts: Seq<&str>) -> Seq<Seq<char>> {
    parts.map_values(|p: &str| p@)
}

fn command_of(parts: &[&str]) -> (r: Vec<String>)
    ensures
        string_views(r@) == str_views(parts@),
{
    let mut r: Vec<String> = Vec::new();
    let n = parts.len();
    let mut i: usize = 0;
    while i < n
        invariant
            n == parts@.len(),
            i <= n,
            string_views(r@) == str_views(parts@.take(i as int)),
        decreases n - i,
    {
        let p: &str = parts[i];
        assert(p == parts@[i as int]);
        r.push(owned(p));
        assert(r@.last()@ == parts@[i as int]@);
        assert(str_views(parts@.take(i as int + 1)) =~= str_views(parts@.take(i as int)).push(parts@[i as int]@));
        assert(string_views(r@) =~= str_views(parts@.take(i as int + 1)));
        i = i + 1;
    }
    assert(parts@.take(n as int) =~= parts@);
    r
}

/// One step of getting `ydotool` ready to type: checks that `ydotool` runs, and where its
/// socket is missing resets and starts `ydotool.service` and looks for the socket up to
/// `SOCKET_POLL_ATTEMPTS` times, `SOCKET_POLL_MILLIS` apart.
pub fn ensure_ydotool_ready(phase: &mut ReadyPhase, event: ReadyEvent) -> (action: ReadyAction)
    requires
        ready_wf(*old(phase)),
    ensures
        ready_wf(*final(phase)),
        *final(phase) == ready_next(*old(phase), event),
        ready_action_fits(*old(phase), event, action),
{
    match (*phase, event) {
        (ReadyPhase::NotStarted, ReadyEvent::Started) => {
            *phase = ReadyPhase::CheckingYdotool;
            let command = command_of(&["ydotool", "--help"]);
            assert(string_views(command@) =~= ydotool_help_command());
            ReadyAction::Run { command, capture: true }
        },
        (ReadyPhase::CheckingYdotool, ReadyEvent::Ran(outcome)) => match outcome {
            CommandOutcome::NotStarted(_) => {
                *phase = ReadyPhase::Done;
                ReadyAction::Finish(Err(owned("ydotool is required: sudo apt install ydotool")))
            },
            _ => {
                *phase = ReadyPhase::CheckingSocket;
                ReadyAction::CheckSocket
            },
        },
        (ReadyPhase::CheckingSocket, ReadyEvent::SocketChecked { exists }) => if exists {
            *phase = ReadyPhase::Done;
            ReadyAction::Finish(Ok(()))
        } else {
            *phase = ReadyPhase::ResettingService;
            let command = command_of(&["systemctl", "--user", "reset-failed", "ydotool.service"]);
            assert(string_views(command@) =~= reset_service_command());
            ReadyAction::Run { command, capture: false }
        },
        (ReadyPhase::ResettingService, ReadyEvent::Ran(_)) => {
            *phase = ReadyPhase::StartingService;
            let command = command_of(&["systemctl", "--user", "start", "ydotool.service"]);
            assert(string_views(command@) =~= start_service_command());
            ReadyAction::Run { command, capture: true }
        },
        (ReadyPhase::StartingService, ReadyEvent::Ran(outcome)) => match outcome {
            CommandOutcome::NotStarted(err) => {
                *phase = ReadyPhase::Done;
                let mut msg = owned("failed to start ydotool.service: ");
                msg.append(err.as_str());
                ReadyAction::Finish(Err(msg))
            },
            CommandOutcome::Exited { success, status, stderr, .. } => if success {
                *phase = ReadyPhase::Polling { attempt: 0 };
                ReadyAction::CheckSocket
            } else {
                *phase = ReadyPhase::Done;
                let mut msg = owned("failed to start ydotool.service: ");
                let summary = crate::command::command_stderr(stderr.as_str(), status.as_str());
                msg.append(summary.as_str());
                ReadyAction::Finish(Err(msg))
            },
        },
        (ReadyPhase::Polling { attempt }, ReadyEvent::SocketChecked { exists }) => if exists {
            *phase = ReadyPhase::Done;
            ReadyAction::Finish(Ok(()))
        } else {
            *phase = ReadyPhase::Sleeping { attempt };
            ReadyAction::Sleep { millis: SOCKET_POLL_MILLIS }
        },
        (ReadyPhase::Sleeping { attempt }, ReadyEvent::Slept) => if attempt + 1 < SOCKET_POLL_ATTEMPTS {
            *phase = ReadyPhase::Polling { attempt: attempt + 1 };
            ReadyAction::CheckSocket
        } else {
            *phase = ReadyPhase::Done;
            ReadyAction::Finish(
                Err(
                    owned(
                        "ydotool.service started but no socket appeared. If ydotoold cannot open /dev/uinput, run: sudo usermod -aG input $USER, then log out and back in.",
                    ),
                ),
            )
        },
        _ => ReadyAction::Nothing,
    }
}

/// An upper bound on the steps getting ready still takes in `phase`.
pub open spec fn ready_steps_left(phase: ReadyPhase) -> int {
    match phase {
        ReadyPhase::NotStarted => 25,
        ReadyPhase::CheckingYdotool => 24,
        ReadyPhase::CheckingSocket => 23,
        ReadyPhase::ResettingService => 22,
        ReadyPhase::StartingService => 21,
        ReadyPhase::Polling { attempt } => 2 * (SOCKET_POLL_ATTEMPTS - attempt),
        ReadyPhase::Sleeping { attempt } => 2 * (SOCKET_POLL_ATTEMPTS - attempt) - 1,
        ReadyPhase::Done => 0,
    }
}

/// Getting ready always finishes: every event either does not fit and changes nothing or
/// moves strictly closer to the end, so at most 25 steps move it; in particular the socket
/// is looked for at most `SOCKET_POLL_ATTEMPTS` times after the service is started.
pub proof fn lemma_ready_terminates(phase: ReadyPhase, event: ReadyEvent)
    requires
        ready_wf(phase),
    ensures
        ready_steps_left(phase) >= 0,
        ready_next(phase, event) == phase || ready_steps_left(ready_next(phase, event))
            < ready_steps_left(phase),
{
}

/// Whatever resetting the service came to, the service is started next with
/// `systemctl --user start ydotool.service`, its output collected.
pub proof fn lemma_reset_then_start(outcome: CommandOutcome, action: ReadyAction)
    ensures
        ready_next(ReadyPhase::ResettingService, ReadyEvent::Ran(outcome))
            == ReadyPhase::StartingService,
        ready_action_fits(ReadyPhase::ResettingService, ReadyEvent::Ran(outcome), action) ==> (
        action matches ReadyAction::Run { command, capture: true } && string_views(command@)
            == seq!["systemctl"@, "--user"@, "start"@, "ydotool.service"@]),
{
}

/// The socket is looked for after a start only once the start command has run and
/// exited successfully: the first look follows a successful start, and later looks
/// follow the pause after an earlier look.
pub proof fn lemma_poll_only_after_start(phase: ReadyPhase, event: ReadyEvent)
    requires
        !(phase is Polling),
        !(phase is Sleeping),
        ready_next(phase, event) is Polling,
    ensures
        phase == ReadyPhase::StartingService,
        event matches ReadyEvent::Ran(CommandOutcome::Exited { success: true, .. }),
{
}

} // verus!
