//! What a node makes of its container engine's answers: which events count
//! as a change, how containers are named, how an inspection becomes a
//! status, and how the outcome of an action is reported.

use crate::auth_state::same_text;
use crate::command_bus::TaskStep;
use crate::message::{
    ContainerAction, ContainerLogs, ContainerStatus, Envelope, NodeContainers, NodeResponse,
    NodeResponseKind, Payload, RequestId, RequestKey, RequestType,
};
use crate::numeral::{Digits, all_digits, digits_value, read_digits};
use crate::uptime::{decimal, push_decimal};
use vstd::prelude::*;
use vstd::string::*;

verus! {

/// The actions of a container event that change the list of containers.
pub open spec fn is_change_action(action: Seq<char>) -> bool {
    action == "start"@ || action == "stop"@ || action == "die"@ || action == "destroy"@ || action
        == "create"@
}

/// Whether an engine event changes the list of containers: it is about a
/// container, and the container was created, started, stopped, destroyed,
/// or died.
pub fn is_container_change(about_container: bool, action: &str) -> (change: bool)
    ensures
        change == (about_container && is_change_action(action@)),
{
    about_container && (same_text(action, "start") || same_text(action, "stop") || same_text(
        action,
        "die",
    ) || same_text(action, "destroy") || same_text(action, "create"))
}

/// The message that reports the node's containers after a change. Nobody
/// asked for it, and its key says so.
pub open spec fn change_update(containers: Vec<String>) -> Envelope {
    Envelope::of_response(
        NodeResponse {
            kind: Some(
                NodeResponseKind::NodeContainers(
                    NodeContainers {
                        containers,
                        request_key: Some(
                            RequestKey {
                                request_type: RequestType::UpdateContainerInfo.spec_code(),
                                request_id: Some(RequestId::Unspecific(true)),
                            },
                        ),
                    },
                ),
            ),
        },
    )
}

/// Builds the message that reports the node's containers after a change.
pub fn watch_container_changes(containers: Vec<String>) -> (update: Envelope)
    ensures
        update == change_update(containers),
        update.payload matches Some(Payload::NodeResponse(response))
            && response.correlation() is None,
{
    let request_key = Some(
        RequestKey {
            request_type: RequestType::UpdateContainerInfo.code(),
            request_id: Some(RequestId::Unspecific(true)),
        },
    );
    Envelope::from_response(
        NodeResponse {
            kind: Some(NodeResponseKind::NodeContainers(NodeContainers { containers, request_key })),
        },
    )
}

/// A name without the slashes that lead it.
pub open spec fn strip_slashes(name: Seq<char>) -> Seq<char>
    decreases name.len(),
{
    if name.len() > 0 && name[0] == '/' {
        strip_slashes(name.skip(1))
    } else {
        name
    }
}

/// The names under which containers are listed: of each container that has
/// names, the first, without leading slashes; containers without a name are
/// left out.
pub open spec fn listed_names(containers: Seq<Option<Vec<String>>>) -> Seq<Seq<char>>
    decreases containers.len(),
{
    if containers.len() == 0 {
        Seq::empty()
    } else {
        let before = listed_names(containers.drop_last());
        match containers.last() {
            Some(names) if names@.len() > 0 => before.push(strip_slashes(names@[0]@)),
            _ => before,
        }
    }
}

/// The texts of a sequence of strings.
pub open spec fn texts(strings: Seq<String>) -> Seq<Seq<char>> {
    strings.map_values(|s: String| s@)
}

fn trim_leading_slashes(name: &str) -> (trimmed: String)
    ensures
        trimmed@ == strip_slashes(name@),
{
    let len = name.unicode_len();
    let mut k: usize = 0;
    proof {
        assert(name@.skip(0) == name@);
    }
    while k < len && name.get_char(k) == '/'
        invariant
            k <= len,
            len == name@.len(),
            strip_slashes(name@) == strip_slashes(name@.skip(k as int)),
        decreases len - k,
    {
        proof {
            assert(name@.skip(k as int).skip(1) == name@.skip(k + 1));
        }
        k += 1;
    }
    proof {
        assert(name@.subrange(k as int, len as int) == name@.skip(k as int));
    }
    name.substring_char(k, len).to_owned()
}

/// Names the containers that the engine lists, given the names that the
/// engine knows each by.
pub fn get_docker_containers(containers: &Vec<Option<Vec<String>>>) -> (names: Vec<String>)
    ensures
        texts(names@) == listed_names(containers@),
{
    let mut names: Vec<String> = Vec::new();
    let mut i: usize = 0;
    while i < containers.len()
        invariant
            i <= containers.len(),
            texts(names@) == listed_names(containers@.take(i as int)),
        decreases containers.len() - i,
    {
        proof {
            let next = containers@.take(i + 1);
            assert(next.drop_last() == containers@.take(i as int));
            assert(next.last() == containers@[i as int]);
        }
        let ghost before = names@;
        if let Some(known) = &containers[i] {
            if known.len() > 0 {
                let name = trim_leading_slashes(known[0].as_str());
                names.push(name);
                proof {
                    assert(texts(names@) =~= texts(before).push(name@));
                }
            }
        }
        i += 1;
    }
    proof {
        assert(containers@.take(containers.len() as int) == containers@);
    }
    names
}

/// The second of the epoch that a text in RFC 3339 form denotes; none for
/// any other text.
pub uninterp spec fn rfc3339_seconds(text: Seq<char>) -> Option<i64>;

/// `DateTime::parse_from_rfc3339`, and `DateTime::timestamp` on what it
/// parsed: the seconds since the epoch of the moment that the text denotes,
/// or none where the text is not a date and time in RFC 3339 form.
#[verifier::external_body]
fn parse_rfc3339_seconds(text: &str) -> (seconds: Option<i64>)
    ensures
        seconds == rfc3339_seconds(text@),
{
    chrono::DateTime::parse_from_rfc3339(text).ok().map(|moment| moment.timestamp())
}

/// What the engine tells about a container on inspection.
#[derive(Clone, Debug, PartialEq, Eq)]
pub struct Inspection {
    pub status: Option<String>,
    pub created: Option<String>,
    pub started_at: Option<String>,
    pub finished_at: Option<String>,
    pub exit_code: Option<i64>,
}

/// The moment that an optional text denotes, as seconds since the epoch;
/// zero where there is no text or it denotes no moment.
pub open spec fn seconds_of(text: Option<String>) -> i64 {
    match text {
        Some(text) => match rfc3339_seconds(text@) {
            Some(seconds) => seconds,
            None => 0,
        },
        None => 0,
    }
}

/// The exit code to report: the engine's, or zero where the engine gives
/// none or one that does not fit.
pub open spec fn exit_code_of(code: Option<i64>) -> i32 {
    match code {
        Some(code) if i32::MIN <= code <= i32::MAX => code as i32,
        _ => 0,
    }
}

/// `report` is the status of `container_id` with the given parts; it
/// answers no request yet.
pub open spec fn is_status_of(
    report: ContainerStatus,
    container_id: Seq<char>,
    status: Option<String>,
    created: i64,
    started_at: i64,
    finished_at: i64,
    exit_code: Option<i64>,
) -> bool {
    &&& report.request_key is None
    &&& report.container_id@ == container_id
    &&& report.status@ == (match status {
        Some(status) => status@,
        None => "unknown"@,
    })
    &&& report.created == created
    &&& report.started_at == started_at
    &&& report.finished_at == finished_at
    &&& report.exit_code == exit_code_of(exit_code)
}

/// The status of a container from the parts of an inspection, the moments
/// given in seconds. A status that the engine does not name is `unknown`.
pub fn container_status(
    container_id: &str,
    status: Option<String>,
    created: i64,
    started_at: i64,
    finished_at: i64,
    exit_code: Option<i64>,
) -> (report: ContainerStatus)
    ensures
        is_status_of(report, container_id@, status, created, started_at, finished_at, exit_code),
{
    let status = match status {
        Some(status) => status,
        None => "unknown".to_owned(),
    };
    let exit_code: i32 = match exit_code {
        Some(code) => if -2147483648 <= code && code <= 2147483647 {
            code as i32
        } else {
            0
        },
        None => 0,
    };
    ContainerStatus {
        request_key: None,
        container_id: container_id.to_owned(),
        status,
        created,
        started_at,
        finished_at,
        exit_code,
    }
}

fn seconds_or_zero(text: &Option<String>) -> (seconds: i64)
    ensures
        seconds == seconds_of(*text),
{
    match text {
        Some(text) => match parse_rfc3339_seconds(text.as_str()) {
            Some(seconds) => seconds,
            None => 0,
        },
        None => 0,
    }
}

/// The status of a container as the engine's inspection tells it: each
/// moment read from its RFC 3339 text, and zero where that fails.
pub fn get_container_status(container_id: &str, inspection: Inspection) -> (report: ContainerStatus)
    ensures
        is_status_of(
            report,
            container_id@,
            inspection.status,
            seconds_of(inspection.created),
            seconds_of(inspection.started_at),
            seconds_of(inspection.finished_at),
            inspection.exit_code,
        ),
{
    let created = seconds_or_zero(&inspection.created);
    let started_at = seconds_or_zero(&inspection.started_at);
    let finished_at = seconds_or_zero(&inspection.finished_at);
    container_status(
        container_id,
        inspection.status,
        created,
        started_at,
        finished_at,
        inspection.exit_code,
    )
}

/// `report` says that `action` on `container_id` went well, in the words of
/// `message`; it answers no request yet.
pub open spec fn is_action_report(
    report: ContainerAction,
    container_id: Seq<char>,
    action: Seq<char>,
    message: Seq<char>,
) -> bool {
    &&& report.request_key is None
    &&& report.container_id@ == container_id
    &&& report.action@ == action
    &&& report.message@ == message
}

fn action_report(container_id: &str, action: &str, message: &str) -> (report: ContainerAction)
    ensures
        is_action_report(report, container_id@, action@, message@),
{
    ContainerAction {
        request_key: None,
        container_id: container_id.to_owned(),
        action: action.to_owned(),
        message: message.to_owned(),
    }
}

/// Reports how starting a container went: the engine's error, or success.
pub fn start_container(container_id: &str, outcome: Result<(), String>) -> (report: Result<
    ContainerAction,
    String,
>)
    ensures
        match outcome {
            Ok(_) => report matches Ok(done) && is_action_report(
                done,
                container_id@,
                "start"@,
                "Container started successfully"@,
            ),
            Err(error) => report == Err::<ContainerAction, String>(error),
        },
{
    match outcome {
        Ok(_) => Ok(action_report(container_id, "start", "Container started successfully")),
        Err(error) => Err(error),
    }
}

/// Reports how stopping a container went: the engine's error, or success.
pub fn stop_container(container_id: &str, outcome: Result<(), String>) -> (report: Result<
    ContainerAction,
    String,
>)
    ensures
        match outcome {
            Ok(_) => report matches Ok(done) && is_action_report(
                done,
                container_id@,
                "stop"@,
                "Container stopped successfully"@,
            ),
            Err(error) => report == Err::<ContainerAction, String>(error),
        },
{
    match outcome {
        Ok(_) => Ok(action_report(container_id, "stop", "Container stopped successfully")),
        Err(error) => Err(error),
    }
}

/// Reports how deleting a container went: the engine's error, or success.
pub fn delete_container(container_id: &str, outcome: Result<(), String>) -> (report: Result<
    ContainerAction,
    String,
>)
    ensures
        match outcome {
            Ok(_) => report matches Ok(done) && is_action_report(
                done,
                container_id@,
                "delete"@,
                "Container deleted successfully"@,
            ),
            Err(error) => report == Err::<ContainerAction, String>(error),
        },
{
    match outcome {
        Ok(_) => Ok(action_report(container_id, "delete", "Container deleted successfully")),
        Err(error) => Err(error),
    }
}

/// The decimal numeral of a signed number.
pub open spec fn signed_decimal(n: int) -> Seq<char> {
    if n < 0 {
        seq!['-'] + decimal((-n) as nat)
    } else {
        decimal(n as nat)
    }
}

/// The text by which the engine is asked for the last `tail` lines.
pub fn tail_text(tail: i32) -> (text: String)
    ensures
        text@ == signed_decimal(tail as int),
{
    let mut text = String::new();
    if tail < 0 {
        proof {
            reveal_strlit("-");
        }
        text.append("-");
        let magnitude: u64 = (-(tail as i64)) as u64;
        push_decimal(&mut text, magnitude);
        assert(text@ =~= signed_decimal(tail as int));
    } else {
        push_decimal(&mut text, tail as u64);
        assert(text@ =~= signed_decimal(tail as int));
    }
    text
}

/// From when on a log is read.
#[derive(Clone, Copy, Debug, PartialEq, Eq)]
pub enum Since {
    /// From its beginning.
    Unset,
    /// From this second of the epoch.
    At(i32),
    /// The second asked for is beyond what the engine can be asked.
    OutOfRange,
}

/// The number that a signed numeral denotes: an optional sign and then one
/// or more decimal digits. Any other text denotes none.
pub open spec fn signed_value(text: Seq<char>) -> Option<int> {
    if text.len() > 0 && text[0] == '-' {
        if text.len() > 1 && all_digits(text.skip(1)) {
            Some(-(digits_value(text.skip(1)) as int))
        } else {
            None
        }
    } else if text.len() > 0 && text[0] == '+' {
        if text.len() > 1 && all_digits(text.skip(1)) {
            Some(digits_value(text.skip(1)) as int)
        } else {
            None
        }
    } else if text.len() > 0 && all_digits(text) {
        Some(digits_value(text) as int)
    } else {
        None
    }
}

/// From when on to read a log, given the text of the request: a numeral of
/// 64 bits names the second, and any other text, or none, leaves it unset.
/// A second that does not fit in 32 bits is out of range.
pub open spec fn since_of(text: Option<String>) -> Since {
    match text {
        Some(text) => match signed_value(text@) {
            Some(second) if i32::MIN <= second <= i32::MAX => Since::At(second as i32),
            Some(second) if i64::MIN <= second <= i64::MAX => Since::OutOfRange,
            _ => Since::Unset,
        },
        None => Since::Unset,
    }
}

/// Reads from when on a log is asked for.
pub fn log_since(since: &Option<String>) -> (from: Since)
    ensures
        from == since_of(*since),
{
    let text = match since {
        Some(text) => text.as_str(),
        None => { return Since::Unset; },
    };
    let len = text.unicode_len();
    if len == 0 {
        return Since::Unset;
    }
    let first = text.get_char(0);
    let negative = first == '-';
    let start: usize = if first == '-' || first == '+' {
        1
    } else {
        0
    };
    proof {
        assert(text@.skip(0) == text@);
    }
    match read_digits(text, start, 9223372036854775808) {
        Digits::Value(magnitude) => {
            if negative {
                if magnitude <= 2147483648 {
                    Since::At((-(magnitude as i64)) as i32)
                } else {
                    Since::OutOfRange
                }
            } else if magnitude <= 2147483647 {
                Since::At(magnitude as i32)
            } else if magnitude <= 9223372036854775807 {
                Since::OutOfRange
            } else {
                Since::Unset
            }
        },
        _ => Since::Unset,
    }
}

/// The lines of a container's log as they are read from the engine.
pub struct LogReading {
    container_id: String,
    follow: bool,
    limit: i32,
    lines: Vec<String>,
}

impl LogReading {
    /// The lines read so far.
    pub closed spec fn lines(&self) -> Seq<String> {
        self.lines@
    }

    /// Whether the log is followed rather than read to its end.
    pub closed spec fn follows(&self) -> bool {
        self.follow
    }

    /// The number of lines after which a followed log is left.
    pub closed spec fn limit(&self) -> int {
        self.limit as int
    }

    /// The container whose log is read.
    pub closed spec fn container(&self) -> Seq<char> {
        self.container_id@
    }

    /// Enough has been read: the log is followed and the limit is reached.
    pub open spec fn full(&self) -> bool {
        self.follows() && self.lines().len() >= self.limit()
    }

    /// Begins to read the log of `container_id`. A followed log is left
    /// after `tail` lines, or after 100 where no number is given.
    pub fn new(container_id: &str, tail: Option<i32>, follow: bool) -> (reading: Self)
        ensures
            reading.container() == container_id@,
            reading.lines() == Seq::<String>::empty(),
            reading.follows() == follow,
            reading.limit() == (match tail {
                Some(tail) => tail as int,
                None => 100,
            }),
    {
        let limit: i32 = match tail {
            Some(tail) => tail,
            None => 100,
        };
        LogReading { container_id: container_id.to_owned(), follow, limit, lines: Vec::new() }
    }

    /// Takes the next chunk of the log: a chunk that is text becomes a line,
    /// one that is not is passed over. Reading goes on until a followed log
    /// has its number of lines.
    pub fn accept(&mut self, chunk: Option<String>) -> (step: TaskStep)
        ensures
            final(self).container() == old(self).container(),
            final(self).follows() == old(self).follows(),
            final(self).limit() == old(self).limit(),
            final(self).lines() == (match chunk {
                Some(line) => old(self).lines().push(line),
                None => old(self).lines(),
            }),
            step == (if chunk is Some && final(self).full() {
                TaskStep::Stop
            } else {
                TaskStep::Continue
            }),
    {
        match chunk {
            Some(line) => {
                self.lines.push(line);
                if self.follow && (self.limit <= 0 || self.lines.len() >= self.limit as usize) {
                    TaskStep::Stop
                } else {
                    TaskStep::Continue
                }
            },
            None => TaskStep::Continue,
        }
    }

    /// The log as read: the container and its lines, in the order read. It
    /// answers no request yet.
    pub fn finish(self) -> (logs: ContainerLogs)
        ensures
            logs.request_key is None,
            logs.container_id@ == self.container(),
            logs.logs@ == self.lines(),
    {
        ContainerLogs { request_key: None, container_id: self.container_id, logs: self.lines }
    }
}

} // verus!
