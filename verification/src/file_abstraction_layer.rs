//! The decisions of the commands that the interface calls: when to ask the
//! privileged service, what its answer means, where it keeps its files, and
//! how its process id is read back.
use vstd::prelude::*;
use vstd::string::StringExecFns;
use crate::text::{
    before_newline, chars_of, concat2, concat3, decimal_value, is_decimal_digit,
    is_unicode_whitespace, newline_position, trim_end, trim_start, parse_i32, parse_i32_value, push_char, trim,
    trim_bounds, unsigned_part,
};

verus! {

/// The directory in which the service and the interface meet, for `user`.
pub open spec fn cache_dir_path(user: Seq<char>) -> Seq<char> {
    "/home/"@ + user + "/.cache/com.anis.file_explorer/"@
}

/// `cache_dir_path(user)`.
pub fn app_cache_dir(user: &str) -> (dir: String)
    ensures
        dir@ == cache_dir_path(user@),
{
    concat3("/home/", user, "/.cache/com.anis.file_explorer/")
}

/// The file in which the service writes its process id.
pub fn pid_file_path(cache_dir: &str) -> (path: String)
    ensures
        path@ == cache_dir@ + "PID.txt"@,
{
    concat2(cache_dir, "PID.txt")
}

/// The service executable that sits beside the interface's executable in
/// `exe_dir`, joined with the platform's path separator.
pub fn service_executable_path(exe_dir: &str, separator: char) -> (path: String)
    ensures
        path@ == exe_dir@.push(separator) + "service"@,
{
    let mut path = String::from_str(exe_dir);
    push_char(&mut path, separator);
    path.append("service");
    path
}

/// Whether launching the service succeeded, from the exit code of the
/// launcher (`None` when it was ended by a signal).
pub fn launch_succeeded(exit_code: Option<i32>) -> (ok: bool)
    ensures
        ok == (exit_code == Some(0i32)),
{
    let code = match exit_code {
        Some(c) => c,
        None => -1,
    };
    code == 0
}

/// The process id written in `content`: its first line, trimmed, read as an
/// `i32`; 0 when that is not a number. (A carriage return before the line
/// feed is whitespace, so it makes no difference whether the line ends at
/// the line feed or before the carriage return.)
pub open spec fn pid_from(content: Seq<char>) -> i32 {
    match parse_i32_value(trim(before_newline(content))) {
        Some(v) => v,
        None => 0,
    }
}

/// `pid_from(content)`.
pub fn parse_pid(content: &str) -> (pid: i32)
    ensures
        pid == pid_from(content@),
{
    let cs = chars_of(content);
    let k = newline_position(cs.as_slice());
    let mut line: Vec<char> = Vec::new();
    for i in 0..k
        invariant
            k <= cs@.len(),
            line@ == cs@.take(i as int),
    {
        line.push(cs[i]);
        assert(cs@.take(i + 1) =~= cs@.take(i as int).push(cs@[i as int]));
    }
    let (a, b) = trim_bounds(line.as_slice());
    let mut trimmed: Vec<char> = Vec::new();
    for i in a..b
        invariant
            a <= b <= line@.len(),
            trimmed@ == line@.subrange(a as int, i as int),
    {
        trimmed.push(line[i]);
        assert(line@.subrange(a as int, i + 1) =~= line@.subrange(a as int, i as int).push(
            line@[i as int],
        ));
    }
    match parse_i32(trimmed.as_slice()) {
        Some(v) => v,
        None => 0,
    }
}

/// The process id of the service read from `content`, when it is usable:
/// a launch that reads 0 has failed.
pub fn accept_service_pid(content: &str) -> (pid: Option<i32>)
    ensures
        pid == (if pid_from(content@) == 0 {
            None
        } else {
            Some(pid_from(content@))
        }),
{
    let p = parse_pid(content);
    if p == 0 {
        None
    } else {
        Some(p)
    }
}

/// What the interface knows of the privileged service: whether it runs, and
/// its process id (0 while none has been read).
#[derive(Clone, Copy, Debug, PartialEq, Eq, Structural)]
pub struct ServiceRecord {
    pub running: bool,
    pub pid: i32,
}

impl ServiceRecord {
    /// A process id is only ever recorded for a running service.
    pub open spec fn wf(self) -> bool {
        self.pid != 0 ==> self.running
    }
}

/// The record before any launch: not running, no process id.
pub fn initial_service_record() -> (r: ServiceRecord)
    ensures
        r == (ServiceRecord { running: false, pid: 0 }),
        r.wf(),
{
    ServiceRecord { running: false, pid: 0 }
}

/// What happened at a step of launching the service.
pub enum LaunchEvent {
    /// The launcher exited with this code (`None`: ended by a signal).
    LauncherExited(Option<i32>),
    /// The pipes to the service could not be set up.
    PipesFailed,
    /// The pipes were set up, and the service's file held this text.
    PidFileRead(String),
}

/// What to do next while launching the service.
#[derive(Clone, Copy, Debug, PartialEq, Eq, Structural)]
pub enum LaunchAction {
    /// Stop: the launch failed.
    GiveUp,
    /// Wait for the process id file, then set up the pipes.
    ConnectPipes,
    /// Stop: the service runs and its process id is recorded.
    Launched,
}

/// One step of launching the service: the record after `event`, and what
/// to do next. A launcher that exits with 0 marks the service running; a
/// usable process id (see `accept_service_pid`) is recorded; every failure
/// leaves the record as it was.
pub fn launch_step(record: ServiceRecord, event: LaunchEvent) -> (r: (ServiceRecord, LaunchAction))
    ensures
        match event {
            LaunchEvent::LauncherExited(code) => if code == Some(0i32) {
                r == (ServiceRecord { running: true, pid: record.pid }, LaunchAction::ConnectPipes)
            } else {
                r == (record, LaunchAction::GiveUp)
            },
            LaunchEvent::PipesFailed => r == (record, LaunchAction::GiveUp),
            LaunchEvent::PidFileRead(content) => if pid_from(content@) == 0 {
                r == (record, LaunchAction::GiveUp)
            } else {
                r == (ServiceRecord { running: true, pid: pid_from(content@) }, LaunchAction::Launched)
            },
        },
        record.wf() ==> r.0.wf(),
{
    match event {
        LaunchEvent::LauncherExited(code) => {
            if launch_succeeded(code) {
                (ServiceRecord { running: true, pid: record.pid }, LaunchAction::ConnectPipes)
            } else {
                (record, LaunchAction::GiveUp)
            }
        },
        LaunchEvent::PipesFailed => (record, LaunchAction::GiveUp),
        LaunchEvent::PidFileRead(content) => match accept_service_pid(content.as_str()) {
            None => (record, LaunchAction::GiveUp),
            Some(pid) => (ServiceRecord { running: true, pid }, LaunchAction::Launched),
        },
    }
}

/// Whether the local answer about a path calls for the privileged service:
/// the local check was refused for lack of permission.
pub fn needs_elevation(local: (bool, bool)) -> (ask: bool)
    ensures
        ask == local.1,
{
    local.1
}

/// What became of asking the privileged service about a path.
#[derive(Clone, Copy, Debug, PartialEq, Eq, Structural)]
pub enum ElevatedCheck {
    /// The service could not be started, so it was not asked.
    NotLaunched,
    /// The service was started, asked, and its reply read.
    Answered,
}

/// Whether a path exists, from the local answer (exists, refused) and,
/// when the local check was refused, what asking the service gave. A read
/// reply counts as "exists": it is told apart from the text `false` by
/// comparing the address of the freshly allocated reply buffer with that of
/// the literal, which never coincide.
pub fn path_exists(local: (bool, bool), elevated: ElevatedCheck) -> (exists: bool)
    ensures
        exists == (if local.1 && elevated == ElevatedCheck::Answered {
            true
        } else {
            local.0
        }),
{
    if local.1 {
        match elevated {
            ElevatedCheck::Answered => true,
            ElevatedCheck::NotLaunched => local.0,
        }
    } else {
        local.0
    }
}

/// The decimal digit for `d`.
pub open spec fn digit_char(d: int) -> char {
    if d == 0 {
        '0'
    } else if d == 1 {
        '1'
    } else if d == 2 {
        '2'
    } else if d == 3 {
        '3'
    } else if d == 4 {
        '4'
    } else if d == 5 {
        '5'
    } else if d == 6 {
        '6'
    } else if d == 7 {
        '7'
    } else if d == 8 {
        '8'
    } else {
        '9'
    }
}

/// The decimal notation of `n`, without sign or leading zeros (what
/// formatting an unsigned integer with `{}` writes).
pub open spec fn decimal_text(n: nat) -> Seq<char>
    decreases n,
{
    if n < 10 {
        seq![digit_char(n as int)]
    } else {
        decimal_text(n / 10).push(digit_char((n % 10) as int))
    }
}

/// `digit_char(d)`.
fn digit_for(d: u32) -> (c: char)
    requires
        d < 10,
    ensures
        c == digit_char(d as int),
{
    if d == 0 {
        '0'
    } else if d == 1 {
        '1'
    } else if d == 2 {
        '2'
    } else if d == 3 {
        '3'
    } else if d == 4 {
        '4'
    } else if d == 5 {
        '5'
    } else if d == 6 {
        '6'
    } else if d == 7 {
        '7'
    } else if d == 8 {
        '8'
    } else {
        '9'
    }
}

/// The line that the service writes into its process id file: the id in
/// decimal, then a line feed.
pub fn pid_file_text(pid: u32) -> (text: String)
    ensures
        text@ == decimal_text(pid as nat) + "\n"@,
{
    let mut digits: Vec<char> = Vec::new();
    let mut rest: u32 = pid;
    loop
        invariant_except_break
            decimal_text(pid as nat) == decimal_text(rest as nat) + digits@.reverse(),
        ensures
            decimal_text(pid as nat) == digits@.reverse(),
        decreases rest,
    {
        if rest < 10 {
            let ghost before = digits@;
            digits.push(digit_for(rest));
            assert(digits@.reverse() =~= seq![digit_char(rest as int)] + before.reverse());
            break;
        }
        let d = rest % 10;
        let ghost before = digits@;
        digits.push(digit_for(d));
        assert(decimal_text(rest as nat) == decimal_text((rest / 10) as nat).push(digit_char(d as int)));
        assert(digits@.reverse() =~= seq![digit_char(d as int)] + before.reverse());
        assert(decimal_text(rest as nat) + before.reverse() =~= decimal_text((rest / 10) as nat)
            + digits@.reverse());
        rest = rest / 10;
    }
    let ghost all = digits@.reverse();
    let mut text = String::new();
    let n = digits.len();
    let mut i: usize = n;
    while i > 0
        invariant
            i <= n,
            n == digits@.len(),
            all == digits@.reverse(),
            text@ == all.take(n - i),
        decreases i,
    {
        i = i - 1;
        push_char(&mut text, digits[i]);
        assert(all.take(n - i) =~= all.take(n - i - 1).push(digits@[i as int]));
    }
    assert(all.take(n as int) =~= all);
    text.append("\n");
    text
}

/// `digit_char(d)` is the digit of value `d`.
proof fn lemma_digit_char(d: int)
    requires
        0 <= d < 10,
    ensures
        is_decimal_digit(digit_char(d)),
        (digit_char(d) as int) - ('0' as int) == d,
{
}

/// The notation `decimal_text(n)` is made of digits and reads back as `n`.
proof fn lemma_decimal_text(n: nat)
    ensures
        decimal_text(n).len() > 0,
        forall|i: int|
            0 <= i < decimal_text(n).len() ==> is_decimal_digit(#[trigger] decimal_text(n)[i]),
        decimal_value(decimal_text(n)) == n,
    decreases n,
{
    if n < 10 {
        lemma_digit_char(n as int);
        let dt = decimal_text(n);
        assert(dt.drop_last() =~= Seq::<char>::empty());
        assert(decimal_value(dt.drop_last()) == 0);
        assert(dt.last() == digit_char(n as int));
        assert(decimal_value(dt) == decimal_value(dt.drop_last()) * 10 + ((dt.last() as int) - ('0' as int)));
    } else {
        lemma_decimal_text(n / 10);
        lemma_digit_char((n % 10) as int);
        let t = decimal_text(n / 10);
        assert(decimal_text(n).drop_last() =~= t);
        assert forall|i: int| 0 <= i < decimal_text(n).len() implies is_decimal_digit(
            #[trigger] decimal_text(n)[i],
        ) by {
            if i < t.len() {
                assert(decimal_text(n)[i] == t[i]);
            }
        }
        let dt = decimal_text(n);
        assert(dt.last() == digit_char((n % 10) as int));
        assert(decimal_value(dt) == decimal_value(dt.drop_last()) * 10 + ((dt.last() as int) - ('0' as int)));
        assert(decimal_value(t) == n / 10);
        assert((n / 10) * 10 + n % 10 == n) by (nonlinear_arith);
    }
}

/// What the service writes about its process id, the interface reads
/// back: a line holding the decimal id gives that id when it fits an
/// `i32`, and 0 (no usable id) otherwise.
pub proof fn lemma_pid_round_trip(pid: u32)
    ensures
        pid_from(decimal_text(pid as nat) + "\n"@) == (if pid <= i32::MAX {
            pid as i32
        } else {
            0i32
        }),
{
    reveal_strlit("\n");
    let d = decimal_text(pid as nat);
    lemma_decimal_text(pid as nat);
    lemma_before_newline_of_digits(d);
    assert(!is_unicode_whitespace(d[0]));
    assert(!is_unicode_whitespace(d.last()));
    assert("\n"@ =~= seq!['\n']);
    assert(before_newline(d + "\n"@) == d);
    assert(trim_start(d) == d);
    assert(trim_end(d) == d);
    assert(trim(d) == d);
    assert(d[0] != '-' && d[0] != '+');
    assert(unsigned_part(d) == d);
    assert(decimal_value(d) == pid as int);
    if pid <= i32::MAX {
        assert(parse_i32_value(d) == Some(pid as i32));
    } else {
        assert(parse_i32_value(d) is None);
    }
}

/// The characters before the line feed that ends a line of digits are the
/// digits.
proof fn lemma_before_newline_of_digits(d: Seq<char>)
    requires
        forall|i: int| 0 <= i < d.len() ==> is_decimal_digit(#[trigger] d[i]),
    ensures
        before_newline(d + seq!['\n']) == d,
    decreases d.len(),
{
    if d.len() == 0 {
        assert(d + seq!['\n'] =~= seq!['\n']);
    } else {
        let rest = d.drop_first();
        assert forall|i: int| 0 <= i < rest.len() implies is_decimal_digit(#[trigger] rest[i]) by {
            assert(rest[i] == d[i + 1]);
        }
        lemma_before_newline_of_digits(rest);
        assert(is_decimal_digit(d[0]));
        assert((d + seq!['\n']).drop_first() =~= rest + seq!['\n']);
        assert(seq![d[0]] + rest =~= d);
    }
}

} // verus!
