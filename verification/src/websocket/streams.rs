//! The output of a container, and what it uses, on their way to clients.

use super::handler::{line_time, parse_docker_timestamp_prefix, timestamp_split};
use super::WsMode;
use crate::models::NetworkStats;
use crate::outside::{lossy_text, utf8_lossy};
use crate::text::{
    cat2, is_empty_text, law_split_at_first, lines, lines_of, same_text, texts, trim, trim_end,
    trim_end_of, trim_of,
};
use vstd::prelude::*;

verus! {

/// The lines of a piece of output that are shown: without the white space at their end, and none
/// that is empty then.
pub open spec fn shown_lines(all: Seq<Seq<char>>) -> Seq<Seq<char>>
    decreases all.len(),
{
    if all.len() == 0 {
        Seq::empty()
    } else {
        let line = trim_end_of(all.last());
        if line.len() == 0 {
            shown_lines(all.drop_last())
        } else {
            shown_lines(all.drop_last()).push(line)
        }
    }
}

/// The lines of a piece of output that are shown.
pub fn console_lines(message: &Vec<u8>) -> (r: Vec<String>)
    ensures
        r.deep_view() == shown_lines(lines_of(lossy_text(message@))),
{
    let text = utf8_lossy(message.as_slice());
    console_lines_in(text.as_str())
}

/// The lines of a text that are shown.
pub fn console_lines_in(text: &str) -> (r: Vec<String>)
    ensures
        r.deep_view() == shown_lines(lines_of(text@)),
{
    let all = lines(text);
    let ghost views = texts(all@);
    let mut r: Vec<String> = Vec::new();
    assert(r.deep_view() =~= Seq::<Seq<char>>::empty());
    assert(views.take(0) =~= Seq::empty());
    for i in 0..all.len()
        invariant
            views == texts(all@),
            r.deep_view() == shown_lines(views.take(i as int)),
    {
        proof {
            assert(views.take(i + 1).drop_last() =~= views.take(i as int));
            assert(views.take(i + 1).last() == all@[i as int]@);
        }
        let ghost before = r.deep_view();
        let line = trim_end(all[i].as_str());
        if !is_empty_text(line.as_str()) {
            r.push(line);
            assert(r.deep_view() =~= before.push(line@));
        }
    }
    assert(views.take(views.len() as int) =~= views);
    r
}

/// What is told about a line of output.
#[derive(Debug, Clone)]
pub enum ConsoleEvent {
    /// The line.
    Output(String),
    /// How often it came in a row, where it came before.
    Duplicate(u32),
}

/// What a [`ConsoleEvent`] holds.
#[verifier::ext_equal]
pub enum ConsoleEventView {
    Output(Seq<char>),
    Duplicate(u32),
}

impl DeepView for ConsoleEvent {
    type V = ConsoleEventView;

    open spec fn deep_view(&self) -> ConsoleEventView {
        match self {
            ConsoleEvent::Output(a) => ConsoleEventView::Output(a@),
            ConsoleEvent::Duplicate(a) => ConsoleEventView::Duplicate(*a),
        }
    }
}

/// The last line of output, and how often it came in a row.
#[derive(Debug, Clone)]
pub struct LineFilter {
    pub last_line: Option<String>,
    pub duplicate_count: u32,
}

/// What a [`LineFilter`] holds.
#[verifier::ext_equal]
pub struct LineFilterView {
    pub last_line: Option<Seq<char>>,
    pub duplicate_count: u32,
}

impl DeepView for LineFilter {
    type V = LineFilterView;

    open spec fn deep_view(&self) -> LineFilterView {
        LineFilterView {
            last_line: self.last_line.deep_view(),
            duplicate_count: self.duplicate_count,
        }
    }
}

/// What is told about a line of output: a line that is the same as the last one is only counted.
pub open spec fn filtered(filter: LineFilterView, line: Seq<char>) -> (
    LineFilterView,
    ConsoleEventView,
) {
    if filter.last_line == Some(line) {
        let count = (filter.duplicate_count + 1) as u32;
        (
            LineFilterView { duplicate_count: count, ..filter },
            ConsoleEventView::Duplicate(count),
        )
    } else {
        (
            LineFilterView { last_line: Some(line), duplicate_count: 1 },
            ConsoleEventView::Output(line),
        )
    }
}

/// Whether a line repeats the last one so often that it cannot be counted any more.
pub open spec fn is_uncountable(filter: LineFilterView, line: Seq<char>) -> bool {
    filter.last_line == Some(line) && filter.duplicate_count == u32::MAX
}

/// What is told about lines of output, one after the other, and whether all were taken: a line
/// that cannot be counted ends it.
pub open spec fn filtered_all(filter: LineFilterView, lines: Seq<Seq<char>>) -> (
    LineFilterView,
    Seq<ConsoleEventView>,
    bool,
)
    decreases lines.len(),
{
    if lines.len() == 0 {
        (filter, Seq::empty(), true)
    } else if is_uncountable(filter, lines[0]) {
        (filter, Seq::empty(), false)
    } else {
        let (next, event) = filtered(filter, lines[0]);
        let (last, events, all) = filtered_all(next, lines.drop_first());
        (last, seq![event] + events, all)
    }
}

impl LineFilter {
    /// A filter that has seen no line.
    pub fn new() -> (r: Self)
        ensures
            r.deep_view() == (LineFilterView { last_line: None, duplicate_count: 0 }),
    {
        LineFilter { last_line: None, duplicate_count: 0 }
    }

    /// Takes a line of output.
    pub fn line(&mut self, line: &str) -> (r: ConsoleEvent)
        requires
            old(self).deep_view().last_line == Some(line@) ==> old(self).duplicate_count < u32::MAX,
        ensures
            (final(self).deep_view(), r.deep_view()) == filtered(old(self).deep_view(), line@),
    {
        let same = match &self.last_line {
            Some(last) => same_text(last.as_str(), line),
            None => false,
        };
        if same {
            self.duplicate_count = self.duplicate_count + 1;
            ConsoleEvent::Duplicate(self.duplicate_count)
        } else {
            self.last_line = Some(line.to_string());
            self.duplicate_count = 1;
            ConsoleEvent::Output(line.to_string())
        }
    }

    /// Takes lines of output, in order, up to one that cannot be counted. Whether all were taken
    /// is returned too.
    pub fn lines(&mut self, lines: &Vec<String>) -> (r: (Vec<ConsoleEvent>, bool))
        ensures
            (final(self).deep_view(), r.0.deep_view(), r.1) == filtered_all(
                old(self).deep_view(),
                lines.deep_view(),
            ),
    {
        let ghost start = self.deep_view();
        let ghost all = lines.deep_view();
        let mut r: Vec<ConsoleEvent> = Vec::new();
        assert(all.skip(0) =~= all);
        assert(r.deep_view() + filtered_all(start, all).1 =~= filtered_all(start, all).1);
        for i in 0..lines.len()
            invariant
                start == old(self).deep_view(),
                all == lines.deep_view(),
                ({
                    let rest = filtered_all(self.deep_view(), all.skip(i as int));
                    filtered_all(start, all) == (rest.0, r.deep_view() + rest.1, rest.2)
                }),
        {
            let ghost before = r.deep_view();
            let ghost now = self.deep_view();
            let ghost rest = all.skip(i as int);
            assert(rest[0] == lines@[i as int]@);
            assert(rest.drop_first() =~= all.skip(i + 1));
            let repeats = match &self.last_line {
                Some(last) => same_text(last.as_str(), lines[i].as_str()),
                None => false,
            };
            if repeats && self.duplicate_count == u32::MAX {
                assert(before + Seq::<ConsoleEventView>::empty() =~= before);
                return (r, false);
            }
            let event = self.line(lines[i].as_str());
            r.push(event);
            proof {
                assert(r.deep_view() =~= before.push(event.deep_view()));
                let after = filtered_all(self.deep_view(), all.skip(i + 1));
                assert(before + (seq![event.deep_view()] + after.1) =~= r.deep_view() + after.1);
            }
        }
        assert(all.skip(all.len() as int) =~= Seq::<Seq<char>>::empty());
        assert(r.deep_view() + Seq::<ConsoleEventView>::empty() =~= r.deep_view());
        (r, true)
    }

    /// Takes a piece of output, line by line, up to a line that cannot be counted. Whether all of
    /// it was taken is returned too.
    pub fn message(&mut self, message: &Vec<u8>) -> (r: (Vec<ConsoleEvent>, bool))
        ensures
            (final(self).deep_view(), r.0.deep_view(), r.1) == filtered_all(
                old(self).deep_view(),
                shown_lines(lines_of(lossy_text(message@))),
            ),
    {
        let lines = console_lines(message);
        self.lines(&lines)
    }
}

/// The content of a line of log that bears its time, where there is any.
pub open spec fn log_content(line: Seq<char>, time: Option<i64>) -> Option<Seq<char>> {
    let trimmed = trim_of(line);
    if trimmed.len() == 0 {
        None
    } else {
        let content = trim_of(timestamp_split(trimmed, time).1);
        if content.len() == 0 {
            None
        } else {
            Some(content)
        }
    }
}

/// The contents of lines of log that bear their times.
pub open spec fn log_contents(all: Seq<Seq<char>>) -> Seq<Seq<char>>
    decreases all.len(),
{
    if all.len() == 0 {
        Seq::empty()
    } else {
        match log_content(all.last(), line_time(trim_of(all.last()))) {
            Some(content) => log_contents(all.drop_last()).push(content),
            None => log_contents(all.drop_last()),
        }
    }
}

/// The contents of a piece of log whose lines bear their times.
pub fn initial_log_lines(message: &Vec<u8>) -> (r: Vec<String>)
    ensures
        r.deep_view() == log_contents(lines_of(lossy_text(message@))),
{
    let text = utf8_lossy(message.as_slice());
    let all = lines(text.as_str());
    let ghost views = texts(all@);
    let mut r: Vec<String> = Vec::new();
    assert(r.deep_view() =~= Seq::<Seq<char>>::empty());
    assert(views.take(0) =~= Seq::empty());
    for i in 0..all.len()
        invariant
            views == texts(all@),
            r.deep_view() == log_contents(views.take(i as int)),
    {
        proof {
            assert(views.take(i + 1).drop_last() =~= views.take(i as int));
            assert(views.take(i + 1).last() == all@[i as int]@);
        }
        let ghost before = r.deep_view();
        let line = trim(all[i].as_str());
        if !is_empty_text(line.as_str()) {
            let (_, rest) = parse_docker_timestamp_prefix(line.as_str());
            let content = trim(rest.as_str());
            if !is_empty_text(content.as_str()) {
                r.push(content);
                assert(r.deep_view() =~= before.push(content@));
            }
        }
    }
    assert(views.take(views.len() as int) =~= views);
    r
}

/// The pause before another try, in milliseconds: twice the last one, up to a cap.
pub open spec fn doubled(pause_ms: u64, cap_ms: u64) -> u64 {
    if pause_ms * 2 < cap_ms {
        (pause_ms * 2) as u64
    } else {
        cap_ms
    }
}

/// The pause before another try.
pub fn next_backoff(pause_ms: u64, cap_ms: u64) -> (r: u64)
    ensures
        r == doubled(pause_ms, cap_ms),
{
    if pause_ms > cap_ms / 2 {
        cap_ms
    } else {
        pause_ms * 2
    }
}

/// What is followed of a container.
#[derive(Debug, Clone, Copy, PartialEq, Eq, Structural)]
pub enum Followed {
    /// The log, while commands go to the main process.
    Log,
    /// The output of the main process.
    Output,
    /// What the container uses.
    Usage,
    /// What the engine does with the container.
    Events,
    /// The input of the main process, to which commands go.
    Input,
}

impl Followed {
    /// The first pause before another try.
    pub open spec fn first_pause_ms(self) -> u64 {
        if self == Followed::Log {
            100
        } else {
            250
        }
    }
}

/// Follows something of a container through its restarts: a stream that ends is begun anew after
/// a pause, and the pauses grow while nothing comes.
#[derive(Debug, Clone, Copy, PartialEq, Eq, Structural)]
pub struct Follower {
    pub followed: Followed,
    /// The next pause that grows.
    pub backoff_ms: u64,
}

impl Follower {
    /// What is remembered after the container was found not to run, and the pause before the
    /// next look. Only for the log do these pauses grow.
    pub open spec fn waited(self) -> (Follower, u64) {
        match self.followed {
            Followed::Log => (
                Follower { backoff_ms: doubled(self.backoff_ms, 2000), ..self },
                self.backoff_ms,
            ),
            Followed::Input => (self, 100),
            _ => (self, 500),
        }
    }

    /// What is remembered after something came, or for the log after the container was found to
    /// run.
    pub open spec fn encouraged(self) -> Follower {
        Follower { backoff_ms: self.followed.first_pause_ms(), ..self }
    }

    /// What is remembered after a stream ended, and the pause before the next try. For the log
    /// and the input these pauses do not grow.
    pub open spec fn retried(self) -> (Follower, u64) {
        match self.followed {
            Followed::Log => (self, 250),
            Followed::Input => (self, 500),
            _ => (
                Follower { backoff_ms: doubled(self.backoff_ms, 5000), ..self },
                self.backoff_ms,
            ),
        }
    }

    /// Begins to follow something.
    pub fn new(followed: Followed) -> (r: Self)
        ensures
            r == (Follower { followed, backoff_ms: followed.first_pause_ms() }),
    {
        let backoff_ms: u64 = if followed == Followed::Log {
            100
        } else {
            250
        };
        Follower { followed, backoff_ms }
    }

    /// Takes that the container does not run. The pause before the next look is returned.
    pub fn not_running(&mut self) -> (r: u64)
        ensures
            (*final(self), r) == old(self).waited(),
    {
        match self.followed {
            Followed::Log => {
                let pause_ms: u64 = self.backoff_ms;
                self.backoff_ms = next_backoff(pause_ms, 2000);
                pause_ms
            },
            Followed::Input => 100,
            _ => 500,
        }
    }

    /// Takes that the container runs.
    pub fn running(&mut self)
        ensures
            *final(self) == if old(self).followed == Followed::Log {
                old(self).encouraged()
            } else {
                *old(self)
            },
    {
        if self.followed == Followed::Log {
            self.backoff_ms = 100;
        }
    }

    /// Takes that something came of the stream: for the output that it began, else a piece of it.
    pub fn came(&mut self)
        ensures
            *final(self) == if old(self).followed == Followed::Log {
                *old(self)
            } else {
                old(self).encouraged()
            },
    {
        if self.followed != Followed::Log {
            self.backoff_ms = 250;
        }
    }

    /// Takes that the stream ended. The pause before the next try is returned.
    pub fn ended(&mut self) -> (r: u64)
        ensures
            (*final(self), r) == old(self).retried(),
    {
        match self.followed {
            Followed::Log => 250,
            Followed::Input => 500,
            _ => {
                let pause_ms: u64 = self.backoff_ms;
                self.backoff_ms = next_backoff(pause_ms, 5000);
                pause_ms
            },
        }
    }
}

/// The bytes that networks received and sent, in all.
pub open spec fn received(networks: Seq<NetworkStats>) -> nat
    decreases networks.len(),
{
    if networks.len() == 0 {
        0
    } else {
        received(networks.drop_last()) + networks.last().rx_bytes as nat
    }
}

/// The bytes that networks sent, in all.
pub open spec fn sent(networks: Seq<NetworkStats>) -> nat
    decreases networks.len(),
{
    if networks.len() == 0 {
        0
    } else {
        sent(networks.drop_last()) + networks.last().tx_bytes as nat
    }
}

proof fn lemma_totals_grow(networks: Seq<NetworkStats>, i: int)
    requires
        0 <= i <= networks.len(),
    ensures
        received(networks.take(i)) <= received(networks),
        sent(networks.take(i)) <= sent(networks),
    decreases networks.len(),
{
    if i == networks.len() {
        assert(networks.take(i) =~= networks);
    } else {
        lemma_totals_grow(networks.drop_last(), i);
        assert(networks.drop_last().take(i) =~= networks.take(i));
    }
}

/// The bytes that networks received and sent, in all.
pub fn network_totals(networks: &Vec<NetworkStats>) -> (r: (u64, u64))
    requires
        received(networks@) <= u64::MAX,
        sent(networks@) <= u64::MAX,
    ensures
        r.0 == received(networks@),
        r.1 == sent(networks@),
{
    let mut rx: u64 = 0;
    let mut tx: u64 = 0;
    assert(networks@.take(0) =~= Seq::empty());
    for i in 0..networks.len()
        invariant
            received(networks@) <= u64::MAX,
            sent(networks@) <= u64::MAX,
            rx == received(networks@.take(i as int)),
            tx == sent(networks@.take(i as int)),
    {
        proof {
            lemma_totals_grow(networks@, i + 1);
            assert(networks@.take(i + 1).drop_last() =~= networks@.take(i as int));
            assert(networks@.take(i + 1).last() == networks@[i as int]);
        }
        rx = rx + networks[i].rx_bytes;
        tx = tx + networks[i].tx_bytes;
    }
    assert(networks@.take(networks.len() as int) =~= networks@);
    (rx, tx)
}

/// How much a counter grew; nothing where it began anew.
pub open spec fn growth(now: u64, before: u64) -> u64 {
    if now >= before {
        (now - before) as u64
    } else {
        0
    }
}

/// How far a counter of the engine went on; one that went back counts as one that stood still.
pub fn counter_delta(now: u64, before: u64) -> (r: u64)
    ensures
        r == growth(now, before),
{
    if now >= before {
        now - before
    } else {
        0
    }
}

/// How long a container has been up, in seconds: since it was started where that is known, and
/// else for as long as it was watched. A start that lies ahead counts as a number without sign.
pub open spec fn up_for(started_at: Option<i64>, now: i64, watched_secs: u64) -> int {
    match started_at {
        None => watched_secs as int,
        Some(start) => {
            let diff = now - start;
            if diff > i64::MAX {
                i64::MAX as int
            } else if diff >= 0 {
                diff
            } else if diff >= i64::MIN {
                0x1_0000_0000_0000_0000 + diff
            } else {
                0x8000_0000_0000_0000
            }
        },
    }
}

/// How long a container runs, in seconds, given when it was started where that is known, the
/// present time, and how long it was watched. A start that is yet to come counts as one so long
/// ago that the seconds wrap around.
pub fn uptime(started_at: Option<i64>, now: i64, watched_secs: u64) -> (r: u64)
    ensures
        r == up_for(started_at, now, watched_secs),
{
    match started_at {
        None => watched_secs,
        Some(start) => {
            let diff: i128 = now as i128 - start as i128;
            if diff > 9223372036854775807 {
                9223372036854775807
            } else if diff >= 0 {
                diff as u64
            } else if diff >= -9223372036854775808 {
                let wrapped: i128 = 18446744073709551616 + diff;
                wrapped as u64
            } else {
                9223372036854775808
            }
        },
    }
}

/// What is written to the main process for a command: the command and a line feed.
pub fn command_input(command: &str) -> (r: String)
    ensures
        r@ == command@.push('\n'),
{
    let mut r = command.to_string();
    r.push('\n');
    r
}

/// What becomes of a command: in attached mode it is shown, and the session hands it on; in the
/// other a shell runs it.
#[derive(Debug, Clone)]
pub enum CommandPlan {
    Show(String),
    Run(Vec<String>),
}

/// What a [`CommandPlan`] holds.
#[verifier::ext_equal]
pub enum CommandPlanView {
    Show(Seq<char>),
    Run(Seq<Seq<char>>),
}

impl DeepView for CommandPlan {
    type V = CommandPlanView;

    open spec fn deep_view(&self) -> CommandPlanView {
        match self {
            CommandPlan::Show(line) => CommandPlanView::Show(line@),
            CommandPlan::Run(words) => CommandPlanView::Run(words.deep_view()),
        }
    }
}

/// What becomes of a command: it is shown where it goes to the main process, and run by the shell
/// where it runs beside it.
pub open spec fn command_plan(command: Seq<char>, mode: WsMode) -> CommandPlanView {
    match mode {
        WsMode::Attached => CommandPlanView::Show("> "@ + command),
        WsMode::Exec => CommandPlanView::Run(seq!["sh"@, "-c"@, command]),
    }
}

/// What becomes of a command.
pub fn execute_command(command: &str, mode: WsMode) -> (r: CommandPlan)
    ensures
        r.deep_view() == command_plan(command@, mode),
{
    match mode {
        WsMode::Attached => CommandPlan::Show(cat2("> ", command)),
        WsMode::Exec => {
            let mut words: Vec<String> = Vec::new();
            words.push("sh".to_string());
            words.push("-c".to_string());
            words.push(command.to_string());
            assert(words.deep_view() =~= seq!["sh"@, "-c"@, command@]);
            CommandPlan::Run(words)
        },
    }
}

/// The line that tells that a command could not be run.
pub fn command_error(error: &str) -> (r: String)
    ensures
        r@ == "Error: "@ + error@,
{
    cat2("Error: ", error)
}

/// A line that comes again and again is shown once, and then counted from two on.
pub proof fn law_repeated_line_is_counted(filter: LineFilterView, line: Seq<char>, times: nat)
    requires
        filter.last_line != Some(line),
        times < u32::MAX,
    ensures
        filtered(filter, line).1 == ConsoleEventView::Output(line),
        repeated(filtered(filter, line).0, line, times) == (LineFilterView {
            last_line: Some(line),
            duplicate_count: (times + 1) as u32,
        }),
        times > 0 ==> filtered(
            repeated(filtered(filter, line).0, line, (times - 1) as nat),
            line,
        ).1 == ConsoleEventView::Duplicate((times + 1) as u32),
    decreases times,
{
    if times > 0 {
        law_repeated_line_is_counted(filter, line, (times - 1) as nat);
    }
}

/// A filter after a line came that many times.
pub open spec fn repeated(filter: LineFilterView, line: Seq<char>, times: nat) -> LineFilterView
    decreases times,
{
    if times == 0 {
        filter
    } else {
        filtered(repeated(filter, line, (times - 1) as nat), line).0
    }
}

/// A line that differs from the one before it is always shown.
pub proof fn law_new_line_is_shown(filter: LineFilterView, line: Seq<char>)
    requires
        filter.last_line != Some(line),
    ensures
        filtered(filter, line).1 == ConsoleEventView::Output(line),
{
}

/// Lines of output are all taken where the counter has room for them, and those that are taken are
/// told one by one.
pub proof fn law_lines_are_told(filter: LineFilterView, lines: Seq<Seq<char>>)
    ensures
        filter.duplicate_count + lines.len() <= u32::MAX ==> filtered_all(filter, lines).2,
        filtered_all(filter, lines).2 ==> filtered_all(filter, lines).1.len() == lines.len(),
    decreases lines.len(),
{
    if lines.len() > 0 && !is_uncountable(filter, lines[0]) {
        law_lines_are_told(filtered(filter, lines[0]).0, lines.drop_first());
    }
}

/// The pause before another try never exceeds its cap, and does not shrink below it.
pub proof fn law_backoff_is_bounded(pause_ms: u64, cap_ms: u64)
    ensures
        doubled(pause_ms, cap_ms) <= cap_ms,
        pause_ms <= cap_ms ==> doubled(pause_ms, cap_ms) >= pause_ms,
{
}

/// Whether the pauses of a follower are in bounds.
pub open spec fn is_patient(follower: Follower) -> bool {
    let most: u64 = if follower.followed == Followed::Log {
        2000
    } else {
        5000
    };
    follower.followed.first_pause_ms() <= follower.backoff_ms <= most
}

/// A follower waits for at most five seconds, or for two where the container does not run, and
/// never without a pause: whatever happens to it keeps its pauses in bounds.
pub proof fn law_followers_are_patient(follower: Follower, followed: Followed)
    requires
        is_patient(follower),
    ensures
        is_patient(Follower { followed, backoff_ms: followed.first_pause_ms() }),
        is_patient(follower.waited().0),
        is_patient(follower.encouraged()),
        is_patient(follower.retried().0),
        100 <= follower.waited().1 <= 2000,
        250 <= follower.retried().1 <= 5000,
{
}

/// The lines that are shown are those that hold something but white space, in order and without
/// the white space at their ends.
pub proof fn law_shown_lines(first: Seq<Seq<char>>, second: Seq<Seq<char>>, line: Seq<char>)
    ensures
        shown_lines(Seq::empty()).len() == 0,
        trim_end_of(line).len() > 0 ==> shown_lines(seq![line]) == seq![trim_end_of(line)],
        trim_end_of(line).len() == 0 ==> shown_lines(seq![line]).len() == 0,
        shown_lines(first + second) == shown_lines(first) + shown_lines(second),
    decreases second.len(),
{
    reveal_with_fuel(shown_lines, 2);
    assert(seq![line].drop_last() =~= Seq::empty());
    assert(seq![line].last() == line);
    if trim_end_of(line).len() > 0 {
        assert(shown_lines(seq![line]) =~= seq![trim_end_of(line)]);
    }
    if second.len() == 0 {
        assert(first + second =~= first);
        assert(shown_lines(first) + shown_lines(second) =~= shown_lines(first));
    } else {
        law_shown_lines(first, second.drop_last(), line);
        assert((first + second).drop_last() =~= first + second.drop_last());
        assert((first + second).last() == second.last());
        assert(shown_lines(first + second) =~= shown_lines(first) + shown_lines(second));
    }
}

/// Lines are told one after the other: those of two batches as if they were one.
pub proof fn law_filtered_in_turn(
    filter: LineFilterView,
    first: Seq<Seq<char>>,
    second: Seq<Seq<char>>,
)
    ensures
        ({
            let (between, events, all) = filtered_all(filter, first);
            let (last, more, rest) = filtered_all(between, second);
            all ==> filtered_all(filter, first + second) == (last, events + more, rest)
        }),
    decreases first.len(),
{
    let both = first + second;
    if first.len() == 0 {
        assert(both =~= second);
        let more = filtered_all(filter, second).1;
        assert(Seq::<ConsoleEventView>::empty() + more =~= more);
    } else if !is_uncountable(filter, first[0]) {
        assert(both[0] == first[0]);
        assert(both.drop_first() =~= first.drop_first() + second);
        let (next, event) = filtered(filter, first[0]);
        law_filtered_in_turn(next, first.drop_first(), second);
        let (between, events, all) = filtered_all(next, first.drop_first());
        let more = filtered_all(between, second).1;
        assert(seq![event] + (events + more) =~= (seq![event] + events) + more);
    }
}

/// A line of a log is shown without its time and without white space around it; a line that
/// holds nothing else is not shown. A line without a time is shown whole.
pub proof fn law_log_line(stamp: Seq<char>, text: Seq<char>, secs: i64)
    requires
        forall|i: int| 0 <= i < stamp.len() ==> #[trigger] stamp[i] != ' ',
        trim_of(stamp + seq![' '] + text) == stamp + seq![' '] + text,
    ensures
        ({
            let line = stamp + seq![' '] + text;
            &&& trim_of(text).len() > 0 ==> log_content(line, Some(secs)) == Some(trim_of(text))
            &&& trim_of(text).len() == 0 ==> log_content(line, Some(secs)) is None
            &&& log_content(line, None) == Some(line)
        }),
        log_content(Seq::empty(), Some(secs)) is None,
{
    law_split_at_first(stamp, text, ' ');
    let line = stamp + seq![' '] + text;
    assert(trim_of(line) == line);
}

/// The lines of a log are shown in order, each on its own.
pub proof fn law_log_lines(first: Seq<Seq<char>>, second: Seq<Seq<char>>, line: Seq<char>)
    ensures
        log_contents(Seq::empty()).len() == 0,
        log_contents(seq![line]) == match log_content(line, line_time(trim_of(line))) {
            Some(content) => seq![content],
            None => Seq::empty(),
        },
        log_contents(first + second) == log_contents(first) + log_contents(second),
    decreases second.len(),
{
    reveal_with_fuel(log_contents, 2);
    assert(seq![line].drop_last() =~= Seq::empty());
    assert(log_contents(seq![line]) =~= match log_content(line, line_time(trim_of(line))) {
        Some(content) => seq![content],
        None => Seq::empty(),
    });
    if second.len() == 0 {
        assert(first + second =~= first);
        assert(log_contents(first) + log_contents(second) =~= log_contents(first));
    } else {
        law_log_lines(first, second.drop_last(), line);
        assert((first + second).drop_last() =~= first + second.drop_last());
        assert((first + second).last() == second.last());
        assert(log_contents(first + second) =~= log_contents(first) + log_contents(second));
    }
}

/// A pause doubles until it would pass its cap.
pub proof fn law_pauses_double(pause_ms: u64, cap_ms: u64)
    ensures
        2 * pause_ms <= cap_ms ==> doubled(pause_ms, cap_ms) == 2 * pause_ms,
        2 * pause_ms >= cap_ms ==> doubled(pause_ms, cap_ms) == cap_ms,
{
}

/// The pauses of what is followed. For the log they double, up to two seconds, while the
/// container does not run; for what it uses, its output and what the engine does they double, up
/// to five seconds, while streams end. All others are fixed.
pub proof fn law_follower_pauses(follower: Follower)
    requires
        is_patient(follower),
    ensures
        follower.followed == Followed::Log ==> {
            &&& follower.waited().1 == follower.backoff_ms
            &&& follower.waited().0.backoff_ms == doubled(follower.backoff_ms, 2000)
            &&& follower.retried() == (follower, 250u64)
            &&& follower.encouraged().backoff_ms == 100
        },
        follower.followed == Followed::Input ==> {
            &&& follower.waited() == (follower, 100u64)
            &&& follower.retried() == (follower, 500u64)
        },
        follower.followed != Followed::Log && follower.followed != Followed::Input ==> {
            &&& follower.waited() == (follower, 500u64)
            &&& follower.retried().1 == follower.backoff_ms
            &&& follower.retried().0.backoff_ms == doubled(follower.backoff_ms, 5000)
            &&& follower.encouraged().backoff_ms == 250
        },
        follower.waited().0.followed == follower.followed,
        follower.retried().0.followed == follower.followed,
        follower.encouraged().followed == follower.followed,
{
}

/// What networks received and sent adds up over them, in whatever way they are grouped.
pub proof fn law_network_totals(
    first: Seq<NetworkStats>,
    second: Seq<NetworkStats>,
    one: NetworkStats,
)
    ensures
        received(Seq::empty()) == 0,
        sent(Seq::empty()) == 0,
        received(seq![one]) == one.rx_bytes,
        sent(seq![one]) == one.tx_bytes,
        received(first + second) == received(first) + received(second),
        sent(first + second) == sent(first) + sent(second),
    decreases second.len(),
{
    reveal_with_fuel(received, 2);
    reveal_with_fuel(sent, 2);
    assert(seq![one].drop_last() =~= Seq::empty());
    if second.len() == 0 {
        assert(first + second =~= first);
    } else {
        law_network_totals(first, second.drop_last(), one);
        assert((first + second).drop_last() =~= first + second.drop_last());
        assert((first + second).last() == second.last());
    }
}

/// What a counter grew by is what was added to it, and nothing where it was set back.
pub proof fn law_counter_growth(before: u64, more: u64, now: u64)
    ensures
        before + more <= u64::MAX ==> growth((before + more) as u64, before) == more,
        now < before ==> growth(now, before) == 0,
{
}

/// A container that was started some seconds ago is up for that long, however long it was
/// watched; without a time of its start it is up for as long as it was watched.
pub proof fn law_uptime(start: i64, secs: i64, watched: u64, now: i64)
    ensures
        secs >= 0 && start + secs <= i64::MAX ==> up_for(
            Some(start),
            (start + secs) as i64,
            watched,
        ) == secs,
        up_for(None, now, watched) == watched,
        0 <= up_for(Some(start), now, watched) <= u64::MAX,
{
}

/// A command is shown behind a mark, or is all that the shell is asked to run.
pub proof fn law_command_plans(command: Seq<char>)
    ensures
        command_plan(command, WsMode::Attached) == CommandPlanView::Show("> "@ + command),
        command_plan(command, WsMode::Exec) matches CommandPlanView::Run(words) && {
            &&& words.len() == 3
            &&& words[0] == "sh"@
            &&& words[1] == "-c"@
            &&& words[2] == command
        },
{
}

} // verus!
