use vstd::prelude::*;
use crate::lang::{Language, TestRunnerType};
use crate::report::TestResult;

verus! {

/// The persistent configuration of the GUI; paths are kept as text.
#[derive(Clone, Debug, Default)]
pub struct Config {
    pub watch: Option<String>,
    pub input: Option<String>,
    pub output: Option<String>,
    pub lang: Option<Language>,
    pub source: Option<String>,
    pub test_runner: Option<String>,
    pub test_runner_type: Option<TestRunnerType>,
}

/// The messages that the GUI and the test worker exchange.
#[derive(Clone, Debug)]
pub enum Message {
    /// The GUI has started, with this configuration.
    Setup(Config),
    /// Run all the tests.
    RunAll,
    /// A test run has finished with this result.
    Result(TestResult),
    /// A watched file has changed.
    WatchedChanged,
}

/// What the GUI remembers between frames: the last test result, if any.
pub struct State {
    pub last_result: Option<TestResult>,
}

/// The label shown for a result: "-" without one, else "PASS" or "FAIL".
pub open spec fn result_label_text(r: Option<TestResult>) -> Seq<char> {
    match r {
        None => seq!['-'],
        Some(TestResult::Pass(_)) => seq!['P', 'A', 'S', 'S'],
        Some(TestResult::Fail(_)) => seq!['F', 'A', 'I', 'L'],
    }
}

/// How a received message changes the last result, and what the GUI sends back.
pub open spec fn after_message(last: Option<TestResult>, msg: Message) -> (Option<TestResult>, Option<Message>) {
    match msg {
        Message::Result(r) => (Some(r), None),
        Message::WatchedChanged => (None, Some(Message::RunAll)),
        _ => (last, None),
    }
}

impl Default for State {
    fn default() -> (s: State)
        ensures
            s.last_result is None,
    {
        State { last_result: None }
    }
}

impl State {
    /// Takes in a message received from the worker. A result becomes the last
    /// result; a change of a watched file clears it and asks to run all tests
    /// again, by the message returned; any other message changes nothing.
    pub fn handle_message(&mut self, msg: Message) -> (reply: Option<Message>)
        ensures
            (final(self).last_result, reply) == after_message(old(self).last_result, msg),
            msg is Result ==> final(self).last_result == Some(msg->Result_0) && reply is None,
            msg is WatchedChanged ==> final(self).last_result is None && reply == Some(Message::RunAll),
            (msg is Setup || msg is RunAll) ==> final(self).last_result == old(self).last_result && reply is None,
    {
        match msg {
            Message::Result(new_result) => {
                self.last_result = Some(new_result);
                None
            },
            Message::WatchedChanged => {
                self.last_result = None;
                Some(Message::RunAll)
            },
            _ => None,
        }
    }

    /// The "Run all" button: clears the last result and gives the message to send.
    pub fn run_all(&mut self) -> (msg: Message)
        ensures
            final(self).last_result is None,
            msg == Message::RunAll,
    {
        self.last_result = None;
        Message::RunAll
    }

    /// The label of the side panel for the last result.
    pub fn result_label(&self) -> (label: &'static str)
        ensures
            label@ == result_label_text(self.last_result),
            self.last_result is None ==> label@ == seq!['-'],
            self.last_result matches Some(r) ==> (r is Pass ==> label@ == seq!['P', 'A', 'S', 'S']),
            self.last_result matches Some(r) ==> (r is Fail ==> label@ == seq!['F', 'A', 'I', 'L']),
    {
        proof {
            reveal_strlit("-");
            reveal_strlit("PASS");
            reveal_strlit("FAIL");
            assert("-"@ =~= seq!['-']);
            assert("PASS"@ =~= seq!['P', 'A', 'S', 'S']);
            assert("FAIL"@ =~= seq!['F', 'A', 'I', 'L']);
        }
        match &self.last_result {
            None => "-",
            Some(TestResult::Pass(_)) => "PASS",
            Some(TestResult::Fail(_)) => "FAIL",
        }
    }
}

impl State {
    /// The label that the side panel shows in a frame that received `msg`:
    /// the label of the last result once the message is taken in, and before
    /// a click on "Run all" in the same frame.
    pub fn label_after_message(&self, msg: &Option<Message>) -> (label: &'static str)
        ensures
            label@ == result_label_text(after_frame(self.last_result, (Frame { msg: *msg, run_all_clicked: false }))),
            msg matches Some(m) ==> (m matches Message::Result(r) ==> (r is Pass ==> label@ == seq!['P', 'A', 'S', 'S'])),
            msg matches Some(m) ==> (m matches Message::Result(r) ==> (r is Fail ==> label@ == seq!['F', 'A', 'I', 'L'])),
            msg matches Some(m) ==> (m is WatchedChanged ==> label@ == seq!['-']),
    {
        proof {
            reveal_strlit("-");
            reveal_strlit("PASS");
            reveal_strlit("FAIL");
            assert("-"@ =~= seq!['-']);
            assert("PASS"@ =~= seq!['P', 'A', 'S', 'S']);
            assert("FAIL"@ =~= seq!['F', 'A', 'I', 'L']);
        }
        match msg {
            Some(Message::Result(TestResult::Pass(_))) => "PASS",
            Some(Message::Result(TestResult::Fail(_))) => "FAIL",
            Some(Message::WatchedChanged) => "-",
            _ => self.result_label(),
        }
    }

    /// One frame of the GUI: takes in the received message, if any, then the
    /// click on "Run all", if any, and gives the messages to send, in order.
    pub fn frame(&mut self, msg: Option<Message>, run_all_clicked: bool) -> (sent: Vec<Message>)
        ensures
            final(self).last_result == after_frame(old(self).last_result, (Frame { msg, run_all_clicked })),
            sent@ == frame_sends(old(self).last_result, (Frame { msg, run_all_clicked })),
            run_all_clicked ==> final(self).last_result is None,
            run_all_clicked ==> sent@.len() >= 1 && sent@.last() == Message::RunAll,
            msg is None ==> sent@ == (if run_all_clicked { seq![Message::RunAll] } else { Seq::<Message>::empty() }),
            msg is None && !run_all_clicked ==> final(self).last_result == old(self).last_result,
            !run_all_clicked ==> (msg matches Some(m) ==> (m is Result ==> final(self).last_result == Some(m->Result_0))),
            !run_all_clicked ==> (msg matches Some(m) ==> (m is WatchedChanged ==> final(self).last_result is None
                && sent@ == seq![Message::RunAll])),
    {
        let mut sent: Vec<Message> = Vec::new();
        if let Some(m) = msg {
            if let Some(reply) = self.handle_message(m) {
                sent.push(reply);
            }
        }
        if run_all_clicked {
            let m = self.run_all();
            sent.push(m);
        }
        proof {
            assert(sent@ =~= frame_sends(old(self).last_result, (Frame { msg, run_all_clicked })));
        }
        sent
    }
}

/// In every frame where "Run all" is clicked, the shown result is cleared and
/// the last message sent is `RunAll`, whether a message arrived or not; in a
/// frame where no message arrived, that click is answered by exactly one
/// `RunAll`, and a frame with neither a message nor a click sends nothing and
/// keeps the result.
pub proof fn lemma_click_sends_run_all(last: Option<TestResult>, msg: Option<Message>, clicked: bool)
    ensures
        clicked ==> after_frame(last, (Frame { msg, run_all_clicked: clicked })) is None,
        clicked ==> frame_sends(last, (Frame { msg, run_all_clicked: clicked })).len() >= 1
            && frame_sends(last, (Frame { msg, run_all_clicked: clicked })).last() == Message::RunAll,
        msg is None && clicked ==> frame_sends(last, (Frame { msg, run_all_clicked: clicked })) == seq![Message::RunAll],
        msg is None && !clicked ==> frame_sends(last, (Frame { msg, run_all_clicked: clicked })).len() == 0
            && after_frame(last, (Frame { msg, run_all_clicked: clicked })) == last,
{
    let f = Frame { msg, run_all_clicked: clicked };
    if msg is None {
        assert(frame_sends(last, f) =~= (if clicked { seq![Message::RunAll] } else { Seq::<Message>::empty() }));
    }
}

/// A result that arrives is what the side panel then shows: "PASS" for a
/// passed result, "FAIL" for a failed one, whatever was shown before.
pub proof fn lemma_label_shows_arrived_result(last: Option<TestResult>, r: TestResult)
    ensures
        result_label_text(after_message(last, Message::Result(r)).0) == match r {
            TestResult::Pass(_) => seq!['P', 'A', 'S', 'S'],
            TestResult::Fail(_) => seq!['F', 'A', 'I', 'L'],
        },
{
}

/// A change of a watched file always clears the shown result and asks to run
/// all tests, whatever the state; the panel then shows "-".
pub proof fn lemma_watched_change_reruns(last: Option<TestResult>)
    ensures
        after_message(last, Message::WatchedChanged) == (None::<TestResult>, Some(Message::RunAll)),
        result_label_text(after_message(last, Message::WatchedChanged).0) == seq!['-'],
{
}

/// Only a result and a change of a watched file alter the state; no other
/// message does, and none of them is answered.
pub proof fn lemma_other_messages_keep_state(last: Option<TestResult>, msg: Message)
    requires
        !(msg is Result),
        !(msg is WatchedChanged),
    ensures
        after_message(last, msg) == (last, None::<Message>),
{
}

/// One event the GUI takes in: a message received from the worker, or a click
/// on "Run all".
pub enum Event {
    Received(Message),
    RunAllClicked,
}

/// One frame of the GUI: the message received in it, if any, and whether
/// "Run all" was clicked in it. The message is taken in before the click.
pub struct Frame {
    pub msg: Option<Message>,
    pub run_all_clicked: bool,
}

/// The last result after one event: a received message goes by
/// `after_message`, a click on "Run all" clears it.
pub open spec fn after_event(last: Option<TestResult>, e: Event) -> Option<TestResult> {
    match e {
        Event::Received(m) => after_message(last, m).0,
        Event::RunAllClicked => None,
    }
}

/// The last result after a sequence of events, taken in order.
pub open spec fn after_events(last: Option<TestResult>, evs: Seq<Event>) -> Option<TestResult>
    decreases evs.len(),
{
    if evs.len() == 0 {
        last
    } else {
        after_event(after_events(last, evs.drop_last()), evs.last())
    }
}

/// The last result after one frame: `State::handle_message` on the message
/// received, if any, then `State::run_all` if the button was clicked.
pub open spec fn after_frame(last: Option<TestResult>, f: Frame) -> Option<TestResult> {
    let handled = match f.msg {
        Some(m) => after_message(last, m).0,
        None => last,
    };
    if f.run_all_clicked {
        None
    } else {
        handled
    }
}

/// The messages sent back in one frame: `RunAll` when the received message
/// is a change of a watched file, then `RunAll` again when "Run all" was
/// clicked.
pub open spec fn frame_sends(last: Option<TestResult>, f: Frame) -> Seq<Message> {
    let replied = match f.msg {
        Some(m) => match after_message(last, m).1 {
            Some(r) => seq![r],
            None => Seq::<Message>::empty(),
        },
        None => Seq::<Message>::empty(),
    };
    let clicked = if f.run_all_clicked {
        seq![Message::RunAll]
    } else {
        Seq::<Message>::empty()
    };
    replied + clicked
}

/// The last result after a sequence of frames, taken in order.
pub open spec fn after_frames(last: Option<TestResult>, fs: Seq<Frame>) -> Option<TestResult>
    decreases fs.len(),
{
    if fs.len() == 0 {
        last
    } else {
        after_frame(after_frames(last, fs.drop_last()), fs.last())
    }
}

/// The events of one frame, in the order the GUI takes them in.
pub open spec fn frame_events(f: Frame) -> Seq<Event> {
    let received = match f.msg {
        Some(m) => seq![Event::Received(m)],
        None => Seq::<Event>::empty(),
    };
    let clicked = if f.run_all_clicked {
        seq![Event::RunAllClicked]
    } else {
        Seq::<Event>::empty()
    };
    received + clicked
}

/// The events of a sequence of frames, in order.
pub open spec fn events_of(fs: Seq<Frame>) -> Seq<Event>
    decreases fs.len(),
{
    if fs.len() == 0 {
        Seq::<Event>::empty()
    } else {
        events_of(fs.drop_last()) + frame_events(fs.last())
    }
}

/// The events that decide the last result: a received result, a received
/// change of a watched file, and a click on "Run all".
pub open spec fn decides_result(e: Event) -> bool {
    match e {
        Event::RunAllClicked => true,
        Event::Received(Message::Result(_)) => true,
        Event::Received(Message::WatchedChanged) => true,
        _ => false,
    }
}

/// The latest event that decides the last result is receiving the result `x`.
pub open spec fn latest_is_result(evs: Seq<Event>, x: TestResult) -> bool {
    exists|i: int|
        0 <= i < evs.len() && evs[i] == Event::Received(Message::Result(x)) && (forall|j: int|
            i < j < evs.len() ==> !decides_result(#[trigger] evs[j]))
}

proof fn lemma_after_events_append(last: Option<TestResult>, a: Seq<Event>, b: Seq<Event>)
    ensures
        after_events(last, a + b) == after_events(after_events(last, a), b),
    decreases b.len(),
{
    if b.len() == 0 {
        assert(a + b =~= a);
    } else {
        lemma_after_events_append(last, a, b.drop_last());
        assert((a + b).drop_last() =~= a + b.drop_last());
        assert((a + b).last() == b.last());
    }
}

proof fn lemma_frame_as_events(last: Option<TestResult>, f: Frame)
    ensures
        after_frame(last, f) == after_events(last, frame_events(f)),
{
    let evs = frame_events(f);
    reveal_with_fuel(after_events, 3);
    match f.msg {
        Some(m) => {
            if f.run_all_clicked {
                assert(evs.drop_last() =~= seq![Event::Received(m)]);
                assert(evs.drop_last().drop_last() =~= Seq::<Event>::empty());
            } else {
                assert(evs =~= seq![Event::Received(m)]);
                assert(evs.drop_last() =~= Seq::<Event>::empty());
            }
        },
        None => {
            if f.run_all_clicked {
                assert(evs =~= seq![Event::RunAllClicked]);
                assert(evs.drop_last() =~= Seq::<Event>::empty());
            } else {
                assert(evs =~= Seq::<Event>::empty());
            }
        },
    }
}

proof fn lemma_frames_as_events(last: Option<TestResult>, fs: Seq<Frame>)
    ensures
        after_frames(last, fs) == after_events(last, events_of(fs)),
    decreases fs.len(),
{
    if fs.len() > 0 {
        lemma_frames_as_events(last, fs.drop_last());
        lemma_after_events_append(last, events_of(fs.drop_last()), frame_events(fs.last()));
        lemma_frame_as_events(after_frames(last, fs.drop_last()), fs.last());
    }
}

proof fn lemma_events_latest(evs: Seq<Event>, x: TestResult)
    ensures
        (after_events(None, evs) == Some(x)) <==> latest_is_result(evs, x),
    decreases evs.len(),
{
    if evs.len() == 0 {
    } else {
        let p = evs.drop_last();
        let n = evs.len() - 1;
        let e = evs.last();
        assert(evs[n] == e);
        if decides_result(e) {
            if after_events(None, evs) == Some(x) {
                assert(e == Event::Received(Message::Result(x)));
                assert(latest_is_result(evs, x));
            }
            if latest_is_result(evs, x) {
                let i = choose|i: int|
                    0 <= i < evs.len() && evs[i] == Event::Received(Message::Result(x)) && (forall|j: int|
                        i < j < evs.len() ==> !decides_result(#[trigger] evs[j]));
                if i < n {
                    assert(!decides_result(evs[n]));
                }
                assert(i == n);
            }
        } else {
            lemma_events_latest(p, x);
            assert(after_events(None, evs) == after_events(None, p));
            if latest_is_result(p, x) {
                let i = choose|i: int|
                    0 <= i < p.len() && p[i] == Event::Received(Message::Result(x)) && (forall|j: int|
                        i < j < p.len() ==> !decides_result(#[trigger] p[j]));
                assert forall|j: int| i < j < evs.len() implies !decides_result(#[trigger] evs[j]) by {
                    if j < n {
                        assert(evs[j] == p[j]);
                    }
                }
                assert(evs[i] == p[i]);
                assert(latest_is_result(evs, x));
            }
            if latest_is_result(evs, x) {
                let i = choose|i: int|
                    0 <= i < evs.len() && evs[i] == Event::Received(Message::Result(x)) && (forall|j: int|
                        i < j < evs.len() ==> !decides_result(#[trigger] evs[j]));
                assert(i != n);
                assert forall|j: int| i < j < p.len() implies !decides_result(#[trigger] p[j]) by {
                    assert(evs[j] == p[j]);
                }
                assert(p[i] == evs[i]);
                assert(latest_is_result(p, x));
            }
        }
    }
}

/// Over any run of the GUI from its start (no result), frame after frame,
/// each frame taking in the received message, if any, and then a click on
/// "Run all", if any: the last result is `x` exactly when the latest event
/// that decides it (a received result, a received change of a watched file,
/// a click on "Run all") is receiving the result `x`; otherwise there is none.
pub proof fn lemma_last_result_follows_latest_event(fs: Seq<Frame>, x: TestResult)
    ensures
        (after_frames(None, fs) == Some(x)) <==> latest_is_result(events_of(fs), x),
{
    lemma_frames_as_events(None, fs);
    lemma_events_latest(events_of(fs), x);
}

} // verus!
