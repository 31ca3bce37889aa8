//! Composable validation harness with pluggable output sinks.

use vstd::prelude::*;
use crate::outside::write_stderr;
use crate::text::{decimal, push_decimal};

verus! {

/// Number of passed checks.
pub open spec fn passed_count(checks: Seq<(Seq<char>, bool)>) -> nat
    decreases checks.len(),
{
    if checks.len() == 0 {
        0
    } else {
        passed_count(checks.drop_last()) + if checks.last().1 {
            1nat
        } else {
            0nat
        }
    }
}

/// Number of failed checks.
pub open spec fn failed_count(checks: Seq<(Seq<char>, bool)>) -> nat
    decreases checks.len(),
{
    if checks.len() == 0 {
        0
    } else {
        failed_count(checks.drop_last()) + if checks.last().1 {
            0nat
        } else {
            1nat
        }
    }
}

/// Every check passed.
pub open spec fn all_checks_passed(checks: Seq<(Seq<char>, bool)>) -> bool {
    forall|i: int| 0 <= i < checks.len() ==> #[trigger] checks[i].1
}

/// Every check either passed or failed: the two counts add up to the number of checks.
pub proof fn lemma_pass_fail_partition(checks: Seq<(Seq<char>, bool)>)
    ensures
        passed_count(checks) + failed_count(checks) == checks.len(),
    decreases checks.len(),
{
    if checks.len() > 0 {
        lemma_pass_fail_partition(checks.drop_last());
    }
}

/// No check failed exactly when every check passed.
pub proof fn lemma_all_passed_iff_no_failure(checks: Seq<(Seq<char>, bool)>)
    ensures
        all_checks_passed(checks) <==> failed_count(checks) == 0,
    decreases checks.len(),
{
    if checks.len() > 0 {
        lemma_all_passed_iff_no_failure(checks.drop_last());
        let init = checks.drop_last();
        if all_checks_passed(checks) {
            assert forall|i: int| 0 <= i < init.len() implies #[trigger] init[i].1 by {
                assert(init[i] == checks[i]);
            }
            assert(checks[checks.len() - 1].1);
        }
        if failed_count(checks) == 0 {
            assert forall|i: int| 0 <= i < checks.len() implies #[trigger] checks[i].1 by {
                if i < checks.len() - 1 {
                    assert(init[i] == checks[i]);
                }
            }
        }
    }
}

/// What a harness has recorded.
pub struct HarnessView {
    pub label: Seq<char>,
    pub checks: Seq<(Seq<char>, bool)>,
}

/// Collects named checks and decides an exit code from all of them.
#[derive(Debug)]
pub struct ValidationHarness {
    label: String,
    checks: Vec<(String, bool)>,
}

/// The checks of a harness with names as character sequences.
pub open spec fn checks_view(checks: Seq<(String, bool)>) -> Seq<(Seq<char>, bool)> {
    checks.map_values(|c: (String, bool)| (c.0@, c.1))
}

impl View for ValidationHarness {
    type V = HarnessView;

    closed spec fn view(&self) -> HarnessView {
        HarnessView { label: self.label@, checks: checks_view(self.checks@) }
    }
}

/// An event a sink is told of.
pub enum SinkEvent {
    /// The summary line: label, passed and total count.
    Header { label: Seq<char>, passed_count: nat, total: nat },
    /// One check: its name and whether it passed.
    Check { name: Seq<char>, passed: bool },
}

/// The events `finish_to` hands a sink: the header, then every check in order.
pub open spec fn finish_events(h: HarnessView) -> Seq<SinkEvent> {
    seq![
        SinkEvent::Header {
            label: h.label,
            passed_count: passed_count(h.checks),
            total: h.checks.len(),
        },
    ] + h.checks.map_values(|c: (Seq<char>, bool)| SinkEvent::Check { name: c.0, passed: c.1 })
}

/// Exit code: 0 when every check passed, 1 otherwise.
pub open spec fn exit_code_spec(checks: Seq<(Seq<char>, bool)>) -> u8 {
    if all_checks_passed(checks) {
        0
    } else {
        1
    }
}

/// Output sink for [`ValidationHarness`]. An implementation keeps `inv` and records, in
/// `events`, each call it receives.
pub trait ValidationSink {
    /// The sink's own well-formedness.
    spec fn inv(&self) -> bool;

    /// The events received so far.
    spec fn events(&self) -> Seq<SinkEvent>;

    /// Writes the summary line (label, passed and total count).
    fn header(&mut self, label: &str, passed: usize, total: usize)
        requires
            old(self).inv(),
        ensures
            final(self).inv(),
            final(self).events() == old(self).events().push(
                SinkEvent::Header { label: label@, passed_count: passed as nat, total: total as nat },
            ),
    ;

    /// Writes one check result.
    fn check(&mut self, name: &str, passed: bool)
        requires
            old(self).inv(),
        ensures
            final(self).inv(),
            final(self).events() == old(self).events().push(
                SinkEvent::Check { name: name@, passed },
            ),
    ;
}

impl ValidationHarness {
    /// A harness with no checks.
    pub fn new(label: &str) -> (r: Self)
        ensures
            r@.label == label@,
            r@.checks == Seq::<(Seq<char>, bool)>::empty(),
    {
        let r = ValidationHarness { label: String::from_str(label), checks: Vec::new() };
        assert(checks_view(r.checks@) =~= Seq::<(Seq<char>, bool)>::empty());
        r
    }

    /// Records a named check result.
    pub fn check(&mut self, name: &str, passed: bool)
        ensures
            final(self)@.label == old(self)@.label,
            final(self)@.checks == old(self)@.checks.push((name@, passed)),
    {
        self.checks.push((String::from_str(name), passed));
        assert(checks_view(self.checks@) =~= checks_view(old(self).checks@).push((name@, passed)));
    }

    /// Whether every check passed.
    pub fn all_passed(&self) -> (r: bool)
        ensures
            r == all_checks_passed(self@.checks),
    {
        let mut i: usize = 0;
        while i < self.checks.len()
            invariant
                i <= self.checks@.len(),
                forall|k: int| 0 <= k < i ==> #[trigger] self.checks@[k].1,
            decreases self.checks@.len() - i,
        {
            if !self.checks[i].1 {
                assert(checks_view(self.checks@)[i as int].1 == false);
                return false;
            }
            i = i + 1;
        }
        assert forall|k: int| 0 <= k < self@.checks.len() implies #[trigger] self@.checks[k].1 by {
            assert(self@.checks[k].1 == self.checks@[k].1);
        }
        true
    }

    /// Number of checks that passed.
    pub fn pass_count(&self) -> (r: usize)
        ensures
            r == passed_count(self@.checks),
    {
        let ghost all = checks_view(self.checks@);
        let mut count: usize = 0;
        let mut i: usize = 0;
        while i < self.checks.len()
            invariant
                i <= self.checks@.len(),
                all == checks_view(self.checks@),
                count == passed_count(all.subrange(0, i as int)),
                count <= i,
            decreases self.checks@.len() - i,
        {
            assert(all.subrange(0, i + 1).drop_last() =~= all.subrange(0, i as int));
            if self.checks[i].1 {
                count = count + 1;
            }
            i = i + 1;
        }
        assert(all.subrange(0, i as int) =~= all);
        count
    }

    /// Number of checks that failed.
    pub fn fail_count(&self) -> (r: usize)
        ensures
            r == failed_count(self@.checks),
    {
        let ghost all = checks_view(self.checks@);
        let mut count: usize = 0;
        let mut i: usize = 0;
        while i < self.checks.len()
            invariant
                i <= self.checks@.len(),
                all == checks_view(self.checks@),
                count == failed_count(all.subrange(0, i as int)),
                count <= i,
            decreases self.checks@.len() - i,
        {
            assert(all.subrange(0, i + 1).drop_last() =~= all.subrange(0, i as int));
            if !self.checks[i].1 {
                count = count + 1;
            }
            i = i + 1;
        }
        assert(all.subrange(0, i as int) =~= all);
        count
    }

    /// Exit code: 0 if every check passed, 1 otherwise.
    pub fn exit_code(&self) -> (r: u8)
        ensures
            r == exit_code_spec(self@.checks),
    {
        if self.all_passed() {
            0
        } else {
            1
        }
    }

    /// Writes the summary line and every check to stderr, and returns the exit code.
    pub fn finish(&self) -> (r: u8)
        ensures
            r == exit_code_spec(self@.checks),
    {
        let mut sink = StderrSink::default();
        self.finish_to(&mut sink)
    }

    /// Hands `sink` the summary line and every check, in order, and returns the exit
    /// code.
    pub fn finish_to<S: ValidationSink>(&self, sink: &mut S) -> (r: u8)
        requires
            old(sink).inv(),
        ensures
            r == exit_code_spec(self@.checks),
            final(sink).inv(),
            final(sink).events() == old(sink).events() + finish_events(self@),
    {
        let total = self.checks.len();
        let passed = self.pass_count();
        sink.header(self.label.as_str(), passed, total);
        let ghost start = old(sink).events();
        let ghost header = seq![
            SinkEvent::Header {
                label: self@.label,
                passed_count: passed_count(self@.checks),
                total: self@.checks.len(),
            },
        ];
        let ghost checks = self@.checks;
        let ghost as_events = checks.map_values(
            |c: (Seq<char>, bool)| SinkEvent::Check { name: c.0, passed: c.1 },
        );
        assert(sink.events() =~= start + header + as_events.subrange(0, 0));
        let mut i: usize = 0;
        while i < self.checks.len()
            invariant
                i <= self.checks@.len(),
                checks == self@.checks,
                checks == checks_view(self.checks@),
                as_events == checks.map_values(
                    |c: (Seq<char>, bool)| SinkEvent::Check { name: c.0, passed: c.1 },
                ),
                sink.inv(),
                sink.events() == start + header + as_events.subrange(0, i as int),
            decreases self.checks@.len() - i,
        {
            let (name, ok) = (&self.checks[i].0, self.checks[i].1);
            sink.check(name.as_str(), ok);
            assert(sink.events() =~= start + header + as_events.subrange(0, i + 1));
            i = i + 1;
        }
        assert(as_events.subrange(0, i as int) =~= as_events);
        assert(start + header + as_events =~= start + finish_events(self@));
        self.exit_code()
    }

    /// The recorded checks, in order.
    pub fn checks(&self) -> (r: &[(String, bool)])
        ensures
            checks_view(r@) == self@.checks,
    {
        self.checks.as_slice()
    }
}

/// The text line a [`StringSink`] writes for an event.
pub open spec fn event_line(e: SinkEvent) -> Seq<char> {
    match e {
        SinkEvent::Header { label, passed_count, total } => "["@ + label + "] "@ + decimal(passed_count)
            + "/"@ + decimal(total) + " checks passed\n"@,
        SinkEvent::Check { name, passed } => "  "@ + seq![
            if passed {
                '\u{2713}'
            } else {
                '\u{2717}'
            },
        ] + " "@ + name + "\n"@,
    }
}

/// The text of a sequence of events, one line each.
pub open spec fn rendered(events: Seq<SinkEvent>) -> Seq<char>
    decreases events.len(),
{
    if events.len() == 0 {
        Seq::empty()
    } else {
        rendered(events.drop_last()) + event_line(events.last())
    }
}

/// Sink that collects the output lines in a `String`.
pub struct StringSink {
    /// The collected output.
    pub output: String,
    /// The events received, in order.
    pub received: Ghost<Seq<SinkEvent>>,
}

impl Default for StringSink {
    /// An empty sink.
    fn default() -> (r: Self)
        ensures
            r.output@ == Seq::<char>::empty(),
            r.events() == Seq::<SinkEvent>::empty(),
            r.inv(),
    {
        StringSink { output: String::new(), received: Ghost(Seq::empty()) }
    }
}

impl ValidationSink for StringSink {
    /// The output is the text of the events received.
    closed spec fn inv(&self) -> bool {
        self.output@ == rendered(self.received@)
    }

    closed spec fn events(&self) -> Seq<SinkEvent> {
        self.received@
    }

    fn header(&mut self, label: &str, passed: usize, total: usize) {
        let ghost e = SinkEvent::Header {
            label: label@,
            passed_count: passed as nat,
            total: total as nat,
        };
        let line = header_line(label, passed, total);
        self.output.append(line.as_str());
        proof {
            self.received@ = self.received@.push(e);
            assert(self.received@.drop_last() =~= old(self).received@);
            assert(self.output@ =~= old(self).output@ + event_line(e));
        }
    }

    fn check(&mut self, name: &str, passed: bool) {
        let ghost e = SinkEvent::Check { name: name@, passed };
        let line = check_line(name, passed);
        self.output.append(line.as_str());
        proof {
            self.received@ = self.received@.push(e);
            assert(self.received@.drop_last() =~= old(self).received@);
            assert(self.output@ =~= old(self).output@ + event_line(e));
        }
    }
}

/// The summary line: `[label] passed/total checks passed`.
fn header_line(label: &str, passed: usize, total: usize) -> (s: String)
    ensures
        s@ == event_line(
            SinkEvent::Header { label: label@, passed_count: passed as nat, total: total as nat },
        ),
{
    let mut s = String::from_str("[");
    s.append(label);
    s.append("] ");
    push_decimal(&mut s, passed as u64);
    s.append("/");
    push_decimal(&mut s, total as u64);
    s.append(" checks passed\n");
    proof {
        assert(s@ =~= event_line(
            SinkEvent::Header { label: label@, passed_count: passed as nat, total: total as nat },
        ));
    }
    s
}

/// The line of one check: a check mark or a cross, then the name.
fn check_line(name: &str, passed: bool) -> (s: String)
    ensures
        s@ == event_line(SinkEvent::Check { name: name@, passed }),
{
    let mut s = String::from_str("  ");
    if passed {
        s.push('\u{2713}');
    } else {
        s.push('\u{2717}');
    }
    s.append(" ");
    s.append(name);
    s.append("\n");
    proof {
        assert(s@ =~= event_line(SinkEvent::Check { name: name@, passed }));
    }
    s
}

/// Sink that writes the output lines to stderr.
pub struct StderrSink {
    /// The events received, in order.
    pub received: Ghost<Seq<SinkEvent>>,
    /// Everything handed to stderr so far, in order.
    pub written: Ghost<Seq<char>>,
}

impl Default for StderrSink {
    /// A sink that has received and written nothing.
    fn default() -> (r: Self)
        ensures
            r.events() == Seq::<SinkEvent>::empty(),
            r.written@ == Seq::<char>::empty(),
            r.inv(),
    {
        StderrSink { received: Ghost(Seq::empty()), written: Ghost(Seq::empty()) }
    }
}

impl StderrSink {
    /// Hands `line` to stderr and records it as written.
    fn emit(&mut self, line: &str)
        ensures
            final(self).written@ == old(self).written@ + line@,
            final(self).received@ == old(self).received@,
    {
        write_stderr(line);
        proof {
            self.written@ = self.written@ + line@;
        }
    }
}

impl ValidationSink for StderrSink {
    /// What was written to stderr is the text of the events received.
    closed spec fn inv(&self) -> bool {
        self.written@ == rendered(self.received@)
    }

    closed spec fn events(&self) -> Seq<SinkEvent> {
        self.received@
    }

    fn header(&mut self, label: &str, passed: usize, total: usize) {
        let ghost e = SinkEvent::Header {
            label: label@,
            passed_count: passed as nat,
            total: total as nat,
        };
        let line = header_line(label, passed, total);
        self.emit(line.as_str());
        proof {
            self.received@ = self.received@.push(e);
            assert(self.received@.drop_last() =~= old(self).received@);
        }
    }

    fn check(&mut self, name: &str, passed: bool) {
        let ghost e = SinkEvent::Check { name: name@, passed };
        let line = check_line(name, passed);
        self.emit(line.as_str());
        proof {
            self.received@ = self.received@.push(e);
            assert(self.received@.drop_last() =~= old(self).received@);
        }
    }
}

impl StderrSink {
    /// What the sink has written to stderr is the text of every event it has received.
    pub proof fn lemma_written_is_rendered(&self)
        requires
            self.inv(),
        ensures
            self.written@ == rendered(self.events()),
    {
    }
}

/// The line of a check shows a check mark (U+2713) after two spaces when the check
/// passed and a cross (U+2717) when it failed, then a space and the check's name; the
/// line of the summary starts with `[` and the label.
pub proof fn lemma_event_line_marks(name: Seq<char>, passed: bool, label: Seq<char>, passed_count: nat, total: nat)
    ensures
        event_line(SinkEvent::Check { name, passed }).subrange(0, 2) == seq![' ', ' '],
        event_line(SinkEvent::Check { name, passed })[2] == '\u{2713}' <==> passed,
        event_line(SinkEvent::Check { name, passed })[2] == '\u{2717}' <==> !passed,
        event_line(SinkEvent::Check { name, passed }).subrange(3, 4 + name.len() as int) == seq![' ']
            + name,
        event_line(SinkEvent::Check { name, passed }).last() == '\n',
        event_line(SinkEvent::Header { label, passed_count, total }).subrange(0, 1 + label.len() as int)
            == seq!['['] + label,
{
    reveal_strlit("  ");
    reveal_strlit(" ");
    reveal_strlit("\n");
    reveal_strlit("[");
    let line = event_line(SinkEvent::Check { name, passed });
    assert(line.subrange(0, 2) =~= seq![' ', ' ']);
    assert(line.subrange(3, 4 + name.len() as int) =~= seq![' '] + name);
    let head = event_line(SinkEvent::Header { label, passed_count, total });
    assert(head.subrange(0, 1 + label.len() as int) =~= seq!['['] + label);
}

impl StringSink {
    /// The sink's output is the text of every event it has received.
    pub proof fn lemma_output_is_rendered(&self)
        requires
            self.inv(),
        ensures
            self.output@ == rendered(self.events()),
    {
    }
}


} // verus!
