use vstd::prelude::*;

use crate::config::Config;

verus! {

/// What the caller does next, as asked by a [`Scanner`].
pub enum Step {
    /// Leave the current file and go on to the next one.
    Next,
    /// Read the next line of the current file and hand it to [`Scanner::on_line`];
    /// at the end of the file, call [`Scanner::on_end`].
    ReadLine,
    /// Rename the file at `from` to `to`, then call [`Scanner::on_moved`].
    Rename { from: String, to: String },
    /// Show that the file at `from` would become `to`, then call [`Scanner::on_moved`].
    Preview { from: String, to: String },
}

/// A [`Step`] with its paths as sequences of characters.
pub enum StepView {
    Next,
    ReadLine,
    Rename(Seq<char>, Seq<char>),
    Preview(Seq<char>, Seq<char>),
}

impl View for Step {
    type V = StepView;

    open spec fn view(&self) -> StepView {
        match self {
            Step::Next => StepView::Next,
            Step::ReadLine => StepView::ReadLine,
            Step::Rename { from, to } => StepView::Rename(from@, to@),
            Step::Preview { from, to } => StepView::Preview(from@, to@),
        }
    }
}

/// Where a scanner stands between two calls.
pub enum PhaseView {
    /// Waiting for the next file.
    Idle,
    /// Reading the lines of the file at this path.
    Reading(Seq<char>),
    /// Waiting to hear that a rename or a preview was done.
    Pending,
}

/// The state of a scan: the files selected so far, the files moved (or shown) so far,
/// and the phase.
pub struct ScanState {
    pub detected: nat,
    pub changed: nat,
    pub phase: PhaseView,
}

/// The step that moves the file at `path`: a rename, or in a dry run a preview.
pub open spec fn move_step(c: Config, dry_run: bool, path: Seq<char>) -> StepView {
    if dry_run {
        StepView::Preview(path, c.spec_new_path(path))
    } else {
        StepView::Rename(path, c.spec_new_path(path))
    }
}

/// The step asked for when a file at `path` is found.
pub open spec fn found_step(c: Config, dry_run: bool, path: Seq<char>) -> StepView {
    if !c.spec_admits(path) {
        StepView::Next
    } else if !c.spec_require_match() {
        move_step(c, dry_run, path)
    } else {
        StepView::ReadLine
    }
}

/// The state after a file at `path` is found.
pub open spec fn found_state(c: Config, s: ScanState, path: Seq<char>) -> ScanState {
    if !c.spec_admits(path) {
        s
    } else if !c.spec_require_match() {
        ScanState { detected: s.detected + 1, phase: PhaseView::Pending, ..s }
    } else {
        ScanState { phase: PhaseView::Reading(path), ..s }
    }
}

/// The step asked for when `line` is read from the file at `path`.
pub open spec fn line_step(c: Config, dry_run: bool, path: Seq<char>, line: Seq<char>) -> StepView {
    if c.spec_line_selects(line) {
        move_step(c, dry_run, path)
    } else {
        StepView::ReadLine
    }
}

/// The state after `line` is read.
pub open spec fn line_state(c: Config, s: ScanState, line: Seq<char>) -> ScanState {
    if c.spec_line_selects(line) {
        ScanState { detected: s.detected + 1, phase: PhaseView::Pending, ..s }
    } else {
        s
    }
}

/// The state after the end of the file is reached.
pub open spec fn end_state(s: ScanState) -> ScanState {
    ScanState { phase: PhaseView::Idle, ..s }
}

/// The state after a rename or a preview is done.
pub open spec fn moved_state(s: ScanState) -> ScanState {
    ScanState { changed: s.changed + 1, phase: PhaseView::Idle, ..s }
}

/// Whether a step moves a file, for real or in a preview.
pub open spec fn moves(st: StepView) -> bool {
    st is Rename || st is Preview
}

/// Where a move leads, the configuration's filter no longer admits the file, when the
/// configuration is a preset.
pub open spec fn leaves_filter(c: Config, st: StepView) -> bool {
    match st {
        StepView::Rename(_, to) => !(c is Custom) ==> !c.spec_admits(to),
        StepView::Preview(_, to) => !(c is Custom) ==> !c.spec_admits(to),
        _ => true,
    }
}

/// The state and the steps when the lines `lines` of the file at `path` are handed
/// over one by one, until the scanner asks for no more or the file ends; a move it
/// asks for is taken as done.
pub open spec fn run_lines(c: Config, dry_run: bool, s: ScanState, path: Seq<char>, lines: Seq<
    Seq<char>,
>) -> (ScanState, Seq<StepView>)
    decreases lines.len(),
{
    if lines.len() == 0 {
        (end_state(s), seq![StepView::Next])
    } else {
        let st = line_step(c, dry_run, path, lines[0]);
        let s1 = line_state(c, s, lines[0]);
        if moves(st) {
            (moved_state(s1), seq![st])
        } else {
            let (s2, rest) = run_lines(c, dry_run, s1, path, lines.drop_first());
            (s2, seq![st] + rest)
        }
    }
}

/// The state and the steps when a file at `path` whose lines are `lines` is found and
/// followed through.
pub open spec fn run_file(c: Config, dry_run: bool, s: ScanState, path: Seq<char>, lines: Seq<
    Seq<char>,
>) -> (ScanState, Seq<StepView>) {
    let st = found_step(c, dry_run, path);
    let s1 = found_state(c, s, path);
    if st is ReadLine {
        let (s2, rest) = run_lines(c, dry_run, s1, path, lines);
        (s2, seq![st] + rest)
    } else if moves(st) {
        (moved_state(s1), seq![st])
    } else {
        (s1, seq![st])
    }
}

/// The state after each file of `files`, a path with its lines, is followed through.
pub open spec fn run_files(c: Config, dry_run: bool, s: ScanState, files: Seq<
    (Seq<char>, Seq<Seq<char>>),
>) -> ScanState
    decreases files.len(),
{
    if files.len() == 0 {
        s
    } else {
        let s1 = run_file(c, dry_run, s, files[0].0, files[0].1).0;
        run_files(c, dry_run, s1, files.drop_first())
    }
}

/// How many of `files` the configuration selects.
pub open spec fn count_selected(c: Config, files: Seq<(Seq<char>, Seq<Seq<char>>)>) -> nat
    decreases files.len(),
{
    if files.len() == 0 {
        0
    } else {
        (if c.spec_selects(files[0].0, files[0].1) {
            1nat
        } else {
            0nat
        }) + count_selected(c, files.drop_first())
    }
}

/// Whether some line of `lines` selects its file.
pub open spec fn some_line_selects(c: Config, lines: Seq<Seq<char>>) -> bool {
    exists|i: int| 0 <= i < lines.len() && #[trigger] c.spec_line_selects(lines[i])
}

proof fn lemma_run_lines(c: Config, dry_run: bool, s: ScanState, path: Seq<char>, lines: Seq<
    Seq<char>,
>)
    ensures
        ({
            let (s2, steps) = run_lines(c, dry_run, s, path, lines);
            let k: nat = if some_line_selects(c, lines) {
                1
            } else {
                0
            };
            &&& steps.len() >= 1
            &&& forall|i: int| 0 <= i < steps.len() - 1 ==> (#[trigger] steps[i]) is ReadLine
            &&& steps.last() == if some_line_selects(c, lines) {
                move_step(c, dry_run, path)
            } else {
                StepView::Next
            }
            &&& s2 == ScanState { detected: s.detected + k, changed: s.changed + k, phase: PhaseView::Idle }
        }),
    decreases lines.len(),
{
    if lines.len() > 0 {
        let st = line_step(c, dry_run, path, lines[0]);
        let s1 = line_state(c, s, lines[0]);
        if moves(st) {
            assert(some_line_selects(c, lines)) by {
                assert(c.spec_line_selects(lines[0]));
            }
        } else {
            lemma_run_lines(c, dry_run, s1, path, lines.drop_first());
            let (s2, rest) = run_lines(c, dry_run, s1, path, lines.drop_first());
            assert(!c.spec_line_selects(lines[0]));
            if some_line_selects(c, lines) {
                let i = choose|i: int| 0 <= i < lines.len() && #[trigger] c.spec_line_selects(lines[i]);
                assert(i > 0);
                assert(c.spec_line_selects(lines.drop_first()[i - 1]));
            }
            if some_line_selects(c, lines.drop_first()) {
                let j = choose|j: int| 0 <= j < lines.drop_first().len() && #[trigger] c.spec_line_selects(lines.drop_first()[j]);
                assert(c.spec_line_selects(lines[j + 1]));
            }
            let steps = seq![st] + rest;
            assert forall|i: int| 0 <= i < steps.len() - 1 implies (#[trigger] steps[i]) is ReadLine by {
                if i > 0 {
                    assert(steps[i] == rest[i - 1]);
                }
            }
            assert(steps.last() == rest.last());
        }
    }
}

/// A file is moved exactly when the configuration selects it, and then exactly once,
/// to its new path: of the steps asked for on its way, all but the last read a line,
/// and the last is its move, or for a file left alone the step to the next file. The
/// counts of selected and of moved files each grow by one for a selected file and stay
/// as they were for another.
pub proof fn lemma_moved_once_iff_selected(c: Config, dry_run: bool, s: ScanState, path: Seq<
    char,
>, lines: Seq<Seq<char>>)
    requires
        s.phase is Idle,
    ensures
        ({
            let (s2, steps) = run_file(c, dry_run, s, path, lines);
            let k: nat = if c.spec_selects(path, lines) {
                1
            } else {
                0
            };
            &&& steps.len() >= 1
            &&& forall|i: int| 0 <= i < steps.len() - 1 ==> (#[trigger] steps[i]) is ReadLine
            &&& steps.last() == if c.spec_selects(path, lines) {
                move_step(c, dry_run, path)
            } else {
                StepView::Next
            }
            &&& s2 == ScanState { detected: s.detected + k, changed: s.changed + k, phase: PhaseView::Idle }
        }),
{
    let st = found_step(c, dry_run, path);
    let s1 = found_state(c, s, path);
    if st is ReadLine {
        lemma_run_lines(c, dry_run, s1, path, lines);
        let (s2, rest) = run_lines(c, dry_run, s1, path, lines);
        let steps = seq![st] + rest;
        assert(c.spec_selects(path, lines) == some_line_selects(c, lines));
        assert forall|i: int| 0 <= i < steps.len() - 1 implies (#[trigger] steps[i]) is ReadLine by {
            if i > 0 {
                assert(steps[i] == rest[i - 1]);
            }
        }
        assert(steps.last() == rest.last());
    }
}

/// A dry run never asks for a rename: the only moves it asks for are previews.
pub proof fn lemma_dry_run_never_renames(c: Config, s: ScanState, path: Seq<char>, lines: Seq<
    Seq<char>,
>)
    requires
        s.phase is Idle,
    ensures
        forall|i: int|
            0 <= i < run_file(c, true, s, path, lines).1.len() ==> !(#[trigger] run_file(
                c,
                true,
                s,
                path,
                lines,
            ).1[i] is Rename),
{
    lemma_moved_once_iff_selected(c, true, s, path, lines);
}

/// Over a whole run, both counts grow by the number of files the configuration
/// selects; a run that starts with equal counts ends with equal counts.
pub proof fn lemma_run_counts(c: Config, dry_run: bool, s: ScanState, files: Seq<
    (Seq<char>, Seq<Seq<char>>),
>)
    requires
        s.phase is Idle,
    ensures
        run_files(c, dry_run, s, files).detected == s.detected + count_selected(c, files),
        run_files(c, dry_run, s, files).changed == s.changed + count_selected(c, files),
        run_files(c, dry_run, s, files).phase is Idle,
    decreases files.len(),
{
    if files.len() > 0 {
        lemma_moved_once_iff_selected(c, dry_run, s, files[0].0, files[0].1);
        let s1 = run_file(c, dry_run, s, files[0].0, files[0].1).0;
        lemma_run_counts(c, dry_run, s1, files.drop_first());
    }
}

/// The counts a run ends with, and whether it was a dry run.
#[derive(Clone, Copy, Debug, PartialEq, Eq, Structural)]
pub struct Summary {
    /// Files that passed the filter and, where asked for, held a matching line.
    pub detected: u64,
    /// Files renamed, or in a dry run shown.
    pub changed: u64,
    pub dry_run: bool,
}

impl Summary {
    /// The word that names what happened to the changed files.
    pub fn verb(&self) -> (r: &'static str)
        ensures
            r@ == if self.dry_run {
                "simulados"@
            } else {
                "renombrados"@
            },
    {
        if self.dry_run {
            "simulados"
        } else {
            "renombrados"
        }
    }
}

enum Phase {
    Idle,
    Reading(String),
    Pending,
}

/// Decides, file by file and line by line, what a run does. The caller walks the
/// tree, reads the files and renames them; it hands each event to the scanner and
/// does the [`Step`] it gets back.
pub struct Scanner {
    config: Config,
    dry_run: bool,
    detected: u64,
    changed: u64,
    phase: Phase,
}

impl View for Scanner {
    type V = ScanState;

    closed spec fn view(&self) -> ScanState {
        ScanState {
            detected: self.detected as nat,
            changed: self.changed as nat,
            phase: match self.phase {
                Phase::Idle => PhaseView::Idle,
                Phase::Reading(path) => PhaseView::Reading(path@),
                Phase::Pending => PhaseView::Pending,
            },
        }
    }
}

impl Scanner {
    pub closed spec fn config(&self) -> Config {
        self.config
    }

    pub closed spec fn dry_run(&self) -> bool {
        self.dry_run
    }

    /// The configuration is well formed, and every file selected so far has been
    /// moved but for the one whose move is awaited.
    pub open spec fn wf(&self) -> bool {
        &&& self.config().wf()
        &&& self@.detected == self@.changed + if self@.phase is Pending {
            1nat
        } else {
            0nat
        }
    }

    /// A scanner that has seen no file yet.
    pub fn new(config: Config, dry_run: bool) -> (r: Scanner)
        requires
            config.wf(),
        ensures
            r.wf(),
            r.config() == config,
            r.dry_run() == dry_run,
            r@ == (ScanState { detected: 0, changed: 0, phase: PhaseView::Idle }),
    {
        Scanner { config, dry_run, detected: 0, changed: 0, phase: Phase::Idle }
    }

    /// Files selected so far.
    pub fn detected(&self) -> (r: u64)
        ensures
            r == self@.detected,
    {
        self.detected
    }

    /// Files moved, or in a dry run shown, so far.
    pub fn changed(&self) -> (r: u64)
        ensures
            r == self@.changed,
    {
        self.changed
    }

    fn move_step(&self, path: String) -> (r: Step)
        requires
            self.config().wf(),
        ensures
            r@ == move_step(self.config(), self.dry_run(), path@),
            leaves_filter(self.config(), r@),
    {
        let to = self.config.new_path(path.as_str());
        if self.dry_run {
            Step::Preview { from: path, to }
        } else {
            Step::Rename { from: path, to }
        }
    }

    /// A regular file at `path` was found.
    pub fn on_file(&mut self, path: String) -> (r: Step)
        requires
            old(self).wf(),
            old(self)@.phase is Idle,
            old(self)@.detected < u64::MAX,
        ensures
            final(self).wf(),
            final(self).config() == old(self).config(),
            final(self).dry_run() == old(self).dry_run(),
            final(self)@ == found_state(old(self).config(), old(self)@, path@),
            r@ == found_step(old(self).config(), old(self).dry_run(), path@),
            leaves_filter(old(self).config(), r@),
    {
        if !self.config.admits(path.as_str()) {
            Step::Next
        } else if !self.config.require_match() {
            self.detected = self.detected + 1;
            self.phase = Phase::Pending;
            self.move_step(path)
        } else {
            self.phase = Phase::Reading(path);
            Step::ReadLine
        }
    }

    /// The next line of the file being read is `line`.
    pub fn on_line(&mut self, line: &str) -> (r: Step)
        requires
            old(self).wf(),
            old(self)@.phase is Reading,
            old(self)@.detected < u64::MAX,
        ensures
            final(self).wf(),
            final(self).config() == old(self).config(),
            final(self).dry_run() == old(self).dry_run(),
            final(self)@ == line_state(old(self).config(), old(self)@, line@),
            r@ == line_step(
                old(self).config(),
                old(self).dry_run(),
                old(self)@.phase->Reading_0,
                line@,
            ),
            leaves_filter(old(self).config(), r@),
    {
        if self.config.line_selects(line) {
            let mut phase = Phase::Pending;
            std::mem::swap(&mut self.phase, &mut phase);
            let path = match phase {
                Phase::Reading(path) => path,
                _ => {
                    proof {
                        assert(false);
                    }
                    String::new()
                },
            };
            self.detected = self.detected + 1;
            self.move_step(path)
        } else {
            Step::ReadLine
        }
    }

    /// The file being read has no more lines.
    pub fn on_end(&mut self)
        requires
            old(self).wf(),
            old(self)@.phase is Reading,
        ensures
            final(self).wf(),
            final(self).config() == old(self).config(),
            final(self).dry_run() == old(self).dry_run(),
            final(self)@ == end_state(old(self)@),
    {
        self.phase = Phase::Idle;
    }

    /// The rename, or the preview, that was asked for is done.
    pub fn on_moved(&mut self)
        requires
            old(self).wf(),
            old(self)@.phase is Pending,
        ensures
            final(self).wf(),
            final(self).config() == old(self).config(),
            final(self).dry_run() == old(self).dry_run(),
            final(self)@ == moved_state(old(self)@),
    {
        self.changed = self.changed + 1;
        self.phase = Phase::Idle;
    }

    /// The counts so far. Between files every selected file has been moved, so the
    /// two counts are equal.
    pub fn summary(&self) -> (r: Summary)
        requires
            self.wf(),
        ensures
            r.detected == self@.detected,
            r.changed == self@.changed,
            r.dry_run == self.dry_run(),
            self@.phase is Idle ==> r.changed == r.detected,
    {
        Summary { detected: self.detected, changed: self.changed, dry_run: self.dry_run }
    }
}

} // verus!
