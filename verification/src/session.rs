//! The sampling session: the state machine that drives a picker.
//!
//! A session does nothing to the outside world. It answers each event that
//! its driver reports with the effects that the driver is to carry out in
//! order. A request among them (`Poll`, `Capture`) is always the last one, and
//! the driver reports its result as the next event.

use vstd::prelude::*;
use crate::color::Color;
use crate::config::Config;
use crate::laws::lemma_captures_on_display;
use crate::pointer::{should_stop, stop_requested, Coordinate};
use crate::present::{final_line, live_line, present_final, present_live, StyledLine, StyledText};
use crate::sampler::{color_of_capture, decoded, sampled, SampleError};
use crate::tracker::{reported, ColorTracker};

verus! {

/// Why a session failed. A failed session commits nothing.
#[derive(Clone, Copy, Debug, PartialEq, Eq, Structural)]
pub enum SessionError {
    /// A captured region gave no color.
    Sample(SampleError),
    /// The session was to be concluded before any color had been sampled.
    NothingSampled,
    /// The driver reported an event that the session had not asked for.
    OutOfTurn,
}

/// Where a session stands.
#[derive(Clone, Copy, Debug, PartialEq, Eq, Structural)]
pub enum Phase {
    /// Waiting for a pointer poll that gives a position on the display.
    Polling,
    /// Waiting for the capture at the given position.
    Capturing(Coordinate),
    /// The final color has been committed.
    Done,
    /// The session has failed.
    Failed(SessionError),
}

/// What the driver reports to the session.
#[derive(Clone, Debug, PartialEq, Eq)]
pub enum Event {
    /// The result of a poll: the position of the pointer, and for each button
    /// index whether that button is down.
    Pointer { position: Coordinate, buttons: Vec<bool> },
    /// The result of a capture: the encoded image of the region, or nothing
    /// where the capture gave no image.
    Captured(Option<Vec<u8>>),
}

/// What the session asks of the driver.
#[derive(Clone, Debug, PartialEq, Eq)]
pub enum Effect {
    /// Poll the pointer source and report a `Pointer` event.
    Poll,
    /// Capture the single pixel at the position and report a `Captured`
    /// event.
    Capture(Coordinate),
    /// Write the line to the live stream.
    Live(StyledText),
    /// Write the line as the final line.
    Final(StyledText),
    /// Publish the text to the clipboard.
    Commit(String),
    /// Give up and report the error.
    Abort(SessionError),
}

/// An effect as a value.
pub enum EffectView {
    Poll,
    Capture(Coordinate),
    Live(StyledLine),
    Final(StyledLine),
    Commit(Seq<char>),
    Abort(SessionError),
}

impl View for Effect {
    type V = EffectView;

    open spec fn view(&self) -> EffectView {
        match self {
            Effect::Poll => EffectView::Poll,
            Effect::Capture(at) => EffectView::Capture(*at),
            Effect::Live(line) => EffectView::Live(line@),
            Effect::Final(line) => EffectView::Final(line@),
            Effect::Commit(text) => EffectView::Commit(text@),
            Effect::Abort(error) => EffectView::Abort(*error),
        }
    }
}

/// A list of effects as values.
pub open spec fn views(effects: Seq<Effect>) -> Seq<EffectView> {
    effects.map_values(|effect: Effect| effect@)
}

/// The state of a session as a value: the color that its tracker holds, its
/// phase, and the buttons as the latest poll reported them.
pub struct SessionState {
    pub held: Option<Color>,
    pub phase: Phase,
    pub buttons: Seq<bool>,
}

/// The state in which every session begins.
pub open spec fn begin() -> SessionState {
    SessionState { held: None, phase: Phase::Polling, buttons: seq![] }
}

/// The session fails: nothing but the phase changes, and the driver is told
/// to give up.
pub open spec fn failing(s: SessionState, error: SessionError) -> (SessionState, Seq<EffectView>) {
    (SessionState { phase: Phase::Failed(error), ..s }, seq![EffectView::Abort(error)])
}

/// The answer to a poll. A position on the display leads to its capture, and
/// the buttons are kept for the stop decision of the tick. A position off the
/// display is discarded with its buttons and the pointer is polled again,
/// however often that happens.
pub open spec fn on_pointer(s: SessionState, position: Coordinate, buttons: Seq<bool>) -> (
    SessionState,
    Seq<EffectView>,
) {
    match s.phase {
        Phase::Polling => if position.valid() {
            (
                SessionState { phase: Phase::Capturing(position), buttons, ..s },
                seq![EffectView::Capture(position)],
            )
        } else {
            (s, seq![EffectView::Poll])
        },
        Phase::Capturing(_) => failing(s, SessionError::OutOfTurn),
        Phase::Done | Phase::Failed(_) => (s, seq![]),
    }
}

/// The answer to a capture that gave no image: the same capture again.
pub open spec fn on_miss(s: SessionState) -> (SessionState, Seq<EffectView>) {
    match s.phase {
        Phase::Capturing(at) => (s, seq![EffectView::Capture(at)]),
        Phase::Polling => failing(s, SessionError::OutOfTurn),
        Phase::Done | Phase::Failed(_) => (s, seq![]),
    }
}

/// The final line and the text to commit for the color held, if one is held.
pub open spec fn conclusion(held: Option<Color>, config: Config) -> Result<
    (StyledLine, Seq<char>),
    SessionError,
> {
    match held {
        Some(color) => Ok(
            (final_line(color, config.final_mode().rule(), config.template()), color.hex_text()),
        ),
        None => Err(SessionError::NothingSampled),
    }
}

/// The answer to what a capture held. An error fails the session. A color
/// goes to the tracker and is shown on the live stream if the tracker reports
/// it; then, if a stop button was down at the tick's poll, the color is shown
/// as the final line and committed, and otherwise the next tick begins.
pub open spec fn on_sample(s: SessionState, config: Config, sample: Result<Color, SampleError>) -> (
    SessionState,
    Seq<EffectView>,
) {
    match s.phase {
        Phase::Capturing(_) => match sample {
            Ok(color) => {
                let shown = match reported(s.held, color) {
                    Some(changed) => seq![
                        EffectView::Live(live_line(changed, config.live_mode().rule())),
                    ],
                    None => seq![],
                };
                if stop_requested(s.buttons, config.stop_set()) {
                    (
                        SessionState { held: Some(color), phase: Phase::Done, ..s },
                        shown + seq![
                            EffectView::Final(
                                final_line(color, config.final_mode().rule(), config.template()),
                            ),
                            EffectView::Commit(color.hex_text()),
                        ],
                    )
                } else {
                    (
                        SessionState { held: Some(color), phase: Phase::Polling, ..s },
                        shown + seq![EffectView::Poll],
                    )
                }
            },
            Err(error) => failing(s, SessionError::Sample(error)),
        },
        Phase::Polling => failing(s, SessionError::OutOfTurn),
        Phase::Done | Phase::Failed(_) => (s, seq![]),
    }
}

/// The answer to an event. A session that is done or has failed takes no
/// notice of events; an event that the session did not ask for fails it.
pub open spec fn react(s: SessionState, config: Config, event: Event) -> (
    SessionState,
    Seq<EffectView>,
) {
    match event {
        Event::Pointer { position, buttons } => on_pointer(s, position, buttons@),
        Event::Captured(None) => on_miss(s),
        Event::Captured(Some(bytes)) => on_sample(s, config, sampled(decoded(bytes@))),
    }
}

/// The state that a session reaches on the given events, and all the effects
/// that it asks for on the way, the opening poll included.
pub open spec fn replay(config: Config, events: Seq<Event>) -> (SessionState, Seq<EffectView>)
    decreases events.len(),
{
    if events.len() == 0 {
        (begin(), seq![EffectView::Poll])
    } else {
        let before = replay(config, events.drop_last());
        let step = react(before.0, config, events.last());
        (step.0, before.1 + step.1)
    }
}

/// Whether every capture among the effects is asked for at a position on the
/// display.
pub open spec fn on_display(effects: Seq<EffectView>) -> bool {
    forall|i: int|
        0 <= i < effects.len() ==> (#[trigger] effects[i] matches EffectView::Capture(at)
            ==> at.valid())
}

/// What holds of the state of a session at any time: a capture is awaited
/// only at a position on the display, and a session that is done holds the
/// color that it committed.
pub open spec fn sound(s: SessionState) -> bool {
    &&& s.phase matches Phase::Capturing(at) ==> at.valid()
    &&& s.phase is Done ==> s.held is Some
}

/// A picking session. It owns the tracker and its configuration and is
/// advanced by the events that the driver reports.
#[derive(Debug)]
pub struct Session {
    config: Config,
    tracker: ColorTracker,
    phase: Phase,
    buttons: Vec<bool>,
}

impl View for Session {
    type V = SessionState;

    closed spec fn view(&self) -> SessionState {
        SessionState { held: self.tracker@, phase: self.phase, buttons: self.buttons@ }
    }
}

/// Works out the final line and the text to commit from the color that the
/// tracker holds. A tracker that holds none gives `NothingSampled`: there is
/// nothing to commit, and no color is made up in its place.
pub fn conclude(tracker: &ColorTracker, config: &Config) -> (r: Result<
    (StyledText, String),
    SessionError,
>)
    ensures
        match r {
            Ok((line, text)) => conclusion(tracker@, *config) == Ok::<
                (StyledLine, Seq<char>),
                SessionError,
            >((line@, text@)),
            Err(error) => conclusion(tracker@, *config) == Err::<
                (StyledLine, Seq<char>),
                SessionError,
            >(error),
        },
{
    match tracker.last() {
        Some(color) => Ok(
            (
                present_final(color, config.selected(), config.selected_formatting().as_str()),
                color.hex(),
            ),
        ),
        None => Err(SessionError::NothingSampled),
    }
}

impl Session {
    #[verifier::type_invariant]
    spec fn inv(&self) -> bool {
        self.phase matches Phase::Capturing(at) ==> at.valid()
    }

    /// The configuration that the session runs with.
    pub closed spec fn config(&self) -> Config {
        self.config
    }

    /// Opens a session. Its first request is a poll.
    pub fn start(config: Config) -> (opened: (Session, Vec<Effect>))
        ensures
            opened.0@ == begin(),
            opened.0.config() == config,
            views(opened.1@) == seq![EffectView::Poll],
    {
        let session = Session {
            config,
            tracker: ColorTracker::new(),
            phase: Phase::Polling,
            buttons: Vec::new(),
        };
        let mut effects: Vec<Effect> = Vec::new();
        effects.push(Effect::Poll);
        proof {
            assert(views(effects@) =~= seq![EffectView::Poll]);
        }
        (session, effects)
    }

    /// The phase that the session is in.
    pub fn phase(&self) -> (phase: Phase)
        ensures
            phase == self@.phase,
            phase matches Phase::Capturing(at) ==> at.valid(),
    {
        proof {
            use_type_invariant(self);
        }
        self.phase
    }

    /// The color that the tracker holds: the latest one sampled.
    pub fn last_color(&self) -> (held: Option<Color>)
        ensures
            held == self@.held,
    {
        self.tracker.last()
    }

    fn fail(&mut self, error: SessionError) -> (effects: Vec<Effect>)
        ensures
            final(self)@ == failing(old(self)@, error).0,
            views(effects@) == failing(old(self)@, error).1,
            final(self).config() == old(self).config(),
    {
        self.phase = Phase::Failed(error);
        let mut effects: Vec<Effect> = Vec::new();
        effects.push(Effect::Abort(error));
        proof {
            assert(views(effects@) =~= seq![EffectView::Abort(error)]);
        }
        effects
    }

    /// Takes in the result of a poll. No capture is ever asked for at a
    /// position with a negative component: such a position is answered with
    /// another poll.
    pub fn pointer(&mut self, position: Coordinate, buttons: Vec<bool>) -> (effects: Vec<Effect>)
        ensures
            final(self)@ == on_pointer(old(self)@, position, buttons@).0,
            views(effects@) == on_pointer(old(self)@, position, buttons@).1,
            final(self).config() == old(self).config(),
            on_display(views(effects@)),
    {
        let mut effects: Vec<Effect> = Vec::new();
        match self.phase {
            Phase::Polling => {
                if position.is_valid() {
                    self.phase = Phase::Capturing(position);
                    self.buttons = buttons;
                    effects.push(Effect::Capture(position));
                    proof {
                        assert(views(effects@) =~= seq![EffectView::Capture(position)]);
                    }
                } else {
                    effects.push(Effect::Poll);
                    proof {
                        assert(views(effects@) =~= seq![EffectView::Poll]);
                    }
                }
            },
            Phase::Capturing(_) => {
                effects = self.fail(SessionError::OutOfTurn);
            },
            Phase::Done | Phase::Failed(_) => {
                proof {
                    assert(views(effects@) =~= seq![]);
                }
            },
        }
        effects
    }

    /// Takes in a capture that gave no image: the capture is asked for again,
    /// at the same position, however often it fails.
    pub fn missed(&mut self) -> (effects: Vec<Effect>)
        ensures
            final(self)@ == on_miss(old(self)@).0,
            views(effects@) == on_miss(old(self)@).1,
            final(self).config() == old(self).config(),
            on_display(views(effects@)),
    {
        proof {
            use_type_invariant(&*self);
        }
        let mut effects: Vec<Effect> = Vec::new();
        match self.phase {
            Phase::Capturing(at) => {
                effects.push(Effect::Capture(at));
                proof {
                    assert(views(effects@) =~= seq![EffectView::Capture(at)]);
                }
            },
            Phase::Polling => {
                effects = self.fail(SessionError::OutOfTurn);
            },
            Phase::Done | Phase::Failed(_) => {
                proof {
                    assert(views(effects@) =~= seq![]);
                }
            },
        }
        effects
    }

    /// Takes in what a capture held: the color of its pixel, or the reason
    /// why it gave none.
    pub fn sample(&mut self, sample: Result<Color, SampleError>) -> (effects: Vec<Effect>)
        ensures
            final(self)@ == on_sample(old(self)@, old(self).config(), sample).0,
            views(effects@) == on_sample(old(self)@, old(self).config(), sample).1,
            final(self).config() == old(self).config(),
            on_display(views(effects@)),
    {
        let mut effects: Vec<Effect> = Vec::new();
        match self.phase {
            Phase::Capturing(_) => match sample {
                Ok(color) => {
                    proof {
                        use_type_invariant(&*self);
                    }
                    if let Some(changed) = self.tracker.observe(color) {
                        effects.push(Effect::Live(present_live(changed, self.config.normal())));
                    }
                    let ghost shown = views(effects@);
                    if should_stop(&self.buttons, self.config.stop_buttons()) {
                        match conclude(&self.tracker, &self.config) {
                            Ok((line, text)) => {
                                self.phase = Phase::Done;
                                effects.push(Effect::Final(line));
                                effects.push(Effect::Commit(text));
                                proof {
                                    assert(views(effects@) =~= shown + seq![
                                        EffectView::Final(line@),
                                        EffectView::Commit(text@),
                                    ]);
                                }
                            },
                            Err(error) => {
                                // The tracker holds `color`, so this is never reached.
                                effects = self.fail(error);
                            },
                        }
                    } else {
                        self.phase = Phase::Polling;
                        effects.push(Effect::Poll);
                        proof {
                            assert(views(effects@) =~= shown + seq![EffectView::Poll]);
                        }
                    }
                },
                Err(error) => {
                    effects = self.fail(SessionError::Sample(error));
                },
            },
            Phase::Polling => {
                effects = self.fail(SessionError::OutOfTurn);
            },
            Phase::Done | Phase::Failed(_) => {
                proof {
                    assert(views(effects@) =~= seq![]);
                }
            },
        }
        effects
    }

    /// Advances the session by one event and gives the effects to carry out,
    /// in order. A captured region is decoded here.
    pub fn step(&mut self, event: Event) -> (effects: Vec<Effect>)
        ensures
            final(self)@ == react(old(self)@, old(self).config(), event).0,
            views(effects@) == react(old(self)@, old(self).config(), event).1,
            final(self).config() == old(self).config(),
            on_display(views(effects@)),
    {
        match event {
            Event::Pointer { position, buttons } => self.pointer(position, buttons),
            Event::Captured(None) => self.missed(),
            Event::Captured(Some(bytes)) => {
                let sample = color_of_capture(bytes.as_slice());
                self.sample(sample)
            },
        }
    }
}

/// Runs a whole session on the events of a recording: opens the session,
/// hands it the events in order, and gives the session as the last event
/// left it together with every effect that it asked for, in order.
pub fn run(config: Config, events: Vec<Event>) -> (ran: (Session, Vec<Effect>))
    ensures
        ran.0@ == replay(config, events@).0,
        views(ran.1@) == replay(config, events@).1,
        ran.0.config() == config,
        on_display(views(ran.1@)),
{
    let ghost all = events@;
    proof {
        lemma_captures_on_display(config, all);
    }
    let (mut session, mut effects) = Session::start(config);
    proof {
        assert(all.take(0) =~= Seq::<Event>::empty());
    }
    for event in it: events
        invariant
            it.seq() == all,
            session.config() == config,
            session@ == replay(config, all.take(it.index() as int)).0,
            views(effects@) == replay(config, all.take(it.index() as int)).1,
    {
        let ghost before = effects@;
        let ghost i = it.index() as int;
        let mut asked = session.step(event);
        let ghost added = asked@;
        effects.append(&mut asked);
        proof {
            assert(all.take(i + 1).drop_last() =~= all.take(i));
            assert(all.take(i + 1).last() == all[i]);
            assert(views(before + added) =~= views(before) + views(added));
        }
    }
    proof {
        assert(all.take(all.len() as int) =~= all);
    }
    (session, effects)
}

} // verus!
