//! What holds of every run of a session.

use vstd::prelude::*;
use crate::color::Color;
use crate::config::Config;
use crate::pointer::{stop_requested, Coordinate};
use crate::present::{final_line, live_line, StyledLine};
use crate::sampler::{decoded, sampled};
use crate::session::{
    on_display, on_pointer, react, replay, sound, EffectView, Event, Phase, SessionState,
};
use crate::style::StyleRule;
use crate::tracker::{lemma_reports_push, reported, reports_from};

verus! {

/// The number of commits among the effects.
pub open spec fn commits(effects: Seq<EffectView>) -> nat
    decreases effects.len(),
{
    if effects.len() == 0 {
        0
    } else {
        commits(effects.drop_last()) + if effects.last() is Commit {
            1nat
        } else {
            0nat
        }
    }
}

/// The color that a step hands to the tracker, if any: the color of a capture
/// that the session was waiting for and that decoded.
pub open spec fn taken(s: SessionState, event: Event) -> Option<Color> {
    match (s.phase, event) {
        (Phase::Capturing(_), Event::Captured(Some(bytes))) => match sampled(decoded(bytes@)) {
            Ok(color) => Some(color),
            Err(_) => None,
        },
        _ => None,
    }
}

/// The colors sampled over a run, in order.
pub open spec fn samples(config: Config, events: Seq<Event>) -> Seq<Color>
    decreases events.len(),
{
    if events.len() == 0 {
        seq![]
    } else {
        let earlier = samples(config, events.drop_last());
        match taken(replay(config, events.drop_last()).0, events.last()) {
            Some(color) => earlier.push(color),
            None => earlier,
        }
    }
}

/// The lines for the live stream among the effects, in order.
pub open spec fn live_lines(effects: Seq<EffectView>) -> Seq<StyledLine>
    decreases effects.len(),
{
    if effects.len() == 0 {
        seq![]
    } else {
        let earlier = live_lines(effects.drop_last());
        match effects.last() {
            EffectView::Live(line) => earlier.push(line),
            _ => earlier,
        }
    }
}

/// The live lines that a list of reports calls for: one for each color
/// reported, in order.
pub open spec fn lines_of(reports: Seq<Option<Color>>, rule: StyleRule) -> Seq<StyledLine>
    decreases reports.len(),
{
    if reports.len() == 0 {
        seq![]
    } else {
        let earlier = lines_of(reports.drop_last(), rule);
        match reports.last() {
            Some(color) => earlier.push(live_line(color, rule)),
            None => earlier,
        }
    }
}

/// Every step keeps the state sound and asks for captures on the display
/// only.
pub proof fn lemma_react_sound(s: SessionState, config: Config, event: Event)
    requires
        sound(s),
    ensures
        sound(react(s, config, event).0),
        on_display(react(s, config, event).1),
{
}

/// The commits in a list of effects followed by another are those of the
/// two together.
pub proof fn lemma_commits_add(first: Seq<EffectView>, second: Seq<EffectView>)
    ensures
        commits(first + second) == commits(first) + commits(second),
    decreases second.len(),
{
    if second.len() == 0 {
        assert(first + second =~= first);
    } else {
        lemma_commits_add(first, second.drop_last());
        assert((first + second).drop_last() =~= first + second.drop_last());
        assert((first + second).last() == second.last());
    }
}

/// Whatever the driver reports, no capture is asked for at a position with a
/// negative component, and the state of the session stays sound.
pub proof fn lemma_captures_on_display(config: Config, events: Seq<Event>)
    ensures
        sound(replay(config, events).0),
        on_display(replay(config, events).1),
    decreases events.len(),
{
    if events.len() > 0 {
        lemma_captures_on_display(config, events.drop_last());
        lemma_react_sound(replay(config, events.drop_last()).0, config, events.last());
    }
}

/// A position off the display is discarded: a poll that reports one leaves
/// the session as it was, takes no sample, and is answered with another poll.
pub proof fn lemma_off_display_repolls(s: SessionState, position: Coordinate, buttons: Seq<bool>)
    requires
        s.phase is Polling,
        !position.valid(),
    ensures
        on_pointer(s, position, buttons) == (s, seq![EffectView::Poll]),
{
}

/// A session is concluded by a step exactly when that step takes in a color
/// sampled while a stop button is down; nothing else concludes it, and such a
/// step never goes on sampling.
pub proof fn lemma_concluded_by_stop(s: SessionState, config: Config, event: Event)
    requires
        !(s.phase is Done),
    ensures
        react(s, config, event).0.phase is Done <==> {
            &&& s.phase is Capturing
            &&& event matches Event::Captured(Some(bytes))
            &&& sampled(decoded(bytes@)) is Ok
            &&& stop_requested(s.buttons, config.stop_set())
        },
{
}

/// Over any run of a session, the effects hold one commit if the session is
/// done and none if it is not. The commit of a session that is
/// done is its last effect, comes right after the final line, and both show
/// the color that the tracker holds.
pub proof fn lemma_commit_once(config: Config, events: Seq<Event>)
    ensures
        commits(replay(config, events).1) == (if replay(config, events).0.phase is Done {
            1nat
        } else {
            0nat
        }),
        replay(config, events).0.phase is Done ==> {
            let (s, effects) = replay(config, events);
            &&& s.held is Some
            &&& effects.len() >= 2
            &&& effects[effects.len() - 2] == EffectView::Final(
                final_line(s.held->0, config.final_mode().rule(), config.template()),
            )
            &&& effects.last() == EffectView::Commit(s.held->0.hex_text())
        },
    decreases events.len(),
{
    reveal_with_fuel(commits, 4);
    if events.len() == 0 {
        assert(seq![EffectView::Poll].drop_last() =~= Seq::<EffectView>::empty());
    } else {
        let before = replay(config, events.drop_last());
        let step = react(before.0, config, events.last());
        lemma_commit_once(config, events.drop_last());
        lemma_commits_add(before.1, step.1);
        if before.0.phase is Done {
            assert(step.1 =~= Seq::<EffectView>::empty());
            assert(before.1 + step.1 =~= before.1);
        } else {
            lemma_step_commits(before.0, config, events.last());
        }
    }
}

/// A session that is over stays as it is. Once a run has concluded or failed,
/// no later event changes the state or adds an effect: the run as a whole is
/// the run up to that point.
pub proof fn lemma_over_is_final(config: Config, events: Seq<Event>, k: int)
    requires
        0 <= k <= events.len(),
        replay(config, events.take(k)).0.phase is Done || replay(
            config,
            events.take(k),
        ).0.phase is Failed,
    ensures
        replay(config, events) == replay(config, events.take(k)),
    decreases events.len() - k,
{
    if k == events.len() {
        assert(events.take(k) =~= events);
    } else {
        assert(events.drop_last().take(k) =~= events.take(k));
        lemma_over_is_final(config, events.drop_last(), k);
        let before = replay(config, events.drop_last());
        assert(react(before.0, config, events.last()).1 =~= Seq::<EffectView>::empty());
        assert(before.1 + react(before.0, config, events.last()).1 =~= before.1);
    }
}

/// The live lines in a list of effects followed by another are those of the
/// first followed by those of the second.
pub proof fn lemma_live_lines_add(first: Seq<EffectView>, second: Seq<EffectView>)
    ensures
        live_lines(first + second) == live_lines(first) + live_lines(second),
    decreases second.len(),
{
    if second.len() == 0 {
        assert(first + second =~= first);
        assert(live_lines(first) + live_lines(second) =~= live_lines(first));
    } else {
        lemma_live_lines_add(first, second.drop_last());
        assert((first + second).drop_last() =~= first + second.drop_last());
        assert((first + second).last() == second.last());
        let earlier = live_lines(first) + live_lines(second.drop_last());
        match second.last() {
            EffectView::Live(line) => {
                assert(earlier.push(line) =~= live_lines(first) + live_lines(
                    second.drop_last(),
                ).push(line));
            },
            _ => {},
        }
    }
}

/// Over any run of a session, the lines for the live stream are those of the colors that the tracker reports for the colors sampled:
/// one line for the first color sampled and for every color that differs
/// from the one sampled before it, in order, each in the live style. The
/// tracker holds the color sampled last.
pub proof fn lemma_live_stream(config: Config, events: Seq<Event>)
    ensures
        live_lines(replay(config, events).1) == lines_of(
            reports_from(None, samples(config, events)),
            config.live_mode().rule(),
        ),
        replay(config, events).0.held == (if samples(config, events).len() == 0 {
            None
        } else {
            Some(samples(config, events).last())
        }),
    decreases events.len(),
{
    let rule = config.live_mode().rule();
    if events.len() == 0 {
        reveal_with_fuel(live_lines, 2);
        assert(seq![EffectView::Poll].drop_last() =~= Seq::<EffectView>::empty());
    } else {
        let before = replay(config, events.drop_last());
        let earlier = samples(config, events.drop_last());
        let step = react(before.0, config, events.last());
        lemma_live_stream(config, events.drop_last());
        lemma_live_lines_add(before.1, step.1);
        lemma_step_live_lines(before.0, config, events.last());
        match taken(before.0, events.last()) {
            Some(color) => {
                lemma_reports_push(None, earlier, color);
                let reports = reports_from(None, earlier);
                let report = reported(before.0.held, color);
                assert(reports.push(report).drop_last() =~= reports);
                assert(live_lines(before.1) + live_lines(step.1) =~= lines_of(
                    reports.push(report),
                    rule,
                ));
            },
            None => {
                assert(live_lines(before.1) + live_lines(step.1) =~= live_lines(before.1));
            },
        }
    }
}

/// The live lines of one step: the line of the color taken in, where the
/// tracker reports it, and none otherwise.
proof fn lemma_step_live_lines(s: SessionState, config: Config, event: Event)
    ensures
        live_lines(react(s, config, event).1) == (match taken(s, event) {
            Some(color) => match reported(s.held, color) {
                Some(changed) => seq![live_line(changed, config.live_mode().rule())],
                None => seq![],
            },
            None => seq![],
        }),
        taken(s, event) matches Some(color) ==> react(s, config, event).0.held == Some(color),
        taken(s, event) is None ==> react(s, config, event).0.held == s.held,
{
    let effects = react(s, config, event).1;
    reveal_with_fuel(live_lines, 4);
    if effects.len() > 0 {
        let most = effects.drop_last();
        if most.len() > 0 {
            let more = most.drop_last();
            if more.len() > 0 {
                assert(more.drop_last().len() == 0);
            }
        }
    }
}

/// The effects of one step of a session that is not done hold a commit only
/// if the step concludes the session; the commit then stands last, after the
/// final line, and both show the color held.
proof fn lemma_step_commits(s: SessionState, config: Config, event: Event)
    requires
        !(s.phase is Done),
    ensures
        commits(react(s, config, event).1) == (if react(s, config, event).0.phase is Done {
            1nat
        } else {
            0nat
        }),
        react(s, config, event).0.phase is Done ==> {
            let (after, effects) = react(s, config, event);
            &&& after.held is Some
            &&& effects.len() >= 2
            &&& effects[effects.len() - 2] == EffectView::Final(
                final_line(after.held->0, config.final_mode().rule(), config.template()),
            )
            &&& effects.last() == EffectView::Commit(after.held->0.hex_text())
        },
{
    let effects = react(s, config, event).1;
    reveal_with_fuel(commits, 4);
    if effects.len() > 0 {
        let most = effects.drop_last();
        if most.len() > 0 {
            let more = most.drop_last();
            if more.len() > 0 {
                assert(more.drop_last().len() == 0);
            }
        }
    }
}

} // verus!
