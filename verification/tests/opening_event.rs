use what_may_become::opening::{
    choices_in_order, AttackChoice, FadeStep, HeroOrigin, OpeningEventComplete, OpeningEventState,
    OpeningPhase,
};

fn at_choices() -> OpeningEventState {
    let mut state = OpeningEventState::new();
    assert!(state.trigger());
    assert_eq!(state.fade_elapsed(), FadeStep::ShowIntro);
    assert_eq!(state.fade_elapsed(), FadeStep::ShowChoices);
    assert_eq!(state.phase, OpeningPhase::ShowingChoices);
    state
}

#[test]
fn origin_names() {
    assert_eq!(HeroOrigin::Leader.as_str(), "leader");
    assert_eq!(HeroOrigin::Defender.as_str(), "defender");
    assert_eq!(HeroOrigin::Wanderer.as_str(), "wanderer");
    assert_eq!(HeroOrigin::Survivor.as_str(), "survivor");
}

#[test]
fn fresh_state() {
    let state = OpeningEventState::default();
    assert!(!state.seen_opening);
    assert_eq!(state.origin, None);
    assert_eq!(state.fame_local, 0);
    assert_eq!(state.phase, OpeningPhase::NotStarted);
}

#[test]
fn full_run_as_leader() {
    let mut state = at_choices();
    let events = state.handle_choices(&vec![AttackChoice::Lead]);
    assert_eq!(events, vec![OpeningEventComplete { origin: HeroOrigin::Leader, fame_gained: 10 }]);
    assert_eq!(state.origin, Some(HeroOrigin::Leader));
    assert_eq!(state.fame_local, 10);
    assert_eq!(state.phase, OpeningPhase::FadingOut);
    assert!(!state.seen_opening);
    assert_eq!(state.fade_elapsed(), FadeStep::Finish);
    assert_eq!(state.phase, OpeningPhase::Complete);
    assert!(state.seen_opening);
}

#[test]
fn each_choice_gives_its_origin_and_fame() {
    let cases = [
        (AttackChoice::Lead, HeroOrigin::Leader, 10),
        (AttackChoice::Defend, HeroOrigin::Defender, 5),
        (AttackChoice::Run, HeroOrigin::Wanderer, 0),
        (AttackChoice::Cower, HeroOrigin::Survivor, 0),
    ];
    for (choice, origin, fame) in cases {
        let mut state = at_choices();
        let events = state.handle_choices(&vec![choice]);
        assert_eq!(events, vec![OpeningEventComplete { origin, fame_gained: fame }]);
        assert_eq!(state.origin, Some(origin));
        assert_eq!(state.fame_local, fame);
    }
}

#[test]
fn opening_plays_once() {
    let mut state = at_choices();
    state.handle_choices(&vec![AttackChoice::Run]);
    state.fade_elapsed();
    assert!(state.seen_opening);
    assert!(!state.trigger());
    assert_eq!(state.phase, OpeningPhase::Complete);
    assert_eq!(state.fade_elapsed(), FadeStep::Stay);
}

#[test]
fn trigger_ignored_when_already_seen_or_running() {
    let mut state = OpeningEventState::new();
    state.seen_opening = true;
    assert!(!state.trigger());
    assert_eq!(state.phase, OpeningPhase::NotStarted);

    let mut running = OpeningEventState::new();
    assert!(running.trigger());
    assert!(!running.trigger());
    assert_eq!(running.phase, OpeningPhase::FadingIn);
}

#[test]
fn choices_ignored_outside_the_choice_screen() {
    let mut state = OpeningEventState::new();
    assert!(state.handle_choices(&vec![AttackChoice::Lead]).is_empty());
    state.trigger();
    assert!(state.handle_choices(&vec![AttackChoice::Lead]).is_empty());
    assert_eq!(state.fame_local, 0);
    assert_eq!(state.origin, None);
    assert_eq!(state.phase, OpeningPhase::FadingIn);
}

#[test]
fn first_press_in_a_frame_decides() {
    let mut state = at_choices();
    state.fame_local = 7;
    let events = state.handle_choices(&vec![AttackChoice::Defend, AttackChoice::Lead]);
    assert_eq!(events, vec![OpeningEventComplete { origin: HeroOrigin::Defender, fame_gained: 5 }]);
    assert_eq!(state.fame_local, 12);
    assert_eq!(state.origin, Some(HeroOrigin::Defender));
    assert_eq!(state.phase, OpeningPhase::FadingOut);
}

#[test]
fn a_choice_closes_the_others() {
    let mut state = at_choices();
    assert_eq!(state.handle_choices(&vec![AttackChoice::Run]).len(), 1);
    assert!(state.handle_choices(&vec![AttackChoice::Lead]).is_empty());
    assert_eq!(state.fade_elapsed(), FadeStep::Finish);
    assert!(!state.trigger());
    assert!(state.handle_choices(&vec![AttackChoice::Lead]).is_empty());
    assert_eq!(state.origin, Some(HeroOrigin::Wanderer));
    assert_eq!(state.fame_local, 0);
}

#[test]
fn no_press_keeps_the_choice_screen() {
    let mut state = at_choices();
    assert!(state.handle_choices(&vec![]).is_empty());
    assert_eq!(state.phase, OpeningPhase::ShowingChoices);
}

#[test]
fn fade_durations() {
    assert_eq!(OpeningPhase::FadingIn.duration_ms(), Some(1500));
    assert_eq!(OpeningPhase::ShowingIntro.duration_ms(), Some(3000));
    assert_eq!(OpeningPhase::FadingOut.duration_ms(), Some(500));
    assert_eq!(OpeningPhase::ShowingChoices.duration_ms(), None);
    assert_eq!(OpeningPhase::NotStarted.duration_ms(), None);
    assert_eq!(OpeningPhase::Complete.duration_ms(), None);
}

#[test]
fn button_texts() {
    assert_eq!(AttackChoice::Lead.button_text(), "[LEAD]     Rally the townspeople and fight");
    assert_eq!(AttackChoice::Defend.button_text(), "[DEFEND]   Hold the gates, protect the weak");
    assert_eq!(AttackChoice::Run.button_text(), "[RUN]      Flee into the forest");
    assert_eq!(AttackChoice::Cower.button_text(), "[COWER]    Hide and pray it ends");
    for choice in choices_in_order() {
        assert_eq!(choice.button_text(), format!("{:<10} {}", label(choice), description(choice)));
    }
    assert_eq!(
        choices_in_order(),
        vec![AttackChoice::Lead, AttackChoice::Defend, AttackChoice::Run, AttackChoice::Cower]
    );
}

fn label(choice: AttackChoice) -> &'static str {
    match choice {
        AttackChoice::Lead => "[LEAD]",
        AttackChoice::Defend => "[DEFEND]",
        AttackChoice::Run => "[RUN]",
        AttackChoice::Cower => "[COWER]",
    }
}

fn description(choice: AttackChoice) -> &'static str {
    match choice {
        AttackChoice::Lead => "Rally the townspeople and fight",
        AttackChoice::Defend => "Hold the gates, protect the weak",
        AttackChoice::Run => "Flee into the forest",
        AttackChoice::Cower => "Hide and pray it ends",
    }
}

#[test]
fn origin_names_are_distinct() {
    let origins = [HeroOrigin::Leader, HeroOrigin::Defender, HeroOrigin::Wanderer, HeroOrigin::Survivor];
    for a in origins {
        for b in origins {
            assert_eq!(a == b, a.as_str() == b.as_str());
        }
    }
}

fn rank(phase: OpeningPhase) -> u8 {
    match phase {
        OpeningPhase::NotStarted => 0,
        OpeningPhase::FadingIn => 1,
        OpeningPhase::ShowingIntro => 2,
        OpeningPhase::ShowingChoices => 3,
        OpeningPhase::FadingOut => 4,
        OpeningPhase::Complete => 5,
    }
}

#[test]
fn phases_only_move_forward() {
    let mut state = OpeningEventState::new();
    let mut last = rank(state.phase);
    for step in 0..12 {
        match step % 3 {
            0 => {
                state.trigger();
            }
            1 => {
                state.fade_elapsed();
            }
            _ => {
                state.handle_choices(&vec![AttackChoice::Cower]);
            }
        }
        let now = rank(state.phase);
        assert!(now >= last);
        assert!(!state.seen_opening || state.phase == OpeningPhase::Complete);
        last = now;
    }
    assert_eq!(state.phase, OpeningPhase::Complete);
    assert_eq!(state.origin, Some(HeroOrigin::Survivor));
}
