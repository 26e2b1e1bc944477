//! The opening event: the player's town is attacked, and the choice made
//! there gives the hero its origin and its first local fame.
//!
//! The screen fades in, shows an introduction, offers four choices, and fades
//! out. The clock that paces the fades runs in the client; this module decides
//! what each step does to the event's state.

use vstd::prelude::*;

verus! {

/// Where a hero's story began, after the attack on its town.
#[derive(Clone, Copy, Debug, PartialEq, Eq, Structural)]
pub enum HeroOrigin {
    Leader,
    Defender,
    Wanderer,
    Survivor,
}

impl HeroOrigin {
    /// The origin's name, in lowercase.
    pub open spec fn name(self) -> Seq<char> {
        match self {
            HeroOrigin::Leader => "leader"@,
            HeroOrigin::Defender => "defender"@,
            HeroOrigin::Wanderer => "wanderer"@,
            HeroOrigin::Survivor => "survivor"@,
        }
    }

    /// The origin's name, in lowercase.
    pub fn as_str(&self) -> (name: &'static str)
        ensures
            name@ == self.name(),
    {
        match self {
            HeroOrigin::Leader => "leader",
            HeroOrigin::Defender => "defender",
            HeroOrigin::Wanderer => "wanderer",
            HeroOrigin::Survivor => "survivor",
        }
    }
}

/// What the player does when the town is attacked.
#[derive(Clone, Copy, Debug, PartialEq, Eq, Structural)]
pub enum AttackChoice {
    Lead,
    Defend,
    Run,
    Cower,
}

impl AttackChoice {
    /// The choice's short label.
    pub open spec fn label(self) -> Seq<char> {
        match self {
            AttackChoice::Lead => "[LEAD]"@,
            AttackChoice::Defend => "[DEFEND]"@,
            AttackChoice::Run => "[RUN]"@,
            AttackChoice::Cower => "[COWER]"@,
        }
    }

    /// What the choice means.
    pub open spec fn description(self) -> Seq<char> {
        match self {
            AttackChoice::Lead => "Rally the townspeople and fight"@,
            AttackChoice::Defend => "Hold the gates, protect the weak"@,
            AttackChoice::Run => "Flee into the forest"@,
            AttackChoice::Cower => "Hide and pray it ends"@,
        }
    }

    /// The text on the choice's button: the label, padded with spaces to ten
    /// characters, a space, and the description.
    pub open spec fn button_caption(self) -> Seq<char> {
        padded(self.label(), 10) + " "@ + self.description()
    }

    /// The text on the choice's button.
    pub fn button_text(&self) -> (text: String)
        ensures
            text@ == self.button_caption(),
    {
        let (label, description) = match self {
            AttackChoice::Lead => ("[LEAD]", "Rally the townspeople and fight"),
            AttackChoice::Defend => ("[DEFEND]", "Hold the gates, protect the weak"),
            AttackChoice::Run => ("[RUN]", "Flee into the forest"),
            AttackChoice::Cower => ("[COWER]", "Hide and pray it ends"),
        };
        let mut text = pad_right(label, 10);
        text.append(" ");
        text.append(description);
        text
    }

    /// The origin that this choice gives.
    pub fn origin(&self) -> (origin: HeroOrigin)
        ensures
            origin == origin_of(*self),
    {
        match self {
            AttackChoice::Lead => HeroOrigin::Leader,
            AttackChoice::Defend => HeroOrigin::Defender,
            AttackChoice::Run => HeroOrigin::Wanderer,
            AttackChoice::Cower => HeroOrigin::Survivor,
        }
    }

    /// The local fame that this choice earns.
    pub fn fame(&self) -> (fame: i32)
        ensures
            fame == fame_of(*self),
    {
        match self {
            AttackChoice::Lead => 10,
            AttackChoice::Defend => 5,
            AttackChoice::Run => 0,
            AttackChoice::Cower => 0,
        }
    }
}

/// The choices in the order their buttons are shown.
pub open spec fn choice_order() -> Seq<AttackChoice> {
    seq![AttackChoice::Lead, AttackChoice::Defend, AttackChoice::Run, AttackChoice::Cower]
}

/// The choices in the order their buttons are shown.
pub fn choices_in_order() -> (choices: Vec<AttackChoice>)
    ensures
        choices@ == choice_order(),
{
    vec![AttackChoice::Lead, AttackChoice::Defend, AttackChoice::Run, AttackChoice::Cower]
}

/// `text` followed by as many spaces as it falls short of `width` characters.
pub open spec fn padded(text: Seq<char>, width: nat) -> Seq<char> {
    if text.len() >= width {
        text
    } else {
        text + Seq::new((width - text.len()) as nat, |i: int| ' ')
    }
}

/// `text`, padded with spaces on the right to `width` characters.
fn pad_right(text: &str, width: usize) -> (padded_text: String)
    ensures
        padded_text@ == padded(text@, width as nat),
{
    let mut out = String::from_str(text);
    let len = text.unicode_len();
    let mut n: usize = len;
    while n < width
        invariant
            len == text@.len(),
            n >= len,
            n <= width || n == len,
            out@ == text@ + Seq::new((n - len) as nat, |i: int| ' '),
        decreases width - n,
    {
        out.append(" ");
        n = n + 1;
        proof {
            reveal_strlit(" ");
            assert(out@ =~= text@ + Seq::new((n - len) as nat, |i: int| ' '));
        }
    }
    proof {
        if len >= width {
            assert(out@ =~= text@);
        }
    }
    out
}

/// The origin that a choice gives.
pub open spec fn origin_of(choice: AttackChoice) -> HeroOrigin {
    match choice {
        AttackChoice::Lead => HeroOrigin::Leader,
        AttackChoice::Defend => HeroOrigin::Defender,
        AttackChoice::Run => HeroOrigin::Wanderer,
        AttackChoice::Cower => HeroOrigin::Survivor,
    }
}

/// The local fame that a choice earns.
pub open spec fn fame_of(choice: AttackChoice) -> i32 {
    match choice {
        AttackChoice::Lead => 10,
        AttackChoice::Defend => 5,
        AttackChoice::Run => 0,
        AttackChoice::Cower => 0,
    }
}

/// The step of the opening event that is on screen.
#[derive(Clone, Copy, Debug, PartialEq, Eq, Structural)]
pub enum OpeningPhase {
    NotStarted,
    FadingIn,
    ShowingIntro,
    ShowingChoices,
    FadingOut,
    Complete,
}

/// How far along the event a phase stands.
pub open spec fn rank(phase: OpeningPhase) -> int {
    match phase {
        OpeningPhase::NotStarted => 0,
        OpeningPhase::FadingIn => 1,
        OpeningPhase::ShowingIntro => 2,
        OpeningPhase::ShowingChoices => 3,
        OpeningPhase::FadingOut => 4,
        OpeningPhase::Complete => 5,
    }
}

/// How long a timed phase stays on screen, in milliseconds; the other phases
/// wait for the player or for nothing.
pub open spec fn duration_ms(phase: OpeningPhase) -> Option<u32> {
    match phase {
        OpeningPhase::FadingIn => Some(1500),
        OpeningPhase::ShowingIntro => Some(3000),
        OpeningPhase::FadingOut => Some(500),
        _ => None,
    }
}

impl OpeningPhase {
    /// How long this phase stays on screen before its timer elapses, in
    /// milliseconds, or `None` where the phase is not timed.
    pub fn duration_ms(&self) -> (ms: Option<u32>)
        ensures
            ms == duration_ms(*self),
    {
        match self {
            OpeningPhase::FadingIn => Some(1500),
            OpeningPhase::ShowingIntro => Some(3000),
            OpeningPhase::FadingOut => Some(500),
            _ => None,
        }
    }
}

/// Sent once the player has chosen.
#[derive(Clone, Copy, Debug, PartialEq, Eq, Structural)]
pub struct OpeningEventComplete {
    pub origin: HeroOrigin,
    pub fame_gained: i32,
}

/// The event that a choice sends.
pub open spec fn completion(choice: AttackChoice) -> OpeningEventComplete {
    OpeningEventComplete { origin: origin_of(choice), fame_gained: fame_of(choice) }
}

/// What the client shows once a timed phase has run its course.
#[derive(Clone, Copy, Debug, PartialEq, Eq, Structural)]
pub enum FadeStep {
    /// Nothing changes.
    Stay,
    /// The screen is dark: show the introduction.
    ShowIntro,
    /// The introduction has been read: replace it with the choices.
    ShowChoices,
    /// The screen is clear again: remove the overlay.
    Finish,
}

/// The opening event as its rules see it.
pub struct OpeningView {
    pub seen_opening: bool,
    pub origin: Option<HeroOrigin>,
    pub fame_local: int,
    pub phase: OpeningPhase,
}

/// The state of the opening event. `seen_opening` turns true once it has run
/// to its end, and it never runs again after that.
#[derive(Debug)]
pub struct OpeningEventState {
    pub seen_opening: bool,
    pub origin: Option<HeroOrigin>,
    pub fame_local: i32,
    pub phase: OpeningPhase,
}

impl View for OpeningEventState {
    type V = OpeningView;

    open spec fn view(&self) -> OpeningView {
        OpeningView {
            seen_opening: self.seen_opening,
            origin: self.origin,
            fame_local: self.fame_local as int,
            phase: self.phase,
        }
    }
}

impl Default for OpeningEventState {
    fn default() -> (state: OpeningEventState)
        ensures
            state@ == (OpeningView {
                seen_opening: false,
                origin: None,
                fame_local: 0,
                phase: OpeningPhase::NotStarted,
            }),
    {
        OpeningEventState::new()
    }
}

/// The state after a trigger, and whether the event started.
pub open spec fn triggered(v: OpeningView) -> (OpeningView, bool) {
    if v.seen_opening || v.phase != OpeningPhase::NotStarted {
        (v, false)
    } else {
        (OpeningView { phase: OpeningPhase::FadingIn, ..v }, true)
    }
}

/// The state after the current phase's timer elapsed, and what to show.
pub open spec fn faded(v: OpeningView) -> (OpeningView, FadeStep) {
    match v.phase {
        OpeningPhase::FadingIn => (OpeningView { phase: OpeningPhase::ShowingIntro, ..v }, FadeStep::ShowIntro),
        OpeningPhase::ShowingIntro => (
            OpeningView { phase: OpeningPhase::ShowingChoices, ..v },
            FadeStep::ShowChoices,
        ),
        OpeningPhase::FadingOut => (
            OpeningView { phase: OpeningPhase::Complete, seen_opening: true, ..v },
            FadeStep::Finish,
        ),
        _ => (v, FadeStep::Stay),
    }
}

/// The state after the choices pressed in one frame were handled: while the
/// choices are shown, the first press decides, and the other paths close.
pub open spec fn chosen(v: OpeningView, choices: Seq<AttackChoice>) -> OpeningView {
    if v.phase != OpeningPhase::ShowingChoices || choices.len() == 0 {
        v
    } else {
        OpeningView {
            origin: Some(origin_of(choices[0])),
            fame_local: v.fame_local + fame_of(choices[0]),
            phase: OpeningPhase::FadingOut,
            ..v
        }
    }
}

/// The events that the choices pressed in one frame send: the first press's,
/// if the choices are shown.
pub open spec fn sent(v: OpeningView, choices: Seq<AttackChoice>) -> Seq<OpeningEventComplete> {
    if v.phase != OpeningPhase::ShowingChoices || choices.len() == 0 {
        Seq::empty()
    } else {
        seq![completion(choices[0])]
    }
}

impl OpeningEventState {
    /// A fresh state: not seen, no origin, no fame, not started.
    pub fn new() -> (state: OpeningEventState)
        ensures
            state@ == (OpeningView {
                seen_opening: false,
                origin: None,
                fame_local: 0,
                phase: OpeningPhase::NotStarted,
            }),
    {
        OpeningEventState { seen_opening: false, origin: None, fame_local: 0, phase: OpeningPhase::NotStarted }
    }

    /// The event was asked for: it starts fading in, unless it was already
    /// seen or is under way. Returns whether it started.
    pub fn trigger(&mut self) -> (started: bool)
        ensures
            (final(self)@, started) == triggered(old(self)@),
    {
        if self.seen_opening || self.phase != OpeningPhase::NotStarted {
            return false;
        }
        self.phase = OpeningPhase::FadingIn;
        true
    }

    /// The current phase's timer has run out: move to the next phase, and say
    /// what to show.
    pub fn fade_elapsed(&mut self) -> (step: FadeStep)
        ensures
            (final(self)@, step) == faded(old(self)@),
    {
        match self.phase {
            OpeningPhase::FadingIn => {
                self.phase = OpeningPhase::ShowingIntro;
                FadeStep::ShowIntro
            },
            OpeningPhase::ShowingIntro => {
                self.phase = OpeningPhase::ShowingChoices;
                FadeStep::ShowChoices
            },
            OpeningPhase::FadingOut => {
                self.phase = OpeningPhase::Complete;
                self.seen_opening = true;
                FadeStep::Finish
            },
            _ => FadeStep::Stay,
        }
    }

    /// The choice buttons pressed in one frame, in the order they were seen.
    /// While the choices are shown, the first press sets the origin, adds its
    /// fame and sends its event, and the screen starts fading out, which
    /// closes the other choices; the other presses, and presses at any other
    /// time, are ignored.
    pub fn handle_choices(&mut self, choices: &Vec<AttackChoice>) -> (events: Vec<OpeningEventComplete>)
        requires
            old(self)@.phase == OpeningPhase::ShowingChoices && choices@.len() > 0 ==> old(self)@.fame_local
                + fame_of(choices@[0]) <= i32::MAX,
        ensures
            final(self)@ == chosen(old(self)@, choices@),
            events@ == sent(old(self)@, choices@),
    {
        let mut events: Vec<OpeningEventComplete> = Vec::new();
        if self.phase != OpeningPhase::ShowingChoices || choices.len() == 0 {
            return events;
        }
        let choice = choices[0];
        let origin = choice.origin();
        let fame = choice.fame();
        self.origin = Some(origin);
        self.fame_local = self.fame_local + fame;
        self.phase = OpeningPhase::FadingOut;
        events.push(OpeningEventComplete { origin, fame_gained: fame });
        proof {
            assert(events@ =~= seq![completion(choice)]);
        }
        events
    }
}

/// The event is well formed when it is marked seen only once it is complete.
pub open spec fn seen_only_when_complete(v: OpeningView) -> bool {
    v.seen_opening ==> v.phase == OpeningPhase::Complete
}

/// The total fame that a run of sent events reports.
pub open spec fn fame_reported(events: Seq<OpeningEventComplete>) -> int
    decreases events.len(),
{
    if events.len() == 0 {
        0
    } else {
        fame_reported(events.drop_last()) + events.last().fame_gained
    }
}

/// Each origin has a name of its own.
pub proof fn lemma_origin_names_distinct(a: HeroOrigin, b: HeroOrigin)
    requires
        a.name() == b.name(),
    ensures
        a == b,
{
    reveal_strlit("leader");
    reveal_strlit("defender");
    reveal_strlit("wanderer");
    reveal_strlit("survivor");
    assert(HeroOrigin::Leader.name()[0] == 'l');
    assert(HeroOrigin::Defender.name()[0] == 'd');
    assert(HeroOrigin::Wanderer.name()[0] == 'w');
    assert(HeroOrigin::Survivor.name()[0] == 's');
    assert(a.name()[0] == b.name()[0]);
}

/// The opening plays once: a trigger after it was seen, or while it is under
/// way, changes nothing; and the step that ends it marks it seen.
pub proof fn lemma_opening_plays_once(v: OpeningView)
    ensures
        v.seen_opening || v.phase != OpeningPhase::NotStarted ==> triggered(v) == (v, false),
        faded(v).1 == FadeStep::Finish ==> faded(v).0.seen_opening && triggered(faded(v).0) == (
        faded(v).0, false),
{
}

/// The event only moves forward: no step returns to an earlier phase.
pub proof fn lemma_phase_never_goes_back(v: OpeningView, choices: Seq<AttackChoice>)
    ensures
        rank(triggered(v).0.phase) >= rank(v.phase),
        rank(faded(v).0.phase) >= rank(v.phase),
        rank(chosen(v, choices).phase) >= rank(v.phase),
{
}

/// Every step keeps the event marked seen only once it is complete.
pub proof fn lemma_steps_keep_seen_only_when_complete(v: OpeningView, choices: Seq<AttackChoice>)
    requires
        seen_only_when_complete(v),
    ensures
        seen_only_when_complete(triggered(v).0),
        seen_only_when_complete(faded(v).0),
        seen_only_when_complete(chosen(v, choices)),
{
}

/// The fame that the sent events report is exactly the fame that the player
/// gained, and a frame sends one event at most.
pub proof fn lemma_reported_fame_is_gained_fame(v: OpeningView, choices: Seq<AttackChoice>)
    ensures
        fame_reported(sent(v, choices)) == chosen(v, choices).fame_local - v.fame_local,
        sent(v, choices).len() <= 1,
{
    assert(fame_reported(Seq::<OpeningEventComplete>::empty()) == 0);
    if v.phase == OpeningPhase::ShowingChoices && choices.len() > 0 {
        assert(sent(v, choices).drop_last() =~= Seq::<OpeningEventComplete>::empty());
        assert(sent(v, choices).last() == completion(choices[0]));
    }
}

/// Each choice closes the others: once a choice was taken, no later step
/// shows the choices again, so no later press counts, and the origin stays.
pub proof fn lemma_one_choice_closes_the_others(v: OpeningView, first: Seq<AttackChoice>, later: Seq<AttackChoice>)
    requires
        sent(v, first).len() > 0,
    ensures
        rank(chosen(v, first).phase) > rank(OpeningPhase::ShowingChoices),
        chosen(chosen(v, first), later) == chosen(v, first),
        sent(chosen(v, first), later).len() == 0,
        triggered(chosen(v, first)).0.origin == chosen(v, first).origin,
        faded(chosen(v, first)).0.origin == chosen(v, first).origin,
        rank(triggered(chosen(v, first)).0.phase) > rank(OpeningPhase::ShowingChoices),
        rank(faded(chosen(v, first)).0.phase) > rank(OpeningPhase::ShowingChoices),
{
}

/// The whole opening, from a fresh state: a trigger, the fade in, the
/// introduction, one choice and the fade out leave the event complete and
/// seen, with the choice's origin and fame.
pub proof fn lemma_opening_run(choice: AttackChoice)
    ensures
        ({
            let fresh = OpeningView {
                seen_opening: false,
                origin: None,
                fame_local: 0,
                phase: OpeningPhase::NotStarted,
            };
            let (started, ok) = triggered(fresh);
            let (intro, step1) = faded(started);
            let (offered, step2) = faded(intro);
            let picked = chosen(offered, seq![choice]);
            let (done, step3) = faded(picked);
            &&& ok
            &&& step1 == FadeStep::ShowIntro
            &&& step2 == FadeStep::ShowChoices
            &&& sent(offered, seq![choice]) == seq![completion(choice)]
            &&& step3 == FadeStep::Finish
            &&& done == OpeningView {
                seen_opening: true,
                origin: Some(origin_of(choice)),
                fame_local: fame_of(choice) as int,
                phase: OpeningPhase::Complete,
            }
        }),
{
    let s = seq![choice];
    assert(s[0] == choice);
}

/// What each choice gives: leading makes a Leader with ten local fame,
/// defending a Defender with five, running a Wanderer and cowering a
/// Survivor, both with none; no choice costs fame.
pub proof fn lemma_choice_outcomes(choice: AttackChoice)
    ensures
        fame_of(choice) >= 0,
        choice == AttackChoice::Lead ==> origin_of(choice) == HeroOrigin::Leader && fame_of(choice) == 10,
        choice == AttackChoice::Defend ==> origin_of(choice) == HeroOrigin::Defender && fame_of(choice) == 5,
        choice == AttackChoice::Run ==> origin_of(choice) == HeroOrigin::Wanderer && fame_of(choice) == 0,
        choice == AttackChoice::Cower ==> origin_of(choice) == HeroOrigin::Survivor && fame_of(choice) == 0,
        completion(choice).origin == origin_of(choice),
        completion(choice).fame_gained == fame_of(choice),
{
}

/// A frame of presses while the choices are shown takes the first press: the
/// origin becomes that choice's, the fame grows by exactly that choice's fame,
/// the screen starts fading out, and the one event sent names the same origin
/// and fame.
pub proof fn lemma_first_press_decides(v: OpeningView, choices: Seq<AttackChoice>)
    requires
        v.phase == OpeningPhase::ShowingChoices,
        choices.len() > 0,
    ensures
        chosen(v, choices).origin == Some(origin_of(choices[0])),
        chosen(v, choices).fame_local == v.fame_local + fame_of(choices[0]),
        chosen(v, choices).phase == OpeningPhase::FadingOut,
        chosen(v, choices).seen_opening == v.seen_opening,
        sent(v, choices).len() == 1,
        sent(v, choices)[0].origin == origin_of(choices[0]),
        sent(v, choices)[0].fame_gained == fame_of(choices[0]),
{
}

} // verus!
