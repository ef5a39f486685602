//! Text and class names the pages derive from stage, status and entity
//! tokens.
use vstd::prelude::*;
use crate::text::{chars_of, decimal, is_ascii_char, owned, push_char, push_decimal, push_str, str_eq};

verus! {

/// What `char::to_uppercase` yields for `c`: its Unicode uppercase
/// mapping, one or more characters.
pub uninterp spec fn uppercase_of(c: char) -> Seq<char>;

/// The uppercase mapping of `c` (`char::to_uppercase`, collected). The
/// mapping itself is Unicode data and is not stated here; stated is what
/// the standard library documents for ASCII: `a`–`z` map to `A`–`Z`, and
/// every other ASCII character maps to itself.
#[verifier::external_body]
fn to_uppercase(c: char) -> (r: String)
    ensures
        r@ == uppercase_of(c),
        'a' <= c <= 'z' ==> r@ == seq![((c as u32) - 32) as char],
        (c as u32) < 128 && !('a' <= c <= 'z') ==> r@ == seq![c],
{
    c.to_uppercase().collect::<String>()
}

/// `s` with its first character replaced by its uppercase mapping.
pub open spec fn capitalized(s: Seq<char>) -> Seq<char> {
    if s.len() == 0 { s } else { uppercase_of(s[0]) + s.drop_first() }
}

/// ASCII upper-casing of one character: `a`–`z` become `A`–`Z`, every
/// other character is kept.
pub open spec fn ascii_upper(c: char) -> char {
    if 'a' <= c <= 'z' {
        ((c as u32) - 32) as char
    } else {
        c
    }
}

/// `s` with its first character upper-cased the ASCII way. For a first
/// character that is ASCII this is what `capitalized` gives.
pub open spec fn ascii_capitalized(s: Seq<char>) -> Seq<char> {
    if s.len() == 0 { s } else { seq![ascii_upper(s[0])] + s.drop_first() }
}

/// `s` with every `_` replaced by a space.
pub open spec fn underscores_to_spaces(s: Seq<char>) -> Seq<char> {
    s.map_values(|c: char| if c == '_' { ' ' } else { c })
}

/// Sentence case for a token: underscores become spaces and the first
/// letter is upper-cased. `"moved_in"` becomes `"Moved in"`.
pub fn humanize(value: &str) -> (r: String)
    ensures
        r@ == capitalized(underscores_to_spaces(value@)),
        value@.len() == 0 ==> r@.len() == 0,
        value@.len() > 0 && is_ascii_char(value@[0]) ==> r@ == ascii_capitalized(
            underscores_to_spaces(value@),
        ),
{
    let cs = chars_of(value);
    let mut r = String::new();
    if cs.len() == 0 {
        assert(underscores_to_spaces(value@) =~= value@);
        return r;
    }
    let first = if cs[0] == '_' { ' ' } else { cs[0] };
    let up = to_uppercase(first);
    push_str(&mut r, up.as_str());
    let ghost spaced = underscores_to_spaces(value@);
    let mut i: usize = 1;
    while i < cs.len()
        invariant
            1 <= i <= cs@.len(),
            cs@ == value@,
            spaced == underscores_to_spaces(value@),
            r@ == uppercase_of(spaced[0]) + spaced.subrange(1, i as int),
        decreases cs.len() - i,
    {
        let c = if cs[i] == '_' { ' ' } else { cs[i] };
        push_char(&mut r, c);
        assert(spaced.subrange(1, i + 1) =~= spaced.subrange(1, i as int).push(spaced[i as int]));
        i = i + 1;
    }
    assert(spaced.subrange(1, cs@.len() as int) =~= spaced.drop_first());
    r
}

/// The pill class for a household stage or a resource or placement status.
pub fn status_pill_class(token: &str) -> (r: String)
    ensures
        r@ == "pill pill--"@ + token@,
{
    let mut r = owned("pill pill--");
    push_str(&mut r, token);
    r
}

/// The pill class for an activity entity type; `placement` gets an
/// `-entity` suffix so it does not share the `placement` stage colour.
pub fn entity_pill_class(entity_type: &str) -> (r: String)
    ensures
        entity_type@ == "placement"@ ==> r@ == "pill pill--placement-entity"@,
        entity_type@ != "placement"@ ==> r@ == "pill pill--"@ + entity_type@,
{
    if str_eq(entity_type, "placement") {
        owned("pill pill--placement-entity")
    } else {
        let mut r = owned("pill pill--");
        push_str(&mut r, entity_type);
        r
    }
}

/// The banner class for a sitrep level: red gets its own colour.
pub fn sitrep_bar_class(level: &str) -> (c: &'static str)
    ensures
        level@ == "red"@ ==> c@ == "sitrep sitrep--red"@,
        level@ != "red"@ ==> c@ == "sitrep"@,
{
    if str_eq(level, "red") {
        "sitrep sitrep--red"
    } else {
        "sitrep"
    }
}

/// A placement status for the household: `"moved_in"` reads "Moved in",
/// any other status has its first letter upper-cased.
pub fn humanize_status(value: &str) -> (r: String)
    ensures
        value@ == "moved_in"@ ==> r@ == "Moved in"@,
        value@ != "moved_in"@ ==> r@ == capitalized(value@),
        value@ != "moved_in"@ && value@.len() > 0 && is_ascii_char(value@[0]) ==> r@
            == ascii_capitalized(value@),
{
    if str_eq(value, "moved_in") {
        return owned("Moved in");
    }
    let cs = chars_of(value);
    let mut r = String::new();
    if cs.len() == 0 {
        return r;
    }
    let up = to_uppercase(cs[0]);
    push_str(&mut r, up.as_str());
    let mut i: usize = 1;
    while i < cs.len()
        invariant
            1 <= i <= cs@.len(),
            cs@ == value@,
            r@ == uppercase_of(value@[0]) + value@.subrange(1, i as int),
        decreases cs.len() - i,
    {
        push_char(&mut r, cs[i]);
        assert(value@.subrange(1, i + 1) =~= value@.subrange(1, i as int).push(value@[i as int]));
        i = i + 1;
    }
    assert(value@.subrange(1, cs@.len() as int) =~= value@.drop_first());
    r
}

/// "1 person" or "{size} people".
pub fn pluralize(size: i64) -> (r: String)
    ensures
        size == 1 ==> r@ == "1 person"@,
        size != 1 ==> r@ == decimal(size as int) + " people"@,
{
    if size == 1 {
        owned("1 person")
    } else {
        let mut r = String::new();
        push_decimal(&mut r, size);
        push_str(&mut r, " people");
        r
    }
}

/// The plain-language headline and explanation of a stage, for the
/// household.
pub struct StageCopy {
    pub headline: &'static str,
    pub body: &'static str,
}

/// The copy the case page shows for each stage.
pub open spec fn stage_copy(stage: Seq<char>) -> (Seq<char>, Seq<char>) {
    if stage == "intake"@ {
        (
            "We've received your information."@,
            "Your case manager is reviewing what you've shared. They'll reach out soon about the next step."@,
        )
    } else if stage == "assessment"@ {
        (
            "We're working on the right fit."@,
            "We're matching your situation to the housing options we coordinate. Expect a call to confirm details and talk through choices."@,
        )
    } else if stage == "placement"@ {
        (
            "We're placing you."@,
            "We're lining up a specific place and working through move-in logistics. Watch for updates here and a call from your case manager."@,
        )
    } else if stage == "follow_up"@ {
        (
            "You're housed — we're checking in."@,
            "Your placement is active. Your case manager will follow up periodically to make sure things are going well."@,
        )
    } else if stage == "exited"@ {
        (
            "Your case is closed."@,
            "If your situation changes, reach out and we'll reopen your case."@,
        )
    } else {
        ("Your case is active."@, "Your case manager will update this page as things move."@)
    }
}

/// The plain-language copy for a stage.
pub fn plain_language(stage: &str) -> (c: StageCopy)
    ensures
        (c.headline@, c.body@) == stage_copy(stage@),
{
    if str_eq(stage, "intake") {
        StageCopy {
            headline: "We've received your information.",
            body: "Your case manager is reviewing what you've shared. They'll reach out soon about the next step.",
        }
    } else if str_eq(stage, "assessment") {
        StageCopy {
            headline: "We're working on the right fit.",
            body: "We're matching your situation to the housing options we coordinate. Expect a call to confirm details and talk through choices.",
        }
    } else if str_eq(stage, "placement") {
        StageCopy {
            headline: "We're placing you.",
            body: "We're lining up a specific place and working through move-in logistics. Watch for updates here and a call from your case manager.",
        }
    } else if str_eq(stage, "follow_up") {
        StageCopy {
            headline: "You're housed — we're checking in.",
            body: "Your placement is active. Your case manager will follow up periodically to make sure things are going well.",
        }
    } else if str_eq(stage, "exited") {
        StageCopy {
            headline: "Your case is closed.",
            body: "If your situation changes, reach out and we'll reopen your case.",
        }
    } else {
        StageCopy {
            headline: "Your case is active.",
            body: "Your case manager will update this page as things move.",
        }
    }
}

/// The headline of the household's current placement, by status.
pub open spec fn placement_headline_of(status: Seq<char>) -> Seq<char> {
    if status == "proposed"@ {
        "We're holding a spot for you."@
    } else if status == "confirmed"@ {
        "Your placement is confirmed."@
    } else if status == "moved_in"@ {
        "You're moved in."@
    } else if status == "exited"@ {
        "Your placement has ended."@
    } else if status == "cancelled"@ {
        "This placement didn't work out."@
    } else {
        "Your current placement"@
    }
}

/// The headline of the household's current placement, by status.
pub fn placement_headline(status: &str) -> (h: &'static str)
    ensures
        h@ == placement_headline_of(status@),
{
    if str_eq(status, "proposed") {
        "We're holding a spot for you."
    } else if str_eq(status, "confirmed") {
        "Your placement is confirmed."
    } else if str_eq(status, "moved_in") {
        "You're moved in."
    } else if str_eq(status, "exited") {
        "Your placement has ended."
    } else if str_eq(status, "cancelled") {
        "This placement didn't work out."
    } else {
        "Your current placement"
    }
}

/// Who an update on the case page is from, and the row's class.
pub fn update_author(author_is_household: bool) -> (r: (&'static str, &'static str))
    ensures
        author_is_household ==> r.0@ == "you"@ && r.1@ == "case-update case-update--self"@,
        !author_is_household ==> r.0@ == "case team"@ && r.1@ == "case-update"@,
{
    if author_is_household {
        ("you", "case-update case-update--self")
    } else {
        ("case team", "case-update")
    }
}

/// Where a timeline step stands relative to the household's stage.
#[derive(Debug, Clone, Copy, PartialEq, Eq)]
pub enum StepState {
    Past,
    Current,
    Future,
}

/// One step of the case timeline.
pub struct TimelineStep {
    pub key: &'static str,
    pub label: &'static str,
    pub state: StepState,
}

/// The stages the timeline shows, with their labels (exit is not a step).
pub const TIMELINE: [(&'static str, &'static str); 4] = [
    ("intake", "Intake"),
    ("assessment", "Assessment"),
    ("placement", "Placement"),
    ("follow_up", "Follow-up"),
];

/// The class of a step in a given state.
pub fn step_class(state: StepState) -> (c: &'static str)
    ensures
        state == StepState::Past ==> c@ == "case-step case-step--past"@,
        state == StepState::Current ==> c@ == "case-step case-step--current"@,
        state == StepState::Future ==> c@ == "case-step case-step--future"@,
{
    match state {
        StepState::Past => "case-step case-step--past",
        StepState::Current => "case-step case-step--current",
        StepState::Future => "case-step case-step--future",
    }
}

/// The mark a step shows: a tick for the steps behind the household.
pub fn step_marker(state: StepState) -> (m: &'static str)
    ensures
        state == StepState::Past ==> m@ == "✓"@,
        state != StepState::Past ==> m@ == ""@,
{
    match state {
        StepState::Past => "✓",
        _ => "",
    }
}

/// The position of `current` among the timeline stages, if it is one.
pub open spec fn timeline_position(current: Seq<char>) -> Option<int> {
    if current == "intake"@ {
        Some(0)
    } else if current == "assessment"@ {
        Some(1)
    } else if current == "placement"@ {
        Some(2)
    } else if current == "follow_up"@ {
        Some(3)
    } else {
        None
    }
}

/// The state of step `i` for a household at stage `current`: every step
/// is behind an exited household; otherwise the steps before its stage are
/// behind it, its stage is current, the rest ahead. A stage that is not on
/// the timeline leaves every step behind.
pub open spec fn step_state_of(current: Seq<char>, i: int) -> StepState {
    if current == "exited"@ {
        StepState::Past
    } else {
        match timeline_position(current) {
            None => StepState::Past,
            Some(p) => if i < p {
                StepState::Past
            } else if i == p {
                StepState::Current
            } else {
                StepState::Future
            },
        }
    }
}

/// The timeline steps for a household at stage `current`.
pub fn stage_timeline(current: &str) -> (steps: Vec<TimelineStep>)
    ensures
        steps@.len() == 4,
        forall|i: int|
            0 <= i < 4 ==> {
                &&& (#[trigger] steps@[i]).key == TIMELINE[i].0
                &&& steps@[i].label == TIMELINE[i].1
                &&& steps@[i].state == step_state_of(current@, i)
            },
{
    let stages = TIMELINE;
    let mut current_idx: usize = usize::MAX;
    let mut j: usize = 0;
    while j < 4
        invariant
            j <= 4,
            stages == TIMELINE,
            current_idx == usize::MAX ==> forall|k: int| 0 <= k < j ==> stages[k].0@ != current@,
            current_idx != usize::MAX ==> current_idx < j && stages[current_idx as int].0@ == current@
                && forall|k: int| 0 <= k < current_idx ==> stages[k].0@ != current@,
        decreases 4 - j,
    {
        if current_idx == usize::MAX && str_eq(stages[j].0, current) {
            current_idx = j;
        }
        j = j + 1;
    }
    assert(current_idx == usize::MAX ==> timeline_position(current@) is None);
    assert(current_idx != usize::MAX ==> timeline_position(current@) == Some(current_idx as int));
    let is_exited = str_eq(current, "exited");
    let mut steps: Vec<TimelineStep> = Vec::new();
    let mut i: usize = 0;
    while i < 4
        invariant
            i <= 4,
            stages == TIMELINE,
            is_exited == (current@ == "exited"@),
            current_idx == usize::MAX ==> timeline_position(current@) is None,
            current_idx != usize::MAX ==> timeline_position(current@) == Some(current_idx as int),
            steps@.len() == i,
            forall|k: int|
                0 <= k < i ==> {
                    &&& (#[trigger] steps@[k]).key == TIMELINE[k].0
                    &&& steps@[k].label == TIMELINE[k].1
                    &&& steps@[k].state == step_state_of(current@, k)
                },
        decreases 4 - i,
    {
        let state = if is_exited {
            StepState::Past
        } else if i < current_idx {
            StepState::Past
        } else if i == current_idx {
            StepState::Current
        } else {
            StepState::Future
        };
        steps.push(TimelineStep { key: stages[i].0, label: stages[i].1, state });
        i = i + 1;
    }
    steps
}

/// The housing panel's yes/no pill: class and label.
pub fn yes_no_pill(v: bool) -> (r: (&'static str, &'static str))
    ensures
        v ==> r.0@ == "pill pill--available"@ && r.1@ == "Yes"@,
        !v ==> r.0@ == "pill pill--exited"@ && r.1@ == "No"@,
{
    if v {
        ("pill pill--available", "Yes")
    } else {
        ("pill pill--exited", "No")
    }
}

} // verus!
