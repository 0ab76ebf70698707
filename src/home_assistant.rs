//! Home Assistant: entity states, the habit analysis over them, the text of
//! the home report, and the endpoints the client talks to. The HTTP calls
//! themselves are made by the caller.
use vstd::prelude::*;

use crate::scout::strip_trailing_slashes;
use crate::text::{append, chars_of, decimal, decimal_chars, has_prefix, same_chars, starts_with, string_of};

verus! {

/// The state of one Home Assistant entity.
pub struct HaState {
    pub entity_id: String,
    pub state: String,
    pub last_changed: String,
}

/// What the analysis found: the lights that are on, a one-line message and suggestions.
pub struct HabitSummary {
    pub active_lights: Vec<String>,
    pub message: String,
    pub suggestions: Vec<String>,
}

/// Looks for habits worth mentioning in a snapshot of entity states.
pub struct HomeHabitAnalyzer;

/// A light entity that is switched on.
pub open spec fn is_active_light(s: HaState) -> bool {
    has_prefix(s.entity_id@, "light."@) && s.state@ == "on"@
}

/// The ids of the active lights among `states`, in order.
pub open spec fn active_light_ids(states: Seq<HaState>) -> Seq<Seq<char>>
    decreases states.len(),
{
    if states.len() == 0 {
        Seq::empty()
    } else {
        let prev = active_light_ids(states.drop_last());
        if is_active_light(states.last()) {
            prev.push(states.last().entity_id@)
        } else {
            prev
        }
    }
}

/// The message for the active lights `ids`.
pub open spec fn lights_message(ids: Seq<Seq<char>>) -> Seq<char> {
    if ids.len() == 0 {
        "All lights are off."@
    } else if ids.len() == 1 {
        "1 light is on: "@ + ids[0] + "."@
    } else {
        decimal(ids.len()) + " lights are on."@
    }
}

/// The suggestions when `n` lights are on.
pub open spec fn light_suggestions(n: nat) -> Seq<Seq<char>> {
    if n == 0 {
        Seq::empty()
    } else {
        seq![
            "You have "@ + decimal(n)
                + " light(s) on. Would you like me to turn them off to save energy?"@,
        ]
    }
}

/// The views of a list of strings.
pub open spec fn views(v: Seq<String>) -> Seq<Seq<char>> {
    v.map_values(|s: String| s@)
}

impl HomeHabitAnalyzer {
    pub fn new() -> (r: HomeHabitAnalyzer) {
        HomeHabitAnalyzer
    }

    /// Lists the lights that are on and words a message and suggestions about them.
    pub fn analyze(&self, states: &[HaState]) -> (r: HabitSummary)
        ensures
            views(r.active_lights@) == active_light_ids(states@),
            r.message@ == lights_message(active_light_ids(states@)),
            views(r.suggestions@) == light_suggestions(active_light_ids(states@).len()),
    {
        let light_prefix = chars_of("light.");
        let on = chars_of("on");
        proof {
            reveal_strlit("light.");
            reveal_strlit("on");
        }
        let mut active_lights: Vec<String> = Vec::new();
        let mut i: usize = 0;
        while i < states.len()
            invariant
                i <= states@.len(),
                light_prefix@ == "light."@,
                on@ == "on"@,
                views(active_lights@) == active_light_ids(states@.take(i as int)),
            decreases states@.len() - i,
        {
            let s = &states[i];
            proof {
                assert(states@.take(i + 1).drop_last() =~= states@.take(i as int));
            }
            if starts_with(&chars_of(s.entity_id.as_str()), &light_prefix) && same_chars(
                &chars_of(s.state.as_str()),
                &on,
            ) {
                active_lights.push(s.entity_id.clone());
            }
            i = i + 1;
            assert(views(active_lights@) =~= active_light_ids(states@.take(i as int)));
        }
        assert(states@.take(states@.len() as int) =~= states@);
        let n = active_lights.len();
        let mut suggestions: Vec<String> = Vec::new();
        if n > 0 {
            let mut cs = chars_of("You have ");
            append(&mut cs, &decimal_chars(n as u64));
            append(
                &mut cs,
                &chars_of(" light(s) on. Would you like me to turn them off to save energy?"),
            );
            suggestions.push(string_of(&cs));
        }
        assert(views(suggestions@) =~= light_suggestions(n as nat));
        let message = if n == 0 {
            "All lights are off.".to_owned()
        } else if n == 1 {
            let mut cs = chars_of("1 light is on: ");
            append(&mut cs, &chars_of(active_lights[0].as_str()));
            append(&mut cs, &chars_of("."));
            string_of(&cs)
        } else {
            let mut cs = decimal_chars(n as u64);
            append(&mut cs, &chars_of(" lights are on."));
            string_of(&cs)
        };
        HabitSummary { active_lights, message, suggestions }
    }
}

/// The suggestion lines of the report, each `- ` and the suggestion.
pub open spec fn suggestion_lines(suggestions: Seq<Seq<char>>) -> Seq<char>
    decreases suggestions.len(),
{
    if suggestions.len() == 0 {
        Seq::empty()
    } else {
        suggestion_lines(suggestions.drop_last()) + "- "@ + suggestions.last() + "\n"@
    }
}

/// The report text: the message, then the suggestions under a heading when there are any.
pub open spec fn insights_text(message: Seq<char>, suggestions: Seq<Seq<char>>) -> Seq<char> {
    if suggestions.len() == 0 {
        message
    } else {
        message + "\n\nSuggestions:\n"@ + suggestion_lines(suggestions)
    }
}

/// The report text for a summary (see `insights_text`).
pub fn render_insights(summary: &HabitSummary) -> (r: String)
    ensures
        r@ == insights_text(summary.message@, views(summary.suggestions@)),
{
    let mut out = chars_of(summary.message.as_str());
    if summary.suggestions.len() == 0 {
        assert(views(summary.suggestions@).len() == 0);
        return string_of(&out);
    }
    append(&mut out, &chars_of("\n\nSuggestions:\n"));
    let ghost head = out@;
    let ghost sv = views(summary.suggestions@);
    let mut i: usize = 0;
    assert(sv.take(0) =~= Seq::<Seq<char>>::empty());
    while i < summary.suggestions.len()
        invariant
            i <= summary.suggestions@.len(),
            sv == views(summary.suggestions@),
            out@ == head + suggestion_lines(sv.take(i as int)),
        decreases summary.suggestions@.len() - i,
    {
        append(&mut out, &chars_of("- "));
        append(&mut out, &chars_of(summary.suggestions[i].as_str()));
        append(&mut out, &chars_of("\n"));
        proof {
            let t = sv.take(i + 1);
            assert(t.drop_last() =~= sv.take(i as int));
            assert(t.last() == summary.suggestions@[i as int]@);
        }
        i = i + 1;
        assert(out@ =~= head + suggestion_lines(sv.take(i as int)));
    }
    assert(sv.take(sv.len() as int) =~= sv);
    string_of(&out)
}

/// Where and how to reach a Home Assistant instance.
pub struct HomeAssistantClient {
    base_url: String,
    access_token: String,
}

impl HomeAssistantClient {
    pub closed spec fn base(&self) -> Seq<char> {
        self.base_url@
    }

    pub closed spec fn token(&self) -> Seq<char> {
        self.access_token@
    }

    /// Keeps `base_url` without its trailing slashes.
    pub fn new(base_url: String, access_token: String) -> (r: HomeAssistantClient)
        ensures
            r.base() == strip_trailing_slashes(base_url@),
            r.token() == access_token@,
    {
        let s = chars_of(base_url.as_str());
        let mut k: usize = s.len();
        assert(s@.take(s.len() as int) =~= s@);
        while k > 0 && s[k - 1] == '/'
            invariant
                k <= s.len(),
                strip_trailing_slashes(s@) == strip_trailing_slashes(s@.take(k as int)),
            decreases k,
        {
            assert(s@.take(k as int).drop_last() =~= s@.take(k - 1));
            k = k - 1;
        }
        assert(!(s@.take(k as int).len() > 0 && s@.take(k as int).last() == '/'));
        let mut kept: Vec<char> = Vec::new();
        let mut i: usize = 0;
        while i < k
            invariant
                k <= s.len(),
                i <= k,
                kept@ =~= s@.take(i as int),
            decreases k - i,
        {
            kept.push(s[i]);
            i = i + 1;
        }
        HomeAssistantClient { base_url: string_of(&kept), access_token }
    }

    pub fn base_url(&self) -> (r: &str)
        ensures
            r@ == self.base(),
    {
        self.base_url.as_str()
    }

    pub fn access_token(&self) -> (r: &str)
        ensures
            r@ == self.token(),
    {
        self.access_token.as_str()
    }

    /// The endpoint that lists every entity state.
    pub fn states_url(&self) -> (r: String)
        ensures
            r@ == self.base() + "/api/states"@,
    {
        let mut cs = chars_of(self.base_url.as_str());
        append(&mut cs, &chars_of("/api/states"));
        string_of(&cs)
    }

    /// The endpoint of one entity's state.
    pub fn state_url(&self, entity_id: &str) -> (r: String)
        ensures
            r@ == self.base() + "/api/states/"@ + entity_id@,
    {
        let mut cs = chars_of(self.base_url.as_str());
        append(&mut cs, &chars_of("/api/states/"));
        append(&mut cs, &chars_of(entity_id));
        string_of(&cs)
    }

    /// The value of the `Authorization` header.
    pub fn authorization(&self) -> (r: String)
        ensures
            r@ == "Bearer "@ + self.token(),
    {
        let mut cs = chars_of("Bearer ");
        append(&mut cs, &chars_of(self.access_token.as_str()));
        string_of(&cs)
    }
}

} // verus!
