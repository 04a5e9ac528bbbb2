//! What the host controls: whether the sampler runs, and how often it samples.

use crate::text::reads;
use serde_json::Value;
use vstd::prelude::*;

verus! {

/// A JSON value, as the host sends its settings.
#[verifier::external_type_specification]
#[verifier::external_body]
pub struct ExValue(serde_json::Value);

/// The members of a JSON object that are strings, by name; none for any other value.
pub uninterp spec fn text_members(value: serde_json::Value) -> Map<Seq<char>, Seq<char>>;

/// `serde_json::Value::get` with a string index, followed by `serde_json::Value::as_str`:
/// the text of the member `name`, and nothing where the value is not an object, has no
/// such member, or has one that is not a string.
#[verifier::external_body]
fn text_member(value: &Value, name: &str) -> (text: Option<String>)
    ensures
        text is Some <==> text_members(*value).dom().contains(name@),
        text matches Some(found) ==> found@ == text_members(*value)[name@],
{
    value.get(name).and_then(Value::as_str).map(str::to_owned)
}

/// How often the sampler publishes a frame.
#[derive(Clone, Copy, Debug, PartialEq, Eq, Structural)]
pub enum RefreshRate {
    Fps30,
    Fps60,
}

impl RefreshRate {
    /// The pause between two frames, in milliseconds.
    pub open spec fn millis(self) -> u64 {
        match self {
            RefreshRate::Fps30 => 33,
            RefreshRate::Fps60 => 16,
        }
    }

    /// The pause between two frames, in milliseconds.
    pub fn interval_millis(self) -> (millis: u64)
        ensures
            millis == self.millis(),
    {
        match self {
            RefreshRate::Fps30 => 33,
            RefreshRate::Fps60 => 16,
        }
    }
}

/// The rate that a setting names.
pub open spec fn rate_named(setting: Option<Seq<char>>) -> Option<RefreshRate> {
    if setting == Some("30fps"@) {
        Some(RefreshRate::Fps30)
    } else if setting == Some("60fps"@) {
        Some(RefreshRate::Fps60)
    } else {
        None
    }
}

/// The text of the refresh rate setting, if there is one.
pub open spec fn rate_setting(settings: serde_json::Value) -> Option<Seq<char>> {
    if text_members(settings).dom().contains("refreshRate"@) {
        Some(text_members(settings)["refreshRate"@])
    } else {
        None
    }
}

/// The rate that settings ask for.
pub open spec fn rate_requested(settings: serde_json::Value) -> Option<RefreshRate> {
    rate_named(rate_setting(settings))
}

/// Reads the name of a rate.
pub fn rate_from_name(setting: Option<String>) -> (rate: Option<RefreshRate>)
    ensures
        rate == rate_named(
            match setting {
                Some(name) => Some(name@),
                None => None,
            },
        ),
{
    match setting {
        Some(name) => if reads(&name, "30fps") {
            Some(RefreshRate::Fps30)
        } else if reads(&name, "60fps") {
            Some(RefreshRate::Fps60)
        } else {
            None
        },
        None => None,
    }
}

/// Reads the rate that settings ask for.
pub fn rate_from_settings(settings: &Value) -> (rate: Option<RefreshRate>)
    ensures
        rate == rate_requested(*settings),
{
    rate_from_name(text_member(settings, "refreshRate"))
}

/// What the host and the sampler share.
#[derive(Clone, Copy, Debug, PartialEq, Eq, Structural)]
pub struct Control {
    pub running: bool,
    pub rate: RefreshRate,
}

impl Control {
    /// The state before the host has spoken: running, thirty frames a second.
    pub fn new() -> (control: Control)
        ensures
            control == (Control { running: true, rate: RefreshRate::Fps30 }),
    {
        Control { running: true, rate: RefreshRate::Fps30 }
    }

    /// Applies a rate.
    pub fn set_interval(&mut self, rate: RefreshRate)
        ensures
            *final(self) == (Control { rate, ..*old(self) }),
    {
        self.rate = rate;
    }

    /// Asks the sampler to end.
    pub fn stop(&mut self)
        ensures
            *final(self) == (Control { running: false, ..*old(self) }),
    {
        self.running = false;
    }
}

/// The rate is the one that the setting `refreshRate` names, whatever else is set: "60fps"
/// and "30fps" are known, any other text, and any setting that is not a text, is not.
pub proof fn law_settings_name_the_rate(settings: &Value, rate: Option<RefreshRate>)
    requires
        call_ensures(rate_from_settings, (settings,), rate),
    ensures
        rate == Some(RefreshRate::Fps60) <==> text_members(*settings).dom().contains(
            "refreshRate"@,
        ) && text_members(*settings)["refreshRate"@] == "60fps"@,
        rate == Some(RefreshRate::Fps30) <==> text_members(*settings).dom().contains(
            "refreshRate"@,
        ) && text_members(*settings)["refreshRate"@] == "30fps"@,
{
    lemma_rate_names_differ();
}

/// A rate is known by its name alone: exactly "60fps" and "30fps" name one.
pub proof fn law_names_of_rates(
    name: String,
    rate: Option<RefreshRate>,
    unnamed: Option<RefreshRate>,
)
    requires
        call_ensures(rate_from_name, (Some(name),), rate),
        call_ensures(rate_from_name, (None::<String>,), unnamed),
    ensures
        rate == Some(RefreshRate::Fps60) <==> name@ == "60fps"@,
        rate == Some(RefreshRate::Fps30) <==> name@ == "30fps"@,
        unnamed is None,
{
    lemma_rate_names_differ();
}

proof fn lemma_rate_names_differ()
    ensures
        "30fps"@ != "60fps"@,
{
    reveal_strlit("30fps");
    reveal_strlit("60fps");
    assert("30fps"@[0] != "60fps"@[0]);
}

/// The pause fits the rate: so many frames with their pauses fill a second, to within the
/// rounding of a pause to whole milliseconds.
pub proof fn law_pauses_fill_a_second(thirty: u64, sixty: u64)
    requires
        call_ensures(RefreshRate::interval_millis, (RefreshRate::Fps30,), thirty),
        call_ensures(RefreshRate::interval_millis, (RefreshRate::Fps60,), sixty),
    ensures
        30 * thirty <= 1000 < 30 * (thirty + 1),
        60 * sixty <= 1000 < 60 * (sixty + 1),
{
}

/// Before the host has spoken the sampler runs, with thirty frames a second.
pub proof fn law_control_starts_running(control: Control)
    requires
        call_ensures(Control::new, (), control),
    ensures
        control.running,
        control.rate is Fps30,
{
}

/// A rate is applied and nothing else changes; a stop ends the running and leaves the rate.
pub proof fn law_control_changes_one_thing(
    paced: &mut Control,
    stopped: &mut Control,
    rate: RefreshRate,
)
    requires
        call_ensures(Control::set_interval, (paced, rate), ()),
        call_ensures(Control::stop, (stopped,), ()),
    ensures
        final(paced).rate == rate,
        final(paced).running == old(paced).running,
        !final(stopped).running,
        final(stopped).rate == old(stopped).rate,
{
}

} // verus!
