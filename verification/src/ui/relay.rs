//! What the desktop client relays: which topics it listens to, and under
//! which event name each payload reaches the window.

use vstd::prelude::*;
use crate::ui::msg::DamagePanelRecognition;

verus! {

/// The fields of the robot state that are relayed, each on a topic of its
/// own.
#[derive(Clone, Copy, Debug, PartialEq, Eq, Structural)]
pub enum StateField {
    StateId,
    PitchDeg,
    MuzzleVelocity,
    ReloadedLeftDisks,
    ReloadedRightDisks,
    VideoId,
    TargetPanel,
    AutoAim,
    RecordVideo,
    ReadyToFire,
    Reserved,
}

/// The name of a field, as it ends the field's topic.
pub open spec fn field_name(field: StateField) -> Seq<char> {
    match field {
        StateField::StateId => "state_id"@,
        StateField::PitchDeg => "pitch_deg"@,
        StateField::MuzzleVelocity => "muzzle_velocity"@,
        StateField::ReloadedLeftDisks => "reloaded_left_disks"@,
        StateField::ReloadedRightDisks => "reloaded_right_disks"@,
        StateField::VideoId => "video_id"@,
        StateField::TargetPanel => "target_panel"@,
        StateField::AutoAim => "auto_aim"@,
        StateField::RecordVideo => "record_video"@,
        StateField::ReadyToFire => "ready_to_fire"@,
        StateField::Reserved => "reserved"@,
    }
}

/// The event under which a field reaches the window: its own name, except
/// that the state identifier is shown as the video identifier.
pub open spec fn event_name(field: StateField) -> Seq<char> {
    match field {
        StateField::StateId => "video_id"@,
        other => field_name(other),
    }
}

/// The topic on which a field arrives.
pub open spec fn state_key(field: StateField) -> Seq<char> {
    "robot/state/"@ + field_name(field)
}

/// The relayed fields, in the order in which they are subscribed to.
pub open spec fn relayed_fields() -> Seq<StateField> {
    seq![
        StateField::StateId,
        StateField::PitchDeg,
        StateField::MuzzleVelocity,
        StateField::ReloadedLeftDisks,
        StateField::ReloadedRightDisks,
        StateField::VideoId,
        StateField::TargetPanel,
        StateField::AutoAim,
        StateField::RecordVideo,
        StateField::ReadyToFire,
        StateField::Reserved,
    ]
}

impl StateField {
    /// The relayed fields, in the order in which they are subscribed to.
    pub fn all() -> (fields: Vec<StateField>)
        ensures
            fields@ == relayed_fields(),
    {
        let fields = vec![
            StateField::StateId,
            StateField::PitchDeg,
            StateField::MuzzleVelocity,
            StateField::ReloadedLeftDisks,
            StateField::ReloadedRightDisks,
            StateField::VideoId,
            StateField::TargetPanel,
            StateField::AutoAim,
            StateField::RecordVideo,
            StateField::ReadyToFire,
            StateField::Reserved,
        ];
        assert(fields@ =~= relayed_fields());
        fields
    }

    /// The name of this field.
    pub fn name(self) -> (name: &'static str)
        ensures
            name@ == field_name(self),
    {
        match self {
            StateField::StateId => "state_id",
            StateField::PitchDeg => "pitch_deg",
            StateField::MuzzleVelocity => "muzzle_velocity",
            StateField::ReloadedLeftDisks => "reloaded_left_disks",
            StateField::ReloadedRightDisks => "reloaded_right_disks",
            StateField::VideoId => "video_id",
            StateField::TargetPanel => "target_panel",
            StateField::AutoAim => "auto_aim",
            StateField::RecordVideo => "record_video",
            StateField::ReadyToFire => "ready_to_fire",
            StateField::Reserved => "reserved",
        }
    }

    /// The event under which this field reaches the window.
    pub fn event(self) -> (event: &'static str)
        ensures
            event@ == event_name(self),
    {
        match self {
            StateField::StateId => "video_id",
            other => other.name(),
        }
    }

    /// The topic on which this field arrives.
    pub fn key(self) -> (key: String)
        ensures
            key@ == state_key(self),
    {
        "robot/state/".to_string().concat(self.name())
    }
}

/// The topic on which recognised damage panels arrive.
pub fn damage_panel_key() -> (key: &'static str)
    ensures
        key@ == "damagepanel"@,
{
    "damagepanel"
}

/// The topic on which the client asks for the robot state.
pub fn state_request_key() -> (key: &'static str)
    ensures
        key@ == "robot/state/request"@,
{
    "robot/state/request"
}

/// One value shown in the window.
pub struct PanelEvent {
    /// The event's name.
    pub name: &'static str,
    /// The value it carries.
    pub value: i32,
}

/// The events that one recognised damage panel gives rise to, in the order
/// in which they are shown.
pub fn damage_panel_events(message: &DamagePanelRecognition) -> (events: Vec<PanelEvent>)
    ensures
        events@.len() == 3,
        events@[0].name@ == "target_x"@ && events@[0].value == message.target_x,
        events@[1].name@ == "target_y"@ && events@[1].value == message.target_y,
        events@[2].name@ == "target_distance"@ && events@[2].value == message.target_distance,
{
    vec![
        PanelEvent { name: "target_x", value: message.target_x },
        PanelEvent { name: "target_y", value: message.target_y },
        PanelEvent { name: "target_distance", value: message.target_distance },
    ]
}

} // verus!
