//! The low-battery alert: what is shown, what is spoken, and the commands
//! that show and speak it.

use vstd::prelude::*;
use vstd::string::*;

verus! {

/// The title under which the alert is shown.
pub const NOTIFICATION_TITLE: &'static str = "batterybar";

/// The voice that speaks the alert.
pub const SPEECH_VOICE: &'static str = "Yuna";

/// What is shown and what is spoken when the battery runs low.
#[derive(Clone, Debug, PartialEq, Eq)]
pub struct Alert {
    pub message: String,
    pub spoken: String,
}

/// The message shown for a charge whose percentage reads `percent`.
pub open spec fn message_text(percent: Seq<char>) -> Seq<char> {
    "Battery at "@ + percent + "%"@
}

/// The sentence spoken for a charge whose percentage reads `percent`.
pub open spec fn spoken_text(percent: Seq<char>) -> Seq<char> {
    "\u{BC30}\u{D130}\u{B9AC}\u{AC00} "@ + percent + "% \u{C785}\u{B2C8}\u{B2E4}"@
}

/// The script that shows `message` as a notification.
pub open spec fn notification_script_text(message: Seq<char>) -> Seq<char> {
    "display notification \""@ + message + "\" with title \""@ + NOTIFICATION_TITLE@ + "\""@
}

/// The shell command that speaks `spoken` in `voice`.
pub open spec fn speech_command_text(spoken: Seq<char>, voice: Seq<char>) -> Seq<char> {
    "say \""@ + spoken + "\" -v \""@ + voice + "\" -r 160"@
}

/// The alert for a battery whose percentage reads `percent`.
pub fn low_battery_alert(percent: &str) -> (alert: Alert)
    ensures
        alert.message@ == message_text(percent@),
        alert.spoken@ == spoken_text(percent@),
{
    let mut message = String::from_str("Battery at ");
    message.append(percent);
    message.append("%");
    let mut spoken = String::from_str("\u{BC30}\u{D130}\u{B9AC}\u{AC00} ");
    spoken.append(percent);
    spoken.append("% \u{C785}\u{B2C8}\u{B2E4}");
    Alert { message, spoken }
}

/// The script that shows `message` as a notification.
pub fn notification_script(message: &str) -> (script: String)
    ensures
        script@ == notification_script_text(message@),
{
    let mut script = String::from_str("display notification \"");
    script.append(message);
    script.append("\" with title \"");
    script.append(NOTIFICATION_TITLE);
    script.append("\"");
    script
}

/// The shell command that speaks `spoken` in `voice`.
pub fn speech_command(spoken: &str, voice: &str) -> (command: String)
    ensures
        command@ == speech_command_text(spoken@, voice@),
{
    let mut command = String::from_str("say \"");
    command.append(spoken);
    command.append("\" -v \"");
    command.append(voice);
    command.append("\" -r 160");
    command
}

} // verus!
