//! The server status shown in the tray menu, and its text form.

use vstd::prelude::*;

verus! {

/// The lifecycle state of the supervised server process.
///
/// `Failed` carries a short human-readable reason, such as the exit
/// code of the process.
pub enum ServerStatus {
    Starting,
    Running,
    Stopped,
    Failed(String),
    DevManaged,
}

/// The text that `status_text` returns for a given status.
pub open spec fn status_text_spec(status: ServerStatus) -> Seq<char> {
    match status {
        ServerStatus::Starting => "Starting..."@,
        ServerStatus::Running => "Running"@,
        ServerStatus::Stopped => "Stopped"@,
        ServerStatus::Failed(reason) => "Failed ("@ + reason@ + ")"@,
        ServerStatus::DevManaged => "Managed by pnpm dev"@,
    }
}

/// The human-readable form of a server status, as shown in logs and
/// (prefixed with `"Server: "`) in the tray menu.
pub fn status_text(status: &ServerStatus) -> (r: String)
    ensures
        r@ == status_text_spec(*status),
{
    match status {
        ServerStatus::Starting => String::from_str("Starting..."),
        ServerStatus::Running => String::from_str("Running"),
        ServerStatus::Stopped => String::from_str("Stopped"),
        ServerStatus::Failed(reason) => {
            let mut text = String::from_str("Failed (");
            text.append(reason.as_str());
            text.append(")");
            text
        },
        ServerStatus::DevManaged => String::from_str("Managed by pnpm dev"),
    }
}

/// The text that `menu_label` returns for a given status.
pub open spec fn menu_label_spec(status: ServerStatus) -> Seq<char> {
    "Server: "@ + status_text_spec(status)
}

/// The tray-menu label for a status: `"Server: "` followed by the
/// status text.
pub fn menu_label(status: &ServerStatus) -> (r: String)
    ensures
        r@ == menu_label_spec(*status),
{
    let mut label = String::from_str("Server: ");
    let text = status_text(status);
    label.append(text.as_str());
    label
}

} // verus!
