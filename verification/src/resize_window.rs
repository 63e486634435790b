//! Window resize command: parameter and result types, and the verified
//! construction of the structured outcome.
//!
//! A resize that cannot be carried out (a fixed-size window, a toolkit
//! refusal) is an expected condition the caller must branch on, so it is
//! reported as a result object with `success == false` and an error text,
//! never as a hard failure.  The toolkit calls themselves (resolving the
//! window, querying resizability, setting the size) are outside work; the
//! surrounding application performs them and hands their outcome in.
use vstd::prelude::*;
use vstd::string::*;

verus! {

/// Parameters for resizing a window.
#[derive(Debug)]
pub struct ResizeWindowParams {
    /// Width in pixels
    pub width: u32,
    /// Height in pixels
    pub height: u32,
    /// Optional window label (defaults to "main")
    pub window_id: Option<String>,
    /// Whether to use logical (true) or physical (false) pixels.
    pub logical: bool,
}

/// Default for the `logical` flag of a resize request: logical (scale-aware)
/// pixels are used unless the caller opts out.
pub fn default_logical() -> (b: bool)
    ensures
        b,
{
    true
}

/// Result of a window resize operation.
#[derive(Debug)]
pub struct ResizeWindowResult {
    /// Whether the resize was successful
    pub success: bool,
    /// The window that was resized
    pub window_label: String,
    /// The new width
    pub width: u32,
    /// The new height
    pub height: u32,
    /// Whether logical pixels were used
    pub logical: bool,
    /// Error message if resize failed
    pub error: Option<String>,
}

/// What the attempt to resize the window came to, as the windowing toolkit
/// reported it.
#[derive(Debug)]
pub enum SetSizeOutcome {
    /// The window does not allow resizing at all.
    NotResizable,
    /// The new size was applied.
    Applied,
    /// The toolkit rejected the resize, with its reason.
    Rejected(String),
}

/// The label the resize result reports: the requested window id, or "main"
/// when none was given.
pub open spec fn spec_window_label(window_id: Option<String>) -> Seq<char> {
    match window_id {
        Some(s) => s@,
        None => "main"@,
    }
}

/// The label of the window a request speaks of: its `window_id`, defaulting
/// to the main window.
pub fn window_label_of(params: &ResizeWindowParams) -> (label: String)
    ensures
        label@ == spec_window_label(params.window_id),
{
    match &params.window_id {
        Some(s) => s.clone(),
        None => String::from_str("main"),
    }
}

/// Builds the structured result of a resize command from the request and the
/// toolkit's outcome.  The result always carries the requested dimensions
/// and unit; it reports success exactly when the size was applied, and
/// otherwise a non-empty error text.
pub fn resize_window(params: &ResizeWindowParams, outcome: SetSizeOutcome) -> (r:
    ResizeWindowResult)
    ensures
        r.width == params.width,
        r.height == params.height,
        r.logical == params.logical,
        r.window_label@ == spec_window_label(params.window_id),
        r.success <==> outcome is Applied,
        outcome is Applied ==> r.error is None,
        outcome is NotResizable ==> (r.error matches Some(e) && e@ == "Window is not resizable"@),
        outcome matches SetSizeOutcome::Rejected(m) ==> (r.error matches Some(e) && e@
            == "Failed to resize window: "@ + m@),
        !r.success ==> (r.error matches Some(e) && e@.len() > 0),
{
    let window_label = window_label_of(params);
    let (success, error): (bool, Option<String>) = match outcome {
        SetSizeOutcome::Applied => (true, None),
        SetSizeOutcome::NotResizable => {
            proof {
                reveal_strlit("Window is not resizable");
            }
            (false, Some(String::from_str("Window is not resizable")))
        },
        SetSizeOutcome::Rejected(m) => {
            proof {
                reveal_strlit("Failed to resize window: ");
            }
            let mut msg = String::from_str("Failed to resize window: ");
            msg.append(m.as_str());
            (false, Some(msg))
        },
    };
    ResizeWindowResult {
        success,
        window_label,
        width: params.width,
        height: params.height,
        logical: params.logical,
        error,
    }
}

} // verus!
