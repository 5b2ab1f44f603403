//! Text injection into the currently focused application.

pub mod windows;
pub mod x11;

use crate::text::{owned, push_str};
use vstd::prelude::*;

verus! {

#[derive(Debug, PartialEq, Eq)]
pub enum InputError {
    Unsupported(String),
    Failed(String),
}

impl Clone for InputError {
    fn clone(&self) -> (r: Self)
        ensures
            r == *self,
    {
        match self {
            InputError::Unsupported(s) => InputError::Unsupported(s.clone()),
            InputError::Failed(s) => InputError::Failed(s.clone()),
        }
    }
}

/// The text shown for an [`InputError`].
pub open spec fn input_error_text(e: InputError) -> Seq<char> {
    match e {
        InputError::Unsupported(s) => "text injection is not supported on this display server: "@
            + s@,
        InputError::Failed(s) => "text injection failed: "@ + s@,
    }
}

impl InputError {
    /// The human-readable message of this error.
    pub fn message(&self) -> (r: String)
        ensures
            r@ == input_error_text(*self),
    {
        match self {
            InputError::Unsupported(s) => {
                let mut r = owned("text injection is not supported on this display server: ");
                push_str(&mut r, s.as_str());
                r
            },
            InputError::Failed(s) => {
                let mut r = owned("text injection failed: ");
                push_str(&mut r, s.as_str());
                r
            },
        }
    }
}

/// The result when the text could only be left in the clipboard: the
/// clipboard's own failure, or `Unsupported` with the reason.
pub fn copied_instead(copied: Result<(), InputError>, reason: &str) -> (r: Result<(), InputError>)
    ensures
        match copied {
            Err(e) => r == Err::<(), InputError>(e),
            Ok(_) => (r matches Err(InputError::Unsupported(m)) && m@ == reason@),
        },
{
    match copied {
        Err(e) => Err(e),
        Ok(()) => Err(InputError::Unsupported(owned(reason))),
    }
}

/// Why a Wayland session without typing helpers cannot type.
pub const WAYLAND_WITHOUT_HELPERS: &'static str =
    "Wayland without wtype/ydotool: text copied to clipboard, press Ctrl+V";

/// Why a platform without a native adapter cannot type.
pub const NO_NATIVE_INJECTION: &'static str =
    "no native text injection on this platform; text copied to clipboard";

/// Where inserting text on Wayland stands. Compositors forbid synthetic
/// input from ordinary clients, so the text goes through `wtype`, else
/// `ydotool`, else it is left in the clipboard.
#[derive(Debug, PartialEq, Eq)]
pub enum WaylandStep {
    RunWtype,
    RunYdotool,
    CopyToClipboard,
    Finished(Result<(), InputError>),
}

/// The step after the current one answered. For the two helpers the answer
/// is `None` when the helper is not installed; for the clipboard it is the
/// result of copying. A `wtype` failure falls through to `ydotool`; whatever
/// `ydotool` answers is final.
pub fn wayland_step(step: WaylandStep, answer: Option<Result<(), InputError>>) -> (r: WaylandStep)
    requires
        !(step is Finished),
    ensures
        step is RunWtype ==> (if answer matches Some(Ok(_)) {
            r == WaylandStep::Finished(Ok(()))
        } else {
            r == WaylandStep::RunYdotool
        }),
        step is RunYdotool ==> match answer {
            Some(res) => r == WaylandStep::Finished(res),
            None => r == WaylandStep::CopyToClipboard,
        },
        step is CopyToClipboard ==> (r matches WaylandStep::Finished(res) && match answer {
            Some(Err(e)) => res == Err::<(), InputError>(e),
            _ => (res matches Err(InputError::Unsupported(m)) && m@ == WAYLAND_WITHOUT_HELPERS@),
        }),
{
    match step {
        WaylandStep::RunWtype => match answer {
            Some(Ok(())) => WaylandStep::Finished(Ok(())),
            _ => WaylandStep::RunYdotool,
        },
        WaylandStep::RunYdotool => match answer {
            Some(res) => WaylandStep::Finished(res),
            None => WaylandStep::CopyToClipboard,
        },
        _ => {
            let copied = match answer {
                Some(Err(e)) => Err(e),
                _ => Ok(()),
            };
            WaylandStep::Finished(copied_instead(copied, WAYLAND_WITHOUT_HELPERS))
        },
    }
}

/// Types text at the current cursor position of whatever app has focus.
pub trait TextInjector {
    /// What typing `text` may do: turn the injector `self` into `after` and
    /// answer `answer`.
    spec fn inserts(&self, text: Seq<char>, after: &Self, answer: Result<(), InputError>) -> bool;

    fn insert(&mut self, text: &str) -> (r: Result<(), InputError>)
        ensures
            old(self).inserts(text@, final(self), r),
    ;
}

/// Sends the paste chord (Ctrl+V) to the focused window.
pub trait PasteKeySender {
    fn send_paste(&self) -> Result<(), InputError>;
}

} // verus!
