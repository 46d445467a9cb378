//! The per-frame protocol: which draw calls a frame issues and in what
//! order, when the surface must be reconfigured, how each surface error is
//! answered, how one platform event is dispatched, and the end-of-frame
//! reset. The GPU collaborator executes these decisions; it takes none of
//! its own.

use vstd::prelude::*;
use crate::event::WindowEvent;
use crate::input::{
    keys_consumes, keys_transition, mouse_consumes, mouse_transition, mouse_unset_transition,
    edge_unset, Keys, KeysView, Mouse,
};
use crate::layers::{LayerRange, Layers};
use crate::screen::{screen_transition, Screen};

verus! {

/// One indexed draw call: an index sub-range and an instance sub-range of
/// the uploaded stores.
#[derive(Copy, Clone, Eq, PartialEq, Debug)]
pub struct DrawCall {
    pub index_start: u32,
    pub index_end: u32,
    pub instance_start: u32,
    pub instance_end: u32,
}

/// The draw call that covers one chunk's live index and instance ranges.
pub open spec fn call_of(r: LayerRange) -> DrawCall {
    DrawCall {
        index_start: r.index_start,
        index_end: r.index_floating_end,
        instance_start: r.instance_start,
        instance_end: r.instance_floating_end,
    }
}

/// The frame's draw calls, one per layer, in physical storage order: the
/// layer declared last is drawn first and the layer declared first is drawn
/// last, so the first declared bound paints on top.
pub fn draw_list(layers: &Layers) -> (calls: Vec<DrawCall>)
    ensures
        calls@.len() == layers.layer_count(),
        forall|k: int| 0 <= k < layers.layer_count()
            ==> #[trigger] calls@[k] == call_of(layers.ranges_view()[k]),
        forall|j: int| 0 <= j < layers.layer_count()
            ==> #[trigger] calls@[layers.layer_count() - 1 - j] == call_of(
                layers.ranges_view()[layers.chunk_of(j)],
            ),
{
    let n = layers.len();
    let mut calls: Vec<DrawCall> = Vec::new();
    for k in 0..n
        invariant
            n == layers.layer_count(),
            calls@.len() == k,
            forall|p: int| 0 <= p < k
                ==> #[trigger] calls@[p] == call_of(layers.ranges_view()[p]),
    {
        let r = layers.range_at(k);
        calls.push(DrawCall {
            index_start: r.index_start,
            index_end: r.index_floating_end,
            instance_start: r.instance_start,
            instance_end: r.instance_floating_end,
        });
    }
    calls
}

/// Whether the surface must be reconfigured before presenting at the given
/// size: the size changed and neither dimension is zero.
pub fn needs_reconfigure(
    current_width: u32,
    current_height: u32,
    width: u32,
    height: u32,
) -> (r: bool)
    ensures
        r == ((width != current_width || height != current_height) && width != 0 && height != 0),
{
    (width != current_width || height != current_height) && width != 0 && height != 0
}

/// A per-frame surface error, as reported by the GPU collaborator.
#[derive(Copy, Clone, Eq, PartialEq, Debug)]
pub enum SurfaceIssue {
    /// The swap chain was lost and must be rebuilt.
    Lost,
    /// The surface no longer matches the window.
    Outdated,
    /// Presentation timed out.
    Timeout,
    /// The surface ran out of memory.
    OutOfMemory,
}

/// What a frame does about a surface error.
#[derive(Copy, Clone, Eq, PartialEq, Debug)]
pub enum IssueAction {
    /// Reconfigure the surface and skip this frame; recoverable.
    ReconfigureAndSkip,
    /// Log the error and skip this frame; recoverable.
    LogAndSkip,
    /// Terminate the frame loop.
    Fatal,
}

/// The answer to each surface error: a lost surface is reconfigured, an
/// out-of-memory surface is fatal, anything else is logged and the frame
/// skipped.
pub open spec fn spec_surface_issue_action(issue: SurfaceIssue) -> IssueAction {
    match issue {
        SurfaceIssue::Lost => IssueAction::ReconfigureAndSkip,
        SurfaceIssue::OutOfMemory => IssueAction::Fatal,
        SurfaceIssue::Outdated => IssueAction::LogAndSkip,
        SurfaceIssue::Timeout => IssueAction::LogAndSkip,
    }
}

pub fn surface_issue_action(issue: SurfaceIssue) -> (a: IssueAction)
    ensures
        a == spec_surface_issue_action(issue),
{
    match issue {
        SurfaceIssue::Lost => IssueAction::ReconfigureAndSkip,
        SurfaceIssue::OutOfMemory => IssueAction::Fatal,
        SurfaceIssue::Outdated => IssueAction::LogAndSkip,
        SurfaceIssue::Timeout => IssueAction::LogAndSkip,
    }
}

/// What the orchestrator does with one dispatched event.
#[derive(Copy, Clone, Eq, PartialEq, Debug)]
pub enum Dispatch {
    /// The window was resized; record the size and request a redraw.
    Resized { width: u32, height: u32 },
    /// Terminate the loop.
    Close,
    /// An input tracker consumed the event.
    Input,
    /// Nobody acted on the event.
    Ignored,
}

/// Dispatches one platform event: a resize goes to the screen, a close
/// request terminates, anything else is offered to the mouse tracker and,
/// if unconsumed, to the keyboard tracker.
pub fn dispatch_event(
    screen: &mut Screen,
    mouse: &mut Mouse,
    keys: &mut Keys,
    event: &WindowEvent,
) -> (d: Dispatch)
    requires
        old(mouse).wf(),
        old(keys).wf(),
    ensures
        final(mouse).wf(),
        final(keys).wf(),
        screen_transition(old(screen)@, final(screen)@, *event),
        match *event {
            WindowEvent::Resized { width, height } => {
                &&& final(mouse)@ == old(mouse)@
                &&& final(keys)@ == old(keys)@
                &&& d == (Dispatch::Resized { width, height })
            },
            WindowEvent::CloseRequested => {
                &&& final(mouse)@ == old(mouse)@
                &&& final(keys)@ == old(keys)@
                &&& d == Dispatch::Close
            },
            _ => {
                &&& mouse_transition(old(mouse)@, final(mouse)@, *event)
                &&& if mouse_consumes(*event) {
                    &&& final(keys)@ == old(keys)@
                    &&& d == Dispatch::Input
                } else {
                    &&& keys_transition(old(keys)@, final(keys)@, *event)
                    &&& d == if keys_consumes(*event) {
                        Dispatch::Input
                    } else {
                        Dispatch::Ignored
                    }
                }
            },
        },
{
    if let Some((width, height)) = screen.try_process(event) {
        return Dispatch::Resized { width, height };
    }
    if let WindowEvent::CloseRequested = *event {
        return Dispatch::Close;
    }
    if mouse.try_process(event) {
        Dispatch::Input
    } else if keys.try_process(event) {
        Dispatch::Input
    } else {
        Dispatch::Ignored
    }
}

/// The end-of-frame reset, applied after the synchronizer ran: both edge
/// trackers and the screen's resize flag are unset.
pub fn end_frame(mouse: &mut Mouse, keys: &mut Keys, screen: &mut Screen)
    requires
        old(mouse).wf(),
        old(keys).wf(),
    ensures
        final(mouse).wf(),
        final(keys).wf(),
        mouse_unset_transition(old(mouse)@, final(mouse)@),
        final(keys)@ == (KeysView { map: edge_unset(old(keys)@.map), ..old(keys)@ }),
        final(screen)@.has_resized == false,
        final(screen)@.width == old(screen)@.width,
        final(screen)@.height == old(screen)@.height,
        final(screen)@.clear_color == old(screen)@.clear_color,
{
    mouse.unset();
    keys.unset();
    screen.unset();
}

} // verus!
