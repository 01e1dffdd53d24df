use crate::error::ErrorCode;
use crate::event::Event;
use crate::identity::Identity;
use vstd::prelude::*;

verus! {

/// What the closing of an event touches.
#[derive(Clone, Debug, PartialEq, Eq)]
pub struct CloseEvent {
    /// The event to close.
    pub event: Event,
    /// The caller.
    pub authority: Identity,
}

/// The outcome of closing: the caller must be the event's authority.
pub open spec fn close_event_result(ctx: CloseEvent) -> Result<(), ErrorCode> {
    if ctx.authority != ctx.event.authority {
        Err(ErrorCode::Unauthorized)
    } else {
        Ok(())
    }
}

/// The event after closing: where the caller is its authority, it is no longer active and
/// otherwise as before; where not, nothing has changed.
pub open spec fn close_event_after(ctx: CloseEvent) -> CloseEvent {
    if close_event_result(ctx) is Ok {
        CloseEvent { event: Event { is_active: false, ..ctx.event }, ..ctx }
    } else {
        ctx
    }
}

/// Closes the event: no tickets are sold from now on. Closing a closed event succeeds and
/// changes nothing.
pub fn close_event(ctx: &mut CloseEvent) -> (result: Result<(), ErrorCode>)
    ensures
        result == close_event_result(*old(ctx)),
        *final(ctx) == close_event_after(*old(ctx)),
        final(ctx).event.follows(old(ctx).event),
{
    if ctx.authority != ctx.event.authority {
        return Err(ErrorCode::Unauthorized);
    }
    ctx.event.is_active = false;
    Ok(())
}

/// Closing asked for by anyone but the event's authority fails with `Unauthorized` and
/// changes nothing.
pub proof fn lemma_close_event_unauthorized(ctx: CloseEvent)
    requires
        ctx.authority != ctx.event.authority,
    ensures
        close_event_result(ctx) == Err::<(), ErrorCode>(ErrorCode::Unauthorized),
        close_event_after(ctx) == ctx,
{
}

/// Closing is idempotent: by its authority an event is closed without error, whether it was
/// active or not, and closing it once more succeeds again and changes nothing further.
pub proof fn lemma_close_event_idempotent(ctx: CloseEvent)
    requires
        ctx.authority == ctx.event.authority,
    ensures
        close_event_result(ctx) is Ok,
        !close_event_after(ctx).event.is_active,
        close_event_result(close_event_after(ctx)) is Ok,
        close_event_after(close_event_after(ctx)) == close_event_after(ctx),
{
}

} // verus!
