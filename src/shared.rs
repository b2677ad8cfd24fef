//! The state that the tasks share: the last battery percentage, the inbound
//! message, and a one-slot notification that asks the display to render.
//!
//! Each task takes the lock around a section without a suspension point and
//! calls one of these methods inside it.
use crate::bridge::{Server, ServerEvent};
use crate::message::{truncated, Message};
use vstd::prelude::*;

verus! {

/// The shared state as values.
pub struct SharedView {
    pub battery: Option<u8>,
    pub inbound: Option<Seq<u8>>,
    pub render_pending: bool,
}

impl SharedView {
    /// After a message is delivered: it replaces any earlier one, and a
    /// render is asked for (one slot: asking twice is asking once).
    pub open spec fn after_deliver(self, m: Seq<u8>) -> SharedView {
        SharedView { inbound: Some(m), render_pending: true, ..self }
    }

    /// Taking the render request: whether one was pending, and the state
    /// with the slot empty.
    pub open spec fn after_take_render(self) -> (bool, SharedView) {
        (self.render_pending, SharedView { render_pending: false, ..self })
    }
}

pub struct SharedState {
    battery: Option<u8>,
    inbound: Option<Message>,
    render_pending: bool,
}

impl View for SharedState {
    type V = SharedView;

    closed spec fn view(&self) -> SharedView {
        SharedView {
            battery: self.battery,
            inbound: match self.inbound {
                Some(m) => Some(m@),
                None => None,
            },
            render_pending: self.render_pending,
        }
    }
}

impl SharedState {
    /// Every message held fits the text attribute.
    pub closed spec fn wf(&self) -> bool {
        match self.inbound {
            Some(m) => m.wf(),
            None => true,
        }
    }

    /// The state at boot: nothing known, nothing pending.
    pub fn new() -> (s: SharedState)
        ensures
            s.wf(),
            s@ == (SharedView { battery: None, inbound: None, render_pending: false }),
    {
        SharedState { battery: None, inbound: None, render_pending: false }
    }

    /// Store the battery percentage of the latest sample.
    pub fn publish_battery(&mut self, percent: u8)
        requires
            old(self).wf(),
        ensures
            final(self).wf(),
            final(self)@ == (SharedView { battery: Some(percent), ..old(self)@ }),
    {
        self.battery = Some(percent);
    }

    /// The last battery percentage, if any sample was taken.
    pub fn battery(&self) -> (r: Option<u8>)
        ensures
            r == self@.battery,
    {
        self.battery
    }

    /// Hand an inbound message to the display and ask it to render.
    pub fn deliver_message(&mut self, m: Message)
        requires
            old(self).wf(),
            m.wf(),
        ensures
            final(self).wf(),
            final(self)@ == old(self)@.after_deliver(m@),
    {
        self.inbound = Some(m);
        self.render_pending = true;
    }

    /// Take the render request: true when one was pending, and the slot is
    /// empty afterwards.
    pub fn take_render_request(&mut self) -> (r: bool)
        requires
            old(self).wf(),
        ensures
            final(self).wf(),
            (r, final(self)@) == old(self)@.after_take_render(),
    {
        let r = self.render_pending;
        self.render_pending = false;
        r
    }

    /// Read and clear the inbound message.
    pub fn take_message(&mut self) -> (r: Option<Message>)
        requires
            old(self).wf(),
        ensures
            final(self).wf(),
            r matches Some(m) ==> m.wf(),
            match r {
                Some(m) => old(self)@.inbound == Some(m@),
                None => old(self)@.inbound is None,
            },
            final(self)@ == (SharedView { inbound: None, ..old(self)@ }),
    {
        self.inbound.take()
    }
}

/// Handle one event of the attribute server: a write to the text attribute
/// updates the attribute, replaces the inbound message with the written text
/// (truncated to the attribute's size) and asks the display to render.
pub fn handle_server_event(server: &mut Server, shared: &mut SharedState, event: &ServerEvent)
    requires
        old(server).wf(),
        old(shared).wf(),
    ensures
        final(server).wf(),
        final(shared).wf(),
        final(server).battery == old(server).battery,
        match event {
            ServerEvent::TextWritten(data) => {
                &&& final(server).text.message@ == truncated(data@)
                &&& final(shared)@ == old(shared)@.after_deliver(truncated(data@))
            },
            ServerEvent::BatteryNotifications(_) => {
                &&& final(server).text.message@ == old(server).text.message@
                &&& final(shared)@ == old(shared)@
            },
        },
{
    match server.on_event(event) {
        Some(m) => shared.deliver_message(m),
        None => {},
    }
}

/// A text write that fits the attribute reaches the display as written, and
/// asks for exactly one render: the first take of the request finds it, a
/// second finds none.
pub proof fn lemma_text_write_renders_once(s: SharedView, data: Seq<u8>)
    requires
        data.len() <= 20,
    ensures
        s.after_deliver(truncated(data)).inbound == Some(data),
        s.after_deliver(truncated(data)).after_take_render().0,
        !s.after_deliver(truncated(data)).after_take_render().1.after_take_render().0,
        s.after_deliver(truncated(data)).after_take_render().1.inbound == Some(data),
{
}

} // verus!
