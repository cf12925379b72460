//! The browser window as a hook sees it: what was read from it, what the
//! hook shows for that, and the listeners that keep the hook up to date.
//!
//! Nothing here touches the browser. Each function decides on plain values;
//! whoever runs the hook reads the window, hands in what was found, and does
//! what comes back.

use vstd::prelude::*;

mod cursor_screen_x;
mod device;
mod element_h;
mod element_w;
mod inner_h;

pub use cursor_screen_x::use_cursor_screen_x;
pub use device::{use_device, Device};
pub use element_h::use_element_h;
pub use element_w::use_element_w;
pub use inner_h::{use_inner_h, InnerReading};

verus! {

/// What was in the way of a hook. `V` is what the window hands over with a
/// failure; it is carried as it came.
#[derive(Debug, Clone, PartialEq)]
pub enum Error<V> {
    PropertyAccessFailure(V),
    EventListenerAttachmentFailure(V),
    MissingWindow,
    MissingDocument,
    MissingDocumentElement,
    UnsupportedConvertionToF64,
}

/// What looking for an element and measuring it found.
pub enum ElementReading<T> {
    /// There is no window.
    NoWindow,
    /// The window has no document.
    NoDocument,
    /// The document has no element of the name asked for.
    NoElement,
    /// The element's measure.
    Measured(T),
}

/// What a hook on an element shows for a reading: an error where the window
/// or its document is missing, nothing where the element is, and else the
/// measure.
pub open spec fn element_value<T, V>(reading: ElementReading<T>) -> Option<Result<T, Error<V>>> {
    match reading {
        ElementReading::NoWindow => Some(Err(Error::MissingWindow)),
        ElementReading::NoDocument => Some(Err(Error::MissingDocument)),
        ElementReading::NoElement => None,
        ElementReading::Measured(m) => Some(Ok(m)),
    }
}

/// The events of the pointer that the cursor hooks listen to, in the order in
/// which their listeners are attached.
pub fn mouse_events() -> (events: Vec<&'static str>)
    ensures
        events@ == seq!["mousemove", "mousedown", "mouseup", "click", "dblclick", "contextmenu"],
{
    let events = vec!["mousemove", "mousedown", "mouseup", "click", "dblclick", "contextmenu"];
    assert(events@ =~= seq![
        "mousemove",
        "mousedown",
        "mouseup",
        "click",
        "dblclick",
        "contextmenu",
    ]);
    events
}

/// The event of the window that the hooks on its size listen to.
pub fn resize_events() -> (events: Vec<&'static str>)
    ensures
        events@ == seq!["resize"],
{
    let events = vec!["resize"];
    assert(events@ =~= seq!["resize"]);
    events
}

/// The state of a hook that watches the window: the value it shows, and the
/// token of the listener that keeps the value up to date. Whoever holds a
/// token that a step hands back disposes of it.
pub struct Watch<T, K, V> {
    pub value: Option<Result<T, Error<V>>>,
    pub token: Option<K>,
}

impl<T, K, V> Watch<T, K, V> {
    /// A hook that has read nothing yet and listens to nothing.
    pub fn new() -> (w: Self)
        ensures
            w.value is None,
            w.token is None,
    {
        Watch { value: None, token: None }
    }

    /// A reading came in: the hook shows it. The listener stays.
    pub fn show(&mut self, value: Option<Result<T, Error<V>>>)
        ensures
            final(self).value == value,
            final(self).token == old(self).token,
    {
        self.value = value;
    }

    /// The attempt to attach a listener ended. With a token, the hook holds
    /// it from now on, shows what it showed, and hands back the token it held
    /// before; with an error, it shows the error and holds what it held.
    pub fn attached(&mut self, outcome: Result<K, Error<V>>) -> (replaced: Option<K>)
        ensures
            match outcome {
                Ok(token) => {
                    &&& final(self).token == Some(token)
                    &&& final(self).value == old(self).value
                    &&& replaced == old(self).token
                },
                Err(e) => {
                    &&& final(self).token == old(self).token
                    &&& final(self).value == Some(Err::<T, Error<V>>(e))
                    &&& replaced is None
                },
            },
    {
        match outcome {
            Ok(token) => {
                let mut held = Some(token);
                core::mem::swap(&mut self.token, &mut held);
                held
            },
            Err(e) => {
                self.value = Some(Err(e));
                None
            },
        }
    }

    /// The hook's owner is gone: the hook hands back the token it held and
    /// holds none.
    pub fn dropped(&mut self) -> (released: Option<K>)
        ensures
            released == old(self).token,
            final(self).token is None,
            final(self).value == old(self).value,
    {
        let mut held = None;
        core::mem::swap(&mut self.token, &mut held);
        held
    }
}

/// What a cleanup token does when one of its owners lets go of it.
#[derive(Debug, Clone, Copy, PartialEq, Eq, Structural)]
pub enum Disposal {
    /// The token is empty, or other owners remain: nothing is done.
    Keep,
    /// The last owner lets go while the cleanup is in use: the cleanup is
    /// skipped, and the fault is to be reported.
    Skip,
    /// The last owner lets go: the cleanup runs.
    Run,
}

/// The decision for a token that `owners` owners hold, the one that lets go
/// counted; an empty token has none.
pub open spec fn disposal_of(owners: nat, in_use: bool) -> Disposal {
    if owners != 1 {
        Disposal::Keep
    } else if in_use {
        Disposal::Skip
    } else {
        Disposal::Run
    }
}

/// How often the cleanup runs while `owners` owners let go of a token one
/// after another, the cleanup never being in use.
pub open spec fn cleanups(owners: nat) -> nat
    decreases owners,
{
    if owners == 0 {
        0
    } else if disposal_of(owners, false) == Disposal::Run {
        1 + cleanups((owners - 1) as nat)
    } else {
        cleanups((owners - 1) as nat)
    }
}

/// However many owners a token has, the cleanup runs once, and it runs when
/// the last of them lets go.
pub proof fn cleanup_runs_once(owners: nat)
    requires
        owners >= 1,
    ensures
        cleanups(owners) == 1,
        forall|k: nat| disposal_of(k, false) == Disposal::Run <==> k == 1,
    decreases owners,
{
    if owners > 1 {
        cleanup_runs_once((owners - 1) as nat);
    } else {
        assert(cleanups(0) == 0);
    }
}

/// Decides what a token does when one of its owners lets go of it.
/// `owners` counts the owners, that one among them, and is zero for an empty
/// token; `in_use` says whether the cleanup is running already.
pub fn disposal(owners: usize, in_use: bool) -> (d: Disposal)
    ensures
        d == disposal_of(owners as nat, in_use),
{
    if owners != 1 {
        Disposal::Keep
    } else if in_use {
        Disposal::Skip
    } else {
        Disposal::Run
    }
}

/// The listeners that one handler has on the window, as a value: the events
/// to listen to, in the order in which the listeners are attached, and how
/// many of them, from the first on, the handler listens to already.
pub struct Listeners {
    pub events: Seq<&'static str>,
    pub attached: nat,
}

impl Listeners {
    /// No more listeners are counted than there are events.
    pub open spec fn wf(self) -> bool {
        self.attached <= self.events.len()
    }

    /// The event whose listener is attached next, if one is left.
    pub open spec fn pending(self) -> Option<&'static str> {
        if self.attached < self.events.len() {
            Some(self.events[self.attached as int])
        } else {
            None
        }
    }

    /// The events that the handler listens to.
    pub open spec fn heard(self) -> Seq<&'static str> {
        self.events.take(self.attached as int)
    }

    /// The listeners once the pending one is attached.
    pub open spec fn advance(self) -> Listeners {
        if self.attached < self.events.len() {
            Listeners { events: self.events, attached: self.attached + 1 }
        } else {
            self
        }
    }

    /// The listeners after `n` more have been attached.
    pub open spec fn advance_by(self, n: nat) -> Listeners
        decreases n,
    {
        if n == 0 {
            self
        } else {
            self.advance().advance_by((n - 1) as nat)
        }
    }

    /// The listeners once all of them are detached: there is nothing left to
    /// listen to.
    pub open spec fn release(self) -> Listeners {
        Listeners { events: Seq::empty(), attached: 0 }
    }

    /// Attaching one listener for each event that is left makes the handler
    /// listen to every event, in the order given, with none pending.
    pub proof fn attaching_completes(self)
        requires
            self.wf(),
        ensures
            self.advance_by((self.events.len() - self.attached) as nat).heard() == self.events,
            self.advance_by((self.events.len() - self.attached) as nat).pending() is None,
            self.advance_by((self.events.len() - self.attached) as nat).wf(),
        decreases self.events.len() - self.attached,
    {
        if self.attached < self.events.len() {
            self.advance().attaching_completes();
        } else {
            assert(self.events.take(self.attached as int) =~= self.events);
        }
    }

    /// Once released, a handler listens to nothing, has nothing pending, and
    /// a second release changes nothing: the listeners are detached once.
    pub proof fn released_once(self)
        ensures
            self.release().heard() == Seq::<&'static str>::empty(),
            self.release().pending() is None,
            self.release().release() == self.release(),
            self.release().wf(),
    {
        assert(self.release().heard() =~= Seq::<&'static str>::empty());
    }
}

/// The listeners that one handler has on the window.
pub struct Listening {
    events: Vec<&'static str>,
    attached: usize,
}

impl View for Listening {
    type V = Listeners;

    closed spec fn view(&self) -> Listeners {
        Listeners { events: self.events@, attached: self.attached as nat }
    }
}

impl Listening {
    #[verifier::type_invariant]
    spec fn counted(self) -> bool {
        self.attached <= self.events@.len()
    }

    /// The event whose listener is to be attached next; none when the
    /// handler listens to every event.
    pub fn pending(&self) -> (event: Option<&'static str>)
        ensures
            event == self@.pending(),
            self@.wf(),
    {
        proof {
            use_type_invariant(self);
        }
        if self.attached < self.events.len() {
            Some(self.events[self.attached])
        } else {
            None
        }
    }

    /// The attempt to attach the pending listener ended. If it failed, the
    /// failure is the error, and what was attached before stays attached; if
    /// not, the listener counts as attached.
    pub fn advance<V>(self, outcome: Result<(), V>) -> (next: Result<Listening, Error<V>>)
        ensures
            match outcome {
                Ok(_) => (next matches Ok(l) && l@ == self@.advance()),
                Err(e) => next == Err::<Listening, Error<V>>(Error::EventListenerAttachmentFailure(e)),
            },
    {
        match outcome {
            Ok(_) => {
                if self.attached < self.events.len() {
                    Ok(Listening { events: self.events, attached: self.attached + 1 })
                } else {
                    Ok(self)
                }
            },
            Err(e) => Err(Error::EventListenerAttachmentFailure(e)),
        }
    }

    /// Gives up the listeners: hands back the events whose listeners are to
    /// be detached, in the order in which they were attached, and keeps
    /// none.
    pub fn release(&mut self) -> (gone: Vec<&'static str>)
        ensures
            gone@ == old(self)@.heard(),
            final(self)@ == old(self)@.release(),
    {
        proof {
            use_type_invariant(&*self);
        }
        let heard: usize = self.attached;
        self.attached = 0;
        let mut gone: Vec<&'static str> = Vec::new();
        core::mem::swap(&mut self.events, &mut gone);
        gone.truncate(heard);
        gone
    }
}

/// Begins to listen to the window: with a window, none of the events has a
/// listener yet and the first is pending; without one, there is nothing to
/// listen to.
pub fn on<V>(events: Vec<&'static str>, window: bool) -> (begun: Result<Listening, Error<V>>)
    ensures
        window ==> (begun matches Ok(l) && l@ == (Listeners { events: events@, attached: 0 })),
        !window ==> begun == Err::<Listening, Error<V>>(Error::MissingWindow),
{
    if !window {
        return Err(Error::MissingWindow);
    }
    Ok(Listening { events, attached: 0 })
}

/// What a hook on an element shows when the attempt to follow the frames of
/// the display failed: the failure as an error of the listener's attachment.
pub fn frame_outcome<K, V>(outcome: Result<K, V>) -> (r: Result<K, Error<V>>)
    ensures
        r == match outcome {
            Ok(token) => Ok::<K, Error<V>>(token),
            Err(e) => Err(Error::EventListenerAttachmentFailure(e)),
        },
{
    match outcome {
        Ok(token) => Ok(token),
        Err(e) => Err(Error::EventListenerAttachmentFailure(e)),
    }
}

} // verus!
