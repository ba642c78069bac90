//! The two messages that the pipeline hands to the publisher.

use vstd::prelude::*;

verus! {

/// The delivery guarantee asked of the publisher.
#[derive(Clone, Copy, Debug, PartialEq, Eq, Structural)]
pub enum Qos {
    AtMostOnce,
    AtLeastOnce,
    ExactlyOnce,
}

/// What an event notification carries, as configured.
#[derive(Debug, PartialEq)]
pub enum EventPayload {
    /// Every event carries this fixed text.
    Marker(String),
    /// Every event carries the amplitude of the sample that triggered it.
    Amplitude,
}

/// The payload of one event notification.
#[derive(Debug, PartialEq)]
pub enum Payload<T> {
    /// A fixed text.
    Marker(String),
    /// The triggering amplitude, for the caller to render.
    Amplitude(T),
}

/// "A loud event was observed now."
#[derive(Debug, PartialEq)]
pub struct EventNotification<T> {
    pub topic: String,
    pub payload: Payload<T>,
    pub qos: Qos,
    pub retain: bool,
}

/// "No loud event was observed in the last watchdog window."
#[derive(Debug, PartialEq)]
pub struct AbsenceNotification {
    pub topic: String,
    pub payload: String,
    pub qos: Qos,
    pub retain: bool,
}

pub enum EventPayloadView {
    Marker(Seq<char>),
    Amplitude,
}

pub enum PayloadView<T> {
    Marker(Seq<char>),
    Amplitude(T),
}

pub struct EventNotificationView<T> {
    pub topic: Seq<char>,
    pub payload: PayloadView<T>,
    pub qos: Qos,
    pub retain: bool,
}

pub struct AbsenceNotificationView {
    pub topic: Seq<char>,
    pub payload: Seq<char>,
    pub qos: Qos,
    pub retain: bool,
}

impl View for EventPayload {
    type V = EventPayloadView;

    open spec fn view(&self) -> EventPayloadView {
        match self {
            EventPayload::Marker(text) => EventPayloadView::Marker(text@),
            EventPayload::Amplitude => EventPayloadView::Amplitude,
        }
    }
}

impl<T> View for Payload<T> {
    type V = PayloadView<T>;

    open spec fn view(&self) -> PayloadView<T> {
        match self {
            Payload::Marker(text) => PayloadView::Marker(text@),
            Payload::Amplitude(amplitude) => PayloadView::Amplitude(*amplitude),
        }
    }
}

impl<T> View for EventNotification<T> {
    type V = EventNotificationView<T>;

    open spec fn view(&self) -> EventNotificationView<T> {
        EventNotificationView {
            topic: self.topic@,
            payload: self.payload@,
            qos: self.qos,
            retain: self.retain,
        }
    }
}

impl View for AbsenceNotification {
    type V = AbsenceNotificationView;

    open spec fn view(&self) -> AbsenceNotificationView {
        AbsenceNotificationView {
            topic: self.topic@,
            payload: self.payload@,
            qos: self.qos,
            retain: self.retain,
        }
    }
}

/// The event notification for `sample` under the given configuration:
/// delivered at least once, not retained.
pub open spec fn event_notification<T>(
    topic: Seq<char>,
    payload: EventPayloadView,
    sample: T,
) -> EventNotificationView<T> {
    EventNotificationView {
        topic,
        payload: match payload {
            EventPayloadView::Marker(text) => PayloadView::Marker(text),
            EventPayloadView::Amplitude => PayloadView::Amplitude(sample),
        },
        qos: Qos::AtLeastOnce,
        retain: false,
    }
}

/// The absence notification under the given configuration: delivered at
/// least once, not retained.
pub open spec fn absence_notification(topic: Seq<char>, marker: Seq<char>)
    -> AbsenceNotificationView {
    AbsenceNotificationView { topic, payload: marker, qos: Qos::AtLeastOnce, retain: false }
}

impl<T> EventNotification<T> {
    /// Builds the notification for one accepted sample.
    pub fn new(topic: &String, payload: &EventPayload, sample: T) -> (notification: Self)
        ensures
            notification@ == event_notification(topic@, payload@, sample),
    {
        let carried: Payload<T> = match payload {
            EventPayload::Marker(text) => Payload::Marker(text.clone()),
            EventPayload::Amplitude => Payload::Amplitude(sample),
        };
        EventNotification {
            topic: topic.clone(),
            payload: carried,
            qos: Qos::AtLeastOnce,
            retain: false,
        }
    }
}

impl AbsenceNotification {
    /// Builds the notification for one silent window.
    pub fn new(topic: &String, marker: &String) -> (notification: Self)
        ensures
            notification@ == absence_notification(topic@, marker@),
    {
        AbsenceNotification {
            topic: topic.clone(),
            payload: marker.clone(),
            qos: Qos::AtLeastOnce,
            retain: false,
        }
    }
}

} // verus!
