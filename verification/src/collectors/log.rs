//! The log collector: log notifications in, `Log` events out.

use crate::bindings::default_filter;
use crate::types::{event_views, Event, EventView, LogEvent};
use alloy_rpc_types::eth::Filter;
use vstd::prelude::*;

verus! {

/// One item of a log subscription.
pub enum LogNotification {
    /// A log that matched the filter. None of its fields is read yet.
    Log,
    /// The transport failed to deliver an item.
    TransportError,
}

/// The event that one notification gives rise to, if any: a log becomes a
/// `Log` event, a transport error is dropped.
pub open spec fn log_event(notification: LogNotification) -> Option<EventView> {
    match notification {
        LogNotification::Log => Some(EventView::Log),
        LogNotification::TransportError => None,
    }
}

/// The events that a run of notifications gives rise to, in order of arrival.
pub open spec fn log_events(notifications: Seq<LogNotification>) -> Seq<EventView>
    decreases notifications.len(),
{
    if notifications.len() == 0 {
        Seq::empty()
    } else {
        let earlier = log_events(notifications.drop_last());
        match log_event(notifications.last()) {
            Some(event) => earlier.push(event),
            None => earlier,
        }
    }
}

/// The events of two runs of notifications, one after the other, are the
/// events of the first followed by the events of the second.
pub proof fn lemma_log_events_concat(first: Seq<LogNotification>, second: Seq<LogNotification>)
    ensures
        log_events(first + second) == log_events(first) + log_events(second),
    decreases second.len(),
{
    if second.len() == 0 {
        assert(first + second =~= first);
        assert(log_events(first) + log_events(second) =~= log_events(first));
    } else {
        let whole = first + second;
        assert(whole.drop_last() =~= first + second.drop_last());
        assert(whole.last() == second.last());
        lemma_log_events_concat(first, second.drop_last());
        match log_event(second.last()) {
            Some(event) => {
                assert((log_events(first) + log_events(second.drop_last())).push(event)
                    =~= log_events(first) + log_events(second.drop_last()).push(event));
            },
            None => {},
        }
    }
}

/// Logs map to events one to one: a run of notifications that holds no
/// transport error gives rise to exactly as many events as it has logs.
pub proof fn lemma_logs_map_one_to_one(notifications: Seq<LogNotification>)
    requires
        forall|i: int| 0 <= i < notifications.len() ==> notifications[i] is Log,
    ensures
        log_events(notifications).len() == notifications.len(),
        forall|i: int|
            0 <= i < notifications.len() ==> #[trigger] log_events(notifications)[i]
                == EventView::Log,
    decreases notifications.len(),
{
    if notifications.len() > 0 {
        lemma_logs_map_one_to_one(notifications.drop_last());
    }
}

/// A transport error leaves the events of the notifications around it as
/// they are.
pub proof fn lemma_log_error_is_skipped(before: Seq<LogNotification>, after: Seq<LogNotification>)
    ensures
        log_events(before.push(LogNotification::TransportError) + after) == log_events(before)
            + log_events(after),
{
    lemma_log_events_concat(before.push(LogNotification::TransportError), after);
    assert(before.push(LogNotification::TransportError).drop_last() =~= before);
}

/// Turns log notifications that match a filter into `Log` events.
pub struct LogCollector<P> {
    provider: P,
    filter: Filter,
}

impl<P> LogCollector<P> {
    /// The node connection that the collector was made with.
    pub closed spec fn spec_provider(&self) -> P {
        self.provider
    }

    /// The filter that the subscription is opened with.
    pub closed spec fn spec_filter(&self) -> Filter {
        self.filter
    }

    /// A collector on `provider` for the logs that match `filter`. Without
    /// a filter the collector takes the default one, which matches every log.
    pub fn new(provider: P, filter: Option<Filter>) -> (collector: Self)
        ensures
            collector.spec_provider() == provider,
            filter matches Some(given) ==> collector.spec_filter() == given,
    {
        let filter = match filter {
            Some(given) => given,
            None => default_filter(),
        };
        LogCollector { provider, filter }
    }

    /// The node connection, for opening the subscription.
    pub fn provider(&self) -> (provider: &P)
        ensures
            *provider == self.spec_provider(),
    {
        &self.provider
    }

    /// The filter that the subscription is opened with.
    pub fn filter(&self) -> (filter: &Filter)
        ensures
            *filter == self.spec_filter(),
    {
        &self.filter
    }

    /// Handles one notification: the event to emit, or `None` where the
    /// notification is dropped.
    pub fn on_notification(&self, notification: LogNotification) -> (emitted: Option<Event>)
        ensures
            match emitted {
                Some(event) => log_event(notification) == Some(event@),
                None => log_event(notification) is None,
            },
    {
        match notification {
            LogNotification::Log => Some(Event::Log(LogEvent {  })),
            LogNotification::TransportError => None,
        }
    }

    /// Handles a run of notifications one after the other: the events they
    /// give rise to, in order of arrival.
    pub fn on_notifications(&self, notifications: Vec<LogNotification>) -> (events: Vec<Event>)
        ensures
            event_views(events@) == log_events(notifications@),
    {
        let mut events: Vec<Event> = Vec::new();
        for notification in it: notifications
            invariant
                it.seq() == notifications@,
                event_views(events@) == log_events(notifications@.take(it.index() as int)),
        {
            let ghost before = events@;
            proof {
                let upto = notifications@.take(it.index() + 1);
                assert(upto.drop_last() =~= notifications@.take(it.index() as int));
                assert(upto.last() == notification);
            }
            match self.on_notification(notification) {
                Some(event) => {
                    events.push(event);
                    assert(event_views(events@) =~= event_views(before).push(event@));
                },
                None => {},
            }
        }
        assert(notifications@.take(notifications@.len() as int) =~= notifications@);
        events
    }
}

} // verus!
