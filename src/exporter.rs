//! The exporter: the listener gate, the encoding of one record, batches,
//! resource binding and shutdown.
use vstd::prelude::*;
use crate::event_name::{record_name, EventNamePolicy};
use crate::provider::{
    is_valid_provider_name, level_of, severity_level, tracepoint_name, tracepoint_name_of,
};
use crate::record::{
    duplicate_attributes, duplicate_optional_value, lemma_selection_exact, key_listed,
    select_attributes, selected_attributes, Attribute, AttributeValue, LogRecordView,
};

verus! {

/// The kernel's listener flags of the five tracepoints of a provider, as read
/// just before an export. They are advisory: a listener may come or go at any time.
#[derive(Debug, Clone, Copy, PartialEq, Eq, Structural)]
pub struct ListenerState {
    pub critical: bool,
    pub error: bool,
    pub warning: bool,
    pub informational: bool,
    pub verbose: bool,
}

impl ListenerState {
    /// No tracepoint is listened to; also the state of a platform without user_events.
    pub fn none() -> (r: ListenerState)
        ensures
            forall|level: u8| !(#[trigger] r.listening_at(level)),
    {
        ListenerState {
            critical: false,
            error: false,
            warning: false,
            informational: false,
            verbose: false,
        }
    }

    pub open spec fn listening_at(&self, level: u8) -> bool {
        if level == 1 {
            self.critical
        } else if level == 2 {
            self.error
        } else if level == 3 {
            self.warning
        } else if level == 4 {
            self.informational
        } else if level == 5 {
            self.verbose
        } else {
            false
        }
    }

    pub fn is_listening(&self, level: u8) -> (r: bool)
        ensures
            r == self.listening_at(level),
    {
        if level == 1 {
            self.critical
        } else if level == 2 {
            self.error
        } else if level == 3 {
            self.warning
        } else if level == 4 {
            self.informational
        } else if level == 5 {
            self.verbose
        } else {
            false
        }
    }
}

/// Why an export did not reach the kernel.
#[derive(Debug, Clone, Copy, PartialEq, Eq, Structural)]
pub enum ExportError {
    /// The exporter was shut down; nothing was written.
    ShutDown,
    /// The kernel refused a write, with this error number.
    WriteFailed(i32),
}

/// One record as the sink receives it: the tracepoint it goes to, the event
/// name, the record's own content, then the bound resource attributes.
#[derive(Debug)]
pub struct EncodedRecord {
    pub tracepoint: String,
    pub event_name: String,
    pub severity: u8,
    pub level: u8,
    pub timestamp: Option<u64>,
    pub body: Option<AttributeValue>,
    pub attributes: Vec<Attribute>,
    pub resource_attributes: Vec<Attribute>,
}

/// Writes log records to the user_events tracepoints of one provider.
#[derive(Debug)]
pub struct UserEventsExporter {
    provider_name: String,
    resource_attribute_keys: Vec<String>,
    resource_attributes: Vec<Attribute>,
    event_name_policy: EventNamePolicy,
    shut_down: bool,
}

/// The records of `batch` whose tracepoint has a listener, in batch order.
pub open spec fn listened_records(listeners: ListenerState, batch: Seq<LogRecordView>) -> Seq<
    LogRecordView,
>
    decreases batch.len(),
{
    if batch.len() == 0 {
        Seq::empty()
    } else {
        let earlier = listened_records(listeners, batch.drop_last());
        if listeners.listening_at(level_of(batch.last().severity)) {
            earlier.push(batch.last())
        } else {
            earlier
        }
    }
}

impl UserEventsExporter {
    pub closed spec fn provider_name(&self) -> Seq<char> {
        self.provider_name@
    }

    pub closed spec fn resource_keys(&self) -> Seq<String> {
        self.resource_attribute_keys@
    }

    pub closed spec fn resource_attributes(&self) -> Seq<Attribute> {
        self.resource_attributes@
    }

    pub closed spec fn policy(&self) -> EventNamePolicy {
        self.event_name_policy
    }

    pub closed spec fn is_shut_down(&self) -> bool {
        self.shut_down
    }

    pub open spec fn wf(&self) -> bool {
        is_valid_provider_name(self.provider_name())
    }

    /// The exporter as it stands after `shutdown`.
    pub closed spec fn after_shutdown(&self) -> UserEventsExporter {
        UserEventsExporter { shut_down: true, ..*self }
    }

    /// `out` is the encoding of `record` by this exporter.
    pub open spec fn encodes(&self, record: LogRecordView, out: EncodedRecord) -> bool {
        &&& out.tracepoint@ == tracepoint_name_of(self.provider_name(), level_of(record.severity))
        &&& out.event_name@ == self.policy().resolve_spec(record_name(&record))
        &&& out.severity == record.severity
        &&& out.level == level_of(record.severity)
        &&& out.timestamp == record.timestamp
        &&& out.body == record.body
        &&& out.attributes@ == record.attributes@
        &&& out.resource_attributes@ == self.resource_attributes()
    }

    /// `outs` encode `records`, one for one and in order.
    pub open spec fn encodes_all(&self, records: Seq<LogRecordView>, outs: Seq<EncodedRecord>) -> bool {
        &&& records.len() == outs.len()
        &&& forall|i: int| 0 <= i < records.len() ==> self.encodes(records[i], #[trigger] outs[i])
    }

    /// A record of this severity would be written now.
    pub open spec fn enabled_spec(&self, listeners: ListenerState, severity: u8) -> bool {
        !self.is_shut_down() && listeners.listening_at(level_of(severity))
    }

    pub fn new(
        provider_name: &str,
        resource_attribute_keys: Vec<String>,
        event_name_policy: EventNamePolicy,
    ) -> (r: UserEventsExporter)
        requires
            is_valid_provider_name(provider_name@),
        ensures
            r.wf(),
            r.provider_name() == provider_name@,
            r.resource_keys() == resource_attribute_keys@,
            r.resource_attributes().len() == 0,
            r.policy() == event_name_policy,
            !r.is_shut_down(),
    {
        UserEventsExporter {
            provider_name: String::from_str(provider_name),
            resource_attribute_keys,
            resource_attributes: Vec::new(),
            event_name_policy,
            shut_down: false,
        }
    }

    /// Whether a record of this severity would be written now; false once shut down.
    /// The target and name are accepted for the caller's convenience and do not decide.
    pub fn event_enabled(
        &self,
        listeners: &ListenerState,
        severity: u8,
        target: &str,
        name: Option<&str>,
    ) -> (r: bool)
        ensures
            r == self.enabled_spec(*listeners, severity),
    {
        !self.shut_down && listeners.is_listening(severity_level(severity))
    }

    /// Encodes one record for its tracepoint.
    pub fn encode(&self, record: &LogRecordView) -> (r: EncodedRecord)
        ensures
            self.encodes(*record, r),
    {
        let level = severity_level(record.severity);
        EncodedRecord {
            tracepoint: tracepoint_name(self.provider_name.as_str(), level),
            event_name: self.event_name_policy.resolve(record),
            severity: record.severity,
            level,
            timestamp: record.timestamp,
            body: duplicate_optional_value(&record.body),
            attributes: duplicate_attributes(&record.attributes),
            resource_attributes: duplicate_attributes(&self.resource_attributes),
        }
    }

    /// Exports one record: nothing when its tracepoint has no listener, and an
    /// error once shut down. The event name is worked out only for a record that is written.
    pub fn export_record(&self, listeners: &ListenerState, record: &LogRecordView) -> (r: Result<
        Option<EncodedRecord>,
        ExportError,
    >)
        ensures
            self.is_shut_down() ==> r == Err::<Option<EncodedRecord>, ExportError>(
                ExportError::ShutDown,
            ),
            !self.is_shut_down() ==> r is Ok,
            !self.is_shut_down() && !listeners.listening_at(level_of(record.severity)) ==> r
                == Ok::<Option<EncodedRecord>, ExportError>(None),
            !self.is_shut_down() && listeners.listening_at(level_of(record.severity)) ==> (r
                matches Ok(Some(out)) && self.encodes(*record, out)),
    {
        if self.shut_down {
            return Err(ExportError::ShutDown);
        }
        if !listeners.is_listening(severity_level(record.severity)) {
            return Ok(None);
        }
        Ok(Some(self.encode(record)))
    }

    /// Exports a batch: each record whose tracepoint has a listener is encoded,
    /// in batch order, and the others are skipped. Once shut down, nothing is
    /// encoded and the call reports `ShutDown`.
    pub fn export(&self, listeners: &ListenerState, batch: &Vec<LogRecordView>) -> (r: Result<
        Vec<EncodedRecord>,
        ExportError,
    >)
        ensures
            self.is_shut_down() ==> r == Err::<Vec<EncodedRecord>, ExportError>(
                ExportError::ShutDown,
            ),
            !self.is_shut_down() ==> (r matches Ok(outs) && self.encodes_all(
                listened_records(*listeners, batch@),
                outs@,
            )),
    {
        if self.shut_down {
            return Err(ExportError::ShutDown);
        }
        let mut outs: Vec<EncodedRecord> = Vec::new();
        let mut i: usize = 0;
        while i < batch.len()
            invariant
                !self.is_shut_down(),
                i <= batch@.len(),
                self.encodes_all(listened_records(*listeners, batch@.subrange(0, i as int)), outs@),
            decreases batch@.len() - i,
        {
            let ghost prefix = batch@.subrange(0, i as int + 1);
            assert(prefix.drop_last() =~= batch@.subrange(0, i as int));
            let r = self.export_record(listeners, &batch[i]);
            match r {
                Ok(Some(out)) => {
                    outs.push(out);
                },
                _ => {},
            }
            i = i + 1;
        }
        assert(batch@.subrange(0, batch@.len() as int) =~= batch@);
        Ok(outs)
    }

    /// Binds a new resource: from now on every record carries the attributes of
    /// `resource` whose keys are on the allow-list.
    pub fn set_resource(&mut self, resource: &Vec<Attribute>)
        ensures
            final(self).resource_attributes() == selected_attributes(
                resource@,
                old(self).resource_keys(),
            ),
            final(self).provider_name() == old(self).provider_name(),
            final(self).resource_keys() == old(self).resource_keys(),
            final(self).policy() == old(self).policy(),
            final(self).is_shut_down() == old(self).is_shut_down(),
    {
        self.resource_attributes = select_attributes(resource, &self.resource_attribute_keys);
    }

    /// Shuts the exporter down; always succeeds, also when called again.
    pub fn shutdown(&mut self) -> (r: Result<(), ExportError>)
        ensures
            r is Ok,
            *final(self) == old(self).after_shutdown(),
    {
        self.shut_down = true;
        Ok(())
    }
}

/// The listener gate alone decides whether a record is written: with no
/// listener on its tracepoint a record is skipped, without encoding and
/// without error, and the same exporter writes it once a listener attaches.
pub proof fn lemma_gate_follows_listeners(
    e: UserEventsExporter,
    off: ListenerState,
    on: ListenerState,
    record: LogRecordView,
)
    requires
        !e.is_shut_down(),
        !off.listening_at(level_of(record.severity)),
        on.listening_at(level_of(record.severity)),
    ensures
        !e.enabled_spec(off, record.severity),
        e.enabled_spec(on, record.severity),
        listened_records(off, seq![record]).len() == 0,
        listened_records(on, seq![record]) == seq![record],
{
    let one = seq![record];
    reveal_with_fuel(listened_records, 2);
    assert(one.drop_last() =~= Seq::<LogRecordView>::empty());
    assert(one.last() == record);
    assert(Seq::<LogRecordView>::empty().push(record) =~= one);
}

/// Every record exported after a resource is bound carries exactly the
/// attributes of that resource whose keys are on the allow-list, and all
/// records of an export carry the same ones.
pub proof fn lemma_records_carry_bound_resource(
    e: UserEventsExporter,
    resource: Seq<Attribute>,
    records: Seq<LogRecordView>,
    outs: Seq<EncodedRecord>,
)
    requires
        e.resource_attributes() == selected_attributes(resource, e.resource_keys()),
        e.encodes_all(records, outs),
    ensures
        forall|i: int, a: Attribute|
            0 <= i < outs.len() ==> (#[trigger] outs[i].resource_attributes@.contains(a) <==> (
            resource.contains(a) && key_listed(e.resource_keys(), a.key@))),
        forall|i: int, j: int|
            0 <= i < outs.len() && 0 <= j < outs.len() ==> (#[trigger] outs[i]).resource_attributes@
                == (#[trigger] outs[j]).resource_attributes@,
{
    lemma_selection_exact(resource, e.resource_keys());
    assert forall|i: int, a: Attribute| 0 <= i < outs.len() implies (
    #[trigger] outs[i].resource_attributes@.contains(a) <==> (resource.contains(a) && key_listed(
        e.resource_keys(),
        a.key@,
    ))) by {
        assert(e.encodes(records[i], outs[i]));
    }
    assert forall|i: int, j: int| 0 <= i < outs.len() && 0 <= j < outs.len() implies (
    #[trigger] outs[i]).resource_attributes@ == (#[trigger] outs[j]).resource_attributes@ by {
        assert(e.encodes(records[i], outs[i]));
        assert(e.encodes(records[j], outs[j]));
    }
}

/// Shutting down twice leaves the exporter as one shutdown does, and a shut
/// down exporter reports every tracepoint disabled.
pub proof fn lemma_shutdown_idempotent(e: UserEventsExporter)
    ensures
        e.after_shutdown().after_shutdown() == e.after_shutdown(),
        e.after_shutdown().is_shut_down(),
        e.after_shutdown().provider_name() == e.provider_name(),
        e.after_shutdown().resource_attributes() == e.resource_attributes(),
        forall|listeners: ListenerState, severity: u8|
            !(#[trigger] e.after_shutdown().enabled_spec(listeners, severity)),
{
}

/// The result of a batch of writes: the first error, if any write failed.
pub fn first_error(results: &Vec<Result<(), ExportError>>) -> (r: Result<(), ExportError>)
    ensures
        r is Ok <==> forall|i: int| 0 <= i < results@.len() ==> (#[trigger] results@[i]) is Ok,
        r is Err ==> exists|i: int|
            0 <= i < results@.len() && results@[i] == r && forall|j: int|
                0 <= j < i ==> (#[trigger] results@[j]) is Ok,
{
    let mut i: usize = 0;
    while i < results.len()
        invariant
            i <= results@.len(),
            forall|j: int| 0 <= j < i ==> (#[trigger] results@[j]) is Ok,
        decreases results@.len() - i,
    {
        if results[i].is_err() {
            return results[i];
        }
        i = i + 1;
    }
    Ok(())
}

} // verus!
