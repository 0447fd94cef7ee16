//! The processor that a logging pipeline drives, and its builder.
use vstd::prelude::*;
use crate::event_name::EventNamePolicy;
use crate::exporter::{EncodedRecord, ExportError, ListenerState, UserEventsExporter};
use crate::provider::{
    is_valid_provider_name, provider_name_check, validate_provider_name, ProviderNameError,
};
use crate::record::{selected_attributes, Attribute, LogRecordView};

verus! {

/// Exports each record synchronously, on the caller's thread, without
/// buffering; safe to share between producer threads.
#[derive(Debug)]
pub struct Processor {
    exporter: UserEventsExporter,
}

/// Configuration of a `Processor`: the provider name, the resource attribute
/// keys sent with every record (none by default), and the event-name policy
/// (`Default` unless set).
#[derive(Debug)]
pub struct ProcessorBuilder {
    provider_name: String,
    resource_attribute_keys: Vec<String>,
    event_name_policy: EventNamePolicy,
}

impl Processor {
    pub closed spec fn exporter(&self) -> UserEventsExporter {
        self.exporter
    }

    /// Starts the configuration of a processor for `provider_name`.
    pub fn builder(provider_name: &str) -> (r: ProcessorBuilder)
        ensures
            r.provider_name() == provider_name@,
            r.resource_keys().len() == 0,
            r.policy() == EventNamePolicy::Default,
    {
        ProcessorBuilder::new(provider_name)
    }

    /// Exports one record: `Some` holds what was written when its tracepoint
    /// has a listener; nothing happens when it has none or once shut down.
    pub fn emit(&self, listeners: &ListenerState, record: &LogRecordView) -> (r: Option<
        EncodedRecord,
    >)
        ensures
            self.exporter().enabled_spec(*listeners, record.severity) ==> (r matches Some(out)
                && self.exporter().encodes(*record, out)),
            !self.exporter().enabled_spec(*listeners, record.severity) ==> r is None,
    {
        match self.exporter.export_record(listeners, record) {
            Ok(out) => out,
            Err(_) => None,
        }
    }

    /// Nothing is buffered, so there is nothing to flush.
    pub fn force_flush(&self) -> (r: Result<(), ExportError>)
        ensures
            r is Ok,
    {
        Ok(())
    }

    /// Shuts the exporter down; succeeds every time it is called.
    pub fn shutdown(&mut self) -> (r: Result<(), ExportError>)
        ensures
            r is Ok,
            final(self).exporter() == old(self).exporter().after_shutdown(),
    {
        self.exporter.shutdown()
    }

    /// Whether a record of this severity would be written now.
    pub fn event_enabled(
        &self,
        listeners: &ListenerState,
        severity: u8,
        target: &str,
        name: Option<&str>,
    ) -> (r: bool)
        ensures
            r == self.exporter().enabled_spec(*listeners, severity),
    {
        self.exporter.event_enabled(listeners, severity, target, name)
    }

    /// Binds the process's current resource.
    pub fn set_resource(&mut self, resource: &Vec<Attribute>)
        ensures
            final(self).exporter().resource_attributes() == selected_attributes(
                resource@,
                old(self).exporter().resource_keys(),
            ),
            final(self).exporter().provider_name() == old(self).exporter().provider_name(),
            final(self).exporter().resource_keys() == old(self).exporter().resource_keys(),
            final(self).exporter().policy() == old(self).exporter().policy(),
            final(self).exporter().is_shut_down() == old(self).exporter().is_shut_down(),
    {
        self.exporter.set_resource(resource);
    }
}

impl ProcessorBuilder {
    pub closed spec fn provider_name(&self) -> Seq<char> {
        self.provider_name@
    }

    pub closed spec fn resource_keys(&self) -> Seq<String> {
        self.resource_attribute_keys@
    }

    pub closed spec fn policy(&self) -> EventNamePolicy {
        self.event_name_policy
    }

    /// A builder for `provider_name` with no resource attributes and the
    /// default event-name policy. The name is checked by `build`.
    pub fn new(provider_name: &str) -> (r: ProcessorBuilder)
        ensures
            r.provider_name() == provider_name@,
            r.resource_keys().len() == 0,
            r.policy() == EventNamePolicy::Default,
    {
        ProcessorBuilder {
            provider_name: String::from_str(provider_name),
            resource_attribute_keys: Vec::new(),
            event_name_policy: EventNamePolicy::Default,
        }
    }

    /// Sets the keys of the resource attributes sent with every record,
    /// replacing any set before.
    pub fn with_resource_attributes(self, attributes: Vec<String>) -> (r: ProcessorBuilder)
        ensures
            r.provider_name() == self.provider_name(),
            r.resource_keys() == attributes@,
            r.policy() == self.policy(),
    {
        ProcessorBuilder { resource_attribute_keys: attributes, ..self }
    }

    /// Sets the policy that names exported events.
    pub fn with_event_name_callback(self, policy: EventNamePolicy) -> (r: ProcessorBuilder)
        ensures
            r.provider_name() == self.provider_name(),
            r.resource_keys() == self.resource_keys(),
            r.policy() == policy,
    {
        ProcessorBuilder { event_name_policy: policy, ..self }
    }

    /// Builds the processor, or reports why the provider name is refused:
    /// empty, 234 bytes or longer, or holding a character other than an ASCII
    /// letter, digit or `_` (checked in that order).
    pub fn build(self) -> (r: Result<Processor, ProviderNameError>)
        ensures
            r is Ok <==> is_valid_provider_name(self.provider_name()),
            r is Err ==> provider_name_check(self.provider_name()) == Err::<(), ProviderNameError>(
                r->Err_0,
            ),
            r matches Ok(p) ==> {
                &&& p.exporter().wf()
                &&& p.exporter().provider_name() == self.provider_name()
                &&& p.exporter().resource_keys() == self.resource_keys()
                &&& p.exporter().resource_attributes().len() == 0
                &&& p.exporter().policy() == self.policy()
                &&& !p.exporter().is_shut_down()
            },
    {
        match validate_provider_name(self.provider_name.as_str()) {
            Err(e) => Err(e),
            Ok(()) => {
                let exporter = UserEventsExporter::new(
                    self.provider_name.as_str(),
                    self.resource_attribute_keys,
                    self.event_name_policy,
                );
                Ok(Processor { exporter })
            },
        }
    }
}

} // verus!
