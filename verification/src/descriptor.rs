//! The service descriptor: the immutable value object that describes one
//! user-level service.

use vstd::prelude::*;

verus! {

/// The mathematical model of a descriptor: every text field as a
/// sequence of characters.
pub ghost struct DescriptorModel {
    pub name: Seq<char>,
    pub description: Seq<char>,
    pub directory: Seq<char>,
    pub port: Option<u16>,
    pub pre_start_command: Option<Seq<char>>,
    pub start_command: Seq<char>,
    pub registered_domain: Option<Seq<char>>,
}

impl DescriptorModel {
    /// The descriptor invariant: the name is non-empty, and a domain is
    /// registered only for a service that listens on a port.
    pub open spec fn wf(self) -> bool {
        self.name.len() > 0 && (self.registered_domain is Some ==> self.port is Some)
    }
}

/// Describes one service: the unit file's basename, the fields of its
/// rendered unit text, and the optionally registered domain.
///
/// Values are built only through [`ServiceDescriptor::new`], so every
/// value satisfies [`DescriptorModel::wf`].
pub struct ServiceDescriptor {
    name: String,
    description: String,
    directory: String,
    port: Option<u16>,
    pre_start_command: Option<String>,
    start_command: String,
    registered_domain: Option<String>,
}

impl View for ServiceDescriptor {
    type V = DescriptorModel;

    closed spec fn view(&self) -> DescriptorModel {
        DescriptorModel {
            name: self.name@,
            description: self.description@,
            directory: self.directory@,
            port: self.port,
            pre_start_command: self.pre_start_command.deep_view(),
            start_command: self.start_command@,
            registered_domain: self.registered_domain.deep_view(),
        }
    }
}

impl ServiceDescriptor {
    /// Builds a descriptor from its parts; rejects the parts that break
    /// the invariant: an empty name, or a registered domain without a port.
    pub fn new(
        name: String,
        description: String,
        directory: String,
        port: Option<u16>,
        pre_start_command: Option<String>,
        start_command: String,
        registered_domain: Option<String>,
    ) -> (r: Option<ServiceDescriptor>)
        ensures
            r is Some <==> (name@.len() > 0 && (registered_domain is Some ==> port is Some)),
            r matches Some(d) ==> d@ == (DescriptorModel {
                name: name@,
                description: description@,
                directory: directory@,
                port: port,
                pre_start_command: pre_start_command.deep_view(),
                start_command: start_command@,
                registered_domain: registered_domain.deep_view(),
            }),
            r matches Some(d) ==> d@.wf(),
    {
        if name.as_str().is_empty() || (registered_domain.is_some() && port.is_none()) {
            None
        } else {
            Some(
                ServiceDescriptor {
                    name,
                    description,
                    directory,
                    port,
                    pre_start_command,
                    start_command,
                    registered_domain,
                },
            )
        }
    }

    /// The unit file's basename and the handle passed to the manager.
    pub fn name(&self) -> (r: &String)
        ensures
            r@ == self@.name,
    {
        &self.name
    }

    /// The free-text label of the unit.
    pub fn description(&self) -> (r: &String)
        ensures
            r@ == self@.description,
    {
        &self.description
    }

    /// The working directory the service runs in.
    pub fn directory(&self) -> (r: &String)
        ensures
            r@ == self@.directory,
    {
        &self.directory
    }

    /// The port the service listens on, if any.
    pub fn port(&self) -> (r: Option<u16>)
        ensures
            r == self@.port,
    {
        self.port
    }

    /// The command run, tolerantly, before the main command.
    pub fn pre_start_command(&self) -> (r: &Option<String>)
        ensures
            r.deep_view() == self@.pre_start_command,
    {
        &self.pre_start_command
    }

    /// The command that becomes the service's main process.
    pub fn start_command(&self) -> (r: &String)
        ensures
            r@ == self@.start_command,
    {
        &self.start_command
    }

    /// The domain registered for the service, if any.
    pub fn registered_domain(&self) -> (r: &Option<String>)
        ensures
            r.deep_view() == self@.registered_domain,
    {
        &self.registered_domain
    }
}

} // verus!
