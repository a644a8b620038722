use vstd::prelude::*;
use vstd::std_specs::convert::IntoSpec;

use crate::codec::ResourceCodec;

verus! {

/// Direction that the resource is operating in.
#[derive(PartialEq, Eq, Structural, Clone, Copy, Debug)]
pub enum ResourceDirection {
    /// Resource will have the component pull data from it, or pull data from the component.
    ///
    /// For a source this is the source calling out to the resource and asking for data. For a
    /// sink this is the sink exposing an endpoint from which the resource grabs the data.
    Pull,
    /// Resource will push data to the component, or have data pushed to it from the component.
    ///
    /// For a source this is the resource initiating the transfer to a listening source. For a
    /// sink this is the sink sending its data to an endpoint that the resource exposes.
    Push,
}

/// Which side of the component under test the resource stands on.
#[derive(PartialEq, Eq, Structural, Clone, Copy, Debug)]
pub enum ResourceSide {
    /// The resource feeds a source.
    Input,
    /// The resource collects from a sink.
    Output,
}

/// The network role a resource plays.
#[derive(PartialEq, Eq, Structural, Clone, Copy, Debug)]
pub enum NetworkRole {
    /// It listens, and the component connects to it.
    Server,
    /// It connects to the component.
    Client,
}

/// The role that makes the counterpart of the transfer initiate it: the resource serves a
/// source that pulls and a sink that pushes, and connects to a source it pushes to and to a sink
/// it pulls from.
pub open spec fn spec_network_role(direction: ResourceDirection, side: ResourceSide) -> NetworkRole {
    match (direction, side) {
        (ResourceDirection::Pull, ResourceSide::Input) => NetworkRole::Server,
        (ResourceDirection::Push, ResourceSide::Input) => NetworkRole::Client,
        (ResourceDirection::Pull, ResourceSide::Output) => NetworkRole::Client,
        (ResourceDirection::Push, ResourceSide::Output) => NetworkRole::Server,
    }
}

/// Gets the network role of a resource in `direction` on `side`.
pub fn network_role(direction: ResourceDirection, side: ResourceSide) -> (r: NetworkRole)
    ensures
        r == spec_network_role(direction, side),
{
    match (direction, side) {
        (ResourceDirection::Pull, ResourceSide::Input) => NetworkRole::Server,
        (ResourceDirection::Push, ResourceSide::Input) => NetworkRole::Client,
        (ResourceDirection::Pull, ResourceSide::Output) => NetworkRole::Client,
        (ResourceDirection::Push, ResourceSide::Output) => NetworkRole::Server,
    }
}

/// Configuration of an HTTP resource.
#[derive(Debug)]
pub struct HttpConfig {
    /// The address the resource serves at, or connects to.
    pub uri: String,
}

impl HttpConfig {
    pub fn new(uri: String) -> (r: HttpConfig)
        ensures
            r.uri == uri,
    {
        HttpConfig { uri }
    }
}

/// A resource definition: the kind of resource, with the least information needed to stand it
/// up.
#[derive(Debug)]
pub enum ResourceDefinition {
    Http(HttpConfig),
}

impl From<HttpConfig> for ResourceDefinition {
    fn from(config: HttpConfig) -> (r: ResourceDefinition) {
        ResourceDefinition::Http(config)
    }
}

impl vstd::std_specs::convert::FromSpecImpl<HttpConfig> for ResourceDefinition {
    open spec fn obeys_from_spec() -> bool {
        true
    }

    open spec fn from_spec(config: HttpConfig) -> ResourceDefinition {
        ResourceDefinition::Http(config)
    }
}

/// What it takes to run an HTTP resource: its configuration, the direction and codec it
/// honours, the side of the component it stands on, and the role that follows from these.
#[derive(Debug)]
pub struct HttpResourceTask {
    pub config: HttpConfig,
    pub direction: ResourceDirection,
    pub codec: ResourceCodec,
    pub side: ResourceSide,
    pub role: NetworkRole,
}

/// A resource ready to run, one variant for each resource kind.
#[derive(Debug)]
pub enum ResourceTask {
    Http(HttpResourceTask),
}

/// An external resource associated with a component.
///
/// It stands for the place where the component's data comes from (for a source) or goes to (for
/// a sink): a network endpoint, a file and so on. The direction, together with the side of the
/// component the resource is spawned on, decides who initiates each transfer.
///
/// The resource is spawned once: both spawn operations take it by value.
pub struct ExternalResource {
    direction: ResourceDirection,
    definition: ResourceDefinition,
    codec: ResourceCodec,
}

/// The task that runs a resource made of `direction`, `definition` and `codec` on `side`.
pub open spec fn spec_task(
    direction: ResourceDirection,
    definition: ResourceDefinition,
    codec: ResourceCodec,
    side: ResourceSide,
) -> ResourceTask {
    match definition {
        ResourceDefinition::Http(config) => ResourceTask::Http(
            HttpResourceTask {
                config,
                direction,
                codec,
                side,
                role: spec_network_role(direction, side),
            },
        ),
    }
}

/// A resource spawned as the output of a sink with pull direction connects to the sink and
/// fetches the data itself; with push direction it listens and only receives what the sink
/// sends.
pub proof fn lemma_output_role_follows_direction(definition: ResourceDefinition, codec: ResourceCodec)
    ensures
        spec_task(ResourceDirection::Pull, definition, codec, ResourceSide::Output)->Http_0.role
            == NetworkRole::Client,
        spec_task(ResourceDirection::Push, definition, codec, ResourceSide::Output)->Http_0.role
            == NetworkRole::Server,
{
}

impl ExternalResource {
    pub closed spec fn spec_direction(&self) -> ResourceDirection {
        self.direction
    }

    pub closed spec fn spec_definition(&self) -> ResourceDefinition {
        self.definition
    }

    pub closed spec fn spec_codec(&self) -> ResourceCodec {
        self.codec
    }

    /// Creates a new `ExternalResource` based on the given `direction`, `definition`, and `codec`.
    pub fn new<D, C>(direction: ResourceDirection, definition: D, codec: C) -> (r: Self) where
        D: Into<ResourceDefinition>,
        C: Into<ResourceCodec>,

        ensures
            r.spec_direction() == direction,
            D::obeys_into_spec() ==> r.spec_definition() == definition.into_spec(),
            C::obeys_into_spec() ==> r.spec_codec() == codec.into_spec(),
    {
        ExternalResource { direction, definition: definition.into(), codec: codec.into() }
    }

    /// Prepares this resource for use as an input to a source: the task to run, which stands
    /// in for whatever the source reads from.
    pub fn spawn_as_input(self) -> (r: ResourceTask)
        ensures
            r == spec_task(
                self.spec_direction(),
                self.spec_definition(),
                self.spec_codec(),
                ResourceSide::Input,
            ),
    {
        self.into_task(ResourceSide::Input)
    }

    /// Prepares this resource for use as an output for a sink: the task to run, which collects
    /// what the sink emits.
    pub fn spawn_as_output(self) -> (r: ResourceTask)
        ensures
            r == spec_task(
                self.spec_direction(),
                self.spec_definition(),
                self.spec_codec(),
                ResourceSide::Output,
            ),
    {
        self.into_task(ResourceSide::Output)
    }

    fn into_task(self, side: ResourceSide) -> (r: ResourceTask)
        ensures
            r == spec_task(self.direction, self.definition, self.codec, side),
    {
        match self.definition {
            ResourceDefinition::Http(config) => ResourceTask::Http(
                HttpResourceTask {
                    config,
                    direction: self.direction,
                    codec: self.codec,
                    side,
                    role: network_role(self.direction, side),
                },
            ),
        }
    }
}

} // verus!
