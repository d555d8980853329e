use vstd::prelude::*;

verus! {

/// One component of an application: a container and what it needs.
#[derive(Clone, Debug, PartialEq)]
pub struct GetAppPriceRequestComposeInner {
    /// Name of the component
    pub name: Option<String>,
    /// Description of the component
    pub description: Option<String>,
    /// Repository and tag of the image
    pub repotag: Option<String>,
    /// Ports that the component is reachable at
    pub ports: Option<Vec<i32>>,
    /// Domains of the ports
    pub domains: Option<Vec<String>>,
    /// Environment of the container
    pub environment_parameters: Option<Vec<String>>,
    /// Commands that the container starts with
    pub commands: Option<Vec<String>>,
    /// Ports of the container that the ports map to
    pub container_ports: Option<Vec<i32>>,
    /// Directory of the container that holds its data
    pub container_data: Option<String>,
    /// Processor share, in tenths of a core: from 1 to 150
    pub cpu: Option<i32>,
    /// Memory in MB: from 100 to 59000
    pub ram: Option<i32>,
    /// Disk in GB: from 1 to 840
    pub hdd: Option<i32>,
    /// Whether the requirements depend on the tier of the node
    pub tiered: Option<bool>,
    /// Secrets of the container; empty if there are none
    pub secrets: Option<String>,
    /// Credentials for the repository; empty if there are none
    pub repoauth: Option<String>,
}

impl GetAppPriceRequestComposeInner {
    /// A value with no field set.
    pub fn new() -> (value: GetAppPriceRequestComposeInner)
        ensures
            value == (GetAppPriceRequestComposeInner {
                name: None,
                description: None,
                repotag: None,
                ports: None,
                domains: None,
                environment_parameters: None,
                commands: None,
                container_ports: None,
                container_data: None,
                cpu: None,
                ram: None,
                hdd: None,
                tiered: None,
                secrets: None,
                repoauth: None,
            }),
    {
        GetAppPriceRequestComposeInner {
            name: None,
            description: None,
            repotag: None,
            ports: None,
            domains: None,
            environment_parameters: None,
            commands: None,
            container_ports: None,
            container_data: None,
            cpu: None,
            ram: None,
            hdd: None,
            tiered: None,
            secrets: None,
            repoauth: None,
        }
    }
}

/// Whether the API has carried out a request.
#[derive(Clone, Copy, Debug, Eq, PartialEq, Ord, PartialOrd, Hash, Structural)]
pub enum Status {
    Success,
    Error,
}

impl Default for Status {
    fn default() -> (value: Status)
        ensures
            value == Status::Success,
    {
        Self::Success
    }
}

} // verus!
