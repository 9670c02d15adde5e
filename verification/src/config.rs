//! The exporter's configuration: the Awair devices to poll.
use vstd::prelude::*;

verus! {

/// One Awair device: the name it is published under and the URL of its local API.
#[derive(Debug, Clone)]
pub struct Endpoint {
    name: String,
    url: String,
}

/// The devices the exporter polls, in the order they were configured.
#[derive(Debug, Clone)]
pub struct Config {
    endpoints: Vec<Endpoint>,
}

impl View for Endpoint {
    type V = (Seq<char>, Seq<char>);

    /// The device's name and URL.
    closed spec fn view(&self) -> (Seq<char>, Seq<char>) {
        (self.name@, self.url@)
    }
}

impl View for Config {
    type V = Seq<(Seq<char>, Seq<char>)>;

    /// The name and URL of each device, in order.
    closed spec fn view(&self) -> Seq<(Seq<char>, Seq<char>)> {
        self.endpoints@.map_values(|e: Endpoint| e@)
    }
}

impl Endpoint {
    /// A device named `name` reachable at `url`.
    pub fn new(name: String, url: String) -> (e: Endpoint)
        ensures
            e@ == (name@, url@),
    {
        Endpoint { name, url }
    }

    /// The name the device's metrics are published under.
    pub fn name(&self) -> (s: &str)
        ensures
            s@ == self@.0,
    {
        self.name.as_str()
    }

    /// The URL of the device's local API.
    pub fn url(&self) -> (s: &str)
        ensures
            s@ == self@.1,
    {
        self.url.as_str()
    }
}

impl Config {
    /// A configuration polling `endpoints`.
    pub fn new(endpoints: Vec<Endpoint>) -> (c: Config)
        ensures
            c@ == endpoints@.map_values(|e: Endpoint| e@),
    {
        Config { endpoints }
    }

    /// The configured devices.
    pub fn endpoints(&self) -> (es: &Vec<Endpoint>)
        ensures
            es@.map_values(|e: Endpoint| e@) == self@,
    {
        &self.endpoints
    }
}

} // verus!
