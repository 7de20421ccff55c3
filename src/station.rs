use vstd::prelude::*;

verus! {

/// The station that a session plays: where its stream is, what it is called,
/// and the catalog's unique id for it. Read only by the pipeline.
#[derive(Debug)]
pub struct RadioStation {
    pub name: String,
    pub stationuuid: String,
    pub url: String,
}

impl RadioStation {
    pub fn new(url: &str, stationuuid: &str, name: &str) -> (s: Self)
        ensures
            s.url@ == url@,
            s.stationuuid@ == stationuuid@,
            s.name@ == name@,
    {
        RadioStation { name: name.to_owned(), stationuuid: stationuuid.to_owned(), url: url.to_owned() }
    }
}

} // verus!
