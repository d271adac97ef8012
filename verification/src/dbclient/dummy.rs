//! A fixed-data backend used where a real one is not implemented.

use vstd::prelude::*;

use crate::dbclient::fetcher::clone_strings;
use crate::dbclient::fetcher::multiple_v;
use crate::dbclient::fetcher::FetchRequest;
use crate::dbclient::fetcher::FetchResult;
use crate::dbclient::fetcher::Fetcher;
use crate::dbclient::fetcher::FetcherError;

verus! {

/// A backend whose whole keyspace is a fixed list of object names.
pub struct DummyFetcher {
    objects: Vec<String>,
}

impl DummyFetcher {
    /// The fixed object names this backend serves.
    pub closed spec fn names(&self) -> Seq<Seq<char>> {
        self.objects.deep_view()
    }

    pub fn new() -> (r: Self)
        ensures
            r.names() =~= seq![
                "dummy_obj_1"@,
                "dummy_obj_2"@,
                "dummy_obj_3"@,
                "dummy_obj_4"@,
            ],
    {
        let mut objects: Vec<String> = Vec::new();
        objects.push("dummy_obj_1".to_owned());
        objects.push("dummy_obj_2".to_owned());
        objects.push("dummy_obj_3".to_owned());
        objects.push("dummy_obj_4".to_owned());
        Self { objects }
    }
}

impl Fetcher for DummyFetcher {
    /// Every fetch leaves the backend unchanged and answers with the
    /// fixed object list, whatever the request asks.
    open spec fn fetch_post(
        pre: Self,
        post: Self,
        request: FetchRequest,
        r: Result<FetchResult, FetcherError>,
    ) -> bool {
        &&& post == pre
        &&& (r matches Ok(fr) && fr@ == Option::Some(multiple_v(pre.names())))
    }

    open spec fn objects_post(pre: Self, post: Self, r: Result<FetchResult, FetcherError>) -> bool {
        &&& post == pre
        &&& (r matches Ok(fr) && fr@ == Option::Some(multiple_v(pre.names())))
    }

    fn fetch(&mut self, _request: &FetchRequest) -> (r: Result<FetchResult, FetcherError>) {
        let objects = clone_strings(&self.objects);
        proof {
            assert(objects.deep_view() =~= self.objects.deep_view());
        }
        Ok(FetchResult::multiple(objects))
    }

    fn fetch_db_objects(&mut self) -> (r: Result<FetchResult, FetcherError>) {
        let objects = clone_strings(&self.objects);
        proof {
            assert(objects.deep_view() =~= self.objects.deep_view());
        }
        Ok(FetchResult::multiple(objects))
    }
}

} // verus!
