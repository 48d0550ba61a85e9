use vstd::prelude::*;

verus! {

/// Mathematical picture of a download request: the three identifying strings.
pub struct RequestView {
    pub bucket: Seq<char>,
    pub key: Seq<char>,
    pub destination: Seq<char>,
}

impl RequestView {
    /// A request is well formed when none of its three fields is empty.
    pub open spec fn wf(self) -> bool {
        self.bucket.len() > 0 && self.key.len() > 0 && self.destination.len() > 0
    }
}

/// One download request: which object to fetch and where to put it.
/// Constructed fresh per invocation and consumed by a single transfer.
#[derive(Debug, Clone)]
pub struct DownloadRequest {
    bucket: String,
    key: String,
    destination: String,
}

impl View for DownloadRequest {
    type V = RequestView;

    closed spec fn view(&self) -> RequestView {
        RequestView { bucket: self.bucket@, key: self.key@, destination: self.destination@ }
    }
}

impl DownloadRequest {
    /// Builds a request, rejecting one whose bucket, key or destination is empty.
    pub fn new(bucket: String, key: String, destination: String) -> (r: Option<DownloadRequest>)
        ensures
            r is Some <==> (bucket@.len() > 0 && key@.len() > 0 && destination@.len() > 0),
            r is Some ==> {
                let req = r->0;
                req@ == (RequestView { bucket: bucket@, key: key@, destination: destination@ })
                    && req@.wf()
            },
    {
        if bucket.as_str().unicode_len() == 0 || key.as_str().unicode_len() == 0
            || destination.as_str().unicode_len() == 0 {
            None
        } else {
            Some(DownloadRequest { bucket, key, destination })
        }
    }

    /// The bucket that holds the object.
    pub fn bucket(&self) -> (r: &str)
        ensures
            r@ == self@.bucket,
    {
        self.bucket.as_str()
    }

    /// The key that identifies the object within the bucket.
    pub fn key(&self) -> (r: &str)
        ensures
            r@ == self@.key,
    {
        self.key.as_str()
    }

    /// The local path the object is written to.
    pub fn destination(&self) -> (r: &str)
        ensures
            r@ == self@.destination,
    {
        self.destination.as_str()
    }
}

} // verus!
