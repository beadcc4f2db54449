use vstd::prelude::*;
use vstd::string::StrSliceExecFns;

use crate::text::{has_prefix, starts_with_text};

verus! {

/// Where log records of a service are shipped: the service's name, and the
/// `host:port` of the collector's TCP socket.
#[derive(Debug)]
pub struct VectorLayer {
    service_name: String,
    addr: String,
}

impl VectorLayer {
    pub fn new(service_name: &str, addr: &str) -> (r: Self)
        ensures
            r.service_name()@ == service_name@,
            r.addr()@ == addr@,
    {
        VectorLayer { service_name: service_name.to_owned(), addr: addr.to_owned() }
    }

    pub closed spec fn service_name(&self) -> String {
        self.service_name
    }

    pub closed spec fn addr(&self) -> String {
        self.addr
    }

    pub fn service_name_text(&self) -> (r: &String)
        ensures
            r@ == self.service_name()@,
    {
        &self.service_name
    }

    pub fn addr_text(&self) -> (r: &String)
        ensures
            r@ == self.addr()@,
    {
        &self.addr
    }
}

/// The collector's `host:port` from a configured endpoint: a leading
/// `http://` is dropped.
pub fn vector_address(endpoint: &str) -> (r: String)
    ensures
        r@ == if has_prefix(endpoint@, "http://"@) { endpoint@.skip(7) } else { endpoint@ },
{
    proof {
        reveal_strlit("http://");
    }
    if starts_with_text(endpoint, "http://") {
        let n = endpoint.unicode_len();
        let rest = endpoint.substring_char(7, n);
        assert(endpoint@.subrange(7, n as int) =~= endpoint@.skip(7));
        rest.to_owned()
    } else {
        endpoint.to_owned()
    }
}

} // verus!
